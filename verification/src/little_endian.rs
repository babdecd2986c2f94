//! Little endian encoding of unsigned integers, as used by every header field on the wire.

use vstd::prelude::*;

verus! {

/// `256^n`.
pub open spec fn pow256(n: nat) -> nat
    decreases n,
{
    if n == 0 {
        1
    } else {
        256 * pow256((n - 1) as nat)
    }
}

/// The number whose little endian representation is `s` (least significant byte first).
pub open spec fn le_value(s: Seq<u8>) -> nat
    decreases s.len(),
{
    if s.len() == 0 {
        0
    } else {
        s[0] as nat + 256 * le_value(s.drop_first())
    }
}

/// The `n` least significant bytes of `v`, least significant byte first.
pub open spec fn le_bytes(v: nat, n: nat) -> Seq<u8>
    decreases n,
{
    if n == 0 {
        Seq::empty()
    } else {
        seq![(v % 256) as u8] + le_bytes(v / 256, (n - 1) as nat)
    }
}

pub proof fn lemma_pow256_8()
    ensures
        pow256(8) == 0x1_0000_0000_0000_0000,
        pow256(4) == 0x1_0000_0000,
{
    reveal_with_fuel(pow256, 9);
}

pub proof fn lemma_le_bytes_len(v: nat, n: nat)
    ensures
        le_bytes(v, n).len() == n,
    decreases n,
{
    if n > 0 {
        lemma_le_bytes_len(v / 256, (n - 1) as nat);
    }
}

/// Decoding what was encoded gives the number back, when it fits in `n` bytes.
pub proof fn lemma_le_value_of_bytes(v: nat, n: nat)
    requires
        v < pow256(n),
    ensures
        le_value(le_bytes(v, n)) == v,
        le_bytes(v, n).len() == n,
    decreases n,
{
    lemma_le_bytes_len(v, n);
    if n > 0 {
        let rest = le_bytes(v / 256, (n - 1) as nat);
        assert(v / 256 < pow256((n - 1) as nat)) by (nonlinear_arith)
            requires
                v < 256 * pow256((n - 1) as nat),
        ;
        lemma_le_value_of_bytes(v / 256, (n - 1) as nat);
        let s = le_bytes(v, n);
        assert(s.drop_first() =~= rest);
        assert(v == (v % 256) + 256 * (v / 256)) by (nonlinear_arith);
    }
}

/// A value decoded from `n` bytes fits in `n` bytes.
pub proof fn lemma_le_value_bound(s: Seq<u8>)
    ensures
        le_value(s) < pow256(s.len()),
    decreases s.len(),
{
    if s.len() > 0 {
        lemma_le_value_bound(s.drop_first());
        let r = le_value(s.drop_first());
        let p = pow256((s.len() - 1) as nat);
        assert(s[0] as nat + 256 * r < 256 * p) by (nonlinear_arith)
            requires
                r < p,
                s[0] < 256,
        ;
    }
}

/// Encoding what was decoded gives the bytes back.
pub proof fn lemma_le_bytes_of_value(s: Seq<u8>)
    ensures
        le_bytes(le_value(s), s.len()) == s,
    decreases s.len(),
{
    if s.len() > 0 {
        let v = le_value(s);
        let r = le_value(s.drop_first());
        lemma_le_bytes_of_value(s.drop_first());
        assert(v % 256 == s[0] as nat && v / 256 == r) by (nonlinear_arith)
            requires
                v == s[0] as nat + 256 * r,
                s[0] < 256,
        ;
        assert(le_bytes(v, s.len()) =~= s);
    }
}

proof fn lemma_le_value_step(s: Seq<u8>, k: int, n: int)
    requires
        0 <= k < n <= s.len(),
    ensures
        le_value(s.subrange(k, n)) == s[k] as nat + 256 * le_value(s.subrange(k + 1, n)),
{
    assert(s.subrange(k, n).drop_first() =~= s.subrange(k + 1, n));
}

/// Reads the eight bytes `bytes[at..at + 8]` as a little endian `u64`.
pub fn read_u64_le(bytes: &[u8], at: usize) -> (v: u64)
    requires
        at + 8 <= bytes@.len(),
    ensures
        v as nat == le_value(bytes@.subrange(at as int, at + 8)),
{
    let len = bytes.len();
    assert(at + 8 <= len);
    let x7 = bytes[at + 7] as u64;
    let x6 = bytes[at + 6] as u64 + 256 * x7;
    let x5 = bytes[at + 5] as u64 + 256 * x6;
    let x4 = bytes[at + 4] as u64 + 256 * x5;
    let x3 = bytes[at + 3] as u64 + 256 * x4;
    let x2 = bytes[at + 2] as u64 + 256 * x3;
    let x1 = bytes[at + 1] as u64 + 256 * x2;
    let x0 = bytes[at] as u64 + 256 * x1;
    proof {
        let s = bytes@;
        let a = at as int;
        assert(s.subrange(a + 8, a + 8) =~= Seq::<u8>::empty());
        lemma_le_value_step(s, a + 7, a + 8);
        lemma_le_value_step(s, a + 6, a + 8);
        lemma_le_value_step(s, a + 5, a + 8);
        lemma_le_value_step(s, a + 4, a + 8);
        lemma_le_value_step(s, a + 3, a + 8);
        lemma_le_value_step(s, a + 2, a + 8);
        lemma_le_value_step(s, a + 1, a + 8);
        lemma_le_value_step(s, a, a + 8);
    }
    x0
}

/// Reads the four bytes `bytes[at..at + 4]` as a little endian `u32`.
pub fn read_u32_le(bytes: &[u8], at: usize) -> (v: u32)
    requires
        at + 4 <= bytes@.len(),
    ensures
        v as nat == le_value(bytes@.subrange(at as int, at + 4)),
{
    let len = bytes.len();
    assert(at + 4 <= len);
    let x3 = bytes[at + 3] as u32;
    let x2 = bytes[at + 2] as u32 + 256 * x3;
    let x1 = bytes[at + 1] as u32 + 256 * x2;
    let x0 = bytes[at] as u32 + 256 * x1;
    proof {
        let s = bytes@;
        let a = at as int;
        assert(s.subrange(a + 4, a + 4) =~= Seq::<u8>::empty());
        lemma_le_value_step(s, a + 3, a + 4);
        lemma_le_value_step(s, a + 2, a + 4);
        lemma_le_value_step(s, a + 1, a + 4);
        lemma_le_value_step(s, a, a + 4);
    }
    x0
}

/// Appends the `n` least significant bytes of `v` to `out`, least significant first.
pub fn push_le(out: &mut Vec<u8>, v: u64, n: usize)
    requires
        n <= 8,
    ensures
        final(out)@ == old(out)@ + le_bytes(v as nat, n as nat),
{
    let mut x = v;
    let mut i: usize = 0;
    while i < n
        invariant
            i <= n,
            out@ + le_bytes(x as nat, (n - i) as nat) == old(out)@ + le_bytes(v as nat, n as nat),
        decreases n - i,
    {
        let ghost before = out@;
        assert(le_bytes(x as nat, (n - i) as nat) == seq![(x % 256) as u8] + le_bytes(
            (x / 256) as nat,
            (n - i - 1) as nat,
        ));
        out.push((x % 256) as u8);
        assert(out@ + le_bytes((x / 256) as nat, (n - i - 1) as nat) =~= before + le_bytes(
            x as nat,
            (n - i) as nat,
        ));
        x = x / 256;
        i = i + 1;
    }
    assert(le_bytes(x as nat, 0) =~= Seq::<u8>::empty());
    assert(out@ + Seq::<u8>::empty() =~= out@);
}

/// A 16 byte little endian field holding a 64 bit id: the id, then eight zero bytes.
pub open spec fn id16_bytes(id: nat) -> Seq<u8> {
    le_bytes(id, 8) + le_bytes(0, 8)
}

/// The 64 bit id a 16 byte field starting at `at` holds, when its upper half is zero.
pub open spec fn id16_value(b: Seq<u8>, at: int) -> Option<nat> {
    if le_value(b.subrange(at + 8, at + 16)) == 0 {
        Some(le_value(b.subrange(at, at + 8)))
    } else {
        None
    }
}

/// Appends a 16 byte field holding `id`.
pub fn push_id16(out: &mut Vec<u8>, id: u64)
    ensures
        final(out)@ == old(out)@ + id16_bytes(id as nat),
{
    let ghost before = out@;
    push_le(out, id, 8);
    push_le(out, 0, 8);
    assert(out@ =~= before + id16_bytes(id as nat));
}

/// Reads the 16 byte field at `at`: the id it holds, or `None` when its upper half is not zero.
pub fn read_id16(bytes: &[u8], at: usize) -> (r: Option<u64>)
    requires
        at + 16 <= bytes@.len(),
    ensures
        match r {
            Some(v) => id16_value(bytes@, at as int) == Some(v as nat),
            None => id16_value(bytes@, at as int) is None,
        },
{
    let len = bytes.len();
    assert(at + 16 <= len);
    let high = read_u64_le(bytes, at + 8);
    if high == 0 {
        Some(read_u64_le(bytes, at))
    } else {
        None
    }
}

/// The field of an id written with `push_id16` holds that id.
pub proof fn lemma_id16_roundtrip(prefix: Seq<u8>, id: nat, suffix: Seq<u8>)
    requires
        id < pow256(8),
    ensures
        id16_value(prefix + id16_bytes(id) + suffix, prefix.len() as int) == Some(id),
        id16_bytes(id).len() == 16,
{
    let b = prefix + id16_bytes(id) + suffix;
    let at = prefix.len() as int;
    lemma_le_value_of_bytes(id, 8);
    lemma_pow256_8();
    lemma_le_value_of_bytes(0, 8);
    assert(b.subrange(at, at + 8) =~= le_bytes(id, 8));
    assert(b.subrange(at + 8, at + 16) =~= le_bytes(0, 8));
}

/// Overwrites `buf[at..at + 8]` with the little endian bytes of `v`.
pub fn write_u64_le(buf: &mut Vec<u8>, at: usize, v: u64)
    requires
        at + 8 <= old(buf)@.len(),
    ensures
        final(buf)@ == old(buf)@.subrange(0, at as int) + le_bytes(v as nat, 8) + old(buf)@.subrange(
            at + 8,
            old(buf)@.len() as int,
        ),
{
    let len = buf.len();
    assert(at + 8 <= len);
    let ghost full = le_bytes(v as nat, 8);
    proof {
        lemma_le_bytes_len(v as nat, 8);
    }
    let mut x = v;
    let mut i: usize = 0;
    while i < 8
        invariant
            i <= 8,
            at + 8 <= buf@.len(),
            len == buf@.len(),
            buf@.len() == old(buf)@.len(),
            full.len() == 8,
            full == le_bytes(v as nat, 8),
            le_bytes(x as nat, (8 - i) as nat) =~= full.subrange(i as int, 8),
            forall|j: int| 0 <= j < at ==> buf@[j] == old(buf)@[j],
            forall|j: int| at + 8 <= j < buf@.len() ==> buf@[j] == old(buf)@[j],
            forall|j: int| 0 <= j < i ==> buf@[at + j] == full[j],
        decreases 8 - i,
    {
        assert(le_bytes(x as nat, (8 - i) as nat) == seq![(x % 256) as u8] + le_bytes(
            (x / 256) as nat,
            (8 - i - 1) as nat,
        ));
        assert(full[i as int] == le_bytes(x as nat, (8 - i) as nat)[0]);
        buf.set(at + i, (x % 256) as u8);
        assert(le_bytes((x / 256) as nat, (8 - i - 1) as nat) =~= le_bytes(
            x as nat,
            (8 - i) as nat,
        ).drop_first());
        x = x / 256;
        i = i + 1;
    }
    assert(buf@ =~= old(buf)@.subrange(0, at as int) + full + old(buf)@.subrange(
        at + 8,
        old(buf)@.len() as int,
    ));
}

} // verus!
