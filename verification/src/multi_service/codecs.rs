//! The encodings a multi service message payload can have.

use vstd::prelude::*;
use crate::error::{ErrorContext, ThesRemoteErr};
use crate::little_endian::{
    le_bytes, le_value, lemma_le_value_of_bytes, lemma_pow256_8, push_le, read_u32_le,
};
use crate::text::{owned, push_char};

verus! {

/// The supported encodings. Values come from the multiformats multicodec table where possible.
#[derive(Debug, Clone, Copy, PartialEq, Eq, Structural, Hash)]
pub enum Codecs {
    /// The payload is encoded as CBOR.
    CBOR,
    /// The payload is a UTF-8 string.
    UTF8,
}

/// The number of a codec: 0x51 for CBOR, 0x4000 for UTF-8.
pub open spec fn codec_number(c: Codecs) -> nat {
    match c {
        Codecs::CBOR => 0x51,
        Codecs::UTF8 => 0x4000,
    }
}

/// The codec with a given number, if any.
pub open spec fn codec_of_number(n: nat) -> Option<Codecs> {
    if n == 0x51 {
        Some(Codecs::CBOR)
    } else if n == 0x4000 {
        Some(Codecs::UTF8)
    } else {
        None
    }
}

impl Codecs {
    /// The number of this codec as a `u32`.
    pub fn to_u32(&self) -> (n: u32)
        ensures
            n == codec_number(*self),
            *self == Codecs::CBOR ==> n == 0x51,
            *self == Codecs::UTF8 ==> n == 0x4000,
    {
        match self {
            Codecs::CBOR => 0x51,
            Codecs::UTF8 => 0x4000,
        }
    }

    /// The codec with a given number.
    pub fn from_u32(n: u32) -> (r: Option<Codecs>)
        ensures
            r == codec_of_number(n as nat),
            n == 0x51 ==> r == Some(Codecs::CBOR),
            n == 0x4000 ==> r == Some(Codecs::UTF8),
            n != 0x51 && n != 0x4000 ==> r is None,
    {
        if n == 0x51 {
            Some(Codecs::CBOR)
        } else if n == 0x4000 {
            Some(Codecs::UTF8)
        } else {
            None
        }
    }

    /// The four byte little endian encoding of the codec number.
    pub fn to_bytes(&self) -> (r: Vec<u8>)
        ensures
            r@ == le_bytes(codec_number(*self), 4),
            *self == Codecs::CBOR ==> r@ == seq![0x51u8, 0x00u8, 0x00u8, 0x00u8],
            *self == Codecs::UTF8 ==> r@ == seq![0x00u8, 0x40u8, 0x00u8, 0x00u8],
    {
        let mut r: Vec<u8> = Vec::new();
        push_le(&mut r, self.to_u32() as u64, 4);
        assert(r@ =~= le_bytes(codec_number(*self), 4));
        proof {
            law_codec_numbers();
        }
        r
    }

    /// Reads a codec from the first four bytes (little endian); an error when the number is not
    /// that of a supported codec.
    pub fn try_from(bytes: &[u8]) -> (r: Result<Codecs, ThesRemoteErr>)
        requires
            bytes@.len() >= 4,
        ensures
            match codec_of_number(le_value(bytes@.subrange(0, 4))) {
                Some(c) => r == Ok::<Codecs, ThesRemoteErr>(c),
                None => r is Err && r->Err_0 is Deserialize,
            },
    {
        let n = read_u32_le(bytes, 0);
        match Codecs::from_u32(n) {
            Some(c) => Ok(c),
            None => {
                let mut ctx = ErrorContext::default();
                ctx.context = Some(owned("Codecs"));
                Err(ThesRemoteErr::Deserialize { ctx })
            },
        }
    }

    /// The display name: `CBOR` or `UTF8`.
    pub fn to_display_string(&self) -> (s: String)
        ensures
            s@ == match *self {
                Codecs::CBOR => seq!['C', 'B', 'O', 'R'],
                Codecs::UTF8 => seq!['U', 'T', 'F', '8'],
            },
    {
        let mut s = String::new();
        match self {
            Codecs::CBOR => {
                push_char(&mut s, 'C');
                push_char(&mut s, 'B');
                push_char(&mut s, 'O');
                push_char(&mut s, 'R');
            },
            Codecs::UTF8 => {
                push_char(&mut s, 'U');
                push_char(&mut s, 'T');
                push_char(&mut s, 'F');
                push_char(&mut s, '8');
            },
        }
        assert(s@ =~= match *self {
            Codecs::CBOR => seq!['C', 'B', 'O', 'R'],
            Codecs::UTF8 => seq!['U', 'T', 'F', '8'],
        });
        s
    }
}

/// Reading back the bytes of a codec gives that codec.
pub proof fn law_codecs_roundtrip(c: Codecs, rest: Seq<u8>)
    ensures
        codec_of_number(le_value((le_bytes(codec_number(c), 4) + rest).subrange(0, 4))) == Some(c),
{
    lemma_pow256_8();
    lemma_le_value_of_bytes(codec_number(c), 4);
    assert((le_bytes(codec_number(c), 4) + rest).subrange(0, 4) =~= le_bytes(codec_number(c), 4));
}

/// The codec numbers on the wire: CBOR is 0x51, written `51 00 00 00`, and UTF-8 is 0x4000,
/// written `00 40 00 00` (little endian); no other number names a codec.
pub proof fn law_codec_numbers()
    ensures
        codec_number(Codecs::CBOR) == 0x51,
        codec_number(Codecs::UTF8) == 0x4000,
        le_bytes(codec_number(Codecs::CBOR), 4) == seq![0x51u8, 0x00u8, 0x00u8, 0x00u8],
        le_bytes(codec_number(Codecs::UTF8), 4) == seq![0x00u8, 0x40u8, 0x00u8, 0x00u8],
        codec_of_number(0x51) == Some(Codecs::CBOR),
        codec_of_number(0x4000) == Some(Codecs::UTF8),
        forall|n: nat| n != 0x51 && n != 0x4000 ==> #[trigger] codec_of_number(n) is None,
{
    reveal_with_fuel(le_bytes, 5);
    assert(le_bytes(0x51, 4) =~= seq![0x51u8, 0x00u8, 0x00u8, 0x00u8]);
    assert(le_bytes(0x4000, 4) =~= seq![0x00u8, 0x40u8, 0x00u8, 0x00u8]);
}

} // verus!
