//! A counter of the slots available for processing incoming calls, with a queue of the tasks
//! waiting for a slot.

use vstd::prelude::*;

verus! {

/// The result of polling a wait on the back pressure.
#[derive(Debug, Clone, Copy, PartialEq, Eq)]
pub enum WaitPoll {
    /// A slot is available: the wait is over. When other tasks are queued, the first of them
    /// is handed on so it can check in turn.
    Ready { wake: Option<u64> },
    /// No slot is available: the waiting task has been queued and will be woken when slots
    /// are added.
    Pending,
}

/// Keeps track of the number of available slots for processing. Waiting on it is over as soon
/// as a slot is available; waiting does not take the slot: the processing of an incoming call
/// removes one, and the response to it gives it back. Tasks that find no slot queue up (each
/// by an id of the caller's choosing) and are woken, first queued first, when slots come back.
#[derive(Debug)]
pub struct BackPressure {
    available: u64,
    waiters: Vec<u64>,
}

impl BackPressure {
    /// The number of available slots.
    pub closed spec fn slots(&self) -> u64 {
        self.available
    }

    /// The tasks waiting for a slot, first queued first.
    pub closed spec fn queue(&self) -> Seq<u64> {
        self.waiters@
    }

    /// A counter with `slots` available slots and nobody waiting.
    pub fn new(slots: u64) -> (r: Self)
        ensures
            r.slots() == slots,
            r.queue() == Seq::<u64>::empty(),
    {
        BackPressure { available: slots, waiters: Vec::new() }
    }

    /// Adds `num` slots (the count wraps around at `u64::MAX`). When there were none before,
    /// the first queued task is taken off the queue and returned, to be woken.
    pub fn add_slots(&mut self, num: usize) -> (woken: Option<u64>)
        requires
            num > 0,
        ensures
            final(self).slots() == old(self).slots().wrapping_add(num as u64),
            old(self).slots() == 0 && old(self).queue().len() > 0 ==> {
                &&& woken == Some(old(self).queue()[0])
                &&& final(self).queue() == old(self).queue().drop_first()
            },
            !(old(self).slots() == 0 && old(self).queue().len() > 0) ==> {
                &&& woken is None
                &&& final(self).queue() == old(self).queue()
            },
    {
        let old_slots = self.available;
        self.available = self.available.wrapping_add(num as u64);
        if old_slots == 0 && self.waiters.len() > 0 {
            let w = self.waiters.remove(0);
            proof {
                assert(self.waiters@ =~= old(self).waiters@.drop_first());
            }
            Some(w)
        } else {
            None
        }
    }

    /// Takes `num` slots, down to zero at most.
    pub fn remove_slots(&mut self, num: usize)
        requires
            num > 0,
        ensures
            final(self).slots() == old(self).slots().saturating_sub(num as u64),
            final(self).queue() == old(self).queue(),
    {
        self.available = self.available.saturating_sub(num as u64);
    }

    /// The number of available slots.
    pub fn available(&self) -> (r: u64)
        ensures
            r == self.slots(),
    {
        self.available
    }

    /// Polls a wait by the task `waiter`. With a slot available the wait is over and the next
    /// queued task, if any, is taken off the queue to be woken; the slots stay as they are.
    /// Otherwise `waiter` joins the end of the queue.
    pub fn poll_wait(&mut self, waiter: u64) -> (r: WaitPoll)
        requires
            old(self).queue().len() < usize::MAX,
        ensures
            final(self).slots() == old(self).slots(),
            old(self).slots() > 0 && old(self).queue().len() > 0 ==> {
                &&& r == WaitPoll::Ready { wake: Some(old(self).queue()[0]) }
                &&& final(self).queue() == old(self).queue().drop_first()
            },
            old(self).slots() > 0 && old(self).queue().len() == 0 ==> {
                &&& r == WaitPoll::Ready { wake: None }
                &&& final(self).queue() == old(self).queue()
            },
            old(self).slots() == 0 ==> {
                &&& r == WaitPoll::Pending
                &&& final(self).queue() == old(self).queue().push(waiter)
            },
    {
        if self.available > 0 {
            if self.waiters.len() > 0 {
                let w = self.waiters.remove(0);
                proof {
                    assert(self.waiters@ =~= old(self).waiters@.drop_first());
                }
                WaitPoll::Ready { wake: Some(w) }
            } else {
                WaitPoll::Ready { wake: None }
            }
        } else {
            self.waiters.push(waiter);
            WaitPoll::Pending
        }
    }
}

} // verus!
