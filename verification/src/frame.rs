//! The pacing of frames: a frame records into one of a few slots, and the
//! slots are used in a ring, so that a slot is used again only after the
//! others have been.

use vstd::prelude::*;

verus! {

/// Where a frame is in its life.
#[derive(Clone, Copy, Debug, PartialEq, Eq, Structural)]
pub enum FrameState {
    /// No frame is being made.
    Idle,
    /// The frame takes draws.
    Recording,
    /// The frame was handed to the GPU and waits to be shown.
    Submitted,
}

pub struct FrameSubmitter {
    in_flight: u32,
    slot: u32,
}

/// The slot that comes `frames` frames after `slot` in a ring of `in_flight`
/// slots.
pub open spec fn slot_after(slot: nat, frames: nat, in_flight: nat) -> nat
    recommends
        in_flight > 0,
{
    (slot + frames) % in_flight
}

impl FrameSubmitter {
    pub closed spec fn wf(&self) -> bool {
        self.slot < self.in_flight
    }

    /// How many frames may be under way at once.
    pub closed spec fn in_flight(&self) -> nat {
        self.in_flight as nat
    }

    /// The slot of the frame that is made now.
    pub closed spec fn slot(&self) -> nat {
        self.slot as nat
    }

    /// A ring of `in_flight` slots, beginning with slot 0.
    pub fn new(in_flight: u32) -> (submitter: FrameSubmitter)
        requires
            in_flight > 0,
        ensures
            submitter.wf(),
            submitter.in_flight() == in_flight,
            submitter.slot() == 0,
    {
        FrameSubmitter { in_flight, slot: 0 }
    }

    pub fn current_slot(&self) -> (slot: u32)
        requires
            self.wf(),
        ensures
            slot == self.slot(),
            slot < self.in_flight(),
    {
        self.slot
    }

    /// Goes on to the slot of the next frame.
    pub fn submit(&mut self)
        requires
            old(self).wf(),
        ensures
            final(self).wf(),
            final(self).in_flight() == old(self).in_flight(),
            final(self).slot() == slot_after(old(self).slot(), 1, old(self).in_flight()),
    {
        if self.slot + 1 == self.in_flight {
            assert((self.slot + 1) as int % self.in_flight as int == 0) by (nonlinear_arith)
                requires
                    self.slot + 1 == self.in_flight,
                    self.in_flight > 0,
            ;
            self.slot = 0;
        } else {
            assert((self.slot + 1) as int % self.in_flight as int == self.slot + 1)
                by (nonlinear_arith)
                requires
                    self.slot + 1 < self.in_flight,
            ;
            self.slot = self.slot + 1;
        }
    }
}

/// Going on frame by frame is going on by the number of frames.
pub proof fn lemma_slots_add(slot: nat, frames: nat, in_flight: nat)
    requires
        in_flight > 0,
    ensures
        slot_after(slot_after(slot, frames, in_flight), 1, in_flight) == slot_after(
            slot,
            frames + 1,
            in_flight,
        ),
{
    vstd::arithmetic::div_mod::lemma_add_mod_noop(
        (slot + frames) as int,
        1,
        in_flight as int,
    );
    vstd::arithmetic::div_mod::lemma_mod_twice((slot + frames) as int, in_flight as int);
    vstd::arithmetic::div_mod::lemma_add_mod_noop(
        ((slot + frames) % in_flight) as int,
        1,
        in_flight as int,
    );
}

/// Frames that are under way at once have different slots: a slot comes up
/// again only after `in_flight` frames.
pub proof fn lemma_slots_apart(slot: nat, frames: nat, in_flight: nat)
    requires
        slot < in_flight,
        0 < frames < in_flight,
    ensures
        slot_after(slot, frames, in_flight) != slot,
        slot_after(slot, in_flight, in_flight) == slot,
{
    if slot + frames < in_flight {
        vstd::arithmetic::div_mod::lemma_small_mod(slot + frames, in_flight);
    } else {
        vstd::arithmetic::div_mod::lemma_mod_sub_multiples_vanish(
            (slot + frames) as int,
            in_flight as int,
        );
        vstd::arithmetic::div_mod::lemma_small_mod(
            (slot + frames - in_flight) as nat,
            in_flight,
        );
    }
    vstd::arithmetic::div_mod::lemma_mod_sub_multiples_vanish(
        (slot + in_flight) as int,
        in_flight as int,
    );
    vstd::arithmetic::div_mod::lemma_small_mod(slot, in_flight);
}

} // verus!
