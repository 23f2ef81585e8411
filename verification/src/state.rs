//! The interaction state of a widget: a set of independent flags.

use vstd::prelude::*;

verus! {

/// The widget does not take part in input handling.
pub const STATE_INACTIVE: u32 = 1;

/// The pointer is over the widget.
pub const STATE_HOVERED: u32 = 2;

/// The pointer went down on the widget and has not been released yet.
pub const STATE_PRESSED: u32 = 4;

/// The widget is selected.
pub const STATE_SELECTED: u32 = 8;

/// The state with no flag set: an active widget that nothing points at.
pub const STATE_IDLE: u32 = 0;

/// A set of interaction flags.
#[derive(Clone, Copy, Debug, PartialEq, Eq, Structural)]
pub struct WidgetState {
    pub bits: u32,
}

impl WidgetState {
    /// Whether every flag of `flags` is set.
    pub open spec fn holds(self, flags: u32) -> bool {
        self.bits & flags == flags
    }

    /// Whether writing `bits` would alter the state, and so notify an
    /// observer.
    pub open spec fn differs_from(self, bits: u32) -> bool {
        self.bits != bits
    }

    /// The state with the flags of `flags` set.
    pub open spec fn with(self, flags: u32) -> WidgetState {
        WidgetState { bits: self.bits | flags }
    }

    /// The state with the flags of `flags` cleared.
    pub open spec fn without(self, flags: u32) -> WidgetState {
        WidgetState { bits: self.bits & !flags }
    }

    /// A state made of the given flags.
    pub fn new(bits: u32) -> (r: WidgetState)
        ensures
            r.bits == bits,
    {
        WidgetState { bits }
    }

    /// Whether every flag of `flags` is set.
    pub fn has_state(self, flags: u32) -> (r: bool)
        ensures
            r == self.holds(flags),
    {
        self.bits & flags == flags
    }

    /// Sets the flags of `flags` and leaves the others as they are.
    pub fn set_state(&mut self, flags: u32)
        ensures
            *final(self) == old(self).with(flags),
            final(self).holds(flags),
    {
        proof {
            let b = self.bits;
            assert((b | flags) & flags == flags) by (bit_vector);
        }
        self.bits = self.bits | flags;
    }

    /// Clears the flags of `flags` and leaves the others as they are.
    pub fn clear_state(&mut self, flags: u32)
        ensures
            *final(self) == old(self).without(flags),
            flags != 0 ==> !final(self).holds(flags),
    {
        proof {
            let b = self.bits;
            assert(flags != 0 ==> (b & !flags) & flags != flags) by (bit_vector);
        }
        self.bits = self.bits & !flags;
    }

    /// Replaces the whole set of flags and reports whether it changed. A
    /// caller notifies its observer exactly when this returns `true`.
    pub fn change_state(&mut self, bits: u32) -> (changed: bool)
        ensures
            final(self).bits == bits,
            changed == old(self).differs_from(bits),
            !final(self).differs_from(bits),
    {
        let previous = self.bits;
        self.bits = bits;
        previous != bits
    }
}

impl Default for WidgetState {
    fn default() -> (r: WidgetState)
        ensures
            r.bits == STATE_IDLE,
    {
        WidgetState { bits: STATE_IDLE }
    }
}

/// Writing the same flags twice changes the state at most once: after the
/// first write, a second write of the same flags reports no change, so the
/// observer of a widget is notified by the first write at most and never by
/// the second.
pub proof fn lemma_change_state_is_idempotent(state: WidgetState, bits: u32)
    ensures
        !(WidgetState { bits }).differs_from(bits),
        state.differs_from(bits) <==> state != (WidgetState { bits }),
{
}

/// Setting a flag and clearing it again leaves it cleared, whatever the
/// other flags are, and does not touch them.
pub proof fn lemma_set_then_clear(state: WidgetState, flags: u32, other: u32)
    requires
        flags & other == 0,
    ensures
        state.with(flags).without(flags).bits & flags == 0,
        state.with(flags).without(flags).holds(other) == state.holds(other),
        state.with(flags).holds(other) == state.holds(other),
{
    let b = state.bits;
    assert(((b | flags) & !flags) & flags == 0) by (bit_vector);
    assert(flags & other == 0 ==> (((b | flags) & !flags) & other == b & other)) by (bit_vector);
    assert(flags & other == 0 ==> ((b | flags) & other == b & other)) by (bit_vector);
}

} // verus!
