//! Normalized input events and the pointer interaction rules.

use vstd::prelude::*;
use crate::geometry::BoundingBox;
use crate::geometry::Position;
use crate::state::WidgetState;
use crate::state::STATE_HOVERED;
use crate::state::STATE_INACTIVE;
use crate::state::STATE_PRESSED;

verus! {

/// What the pointer did.
#[derive(Clone, Copy, Debug, PartialEq, Eq, Structural)]
pub enum PointerEvent {
    /// The pointer moved with no button held.
    Hover,
    /// The button went down.
    Down,
    /// The pointer moved with the button held.
    Drag,
    /// The button was released.
    Up,
}

/// A scroll wheel movement.
#[derive(Clone, Copy, Debug, PartialEq, Eq, Structural)]
pub enum ScrollEvent {
    HorizontalScroll(i32),
    VerticalScroll(i32),
}

/// An input event in the terms of this toolkit, whatever the platform.
#[derive(Clone, Copy, Debug, PartialEq, Eq, Structural)]
pub enum InputEvent {
    /// The pointer left the display or the gesture was abandoned.
    Cancel,
    /// The pointer did something at a position.
    PointerEvent(Position, PointerEvent),
    /// The wheel was turned.
    ScrollEvent(ScrollEvent),
}

impl InputEvent {
    /// Whether the event is a pointer event at a position inside `bounds`.
    pub open spec fn lands_in(self, bounds: BoundingBox) -> bool {
        match self {
            InputEvent::PointerEvent(position, _) => bounds.covers(position),
            _ => false,
        }
    }

    /// Whether the event is a pointer event at a position inside `bounds`.
    pub fn is_inside(&self, bounds: &BoundingBox) -> (r: bool)
        ensures
            r == self.lands_in(*bounds),
    {
        match self {
            InputEvent::PointerEvent(position, _) => bounds.contains(*position),
            _ => false,
        }
    }
}

/// What delivering an event to a node of a tree did.
#[derive(Clone, Copy, Debug, PartialEq, Eq, Structural)]
pub struct Delivery {
    /// Whether the event activated the node it was delivered to.
    pub activated: bool,
    /// The flags that node has taken, if it keeps flags that input changes.
    /// The nodes above it, on the path from the root, take the same flags.
    pub flags: Option<u32>,
}

/// The outcome of one input event on an interactive widget.
#[derive(Clone, Copy, Debug, PartialEq, Eq, Structural)]
pub struct Interaction {
    /// The flags the widget has after the event.
    pub state: WidgetState,
    /// Whether the widget's activation callback is to be invoked.
    pub activated: bool,
}

/// The flags an interactive widget has after `event`, given the flags it had
/// and whether the event's position lies inside its bounds.
pub open spec fn next_state(state: WidgetState, event: InputEvent, inside: bool) -> WidgetState {
    if state.holds(STATE_INACTIVE) {
        state
    } else {
        match event {
            InputEvent::PointerEvent(_, PointerEvent::Hover) => if inside {
                state.with(STATE_HOVERED)
            } else {
                state.without(STATE_HOVERED | STATE_PRESSED)
            },
            InputEvent::PointerEvent(_, PointerEvent::Down) => if inside {
                state.with(STATE_HOVERED | STATE_PRESSED)
            } else {
                state.without(STATE_HOVERED | STATE_PRESSED)
            },
            InputEvent::PointerEvent(_, PointerEvent::Drag) => if inside {
                state.with(STATE_HOVERED)
            } else {
                state.without(STATE_HOVERED | STATE_PRESSED)
            },
            InputEvent::PointerEvent(_, PointerEvent::Up) => if inside {
                state.without(STATE_PRESSED).with(STATE_HOVERED)
            } else {
                state.without(STATE_HOVERED | STATE_PRESSED)
            },
            InputEvent::Cancel => state.without(STATE_HOVERED | STATE_PRESSED),
            InputEvent::ScrollEvent(_) => state,
        }
    }
}

/// Whether `event` activates an interactive widget: the button is released
/// inside the bounds of an active widget that was pressed.
pub open spec fn activates(state: WidgetState, event: InputEvent, inside: bool) -> bool {
    &&& !state.holds(STATE_INACTIVE)
    &&& state.holds(STATE_PRESSED)
    &&& inside
    &&& event matches InputEvent::PointerEvent(_, PointerEvent::Up)
}

/// Applies one input event to the flags of an interactive widget.
///
/// Hovering inside the bounds sets Hovered and leaving them clears it. A
/// press inside sets Pressed. A release inside while pressed activates the
/// widget and clears Pressed. A release outside, the pointer leaving, or a
/// cancelled gesture clears Pressed without activating. An inactive widget is
/// left as it is and never activates.
pub fn interact(state: WidgetState, event: InputEvent, inside: bool) -> (r: Interaction)
    ensures
        r.state == next_state(state, event, inside),
        r.activated == activates(state, event, inside),
{
    if state.has_state(STATE_INACTIVE) {
        return Interaction { state, activated: false };
    }
    let mut next = state;
    let mut activated = false;
    match event {
        InputEvent::PointerEvent(_, pointer) => {
            if inside {
                match pointer {
                    PointerEvent::Hover => {
                        next.set_state(STATE_HOVERED);
                    },
                    PointerEvent::Down => {
                        next.set_state(STATE_HOVERED | STATE_PRESSED);
                    },
                    PointerEvent::Drag => {
                        next.set_state(STATE_HOVERED);
                    },
                    PointerEvent::Up => {
                        activated = state.has_state(STATE_PRESSED);
                        next.clear_state(STATE_PRESSED);
                        next.set_state(STATE_HOVERED);
                    },
                }
            } else {
                next.clear_state(STATE_HOVERED | STATE_PRESSED);
            }
        },
        InputEvent::Cancel => {
            next.clear_state(STATE_HOVERED | STATE_PRESSED);
        },
        InputEvent::ScrollEvent(_) => {},
    }
    Interaction { state: next, activated }
}

/// What an activation does to the selection of a widget that can be
/// selected.
#[derive(Clone, Copy, Debug, PartialEq, Eq, Structural)]
pub enum SelectionPolicy {
    /// The widget becomes selected and stays so: a radio button, which only
    /// the choice of another button of its group deselects.
    Select,
    /// The selection flips: a check box or a toggle button.
    Flip,
    /// The selection flips to selected, and a selected widget stays so: a
    /// toggle button that cannot be released by hand.
    FlipOn,
}

/// Whether a widget is selected after an activation.
pub open spec fn selection_after(policy: SelectionPolicy, selected: bool) -> bool {
    match policy {
        SelectionPolicy::Select => true,
        SelectionPolicy::Flip => !selected,
        SelectionPolicy::FlipOn => true,
    }
}

/// Decides whether a widget is selected after an activation.
pub fn activate_selection(policy: SelectionPolicy, selected: bool) -> (r: bool)
    ensures
        r == selection_after(policy, selected),
{
    match policy {
        SelectionPolicy::Select => true,
        SelectionPolicy::Flip => !selected,
        SelectionPolicy::FlipOn => true,
    }
}

/// Whether a widget with these flags and bounds answers a hit test for
/// `event`: it is active and the event lands inside its bounds.
pub open spec fn is_hit(state: WidgetState, bounds: BoundingBox, event: InputEvent) -> bool {
    !state.holds(STATE_INACTIVE) && event.lands_in(bounds)
}

/// Tests whether an event hits a widget with these flags and bounds. An
/// inactive widget is transparent to input.
pub fn hit_test(state: WidgetState, bounds: &BoundingBox, event: InputEvent) -> (r: bool)
    ensures
        r == is_hit(state, *bounds, event),
{
    !state.has_state(STATE_INACTIVE) && event.is_inside(bounds)
}

/// A press inside the bounds followed by a release outside them leaves the
/// widget neither pressed nor hovered, and neither event activates it.
pub proof fn lemma_press_then_release_outside(state: WidgetState, down: Position, up: Position)
    requires
        !state.holds(STATE_INACTIVE),
    ensures
        ({
            let pressed = next_state(
                state,
                InputEvent::PointerEvent(down, PointerEvent::Down),
                true,
            );
            let released = next_state(
                pressed,
                InputEvent::PointerEvent(up, PointerEvent::Up),
                false,
            );
            &&& pressed.holds(STATE_PRESSED)
            &&& !released.holds(STATE_PRESSED)
            &&& !released.holds(STATE_HOVERED)
            &&& !activates(state, InputEvent::PointerEvent(down, PointerEvent::Down), true)
            &&& !activates(pressed, InputEvent::PointerEvent(up, PointerEvent::Up), false)
        }),
{
    let b = state.bits;
    let both = STATE_HOVERED | STATE_PRESSED;
    assert(both == 6) by (bit_vector)
        requires
            both == 2u32 | 4u32,
    ;
    assert(b & 1 != 1 ==> ((b | 6) & 4 == 4 && (b | 6) & 1 != 1 && ((b | 6) & !6u32) & 4 != 4 && ((b
        | 6) & !6u32) & 2 != 2)) by (bit_vector);
}

/// A press inside the bounds followed by a release inside them activates the
/// widget once, on the release, and leaves it hovered and not pressed.
pub proof fn lemma_press_then_release_inside(state: WidgetState, down: Position, up: Position)
    requires
        !state.holds(STATE_INACTIVE),
    ensures
        ({
            let pressed = next_state(
                state,
                InputEvent::PointerEvent(down, PointerEvent::Down),
                true,
            );
            let released = next_state(
                pressed,
                InputEvent::PointerEvent(up, PointerEvent::Up),
                true,
            );
            &&& activates(pressed, InputEvent::PointerEvent(up, PointerEvent::Up), true)
            &&& !released.holds(STATE_PRESSED)
            &&& released.holds(STATE_HOVERED)
        }),
{
    let b = state.bits;
    let both = STATE_HOVERED | STATE_PRESSED;
    assert(both == 6) by (bit_vector)
        requires
            both == 2u32 | 4u32,
    ;
    assert(b & 1 != 1 ==> ((b | 6) & 4 == 4 && (b | 6) & 1 != 1 && (((b | 6) & !4u32) | 2) & 4 != 4
        && (((b | 6) & !4u32) | 2) & 2 == 2)) by (bit_vector);
}

/// No event changes the flags of an inactive widget or activates it.
pub proof fn lemma_inactive_is_inert(state: WidgetState, event: InputEvent, inside: bool)
    requires
        state.holds(STATE_INACTIVE),
    ensures
        next_state(state, event, inside) == state,
        !activates(state, event, inside),
{
}

} // verus!
