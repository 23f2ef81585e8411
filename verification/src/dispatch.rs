//! Routing of input events from the root of a tree to the node they are for.

use vstd::prelude::*;
use crate::input::InputEvent;
use crate::input::PointerEvent;
use crate::widget::Widget;

verus! {

/// What the dispatcher remembers between events: the node that received the
/// last event, and whether the pointer was pressed on it and not released
/// yet. Nodes are numbered as a hit test numbers them: 0 is the root.
#[derive(Clone, Copy, Debug, PartialEq, Eq, Structural)]
pub struct InputController {
    pub focus: Option<usize>,
    pub captured: bool,
}

/// The node an event is for: while the pointer is held down, the node it
/// went down on; for a turn of the wheel, the node under the pointer;
/// otherwise the node the event hits.
pub open spec fn target_of(
    controller: InputController,
    event: InputEvent,
    hit: Option<usize>,
) -> Option<usize> {
    if controller.captured || event is ScrollEvent {
        controller.focus
    } else {
        hit
    }
}

/// The node that the pointer has left, if any: the node that received the
/// last event, where the present event is for another node or for none.
pub open spec fn left_node(
    controller: InputController,
    event: InputEvent,
    hit: Option<usize>,
) -> Option<usize> {
    if controller.focus != target_of(controller, event, hit) {
        controller.focus
    } else {
        None
    }
}

/// What the dispatcher remembers after an event for `target`.
pub open spec fn controller_after(
    controller: InputController,
    event: InputEvent,
    target: Option<usize>,
) -> InputController {
    match event {
        InputEvent::PointerEvent(_, PointerEvent::Down) => InputController {
            focus: target,
            captured: target is Some,
        },
        InputEvent::PointerEvent(_, PointerEvent::Up) => InputController {
            focus: target,
            captured: false,
        },
        InputEvent::Cancel => InputController { focus: None, captured: false },
        InputEvent::ScrollEvent(_) => controller,
        _ => InputController { focus: target, captured: controller.captured && target is Some },
    }
}

/// The tree after the dispatcher delivered `event`, which hits `hit`: the
/// node the pointer has left is told that the gesture is over, then the
/// event is delivered to the node it is for. An index that names no node of
/// the tree is passed over.
pub open spec fn tree_after<W: Widget>(
    root: W,
    controller: InputController,
    event: InputEvent,
    hit: Option<usize>,
) -> W {
    let released = match left_node(controller, event, hit) {
        Some(node) => if node <= root.child_count() {
            root.after_input(node as nat, InputEvent::Cancel)
        } else {
            root
        },
        None => root,
    };
    match target_of(controller, event, hit) {
        Some(node) => if node <= released.child_count() {
            released.after_input(node as nat, event)
        } else {
            released
        },
        None => released,
    }
}

/// Whether delivering `event`, which hits `hit`, activates the node it is
/// for.
pub open spec fn dispatch_activates<W: Widget>(
    root: W,
    controller: InputController,
    event: InputEvent,
    hit: Option<usize>,
) -> bool {
    let released = match left_node(controller, event, hit) {
        Some(node) => if node <= root.child_count() {
            root.after_input(node as nat, InputEvent::Cancel)
        } else {
            root
        },
        None => root,
    };
    match target_of(controller, event, hit) {
        Some(node) => node <= released.child_count() && released.input_activates(
            node as nat,
            event,
        ),
        None => false,
    }
}

impl InputController {
    /// A dispatcher that has seen no event yet.
    pub fn new() -> (controller: Self)
        ensures
            controller == (InputController { focus: None, captured: false }),
    {
        InputController { focus: None, captured: false }
    }

    /// Decides which node an event that hits `hit` is for, and remembers
    /// what the next event needs. Returns the node the pointer has left, if
    /// any, and the node the event is for, if any.
    pub fn route(&mut self, event: InputEvent, hit: Option<usize>) -> (r: (
        Option<usize>,
        Option<usize>,
    ))
        ensures
            r.0 == left_node(*old(self), event, hit),
            r.1 == target_of(*old(self), event, hit),
            *final(self) == controller_after(*old(self), event, r.1),
    {
        let wheel = match event {
            InputEvent::ScrollEvent(_) => true,
            _ => false,
        };
        let target = if self.captured || wheel {
            self.focus
        } else {
            hit
        };
        let same = match (self.focus, target) {
            (Some(a), Some(b)) => a == b,
            (None, None) => true,
            _ => false,
        };
        let left = if same {
            None
        } else {
            self.focus
        };
        match event {
            InputEvent::PointerEvent(_, PointerEvent::Down) => {
                self.focus = target;
                self.captured = target.is_some();
            },
            InputEvent::PointerEvent(_, PointerEvent::Up) => {
                self.focus = target;
                self.captured = false;
            },
            InputEvent::Cancel => {
                self.focus = None;
                self.captured = false;
            },
            InputEvent::ScrollEvent(_) => {},
            _ => {
                self.focus = target;
                self.captured = self.captured && target.is_some();
            },
        }
        (left, target)
    }

    /// Hit-tests `event` on the tree and delivers it: to the node the
    /// pointer went down on while it is held down, otherwise to the deepest
    /// node the event hits. A node that the pointer has left is told first
    /// that the gesture is over, so that it is neither hovered nor pressed
    /// any more. Each delivery reaches the path from the root to the node:
    /// the nodes on it that keep flags take the flags the node took. Returns
    /// whether the event activated the node it was delivered to.
    pub fn dispatch<W: Widget>(&mut self, root: &mut W, event: InputEvent) -> (activated: bool)
        requires
            old(root).wf(),
        ensures
            ({
                let hit = match old(root).hit(event) {
                    Some(node) => Some(node as usize),
                    None => None,
                };
                &&& *final(root) == tree_after(*old(root), *old(self), event, hit)
                &&& activated == dispatch_activates(*old(root), *old(self), event, hit)
                &&& *final(self) == controller_after(
                    *old(self),
                    event,
                    target_of(*old(self), event, hit),
                )
            }),
            final(root).wf(),
            final(root).child_count() == old(root).child_count(),
    {
        let hit = root.test_input(event);
        let (left, target) = self.route(event, hit);
        let count = root.children();
        match left {
            Some(node) => {
                if node <= count {
                    root.handle_input(node, InputEvent::Cancel);
                }
            },
            None => {},
        }
        match target {
            Some(node) => {
                if node <= count {
                    root.handle_input(node, event).activated
                } else {
                    false
                }
            },
            None => false,
        }
    }
}

} // verus!
