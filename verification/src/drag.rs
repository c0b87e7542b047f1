//! Mouse-drag state machine.
//!
//! The drag controller has two states, idle and dragging.  A pointer-down
//! with a resolvable cursor position starts a drag and records the cursor in
//! `anchor`; a pointer-up ends it; while dragging, every pointer-move with a
//! resolvable cursor yields exactly one window-reposition command placing the
//! window's top-left at the cursor minus a fixed drag offset on both axes.
//! Pointer events that find the machine already in their target state are
//! no-ops: in particular a second pointer-down during a drag deliberately
//! keeps the original anchor rather than re-anchoring.  An unresolvable
//! cursor (`None`) makes the event a no-op as well.

use vstd::prelude::*;
use vstd::wrapping::i32_specs;

verus! {

/// State of the drag controller.  `anchor` holds the cursor position captured
/// at drag start; it is meaningless while `is_dragging` is false.
#[derive(Clone, Copy, Debug, PartialEq, Eq)]
pub struct DragState {
    pub is_dragging: bool,
    pub anchor: (i32, i32),
}

/// The controller's starting state: idle, with a zeroed anchor.
pub open spec fn initial_drag() -> DragState {
    DragState { is_dragging: false, anchor: (0, 0) }
}

/// Transition on pointer-down: an idle controller with a resolvable cursor
/// starts dragging and records the cursor as the anchor; a controller already
/// dragging, or one handed an unresolvable cursor, is left unchanged.
pub open spec fn down_step(s: DragState, cursor: Option<(i32, i32)>) -> DragState {
    if s.is_dragging {
        s
    } else {
        match cursor {
            Some(p) => DragState { is_dragging: true, anchor: p },
            None => s,
        }
    }
}

/// Transition on pointer-up: the controller returns to idle; the anchor is
/// left as it was (it is meaningless while idle).
pub open spec fn up_step(s: DragState) -> DragState {
    DragState { is_dragging: false, ..s }
}

/// The reposition command a pointer-move yields: while dragging with a
/// resolvable cursor `(cx, cy)`, the window's new top-left is
/// `(cx - offset, cy - offset)` (wrapping at the `i32` boundary, where no
/// real screen coordinate lives); otherwise no command is emitted.
pub open spec fn move_command(
    s: DragState,
    cursor: Option<(i32, i32)>,
    drag_offset: i32,
) -> Option<(i32, i32)> {
    if s.is_dragging {
        match cursor {
            Some(p) => Some(
                (i32_specs::wrapping_sub(p.0, drag_offset), i32_specs::wrapping_sub(
                    p.1,
                    drag_offset,
                )),
            ),
            None => None,
        }
    } else {
        None
    }
}

impl DragState {
    /// A fresh controller: idle, zeroed anchor.
    pub fn new() -> (s: DragState)
        ensures
            s == initial_drag(),
    {
        DragState { is_dragging: false, anchor: (0, 0) }
    }

    /// Handles a pointer-down event; `cursor` is the cursor position the
    /// host resolved, or `None` if the query failed.
    pub fn pointer_down(&mut self, cursor: Option<(i32, i32)>)
        ensures
            *final(self) == down_step(*old(self), cursor),
    {
        if !self.is_dragging {
            if let Some(p) = cursor {
                self.anchor = p;
                self.is_dragging = true;
            }
        }
    }

    /// Handles a pointer-up event: the drag, if any, ends.
    pub fn pointer_up(&mut self)
        ensures
            *final(self) == up_step(*old(self)),
    {
        self.is_dragging = false;
    }

    /// Handles a pointer-move event, returning the window-reposition command
    /// to send, if any: exactly one per move while dragging with a resolvable
    /// cursor, none otherwise.
    pub fn pointer_move(&self, cursor: Option<(i32, i32)>, drag_offset: i32) -> (cmd: Option<
        (i32, i32),
    >)
        ensures
            cmd == move_command(*self, cursor, drag_offset),
    {
        if self.is_dragging {
            match cursor {
                Some(p) => Some(
                    (p.0.wrapping_sub(drag_offset), p.1.wrapping_sub(drag_offset)),
                ),
                None => None,
            }
        } else {
            None
        }
    }
}

} // verus!
