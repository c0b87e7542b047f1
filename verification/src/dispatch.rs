//! Event dispatcher.
//!
//! The window host delivers events serially — window-close, pointer
//! down/up/move, timer tick — and performs the commands the core hands back:
//! repositioning the window, setting the label text, stopping the dispatch
//! loop.  [`OverlayApp`] is the whole application state; its
//! [`handle_event`](OverlayApp::handle_event) routes each event to the drag
//! controller or the refresh logic and emits at most one command.  After a
//! window-close event the dispatcher is stopped: it emits nothing further and
//! no later event changes its state.

use vstd::prelude::*;

use crate::drag::{down_step, initial_drag, move_command, up_step, DragState};
use crate::snapshot::{spec_sample, MemorySnapshot, SysData};
use crate::textfmt::{format_memory_text, spec_memory_text};

verus! {

/// One event delivered by the window host.  Cursor positions come already
/// resolved by the host (`None` when the cursor query failed); a timer tick
/// carries the host's raw memory query outcome (`None` when that failed).
pub enum HostEvent {
    WindowClose,
    PointerDown { cursor: Option<(i32, i32)> },
    PointerUp,
    PointerMove { cursor: Option<(i32, i32)> },
    TimerTick { sample: Option<SysData> },
}

/// One command for the window host to perform.  All are fire-and-forget:
/// the host may fail to perform them and the core never learns of it.
pub enum HostCommand {
    SetWindowPosition { x: i32, y: i32 },
    SetLabelText { text: String },
    StopDispatch,
}

/// The application state: the drag controller's state, the configured drag
/// offset in pixels, and whether dispatch has been stopped.
#[derive(Clone, Copy, Debug, PartialEq, Eq)]
pub struct OverlayApp {
    pub drag: DragState,
    pub drag_offset: i32,
    pub stopped: bool,
}

/// The state after one event: a stopped dispatcher never changes; otherwise
/// window-close stops it, pointer down/up drive the drag controller, and
/// pointer-move and timer ticks leave the state alone.
pub open spec fn spec_step(s: OverlayApp, e: HostEvent) -> OverlayApp {
    if s.stopped {
        s
    } else {
        match e {
            HostEvent::WindowClose => OverlayApp { stopped: true, ..s },
            HostEvent::PointerDown { cursor } => OverlayApp { drag: down_step(s.drag, cursor), ..s },
            HostEvent::PointerUp => OverlayApp { drag: up_step(s.drag), ..s },
            HostEvent::PointerMove { .. } => s,
            HostEvent::TimerTick { .. } => s,
        }
    }
}

/// The window-reposition command one event emits, if any: only a
/// pointer-move while dragging (and not stopped) emits one.
pub open spec fn spec_reposition(s: OverlayApp, e: HostEvent) -> Option<(i32, i32)> {
    if s.stopped {
        None
    } else {
        match e {
            HostEvent::PointerMove { cursor } => move_command(s.drag, cursor, s.drag_offset),
            _ => None,
        }
    }
}

/// Whether one event emits a stop-dispatch command: exactly the first
/// window-close.
pub open spec fn spec_stop_emitted(s: OverlayApp, e: HostEvent) -> bool {
    !s.stopped && e is WindowClose
}

/// The snapshot whose label text one event emits, if any: only a timer tick
/// (while not stopped) emits one, with the sampled snapshot.
pub open spec fn spec_label_snapshot(s: OverlayApp, e: HostEvent) -> Option<MemorySnapshot> {
    if s.stopped {
        None
    } else {
        match e {
            HostEvent::TimerTick { sample } => Some(spec_sample(sample)),
            _ => None,
        }
    }
}

/// The state after a whole sequence of events, delivered in order.
pub open spec fn run_events(s: OverlayApp, events: Seq<HostEvent>) -> OverlayApp
    decreases events.len(),
{
    if events.len() == 0 {
        s
    } else {
        run_events(spec_step(s, events[0]), events.drop_first())
    }
}

/// The window-reposition commands a sequence of events emits, in order.
pub open spec fn trace_repositions(s: OverlayApp, events: Seq<HostEvent>) -> Seq<(i32, i32)>
    decreases events.len(),
{
    if events.len() == 0 {
        Seq::empty()
    } else {
        let rest = trace_repositions(spec_step(s, events[0]), events.drop_first());
        match spec_reposition(s, events[0]) {
            Some(p) => seq![p] + rest,
            None => rest,
        }
    }
}

/// How many stop-dispatch commands a sequence of events emits.
pub open spec fn trace_stop_count(s: OverlayApp, events: Seq<HostEvent>) -> nat
    decreases events.len(),
{
    if events.len() == 0 {
        0
    } else {
        (if spec_stop_emitted(s, events[0]) {
            1nat
        } else {
            0nat
        }) + trace_stop_count(spec_step(s, events[0]), events.drop_first())
    }
}

/// A pointer-move event carrying the given resolved cursor position.
pub open spec fn move_event(q: (i32, i32)) -> HostEvent {
    HostEvent::PointerMove { cursor: Some(q) }
}

/// Law: a stopped dispatcher is inert.  No event changes its state, and no
/// event makes it emit a reposition, a label text or a stop-dispatch — so
/// once a window-close has been handled, later events are not processed.
pub proof fn lemma_stopped_is_inert(s: OverlayApp, e: HostEvent)
    requires
        s.stopped,
    ensures
        spec_step(s, e) == s,
        spec_reposition(s, e) is None,
        !spec_stop_emitted(s, e),
        spec_label_snapshot(s, e) is None,
{
}

/// Law: a window-close event on a running dispatcher emits exactly one
/// stop-dispatch over the whole remaining lifetime — one for the close
/// itself and none for any sequence of later events — and those later
/// events emit no repositions and leave the state exactly as the close
/// left it (stopped, everything else untouched).
pub proof fn lemma_close_stops_dispatch(s: OverlayApp, later: Seq<HostEvent>)
    requires
        !s.stopped,
    ensures
        trace_stop_count(s, seq![HostEvent::WindowClose] + later) == 1,
        trace_repositions(s, seq![HostEvent::WindowClose] + later) == Seq::<(i32, i32)>::empty(),
        run_events(s, seq![HostEvent::WindowClose] + later) == (OverlayApp {
            stopped: true,
            ..s
        }),
{
    let closed = OverlayApp { stopped: true, ..s };
    let evs = seq![HostEvent::WindowClose] + later;
    assert(evs[0] == HostEvent::WindowClose);
    assert(evs.drop_first() =~= later);
    assert(spec_step(s, HostEvent::WindowClose) == closed);
    lemma_stopped_absorbs(closed, later);
}

/// Law: on a stopped dispatcher, any sequence of events emits nothing and
/// changes nothing.
pub proof fn lemma_stopped_absorbs(s: OverlayApp, events: Seq<HostEvent>)
    requires
        s.stopped,
    ensures
        trace_stop_count(s, events) == 0,
        trace_repositions(s, events) == Seq::<(i32, i32)>::empty(),
        run_events(s, events) == s,
    decreases events.len(),
{
    if events.len() > 0 {
        lemma_stopped_is_inert(s, events[0]);
        lemma_stopped_absorbs(s, events.drop_first());
    }
}

/// Law: a second pointer-down during a drag is a no-op.  If the first
/// pointer-down left the controller dragging, a further pointer-down —
/// whatever cursor it carries — changes neither the state nor the anchor,
/// and emits nothing.
pub proof fn lemma_pointer_down_idempotent(
    s: OverlayApp,
    c1: Option<(i32, i32)>,
    c2: Option<(i32, i32)>,
)
    requires
        !s.stopped,
        spec_step(s, HostEvent::PointerDown { cursor: c1 }).drag.is_dragging,
    ensures
        spec_step(
            spec_step(s, HostEvent::PointerDown { cursor: c1 }),
            HostEvent::PointerDown { cursor: c2 },
        ) == spec_step(s, HostEvent::PointerDown { cursor: c1 }),
        spec_reposition(spec_step(s, HostEvent::PointerDown { cursor: c1 }), HostEvent::PointerDown { cursor: c2 }) is None,
{
}

/// Law: one full drag cycle — pointer-down at `p`, then any number of
/// pointer-moves with resolved cursors, then pointer-up — emits exactly one
/// reposition per move, in order, each placing the window at the cursor
/// minus the drag offset; and pointer-moves before the down or after the up
/// emit nothing.
pub proof fn lemma_drag_cycle(s: OverlayApp, p: (i32, i32), moves: Seq<(i32, i32)>)
    requires
        !s.stopped,
        !s.drag.is_dragging,
    ensures
        trace_repositions(
            s,
            seq![HostEvent::PointerDown { cursor: Some(p) }] + moves.map_values(
                |q: (i32, i32)| move_event(q),
            ) + seq![HostEvent::PointerUp],
        ) == moves.map_values(
            |q: (i32, i32)|
                (
                    vstd::wrapping::i32_specs::wrapping_sub(q.0, s.drag_offset),
                    vstd::wrapping::i32_specs::wrapping_sub(q.1, s.drag_offset),
                ),
        ),
        trace_repositions(s, moves.map_values(|q: (i32, i32)| move_event(q))) == Seq::<
            (i32, i32),
        >::empty(),
        !run_events(
            s,
            seq![HostEvent::PointerDown { cursor: Some(p) }] + moves.map_values(
                |q: (i32, i32)| move_event(q),
            ) + seq![HostEvent::PointerUp],
        ).drag.is_dragging,
{
    let down = HostEvent::PointerDown { cursor: Some(p) };
    let up_evs = seq![HostEvent::PointerUp];
    let mapped = moves.map_values(|q: (i32, i32)| move_event(q));
    let evs = seq![down] + mapped + up_evs;
    let dragging = OverlayApp { drag: DragState { is_dragging: true, anchor: p }, ..s };

    lemma_moves_while_idle(s, moves);

    // Unfold the trace past the pointer-down, which emits nothing.
    assert(evs[0] == down);
    assert(evs.drop_first() =~= mapped + up_evs);
    assert(spec_step(s, down) == dragging);
    assert(spec_reposition(s, down) is None);
    assert(trace_repositions(s, evs) == trace_repositions(dragging, mapped + up_evs));
    assert(run_events(s, evs) == run_events(dragging, mapped + up_evs));

    // The moves emit one reposition each; the trailing pointer-up emits
    // nothing and ends the drag.
    lemma_moves_while_dragging(dragging, moves, up_evs);
    assert(up_evs[0] == HostEvent::PointerUp);
    assert(up_evs.drop_first() =~= Seq::<HostEvent>::empty());
    assert(spec_reposition(dragging, HostEvent::PointerUp) is None);
    let after_up = spec_step(dragging, HostEvent::PointerUp);
    assert(after_up.drag == up_step(dragging.drag));
    assert(trace_repositions(after_up, up_evs.drop_first()) =~= Seq::<(i32, i32)>::empty());
    assert(run_events(after_up, up_evs.drop_first()) == after_up);
    assert(trace_repositions(dragging, up_evs) =~= Seq::<(i32, i32)>::empty());
    assert(run_events(dragging, up_evs) == after_up);
    assert(!run_events(dragging, up_evs).drag.is_dragging);

    // The drag offset the commands use is the one configured in `s`.
    assert(moves.map_values(
        |q: (i32, i32)|
            (
                vstd::wrapping::i32_specs::wrapping_sub(q.0, dragging.drag_offset),
                vstd::wrapping::i32_specs::wrapping_sub(q.1, dragging.drag_offset),
            ),
    ) =~= moves.map_values(
        |q: (i32, i32)|
            (
                vstd::wrapping::i32_specs::wrapping_sub(q.0, s.drag_offset),
                vstd::wrapping::i32_specs::wrapping_sub(q.1, s.drag_offset),
            ),
    ));
    assert(trace_repositions(s, evs) =~= moves.map_values(
        |q: (i32, i32)|
            (
                vstd::wrapping::i32_specs::wrapping_sub(q.0, s.drag_offset),
                vstd::wrapping::i32_specs::wrapping_sub(q.1, s.drag_offset),
            ),
    ));
}

/// Law: pointer-moves reaching an idle (or stopped) controller emit no
/// repositions and change nothing.
proof fn lemma_moves_while_idle(s: OverlayApp, moves: Seq<(i32, i32)>)
    requires
        !s.drag.is_dragging || s.stopped,
    ensures
        trace_repositions(s, moves.map_values(|q: (i32, i32)| move_event(q))) == Seq::<
            (i32, i32),
        >::empty(),
        run_events(s, moves.map_values(|q: (i32, i32)| move_event(q))) == s,
    decreases moves.len(),
{
    let mapped = moves.map_values(|q: (i32, i32)| move_event(q));
    if moves.len() > 0 {
        assert(mapped[0] == move_event(moves[0]));
        assert(spec_step(s, mapped[0]) == s);
        assert(spec_reposition(s, mapped[0]) is None);
        lemma_moves_while_idle(s, moves.drop_first());
        assert(mapped.drop_first() =~= moves.drop_first().map_values(
            |q: (i32, i32)| move_event(q),
        ));
    }
}

/// Law: while dragging, a run of pointer-moves with resolved cursors emits
/// exactly one reposition per move, in order — cursor minus drag offset on
/// both axes — and leaves the state unchanged; the trace then continues
/// from the same state.
proof fn lemma_moves_while_dragging(s: OverlayApp, moves: Seq<(i32, i32)>, tail: Seq<HostEvent>)
    requires
        !s.stopped,
        s.drag.is_dragging,
    ensures
        trace_repositions(s, moves.map_values(|q: (i32, i32)| move_event(q)) + tail)
            == moves.map_values(
            |q: (i32, i32)|
                (
                    vstd::wrapping::i32_specs::wrapping_sub(q.0, s.drag_offset),
                    vstd::wrapping::i32_specs::wrapping_sub(q.1, s.drag_offset),
                ),
        ) + trace_repositions(s, tail),
        run_events(s, moves.map_values(|q: (i32, i32)| move_event(q)) + tail) == run_events(
            s,
            tail,
        ),
    decreases moves.len(),
{
    let mapped = moves.map_values(|q: (i32, i32)| move_event(q));
    let cmds = moves.map_values(
        |q: (i32, i32)|
            (
                vstd::wrapping::i32_specs::wrapping_sub(q.0, s.drag_offset),
                vstd::wrapping::i32_specs::wrapping_sub(q.1, s.drag_offset),
            ),
    );
    if moves.len() == 0 {
        assert(mapped + tail =~= tail);
        assert(cmds + trace_repositions(s, tail) =~= trace_repositions(s, tail));
    } else {
        let whole = mapped + tail;
        assert(whole[0] == move_event(moves[0]));
        assert(spec_step(s, whole[0]) == s);
        assert(spec_reposition(s, whole[0]) == Some(
            (
                vstd::wrapping::i32_specs::wrapping_sub(moves[0].0, s.drag_offset),
                vstd::wrapping::i32_specs::wrapping_sub(moves[0].1, s.drag_offset),
            ),
        ));
        lemma_moves_while_dragging(s, moves.drop_first(), tail);
        assert(whole.drop_first() =~= moves.drop_first().map_values(
            |q: (i32, i32)| move_event(q),
        ) + tail);
        assert(moves.drop_first().map_values(
            |q: (i32, i32)|
                (
                    vstd::wrapping::i32_specs::wrapping_sub(q.0, s.drag_offset),
                    vstd::wrapping::i32_specs::wrapping_sub(q.1, s.drag_offset),
                ),
        ) =~= cmds.drop_first());
        assert(trace_repositions(s, whole) =~= cmds + trace_repositions(s, tail));
    }
}

impl OverlayApp {
    /// A fresh application: not stopped, drag controller idle, with the
    /// given drag offset (pixels subtracted from the cursor on both axes
    /// when repositioning during a drag).
    pub fn new(drag_offset: i32) -> (app: OverlayApp)
        ensures
            app.drag == initial_drag(),
            app.drag_offset == drag_offset,
            !app.stopped,
    {
        OverlayApp { drag: DragState::new(), drag_offset, stopped: false }
    }

    /// Handles one host event and returns the command to perform, if any.
    ///
    /// The new state is exactly [`spec_step`], and the emitted command is
    /// exactly what [`spec_stop_emitted`], [`spec_reposition`] and
    /// [`spec_label_snapshot`] (at most one of which is active per event)
    /// prescribe; a label text is exactly the formatted sampled snapshot.
    pub fn handle_event(&mut self, e: HostEvent) -> (cmd: Option<HostCommand>)
        ensures
            *final (self) == spec_step(*old(self), e),
            cmd is Some <==> (spec_stop_emitted(*old(self), e) || spec_reposition(*old(self), e)
                is Some || spec_label_snapshot(*old(self), e) is Some),
            spec_stop_emitted(*old(self), e) ==> cmd matches Some(HostCommand::StopDispatch),
            spec_reposition(*old(self), e) matches Some(p) ==> (cmd matches Some(
                HostCommand::SetWindowPosition { x, y },
            ) && (x, y) == p),
            spec_label_snapshot(*old(self), e) matches Some(snap) ==> (cmd matches Some(
                HostCommand::SetLabelText { text },
            ) && text@ == spec_memory_text(snap)),
    {
        if self.stopped {
            return None;
        }
        match e {
            HostEvent::WindowClose => {
                self.stopped = true;
                Some(HostCommand::StopDispatch)
            },
            HostEvent::PointerDown { cursor } => {
                self.drag.pointer_down(cursor);
                None
            },
            HostEvent::PointerUp => {
                self.drag.pointer_up();
                None
            },
            HostEvent::PointerMove { cursor } => {
                match self.drag.pointer_move(cursor, self.drag_offset) {
                    Some(p) => Some(HostCommand::SetWindowPosition { x: p.0, y: p.1 }),
                    None => None,
                }
            },
            HostEvent::TimerTick { sample } => {
                let snap = MemorySnapshot::sample_from(sample);
                let text = format_memory_text(&snap);
                Some(HostCommand::SetLabelText { text })
            },
        }
    }
}

} // verus!
