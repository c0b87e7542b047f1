//! Tests for the drag controller and the event dispatcher.

use memory_overlay::dispatch::{HostCommand, HostEvent, OverlayApp};
use memory_overlay::drag::DragState;
use memory_overlay::snapshot::SysData;

fn reposition_of(cmd: Option<HostCommand>) -> (i32, i32) {
    match cmd {
        Some(HostCommand::SetWindowPosition { x, y }) => (x, y),
        _ => panic!("expected a reposition command"),
    }
}

fn label_of(cmd: Option<HostCommand>) -> String {
    match cmd {
        Some(HostCommand::SetLabelText { text }) => text,
        _ => panic!("expected a label-text command"),
    }
}

#[test]
fn new_controller_is_idle() {
    let s = DragState::new();
    assert!(!s.is_dragging);
    assert_eq!(s.anchor, (0, 0));
}

#[test]
fn pointer_down_starts_drag_and_records_anchor() {
    let mut s = DragState::new();
    s.pointer_down(Some((500, 500)));
    assert!(s.is_dragging);
    assert_eq!(s.anchor, (500, 500));
}

#[test]
fn unresolvable_cursor_leaves_controller_idle() {
    let mut s = DragState::new();
    s.pointer_down(None);
    assert!(!s.is_dragging);
}

#[test]
fn second_pointer_down_keeps_anchor() {
    let mut s = DragState::new();
    s.pointer_down(Some((500, 500)));
    s.pointer_down(Some((700, 800)));
    assert!(s.is_dragging);
    assert_eq!(s.anchor, (500, 500));
}

#[test]
fn move_while_idle_emits_nothing() {
    let s = DragState::new();
    assert_eq!(s.pointer_move(Some((600, 650)), 100), None);
}

#[test]
fn move_while_dragging_emits_offset_position() {
    let mut s = DragState::new();
    s.pointer_down(Some((500, 500)));
    assert_eq!(s.pointer_move(Some((600, 650)), 100), Some((500, 550)));
}

#[test]
fn move_with_unresolvable_cursor_emits_nothing() {
    let mut s = DragState::new();
    s.pointer_down(Some((500, 500)));
    assert_eq!(s.pointer_move(None, 100), None);
}

#[test]
fn move_after_pointer_up_emits_nothing() {
    let mut s = DragState::new();
    s.pointer_down(Some((500, 500)));
    s.pointer_up();
    assert!(!s.is_dragging);
    assert_eq!(s.pointer_move(Some((600, 650)), 100), None);
}

#[test]
fn position_wraps_at_the_numeric_edge() {
    let mut s = DragState::new();
    s.pointer_down(Some((0, 0)));
    assert_eq!(s.pointer_move(Some((i32::MIN, 0)), 100), Some((2147483548, -100)));
}

#[test]
fn drag_cycle_emits_one_position_per_move() {
    let mut app = OverlayApp::new(100);
    assert!(app.handle_event(HostEvent::PointerMove { cursor: Some((1, 1)) }).is_none());
    assert!(app.handle_event(HostEvent::PointerDown { cursor: Some((500, 500)) }).is_none());
    let moves = [(600, 650), (610, 640), (700, 700)];
    let mut emitted = Vec::new();
    for m in moves {
        let cmd = app.handle_event(HostEvent::PointerMove { cursor: Some(m) });
        emitted.push(reposition_of(cmd));
    }
    assert_eq!(emitted, vec![(500, 550), (510, 540), (600, 600)]);
    assert!(app.handle_event(HostEvent::PointerUp).is_none());
    assert!(app.handle_event(HostEvent::PointerMove { cursor: Some((800, 800)) }).is_none());
}

#[test]
fn drag_scenario_offset_hundred() {
    let mut app = OverlayApp::new(100);
    app.handle_event(HostEvent::PointerDown { cursor: Some((500, 500)) });
    let cmd = app.handle_event(HostEvent::PointerMove { cursor: Some((600, 650)) });
    assert_eq!(reposition_of(cmd), (500, 550));
}

#[test]
fn timer_tick_sets_label_text() {
    let mut app = OverlayApp::new(100);
    let d = SysData { mem_used: 8589934592, mem_total: 17179869184, memory_load: 50 };
    let cmd = app.handle_event(HostEvent::TimerTick { sample: Some(d) });
    assert_eq!(label_of(cmd), "Memory: 50% (8.00G / 16.00G)");
}

#[test]
fn timer_tick_with_failed_query_shows_zeroes() {
    let mut app = OverlayApp::new(100);
    let cmd = app.handle_event(HostEvent::TimerTick { sample: None });
    assert_eq!(label_of(cmd), "Memory: 0% (0.00G / 0.00G)");
}

#[test]
fn timer_tick_validates_degenerate_sample() {
    let mut app = OverlayApp::new(100);
    let d = SysData { mem_used: 10, mem_total: 5, memory_load: 200 };
    let cmd = app.handle_event(HostEvent::TimerTick { sample: Some(d) });
    assert_eq!(label_of(cmd), "Memory: 100% (0.00G / 0.00G)");
}

#[test]
fn window_close_stops_dispatch_once() {
    let mut app = OverlayApp::new(100);
    let cmd = app.handle_event(HostEvent::WindowClose);
    assert!(matches!(cmd, Some(HostCommand::StopDispatch)));
    // No further event is processed: nothing is emitted any more, not even
    // for a second close or a timer tick.
    assert!(app.handle_event(HostEvent::WindowClose).is_none());
    assert!(app.handle_event(HostEvent::TimerTick { sample: None }).is_none());
    assert!(app.handle_event(HostEvent::PointerDown { cursor: Some((1, 2)) }).is_none());
    assert!(app.handle_event(HostEvent::PointerMove { cursor: Some((3, 4)) }).is_none());
}

#[test]
fn pointer_events_reach_the_drag_controller() {
    let mut app = OverlayApp::new(100);
    app.handle_event(HostEvent::PointerDown { cursor: Some((500, 500)) });
    assert!(app.drag.is_dragging);
    assert_eq!(app.drag.anchor, (500, 500));
    app.handle_event(HostEvent::PointerUp);
    assert!(!app.drag.is_dragging);
}
