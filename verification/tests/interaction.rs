use shotview::compositor::resize_frame;
use shotview::interaction::{
    DragState, Effect, Event, Interaction, Key, Point, PointerButton, ScrollDelta, ScrollPhase,
    ZoomAmount,
};

fn at(x: f32, y: f32) -> Point<f32> {
    Point { x, y }
}

fn moved(x: f32, y: f32) -> Event<f32> {
    Event::PointerMoved { x, y }
}

/// Applies the pans of a sequence of moves to an offset, as the owner of the
/// transform does.
fn drag_through(path: &[(f32, f32)]) -> (f32, f32) {
    let mut state = Interaction::new(at(0.0, 0.0));
    let mut offset = (0.0f32, 0.0f32);
    assert_eq!(state.handle(Event::ButtonPressed(PointerButton::Primary)), Effect::Nothing);
    for &(x, y) in path {
        match state.handle(moved(x, y)) {
            Effect::Pan { from, to } => {
                offset.0 += to.x - from.x;
                offset.1 += to.y - from.y;
            }
            other => panic!("a move during a drag pans, got {:?}", other),
        }
    }
    offset
}

#[test]
fn starts_idle_at_the_origin() {
    let state = Interaction::new(at(0.0, 0.0));
    assert_eq!(state.drag, DragState::Idle);
    assert_eq!(state.last_cursor, at(0.0, 0.0));
    assert!(!state.is_dragging());
    assert_eq!(state.drag_anchor(), None);
}

#[test]
fn idle_move_only_records_the_cursor() {
    let mut state = Interaction::new(at(0.0, 0.0));
    let effect = state.handle(moved(3.5, 4.25));
    assert_eq!(effect, Effect::Nothing);
    assert!(!effect.wants_redraw());
    assert_eq!(state.last_cursor, at(3.5, 4.25));
    assert_eq!(state.drag, DragState::Idle);
}

#[test]
fn press_anchors_the_drag_at_the_last_cursor() {
    let mut state = Interaction::new(at(0.0, 0.0));
    state.handle(moved(7.0, 9.0));
    assert_eq!(state.handle(Event::ButtonPressed(PointerButton::Primary)), Effect::Nothing);
    assert!(state.is_dragging());
    assert_eq!(state.drag_anchor(), Some(at(7.0, 9.0)));
    assert_eq!(state.last_cursor, at(7.0, 9.0));
}

#[test]
fn press_during_a_drag_changes_nothing() {
    let mut state = Interaction::new(at(1.0, 2.0));
    state.handle(Event::ButtonPressed(PointerButton::Primary));
    let before = state;
    assert_eq!(state.handle(Event::ButtonPressed(PointerButton::Primary)), Effect::Nothing);
    assert_eq!(state, before);
}

#[test]
fn other_buttons_neither_start_nor_end_a_drag() {
    let mut state = Interaction::new(at(1.0, 2.0));
    state.handle(Event::ButtonPressed(PointerButton::Other));
    assert!(!state.is_dragging());
    state.handle(Event::ButtonPressed(PointerButton::Primary));
    state.handle(Event::ButtonReleased(PointerButton::Other));
    assert!(state.is_dragging());
}

#[test]
fn release_ends_the_drag() {
    let mut state = Interaction::new(at(1.0, 2.0));
    state.handle(Event::ButtonPressed(PointerButton::Primary));
    assert_eq!(state.handle(Event::ButtonReleased(PointerButton::Primary)), Effect::Nothing);
    assert_eq!(state.drag, DragState::Idle);
    assert_eq!(state.last_cursor, at(1.0, 2.0));
    assert_eq!(state.handle(Event::ButtonReleased(PointerButton::Primary)), Effect::Nothing);
    assert_eq!(state.drag, DragState::Idle);
    assert_eq!(state.handle(moved(5.0, 5.0)), Effect::Nothing);
}

#[test]
fn move_during_a_drag_pans_and_re_anchors() {
    let mut state = Interaction::new(at(2.0, 3.0));
    state.handle(Event::ButtonPressed(PointerButton::Primary));
    let effect = state.handle(moved(6.0, 1.0));
    assert_eq!(effect, Effect::Pan { from: at(2.0, 3.0), to: at(6.0, 1.0) });
    assert!(effect.wants_redraw());
    assert_eq!(state.drag, DragState::Dragging { anchor: at(6.0, 1.0) });
    assert_eq!(state.last_cursor, at(6.0, 1.0));
}

#[test]
fn pan_accumulates_to_the_pointer_displacement() {
    assert_eq!(drag_through(&[(10.0, 5.0)]), (10.0, 5.0));
    assert_eq!(drag_through(&[(4.0, 1.0), (10.0, 5.0)]), (10.0, 5.0));
    assert_eq!(
        drag_through(&[(1.0, 1.0), (2.0, 8.0), (-3.0, 2.0), (7.0, 5.0), (10.0, 5.0)]),
        (10.0, 5.0)
    );
}

#[test]
fn line_scroll_zooms_about_the_cursor() {
    let mut state = Interaction::new(at(0.0, 0.0));
    state.handle(moved(12.0, 34.0));
    let before = state;
    for phase in [ScrollPhase::Started, ScrollPhase::Moved] {
        let effect = state.handle(Event::Scroll { phase, delta: ScrollDelta::Lines(-2.0) });
        assert_eq!(
            effect,
            Effect::Zoom { about: at(12.0, 34.0), amount: ZoomAmount::Lines(-2.0) }
        );
        assert!(effect.wants_redraw());
        assert_eq!(state, before);
    }
}

#[test]
fn pixel_scroll_over_the_threshold_zooms() {
    let mut state = Interaction::new(at(5.0, 6.0));
    let effect = state.handle(Event::Scroll {
        phase: ScrollPhase::Moved,
        delta: ScrollDelta::Pixels { dy: 3.0, over_threshold: true },
    });
    assert_eq!(effect, Effect::Zoom { about: at(5.0, 6.0), amount: ZoomAmount::Pixels(3.0) });
}

#[test]
fn pixel_scroll_under_the_threshold_only_redraws() {
    let mut state = Interaction::new(at(5.0, 6.0));
    state.handle(Event::ButtonPressed(PointerButton::Primary));
    let before = state;
    let effect = state.handle(Event::Scroll {
        phase: ScrollPhase::Moved,
        delta: ScrollDelta::Pixels { dy: 0.1, over_threshold: false },
    });
    assert_eq!(effect, Effect::Redraw);
    assert!(effect.wants_redraw());
    assert_eq!(state, before);
}

#[test]
fn scroll_that_ends_or_is_cancelled_does_nothing() {
    let mut state = Interaction::new(at(5.0, 6.0));
    for phase in [ScrollPhase::Ended, ScrollPhase::Cancelled] {
        assert_eq!(
            state.handle(Event::Scroll { phase, delta: ScrollDelta::Lines(1.0) }),
            Effect::Nothing
        );
        assert_eq!(
            state.handle(Event::Scroll {
                phase,
                delta: ScrollDelta::Pixels { dy: 9.0, over_threshold: true },
            }),
            Effect::Nothing
        );
    }
}

#[test]
fn resize_to_an_empty_size_is_ignored() {
    let mut state = Interaction::new(at(0.0, 0.0));
    let mut frame = vec![1u8; 200 * 200 * 4];
    for (width, height) in [(0, 300), (300, 0), (0, 0)] {
        let effect = state.handle(Event::Resized { width, height });
        assert_eq!(effect, Effect::Nothing);
        assert!(!effect.wants_redraw());
    }
    assert_eq!(frame.len(), 200 * 200 * 4);
    match state.handle(Event::Resized { width: 300, height: 300 }) {
        Effect::Resize { width, height } => {
            assert_eq!((width, height), (300, 300));
            assert!(resize_frame(&mut frame, width, height));
        }
        other => panic!("a proper resize is acted on, got {:?}", other),
    }
    assert_eq!(frame.len(), 300 * 300 * 4);
}

#[test]
fn quit_key_and_close_end_the_session() {
    let mut state = Interaction::new(at(0.0, 0.0));
    assert_eq!(state.handle(Event::KeyPressed(Key::Quit)), Effect::Exit);
    assert_eq!(state.handle(Event::CloseRequested), Effect::Exit);
    assert_eq!(state.handle(Event::PresentFailed), Effect::Exit);
    state.handle(Event::ButtonPressed(PointerButton::Primary));
    assert_eq!(state.handle(Event::KeyPressed(Key::Quit)), Effect::Exit);
    assert!(!Effect::<f32>::Exit.wants_redraw());
}

#[test]
fn other_keys_and_key_releases_do_nothing() {
    let mut state = Interaction::new(at(0.0, 0.0));
    assert_eq!(state.handle(Event::KeyPressed(Key::Other)), Effect::Nothing);
    assert_eq!(state.handle(Event::KeyReleased(Key::Quit)), Effect::Nothing);
    assert_eq!(state.handle(Event::KeyReleased(Key::Other)), Effect::Nothing);
}

#[test]
fn redraw_request_asks_for_a_frame() {
    let mut state = Interaction::new(at(0.0, 0.0));
    let effect = state.handle(Event::RedrawRequested);
    assert_eq!(effect, Effect::Render);
    assert!(!effect.wants_redraw());
}
