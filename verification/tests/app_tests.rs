use devcomp::action::Action;
use devcomp::app::{
    error_panel_area, size_error_message, App, LoopCtl, Mode, Rect, RenderPass, RuntimeEffect,
};
use devcomp::backend::Size;
use devcomp::keycode::{KeyCode, KeyEvent};
use devcomp::tui::Event;

#[test]
fn fresh_app_state() {
    let app = App::new(4, 60);
    assert!(!app.should_quit);
    assert!(!app.should_suspend);
    assert!(!app.needs_resize);
    assert_eq!(app.mode, Mode::Home);
    assert!(app.last_tick_key_events.is_empty());
    assert_eq!(app.components, 0);
}

#[test]
fn events_map_to_runtime_actions() {
    let app = App::new(4, 60);
    assert_eq!(app.action_for_event(&Event::Quit), Some(Action::Quit));
    assert_eq!(app.action_for_event(&Event::Tick), Some(Action::Tick));
    assert_eq!(app.action_for_event(&Event::Render), Some(Action::Render));
    assert_eq!(
        app.action_for_event(&Event::Resize(100, 30)),
        Some(Action::Resize(100, 30))
    );
    assert_eq!(app.action_for_event(&Event::Init), None);
    assert_eq!(app.action_for_event(&Event::FocusLost), None);
}

#[test]
fn minimum_size_floor_controls_render_pass() {
    // 80x20 is below the 105x25 floor: only the degraded panel renders.
    let mut app = App::new(4, 60);
    let e = app.apply_action(&Action::Resize(80, 20));
    assert_eq!(e, RuntimeEffect::Resize(80, 20));
    assert!(app.needs_resize);
    assert_eq!(app.render_pass(), RenderPass::Degraded);

    // 105x25 exactly meets the floor: normal content renders again,
    // with no separate acknowledgment.
    let e = app.apply_action(&Action::Resize(105, 25));
    assert_eq!(e, RuntimeEffect::Resize(105, 25));
    assert!(!app.needs_resize);
    assert_eq!(app.render_pass(), RenderPass::Normal);
}

#[test]
fn degraded_panel_message_and_area() {
    assert_eq!(
        size_error_message(80, 20),
        "window size must be at least 105x25, currently 80x20"
    );
    // The 52-character message, centered in an 80x20 frame, five rows
    // tall, shrunk by one cell per side for the border.
    let area = error_panel_area(Size { width: 80, height: 20 }, 52);
    assert_eq!(area, Rect { x: 15, y: 8, width: 50, height: 3 });
    // A message wider than the frame collapses to zero width.
    let area = error_panel_area(Size { width: 40, height: 4 }, 52);
    assert_eq!(area, Rect { x: 1, y: 1, width: 0, height: 2 });
}

#[test]
fn quit_suspend_resume_flags() {
    let mut app = App::new(4, 60);
    app.apply_action(&Action::Suspend);
    assert!(app.should_suspend);
    assert_eq!(app.loop_ctl(false), LoopCtl::BeginSuspend);
    assert_eq!(app.loop_ctl(true), LoopCtl::EndSuspend);
    app.apply_action(&Action::Resume);
    assert!(!app.should_suspend);
    assert_eq!(app.loop_ctl(false), LoopCtl::Continue);
    app.apply_action(&Action::Quit);
    assert!(app.should_quit);
    assert_eq!(app.loop_ctl(false), LoopCtl::Quit);
}

#[test]
fn clear_and_render_effects() {
    let mut app = App::new(4, 60);
    assert_eq!(app.apply_action(&Action::ClearScreen), RuntimeEffect::ClearScreen);
    assert_eq!(app.apply_action(&Action::Render), RuntimeEffect::Render);
    assert_eq!(app.apply_action(&Action::NextTab), RuntimeEffect::Nothing);
}

#[test]
fn single_key_binding_fires_directly() {
    let mut app = App::new(4, 60);
    let q = KeyEvent::new(KeyCode::Char('q'), false);
    app.register_keybinding(vec![q], Action::Quit);
    assert_eq!(app.handle_key_event(q), Some(Action::Quit));
    assert!(app.last_tick_key_events.is_empty());
}

#[test]
fn chord_buffer_collects_unbound_keys() {
    let mut app = App::new(4, 60);
    let g = KeyEvent::new(KeyCode::Char('g'), false);
    app.register_keybinding(vec![g, g], Action::SelectNext);

    // The first press matches nothing and lands in the chord buffer.
    assert_eq!(app.handle_key_event(g), None);
    assert_eq!(app.last_tick_key_events.len(), 1);
    // The second press completes the chord.
    assert_eq!(app.handle_key_event(g), Some(Action::SelectNext));
    assert_eq!(app.last_tick_key_events.len(), 2);

    // Every tick clears the buffer, bounding chords to one tick.
    app.apply_action(&Action::Tick);
    assert!(app.last_tick_key_events.is_empty());
}

#[test]
fn actions_dispatch_to_every_component_once() {
    // A resize action is observed by every registered component exactly
    // once, in registration order.
    let mut app = App::new(4, 60);
    assert_eq!(app.register_component(), 0);
    assert_eq!(app.register_component(), 1);
    assert_eq!(app.register_component(), 2);
    assert_eq!(app.dispatch_targets(), vec![0, 1, 2]);
}

#[test]
fn action_names_round_trip() {
    assert_eq!(Action::from_name("Quit"), Some(Action::Quit));
    assert_eq!(Action::from_name("Continue"), Some(Action::Continue(None)));
    assert_eq!(Action::from_name("SelectPrev"), Some(Action::SelectPrev));
    assert_eq!(Action::from_name("ClearScreen"), Some(Action::ClearScreen));
    assert_eq!(Action::from_name("Resize"), None);
    assert_eq!(Action::from_name("quit"), None);
    assert_eq!(Action::from_name(""), None);
}
