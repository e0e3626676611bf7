use pathfinder_hal::demo::{DemoEvent, DemoUI, EventOutcome, Keycode, Mode, Options};

#[test]
fn demo_ui_starts_with_effects_on_and_no_message() {
    let ui = DemoUI::new(Options { mode: Mode::ThreeD });
    assert_eq!(ui.mode, Mode::ThreeD);
    assert!(!ui.dark_background_enabled);
    assert!(ui.gamma_correction_effect_enabled);
    assert!(ui.stem_darkening_effect_enabled);
    assert!(ui.subpixel_aa_effect_enabled);
    assert!(ui.show_text_effects);
    assert_eq!(ui.message, "");
}

#[test]
fn matching_expire_event_clears_the_message() {
    let mut ui = DemoUI::new(Options { mode: Mode::TwoD });
    ui.message = "Saved".to_string();
    assert!(ui.expire_message(7, 3, 7, 3));
    assert_eq!(ui.message, "");
}

#[test]
fn stale_or_foreign_expire_event_keeps_the_message() {
    let mut ui = DemoUI::new(Options { mode: Mode::VR });
    ui.message = "Saved".to_string();
    assert!(!ui.expire_message(7, 2, 7, 3));
    assert!(!ui.expire_message(8, 3, 7, 3));
    assert_eq!(ui.message, "Saved");
}

#[test]
fn keycodes_compare_by_value() {
    assert_eq!(Keycode::Alphanumeric(b'a'), Keycode::Alphanumeric(b'a'));
    assert_ne!(Keycode::Alphanumeric(b'a'), Keycode::Escape);
}

#[test]
fn events_are_handled_in_order() {
    let mut ui = DemoUI::new(Options { mode: Mode::TwoD });
    ui.message = "Hello".to_string();
    let events = vec![
        DemoEvent::WindowResized,
        DemoEvent::User { message_type: 9, message_data: 1 },
        DemoEvent::WindowResized,
        DemoEvent::User { message_type: 4, message_data: 1 },
    ];
    let outcome = ui.handle_events(&events, 4, 1);
    assert_eq!(outcome, EventOutcome { should_exit: false, dirty: true, last_resize: Some(2) });
    assert_eq!(ui.message, "");
}

#[test]
fn quit_asks_to_exit() {
    let mut ui = DemoUI::new(Options { mode: Mode::TwoD });
    let outcome = ui.handle_events(&vec![DemoEvent::Quit], 0, 0);
    assert_eq!(outcome, EventOutcome { should_exit: true, dirty: true, last_resize: None });
}

#[test]
fn ignored_events_leave_the_frame_clean() {
    let mut ui = DemoUI::new(Options { mode: Mode::TwoD });
    ui.message = "Hello".to_string();
    let outcome = ui.handle_events(&vec![DemoEvent::User { message_type: 4, message_data: 0 }], 4, 1);
    assert_eq!(outcome, EventOutcome { should_exit: false, dirty: false, last_resize: None });
    assert_eq!(ui.message, "Hello");
    assert_eq!(ui.handle_events(&vec![], 4, 1), EventOutcome { should_exit: false, dirty: false, last_resize: None });
}
