use alc_calc::cursor_state::CursorState;
use alc_calc::text::Spaceable;
use alc_calc::theme::ThemeVariant;

#[test]
fn test_cursor_starts_visible_and_disabled() {
    let state = CursorState::new();
    assert!(state.visible());
    let state: CursorState = Default::default();
    assert!(state.visible());
}

#[test]
fn test_cursor_enable_blinks_at_once() {
    let mut state = CursorState::new();
    let next = state.enable();
    // Enabling hides the cursor and the first blink shows it again, so the
    // next render draws it.
    assert!(state.visible());
    assert_eq!(next, Some(1));
    // Enabling twice changes nothing.
    assert_eq!(state.enable(), None);
}

#[test]
fn test_cursor_blink_toggles_and_ignores_stale_epochs() {
    let mut state = CursorState::new();
    let next = state.enable().unwrap();
    let shown = state.visible();
    let newer = state.blink_cursors(next).unwrap();
    assert_eq!(state.visible(), !shown);
    // A wake-up carrying the old epoch no longer fires.
    assert_eq!(state.blink_cursors(next), None);
    let visible = state.visible();
    assert_eq!(state.blink_cursors(newer + 7), None);
    assert_eq!(state.visible(), visible);
}

#[test]
fn test_cursor_pause_and_resume() {
    let mut state = CursorState::new();
    state.enable();
    let epoch = state.pause_blinking();
    assert!(state.visible());
    // Resuming with the current epoch toggles the cursor again.
    let next = state.resume_cursor_blinking(epoch);
    assert!(next.is_some());
    // Resuming with a stale epoch does nothing.
    assert_eq!(state.resume_cursor_blinking(epoch), None);
}

#[test]
fn test_cursor_show_and_disable() {
    let mut state = CursorState::new();
    state.enable();
    state.disable();
    assert!(!state.visible());
    assert!(state.show_cursor());
    assert!(state.visible());
    assert!(!state.show_cursor());
}

#[test]
fn test_theme_labels_round_trip() {
    let all = [
        ThemeVariant::Dark,
        ThemeVariant::Light,
        ThemeVariant::RedDark,
        ThemeVariant::RosePineMoon,
        ThemeVariant::SolarizedDark,
        ThemeVariant::Custom,
    ];
    for t in all {
        assert_eq!(ThemeVariant::from_label(t.label()), Some(t));
    }
    assert_eq!(ThemeVariant::from_label("Sepia"), None);
    assert_eq!(ThemeVariant::from_label("dark"), None);
}

#[test]
fn test_insert_spaces_splits_camel_case() {
    let spaced = String::from("ConvertedEnum").insert_spaces();
    assert_eq!(spaced, String::from("Converted Enum"));
    let spaced = String::from("RosePineMoon").insert_spaces();
    assert_eq!(spaced, String::from("Rose Pine Moon"));
}

#[test]
fn test_insert_spaces_leaves_plain_text_alone() {
    assert_eq!(String::from("plain").insert_spaces(), String::from("plain"));
    assert_eq!(String::from("").insert_spaces(), String::from(""));
    assert_eq!(String::from("ALLCAPS").insert_spaces(), String::from("ALLCAPS"));
    assert_eq!(String::from("a b").insert_spaces(), String::from("a b"));
}
