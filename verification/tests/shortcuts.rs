use citybound_ui::model::{LandUse, PlanningMode, UiState};
use citybound_ui::shortcuts::{
    classify_shortcut, handle_shortcut, Key, KeyEvent, KeyEventType, Modifiers, Shortcut,
};

fn key_down(key: Key, command: bool, shift: bool) -> KeyEvent {
    KeyEvent {
        key,
        modifiers: Modifiers {
            command,
            shift,
            ctrl: command,
            alt: false,
            meta: false,
        },
        is_repeat: false,
        event_type: KeyEventType::Down,
        utf16_code_point: 0,
    }
}

fn session_with_project() -> UiState {
    UiState {
        current_project: Some("prj001".to_string()),
        planning_mode: Some(PlanningMode::Roads),
        selected_land_use: Some(LandUse::Residential),
        ..UiState::default()
    }
}

#[test]
fn implement_shortcut_clears_project() {
    let mut s = session_with_project();
    assert!(handle_shortcut(&mut s, key_down(Key::Enter, true, false)));
    assert!(s.current_project.is_none());
    assert!(s.planning_mode.is_none());
    assert!(s.selected_land_use.is_none());
}

#[test]
fn undo_redo_shortcuts_flip_redo_flag() {
    let mut s = session_with_project();
    assert!(handle_shortcut(&mut s, key_down(Key::Character('z'), true, false)));
    assert!(s.has_redo);
    assert!(handle_shortcut(&mut s, key_down(Key::Character('z'), true, true)));
    assert!(!s.has_redo);
}

#[test]
fn debug_toggle_shortcut_flips_window() {
    let mut s = UiState::default();
    let dot = KeyEvent {
        key: Key::Character('.'),
        modifiers: Modifiers::default(),
        is_repeat: false,
        event_type: KeyEventType::Down,
        utf16_code_point: 0,
    };
    assert!(!s.show_debug);
    assert!(handle_shortcut(&mut s, dot.clone()));
    assert!(s.show_debug);
    assert!(handle_shortcut(&mut s, dot));
    assert!(!s.show_debug);
}

#[test]
fn shortcuts_ignore_repeats_releases_and_plain_keys() {
    let mut s = session_with_project();
    let mut ev = key_down(Key::Enter, true, false);
    ev.is_repeat = true;
    assert!(!handle_shortcut(&mut s, ev));
    let mut ev = key_down(Key::Enter, true, false);
    ev.event_type = KeyEventType::Up;
    assert!(!handle_shortcut(&mut s, ev));
    assert!(!handle_shortcut(&mut s, key_down(Key::Enter, false, false)));
    assert!(s.current_project.is_some());
}

#[test]
fn redo_with_y_and_command() {
    let mut s = session_with_project();
    assert!(handle_shortcut(&mut s, key_down(Key::Character('z'), true, false)));
    assert!(handle_shortcut(&mut s, key_down(Key::Character('y'), true, false)));
    assert!(!s.has_redo);
}

#[test]
fn redo_without_step_is_not_consumed() {
    let mut s = session_with_project();
    assert!(!handle_shortcut(&mut s, key_down(Key::Character('y'), true, false)));
    assert!(!s.has_redo);
    assert_eq!(s.current_project.as_deref(), Some("prj001"));
}

#[test]
fn undo_and_implement_need_an_open_project() {
    let mut s = UiState::default();
    assert!(!handle_shortcut(&mut s, key_down(Key::Character('z'), true, false)));
    assert!(!s.has_redo);
    assert!(!handle_shortcut(&mut s, key_down(Key::Enter, true, false)));
    assert!(s.current_project.is_none());
}

#[test]
fn implement_resets_redo() {
    let mut s = session_with_project();
    s.has_redo = true;
    assert!(handle_shortcut(&mut s, key_down(Key::Enter, true, false)));
    assert!(!s.has_redo);
    assert!(s.show_menu);
}

#[test]
fn alt_or_extra_modifiers_block_shortcuts() {
    let mut ev = key_down(Key::Enter, true, false);
    ev.modifiers.alt = true;
    assert_eq!(classify_shortcut(&ev), None);
    assert_eq!(
        classify_shortcut(&key_down(Key::Enter, true, true)),
        None
    );
    assert_eq!(
        classify_shortcut(&key_down(Key::Character('.'), true, false)),
        None
    );
    assert_eq!(
        classify_shortcut(&key_down(Key::Character('x'), true, false)),
        None
    );
    assert_eq!(classify_shortcut(&key_down(Key::Other, true, false)), None);
}

#[test]
fn shortcut_classification() {
    assert_eq!(
        classify_shortcut(&key_down(Key::Enter, true, false)),
        Some(Shortcut::ImplementPlan)
    );
    assert_eq!(
        classify_shortcut(&key_down(Key::Character('z'), true, false)),
        Some(Shortcut::UndoPlanStep)
    );
    assert_eq!(
        classify_shortcut(&key_down(Key::Character('z'), true, true)),
        Some(Shortcut::RedoPlanStep)
    );
    assert_eq!(
        classify_shortcut(&key_down(Key::Character('y'), true, false)),
        Some(Shortcut::RedoPlanStep)
    );
    assert_eq!(
        classify_shortcut(&key_down(Key::Character('.'), false, false)),
        Some(Shortcut::ToggleDebug)
    );
    let mut unknown = key_down(Key::Character('.'), false, false);
    unknown.event_type = KeyEventType::Unknown;
    assert_eq!(classify_shortcut(&unknown), None);
}

#[test]
fn unconsumed_event_leaves_state_alone() {
    let mut s = session_with_project();
    s.has_redo = true;
    s.show_debug = true;
    assert!(!handle_shortcut(&mut s, key_down(Key::Character('q'), true, false)));
    assert!(s.has_redo);
    assert!(s.show_debug);
    assert_eq!(s.planning_mode, Some(PlanningMode::Roads));
    assert_eq!(s.selected_land_use, Some(LandUse::Residential));
}
