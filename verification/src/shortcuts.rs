use vstd::prelude::*;
use crate::actions::{implement_project, project_closed, redo_plan_step, toggle_debug_window, undo_plan_step};
use crate::model::UiState;

verus! {

/// A key, as far as the shortcuts tell keys apart.
#[derive(Clone, Copy, Debug, PartialEq, Eq, Structural)]
pub enum Key {
    /// A key that types this character.
    Character(char),
    Enter,
    /// Any other key.
    Other,
}

/// The modifier keys held during a key event.
#[derive(Clone, Copy, Debug, PartialEq, Eq, Structural)]
pub struct Modifiers {
    pub shift: bool,
    pub ctrl: bool,
    pub alt: bool,
    pub meta: bool,
    /// The platform's command key: Cmd on macOS, Ctrl elsewhere.
    pub command: bool,
}

impl Default for Modifiers {
    fn default() -> (m: Self)
        ensures
            !m.shift && !m.ctrl && !m.alt && !m.meta && !m.command,
    {
        Modifiers { shift: false, ctrl: false, alt: false, meta: false, command: false }
    }
}

/// Whether a key went down or up.
#[derive(Clone, Copy, Debug, PartialEq, Eq, Structural)]
pub enum KeyEventType {
    Down,
    Up,
    Unknown,
}

/// A keyboard event.
#[derive(Clone, Copy, Debug, PartialEq, Eq, Structural)]
pub struct KeyEvent {
    pub key: Key,
    pub modifiers: Modifiers,
    pub is_repeat: bool,
    pub event_type: KeyEventType,
    /// The UTF-16 code point that the key types, or 0.
    pub utf16_code_point: u16,
}

/// The global shortcuts of the settings tab.
#[derive(Clone, Copy, Debug, PartialEq, Eq, Structural)]
pub enum Shortcut {
    /// command+enter
    ImplementPlan,
    /// command+z
    UndoPlanStep,
    /// command+shift+z or command+y
    RedoPlanStep,
    /// `.` without modifiers
    ToggleDebug,
}

/// The shortcut a key event stands for, if any. Only fresh key presses
/// count: releases and auto-repeats stand for none. The command, shift and
/// alt keys must be held exactly as the binding says.
pub open spec fn shortcut_of(event: KeyEvent) -> Option<Shortcut> {
    let m = event.modifiers;
    if event.event_type != KeyEventType::Down || event.is_repeat {
        None
    } else {
        match event.key {
            Key::Enter => if m.command && !m.shift && !m.alt {
                Some(Shortcut::ImplementPlan)
            } else {
                None
            },
            Key::Character(c) => if c == 'z' && m.command && !m.shift && !m.alt {
                Some(Shortcut::UndoPlanStep)
            } else if (c == 'z' && m.command && m.shift && !m.alt) || (c == 'y' && m.command
                && !m.shift && !m.alt) {
                Some(Shortcut::RedoPlanStep)
            } else if c == '.' && !m.command && !m.shift && !m.alt {
                Some(Shortcut::ToggleDebug)
            } else {
                None
            },
            Key::Other => None,
        }
    }
}

/// What a shortcut does to the state, and whether it applies: the plan
/// shortcuts apply only while there is something to implement, undo or
/// redo; the debug toggle always applies.
pub open spec fn shortcut_effect(s: UiState, shortcut: Shortcut) -> (UiState, bool) {
    match shortcut {
        Shortcut::ImplementPlan => if s.current_project is Some {
            (project_closed(s), true)
        } else {
            (s, false)
        },
        Shortcut::UndoPlanStep => if s.current_project is Some {
            (UiState { has_redo: true, ..s }, true)
        } else {
            (s, false)
        },
        Shortcut::RedoPlanStep => if s.has_redo {
            (UiState { has_redo: false, ..s }, true)
        } else {
            (s, false)
        },
        Shortcut::ToggleDebug => (UiState { show_debug: !s.show_debug, ..s }, true),
    }
}

/// Classifies a key event as a shortcut.
pub fn classify_shortcut(event: &KeyEvent) -> (r: Option<Shortcut>)
    ensures
        r == shortcut_of(*event),
        event.is_repeat ==> r is None,
        event.event_type != KeyEventType::Down ==> r is None,
{
    let down = match event.event_type {
        KeyEventType::Down => true,
        _ => false,
    };
    if !down || event.is_repeat {
        return None;
    }
    let command = event.modifiers.command;
    let shift = event.modifiers.shift;
    let alt = event.modifiers.alt;
    match event.key {
        Key::Enter => {
            if command && !shift && !alt {
                Some(Shortcut::ImplementPlan)
            } else {
                None
            }
        },
        Key::Character(c) => {
            if c == 'z' && command && !shift && !alt {
                Some(Shortcut::UndoPlanStep)
            } else if (c == 'z' && command && shift && !alt) || (c == 'y' && command && !shift
                && !alt) {
                Some(Shortcut::RedoPlanStep)
            } else if c == '.' && !command && !shift && !alt {
                Some(Shortcut::ToggleDebug)
            } else {
                None
            }
        },
        Key::Other => None,
    }
}

/// Handles a key event against the global shortcuts. Returns whether the
/// event was consumed; an event that is not consumed leaves the state as
/// it was.
pub fn handle_shortcut(state: &mut UiState, event: KeyEvent) -> (consumed: bool)
    ensures
        shortcut_of(event) is None ==> !consumed && *final(state) == *old(state),
        shortcut_of(event) matches Some(sc) ==> (*final(state), consumed) == shortcut_effect(
            *old(state),
            sc,
        ),
        !consumed ==> *final(state) == *old(state),
        event.is_repeat ==> !consumed && *final(state) == *old(state),
        event.event_type != KeyEventType::Down ==> !consumed && *final(state) == *old(state),
        old(state).well_formed() ==> final(state).well_formed(),
{
    match classify_shortcut(&event) {
        None => false,
        Some(Shortcut::ImplementPlan) => {
            if state.current_project.is_some() {
                implement_project(state);
                true
            } else {
                false
            }
        },
        Some(Shortcut::UndoPlanStep) => undo_plan_step(state),
        Some(Shortcut::RedoPlanStep) => redo_plan_step(state),
        Some(Shortcut::ToggleDebug) => {
            toggle_debug_window(state);
            true
        },
    }
}

} // verus!
