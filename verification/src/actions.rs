use vstd::prelude::*;
use crate::model::{open_project_is_listed, HoverWindow, LandUse, PlanningMode, UiMode, UiState};
use crate::text::{make_project_id, project_id};

verus! {

/// The state after a plan is implemented or dropped: no project is open,
/// and the planning tools are reset.
pub open spec fn project_closed(s: UiState) -> UiState {
    UiState {
        current_project: None,
        planning_mode: None,
        selected_land_use: None,
        has_redo: false,
        ..s
    }
}

/// The main-toolbar toggle: choosing the active mode turns it off,
/// choosing another mode activates that one.
pub open spec fn toggled_mode(current: UiMode, chosen: UiMode) -> UiMode {
    if current == chosen {
        UiMode::Off
    } else {
        chosen
    }
}

/// Toggles the main tool mode as the eye and pencil buttons do.
pub fn toggle_ui_mode(state: &mut UiState, mode: UiMode)
    ensures
        *final(state) == (UiState { ui_mode: toggled_mode(old(state).ui_mode, mode), ..*old(state) }),
        old(state).ui_mode != mode ==> final(state).ui_mode == mode,
        old(state).ui_mode == mode ==> final(state).ui_mode == UiMode::Off,
        old(state).well_formed() ==> final(state).well_formed(),
{
    if state.ui_mode == mode {
        state.ui_mode = UiMode::Off;
    } else {
        state.ui_mode = mode;
    }
}

/// Implements the open plan (the Implement button): closes the project
/// and resets the planning tools.
pub fn implement_project(state: &mut UiState)
    ensures
        *final(state) == project_closed(*old(state)),
        old(state).well_formed() ==> final(state).well_formed(),
{
    state.current_project = None;
    state.planning_mode = None;
    state.selected_land_use = None;
    state.has_redo = false;
}

/// Undoes a plan step from the keyboard: possible while a project is
/// open, and leaves a step to redo. Returns whether the step was taken.
pub fn undo_plan_step(state: &mut UiState) -> (done: bool)
    ensures
        done == (old(state).current_project is Some),
        done ==> *final(state) == (UiState { has_redo: true, ..*old(state) }),
        !done ==> *final(state) == *old(state),
        old(state).well_formed() ==> final(state).well_formed(),
{
    if state.current_project.is_some() {
        state.has_redo = true;
        true
    } else {
        false
    }
}

/// Redoes a plan step from the keyboard: possible while there is one to
/// redo. Returns whether the step was taken.
pub fn redo_plan_step(state: &mut UiState) -> (done: bool)
    ensures
        done == old(state).has_redo,
        done ==> *final(state) == (UiState { has_redo: false, ..*old(state) }),
        !done ==> *final(state) == *old(state),
        old(state).well_formed() ==> final(state).well_formed(),
{
    if state.has_redo {
        state.has_redo = false;
        true
    } else {
        false
    }
}

/// The undo button: it is only clickable while a project is open (see
/// `history_enabled`), and a click leaves a step to redo.
pub fn undo_button_pressed(state: &mut UiState)
    ensures
        *final(state) == (UiState { has_redo: true, ..*old(state) }),
        old(state).well_formed() ==> final(state).well_formed(),
{
    state.has_redo = true;
}

/// The redo button: it is only clickable while there is a step to redo
/// (see `history_enabled`), and a click uses it up.
pub fn redo_button_pressed(state: &mut UiState)
    ensures
        *final(state) == (UiState { has_redo: false, ..*old(state) }),
        old(state).well_formed() ==> final(state).well_formed(),
{
    state.has_redo = false;
}

/// Shows or hides the debug window.
pub fn toggle_debug_window(state: &mut UiState)
    ensures
        *final(state) == (UiState { show_debug: !old(state).show_debug, ..*old(state) }),
        old(state).well_formed() ==> final(state).well_formed(),
{
    state.show_debug = !state.show_debug;
}

/// The menu button: shows or hides the main menu window. The button is
/// built with the visibility it will set (the opposite of what it showed
/// when it was drawn), so a click sets `visible`.
pub fn set_menu_visible(state: &mut UiState, visible: bool)
    ensures
        *final(state) == (UiState { show_menu: visible, ..*old(state) }),
        old(state).well_formed() ==> final(state).well_formed(),
{
    state.show_menu = visible;
}

/// Turns rendering of the world on or off.
pub fn toggle_rendering(state: &mut UiState)
    ensures
        *final(state) == (UiState {
            rendering_enabled: !old(state).rendering_enabled,
            ..*old(state)
        }),
        old(state).well_formed() ==> final(state).well_formed(),
{
    state.rendering_enabled = !state.rendering_enabled;
}

/// Chooses the planning sub-mode. Entering zoning clears the chosen zone
/// type.
pub fn select_planning_mode(state: &mut UiState, mode: PlanningMode)
    ensures
        mode == PlanningMode::Roads ==> *final(state) == (UiState {
            planning_mode: Some(PlanningMode::Roads),
            ..*old(state)
        }),
        mode == PlanningMode::Zoning ==> *final(state) == (UiState {
            planning_mode: Some(PlanningMode::Zoning),
            selected_land_use: None,
            ..*old(state)
        }),
        old(state).well_formed() ==> final(state).well_formed(),
{
    match mode {
        PlanningMode::Roads => {
            state.planning_mode = Some(PlanningMode::Roads);
        },
        PlanningMode::Zoning => {
            state.planning_mode = Some(PlanningMode::Zoning);
            state.selected_land_use = None;
        },
    }
}

/// Chooses the zone type to paint.
pub fn select_land_use(state: &mut UiState, land_use: LandUse)
    ensures
        *final(state) == (UiState { selected_land_use: Some(land_use), ..*old(state) }),
        old(state).well_formed() ==> final(state).well_formed(),
{
    state.selected_land_use = Some(land_use);
}

/// Chooses the tab of the main menu.
pub fn select_menu_tab(state: &mut UiState, tab: usize)
    ensures
        *final(state) == (UiState { menu_tab: tab, ..*old(state) }),
        old(state).well_formed() ==> final(state).well_formed(),
{
    state.menu_tab = tab;
}

/// Sets the simulation speed from a slider step; steps beyond the
/// slider's end are held at its last step, 6.
pub fn set_sim_speed(state: &mut UiState, step: u8)
    ensures
        *final(state) == (UiState {
            sim_speed_log: if step <= 6 { step } else { 6 },
            ..*old(state)
        }),
        final(state).sim_speed_log <= 6,
        old(state).well_formed() ==> final(state).well_formed(),
{
    state.sim_speed_log = if step <= 6 { step } else { 6 };
}

/// Starts a new project: the next project number is taken, the project is
/// listed and opened, and the planning tools are reset.
pub fn start_new_project(state: &mut UiState)
    requires
        old(state).project_seq < u32::MAX,
    ensures
        final(state).project_seq == old(state).project_seq + 1,
        final(state).projects@.len() == old(state).projects@.len() + 1,
        final(state).projects@.drop_last() == old(state).projects@,
        final(state).projects@.last()@ == project_id(final(state).project_seq as nat),
        final(state).current_project == Some(final(state).projects@.last()),
        *final(state) == (UiState {
            project_seq: final(state).project_seq,
            projects: final(state).projects,
            current_project: final(state).current_project,
            planning_mode: None,
            selected_land_use: None,
            has_redo: false,
            ..*old(state)
        }),
        old(state).well_formed() ==> final(state).well_formed(),
{
    state.project_seq = state.project_seq + 1;
    let id = make_project_id(state.project_seq);
    state.projects.push(id.clone());
    state.current_project = Some(id);
    state.planning_mode = None;
    state.selected_land_use = None;
    state.has_redo = false;
    proof {
        let n = state.projects@.len();
        assert(state.projects@.drop_last() =~= old(state).projects@);
        assert(state.projects@[n - 1] == state.projects@.last());
        if old(state).well_formed() {
            assert forall|i: int| 0 <= i < state.projects@.len() implies #[trigger] state.projects@[i]@
                == project_id((i + 1) as nat) by {
                if i < n - 1 {
                    assert(state.projects@[i] == old(state).projects@[i]);
                }
            }
            assert(open_project_is_listed(state.projects@, state.current_project)) by {
                assert(state.projects@[n - 1]@ == state.current_project->0@);
            }
        }
    }
}

/// `i` is the first position in `projects` whose name is `name`.
pub open spec fn is_first_position(projects: Seq<String>, name: Seq<char>, i: int) -> bool {
    &&& 0 <= i < projects.len()
    &&& projects[i]@ == name
    &&& forall|j: int| 0 <= j < i ==> #[trigger] projects[j]@ != name
}

/// The position of the project the selector moves to: the one after the
/// open project (wrapping around), or the first one when no listed project
/// is open.
pub open spec fn next_project_index(s: UiState) -> int {
    match s.current_project {
        Some(c) => if exists|i: int| is_first_position(s.projects@, c@, i) {
            ((choose|i: int| is_first_position(s.projects@, c@, i)) + 1) % (s.projects@.len() as int)
        } else {
            0
        },
        None => 0,
    }
}

/// A name has at most one first position.
proof fn lemma_first_position_unique(projects: Seq<String>, name: Seq<char>, i: int, k: int)
    requires
        is_first_position(projects, name, i),
        is_first_position(projects, name, k),
    ensures
        i == k,
{
    if i < k {
        assert(projects[i]@ != name);
    } else if k < i {
        assert(projects[k]@ != name);
    }
}

/// Finds the first position of `name` in `projects`.
fn position_of(projects: &Vec<String>, name: &String) -> (r: Option<usize>)
    ensures
        r matches Some(i) ==> is_first_position(projects@, name@, i as int),
        r is None ==> forall|j: int| 0 <= j < projects@.len() ==> #[trigger] projects@[j]@ != name@,
{
    let n = projects.len();
    for i in 0..n
        invariant
            n == projects@.len(),
            forall|j: int| 0 <= j < i ==> #[trigger] projects@[j]@ != name@,
    {
        if projects[i] == *name {
            return Some(i);
        }
    }
    None
}

/// The state after one click on the project selector: the project after
/// the open one becomes open (see `next_project_index`); nothing happens
/// while no project exists.
pub open spec fn project_clicked(s: UiState) -> UiState {
    if s.projects@.len() == 0 {
        s
    } else {
        UiState { current_project: Some(s.projects@[next_project_index(s)]), ..s }
    }
}

/// Moves the project selector to the next listed project, as a click on
/// it does. Nothing happens while no project exists.
pub fn cycle_project(state: &mut UiState)
    ensures
        *final(state) == project_clicked(*old(state)),
        old(state).projects@.len() > 0 && old(state).current_project is None
            ==> final(state).current_project == Some(old(state).projects@[0]),
        old(state).projects@.len() > 0 ==> 0 <= next_project_index(*old(state)) < old(
            state,
        ).projects@.len(),
        old(state).well_formed() ==> final(state).well_formed(),
{
    let n = state.projects.len();
    if n == 0 {
        return;
    }
    let mut idx: usize = 0;
    match &state.current_project {
        Some(c) => {
            match position_of(&state.projects, c) {
                Some(i) => {
                    idx = (i + 1) % n;
                    proof {
                        let k = choose|k: int| is_first_position(state.projects@, c@, k);
                        lemma_first_position_unique(state.projects@, c@, i as int, k);
                    }
                },
                None => {
                    assert(!exists|k: int| is_first_position(state.projects@, c@, k));
                },
            }
        },
        None => {},
    }
    assert(idx == next_project_index(*old(state)));
    let next = state.projects[idx].clone();
    state.current_project = Some(next);
    assert(open_project_is_listed(state.projects@, state.current_project)) by {
        assert(state.projects@[idx as int]@ == state.current_project->0@);
    }
}

/// The state after the pointer enters a floating window.
pub open spec fn window_entered(s: UiState, window: HoverWindow) -> UiState {
    UiState { hovered_window: Some(window), ..s }
}

/// The state after the pointer leaves a floating window: the hover ends if
/// it was on that window.
pub open spec fn window_left(s: UiState, window: HoverWindow) -> UiState {
    if s.hovered_window == Some(window) {
        UiState { hovered_window: None, ..s }
    } else {
        s
    }
}

/// The pointer entered one of the floating windows.
pub fn window_pointer_enter(state: &mut UiState, window: HoverWindow)
    ensures
        *final(state) == window_entered(*old(state), window),
        old(state).well_formed() ==> final(state).well_formed(),
{
    state.hovered_window = Some(window);
}

/// The pointer left one of the floating windows.
pub fn window_pointer_leave(state: &mut UiState, window: HoverWindow)
    ensures
        *final(state) == window_left(*old(state), window),
        old(state).well_formed() ==> final(state).well_formed(),
{
    let hovered_here = match state.hovered_window {
        Some(w) => w == window,
        None => false,
    };
    if hovered_here {
        state.hovered_window = None;
    }
}

/// The close button of a window: the menu and the debug window are
/// hidden, the building window lets go of its building and unpins.
pub fn close_window(state: &mut UiState, window: HoverWindow)
    ensures
        window == HoverWindow::Menu ==> *final(state) == (UiState {
            show_menu: false,
            ..*old(state)
        }),
        window == HoverWindow::Debug ==> *final(state) == (UiState {
            show_debug: false,
            ..*old(state)
        }),
        window == HoverWindow::Building ==> *final(state) == (UiState {
            inspected_building: None,
            building_pinned: false,
            ..*old(state)
        }),
        old(state).well_formed() ==> final(state).well_formed(),
{
    match window {
        HoverWindow::Menu => {
            state.show_menu = false;
        },
        HoverWindow::Debug => {
            state.show_debug = false;
        },
        HoverWindow::Building => {
            state.inspected_building = None;
            state.building_pinned = false;
        },
    }
}

/// The pointer entered a building on the map: unless a building is
/// pinned, it becomes the inspected one.
pub fn building_pointer_enter(state: &mut UiState, id: &str)
    ensures
        old(state).building_pinned ==> *final(state) == *old(state),
        !old(state).building_pinned ==> (final(state).inspected_building matches Some(b) && b@
            == id@),
        !old(state).building_pinned ==> *final(state) == (UiState {
            inspected_building: final(state).inspected_building,
            ..*old(state)
        }),
        old(state).well_formed() ==> final(state).well_formed(),
{
    if !state.building_pinned {
        state.inspected_building = Some(String::from_str(id));
    }
}

/// The pointer left a building on the map: unless a building is pinned,
/// nothing is inspected any more.
pub fn building_pointer_leave(state: &mut UiState)
    ensures
        old(state).building_pinned ==> *final(state) == *old(state),
        !old(state).building_pinned ==> *final(state) == (UiState {
            inspected_building: None,
            ..*old(state)
        }),
        old(state).well_formed() ==> final(state).well_formed(),
{
    if !state.building_pinned {
        state.inspected_building = None;
    }
}

/// A click on a building on the map inspects it and pins it.
pub fn building_pointer_down(state: &mut UiState, id: &str)
    ensures
        final(state).inspected_building matches Some(b) && b@ == id@,
        *final(state) == (UiState {
            inspected_building: final(state).inspected_building,
            building_pinned: true,
            ..*old(state)
        }),
        old(state).well_formed() ==> final(state).well_formed(),
{
    state.inspected_building = Some(String::from_str(id));
    state.building_pinned = true;
}

/// The collapsible sections of the debug window.
#[derive(Clone, Copy, Debug, PartialEq, Eq, Structural)]
pub enum DebugSection {
    Actions,
    Networking,
    SimulationLog,
}

/// Opens or closes a section of the debug window.
pub fn toggle_debug_section(state: &mut UiState, section: DebugSection)
    ensures
        section == DebugSection::Actions ==> *final(state) == (UiState {
            debug_sec_actions: !old(state).debug_sec_actions,
            ..*old(state)
        }),
        section == DebugSection::Networking ==> *final(state) == (UiState {
            debug_sec_net: !old(state).debug_sec_net,
            ..*old(state)
        }),
        section == DebugSection::SimulationLog ==> *final(state) == (UiState {
            debug_sec_log: !old(state).debug_sec_log,
            ..*old(state)
        }),
        old(state).well_formed() ==> final(state).well_formed(),
{
    match section {
        DebugSection::Actions => {
            state.debug_sec_actions = !state.debug_sec_actions;
        },
        DebugSection::Networking => {
            state.debug_sec_net = !state.debug_sec_net;
        },
        DebugSection::SimulationLog => {
            state.debug_sec_log = !state.debug_sec_log;
        },
    }
}

} // verus!
