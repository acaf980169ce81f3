use vstd::prelude::*;
use crate::text::project_id;

verus! {

/// The main tool mode, chosen in the main toolbar.
#[derive(Clone, Copy, Debug, PartialEq, Eq, Structural)]
pub enum UiMode {
    /// Neither inspection nor planning is active.
    Off,
    Inspection,
    Planning,
}

/// The planning sub-mode, chosen while a project is open.
#[derive(Clone, Copy, Debug, PartialEq, Eq, Structural)]
pub enum PlanningMode {
    Roads,
    Zoning,
}

/// A zone type that can be painted in zoning mode.
#[derive(Clone, Copy, Debug, PartialEq, Eq, Structural)]
pub enum LandUse {
    Residential,
    Commercial,
    Industrial,
    Agricultural,
    Recreational,
    Administrative,
}

/// A floating window whose opacity follows the pointer.
#[derive(Clone, Copy, Debug, PartialEq, Eq, Structural)]
pub enum HoverWindow {
    Menu,
    Debug,
    Building,
}

/// An sRGB color: red, green, blue, alpha.
#[derive(Clone, Copy, Debug, PartialEq, Eq, Structural)]
pub struct Rgba(pub u8, pub u8, pub u8, pub u8);

/// The whole state of the UI session.
#[derive(Clone, Debug)]
pub struct UiState {
    pub show_menu: bool,
    pub menu_tab: usize,
    pub show_debug: bool,
    pub debug_sec_actions: bool,
    pub debug_sec_net: bool,
    pub debug_sec_log: bool,
    pub debug_grid_n: i32,
    pub debug_grid_lanes: i32,
    pub debug_grid_spacing: i32,
    pub debug_spawn_tries: i32,
    pub rendering_enabled: bool,
    pub sim_hour: u32,
    pub sim_min: u32,
    /// The simulation speed as a step of the speed slider, 0 to 6:
    /// 0 is paused, any other step `k` runs at speed `2^(k-1)`.
    pub sim_speed_log: u8,
    pub ui_mode: UiMode,
    pub planning_mode: Option<PlanningMode>,
    pub current_project: Option<String>,
    pub projects: Vec<String>,
    pub project_seq: u32,
    pub has_redo: bool,
    pub selected_land_use: Option<LandUse>,
    pub inspected_building: Option<String>,
    pub building_pinned: bool,
    pub hovered_window: Option<HoverWindow>,
}

impl Default for UiState {
    fn default() -> (s: Self)
        ensures
            s.show_menu,
            s.menu_tab == 0,
            !s.show_debug,
            !s.debug_sec_actions && !s.debug_sec_net && !s.debug_sec_log,
            s.debug_grid_n == 10 && s.debug_grid_lanes == 2,
            s.debug_grid_spacing == 200 && s.debug_spawn_tries == 50,
            s.rendering_enabled,
            s.sim_hour == 0 && s.sim_min == 0,
            s.sim_speed_log == 1,
            s.ui_mode == UiMode::Off,
            s.planning_mode is None,
            s.current_project is None,
            s.projects@ == Seq::<String>::empty(),
            s.project_seq == 0,
            !s.has_redo,
            s.selected_land_use is None,
            s.inspected_building is None,
            !s.building_pinned,
            s.hovered_window is None,
            s.well_formed(),
    {
        UiState {
            show_menu: true,
            menu_tab: 0,
            show_debug: false,
            debug_sec_actions: false,
            debug_sec_net: false,
            debug_sec_log: false,
            debug_grid_n: 10,
            debug_grid_lanes: 2,
            debug_grid_spacing: 200,
            debug_spawn_tries: 50,
            rendering_enabled: true,
            sim_hour: 0,
            sim_min: 0,
            sim_speed_log: 1,
            ui_mode: UiMode::Off,
            planning_mode: None,
            current_project: None,
            projects: Vec::new(),
            project_seq: 0,
            has_redo: false,
            selected_land_use: None,
            inspected_building: None,
            building_pinned: false,
            hovered_window: None,
        }
    }
}

impl UiState {
    /// What every operation of this crate keeps: the speed step is on the
    /// slider's scale, the projects are exactly the ones started so far,
    /// numbered from one in the order they were started, and the open
    /// project, if any, is one of them.
    pub open spec fn well_formed(self) -> bool {
        &&& self.sim_speed_log <= 6
        &&& self.projects@.len() == self.project_seq
        &&& forall|i: int|
            0 <= i < self.projects@.len() ==> #[trigger] self.projects@[i]@ == project_id(
                (i + 1) as nat,
            )
        &&& open_project_is_listed(self.projects@, self.current_project)
    }
}

/// The open project, if any, is one of `projects`.
pub open spec fn open_project_is_listed(projects: Seq<String>, current: Option<String>) -> bool {
    match current {
        Some(c) => exists|i: int| 0 <= i < projects.len() && #[trigger] projects[i]@ == c@,
        None => true,
    }
}

} // verus!
