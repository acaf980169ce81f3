use citybound_ui::actions::{
    building_pointer_down, building_pointer_enter, building_pointer_leave, close_window,
    cycle_project, implement_project, redo_plan_step, select_land_use, select_menu_tab,
    select_planning_mode, set_sim_speed, start_new_project, toggle_debug_section,
    toggle_debug_window, set_menu_visible, toggle_rendering, toggle_ui_mode, undo_plan_step,
    undo_button_pressed, redo_button_pressed,
    window_pointer_enter, window_pointer_leave, DebugSection,
};
use citybound_ui::model::{HoverWindow, LandUse, PlanningMode, UiMode, UiState};

#[test]
fn default_state() {
    let s = UiState::default();
    assert!(s.show_menu);
    assert_eq!(s.menu_tab, 0);
    assert!(!s.show_debug);
    assert_eq!(s.debug_grid_n, 10);
    assert_eq!(s.debug_grid_lanes, 2);
    assert_eq!(s.debug_grid_spacing, 200);
    assert_eq!(s.debug_spawn_tries, 50);
    assert!(s.rendering_enabled);
    assert_eq!(s.sim_speed_log, 1);
    assert_eq!(s.ui_mode, UiMode::Off);
    assert!(s.projects.is_empty());
    assert_eq!(s.project_seq, 0);
    assert!(s.current_project.is_none());
    assert!(s.hovered_window.is_none());
}

#[test]
fn mode_buttons_toggle() {
    let mut s = UiState::default();
    toggle_ui_mode(&mut s, UiMode::Inspection);
    assert_eq!(s.ui_mode, UiMode::Inspection);
    toggle_ui_mode(&mut s, UiMode::Planning);
    assert_eq!(s.ui_mode, UiMode::Planning);
    toggle_ui_mode(&mut s, UiMode::Planning);
    assert_eq!(s.ui_mode, UiMode::Off);
    toggle_ui_mode(&mut s, UiMode::Inspection);
    toggle_ui_mode(&mut s, UiMode::Inspection);
    assert_eq!(s.ui_mode, UiMode::Off);
}

#[test]
fn starting_projects_numbers_them() {
    let mut s = UiState::default();
    s.planning_mode = Some(PlanningMode::Zoning);
    s.selected_land_use = Some(LandUse::Industrial);
    s.has_redo = true;
    start_new_project(&mut s);
    assert_eq!(s.project_seq, 1);
    assert_eq!(s.projects, vec!["prj001".to_string()]);
    assert_eq!(s.current_project.as_deref(), Some("prj001"));
    assert!(s.planning_mode.is_none());
    assert!(s.selected_land_use.is_none());
    assert!(!s.has_redo);
    start_new_project(&mut s);
    assert_eq!(s.projects, vec!["prj001".to_string(), "prj002".to_string()]);
    assert_eq!(s.current_project.as_deref(), Some("prj002"));
}

#[test]
fn project_selector_cycles() {
    let mut s = UiState::default();
    cycle_project(&mut s);
    assert!(s.current_project.is_none());
    start_new_project(&mut s);
    start_new_project(&mut s);
    start_new_project(&mut s);
    implement_project(&mut s);
    assert!(s.current_project.is_none());
    cycle_project(&mut s);
    assert_eq!(s.current_project.as_deref(), Some("prj001"));
    cycle_project(&mut s);
    assert_eq!(s.current_project.as_deref(), Some("prj002"));
    cycle_project(&mut s);
    assert_eq!(s.current_project.as_deref(), Some("prj003"));
    cycle_project(&mut s);
    assert_eq!(s.current_project.as_deref(), Some("prj001"));
}

#[test]
fn project_selector_with_unlisted_project_goes_to_first() {
    let mut s = UiState::default();
    start_new_project(&mut s);
    start_new_project(&mut s);
    s.current_project = Some("other".to_string());
    cycle_project(&mut s);
    assert_eq!(s.current_project.as_deref(), Some("prj001"));
}

#[test]
fn implement_button_closes_project() {
    let mut s = UiState::default();
    start_new_project(&mut s);
    select_planning_mode(&mut s, PlanningMode::Zoning);
    select_land_use(&mut s, LandUse::Commercial);
    s.has_redo = true;
    implement_project(&mut s);
    assert!(s.current_project.is_none());
    assert!(s.planning_mode.is_none());
    assert!(s.selected_land_use.is_none());
    assert!(!s.has_redo);
    assert_eq!(s.projects.len(), 1);
}

#[test]
fn history_buttons() {
    let mut s = UiState::default();
    assert!(!undo_plan_step(&mut s));
    assert!(!s.has_redo);
    start_new_project(&mut s);
    assert!(undo_plan_step(&mut s));
    assert!(s.has_redo);
    assert!(redo_plan_step(&mut s));
    assert!(!s.has_redo);
    assert!(!redo_plan_step(&mut s));
}

#[test]
fn planning_modes_and_land_use() {
    let mut s = UiState::default();
    select_land_use(&mut s, LandUse::Agricultural);
    select_planning_mode(&mut s, PlanningMode::Roads);
    assert_eq!(s.planning_mode, Some(PlanningMode::Roads));
    assert_eq!(s.selected_land_use, Some(LandUse::Agricultural));
    select_planning_mode(&mut s, PlanningMode::Zoning);
    assert_eq!(s.planning_mode, Some(PlanningMode::Zoning));
    assert!(s.selected_land_use.is_none());
    select_land_use(&mut s, LandUse::Recreational);
    assert_eq!(s.selected_land_use, Some(LandUse::Recreational));
}

#[test]
fn toggles_flip_and_flip_back() {
    let mut s = UiState::default();
    set_menu_visible(&mut s, false);
    assert!(!s.show_menu);
    set_menu_visible(&mut s, false);
    assert!(!s.show_menu);
    set_menu_visible(&mut s, true);
    assert!(s.show_menu);
    toggle_debug_window(&mut s);
    assert!(s.show_debug);
    toggle_rendering(&mut s);
    assert!(!s.rendering_enabled);
    toggle_rendering(&mut s);
    assert!(s.rendering_enabled);
    toggle_debug_section(&mut s, DebugSection::Actions);
    toggle_debug_section(&mut s, DebugSection::SimulationLog);
    assert!(s.debug_sec_actions);
    assert!(!s.debug_sec_net);
    assert!(s.debug_sec_log);
    toggle_debug_section(&mut s, DebugSection::Networking);
    toggle_debug_section(&mut s, DebugSection::Actions);
    assert!(!s.debug_sec_actions);
    assert!(s.debug_sec_net);
}

#[test]
fn menu_tabs_and_speed() {
    let mut s = UiState::default();
    select_menu_tab(&mut s, 3);
    assert_eq!(s.menu_tab, 3);
    set_sim_speed(&mut s, 0);
    assert_eq!(s.sim_speed_log, 0);
    set_sim_speed(&mut s, 6);
    assert_eq!(s.sim_speed_log, 6);
    set_sim_speed(&mut s, 9);
    assert_eq!(s.sim_speed_log, 6);
}

#[test]
fn window_hover_follows_pointer() {
    let mut s = UiState::default();
    window_pointer_enter(&mut s, HoverWindow::Menu);
    assert_eq!(s.hovered_window, Some(HoverWindow::Menu));
    window_pointer_leave(&mut s, HoverWindow::Debug);
    assert_eq!(s.hovered_window, Some(HoverWindow::Menu));
    window_pointer_enter(&mut s, HoverWindow::Debug);
    window_pointer_leave(&mut s, HoverWindow::Debug);
    assert!(s.hovered_window.is_none());
}

#[test]
fn close_buttons() {
    let mut s = UiState::default();
    s.show_debug = true;
    close_window(&mut s, HoverWindow::Menu);
    assert!(!s.show_menu);
    assert!(s.show_debug);
    close_window(&mut s, HoverWindow::Debug);
    assert!(!s.show_debug);
    building_pointer_down(&mut s, "bld:2");
    close_window(&mut s, HoverWindow::Building);
    assert!(s.inspected_building.is_none());
    assert!(!s.building_pinned);
}

#[test]
fn building_inspection_and_pinning() {
    let mut s = UiState::default();
    building_pointer_enter(&mut s, "bld:1");
    assert_eq!(s.inspected_building.as_deref(), Some("bld:1"));
    building_pointer_leave(&mut s);
    assert!(s.inspected_building.is_none());
    building_pointer_down(&mut s, "bld:3");
    assert!(s.building_pinned);
    building_pointer_enter(&mut s, "bld:1");
    assert_eq!(s.inspected_building.as_deref(), Some("bld:3"));
    building_pointer_leave(&mut s);
    assert_eq!(s.inspected_building.as_deref(), Some("bld:3"));
    building_pointer_down(&mut s, "bld:2");
    assert_eq!(s.inspected_building.as_deref(), Some("bld:2"));
}

#[test]
fn history_buttons_set_redo_flag() {
    let mut s = UiState::default();
    undo_button_pressed(&mut s);
    assert!(s.has_redo);
    undo_button_pressed(&mut s);
    assert!(s.has_redo);
    redo_button_pressed(&mut s);
    assert!(!s.has_redo);
    redo_button_pressed(&mut s);
    assert!(!s.has_redo);
    assert!(s.current_project.is_none());
}
