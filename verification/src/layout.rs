use vstd::prelude::*;
use crate::actions::DebugSection;
use crate::model::{HoverWindow, LandUse, PlanningMode, Rgba, UiMode, UiState};

verus! {

/// A group of controls in the bottom toolbar, from left to right.
#[derive(Clone, Debug, PartialEq, Eq)]
pub enum ToolbarItem {
    /// The inspection and planning mode buttons.
    MainModes,
    /// The project selector, showing the open project if there is one.
    ProjectSelect(Option<String>),
    /// The button that starts the first project.
    StartProject,
    /// The button that implements the open plan.
    Implement,
    /// The undo and redo buttons.
    History,
    /// The roads and zoning buttons.
    PlanningModes,
    /// The zone type swatches.
    Zoning,
    /// Flexible space.
    Spacer,
    /// The menu button.
    Menu,
}

/// The controls the bottom toolbar shows for a state: the mode buttons
/// always; in planning mode the project controls (with the zone types while
/// zoning), or the project selector or start button when no project is
/// open; then the menu button at the far end.
pub open spec fn toolbar_items(s: UiState) -> Seq<ToolbarItem> {
    let planning = if s.ui_mode == UiMode::Planning {
        match s.current_project {
            Some(c) => seq![
                ToolbarItem::ProjectSelect(Some(c)),
                ToolbarItem::Implement,
                ToolbarItem::History,
                ToolbarItem::PlanningModes,
            ] + if s.planning_mode == Some(PlanningMode::Zoning) {
                seq![ToolbarItem::Zoning]
            } else {
                Seq::empty()
            },
            None => if s.projects@.len() == 0 {
                seq![ToolbarItem::StartProject]
            } else {
                seq![ToolbarItem::ProjectSelect(None)]
            },
        }
    } else {
        Seq::empty()
    };
    seq![ToolbarItem::MainModes] + planning + seq![ToolbarItem::Spacer, ToolbarItem::Menu]
}

/// Lists the controls of the bottom toolbar for the current state.
pub fn bottom_toolbar_items(state: &UiState) -> (items: Vec<ToolbarItem>)
    ensures
        items@ == toolbar_items(*state),
        state.ui_mode != UiMode::Planning ==> items@ == seq![
            ToolbarItem::MainModes,
            ToolbarItem::Spacer,
            ToolbarItem::Menu,
        ],
        items@.len() >= 3,
        items@[0] == ToolbarItem::MainModes,
        items@[items@.len() - 2] == ToolbarItem::Spacer,
        items@.last() == ToolbarItem::Menu,
{
    let mut items: Vec<ToolbarItem> = Vec::new();
    items.push(ToolbarItem::MainModes);
    let in_planning = state.ui_mode == UiMode::Planning;
    if in_planning {
        match &state.current_project {
            Some(c) => {
                items.push(ToolbarItem::ProjectSelect(Some(c.clone())));
                items.push(ToolbarItem::Implement);
                items.push(ToolbarItem::History);
                items.push(ToolbarItem::PlanningModes);
                let zoning = match state.planning_mode {
                    Some(PlanningMode::Zoning) => true,
                    _ => false,
                };
                if zoning {
                    items.push(ToolbarItem::Zoning);
                }
            },
            None => {
                if state.projects.len() == 0 {
                    items.push(ToolbarItem::StartProject);
                } else {
                    items.push(ToolbarItem::ProjectSelect(None));
                }
            },
        }
    }
    items.push(ToolbarItem::Spacer);
    items.push(ToolbarItem::Menu);
    assert(items@ =~= toolbar_items(*state));
    items
}

/// Which overlays are shown over the map, besides the title, the clock
/// and the toolbar, which always are.
#[derive(Clone, Copy, Debug, PartialEq, Eq, Structural)]
pub struct OverlayPanels {
    /// The window of the inspected building.
    pub building_window: bool,
    /// The hint to hover a building, while nothing is inspected.
    pub inspect_hint: bool,
    pub debug_window: bool,
    pub menu_window: bool,
}

/// Decides which overlays are shown: the building window and the hint only
/// in inspection mode, the one when a building is inspected and the other
/// when none is; the debug and menu windows when they are switched on.
pub fn overlay_panels(state: &UiState) -> (p: OverlayPanels)
    ensures
        p.building_window == (state.ui_mode == UiMode::Inspection
            && state.inspected_building is Some),
        p.inspect_hint == (state.ui_mode == UiMode::Inspection && state.inspected_building is None),
        p.debug_window == state.show_debug,
        p.menu_window == state.show_menu,
{
    let inspecting = state.ui_mode == UiMode::Inspection;
    let inspected = state.inspected_building.is_some();
    OverlayPanels {
        building_window: inspecting && inspected,
        inspect_hint: inspecting && !inspected,
        debug_window: state.show_debug,
        menu_window: state.show_menu,
    }
}

/// Whether the building window is shown fully opaque: while the pointer
/// is over it or while its building is pinned.
pub fn building_window_highlighted(state: &UiState) -> (r: bool)
    ensures
        r == (state.hovered_window == Some(HoverWindow::Building) || state.building_pinned),
{
    let hovered = match state.hovered_window {
        Some(HoverWindow::Building) => true,
        _ => false,
    };
    hovered || state.building_pinned
}

/// Whether the pointer is over the given floating window, which then
/// shows fully opaque.
pub fn window_hovered(state: &UiState, window: HoverWindow) -> (r: bool)
    ensures
        r == (state.hovered_window == Some(window)),
{
    match state.hovered_window {
        Some(w) => w == window,
        None => false,
    }
}

/// Whether the main toolbar button of a mode is shown active.
pub fn mode_button_active(state: &UiState, mode: UiMode) -> (r: bool)
    ensures
        r == (state.ui_mode == mode),
{
    state.ui_mode == mode
}

/// Whether the button of a planning sub-mode is shown active.
pub fn planning_button_active(state: &UiState, mode: PlanningMode) -> (r: bool)
    ensures
        r == (state.planning_mode == Some(mode)),
{
    match state.planning_mode {
        Some(m) => m == mode,
        None => false,
    }
}

/// Whether the swatch of a zone type is shown selected.
pub fn land_use_swatch_active(state: &UiState, land_use: LandUse) -> (r: bool)
    ensures
        r == (state.selected_land_use == Some(land_use)),
{
    match state.selected_land_use {
        Some(lu) => lu == land_use,
        None => false,
    }
}

/// Whether the menu tab at `tab` is the chosen one.
pub fn menu_tab_active(state: &UiState, tab: usize) -> (r: bool)
    ensures
        r == (state.menu_tab == tab),
{
    state.menu_tab == tab
}

/// Whether the building window shows its close button: only while its
/// building is pinned.
pub fn building_close_button_shown(state: &UiState) -> (r: bool)
    ensures
        r == state.building_pinned,
{
    state.building_pinned
}

/// Whether a section of the debug window is open, showing its content.
pub fn debug_section_open(state: &UiState, section: DebugSection) -> (r: bool)
    ensures
        section == DebugSection::Actions ==> r == state.debug_sec_actions,
        section == DebugSection::Networking ==> r == state.debug_sec_net,
        section == DebugSection::SimulationLog ==> r == state.debug_sec_log,
{
    match section {
        DebugSection::Actions => state.debug_sec_actions,
        DebugSection::Networking => state.debug_sec_net,
        DebugSection::SimulationLog => state.debug_sec_log,
    }
}

/// Whether the debug actions offer the grid-planning controls: only while
/// a project is open; otherwise they ask to open one.
pub fn debug_grid_controls_shown(state: &UiState) -> (r: bool)
    ensures
        r == (state.current_project is Some),
{
    state.current_project.is_some()
}

/// Whether the buildings on the map react to the pointer: only in
/// inspection mode.
pub fn buildings_inspectable(state: &UiState) -> (r: bool)
    ensures
        r == (state.ui_mode == UiMode::Inspection),
{
    state.ui_mode == UiMode::Inspection
}

/// What the pointer does on the speed slider's track.
#[derive(Clone, Copy, Debug, PartialEq, Eq, Structural)]
pub enum SliderPointer {
    Down,
    Move,
    Up,
    Cancel,
}

/// The speed slider's drag handling: a press starts a drag and sets the
/// speed at the pointer, a move sets it only while dragging, a release or
/// cancel ends the drag. Returns whether a drag is going on afterwards and
/// whether the speed is set from the pointer's position.
pub fn slider_pointer(dragging: bool, event: SliderPointer) -> (r: (bool, bool))
    ensures
        event == SliderPointer::Down ==> r == (true, true),
        event == SliderPointer::Move ==> r == (dragging, dragging),
        event == SliderPointer::Up ==> r == (false, false),
        event == SliderPointer::Cancel ==> r == (false, false),
{
    match event {
        SliderPointer::Down => (true, true),
        SliderPointer::Move => (dragging, dragging),
        SliderPointer::Up => (false, false),
        SliderPointer::Cancel => (false, false),
    }
}

/// Whether the undo and the redo button can be used: undo while a project
/// is open, redo while there is a step to redo.
pub fn history_enabled(state: &UiState) -> (r: (bool, bool))
    ensures
        r.0 == (state.current_project is Some),
        r.1 == state.has_redo,
{
    (state.current_project.is_some(), state.has_redo)
}

/// The tile and glyph colors of a toolbar button: white with a black glyph
/// when active, dark grey with a white glyph otherwise.
pub fn toolbar_tile_colors(active: bool) -> (r: (Rgba, Rgba))
    ensures
        active ==> r == (Rgba(255, 255, 255, 255), Rgba(0, 0, 0, 255)),
        !active ==> r == (Rgba(68, 68, 68, 255), Rgba(255, 255, 255, 255)),
{
    if active {
        (Rgba(255, 255, 255, 255), Rgba(0, 0, 0, 255))
    } else {
        (Rgba(68, 68, 68, 255), Rgba(255, 255, 255, 255))
    }
}

/// The disclosure arrow of a collapsible section.
pub fn details_arrow(open: bool) -> (r: &'static str)
    ensures
        open ==> r@ == "▾"@,
        !open ==> r@ == "▸"@,
{
    if open {
        "▾"
    } else {
        "▸"
    }
}

/// The label of the rendering switch: it names what a click does.
pub fn rendering_toggle_label(rendering_enabled: bool) -> (r: &'static str)
    ensures
        rendering_enabled ==> r@ == "Disable rendering"@,
        !rendering_enabled ==> r@ == "Enable rendering"@,
{
    if rendering_enabled {
        "Disable rendering"
    } else {
        "Enable rendering"
    }
}

/// The tabs of the main menu.
#[derive(Clone, Copy, Debug, PartialEq, Eq, Structural)]
pub enum MenuTab {
    About,
    Credits,
    Tutorial,
    Settings,
}

/// The tab shown for a tab index: the first three in order, the settings
/// for any other index.
pub fn menu_tab_content(tab: usize) -> (r: MenuTab)
    ensures
        tab == 0 ==> r == MenuTab::About,
        tab == 1 ==> r == MenuTab::Credits,
        tab == 2 ==> r == MenuTab::Tutorial,
        tab >= 3 ==> r == MenuTab::Settings,
{
    if tab == 0 {
        MenuTab::About
    } else if tab == 1 {
        MenuTab::Credits
    } else if tab == 2 {
        MenuTab::Tutorial
    } else {
        MenuTab::Settings
    }
}

/// The titles of the menu tabs, in order.
pub fn menu_tab_titles() -> (r: Vec<&'static str>)
    ensures
        r@.len() == 4,
        r@[0]@ == "About"@,
        r@[1]@ == "Credits"@,
        r@[2]@ == "Tutorial"@,
        r@[3]@ == "Settings & Controls"@,
{
    vec!["About", "Credits", "Tutorial", "Settings & Controls"]
}

} // verus!
