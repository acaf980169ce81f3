use vstd::prelude::*;
use vstd::arithmetic::div_mod::{
    lemma_add_mod_noop_right, lemma_mod_bound, lemma_mod_sub_multiples_vanish, lemma_small_mod,
};
use crate::actions::{
    is_first_position, next_project_index, project_clicked, project_closed, toggled_mode,
    window_entered, window_left,
};
use crate::land_use::{land_use_label, land_use_order, land_use_swatch, land_use_symbol};
use crate::layout::{toolbar_items, ToolbarItem};
use crate::model::{HoverWindow, LandUse, PlanningMode, UiMode, UiState};
use crate::shortcuts::{shortcut_effect, shortcut_of, Key, KeyEvent, KeyEventType, Shortcut};
use crate::text::{
    clock_label, decimal, lemma_decimal_len, lemma_parse_decimal, lemma_parse_leading_zeros,
    lemma_project_id_injective, parse_decimal, project_id, take_chars, zero_padded,
};

verus! {

/// Pressing the debug shortcut twice gives back the state it started
/// from, and both presses are consumed.
pub proof fn law_debug_toggle_twice(s: UiState)
    ensures
        shortcut_effect(s, Shortcut::ToggleDebug).1,
        shortcut_effect(shortcut_effect(s, Shortcut::ToggleDebug).0, Shortcut::ToggleDebug) == (
        s,
        true,
        ),
{
}

/// With a project open, undo followed by redo is consumed twice and leaves
/// the state as it was, with nothing left to redo.
pub proof fn law_undo_then_redo(s: UiState)
    requires
        s.current_project is Some,
    ensures
        shortcut_effect(s, Shortcut::UndoPlanStep).1,
        shortcut_effect(shortcut_effect(s, Shortcut::UndoPlanStep).0, Shortcut::RedoPlanStep) == (
        UiState { has_redo: false, ..s },
        true,
        ),
{
}

/// Once the plan is implemented, no project is open, so the plan shortcuts
/// (implement, undo, redo) are not consumed and change nothing.
pub proof fn law_nothing_to_undo_after_implement(s: UiState)
    ensures
        !shortcut_effect(project_closed(s), Shortcut::ImplementPlan).1,
        !shortcut_effect(project_closed(s), Shortcut::UndoPlanStep).1,
        !shortcut_effect(project_closed(s), Shortcut::RedoPlanStep).1,
        shortcut_effect(project_closed(s), Shortcut::UndoPlanStep).0 == project_closed(s),
{
}

/// Pressing a main mode button twice gives back the mode it started from,
/// when the mode was off or was the button's own mode. (From the other
/// mode, the first press switches over and the second turns it off.)
pub proof fn law_mode_toggle_twice(current: UiMode, chosen: UiMode)
    requires
        current == UiMode::Off || current == chosen,
    ensures
        toggled_mode(toggled_mode(current, chosen), chosen) == current,
{
}

/// The pointer entering and then leaving a window leaves no window
/// hovered and nothing else changed; entering one window and leaving
/// another keeps the hover on the first.
pub proof fn law_hover_enter_leave(s: UiState, w: HoverWindow, other: HoverWindow)
    requires
        other != w,
    ensures
        window_left(window_entered(s, w), w) == (UiState { hovered_window: None, ..s }),
        window_left(window_entered(s, w), other) == window_entered(s, w),
{
}

/// In a well-formed state no two projects share a name.
pub proof fn law_projects_distinct(s: UiState)
    requires
        s.well_formed(),
    ensures
        names_distinct(s.projects@),
{
    assert forall|i: int, j: int| 0 <= i < j < s.projects@.len() implies #[trigger] s.projects@[i]@
        != #[trigger] s.projects@[j]@ by {
        if s.projects@[i]@ == s.projects@[j]@ {
            assert(s.projects@[i]@ == project_id((i + 1) as nat));
            assert(s.projects@[j]@ == project_id((j + 1) as nat));
            lemma_project_id_injective((i + 1) as nat, (j + 1) as nat);
        }
    }
}

/// The project that starting a new project adds has a name that no listed
/// project has.
pub proof fn law_new_project_is_fresh(s: UiState)
    requires
        s.well_formed(),
    ensures
        forall|i: int|
            0 <= i < s.projects@.len() ==> #[trigger] s.projects@[i]@ != project_id(
                (s.project_seq + 1) as nat,
            ),
{
    assert forall|i: int| 0 <= i < s.projects@.len() implies #[trigger] s.projects@[i]@
        != project_id((s.project_seq + 1) as nat) by {
        assert(s.projects@[i]@ == project_id((i + 1) as nat));
        if s.projects@[i]@ == project_id((s.project_seq + 1) as nat) {
            lemma_project_id_injective((i + 1) as nat, (s.project_seq + 1) as nat);
        }
    }
}

/// No two of `projects` share a name.
pub open spec fn names_distinct(projects: Seq<String>) -> bool {
    forall|a: int, b: int|
        0 <= a < b < projects.len() ==> #[trigger] projects[a]@ != #[trigger] projects[b]@
}

/// Among projects with distinct names, the one at `j` is the first with
/// its name, so the selector moves from it to the next position.
proof fn lemma_next_after(s: UiState, j: int)
    requires
        names_distinct(s.projects@),
        0 <= j < s.projects@.len(),
        s.current_project matches Some(c) && c@ == s.projects@[j]@,
    ensures
        next_project_index(s) == (j + 1) % (s.projects@.len() as int),
{
    let c = s.current_project->0;
    assert(is_first_position(s.projects@, c@, j)) by {
        assert forall|m: int| 0 <= m < j implies #[trigger] s.projects@[m]@ != c@ by {
            assert(s.projects@[m]@ != s.projects@[j]@);
        }
    }
    let k = choose|k: int| is_first_position(s.projects@, c@, k);
    if k < j {
        assert(s.projects@[k]@ != s.projects@[j]@);
    } else if j < k {
        assert(s.projects@[j]@ != c@);
    }
}

/// In a well-formed state, the project selector moves from the open
/// project to the one listed after it, and from the last to the first.
pub proof fn law_cycle_moves_to_next(s: UiState, i: int)
    requires
        s.well_formed(),
        0 <= i < s.projects@.len(),
        s.current_project matches Some(c) && c@ == s.projects@[i]@,
    ensures
        next_project_index(s) == (i + 1) % (s.projects@.len() as int),
{
    law_projects_distinct(s);
    lemma_next_after(s, i);
}

/// The state after `k` clicks on the project selector.
pub open spec fn clicked_times(s: UiState, k: nat) -> UiState
    decreases k,
{
    if k == 0 {
        s
    } else {
        project_clicked(clicked_times(s, (k - 1) as nat))
    }
}

/// Stepping one position further round a cycle of length `n`.
proof fn lemma_mod_step(i: int, k: int, n: int)
    requires
        0 < n,
        0 <= i,
        0 <= k,
    ensures
        ((i + k) % n + 1) % n == (i + k + 1) % n,
{
    lemma_add_mod_noop_right(1, i + k, n);
}

/// Going `k` positions round a cycle of length `n` from `i` comes back to
/// `i` exactly when `n` divides `k`.
proof fn lemma_mod_returns(i: int, k: int, n: int)
    requires
        0 < n,
        0 <= i < n,
        0 <= k,
    ensures
        ((i + k) % n == i) <==> (k % n == 0),
{
    lemma_add_mod_noop_right(i, k, n);
    lemma_mod_bound(k, n);
    let r = k % n;
    if i + r < n {
        lemma_small_mod((i + r) as nat, n as nat);
    } else {
        lemma_mod_sub_multiples_vanish(i + r, n);
        lemma_small_mod((-n + i + r) as nat, n as nat);
    }
}

/// Clicking the project selector `k` times, among projects with distinct
/// names and with one of them open, changes nothing but the open project:
/// after every click the open project is a listed one, the one `k`
/// positions further round the list, so the selector visits every project
/// and is back at the first exactly when the number of projects divides
/// `k`.
pub proof fn law_cycle_visits_every_project(s: UiState, i: int, k: nat)
    requires
        names_distinct(s.projects@),
        0 <= i < s.projects@.len(),
        s.current_project matches Some(c) && c@ == s.projects@[i]@,
    ensures
        clicked_times(s, k) == (UiState {
            current_project: clicked_times(s, k).current_project,
            ..s
        }),
        clicked_times(s, k).current_project is Some,
        clicked_times(s, k).current_project->0@ == s.projects@[(i + k) % (
        s.projects@.len() as int)]@,
        k >= 1 ==> clicked_times(s, k).current_project == Some(
            s.projects@[(i + k) % (s.projects@.len() as int)],
        ),
        (clicked_times(s, k).current_project->0@ == s.current_project->0@) <==> (k % (
        s.projects@.len() as nat) == 0),
    decreases k,
{
    let n = s.projects@.len() as int;
    lemma_small_mod(i as nat, n as nat);
    if k > 0 {
        let t = clicked_times(s, (k - 1) as nat);
        law_cycle_visits_every_project(s, i, (k - 1) as nat);
        let j = (i + k - 1) % n;
        lemma_mod_bound(i + k - 1, n);
        lemma_next_after(t, j);
        lemma_mod_step(i, k - 1, n);
    }
    let j = (i + k) % n;
    lemma_mod_bound(i + k, n);
    lemma_mod_returns(i, k as int, n);
    if j != i {
        if j < i {
            assert(s.projects@[j]@ != s.projects@[i]@);
        } else {
            assert(s.projects@[i]@ != s.projects@[j]@);
        }
    }
}

/// A key that is held down and auto-repeats stands for no shortcut, nor
/// does a release or an event of unknown kind, whatever the key and the
/// modifiers.
pub proof fn law_only_fresh_presses_are_shortcuts(event: KeyEvent)
    ensures
        event.is_repeat ==> shortcut_of(event) is None,
        event.event_type != KeyEventType::Down ==> shortcut_of(event) is None,
{
}

/// When no listed project is open, a click on the project selector opens
/// the first listed project, whatever the mode: both when no project is
/// open and when the open one is not listed.
pub proof fn law_click_without_open_project_opens_first(s: UiState)
    requires
        s.projects@.len() > 0,
        match s.current_project {
            Some(c) => forall|j: int| 0 <= j < s.projects@.len() ==> #[trigger] s.projects@[j]@ != c@,
            None => true,
        },
    ensures
        project_clicked(s).current_project == Some(s.projects@[0]),
        project_clicked(s).projects == s.projects,
        project_clicked(s).ui_mode == s.ui_mode,
{
    if let Some(c) = s.current_project {
        if exists|i: int| is_first_position(s.projects@, c@, i) {
            let i = choose|i: int| is_first_position(s.projects@, c@, i);
            assert(s.projects@[i]@ != c@);
        }
    }
}

/// Outside planning mode the bottom toolbar holds only the mode buttons,
/// the spacer and the menu button; in planning mode it always holds a
/// project control (the selector or the start button) right after the
/// mode buttons.
pub proof fn law_toolbar_outside_planning(s: UiState)
    ensures
        s.ui_mode != UiMode::Planning ==> toolbar_items(s) == seq![
            ToolbarItem::MainModes,
            ToolbarItem::Spacer,
            ToolbarItem::Menu,
        ],
        s.ui_mode == UiMode::Planning ==> toolbar_items(s).len() >= 4 && (toolbar_items(s)[1]
            is ProjectSelect || toolbar_items(s)[1] is StartProject),
{
    if s.ui_mode != UiMode::Planning {
        assert(toolbar_items(s) =~= seq![
            ToolbarItem::MainModes,
            ToolbarItem::Spacer,
            ToolbarItem::Menu,
        ]);
    }
}

/// A mode button switches to its own mode from any other mode, and turns
/// its mode off when that mode is already active.
pub proof fn law_mode_button_switches(current: UiMode, chosen: UiMode)
    ensures
        current != chosen ==> toggled_mode(current, chosen) == chosen,
        current == chosen ==> toggled_mode(current, chosen) == UiMode::Off,
{
}

/// Different zone types have different swatch colors, so no two swatches
/// look the same.
pub proof fn law_swatches_distinct(a: LandUse, b: LandUse)
    ensures
        a != b ==> land_use_swatch(a) != land_use_swatch(b),
{
}

/// The zone types are named apart: no two share a name or a glyph.
pub proof fn law_land_use_names_and_glyphs_distinct(a: LandUse, b: LandUse)
    ensures
        a != b ==> land_use_label(a) != land_use_label(b),
        a != b ==> land_use_symbol(a) != land_use_symbol(b),
{
    reveal_strlit("Residential");
    reveal_strlit("Commercial");
    reveal_strlit("Industrial");
    reveal_strlit("Agricultural");
    reveal_strlit("Recreational");
    reveal_strlit("Administrative");
    reveal_strlit("⌂");
    reveal_strlit("🏪");
    reveal_strlit("🏭");
    reveal_strlit("🌾");
    reveal_strlit("🌲");
    reveal_strlit("🏛");
    if a != b {
        assert(land_use_label(a)[0] != land_use_label(b)[0] || land_use_label(a).len()
            != land_use_label(b).len() || land_use_label(a)[2] != land_use_label(b)[2]);
        assert(land_use_symbol(a)[0] != land_use_symbol(b)[0]);
    }
}

/// The zoning toolbar lists every zone type exactly once.
pub proof fn law_land_use_order_lists_each_once(lu: LandUse)
    ensures
        land_use_order().len() == 6,
        exists|i: int| 0 <= i < 6 && #[trigger] land_use_order()[i] == lu,
        forall|i: int, j: int|
            0 <= i < j < 6 ==> #[trigger] land_use_order()[i] != #[trigger] land_use_order()[j],
{
    let o = land_use_order();
    match lu {
        LandUse::Residential => assert(o[0] == lu),
        LandUse::Commercial => assert(o[1] == lu),
        LandUse::Industrial => assert(o[2] == lu),
        LandUse::Agricultural => assert(o[3] == lu),
        LandUse::Recreational => assert(o[4] == lu),
        LandUse::Administrative => assert(o[5] == lu),
    }
}

/// A shortened identifier is the start of the identifier: its first eight
/// characters, or all of it where it is shorter.
pub proof fn law_shortened_id_is_prefix(id: Seq<char>)
    ensures
        take_chars(id, 8).len() == if id.len() < 8 { id.len() } else { 8 },
        forall|i: int| 0 <= i < take_chars(id, 8).len() ==> #[trigger] take_chars(id, 8)[i] == id[i],
{
}

/// A project identifier is `prj` followed by at least three digits that
/// read back as the project's number.
pub proof fn law_project_id_reads_back(n: nat)
    ensures
        project_id(n).len() >= 6,
        project_id(n).take(3) == seq!['p', 'r', 'j'],
        parse_decimal(project_id(n).skip(3)) == n,
{
    lemma_decimal_len(n);
    assert(project_id(n).take(3) =~= seq!['p', 'r', 'j']);
    assert(project_id(n).skip(3) =~= zero_padded(n, 3));
    lemma_parse_decimal(n);
    let d = decimal(n);
    if d.len() < 3 {
        lemma_parse_leading_zeros((3 - d.len()) as nat, d);
    }
}

/// The clock label is the hour, a colon and the minute, each at least two
/// digits long and reading back as the given numbers.
pub proof fn law_clock_label_reads_back(hour: nat, minute: nat)
    ensures
        ({
            let h = zero_padded(hour, 2);
            let label = clock_label(hour, minute);
            &&& h.len() >= 2
            &&& label[h.len() as int] == ':'
            &&& parse_decimal(label.take(h.len() as int)) == hour
            &&& parse_decimal(label.skip(h.len() as int + 1)) == minute
            &&& label.skip(h.len() as int + 1).len() >= 2
        }),
{
    lemma_decimal_len(hour);
    lemma_decimal_len(minute);
    let h = zero_padded(hour, 2);
    let m = zero_padded(minute, 2);
    let label = clock_label(hour, minute);
    assert(label.take(h.len() as int) =~= h);
    assert(label.skip(h.len() as int + 1) =~= m);
    lemma_parse_decimal(hour);
    lemma_parse_decimal(minute);
    let dh = decimal(hour);
    let dm = decimal(minute);
    if dh.len() < 2 {
        lemma_parse_leading_zeros((2 - dh.len()) as nat, dh);
    }
    if dm.len() < 2 {
        lemma_parse_leading_zeros((2 - dm.len()) as nat, dm);
    }
}

/// The shortcut bindings of the settings tab, for a fresh key press:
/// command+enter implements the plan, command+z undoes, command+shift+z and
/// command+y redo, and `.` alone toggles the debug window; alt blocks them
/// all, and any other key is no shortcut.
pub proof fn law_shortcut_bindings(e: KeyEvent)
    requires
        e.event_type == KeyEventType::Down,
        !e.is_repeat,
    ensures
        shortcut_of(e) == Some(Shortcut::ImplementPlan) <==> (e.key == Key::Enter
            && e.modifiers.command && !e.modifiers.shift && !e.modifiers.alt),
        shortcut_of(e) == Some(Shortcut::UndoPlanStep) <==> (e.key == Key::Character('z')
            && e.modifiers.command && !e.modifiers.shift && !e.modifiers.alt),
        shortcut_of(e) == Some(Shortcut::RedoPlanStep) <==> ((e.key == Key::Character('z')
            && e.modifiers.shift) || (e.key == Key::Character('y') && !e.modifiers.shift))
            && e.modifiers.command && !e.modifiers.alt,
        shortcut_of(e) == Some(Shortcut::ToggleDebug) <==> (e.key == Key::Character('.')
            && !e.modifiers.command && !e.modifiers.shift && !e.modifiers.alt),
        e.modifiers.alt ==> shortcut_of(e) is None,
        e.key == Key::Other ==> shortcut_of(e) is None,
{
}

/// Implementing a plan closes the project and resets the planning tools,
/// and touches nothing else: the listed projects, the mode and the windows
/// stay as they were.
pub proof fn law_implement_touches_only_the_plan(s: UiState)
    ensures
        project_closed(s).current_project is None,
        project_closed(s).planning_mode is None,
        project_closed(s).selected_land_use is None,
        !project_closed(s).has_redo,
        project_closed(s).projects == s.projects,
        project_closed(s).project_seq == s.project_seq,
        project_closed(s).ui_mode == s.ui_mode,
        project_closed(s).show_menu == s.show_menu,
        project_closed(s).show_debug == s.show_debug,
        project_closed(s).inspected_building == s.inspected_building,
        project_closed(s).building_pinned == s.building_pinned,
        project_closed(s).hovered_window == s.hovered_window,
        project_closed(s).sim_speed_log == s.sim_speed_log,
        project_closed(s).rendering_enabled == s.rendering_enabled,
        project_closed(s).menu_tab == s.menu_tab,
{
}

/// Which project controls the bottom toolbar shows: the zone types only
/// while zoning in an open project, the start button only in planning
/// mode with no project at all, the implement and history buttons exactly
/// while a project is open in planning mode.
pub proof fn law_toolbar_project_controls(s: UiState)
    ensures
        toolbar_items(s).contains(ToolbarItem::Zoning) <==> (s.ui_mode == UiMode::Planning
            && s.current_project is Some && s.planning_mode == Some(PlanningMode::Zoning)),
        toolbar_items(s).contains(ToolbarItem::StartProject) <==> (s.ui_mode == UiMode::Planning
            && s.current_project is None && s.projects@.len() == 0),
        toolbar_items(s).contains(ToolbarItem::Implement) <==> (s.ui_mode == UiMode::Planning
            && s.current_project is Some),
        toolbar_items(s).contains(ToolbarItem::History) <==> (s.ui_mode == UiMode::Planning
            && s.current_project is Some),
{
    let t = toolbar_items(s);
    if s.ui_mode == UiMode::Planning {
        match s.current_project {
            Some(c) => {
                if s.planning_mode == Some(PlanningMode::Zoning) {
                    assert(t[5] == ToolbarItem::Zoning);
                    assert(t =~= seq![
                        ToolbarItem::MainModes,
                        ToolbarItem::ProjectSelect(Some(c)),
                        ToolbarItem::Implement,
                        ToolbarItem::History,
                        ToolbarItem::PlanningModes,
                        ToolbarItem::Zoning,
                        ToolbarItem::Spacer,
                        ToolbarItem::Menu,
                    ]);
                } else {
                    assert(t =~= seq![
                        ToolbarItem::MainModes,
                        ToolbarItem::ProjectSelect(Some(c)),
                        ToolbarItem::Implement,
                        ToolbarItem::History,
                        ToolbarItem::PlanningModes,
                        ToolbarItem::Spacer,
                        ToolbarItem::Menu,
                    ]);
                }
                assert(t[2] == ToolbarItem::Implement);
                assert(t[3] == ToolbarItem::History);
            },
            None => {
                if s.projects@.len() == 0 {
                    assert(t =~= seq![
                        ToolbarItem::MainModes,
                        ToolbarItem::StartProject,
                        ToolbarItem::Spacer,
                        ToolbarItem::Menu,
                    ]);
                    assert(t[1] == ToolbarItem::StartProject);
                } else {
                    assert(t =~= seq![
                        ToolbarItem::MainModes,
                        ToolbarItem::ProjectSelect(None),
                        ToolbarItem::Spacer,
                        ToolbarItem::Menu,
                    ]);
                }
            },
        }
    } else {
        assert(t =~= seq![ToolbarItem::MainModes, ToolbarItem::Spacer, ToolbarItem::Menu]);
    }
}

} // verus!

