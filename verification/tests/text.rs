use citybound_ui::text::{
    format_id, make_project_id, project_select_label, push_decimal, push_zero_padded,
    quoted_project_name, short_project_name, sim_time_label,
};

#[test]
fn short_project_name_uppercases_first_three_chars() {
    assert_eq!(short_project_name("prj001"), "Project 'PRJ'");
    assert_eq!(short_project_name("ab"), "Project 'AB'");
    assert_eq!(short_project_name(""), "Project ''");
    assert_eq!(short_project_name("straße"), "Project 'STR'");
    assert_eq!(short_project_name("ßab"), "Project 'SSAB'");
}

#[test]
fn quoted_project_name_wraps_head() {
    assert_eq!(quoted_project_name("PRJ"), "Project 'PRJ'");
    assert_eq!(quoted_project_name("prj"), "Project 'prj'");
}

#[test]
fn project_select_label_prompts_without_project() {
    assert_eq!(project_select_label(""), "Open a project");
    assert_eq!(project_select_label("prj002"), "Project 'PRJ'");
}

#[test]
fn format_id_keeps_first_eight_chars() {
    assert_eq!(format_id("bld:1"), "bld:1");
    assert_eq!(format_id("12345678"), "12345678");
    assert_eq!(format_id("123456789"), "12345678");
    assert_eq!(format_id("h:7a2"), "h:7a2");
    assert_eq!(format_id("äöüäöü"), "äöüäöü");
    assert_eq!(format_id("äöüäöüäöü"), "äöüäöüäö");
    assert_eq!(format_id(""), "");
}

#[test]
fn project_ids_are_padded_to_three_digits() {
    assert_eq!(make_project_id(0), "prj000");
    assert_eq!(make_project_id(1), "prj001");
    assert_eq!(make_project_id(42), "prj042");
    assert_eq!(make_project_id(999), "prj999");
    assert_eq!(make_project_id(1234), "prj1234");
    assert_eq!(make_project_id(u32::MAX), "prj4294967295");
}

#[test]
fn clock_label_pads_hours_and_minutes() {
    assert_eq!(sim_time_label(0, 0), "00:00");
    assert_eq!(sim_time_label(7, 5), "07:05");
    assert_eq!(sim_time_label(23, 59), "23:59");
    assert_eq!(sim_time_label(123, 7), "123:07");
}

#[test]
fn decimal_helpers_append() {
    let mut s = String::from("x=");
    push_decimal(&mut s, 90210);
    assert_eq!(s, "x=90210");
    let mut s = String::new();
    push_zero_padded(&mut s, 7, 4);
    assert_eq!(s, "0007");
    let mut s = String::new();
    push_zero_padded(&mut s, 12345, 2);
    assert_eq!(s, "12345");
    let mut s = String::new();
    push_zero_padded(&mut s, 5, 0);
    assert_eq!(s, "5");
}
