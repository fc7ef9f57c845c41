use workspace_slots::markup::{decimal_string, focus_workspace, render_button, render_row,
    render_slots, state_glyph, state_name};
use workspace_slots::slots::{SlotDescriptor, SlotState, WorkspaceRecord, build_slots};

fn button(id: u32, state: &str, glyph: char) -> String {
    format!(
        "(button :onclick \"hyprctl dispatch workspace {}\" :class \"workspace\"  (box :class \"workspace-{}\" :space-evenly \"false\" \"{}\"))",
        id, state, glyph
    )
}

fn row(buttons: &[String]) -> String {
    format!(
        "(box :class \"workspaces\" :orientation \"h\" :space-evenly \"false\" {} )",
        buttons.join(" ")
    )
}

#[test]
fn three_slots_one_active() {
    let records = vec![
        WorkspaceRecord { id: 1, windows: 0 },
        WorkspaceRecord { id: 2, windows: 3 },
    ];
    let out = render_slots(&records, 2, 3);
    let expected = row(&[
        button(1, "empty", '\u{f10c}'),
        button(2, "active", '\u{f192}'),
        button(3, "empty", '\u{f10c}'),
    ]);
    assert_eq!(out, expected);
}

#[test]
fn live_id_beyond_grid_is_dropped() {
    let records = vec![WorkspaceRecord { id: 5, windows: 1 }];
    let out = render_slots(&records, 5, 2);
    let expected = row(&[button(1, "empty", '\u{f10c}'), button(2, "empty", '\u{f10c}')]);
    assert_eq!(out, expected);
}

#[test]
fn zero_slots_render_bare_wrapper() {
    let records = vec![WorkspaceRecord { id: 1, windows: 4 }];
    let out = render_slots(&records, 1, 0);
    assert_eq!(
        out,
        "(box :class \"workspaces\" :orientation \"h\" :space-evenly \"false\"  )"
    );
}

#[test]
fn render_twice_is_byte_identical() {
    let records = vec![
        WorkspaceRecord { id: 3, windows: 2 },
        WorkspaceRecord { id: 1, windows: 0 },
        WorkspaceRecord { id: 7, windows: 9 },
    ];
    let first = render_slots(&records, 3, 5);
    let second = render_slots(&records, 3, 5);
    assert_eq!(first.as_bytes(), second.as_bytes());
}

#[test]
fn grid_always_has_exactly_n_ascending_ids() {
    let records = vec![
        WorkspaceRecord { id: 9, windows: 1 },
        WorkspaceRecord { id: 2, windows: 0 },
    ];
    let slots = build_slots(&records, 9, 6);
    assert_eq!(slots.len(), 6);
    for (i, slot) in slots.iter().enumerate() {
        assert_eq!(slot.id, i as i32 + 1);
    }
}

#[test]
fn idle_workspace_renders_empty() {
    let records = vec![WorkspaceRecord { id: 2, windows: 0 }];
    let slots = build_slots(&records, 1, 3);
    assert_eq!(slots[1].state, SlotState::Empty);
}

#[test]
fn occupied_workspace_renders_contains() {
    let records = vec![WorkspaceRecord { id: 2, windows: 1 }];
    let slots = build_slots(&records, 1, 3);
    assert_eq!(slots[1].state, SlotState::Contains);
}

#[test]
fn focused_workspace_renders_active_even_without_windows() {
    let records = vec![WorkspaceRecord { id: 2, windows: 0 }];
    let slots = build_slots(&records, 2, 3);
    assert_eq!(slots[1].state, SlotState::Active);
}

#[test]
fn vacant_slot_renders_empty() {
    let records = vec![WorkspaceRecord { id: 1, windows: 5 }];
    let slots = build_slots(&records, 1, 3);
    assert_eq!(slots[2].state, SlotState::Empty);
    assert_eq!(slots[2].id, 3);
}

#[test]
fn vacant_focused_slot_renders_empty() {
    let records: Vec<WorkspaceRecord> = vec![];
    let slots = build_slots(&records, 2, 3);
    assert_eq!(slots[1].state, SlotState::Empty);
}

#[test]
fn empty_descriptor_constructor() {
    let d = SlotDescriptor::empty(4);
    assert_eq!(d.id, 4);
    assert_eq!(d.state, SlotState::Empty);
}

#[test]
fn descriptor_from_record_prioritizes_focus() {
    let idle = WorkspaceRecord { id: 3, windows: 0 };
    let busy = WorkspaceRecord { id: 4, windows: 2 };
    assert_eq!(SlotDescriptor::from_record(&idle, 3).state, SlotState::Active);
    assert_eq!(SlotDescriptor::from_record(&busy, 4).state, SlotState::Active);
    assert_eq!(SlotDescriptor::from_record(&busy, 3).state, SlotState::Contains);
    assert_eq!(SlotDescriptor::from_record(&idle, 4).state, SlotState::Empty);
    assert_eq!(SlotDescriptor::from_record(&idle, 4).id, 3);
}

#[test]
fn decimal_rendering_exact_values() {
    assert_eq!(decimal_string(0), "0");
    assert_eq!(decimal_string(7), "7");
    assert_eq!(decimal_string(10), "10");
    assert_eq!(decimal_string(305), "305");
    assert_eq!(decimal_string(4294967295), "4294967295");
}

#[test]
fn focus_command_exact_value() {
    assert_eq!(focus_workspace(12), "hyprctl dispatch workspace 12");
}

#[test]
fn state_names_and_glyphs() {
    assert_eq!(state_name(&SlotState::Empty), "empty");
    assert_eq!(state_name(&SlotState::Active), "active");
    assert_eq!(state_name(&SlotState::Contains), "contains");
    assert_eq!(state_glyph(&SlotState::Empty), "\u{f10c}");
    assert_eq!(state_glyph(&SlotState::Active), "\u{f192}");
    assert_eq!(state_glyph(&SlotState::Contains), "\u{f111}");
}

#[test]
fn single_button_markup_exact_value() {
    let d = SlotDescriptor { id: 8, state: SlotState::Contains };
    assert_eq!(render_button(&d), button(8, "contains", '\u{f111}'));
}

#[test]
fn row_of_one_button_has_no_separator() {
    let buttons = vec![SlotDescriptor { id: 1, state: SlotState::Active }];
    let expected = row(&[button(1, "active", '\u{f192}')]);
    assert_eq!(render_row(&buttons), expected);
}
