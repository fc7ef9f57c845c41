//! Byte-exact serialization of the slot row into the widget markup grammar.

use vstd::prelude::*;

use crate::slots::{SlotDescriptor, SlotState, WorkspaceRecord, build_slots, spec_slots};

verus! {

/// The decimal digit character for one digit value.
pub open spec fn digit_char(d: nat) -> char {
    if d == 0 {
        '0'
    } else if d == 1 {
        '1'
    } else if d == 2 {
        '2'
    } else if d == 3 {
        '3'
    } else if d == 4 {
        '4'
    } else if d == 5 {
        '5'
    } else if d == 6 {
        '6'
    } else if d == 7 {
        '7'
    } else if d == 8 {
        '8'
    } else {
        '9'
    }
}

/// The usual decimal rendering of a nonnegative integer: most significant
/// digit first, no leading zeros (a lone zero for 0).
pub open spec fn spec_decimal(n: nat) -> Seq<char>
    decreases n,
{
    if n < 10 {
        seq![digit_char(n)]
    } else {
        spec_decimal(n / 10) + seq![digit_char(n % 10)]
    }
}

/// The one-character string for a single decimal digit.
fn digit_str(d: u32) -> (r: &'static str)
    requires
        d < 10,
    ensures
        r@ == seq![digit_char(d as nat)],
{
    let r: &'static str = if d == 0 {
        "0"
    } else if d == 1 {
        "1"
    } else if d == 2 {
        "2"
    } else if d == 3 {
        "3"
    } else if d == 4 {
        "4"
    } else if d == 5 {
        "5"
    } else if d == 6 {
        "6"
    } else if d == 7 {
        "7"
    } else if d == 8 {
        "8"
    } else {
        "9"
    };
    proof {
        reveal_strlit("0");
        reveal_strlit("1");
        reveal_strlit("2");
        reveal_strlit("3");
        reveal_strlit("4");
        reveal_strlit("5");
        reveal_strlit("6");
        reveal_strlit("7");
        reveal_strlit("8");
        reveal_strlit("9");
        assert(r@ =~= seq![digit_char(d as nat)]);
    }
    r
}

/// Renders a nonnegative integer in decimal.
pub fn decimal_string(n: u32) -> (r: String)
    ensures
        r@ == spec_decimal(n as nat),
    decreases n,
{
    if n < 10 {
        digit_str(n).to_owned()
    } else {
        let mut r = decimal_string(n / 10);
        r.append(digit_str(n % 10));
        r
    }
}

/// The shell command that switches the window manager to this workspace;
/// it becomes the button's click handler.
pub open spec fn spec_focus_command(id: int) -> Seq<char> {
    "hyprctl dispatch workspace "@ + spec_decimal(id as nat)
}

/// Builds the click command that focuses the given workspace.
pub fn focus_workspace(workspace_id: i32) -> (r: String)
    requires
        workspace_id >= 0,
    ensures
        r@ == spec_focus_command(workspace_id as int),
{
    let mut r = "hyprctl dispatch workspace ".to_owned();
    r.append(decimal_string(workspace_id as u32).as_str());
    r
}

/// The CSS class suffix of a slot state.
pub open spec fn spec_state_name(state: SlotState) -> Seq<char> {
    match state {
        SlotState::Empty => "empty"@,
        SlotState::Active => "active"@,
        SlotState::Contains => "contains"@,
    }
}

/// The CSS class suffix of a slot state.
pub fn state_name(state: &SlotState) -> (r: &'static str)
    ensures
        r@ == spec_state_name(*state),
{
    match state {
        SlotState::Empty => "empty",
        SlotState::Active => "active",
        SlotState::Contains => "contains",
    }
}

/// The fixed glyph drawn inside a slot's button, one per state.
pub open spec fn spec_state_glyph(state: SlotState) -> Seq<char> {
    match state {
        SlotState::Empty => "\u{f10c}"@,
        SlotState::Active => "\u{f192}"@,
        SlotState::Contains => "\u{f111}"@,
    }
}

/// The fixed glyph drawn inside a slot's button, one per state.
pub fn state_glyph(state: &SlotState) -> (r: &'static str)
    ensures
        r@ == spec_state_glyph(*state),
{
    match state {
        SlotState::Empty => "\u{f10c}",
        SlotState::Active => "\u{f192}",
        SlotState::Contains => "\u{f111}",
    }
}

/// The markup of one button. The double space after `:class "workspace"` is
/// part of the wire format the widget renderer expects.
pub open spec fn spec_button_markup(button: SlotDescriptor) -> Seq<char> {
    "(button :onclick \""@ + spec_focus_command(button.id as int)
        + "\" :class \"workspace\"  (box :class \"workspace-"@ + spec_state_name(button.state)
        + "\" :space-evenly \"false\" \""@ + spec_state_glyph(button.state) + "\"))"@
}

/// Serializes one button of the row.
pub fn render_button(button: &SlotDescriptor) -> (r: String)
    requires
        button.id >= 0,
    ensures
        r@ == spec_button_markup(*button),
{
    let mut r = "(button :onclick \"".to_owned();
    r.append(focus_workspace(button.id).as_str());
    r.append("\" :class \"workspace\"  (box :class \"workspace-");
    r.append(state_name(&button.state));
    r.append("\" :space-evenly \"false\" \"");
    r.append(state_glyph(&button.state));
    r.append("\"))");
    r
}

/// The buttons of the row, space-separated, in row order.
pub open spec fn spec_buttons_joined(buttons: Seq<SlotDescriptor>) -> Seq<char>
    decreases buttons.len(),
{
    if buttons.len() == 0 {
        Seq::empty()
    } else if buttons.len() == 1 {
        spec_button_markup(buttons[0])
    } else {
        spec_buttons_joined(buttons.drop_last()) + " "@ + spec_button_markup(buttons.last())
    }
}

/// The markup of the whole row: the wrapper box around the joined buttons.
pub open spec fn spec_row_markup(buttons: Seq<SlotDescriptor>) -> Seq<char> {
    "(box :class \"workspaces\" :orientation \"h\" :space-evenly \"false\" "@
        + spec_buttons_joined(buttons) + " )"@
}

/// Serializes the whole button row.
pub fn render_row(buttons: &Vec<SlotDescriptor>) -> (r: String)
    requires
        forall|j: int| 0 <= j < buttons@.len() ==> buttons@[j].id >= 0,
    ensures
        r@ == spec_row_markup(buttons@),
{
    let mut joined = String::new();
    let mut i: usize = 0;
    while i < buttons.len()
        invariant
            i <= buttons@.len(),
            forall|j: int| 0 <= j < buttons@.len() ==> buttons@[j].id >= 0,
            joined@ == spec_buttons_joined(buttons@.take(i as int)),
        decreases buttons@.len() - i,
    {
        if i > 0 {
            joined.append(" ");
        }
        joined.append(render_button(&buttons[i]).as_str());
        proof {
            let taken = buttons@.take(i + 1);
            assert(taken.drop_last() =~= buttons@.take(i as int));
            assert(taken.last() == buttons@[i as int]);
            if i == 0 {
                assert(joined@ =~= spec_buttons_joined(taken));
            }
        }
        i = i + 1;
    }
    proof {
        assert(buttons@.take(buttons@.len() as int) =~= buttons@);
    }
    let mut r = "(box :class \"workspaces\" :orientation \"h\" :space-evenly \"false\" ".to_owned();
    r.append(joined.as_str());
    r.append(" )");
    r
}

/// The full rendered markup for the given upstream state: the row built from
/// the live records, the focused workspace id, and the configured slot count.
pub open spec fn spec_render(records: Seq<WorkspaceRecord>, focused: int, n: int) -> Seq<char> {
    spec_row_markup(spec_slots(records, focused, n))
}

/// Renders the fixed slot row for the given live workspace records and
/// focused workspace id, and serializes it into the widget markup. The output
/// is a function of the arguments alone: unchanged upstream state yields
/// byte-identical markup.
pub fn render_slots(
    records: &Vec<WorkspaceRecord>,
    focused: i32,
    default_spaces: usize,
) -> (r: String)
    requires
        default_spaces <= i32::MAX,
    ensures
        r@ == spec_render(records@, focused as int, default_spaces as int),
{
    let slots = build_slots(records, focused, default_spaces);
    render_row(&slots)
}

/// A live workspace whose id lies beyond the slot grid never appears in the
/// rendered markup: dropping its record leaves the output unchanged.
pub proof fn lemma_overflow_workspace_not_rendered(
    records: Seq<WorkspaceRecord>,
    focused: int,
    n: int,
    k: int,
)
    requires
        0 <= n,
        0 <= k < records.len(),
        records[k].id > n,
    ensures
        spec_render(records.remove(k), focused, n) == spec_render(records, focused, n),
{
    crate::slots::lemma_overflow_workspace_dropped(records, focused, n, k);
}

} // verus!
