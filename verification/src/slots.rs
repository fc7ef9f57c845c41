//! The slot grid: live workspace records, per-slot display states, and the
//! reconciliation of the sparse live set against the fixed row of slots.

use vstd::prelude::*;

verus! {

/// A live workspace as reported by the window manager: its numeric id
/// (1-based, not necessarily contiguous) and the number of windows currently
/// mapped to it.
#[derive(Clone, Copy, PartialEq, Eq, Structural, Debug)]
pub struct WorkspaceRecord {
    pub id: i32,
    pub windows: u16,
}

/// Display state of one slot in the fixed button row.
#[derive(Clone, Copy, PartialEq, Eq, Structural, Debug)]
pub enum SlotState {
    /// No live workspace occupies the slot, or the occupying workspace has no
    /// windows and is not focused.
    Empty,
    /// The occupying workspace is the one focused on the active monitor.
    Active,
    /// The occupying workspace holds at least one window but is not focused.
    Contains,
}

/// One button of the rendered row: a slot id and its display state.
#[derive(Clone, Copy, PartialEq, Eq, Structural, Debug)]
pub struct SlotDescriptor {
    pub id: i32,
    pub state: SlotState,
}

/// Some live record carries this workspace id.
pub open spec fn has_record(records: Seq<WorkspaceRecord>, id: int) -> bool {
    exists|k: int| 0 <= k < records.len() && records[k].id == id
}

/// Some live record carries this workspace id and holds at least one window.
pub open spec fn has_occupied_record(records: Seq<WorkspaceRecord>, id: int) -> bool {
    exists|k: int| 0 <= k < records.len() && records[k].id == id && records[k].windows > 0
}

/// Live workspace ids are pairwise distinct: the record set is keyed by id.
pub open spec fn distinct_ids(records: Seq<WorkspaceRecord>) -> bool {
    forall|i: int, j: int|
        0 <= i < records.len() && 0 <= j < records.len() && records[i].id == records[j].id
            ==> i == j
}

/// Display state of a single live record, given the focused workspace id.
/// Focus takes priority over occupancy: a focused workspace renders `Active`
/// even with zero windows.
pub open spec fn spec_record_state(record: WorkspaceRecord, focused: int) -> SlotState {
    if record.id == focused {
        SlotState::Active
    } else if record.windows > 0 {
        SlotState::Contains
    } else {
        SlotState::Empty
    }
}

/// Display state of the slot with the given id: `Empty` when no live record
/// occupies it, `Active` when it is the focused workspace, `Contains` when
/// some occupying record holds a window.
pub open spec fn spec_slot_state(
    records: Seq<WorkspaceRecord>,
    focused: int,
    slot: int,
) -> SlotState {
    if !has_record(records, slot) {
        SlotState::Empty
    } else if slot == focused {
        SlotState::Active
    } else if has_occupied_record(records, slot) {
        SlotState::Contains
    } else {
        SlotState::Empty
    }
}

/// The fixed-length slot row: one descriptor per slot id 1..=n, in ascending
/// order, each carrying the state of its slot.
pub open spec fn spec_slots(
    records: Seq<WorkspaceRecord>,
    focused: int,
    n: int,
) -> Seq<SlotDescriptor> {
    Seq::new(
        n as nat,
        |i: int|
            SlotDescriptor {
                id: (i + 1) as i32,
                state: spec_slot_state(records, focused, i + 1),
            },
    )
}

impl SlotDescriptor {
    /// The synthesized descriptor for a slot with no live workspace.
    pub fn empty(id: i32) -> (r: Self)
        ensures
            r.id == id,
            r.state == SlotState::Empty,
    {
        Self { id, state: SlotState::Empty }
    }

    /// The descriptor of one live record, given the focused workspace id.
    pub fn from_record(record: &WorkspaceRecord, focused: i32) -> (r: Self)
        ensures
            r.id == record.id,
            r.state == spec_record_state(*record, focused as int),
    {
        let state = if record.id == focused {
            SlotState::Active
        } else if record.windows > 0 {
            SlotState::Contains
        } else {
            SlotState::Empty
        };
        Self { id: record.id, state }
    }
}

/// Exact-id lookup over the live records: the display state of one slot.
fn slot_state_of(records: &Vec<WorkspaceRecord>, focused: i32, slot: i32) -> (s: SlotState)
    ensures
        s == spec_slot_state(records@, focused as int, slot as int),
{
    let mut found = false;
    let mut occupied = false;
    let mut k: usize = 0;
    while k < records.len()
        invariant
            k <= records@.len(),
            found <==> exists|j: int| 0 <= j < k && records@[j].id == slot,
            occupied <==> exists|j: int|
                0 <= j < k && records@[j].id == slot && records@[j].windows > 0,
        decreases records@.len() - k,
    {
        let record = records[k];
        if record.id == slot {
            found = true;
            assert(records@[k as int].id == slot);
            if record.windows > 0 {
                occupied = true;
                assert(records@[k as int].id == slot && records@[k as int].windows > 0);
            }
        }
        k = k + 1;
    }
    if !found {
        SlotState::Empty
    } else if slot == focused {
        SlotState::Active
    } else if occupied {
        SlotState::Contains
    } else {
        SlotState::Empty
    }
}

/// Fills the fixed row: for each slot id 1..=default_spaces, the state of the
/// live workspace with that exact id, or a synthesized `Empty` descriptor
/// when none exists. Live ids above `default_spaces` are dropped.
pub fn build_slots(
    records: &Vec<WorkspaceRecord>,
    focused: i32,
    default_spaces: usize,
) -> (slots: Vec<SlotDescriptor>)
    requires
        default_spaces <= i32::MAX,
    ensures
        slots@ == spec_slots(records@, focused as int, default_spaces as int),
{
    let mut slots: Vec<SlotDescriptor> = Vec::new();
    let mut i: usize = 0;
    while i < default_spaces
        invariant
            i <= default_spaces,
            default_spaces <= i32::MAX,
            slots@.len() == i,
            forall|j: int| 0 <= j < i ==> slots@[j] == spec_slots(
                records@,
                focused as int,
                default_spaces as int,
            )[j],
        decreases default_spaces - i,
    {
        let slot_id: i32 = (i + 1) as i32;
        let state = slot_state_of(records, focused, slot_id);
        if matches!(state, SlotState::Empty) {
            slots.push(SlotDescriptor::empty(slot_id));
        } else {
            slots.push(SlotDescriptor { id: slot_id, state });
        }
        i = i + 1;
    }
    proof {
        assert(slots@ =~= spec_slots(records@, focused as int, default_spaces as int));
    }
    slots
}

/// The slot row always has exactly `n` entries and carries the slot ids
/// 1..=n in ascending order, whatever the live workspace set is.
pub proof fn lemma_slot_row_shape(records: Seq<WorkspaceRecord>, focused: int, n: int)
    requires
        0 <= n <= i32::MAX,
    ensures
        spec_slots(records, focused, n).len() == n,
        forall|i: int| 0 <= i < n ==> spec_slots(records, focused, n)[i].id == i + 1,
{
}

/// A slot whose id no live record carries renders as `Empty`.
pub proof fn lemma_vacant_slot_empty(
    records: Seq<WorkspaceRecord>,
    focused: int,
    n: int,
    slot: int,
)
    requires
        1 <= slot <= n <= i32::MAX,
        !has_record(records, slot),
    ensures
        spec_slots(records, focused, n)[slot - 1].state == SlotState::Empty,
{
}

/// A live workspace on the slot grid with no windows and without focus
/// renders as `Empty`.
pub proof fn lemma_idle_workspace_empty(
    records: Seq<WorkspaceRecord>,
    focused: int,
    n: int,
    k: int,
)
    requires
        distinct_ids(records),
        0 <= k < records.len(),
        1 <= records[k].id <= n <= i32::MAX,
        records[k].windows == 0,
        records[k].id != focused,
    ensures
        spec_slots(records, focused, n)[records[k].id - 1].state == SlotState::Empty,
{
    let slot = records[k].id as int;
    assert(has_record(records, slot));
    assert(!has_occupied_record(records, slot)) by {
        if has_occupied_record(records, slot) {
            let j = choose|j: int|
                0 <= j < records.len() && records[j].id == slot && records[j].windows > 0;
            assert(records[j].id == records[k].id);
            assert(j == k);
        }
    }
}

/// A live workspace on the slot grid with at least one window and without
/// focus renders as `Contains`.
pub proof fn lemma_occupied_workspace_contains(
    records: Seq<WorkspaceRecord>,
    focused: int,
    n: int,
    k: int,
)
    requires
        0 <= k < records.len(),
        1 <= records[k].id <= n <= i32::MAX,
        records[k].windows > 0,
        records[k].id != focused,
    ensures
        spec_slots(records, focused, n)[records[k].id - 1].state == SlotState::Contains,
{
    let slot = records[k].id as int;
    assert(has_record(records, slot));
    assert(has_occupied_record(records, slot));
}

/// The focused live workspace renders as `Active` whatever its window count.
pub proof fn lemma_focused_workspace_active(
    records: Seq<WorkspaceRecord>,
    focused: int,
    n: int,
    k: int,
)
    requires
        0 <= k < records.len(),
        1 <= records[k].id <= n <= i32::MAX,
        records[k].id == focused,
    ensures
        spec_slots(records, focused, n)[focused - 1].state == SlotState::Active,
{
    assert(has_record(records, focused));
}

/// Removing a record with an id that no slot carries changes no slot lookup.
proof fn lemma_remove_preserves_lookup(records: Seq<WorkspaceRecord>, k: int, id: int)
    requires
        0 <= k < records.len(),
        records[k].id != id,
    ensures
        has_record(records.remove(k), id) == has_record(records, id),
        has_occupied_record(records.remove(k), id) == has_occupied_record(records, id),
{
    let shorter = records.remove(k);
    assert(shorter.len() == records.len() - 1);
    assert forall|j: int| 0 <= j < shorter.len() implies shorter[j] == records[
        if j < k {
            j
        } else {
            j + 1
        }
    ] by {}
    if has_record(records, id) {
        let j = choose|j: int| 0 <= j < records.len() && records[j].id == id;
        let m: int = if j < k { j } else { j - 1 };
        assert(shorter[m].id == id);
    }
    if has_occupied_record(records, id) {
        let j = choose|j: int|
            0 <= j < records.len() && records[j].id == id && records[j].windows > 0;
        let m: int = if j < k { j } else { j - 1 };
        assert(shorter[m].id == id && shorter[m].windows > 0);
    }
    if has_record(shorter, id) {
        let j = choose|j: int| 0 <= j < shorter.len() && shorter[j].id == id;
        let m: int = if j < k { j } else { j + 1 };
        assert(records[m].id == id);
    }
    if has_occupied_record(shorter, id) {
        let j = choose|j: int|
            0 <= j < shorter.len() && shorter[j].id == id && shorter[j].windows > 0;
        let m: int = if j < k { j } else { j + 1 };
        assert(records[m].id == id && records[m].windows > 0);
    }
}

/// A live workspace whose id lies beyond the slot grid never appears in the
/// row: dropping its record leaves every slot unchanged.
pub proof fn lemma_overflow_workspace_dropped(
    records: Seq<WorkspaceRecord>,
    focused: int,
    n: int,
    k: int,
)
    requires
        0 <= n,
        0 <= k < records.len(),
        records[k].id > n,
    ensures
        spec_slots(records.remove(k), focused, n) == spec_slots(records, focused, n),
{
    let trimmed = spec_slots(records.remove(k), focused, n);
    let full = spec_slots(records, focused, n);
    assert(trimmed.len() == full.len());
    assert forall|i: int| 0 <= i < trimmed.len() implies trimmed[i] == full[i] by {
        lemma_remove_preserves_lookup(records, k, i + 1);
        assert(trimmed[i].state == spec_slot_state(records.remove(k), focused, i + 1));
        assert(full[i].state == spec_slot_state(records, focused, i + 1));
    }
    assert(trimmed =~= full);
}

} // verus!
