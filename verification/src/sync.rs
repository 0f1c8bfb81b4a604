//! Reconciliation of the tracker's work items with the local notes.
//!
//! The caller fetches the remote items, names the remote ids that back its
//! active and its trashed notes, and gets back what to create and what to
//! delete locally.

use vstd::prelude::*;

verus! {

/// The fields of a work item that the mirror reads.
#[derive(Clone, Debug, PartialEq, Eq)]
pub struct DevOpsFields {
    pub title: String,
    /// When the tracker closed the item; `None` while it is open.
    pub closed_date: Option<String>,
}

/// One work item as the tracker reported it.
#[derive(Clone, Debug, PartialEq, Eq)]
pub struct DevOpsWorkItem {
    pub id: i32,
    pub fields: DevOpsFields,
}

/// Asks for a local note that mirrors the remote item `azure_id`.
#[derive(Clone, Debug, PartialEq, Eq)]
pub struct DevOpsCreateNoteReq {
    pub azure_id: i32,
    pub title: String,
}

/// Asks for the removal of the local note that mirrors `azure_id`.
#[derive(Clone, Copy, Debug, PartialEq, Eq)]
pub struct DevOpsDeleteNoteReq {
    pub azure_id: i32,
}

/// What to change locally so that the notes match the tracker.
#[derive(Clone, Debug, PartialEq, Eq)]
pub struct SyncInstruction {
    pub to_create: Vec<DevOpsCreateNoteReq>,
    pub to_delete: Vec<DevOpsDeleteNoteReq>,
}

/// A remote work item as the reconciliation sees it.
pub struct RemoteItem {
    pub id: i32,
    pub title: Seq<char>,
    pub closed: bool,
}

/// A note to create: the remote id and the title.
pub struct NewNote {
    pub id: i32,
    pub title: Seq<char>,
}

/// The mathematical content of a [`SyncInstruction`].
pub struct SyncPlan {
    pub to_create: Seq<NewNote>,
    pub to_delete: Seq<i32>,
}

impl View for DevOpsWorkItem {
    type V = RemoteItem;

    open spec fn view(&self) -> RemoteItem {
        RemoteItem { id: self.id, title: self.fields.title@, closed: self.fields.closed_date is Some }
    }
}

impl View for DevOpsCreateNoteReq {
    type V = NewNote;

    open spec fn view(&self) -> NewNote {
        NewNote { id: self.azure_id, title: self.title@ }
    }
}

impl View for SyncInstruction {
    type V = SyncPlan;

    open spec fn view(&self) -> SyncPlan {
        SyncPlan {
            to_create: self.to_create@.map_values(|r: DevOpsCreateNoteReq| r@),
            to_delete: self.to_delete@.map_values(|r: DevOpsDeleteNoteReq| r.azure_id),
        }
    }
}

/// The remote items of a response, in the order of the response.
pub open spec fn remote_items(items: Seq<DevOpsWorkItem>) -> Seq<RemoteItem> {
    items.map_values(|w: DevOpsWorkItem| w@)
}

/// The ids that the tracker reported.
pub open spec fn remote_ids(remote: Seq<RemoteItem>) -> Set<i32> {
    Set::new(|id: i32| exists|i: int| 0 <= i < remote.len() && #[trigger] remote[i].id == id)
}

/// The ids that the tracker reported as closed.
pub open spec fn closed_remote_ids(remote: Seq<RemoteItem>) -> Set<i32> {
    Set::new(
        |id: i32|
            exists|i: int| 0 <= i < remote.len() && #[trigger] remote[i].id == id && remote[i].closed,
    )
}

/// The ids that the tracker reported as open.
pub open spec fn open_remote_ids(remote: Seq<RemoteItem>) -> Set<i32> {
    Set::new(
        |id: i32|
            exists|i: int| 0 <= i < remote.len() && #[trigger] remote[i].id == id && !remote[i].closed,
    )
}

/// Whether a remote item gets a new local note: it is open and no note,
/// active or trashed, mirrors it yet.
pub open spec fn wants_note(item: RemoteItem, active: Set<i32>, trashed: Set<i32>) -> bool {
    !active.contains(item.id) && !trashed.contains(item.id) && !item.closed
}

/// The notes to create: one for each remote item that wants one, in the
/// order of the response.
pub open spec fn create_plan(remote: Seq<RemoteItem>, active: Set<i32>, trashed: Set<i32>) -> Seq<
    NewNote,
> {
    remote.filter(|item: RemoteItem| wants_note(item, active, trashed)).map_values(
        |item: RemoteItem| NewNote { id: item.id, title: item.title },
    )
}

/// The ids whose local note is to go: closed by the tracker, or active
/// locally and no longer reported, and in both cases not trashed already.
pub open spec fn delete_set(remote: Seq<RemoteItem>, active: Set<i32>, trashed: Set<i32>) -> Set<
    i32,
> {
    closed_remote_ids(remote).union(active.difference(remote_ids(remote))).difference(trashed)
}

/// The ids of the closed remote items, in the order of the response.
pub open spec fn closed_id_seq(remote: Seq<RemoteItem>) -> Seq<i32> {
    remote.filter(|item: RemoteItem| item.closed).map_values(|item: RemoteItem| item.id)
}

/// The active ids that the tracker no longer reports, in the caller's order.
pub open spec fn missing_id_seq(remote: Seq<RemoteItem>, active: Seq<i32>) -> Seq<i32> {
    active.filter(|id: i32| !remote_ids(remote).contains(id))
}

/// The candidates for deletion in the order in which they are considered:
/// the closed remote ids, then the missing active ids.
pub open spec fn delete_candidates(remote: Seq<RemoteItem>, active: Seq<i32>) -> Seq<i32> {
    closed_id_seq(remote) + missing_id_seq(remote, active)
}

/// The candidates that are not trashed, each once, at its first place.
pub open spec fn first_untrashed(candidates: Seq<i32>, trashed: Set<i32>) -> Seq<i32>
    decreases candidates.len(),
{
    if candidates.len() == 0 {
        Seq::empty()
    } else {
        let earlier = first_untrashed(candidates.drop_last(), trashed);
        let id = candidates.last();
        if trashed.contains(id) || earlier.contains(id) {
            earlier
        } else {
            earlier.push(id)
        }
    }
}

/// The ids to delete, in order: [`delete_set`] as a sequence without
/// repetition, closed remote ids first.
pub open spec fn delete_plan(remote: Seq<RemoteItem>, active: Seq<i32>, trashed: Set<i32>) -> Seq<
    i32,
> {
    first_untrashed(delete_candidates(remote, active), trashed)
}

/// The whole reconciliation as a function of its three inputs.
pub open spec fn sync_plan(remote: Seq<RemoteItem>, active: Seq<i32>, trashed: Seq<i32>) -> SyncPlan {
    SyncPlan {
        to_create: create_plan(remote, active.to_set(), trashed.to_set()),
        to_delete: delete_plan(remote, active, trashed.to_set()),
    }
}

/// Whether `ids` holds `id`.
fn holds_id(ids: &Vec<i32>, id: i32) -> (found: bool)
    ensures
        found == ids@.contains(id),
{
    let mut i: usize = 0;
    while i < ids.len()
        invariant
            i <= ids.len(),
            forall|k: int| 0 <= k < i ==> ids@[k] != id,
        decreases ids.len() - i,
    {
        if ids[i] == id {
            return true;
        }
        i += 1;
    }
    false
}

/// Whether one of `items` has the id `id`.
fn reports_id(items: &Vec<DevOpsWorkItem>, id: i32) -> (found: bool)
    ensures
        found == remote_ids(remote_items(items@)).contains(id),
{
    let mut i: usize = 0;
    while i < items.len()
        invariant
            i <= items.len(),
            forall|k: int| 0 <= k < i ==> remote_items(items@)[k].id != id,
        decreases items.len() - i,
    {
        if items[i].id == id {
            assert(remote_items(items@)[i as int].id == id);
            return true;
        }
        i += 1;
    }
    false
}

/// Whether `planned` already asks for the deletion of `id`.
fn plans_deletion(planned: &Vec<DevOpsDeleteNoteReq>, id: i32) -> (found: bool)
    ensures
        found == deleted_ids(planned@).contains(id),
{
    let mut i: usize = 0;
    while i < planned.len()
        invariant
            i <= planned.len(),
            forall|k: int| 0 <= k < i ==> deleted_ids(planned@)[k] != id,
        decreases planned.len() - i,
    {
        if planned[i].azure_id == id {
            assert(deleted_ids(planned@)[i as int] == id);
            return true;
        }
        i += 1;
    }
    false
}

/// The ids that a list of delete requests names, in order.
pub open spec fn deleted_ids(planned: Seq<DevOpsDeleteNoteReq>) -> Seq<i32> {
    planned.map_values(|r: DevOpsDeleteNoteReq| r.azure_id)
}

/// The notes that a list of create requests names, in order.
pub open spec fn created_notes(planned: Seq<DevOpsCreateNoteReq>) -> Seq<NewNote> {
    planned.map_values(|r: DevOpsCreateNoteReq| r@)
}

/// Considering one more candidate either appends it or changes nothing.
proof fn lemma_first_untrashed_push(candidates: Seq<i32>, id: i32, trashed: Set<i32>)
    ensures
        first_untrashed(candidates.push(id), trashed) == if trashed.contains(id) || first_untrashed(
            candidates,
            trashed,
        ).contains(id) {
            first_untrashed(candidates, trashed)
        } else {
            first_untrashed(candidates, trashed).push(id)
        },
{
    assert(candidates.push(id).drop_last() =~= candidates);
}

/// The closed ids of a response that is one item longer.
proof fn lemma_closed_id_seq_push(remote: Seq<RemoteItem>, item: RemoteItem)
    ensures
        closed_id_seq(remote.push(item)) == if item.closed {
            closed_id_seq(remote).push(item.id)
        } else {
            closed_id_seq(remote)
        },
{
    let closed = |item: RemoteItem| item.closed;
    remote.lemma_filter_push(item, closed);
    if item.closed {
        assert(remote.filter(closed).push(item).map_values(|item: RemoteItem| item.id)
            =~= closed_id_seq(remote).push(item.id));
    }
}

/// The notes to create for a response that is one item longer.
proof fn lemma_create_plan_push(
    remote: Seq<RemoteItem>,
    item: RemoteItem,
    active: Set<i32>,
    trashed: Set<i32>,
)
    ensures
        create_plan(remote.push(item), active, trashed) == if wants_note(item, active, trashed) {
            create_plan(remote, active, trashed).push(NewNote { id: item.id, title: item.title })
        } else {
            create_plan(remote, active, trashed)
        },
{
    let wanted = |item: RemoteItem| wants_note(item, active, trashed);
    remote.lemma_filter_push(item, wanted);
    if wants_note(item, active, trashed) {
        assert(remote.filter(wanted).push(item).map_values(
            |item: RemoteItem| NewNote { id: item.id, title: item.title },
        ) =~= create_plan(remote, active, trashed).push(
            NewNote { id: item.id, title: item.title },
        ));
    }
}

/// The create requests of a reconciliation.
fn notes_to_create(
    remote: &Vec<DevOpsWorkItem>,
    active_ids: &Vec<i32>,
    trashed_ids: &Vec<i32>,
) -> (created: Vec<DevOpsCreateNoteReq>)
    ensures
        created_notes(created@) == create_plan(
            remote_items(remote@),
            active_ids@.to_set(),
            trashed_ids@.to_set(),
        ),
{
    let ghost items = remote_items(remote@);
    let ghost active = active_ids@.to_set();
    let ghost trashed = trashed_ids@.to_set();
    let mut created: Vec<DevOpsCreateNoteReq> = Vec::new();
    let mut i: usize = 0;
    proof {
        reveal(Seq::filter);
        assert(items.take(0) =~= Seq::<RemoteItem>::empty());
        assert(created_notes(created@) =~= Seq::<NewNote>::empty());
        assert(create_plan(items.take(0), active, trashed) =~= Seq::<NewNote>::empty());
    }
    while i < remote.len()
        invariant
            i <= remote.len(),
            items == remote_items(remote@),
            active == active_ids@.to_set(),
            trashed == trashed_ids@.to_set(),
            created_notes(created@) == create_plan(items.take(i as int), active, trashed),
        decreases remote.len() - i,
    {
        let item = &remote[i];
        proof {
            assert(items.take(i + 1) =~= items.take(i as int).push(item@));
            lemma_create_plan_push(items.take(i as int), item@, active, trashed);
        }
        if item.fields.closed_date.is_none() && !holds_id(active_ids, item.id) && !holds_id(
            trashed_ids,
            item.id,
        ) {
            let ghost before = created@;
            let note = DevOpsCreateNoteReq { azure_id: item.id, title: item.fields.title.clone() };
            created.push(note);
            assert(created_notes(created@) =~= created_notes(before).push(note@));
        }
        i += 1;
    }
    assert(items.take(remote.len() as int) =~= items);
    created
}

/// The delete requests of a reconciliation.
fn notes_to_delete(
    remote: &Vec<DevOpsWorkItem>,
    active_ids: &Vec<i32>,
    trashed_ids: &Vec<i32>,
) -> (deleted: Vec<DevOpsDeleteNoteReq>)
    ensures
        deleted_ids(deleted@) == delete_plan(
            remote_items(remote@),
            active_ids@,
            trashed_ids@.to_set(),
        ),
{
    let ghost items = remote_items(remote@);
    let ghost trashed = trashed_ids@.to_set();
    let mut deleted: Vec<DevOpsDeleteNoteReq> = Vec::new();
    let mut i: usize = 0;
    proof {
        reveal(Seq::filter);
        assert(items.take(0) =~= Seq::<RemoteItem>::empty());
        assert(deleted_ids(deleted@) =~= Seq::<i32>::empty());
        assert(closed_id_seq(items.take(0)) =~= Seq::<i32>::empty());
    }
    while i < remote.len()
        invariant
            i <= remote.len(),
            items == remote_items(remote@),
            trashed == trashed_ids@.to_set(),
            deleted_ids(deleted@) == first_untrashed(closed_id_seq(items.take(i as int)), trashed),
        decreases remote.len() - i,
    {
        let item = &remote[i];
        proof {
            assert(items.take(i + 1) =~= items.take(i as int).push(item@));
            lemma_closed_id_seq_push(items.take(i as int), item@);
            lemma_first_untrashed_push(closed_id_seq(items.take(i as int)), item.id, trashed);
        }
        if item.fields.closed_date.is_some() && !holds_id(trashed_ids, item.id) && !plans_deletion(
            &deleted,
            item.id,
        ) {
            let ghost before = deleted@;
            deleted.push(DevOpsDeleteNoteReq { azure_id: item.id });
            assert(deleted_ids(deleted@) =~= deleted_ids(before).push(item.id));
        }
        i += 1;
    }
    assert(items.take(remote.len() as int) =~= items);
    let ghost closed = closed_id_seq(items);
    let mut j: usize = 0;
    proof {
        reveal(Seq::filter);
        assert(active_ids@.take(0) =~= Seq::<i32>::empty());
        assert(closed + missing_id_seq(items, active_ids@.take(0)) =~= closed);
    }
    while j < active_ids.len()
        invariant
            j <= active_ids.len(),
            items == remote_items(remote@),
            trashed == trashed_ids@.to_set(),
            closed == closed_id_seq(items),
            deleted_ids(deleted@) == first_untrashed(
                closed + missing_id_seq(items, active_ids@.take(j as int)),
                trashed,
            ),
        decreases active_ids.len() - j,
    {
        let id = active_ids[j];
        let ghost seen = missing_id_seq(items, active_ids@.take(j as int));
        proof {
            let missing = |id: i32| !remote_ids(items).contains(id);
            assert(active_ids@.take(j + 1) =~= active_ids@.take(j as int).push(id));
            active_ids@.take(j as int).lemma_filter_push(id, missing);
            assert(closed + seen.push(id) =~= (closed + seen).push(id));
            lemma_first_untrashed_push(closed + seen, id, trashed);
        }
        if !reports_id(remote, id) && !holds_id(trashed_ids, id) && !plans_deletion(&deleted, id) {
            let ghost before = deleted@;
            deleted.push(DevOpsDeleteNoteReq { azure_id: id });
            assert(deleted_ids(deleted@) =~= deleted_ids(before).push(id));
        }
        j += 1;
    }
    assert(active_ids@.take(active_ids.len() as int) =~= active_ids@);
    deleted
}

/// Computes what to create and what to delete locally.
///
/// `remote` is the tracker's answer, `active_ids` and `trashed_ids` are the
/// remote ids that back the caller's active and trashed notes. A note is
/// created for each open remote item that no note mirrors yet, in the
/// order of the answer. A note is deleted when the tracker closed its item
/// or no longer reports it, unless the note is trashed already; no id is
/// named twice.
pub fn sync_notes_with_devops(
    remote: &Vec<DevOpsWorkItem>,
    active_ids: &Vec<i32>,
    trashed_ids: &Vec<i32>,
) -> (out: SyncInstruction)
    ensures
        out@ == sync_plan(remote_items(remote@), active_ids@, trashed_ids@),
{
    let to_create = notes_to_create(remote, active_ids, trashed_ids);
    let to_delete = notes_to_delete(remote, active_ids, trashed_ids);
    SyncInstruction { to_create, to_delete }
}


/// The ids that a sequence of notes names.
pub open spec fn created_ids(notes: Seq<NewNote>) -> Set<i32> {
    Set::new(|id: i32| exists|k: int| 0 <= k < notes.len() && #[trigger] notes[k].id == id)
}

/// The active ids after a plan was carried out: the created notes are
/// active, the deleted ones no longer.
pub open spec fn active_after(active: Set<i32>, plan: SyncPlan) -> Set<i32> {
    active.union(created_ids(plan.to_create)).difference(plan.to_delete.to_set())
}

/// The trashed ids after a plan was carried out: the deleted notes are
/// trashed.
pub open spec fn trashed_after(trashed: Set<i32>, plan: SyncPlan) -> Set<i32> {
    trashed.union(plan.to_delete.to_set())
}

proof fn lemma_created_id(remote: Seq<RemoteItem>, active: Set<i32>, trashed: Set<i32>, id: i32)
    ensures
        created_ids(create_plan(remote, active, trashed)).contains(id) <==> open_remote_ids(
            remote,
        ).contains(id) && !active.contains(id) && !trashed.contains(id),
    decreases remote.len(),
{
    let plan = create_plan(remote, active, trashed);
    if remote.len() == 0 {
        reveal(Seq::filter);
        assert(plan =~= Seq::<NewNote>::empty());
    } else {
        let front = remote.drop_last();
        let item = remote.last();
        let earlier = create_plan(front, active, trashed);
        assert(remote =~= front.push(item));
        lemma_create_plan_push(front, item, active, trashed);
        lemma_created_id(front, active, trashed, id);
        if created_ids(plan).contains(id) {
            let k = choose|k: int| 0 <= k < plan.len() && #[trigger] plan[k].id == id;
            if k < earlier.len() {
                assert(earlier[k].id == id);
                let i = choose|i: int|
                    0 <= i < front.len() && #[trigger] front[i].id == id && !front[i].closed;
                assert(remote[i].id == id);
            } else {
                assert(remote[remote.len() - 1].id == id);
            }
        }
        if open_remote_ids(remote).contains(id) && !active.contains(id) && !trashed.contains(id) {
            let i = choose|i: int|
                0 <= i < remote.len() && #[trigger] remote[i].id == id && !remote[i].closed;
            if i < front.len() {
                assert(front[i].id == id);
                let k = choose|k: int| 0 <= k < earlier.len() && #[trigger] earlier[k].id == id;
                assert(plan[k].id == id);
            } else {
                assert(plan[plan.len() - 1].id == id);
            }
        }
    }
}

proof fn lemma_closed_id(remote: Seq<RemoteItem>, id: i32)
    ensures
        closed_id_seq(remote).contains(id) <==> closed_remote_ids(remote).contains(id),
    decreases remote.len(),
{
    let ids = closed_id_seq(remote);
    if remote.len() == 0 {
        reveal(Seq::filter);
        assert(ids =~= Seq::<i32>::empty());
    } else {
        let front = remote.drop_last();
        let item = remote.last();
        let earlier = closed_id_seq(front);
        assert(remote =~= front.push(item));
        lemma_closed_id_seq_push(front, item);
        lemma_closed_id(front, id);
        if ids.contains(id) {
            let k = choose|k: int| 0 <= k < ids.len() && ids[k] == id;
            if k < earlier.len() {
                assert(earlier[k] == id);
                let i = choose|i: int|
                    0 <= i < front.len() && #[trigger] front[i].id == id && front[i].closed;
                assert(remote[i].id == id);
            } else {
                assert(remote[remote.len() - 1].id == id);
            }
        }
        if closed_remote_ids(remote).contains(id) {
            let i = choose|i: int|
                0 <= i < remote.len() && #[trigger] remote[i].id == id && remote[i].closed;
            if i < front.len() {
                assert(front[i].id == id);
                let k = choose|k: int| 0 <= k < earlier.len() && earlier[k] == id;
                assert(ids[k] == id);
            } else {
                assert(ids[ids.len() - 1] == id);
            }
        }
    }
}

proof fn lemma_missing_id(remote: Seq<RemoteItem>, active: Seq<i32>, id: i32)
    ensures
        missing_id_seq(remote, active).contains(id) <==> active.contains(id) && !remote_ids(
            remote,
        ).contains(id),
{
    let missing = |id: i32| !remote_ids(remote).contains(id);
    if missing_id_seq(remote, active).contains(id) {
        active.lemma_filter_contains_rev(missing, id);
        let k = choose|k: int|
            0 <= k < active.filter(missing).len() && active.filter(missing)[k] == id;
        active.lemma_filter_pred(missing, k);
    }
    if active.contains(id) && missing(id) {
        let i = choose|i: int| 0 <= i < active.len() && active[i] == id;
        active.lemma_filter_contains(missing, i);
    }
}

proof fn lemma_first_untrashed_id(candidates: Seq<i32>, trashed: Set<i32>, id: i32)
    ensures
        first_untrashed(candidates, trashed).contains(id) <==> candidates.contains(id)
            && !trashed.contains(id),
    decreases candidates.len(),
{
    let kept = first_untrashed(candidates, trashed);
    if candidates.len() > 0 {
        let front = candidates.drop_last();
        let earlier = first_untrashed(front, trashed);
        lemma_first_untrashed_id(front, trashed, id);
        if kept.contains(id) {
            let k = choose|k: int| 0 <= k < kept.len() && kept[k] == id;
            if k < earlier.len() {
                assert(earlier[k] == id);
                let i = choose|i: int| 0 <= i < front.len() && front[i] == id;
                assert(candidates[i] == id);
            } else {
                assert(candidates[candidates.len() - 1] == id);
            }
        }
        if candidates.contains(id) && !trashed.contains(id) {
            let i = choose|i: int| 0 <= i < candidates.len() && candidates[i] == id;
            if i < front.len() {
                assert(front[i] == id);
            }
            if earlier.contains(id) {
                let k = choose|k: int| 0 <= k < earlier.len() && earlier[k] == id;
                assert(kept[k] == id);
            } else {
                assert(kept[kept.len() - 1] == id);
            }
        }
    }
}

proof fn lemma_first_untrashed_once(candidates: Seq<i32>, trashed: Set<i32>)
    ensures
        first_untrashed(candidates, trashed).no_duplicates(),
    decreases candidates.len(),
{
    if candidates.len() > 0 {
        lemma_first_untrashed_once(candidates.drop_last(), trashed);
    }
}

/// The notes to create name exactly the ids that the tracker reports as
/// open and that no note, active or trashed, mirrors.
pub proof fn law_created_ids(remote: Seq<RemoteItem>, active: Seq<i32>, trashed: Seq<i32>)
    ensures
        created_ids(sync_plan(remote, active, trashed).to_create) == open_remote_ids(
            remote,
        ).difference(active.to_set()).difference(trashed.to_set()),
{
    let made = created_ids(sync_plan(remote, active, trashed).to_create);
    let wanted = open_remote_ids(remote).difference(active.to_set()).difference(trashed.to_set());
    assert forall|id: i32| made.contains(id) <==> wanted.contains(id) by {
        lemma_created_id(remote, active.to_set(), trashed.to_set(), id);
    }
    assert(made =~= wanted);
}

/// The ids to delete are, as a set, the closed remote ids together with
/// the active ids that the tracker no longer reports, less the trashed
/// ids; and the sequence names no id twice.
pub proof fn law_deleted_ids(remote: Seq<RemoteItem>, active: Seq<i32>, trashed: Seq<i32>)
    ensures
        sync_plan(remote, active, trashed).to_delete.to_set() == delete_set(
            remote,
            active.to_set(),
            trashed.to_set(),
        ),
        sync_plan(remote, active, trashed).to_delete.no_duplicates(),
{
    let plan = sync_plan(remote, active, trashed).to_delete;
    let wanted = delete_set(remote, active.to_set(), trashed.to_set());
    let candidates = delete_candidates(remote, active);
    lemma_first_untrashed_once(candidates, trashed.to_set());
    assert forall|id: i32| plan.to_set().contains(id) <==> wanted.contains(id) by {
        lemma_first_untrashed_id(candidates, trashed.to_set(), id);
        lemma_closed_id(remote, id);
        lemma_missing_id(remote, active, id);
        lemma_concat_contains(closed_id_seq(remote), missing_id_seq(remote, active), id);
    }
    assert(plan.to_set() =~= wanted);
}

proof fn lemma_concat_contains(a: Seq<i32>, b: Seq<i32>, id: i32)
    ensures
        (a + b).contains(id) <==> a.contains(id) || b.contains(id),
{
    if a.contains(id) {
        let i = choose|i: int| 0 <= i < a.len() && a[i] == id;
        assert((a + b)[i] == id);
    }
    if b.contains(id) {
        let i = choose|i: int| 0 <= i < b.len() && b[i] == id;
        assert((a + b)[a.len() + i] == id);
    }
    if (a + b).contains(id) {
        let i = choose|i: int| 0 <= i < (a + b).len() && (a + b)[i] == id;
        if i < a.len() {
            assert(a[i] == id);
        } else {
            assert(b[i - a.len()] == id);
        }
    }
}

/// Whether no note that a plan creates has an id that the plan deletes.
pub open spec fn shares_no_id(plan: SyncPlan) -> bool {
    forall|i: int, j: int|
        0 <= i < plan.to_create.len() && 0 <= j < plan.to_delete.len()
            ==> #[trigger] plan.to_create[i].id != #[trigger] plan.to_delete[j]
}

/// No id is both created and deleted, provided that the tracker does not
/// report an id that no note mirrors yet both as open and as closed.
///
/// On such an answer the open item asks for a note and the closed one
/// for its removal, so the same id stands on both sides.
pub proof fn law_create_delete_disjoint(
    remote: Seq<RemoteItem>,
    active: Seq<i32>,
    trashed: Seq<i32>,
)
    requires
        forall|id: i32|
            open_remote_ids(remote).contains(id) && closed_remote_ids(remote).contains(id)
                ==> active.contains(id) || trashed.contains(id),
    ensures
        shares_no_id(sync_plan(remote, active, trashed)),
        created_ids(sync_plan(remote, active, trashed).to_create).disjoint(
            sync_plan(remote, active, trashed).to_delete.to_set(),
        ),
{
    let plan = sync_plan(remote, active, trashed);
    law_created_ids(remote, active, trashed);
    law_deleted_ids(remote, active, trashed);
    assert forall|i: int, j: int|
        0 <= i < plan.to_create.len() && 0 <= j < plan.to_delete.len() implies plan.to_create[i].id
        != plan.to_delete[j] by {
        assert(created_ids(plan.to_create).contains(plan.to_create[i].id));
        assert(plan.to_delete.to_set().contains(plan.to_delete[j]));
    }
}

/// An id that the tracker reports both as open and as closed, and that no
/// note mirrors yet, is both created and deleted.
pub proof fn law_open_and_closed_twin_stands_on_both_sides(
    remote: Seq<RemoteItem>,
    active: Seq<i32>,
    trashed: Seq<i32>,
    id: i32,
)
    requires
        open_remote_ids(remote).contains(id),
        closed_remote_ids(remote).contains(id),
        !active.contains(id),
        !trashed.contains(id),
    ensures
        created_ids(sync_plan(remote, active, trashed).to_create).contains(id),
        sync_plan(remote, active, trashed).to_delete.contains(id),
{
    law_created_ids(remote, active, trashed);
    law_deleted_ids(remote, active, trashed);
    assert(sync_plan(remote, active, trashed).to_delete.to_set().contains(id));
}

/// Two runs on the same inputs give the same instruction.
pub proof fn law_same_inputs_same_instruction(
    first: SyncInstruction,
    second: SyncInstruction,
    remote: Seq<RemoteItem>,
    active: Seq<i32>,
    trashed: Seq<i32>,
)
    requires
        first@ == sync_plan(remote, active, trashed),
        second@ == sync_plan(remote, active, trashed),
    ensures
        first@ == second@,
{
}

/// Once an instruction was carried out, the next run on the same answer
/// asks for nothing: with the created notes active and the deleted ones
/// trashed, there is nothing left to create or to delete.
pub proof fn law_second_run_is_empty(
    remote: Seq<RemoteItem>,
    active: Seq<i32>,
    trashed: Seq<i32>,
    active_then: Seq<i32>,
    trashed_then: Seq<i32>,
)
    requires
        active_then.to_set() == active_after(active.to_set(), sync_plan(remote, active, trashed)),
        trashed_then.to_set() == trashed_after(
            trashed.to_set(),
            sync_plan(remote, active, trashed),
        ),
    ensures
        sync_plan(remote, active_then, trashed_then).to_create == Seq::<NewNote>::empty(),
        sync_plan(remote, active_then, trashed_then).to_delete == Seq::<i32>::empty(),
{
    let first = sync_plan(remote, active, trashed);
    let second = sync_plan(remote, active_then, trashed_then);
    law_created_ids(remote, active, trashed);
    law_deleted_ids(remote, active, trashed);
    law_created_ids(remote, active_then, trashed_then);
    law_deleted_ids(remote, active_then, trashed_then);
    if second.to_create.len() > 0 {
        let id = second.to_create[0].id;
        assert(created_ids(second.to_create).contains(id));
        assert(open_remote_ids(remote).contains(id));
        if !active.to_set().contains(id) && !trashed.to_set().contains(id) {
            assert(created_ids(first.to_create).contains(id));
        }
        assert(false);
    }
    if second.to_delete.len() > 0 {
        let id = second.to_delete[0];
        assert(second.to_delete.to_set().contains(id));
        if !closed_remote_ids(remote).contains(id) {
            assert(!remote_ids(remote).contains(id));
            if created_ids(first.to_create).contains(id) {
                let i = choose|i: int|
                    0 <= i < remote.len() && #[trigger] remote[i].id == id && !remote[i].closed;
                assert(remote_ids(remote).contains(id));
            }
        }
        assert(false);
    }
    assert(second.to_create =~= Seq::<NewNote>::empty());
    assert(second.to_delete =~= Seq::<i32>::empty());
}

} // verus!
