//! What is promised of the plan for an upload.

use vstd::prelude::*;

use crate::ingest::VeteranUpload;
use crate::models::{VeteranCharacter, VeteranCharacterRow};
use crate::plan::IngestPlan;

verus! {

/// Whether rows hold an id.
pub open spec fn is_stored(rows: Seq<VeteranCharacterRow>, id: i64) -> bool {
    exists|p: int| 0 <= p < rows.len() && (#[trigger] rows[p]).trained_chara_id == id
}

/// Whether a list of characters has an id.
pub open spec fn is_uploaded(characters: Seq<VeteranCharacter>, id: i64) -> bool {
    exists|i: int| 0 <= i < characters.len() && (#[trigger] characters[i]).trained_chara_id == id
}

/// Whether a row is the last one with its id.
pub open spec fn is_latest(rows: Seq<VeteranCharacterRow>, p: int) -> bool {
    &&& 0 <= p < rows.len()
    &&& forall|q: int|
        p < q < rows.len() ==> (#[trigger] rows[q]).trained_chara_id != rows[p].trained_chara_id
}

/// Whether a list of references holds a character.
pub open spec fn lists(chosen: Seq<&VeteranCharacter>, c: VeteranCharacter) -> bool {
    exists|k: int| 0 <= k < chosen.len() && *(#[trigger] chosen[k]) == c
}

/// The store has an id where a row has it.
proof fn lemma_stored_id(rows: Seq<VeteranCharacterRow>, id: i64)
    ensures
        crate::plan::table(rows).contains_key(id) <==> is_stored(rows, id),
    decreases rows.len(),
{
    if rows.len() > 0 {
        let front = rows.drop_last();
        lemma_stored_id(front, id);
        assert(rows[rows.len() - 1] == rows.last());
        if is_stored(front, id) {
            let p = choose|p: int|
                0 <= p < front.len() && (#[trigger] front[p]).trained_chara_id == id;
            assert(rows[p].trained_chara_id == id);
        }
        if is_stored(rows, id) && id != rows.last().trained_chara_id {
            let p = choose|p: int|
                0 <= p < rows.len() && (#[trigger] rows[p]).trained_chara_id == id;
            assert(front[p].trained_chara_id == id);
        }
    }
}

/// The store has the columns of the last row with an id.
proof fn lemma_latest_columns(rows: Seq<VeteranCharacterRow>, p: int)
    requires
        is_latest(rows, p),
    ensures
        crate::plan::table(rows)[rows[p].trained_chara_id] == rows[p].columns(),
    decreases rows.len(),
{
    let front = rows.drop_last();
    if p < front.len() {
        assert(rows[rows.len() - 1].trained_chara_id != rows[p].trained_chara_id);
        assert(front[p] == rows[p]);
        assert forall|q: int| p < q < front.len() implies (#[trigger] front[q]).trained_chara_id
            != front[p].trained_chara_id by {
            assert(rows[q] == front[q]);
        }
        lemma_latest_columns(front, p);
        lemma_stored_id(front, front[p].trained_chara_id);
    }
}

/// The store has an id where a row has it, with the columns of the last such row.
pub proof fn law_latest_row_counts(rows: Seq<VeteranCharacterRow>)
    ensures
        forall|id: i64| #[trigger]
            crate::plan::table(rows).contains_key(id) <==> is_stored(rows, id),
        forall|p: int|
            is_latest(rows, p) ==> crate::plan::table(rows)[(
            #[trigger] rows[p]).trained_chara_id] == rows[p].columns(),
{
    assert forall|id: i64| #[trigger] crate::plan::table(rows).contains_key(id) <==> is_stored(
        rows,
        id,
    ) by {
        lemma_stored_id(rows, id);
    }
    assert forall|p: int| is_latest(rows, p) implies crate::plan::table(rows)[(
    #[trigger] rows[p]).trained_chara_id] == rows[p].columns() by {
        lemma_latest_columns(rows, p);
    }
}

/// An id that rows hold has a last row.
proof fn lemma_latest_exists(rows: Seq<VeteranCharacterRow>, id: i64)
    requires
        is_stored(rows, id),
    ensures
        exists|p: int| is_latest(rows, p) && (#[trigger] rows[p]).trained_chara_id == id,
    decreases rows.len(),
{
    let last = rows.len() - 1;
    if rows[last].trained_chara_id == id {
        assert(is_latest(rows, last));
    } else {
        let front = rows.drop_last();
        let p = choose|p: int| 0 <= p < rows.len() && (#[trigger] rows[p]).trained_chara_id == id;
        assert(front[p].trained_chara_id == id);
        lemma_latest_exists(front, id);
        let k = choose|k: int| is_latest(front, k) && (#[trigger] front[k]).trained_chara_id == id;
        assert(rows[k] == front[k]);
        assert forall|q: int| k < q < rows.len() implies (#[trigger] rows[q]).trained_chara_id
            != rows[k].trained_chara_id by {
            if q < last {
                assert(front[q] == rows[q]);
            }
        }
        assert(is_latest(rows, k));
    }
}

/// A selection keeps the order: each element comes from a place behind that of the one
/// before it.
proof fn lemma_filter_places<A>(s: Seq<A>, pred: spec_fn(A) -> bool) -> (places: Seq<int>)
    ensures
        places.len() == s.filter(pred).len(),
        forall|k: int|
            0 <= k < places.len() ==> 0 <= #[trigger] places[k] < s.len() && s.filter(pred)[k]
                == s[places[k]] && pred(s[places[k]]),
        forall|k: int, l: int| 0 <= k < l < places.len() ==> places[k] < places[l],
        forall|i: int| 0 <= i < s.len() && pred(#[trigger] s[i]) ==> places.contains(i),
    decreases s.len(),
{
    reveal(Seq::filter);
    if s.len() == 0 {
        Seq::empty()
    } else {
        let front = s.drop_last();
        let before = lemma_filter_places(front, pred);
        let n = s.len() - 1;
        assert forall|k: int| 0 <= k < before.len() implies 0 <= #[trigger] before[k] < front.len()
            && front.filter(pred)[k] == s[before[k]] && pred(s[before[k]]) by {
            assert(front[before[k]] == s[before[k]]);
        }
        let places = if pred(s.last()) {
            before.push(n)
        } else {
            before
        };
        assert forall|i: int| 0 <= i < s.len() && pred(#[trigger] s[i]) implies places.contains(
            i,
        ) by {
            if i < n {
                assert(front[i] == s[i]);
                assert(before.contains(i));
                assert(places[before.index_of(i)] == i);
            } else {
                assert(places[before.len() as int] == i);
            }
        }
        places
    }
}

/// What holds of the characters that a plan inserts or updates, as a selection.
proof fn lemma_selection(
    chosen: Seq<&VeteranCharacter>,
    characters: Seq<VeteranCharacter>,
    pred: spec_fn(VeteranCharacter) -> bool,
)
    requires
        crate::ingest::ids(characters).no_duplicates(),
        chosen.unref() == characters.filter(pred),
    ensures
        forall|i: int|
            0 <= i < characters.len() ==> (lists(chosen, #[trigger] characters[i]) <==> pred(
                characters[i],
            )),
        forall|k: int|
            0 <= k < chosen.len() ==> pred(*(#[trigger] chosen[k])) && is_uploaded(
                characters,
                chosen[k].trained_chara_id,
            ) && characters.contains(*chosen[k]),
        forall|k: int, l: int, i: int, j: int|
            0 <= k < l < chosen.len() && 0 <= i < characters.len() && 0 <= j < characters.len()
                && *(#[trigger] chosen[k]) == (#[trigger] characters[i]) && *(#[trigger] chosen[l])
                == (#[trigger] characters[j]) ==> i < j,
{
    let places = lemma_filter_places(characters, pred);
    let all = crate::ingest::ids(characters);
    assert(chosen.unref().len() == chosen.len());
    assert forall|k: int| 0 <= k < chosen.len() implies *(#[trigger] chosen[k])
        == characters[places[k]] by {
        assert(chosen.unref()[k] == *chosen[k]);
    }
    assert forall|i: int, j: int|
        0 <= i < characters.len() && 0 <= j < characters.len() && #[trigger] characters[i]
            == #[trigger] characters[j] implies i == j by {
        assert(all[i] == all[j]);
    }
    assert forall|i: int| 0 <= i < characters.len() implies (lists(
        chosen,
        #[trigger] characters[i],
    ) <==> pred(characters[i])) by {
        if pred(characters[i]) {
            let k = places.index_of(i);
            assert(*chosen[k] == characters[i]);
        }
    }
    assert forall|k: int| 0 <= k < chosen.len() implies pred(*(#[trigger] chosen[k]))
        && is_uploaded(characters, chosen[k].trained_chara_id) && characters.contains(
        *chosen[k],
    ) by {
        assert(characters[places[k]].trained_chara_id == chosen[k].trained_chara_id);
    }
}

/// A character is inserted exactly where no row has its id. Nothing else is inserted, and
/// the order is that of the upload.
pub proof fn law_inserted_characters(
    upload: VeteranUpload,
    rows: Vec<VeteranCharacterRow>,
    plan: IngestPlan,
)
    requires
        call_ensures(crate::plan::plan_ingest, (&upload, &rows), plan),
    ensures
        forall|i: int|
            0 <= i < upload@.len() ==> (lists(plan.to_insert@, #[trigger] upload@[i]) <==> !is_stored(
                rows@,
                upload@[i].trained_chara_id,
            )),
        forall|k: int|
            0 <= k < plan.to_insert@.len() ==> upload@.contains(*(#[trigger] plan.to_insert@[k])),
        forall|k: int, l: int, i: int, j: int|
            0 <= k < l < plan.to_insert@.len() && 0 <= i < upload@.len() && 0 <= j < upload@.len()
                && *(#[trigger] plan.to_insert@[k]) == (#[trigger] upload@[i]) && *(
            #[trigger] plan.to_insert@[l]) == (#[trigger] upload@[j]) ==> i < j,
{
    let stored = crate::plan::table(rows@);
    law_latest_row_counts(rows@);
    lemma_selection(
        plan.to_insert@,
        upload@,
        |c: VeteranCharacter| crate::plan::is_new(stored, c),
    );
}

/// A character is updated exactly where the last row with its id holds other columns.
/// Nothing else is updated, and the order is that of the upload.
pub proof fn law_updated_characters(
    upload: VeteranUpload,
    rows: Vec<VeteranCharacterRow>,
    plan: IngestPlan,
)
    requires
        call_ensures(crate::plan::plan_ingest, (&upload, &rows), plan),
    ensures
        forall|i: int, p: int|
            0 <= i < upload@.len() && is_latest(rows@, p) && (
            #[trigger] rows@[p]).trained_chara_id == (#[trigger] upload@[i]).trained_chara_id ==> (
            lists(plan.to_update@, upload@[i]) <==> upload@[i].columns() != rows@[p].columns()),
        forall|k: int|
            0 <= k < plan.to_update@.len() ==> upload@.contains(*(#[trigger] plan.to_update@[k]))
                && is_stored(rows@, plan.to_update@[k].trained_chara_id),
        forall|k: int, l: int, i: int, j: int|
            0 <= k < l < plan.to_update@.len() && 0 <= i < upload@.len() && 0 <= j < upload@.len()
                && *(#[trigger] plan.to_update@[k]) == (#[trigger] upload@[i]) && *(
            #[trigger] plan.to_update@[l]) == (#[trigger] upload@[j]) ==> i < j,
{
    let stored = crate::plan::table(rows@);
    law_latest_row_counts(rows@);
    lemma_selection(
        plan.to_update@,
        upload@,
        |c: VeteranCharacter| crate::plan::is_changed(stored, c),
    );
}

/// An id is deleted, once, exactly where a row has it and no uploaded character does.
pub proof fn law_deleted_ids(
    upload: VeteranUpload,
    rows: Vec<VeteranCharacterRow>,
    plan: IngestPlan,
)
    requires
        call_ensures(crate::plan::plan_ingest, (&upload, &rows), plan),
    ensures
        forall|id: i64| #[trigger]
            plan.to_delete@.contains(id) <==> is_stored(rows@, id) && !is_uploaded(upload@, id),
        forall|k: int, l: int|
            0 <= k < l < plan.to_delete@.len() ==> plan.to_delete@[k] != plan.to_delete@[l],
{
    let all = crate::ingest::ids(upload@);
    law_latest_row_counts(rows@);
    assert forall|id: i64| #[trigger] plan.to_delete@.contains(id) <==> is_stored(rows@, id)
        && !is_uploaded(upload@, id) by {
        assert(plan.to_delete@.contains(id) <==> plan.to_delete@.to_set().contains(id));
        if is_uploaded(upload@, id) {
            let i = choose|i: int|
                0 <= i < upload@.len() && (#[trigger] upload@[i]).trained_chara_id == id;
            assert(all[i] == id);
            assert(all.to_set().contains(id));
        }
        if all.contains(id) {
            assert(upload@[all.index_of(id)].trained_chara_id == id);
        }
    }
}

/// The ids of a list of references are as many as the set of them.
proof fn lemma_count(chosen: Seq<&VeteranCharacter>, expected: Set<i64>)
    requires
        crate::ingest::ids(chosen.unref()).no_duplicates(),
        forall|id: i64| #[trigger]
            expected.contains(id) <==> crate::ingest::ids(chosen.unref()).contains(id),
    ensures
        expected.finite(),
        expected.len() == chosen.len(),
{
    let found = crate::ingest::ids(chosen.unref());
    found.unique_seq_to_set();
    assert(found.to_set() =~= expected);
    assert(found.len() == chosen.len());
}

/// A response counts what there is to do: the uploaded ids that are not stored, the ids
/// whose last row holds other columns than the upload, the stored ids that are not
/// uploaded, and, in all, the characters of the upload.
pub proof fn law_response_counts(
    upload: VeteranUpload,
    rows: Vec<VeteranCharacterRow>,
    plan: IngestPlan,
    new: Set<i64>,
    changed: Set<i64>,
    gone: Set<i64>,
)
    requires
        call_ensures(crate::plan::plan_ingest, (&upload, &rows), plan),
        forall|id: i64| #[trigger]
            new.contains(id) <==> is_uploaded(upload@, id) && !is_stored(rows@, id),
        forall|id: i64| #[trigger]
            changed.contains(id) <==> exists|i: int, p: int|
                0 <= i < upload@.len() && is_latest(rows@, p) && (
                #[trigger] upload@[i]).trained_chara_id == id && (
                #[trigger] rows@[p]).trained_chara_id == id && upload@[i].columns()
                    != rows@[p].columns(),
        forall|id: i64| #[trigger]
            gone.contains(id) <==> is_stored(rows@, id) && !is_uploaded(upload@, id),
    ensures
        plan.response.inserted == new.len(),
        plan.response.updated == changed.len(),
        plan.response.deleted == gone.len(),
        plan.response.total == upload@.len(),
        plan.response.inserted == plan.to_insert@.len(),
        plan.response.updated == plan.to_update@.len(),
        plan.response.deleted == plan.to_delete@.len(),
{
    let stored = crate::plan::table(rows@);
    let is_new = |c: VeteranCharacter| crate::plan::is_new(stored, c);
    let is_changed = |c: VeteranCharacter| crate::plan::is_changed(stored, c);
    law_latest_row_counts(rows@);
    law_deleted_ids(upload, rows, plan);
    crate::plan::law_total_is_upload_length(plan, upload@, rows@);
    crate::plan::lemma_filter_ids(upload@, is_new);
    crate::plan::lemma_filter_ids(upload@, is_changed);
    let inserted = crate::ingest::ids(plan.to_insert@.unref());
    let updated = crate::ingest::ids(plan.to_update@.unref());
    assert forall|id: i64| #[trigger] new.contains(id) <==> inserted.contains(id) by {
        if new.contains(id) {
            let i = choose|i: int|
                0 <= i < upload@.len() && (#[trigger] upload@[i]).trained_chara_id == id;
            assert(is_new(upload@[i]));
        }
        if inserted.contains(id) {
            let i = choose|i: int|
                0 <= i < upload@.len() && is_new(upload@[i])
                    && #[trigger] upload@[i].trained_chara_id == id;
            assert(is_uploaded(upload@, id));
        }
    }
    assert forall|id: i64| #[trigger] changed.contains(id) <==> updated.contains(id) by {
        if changed.contains(id) {
            let (i, p) = choose|i: int, p: int|
                0 <= i < upload@.len() && is_latest(rows@, p) && (
                #[trigger] upload@[i]).trained_chara_id == id && (
                #[trigger] rows@[p]).trained_chara_id == id && upload@[i].columns()
                    != rows@[p].columns();
            assert(is_stored(rows@, id));
            assert(is_changed(upload@[i]));
        }
        if updated.contains(id) {
            let i = choose|i: int|
                0 <= i < upload@.len() && is_changed(upload@[i])
                    && #[trigger] upload@[i].trained_chara_id == id;
            lemma_latest_exists(rows@, id);
            let p = choose|p: int| is_latest(rows@, p) && (#[trigger] rows@[p]).trained_chara_id == id;
            assert(stored[id] == rows@[p].columns());
            assert(upload@[i].trained_chara_id == id && rows@[p].trained_chara_id == id);
        }
    }
    lemma_count(plan.to_insert@, new);
    lemma_count(plan.to_update@, changed);
    plan.to_delete@.unique_seq_to_set();
    assert(plan.to_delete@.to_set() =~= gone);
}

/// Once a plan is carried out, the store has exactly the uploaded ids, each with the
/// columns of its character.
pub proof fn law_store_after_ingest(
    upload: VeteranUpload,
    rows: Vec<VeteranCharacterRow>,
    plan: IngestPlan,
)
    requires
        call_ensures(crate::plan::plan_ingest, (&upload, &rows), plan),
    ensures
        forall|id: i64| #[trigger]
            plan.applied(crate::plan::table(rows@)).contains_key(id) <==> is_uploaded(upload@, id),
        forall|i: int|
            0 <= i < upload@.len() ==> plan.applied(crate::plan::table(rows@))[(
            #[trigger] upload@[i]).trained_chara_id] == upload@[i].columns(),
{
    let all = crate::ingest::ids(upload@);
    crate::plan::law_store_mirrors_upload(plan, upload@, rows@);
    crate::plan::lemma_snapshot(upload@);
    assert forall|a: VeteranCharacter, b: VeteranCharacter| #[trigger]
        upload@.contains(a) && #[trigger] upload@.contains(b) && a.trained_chara_id
            == b.trained_chara_id implies a.columns() == b.columns() by {
        crate::plan::lemma_one_character_per_id(upload@, a, b);
    }
    assert forall|id: i64| all.contains(id) <==> is_uploaded(upload@, id) by {
        if all.contains(id) {
            assert(upload@[all.index_of(id)].trained_chara_id == id);
        }
        if is_uploaded(upload@, id) {
            let i = choose|i: int|
                0 <= i < upload@.len() && (#[trigger] upload@[i]).trained_chara_id == id;
            assert(all[i] == id);
        }
    }
    assert forall|i: int| 0 <= i < upload@.len() implies upload@.contains(#[trigger] upload@[i]) by {
    }
}

/// A plan is empty exactly where its response counts nothing, and then every uploaded
/// character is stored as it is and every stored id is uploaded.
pub proof fn law_empty_plan(
    upload: VeteranUpload,
    rows: Vec<VeteranCharacterRow>,
    plan: IngestPlan,
    r: bool,
)
    requires
        call_ensures(crate::plan::plan_ingest, (&upload, &rows), plan),
        call_ensures(IngestPlan::is_empty, (&plan,), r),
    ensures
        r <==> plan.to_insert@.len() == 0 && plan.to_update@.len() == 0 && plan.to_delete@.len()
            == 0,
        r <==> plan.response.inserted == 0 && plan.response.updated == 0 && plan.response.deleted
            == 0,
        r ==> forall|id: i64| #[trigger] is_stored(rows@, id) <==> is_uploaded(upload@, id),
        r ==> forall|i: int, p: int|
            0 <= i < upload@.len() && is_latest(rows@, p) && (
            #[trigger] rows@[p]).trained_chara_id == (#[trigger] upload@[i]).trained_chara_id
                ==> upload@[i].columns() == rows@[p].columns(),
{
    law_inserted_characters(upload, rows, plan);
    law_updated_characters(upload, rows, plan);
    law_deleted_ids(upload, rows, plan);
    if r {
        assert forall|id: i64| #[trigger] is_stored(rows@, id) <==> is_uploaded(upload@, id) by {
            assert(!plan.to_delete@.contains(id));
            if is_uploaded(upload@, id) {
                let i = choose|i: int|
                    0 <= i < upload@.len() && (#[trigger] upload@[i]).trained_chara_id == id;
                assert(!lists(plan.to_insert@, upload@[i]));
            }
        }
    }
}

} // verus!
