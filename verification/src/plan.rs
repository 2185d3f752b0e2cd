//! What an accepted upload changes in the rows that the store holds for an
//! account.

use std::collections::{HashMap, HashSet};

use vstd::prelude::*;

use crate::ingest::VeteranUpload;
use crate::models::{has_changed, IngestResponse, VeteranCharacter, VeteranCharacterRow};

verus! {

broadcast use vstd::std_specs::hash::group_hash_axioms;

/// The columns that the store holds for each id. Of two rows with one id the later
/// one counts.
pub open spec fn table(rows: Seq<VeteranCharacterRow>) -> Map<i64, crate::models::Columns>
    decreases rows.len(),
{
    if rows.len() == 0 {
        Map::empty()
    } else {
        table(rows.drop_last()).insert(rows.last().trained_chara_id, rows.last().columns())
    }
}

/// The columns that a list of characters gives for each id.
pub open spec fn snapshot(characters: Seq<VeteranCharacter>) -> Map<i64, crate::models::Columns>
    decreases characters.len(),
{
    if characters.len() == 0 {
        Map::empty()
    } else {
        snapshot(characters.drop_last()).insert(
            characters.last().trained_chara_id,
            characters.last().columns(),
        )
    }
}

/// Whether the store holds no row for a character yet.
pub open spec fn is_new(table: Map<i64, crate::models::Columns>, c: VeteranCharacter) -> bool {
    !table.contains_key(c.trained_chara_id)
}

/// Whether the store holds a row for a character that differs from it.
pub open spec fn is_changed(table: Map<i64, crate::models::Columns>, c: VeteranCharacter) -> bool {
    table.contains_key(c.trained_chara_id) && table[c.trained_chara_id] != c.columns()
}

/// The characters to insert, in the order of the upload.
pub open spec fn inserts(
    characters: Seq<VeteranCharacter>,
    table: Map<i64, crate::models::Columns>,
) -> Seq<VeteranCharacter> {
    characters.filter(|c: VeteranCharacter| is_new(table, c))
}

/// The characters to update, in the order of the upload.
pub open spec fn updates(
    characters: Seq<VeteranCharacter>,
    table: Map<i64, crate::models::Columns>,
) -> Seq<VeteranCharacter> {
    characters.filter(|c: VeteranCharacter| is_changed(table, c))
}

/// The ids to delete: those that the store holds and the upload does not.
pub open spec fn deletes(
    characters: Seq<VeteranCharacter>,
    table: Map<i64, crate::models::Columns>,
) -> Set<i64> {
    table.dom().difference(crate::ingest::ids(characters).to_set())
}

/// What an upload changes in the store, and the response once that is done.
#[derive(Debug)]
pub struct IngestPlan<'a> {
    pub to_insert: Vec<&'a VeteranCharacter>,
    pub to_delete: Vec<i64>,
    pub to_update: Vec<&'a VeteranCharacter>,
    pub response: IngestResponse,
}

impl<'a> IngestPlan<'a> {
    /// Whether the plan is the one for an upload and the rows of its account.
    pub open spec fn is_plan_for(
        self,
        characters: Seq<VeteranCharacter>,
        rows: Seq<VeteranCharacterRow>,
    ) -> bool {
        let table = table(rows);
        &&& self.to_insert@.unref() == inserts(characters, table)
        &&& self.to_update@.unref() == updates(characters, table)
        &&& self.to_delete@.no_duplicates()
        &&& self.to_delete@.to_set() == deletes(characters, table)
        &&& self.response.inserted == self.to_insert@.len()
        &&& self.response.updated == self.to_update@.len()
        &&& self.response.deleted == self.to_delete@.len()
        &&& self.response.total == table.dom().len() + self.to_insert@.len()
            - self.to_delete@.len()
    }

    /// What the store holds once the plan is carried out: the rows to delete are
    /// gone, and each inserted or updated row has the columns of its character.
    pub open spec fn applied(
        self,
        table: Map<i64, crate::models::Columns>,
    ) -> Map<i64, crate::models::Columns> {
        table.remove_keys(self.to_delete@.to_set()).union_prefer_right(
            snapshot(self.to_insert@.unref()),
        ).union_prefer_right(snapshot(self.to_update@.unref()))
    }

    /// Whether there is nothing to do.
    pub fn is_empty(&self) -> (r: bool)
        ensures
            r == (self.to_insert@.len() == 0 && self.to_delete@.len() == 0
                && self.to_update@.len() == 0),
    {
        self.to_insert.len() == 0 && self.to_delete.len() == 0 && self.to_update.len() == 0
    }
}

/// Whether a map gives for each stored id the place of the row that counts.
spec fn locates(
    latest: Map<i64, usize>,
    rows: Seq<VeteranCharacterRow>,
    n: int,
) -> bool {
    let table = table(rows.take(n));
    &&& latest.dom() =~= table.dom()
    &&& forall|id: i64| #[trigger]
        latest.contains_key(id) ==> latest[id] < n && rows[latest[id] as int].columns()
            == table[id]
}

/// Finds for each stored id the place of the row that counts.
fn locate_rows(rows: &Vec<VeteranCharacterRow>) -> (r: HashMap<i64, usize>)
    ensures
        locates(r@, rows@, rows@.len() as int),
{
    let mut latest: HashMap<i64, usize> = HashMap::new();
    let mut i: usize = 0;
    while i < rows.len()
        invariant
            i <= rows.len(),
            locates(latest@, rows@, i as int),
        decreases rows.len() - i,
    {
        assert(rows@.take(i + 1).drop_last() =~= rows@.take(i as int));
        latest.insert(rows[i].trained_chara_id, i);
        i = i + 1;
    }
    latest
}

/// Filtering one more element appends it where it passes.
proof fn lemma_filter_step<A>(s: Seq<A>, n: int, pred: spec_fn(A) -> bool)
    requires
        0 <= n < s.len(),
    ensures
        s.take(n + 1).filter(pred) == if pred(s[n]) {
            s.take(n).filter(pred).push(s[n])
        } else {
            s.take(n).filter(pred)
        },
{
    reveal(Seq::filter);
    assert(s.take(n + 1).drop_last() =~= s.take(n));
}

/// Collects the ids of a list of characters.
fn collect_ids(characters: &Vec<VeteranCharacter>) -> (r: HashSet<i64>)
    ensures
        r@ == crate::ingest::ids(characters@).to_set(),
{
    let mut found: HashSet<i64> = HashSet::with_capacity(characters.len());
    let ghost all = crate::ingest::ids(characters@);
    let mut i: usize = 0;
    while i < characters.len()
        invariant
            i <= characters.len(),
            all == crate::ingest::ids(characters@),
            forall|id: i64| #[trigger] found@.contains(id) <==> all.take(i as int).contains(id),
        decreases characters.len() - i,
    {
        let id: i64 = characters[i].trained_chara_id;
        found.insert(id);
        assert(all.take(i + 1) =~= all.take(i as int).push(id));
        assert forall|x: i64| #[trigger] found@.contains(x) implies all.take(i + 1).contains(x) by {
            if x == id {
                assert(all.take(i + 1)[i as int] == id);
            } else {
                let k = all.take(i as int).index_of(x);
                assert(all.take(i + 1)[k] == x);
            }
        }
        assert forall|x: i64| all.take(i + 1).contains(x) implies #[trigger] found@.contains(x) by {
            let k = all.take(i + 1).index_of(x);
            if k < i {
                assert(all.take(i as int)[k] == x);
            }
        }
        i = i + 1;
    }
    assert(all.take(i as int) =~= all);
    found
}

/// Collects the stored ids that the upload does not have, each one once.
fn collect_deletes(rows: &Vec<VeteranCharacterRow>, uploaded: &HashSet<i64>) -> (r: Vec<i64>)
    ensures
        r@.no_duplicates(),
        r@.len() <= rows@.len(),
        r@.to_set() == table(rows@).dom().difference(uploaded@),
{
    let mut gone: Vec<i64> = Vec::new();
    let mut seen: HashSet<i64> = HashSet::new();
    let mut i: usize = 0;
    while i < rows.len()
        invariant
            i <= rows.len(),
            gone@.len() <= i,
            gone@.no_duplicates(),
            forall|id: i64| #[trigger] seen@.contains(id) <==> gone@.contains(id),
            forall|id: i64| #[trigger]
                gone@.contains(id) <==> table(rows@.take(i as int)).contains_key(id)
                    && !uploaded@.contains(id),
        decreases rows.len() - i,
    {
        let ghost before = gone@;
        let id: i64 = rows[i].trained_chara_id;
        assert(rows@.take(i + 1).drop_last() =~= rows@.take(i as int));
        if !uploaded.contains(&id) {
            if seen.insert(id) {
                gone.push(id);
                assert forall|x: i64| #[trigger] gone@.contains(x) <==> (before.contains(x) || x
                    == id) by {
                    if before.contains(x) {
                        assert(gone@[before.index_of(x)] == x);
                    }
                    if x == id {
                        assert(gone@[before.len() as int] == x);
                    }
                }
            }
        }
        i = i + 1;
    }
    assert(rows@.take(i as int) =~= rows@);
    assert(gone@.to_set() =~= table(rows@).dom().difference(uploaded@));
    gone
}

/// Plans the ingest of an upload into the rows that its account has in the store.
pub fn plan_ingest<'a>(
    upload: &'a VeteranUpload,
    existing_rows: &Vec<VeteranCharacterRow>,
) -> (r: IngestPlan<'a>)
    requires
        existing_rows@.len() <= i64::MAX,
    ensures
        r.is_plan_for(upload@, existing_rows@),
        crate::ingest::acceptable(upload@),
{
    let characters = upload.characters();
    let latest = locate_rows(existing_rows);
    let ghost stored = table(existing_rows@);
    let ghost new = |c: VeteranCharacter| is_new(stored, c);
    let ghost changed = |c: VeteranCharacter| is_changed(stored, c);
    assert(existing_rows@.take(existing_rows@.len() as int) =~= existing_rows@);
    let uploaded = collect_ids(characters);
    let to_delete = collect_deletes(existing_rows, &uploaded);
    let mut to_insert: Vec<&'a VeteranCharacter> = Vec::new();
    let mut to_update: Vec<&'a VeteranCharacter> = Vec::new();
    assert(to_insert@.unref() =~= characters@.take(0).filter(new)) by {
        reveal(Seq::filter);
    }
    assert(to_update@.unref() =~= characters@.take(0).filter(changed)) by {
        reveal(Seq::filter);
    }
    let mut i: usize = 0;
    while i < characters.len()
        invariant
            i <= characters.len(),
            characters@.len() <= crate::ingest::MAX_VETERANS,
            stored == table(existing_rows@),
            existing_rows@.take(existing_rows@.len() as int) == existing_rows@,
            locates(latest@, existing_rows@, existing_rows@.len() as int),
            new == (|c: VeteranCharacter| is_new(stored, c)),
            changed == (|c: VeteranCharacter| is_changed(stored, c)),
            to_insert@.len() <= i,
            to_update@.len() <= i,
            to_insert@.unref() == characters@.take(i as int).filter(new),
            to_update@.unref() == characters@.take(i as int).filter(changed),
        decreases characters.len() - i,
    {
        let c: &'a VeteranCharacter = &characters[i];
        let ghost insert_before = to_insert@;
        let ghost update_before = to_update@;
        proof {
            lemma_filter_step(characters@, i as int, new);
            lemma_filter_step(characters@, i as int, changed);
        }
        match latest.get(&c.trained_chara_id) {
            None => {
                assert(new(*c) && !changed(*c));
                to_insert.push(c);
                assert(to_insert@.unref() =~= insert_before.unref().push(*c));
            },
            Some(at) => {
                assert(!new(*c));
                if has_changed(c, &existing_rows[*at]) {
                    to_update.push(c);
                    assert(to_update@.unref() =~= update_before.unref().push(*c));
                }
            },
        }
        i = i + 1;
    }
    assert(characters@.take(i as int) =~= characters@);
    proof {
        lemma_table_len(existing_rows@);
        to_delete@.unique_seq_to_set();
        vstd::set_lib::lemma_len_difference(stored.dom(), uploaded@);
        lemma_total(characters@, stored);
        assert(to_insert@.unref() == inserts(characters@, stored));
    }
    let inserted: i64 = to_insert.len() as i64;
    let updated: i64 = to_update.len() as i64;
    let deleted: i64 = to_delete.len() as i64;
    let total: i64 = (latest.len() as i64 - deleted) + inserted;
    IngestPlan {
        to_insert,
        to_delete,
        to_update,
        response: IngestResponse { inserted, updated, deleted, total },
    }
}

/// A store has at most as many ids as rows.
pub(crate) proof fn lemma_table_len(rows: Seq<VeteranCharacterRow>)
    ensures
        table(rows).dom().finite(),
        table(rows).dom().len() <= rows.len(),
    decreases rows.len(),
{
    if rows.len() > 0 {
        lemma_table_len(rows.drop_last());
    }
}

/// A selection from a list without repeated ids has none either.
pub(crate) proof fn lemma_filter_ids(characters: Seq<VeteranCharacter>, pred: spec_fn(VeteranCharacter) -> bool)
    requires
        crate::ingest::ids(characters).no_duplicates(),
    ensures
        crate::ingest::ids(characters.filter(pred)).no_duplicates(),
        forall|id: i64| #[trigger]
            crate::ingest::ids(characters.filter(pred)).contains(id) <==> exists|i: int|
                0 <= i < characters.len() && pred(characters[i])
                    && #[trigger] characters[i].trained_chara_id == id,
    decreases characters.len(),
{
    reveal(Seq::filter);
    if characters.len() > 0 {
        let front = characters.drop_last();
        let last = characters.last();
        assert forall|i: int, j: int|
            0 <= i < front.len() && 0 <= j < front.len() && i != j implies crate::ingest::ids(
            front,
        )[i] != crate::ingest::ids(front)[j] by {
            assert(crate::ingest::ids(characters)[i] != crate::ingest::ids(characters)[j]);
        }
        lemma_filter_ids(front, pred);
        let kept = crate::ingest::ids(front.filter(pred));
        let now = crate::ingest::ids(characters.filter(pred));
        assert(!kept.contains(last.trained_chara_id)) by {
            if kept.contains(last.trained_chara_id) {
                let i = choose|i: int|
                    0 <= i < front.len() && pred(front[i]) && #[trigger] front[i].trained_chara_id
                        == last.trained_chara_id;
                assert(crate::ingest::ids(characters)[i] == crate::ingest::ids(
                    characters,
                )[characters.len() - 1]);
            }
        }
        if pred(last) {
            assert(now =~= kept.push(last.trained_chara_id));
        } else {
            assert(now =~= kept);
        }
        assert forall|id: i64| #[trigger] now.contains(id) implies exists|i: int|
            0 <= i < characters.len() && pred(characters[i])
                && #[trigger] characters[i].trained_chara_id == id by {
            if kept.contains(id) {
                let i = choose|i: int|
                    0 <= i < front.len() && pred(front[i]) && #[trigger] front[i].trained_chara_id
                        == id;
                assert(characters[i].trained_chara_id == id);
            } else {
                let k = now.index_of(id);
                assert(k == kept.len()) by {
                    if k < kept.len() {
                        assert(kept[k] == id);
                    }
                }
                assert(characters[characters.len() - 1].trained_chara_id == id);
            }
        }
        assert forall|i: int|
            0 <= i < characters.len() && pred(characters[i]) implies now.contains(
            (#[trigger] characters[i]).trained_chara_id,
        ) by {
            let id = characters[i].trained_chara_id;
            if i < front.len() {
                assert(front[i].trained_chara_id == id);
                assert(kept.contains(id));
                assert(now[kept.index_of(id)] == id);
            } else {
                assert(now[kept.len() as int] == id);
            }
        }
    }
}

/// What is stored, less what is deleted, with what is inserted, comes to one row
/// for each character.
proof fn lemma_total(
    characters: Seq<VeteranCharacter>,
    table: Map<i64, crate::models::Columns>,
)
    requires
        crate::ingest::ids(characters).no_duplicates(),
        table.dom().finite(),
    ensures
        table.dom().len() + inserts(characters, table).len() - deletes(characters, table).len()
            == characters.len(),
{
    let all = crate::ingest::ids(characters);
    let uploaded = all.to_set();
    let new = |c: VeteranCharacter| is_new(table, c);
    let added = crate::ingest::ids(inserts(characters, table));
    all.unique_seq_to_set();
    lemma_filter_ids(characters, new);
    added.unique_seq_to_set();
    assert(added.to_set() =~= uploaded.difference(table.dom())) by {
        assert forall|id: i64| #[trigger] added.contains(id) implies uploaded.contains(id)
            && !table.contains_key(id) by {
            let i = choose|i: int|
                0 <= i < characters.len() && new(characters[i])
                    && #[trigger] characters[i].trained_chara_id == id;
            assert(all[i] == id);
        }
        assert forall|id: i64| uploaded.contains(id) && !table.contains_key(id) implies #[trigger]
            added.contains(id) by {
            let i = all.index_of(id);
            assert(characters[i].trained_chara_id == id);
        }
    }
    vstd::set_lib::lemma_set_difference_len(table.dom(), uploaded);
    vstd::set_lib::lemma_set_difference_len(uploaded, table.dom());
    assert(table.dom().intersect(uploaded) =~= uploaded.intersect(table.dom()));
    vstd::set_lib::lemma_set_intersect_union_lens(table.dom(), uploaded);
    assert(table.dom().union(uploaded) =~= uploaded.union(table.dom()));
}

/// A list gives an id exactly where a character has it, and gives it that
/// character's columns where no two characters of one id differ.
pub(crate) proof fn lemma_snapshot(characters: Seq<VeteranCharacter>)
    ensures
        forall|id: i64| #[trigger]
            snapshot(characters).contains_key(id) <==> crate::ingest::ids(characters).contains(id),
        (forall|a: VeteranCharacter, b: VeteranCharacter| #[trigger]
            characters.contains(a) && #[trigger] characters.contains(b) && a.trained_chara_id
                == b.trained_chara_id ==> a.columns() == b.columns()) ==> forall|
            c: VeteranCharacter,
        | #[trigger]
            characters.contains(c) ==> snapshot(characters)[c.trained_chara_id] == c.columns(),
    decreases characters.len(),
{
    if characters.len() > 0 {
        let front = characters.drop_last();
        let last = characters.last();
        lemma_snapshot(front);
        let all = crate::ingest::ids(characters);
        assert(all =~= crate::ingest::ids(front).push(last.trained_chara_id));
        assert forall|id: i64| all.contains(id) implies #[trigger] snapshot(
            characters,
        ).contains_key(id) by {
            let k = all.index_of(id);
            if k < front.len() {
                assert(crate::ingest::ids(front)[k] == id);
            }
        }
        assert forall|id: i64| #[trigger] snapshot(characters).contains_key(
            id,
        ) implies all.contains(id) by {
            if id == last.trained_chara_id {
                assert(all[front.len() as int] == id);
            } else {
                assert(all[crate::ingest::ids(front).index_of(id)] == id);
            }
        }
        assert(characters[front.len() as int] == last);
        assert(characters.contains(last));
        assert forall|c: VeteranCharacter| #[trigger] front.contains(c) implies characters.contains(
            c,
        ) by {
            assert(characters[front.index_of(c)] == c);
        }
        assert forall|c: VeteranCharacter| #[trigger] characters.contains(c) implies front.contains(
            c,
        ) || c == last by {
            let k = characters.index_of(c);
            if k < front.len() {
                assert(front[k] == c);
            }
        }
    }
}

/// In a list without repeated ids no two characters have one id.
pub(crate) proof fn lemma_one_character_per_id(
    characters: Seq<VeteranCharacter>,
    a: VeteranCharacter,
    b: VeteranCharacter,
)
    requires
        crate::ingest::ids(characters).no_duplicates(),
        characters.contains(a),
        characters.contains(b),
        a.trained_chara_id == b.trained_chara_id,
    ensures
        a == b,
{
    let i = characters.index_of(a);
    let j = characters.index_of(b);
    assert(crate::ingest::ids(characters)[i] == crate::ingest::ids(characters)[j]);
}

/// What a selection from a list without repeated ids gives.
proof fn lemma_snapshot_of_selection(
    characters: Seq<VeteranCharacter>,
    pred: spec_fn(VeteranCharacter) -> bool,
)
    requires
        crate::ingest::ids(characters).no_duplicates(),
    ensures
        forall|id: i64| #[trigger]
            snapshot(characters.filter(pred)).contains_key(id) ==> snapshot(
                characters,
            ).contains_key(id),
        forall|c: VeteranCharacter| #[trigger]
            characters.contains(c) ==> {
                &&& snapshot(characters)[c.trained_chara_id] == c.columns()
                &&& snapshot(characters).contains_key(c.trained_chara_id)
                &&& snapshot(characters.filter(pred)).contains_key(c.trained_chara_id) <==> pred(c)
                &&& pred(c) ==> snapshot(characters.filter(pred))[c.trained_chara_id]
                    == c.columns()
            },
{
    let kept = characters.filter(pred);
    lemma_snapshot(characters);
    lemma_snapshot(kept);
    lemma_filter_ids(characters, pred);
    assert forall|c: VeteranCharacter| #[trigger] kept.contains(c) implies characters.contains(c)
        && pred(c) by {
        let k = kept.index_of(c);
        characters.lemma_filter_pred(pred, k);
        characters.lemma_filter_contains_rev(pred, c);
    }
    assert forall|a: VeteranCharacter, b: VeteranCharacter| #[trigger]
        characters.contains(a) && #[trigger] characters.contains(b) && a.trained_chara_id
            == b.trained_chara_id implies a.columns() == b.columns() by {
        lemma_one_character_per_id(characters, a, b);
    }
    assert forall|c: VeteranCharacter| #[trigger] characters.contains(c) implies {
        &&& snapshot(characters).contains_key(c.trained_chara_id)
        &&& snapshot(kept).contains_key(c.trained_chara_id) <==> pred(c)
        &&& pred(c) ==> snapshot(kept)[c.trained_chara_id] == c.columns()
    } by {
        let at = characters.index_of(c);
        assert(crate::ingest::ids(characters)[at] == c.trained_chara_id);
        assert(characters[at].trained_chara_id == c.trained_chara_id);
        if pred(c) {
            characters.lemma_filter_contains(pred, at);
            assert(kept.contains(c));
        }
        if snapshot(kept).contains_key(c.trained_chara_id) {
            let i = choose|i: int|
                0 <= i < characters.len() && pred(characters[i])
                    && #[trigger] characters[i].trained_chara_id == c.trained_chara_id;
            assert(characters.contains(characters[i]));
            lemma_one_character_per_id(characters, c, characters[i]);
        }
    }
    assert forall|id: i64| #[trigger] snapshot(kept).contains_key(id) implies snapshot(
        characters,
    ).contains_key(id) by {
        let i = choose|i: int|
            0 <= i < characters.len() && pred(characters[i])
                && #[trigger] characters[i].trained_chara_id == id;
        assert(crate::ingest::ids(characters)[i] == id);
    }
}

/// Once its plan is carried out, the store holds exactly the upload: one row for
/// each character, every column as uploaded, and no other row.
pub proof fn law_store_mirrors_upload(
    plan: IngestPlan,
    characters: Seq<VeteranCharacter>,
    rows: Seq<VeteranCharacterRow>,
)
    requires
        crate::ingest::acceptable(characters),
        plan.is_plan_for(characters, rows),
    ensures
        plan.applied(table(rows)) == snapshot(characters),
{
    let stored = table(rows);
    let new = |c: VeteranCharacter| is_new(stored, c);
    let changed = |c: VeteranCharacter| is_changed(stored, c);
    lemma_snapshot(characters);
    lemma_snapshot_of_selection(characters, new);
    lemma_snapshot_of_selection(characters, changed);
    let all = crate::ingest::ids(characters);
    assert forall|id: i64| all.contains(id) implies exists|c: VeteranCharacter| #[trigger]
        characters.contains(c) && c.trained_chara_id == id by {
        assert(characters.contains(characters[all.index_of(id)]));
    }
    assert(plan.applied(stored) =~= snapshot(characters));
}

/// The total of a response is the length of the upload.
pub proof fn law_total_is_upload_length(
    plan: IngestPlan,
    characters: Seq<VeteranCharacter>,
    rows: Seq<VeteranCharacterRow>,
)
    requires
        crate::ingest::acceptable(characters),
        plan.is_plan_for(characters, rows),
    ensures
        plan.response.total == characters.len(),
{
    lemma_table_len(rows);
    lemma_total(characters, table(rows));
    plan.to_delete@.unique_seq_to_set();
    assert(plan.to_insert@.unref().len() == plan.to_insert@.len());
}

/// Ingesting a list again, once its plan is carried out, changes nothing.
pub proof fn law_second_ingest_changes_nothing(
    first: IngestPlan,
    second: IngestPlan,
    characters: Seq<VeteranCharacter>,
    rows: Seq<VeteranCharacterRow>,
    rows_after: Seq<VeteranCharacterRow>,
)
    requires
        crate::ingest::acceptable(characters),
        first.is_plan_for(characters, rows),
        table(rows_after) == first.applied(table(rows)),
        second.is_plan_for(characters, rows_after),
    ensures
        second.to_insert@.len() == 0,
        second.to_update@.len() == 0,
        second.to_delete@.len() == 0,
        second.response == (IngestResponse {
            inserted: 0,
            updated: 0,
            deleted: 0,
            total: characters.len() as i64,
        }),
{
    let stored = table(rows_after);
    let new = |c: VeteranCharacter| is_new(stored, c);
    let changed = |c: VeteranCharacter| is_changed(stored, c);
    law_store_mirrors_upload(first, characters, rows);
    law_total_is_upload_length(second, characters, rows_after);
    lemma_snapshot(characters);
    lemma_snapshot_of_selection(characters, new);
    assert(second.to_insert@.unref().len() == second.to_insert@.len());
    assert(second.to_update@.unref().len() == second.to_update@.len());
    if second.to_insert@.len() > 0 {
        let c = characters.filter(new)[0];
        characters.lemma_filter_pred(new, 0);
        characters.lemma_filter_contains_rev(new, c);
        assert(characters.contains(c));
    }
    if second.to_update@.len() > 0 {
        let c = characters.filter(changed)[0];
        characters.lemma_filter_pred(changed, 0);
        characters.lemma_filter_contains_rev(changed, c);
        assert(characters.contains(c));
    }
    if second.to_delete@.len() > 0 {
        let id = second.to_delete@[0];
        assert(second.to_delete@.to_set().contains(id));
        assert(crate::ingest::ids(characters).to_set().contains(id));
    }
}

/// A character whose row holds what was uploaded is left alone.
pub proof fn law_unchanged_row_is_left_alone(
    plan: IngestPlan,
    characters: Seq<VeteranCharacter>,
    rows: Seq<VeteranCharacterRow>,
    c: VeteranCharacter,
)
    requires
        crate::ingest::acceptable(characters),
        plan.is_plan_for(characters, rows),
        characters.contains(c),
        table(rows).contains_key(c.trained_chara_id),
        table(rows)[c.trained_chara_id] == c.columns(),
    ensures
        !crate::ingest::ids(plan.to_insert@.unref()).contains(c.trained_chara_id),
        !crate::ingest::ids(plan.to_update@.unref()).contains(c.trained_chara_id),
        !plan.to_delete@.contains(c.trained_chara_id),
{
    let stored = table(rows);
    let new = |x: VeteranCharacter| is_new(stored, x);
    let changed = |x: VeteranCharacter| is_changed(stored, x);
    lemma_snapshot_of_selection(characters, new);
    lemma_snapshot_of_selection(characters, changed);
    lemma_snapshot(characters.filter(new));
    lemma_snapshot(characters.filter(changed));
    let all = crate::ingest::ids(characters);
    assert(all[characters.index_of(c)] == c.trained_chara_id);
    assert(all.to_set().contains(c.trained_chara_id));
    if plan.to_delete@.contains(c.trained_chara_id) {
        assert(plan.to_delete@.to_set().contains(c.trained_chara_id));
    }
}

/// No row is touched twice: the ids to insert, to update and to delete are apart.
pub proof fn law_no_row_is_touched_twice(
    plan: IngestPlan,
    characters: Seq<VeteranCharacter>,
    rows: Seq<VeteranCharacterRow>,
    id: i64,
)
    requires
        crate::ingest::acceptable(characters),
        plan.is_plan_for(characters, rows),
    ensures
        crate::ingest::ids(plan.to_insert@.unref()).contains(id)
            ==> !crate::ingest::ids(plan.to_update@.unref()).contains(id)
            && !plan.to_delete@.contains(id),
        crate::ingest::ids(plan.to_update@.unref()).contains(id) ==> !plan.to_delete@.contains(id),
        crate::ingest::ids(plan.to_insert@.unref()).no_duplicates(),
        crate::ingest::ids(plan.to_update@.unref()).no_duplicates(),
        plan.to_delete@.no_duplicates(),
{
    let stored = table(rows);
    let new = |c: VeteranCharacter| is_new(stored, c);
    let changed = |c: VeteranCharacter| is_changed(stored, c);
    lemma_filter_ids(characters, new);
    lemma_filter_ids(characters, changed);
    let all = crate::ingest::ids(characters);
    assert forall|i: int| 0 <= i < characters.len() implies all.to_set().contains(
        (#[trigger] characters[i]).trained_chara_id,
    ) by {
        assert(all[i] == characters[i].trained_chara_id);
    }
    if plan.to_delete@.contains(id) {
        assert(plan.to_delete@.to_set().contains(id));
    }
}

/// The total of a response is the number of rows that the account has once the plan
/// is carried out, and an account never has more of them than it can have, nor none.
pub proof fn law_store_stays_within_the_limit(
    plan: IngestPlan,
    characters: Seq<VeteranCharacter>,
    rows: Seq<VeteranCharacterRow>,
)
    requires
        crate::ingest::acceptable(characters),
        plan.is_plan_for(characters, rows),
    ensures
        plan.applied(table(rows)).dom().len() == plan.response.total,
        0 < plan.response.total <= crate::ingest::MAX_VETERANS,
{
    let all = crate::ingest::ids(characters);
    law_store_mirrors_upload(plan, characters, rows);
    law_total_is_upload_length(plan, characters, rows);
    lemma_snapshot(characters);
    all.unique_seq_to_set();
    assert(snapshot(characters).dom() =~= all.to_set());
}

} // verus!
