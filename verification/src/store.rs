//! The table of jokes: its mathematical model, and the table itself.

use vstd::prelude::*;
use crate::models::{views, Joke, JokeView};

verus! {

/// What a table is, mathematically: its rows in the order in which they were
/// stored, and the last identifier that it has ever given out (0 where a new
/// table has given none).
pub struct TableView {
    pub rows: Seq<JokeView>,
    pub last_id: int,
}

impl TableView {
    /// The table that has never held a row.
    pub open spec fn empty() -> TableView {
        TableView { rows: Seq::empty(), last_id: 0 }
    }

    /// The invariant of a table: every identifier in it was given out by it,
    /// and the rows stand in the order of their identifiers, so that no
    /// identifier occurs twice.
    pub open spec fn wf(self) -> bool {
        &&& forall|i: int| 0 <= i < self.rows.len() ==> (#[trigger] self.rows[i]).id
                <= self.last_id
        &&& forall|i: int, j: int|
            0 <= i < j < self.rows.len() ==> (#[trigger] self.rows[i]).id < (
            #[trigger] self.rows[j]).id
    }

    /// The identifier that the next row gets.
    pub open spec fn next_id(self) -> int {
        self.last_id + 1
    }

    /// Whether the next identifier still fits a record.
    pub open spec fn has_room(self) -> bool {
        self.last_id < i32::MAX
    }

    /// Whether a row has the identifier.
    pub open spec fn contains_id(self, id: int) -> bool {
        exists|i: int| 0 <= i < self.rows.len() && (#[trigger] self.rows[i]).id == id
    }

    /// Where the row with the identifier stands, if there is one.
    pub open spec fn position(self, id: int) -> int {
        choose|i: int| 0 <= i < self.rows.len() && (#[trigger] self.rows[i]).id == id
    }

    /// The table after a row with the given text was stored: the row stands
    /// last and has the next identifier.
    pub open spec fn insert(self, url: Seq<char>) -> TableView {
        TableView {
            rows: self.rows.push(JokeView { id: self.next_id(), url }),
            last_id: self.next_id(),
        }
    }

    /// The row with the identifier, or none.
    pub open spec fn find_by_id(self, id: int) -> Option<JokeView> {
        if self.contains_id(id) {
            Some(self.rows[self.position(id)])
        } else {
            None
        }
    }

    /// The table after the row with the identifier was removed, if there was
    /// one. The identifier is not given out again.
    pub open spec fn delete_by_id(self, id: int) -> TableView {
        if self.contains_id(id) {
            TableView { rows: self.rows.remove(self.position(id)), last_id: self.last_id }
        } else {
            self
        }
    }

    /// The table after every row was removed. No identifier is given out
    /// again.
    pub open spec fn delete_all(self) -> TableView {
        TableView { rows: Seq::empty(), last_id: self.last_id }
    }

    /// The table after one change.
    pub open spec fn step(self, change: Change) -> TableView {
        match change {
            Change::Insert(url) => self.insert(url),
            Change::DeleteById(id) => self.delete_by_id(id),
            Change::DeleteAll => self.delete_all(),
        }
    }

    /// The table after a sequence of changes, the first of them first.
    pub open spec fn run(self, changes: Seq<Change>) -> TableView
        decreases changes.len(),
    {
        if changes.len() == 0 {
            self
        } else {
            self.run(changes.drop_last()).step(changes.last())
        }
    }

    /// The identifiers that the table gives out in the course of a sequence
    /// of changes, one for each row that is stored, in the order in which
    /// they are given.
    pub open spec fn given(self, changes: Seq<Change>) -> Seq<int>
        decreases changes.len(),
    {
        if changes.len() == 0 {
            Seq::empty()
        } else {
            let before = self.given(changes.drop_last());
            match changes.last() {
                Change::Insert(_) => before.push(self.run(changes.drop_last()).next_id()),
                _ => before,
            }
        }
    }

    /// The table after a row was stored for each text, the first of them
    /// first.
    pub open spec fn insert_all(self, urls: Seq<Seq<char>>) -> TableView
        decreases urls.len(),
    {
        if urls.len() == 0 {
            self
        } else {
            self.insert_all(urls.drop_last()).insert(urls.last())
        }
    }
}

/// A change to a table. Reading changes nothing, and so is none.
pub enum Change {
    Insert(Seq<char>),
    DeleteById(int),
    DeleteAll,
}

/// In a well-formed table a row with a given identifier stands at one place
/// only: wherever such a row is seen, that is its position.
pub proof fn lemma_position_is_unique(t: TableView, id: int, i: int)
    requires
        t.wf(),
        0 <= i < t.rows.len(),
        t.rows[i].id == id,
    ensures
        t.contains_id(id),
        t.position(id) == i,
        t.find_by_id(id) == Some(t.rows[i]),
{
    let p = t.position(id);
    assert(0 <= p < t.rows.len() && t.rows[p].id == id);
    if p < i {
        assert(t.rows[p].id < t.rows[i].id);
    } else if i < p {
        assert(t.rows[i].id < t.rows[p].id);
    }
}

/// Storing a row keeps a table well formed.
pub proof fn lemma_insert_keeps_wf(t: TableView, url: Seq<char>)
    requires
        t.wf(),
    ensures
        t.insert(url).wf(),
        t.insert(url).rows.len() == t.rows.len() + 1,
{
    let after = t.insert(url);
    assert forall|i: int| 0 <= i < after.rows.len() implies (#[trigger] after.rows[i]).id
        <= after.last_id by {
        if i < t.rows.len() {
            assert(after.rows[i] == t.rows[i]);
        }
    }
    assert forall|i: int, j: int| 0 <= i < j < after.rows.len() implies (
    #[trigger] after.rows[i]).id < (#[trigger] after.rows[j]).id by {
        assert(after.rows[i] == t.rows[i]);
        if j < t.rows.len() {
            assert(after.rows[j] == t.rows[j]);
        }
    }
}

/// Removing a row by its identifier keeps a table well formed, and removes
/// one row where a row had the identifier and none where no row did.
pub proof fn lemma_delete_by_id_keeps_wf(t: TableView, id: int)
    requires
        t.wf(),
    ensures
        t.delete_by_id(id).wf(),
        t.delete_by_id(id).rows.len() == t.rows.len() - (if t.contains_id(id) {
            1int
        } else {
            0int
        }),
{
    if t.contains_id(id) {
        let p = t.position(id);
        let after = t.delete_by_id(id);
        assert forall|i: int| 0 <= i < after.rows.len() implies (#[trigger] after.rows[i]).id
            <= after.last_id by {
            if i < p {
                assert(after.rows[i] == t.rows[i]);
            } else {
                assert(after.rows[i] == t.rows[i + 1]);
            }
        }
        assert forall|i: int, j: int| 0 <= i < j < after.rows.len() implies (
        #[trigger] after.rows[i]).id < (#[trigger] after.rows[j]).id by {
            let si = if i < p { i } else { i + 1 };
            let sj = if j < p { j } else { j + 1 };
            assert(after.rows[i] == t.rows[si]);
            assert(after.rows[j] == t.rows[sj]);
            assert(t.rows[si].id < t.rows[sj].id);
        }
    }
}

/// Removing every row keeps a table well formed.
pub proof fn lemma_delete_all_keeps_wf(t: TableView)
    requires
        t.wf(),
    ensures
        t.delete_all().wf(),
{
}

/// No two rows of a well-formed table have the same identifier.
pub proof fn lemma_identifiers_are_distinct(t: TableView, i: int, j: int)
    requires
        t.wf(),
        0 <= i < t.rows.len(),
        0 <= j < t.rows.len(),
        i != j,
    ensures
        t.rows[i].id != t.rows[j].id,
{
    if i < j {
        assert(t.rows[i].id < t.rows[j].id);
    } else {
        assert(t.rows[j].id < t.rows[i].id);
    }
}

/// Whatever changes are made to a table, it stays well formed, and the last
/// identifier that it has given out never goes down.
pub proof fn lemma_run_keeps_wf(t: TableView, changes: Seq<Change>)
    requires
        t.wf(),
    ensures
        t.run(changes).wf(),
        t.run(changes).last_id >= t.last_id,
    decreases changes.len(),
{
    if changes.len() > 0 {
        let before = t.run(changes.drop_last());
        lemma_run_keeps_wf(t, changes.drop_last());
        match changes.last() {
            Change::Insert(url) => lemma_insert_keeps_wf(before, url),
            Change::DeleteById(id) => lemma_delete_by_id_keeps_wf(before, id),
            Change::DeleteAll => lemma_delete_all_keeps_wf(before),
        }
    }
}

/// An identifier is given out once in the lifetime of a table: the
/// identifier that a stored row gets is the identifier of no row that the
/// table holds then, and whatever changes follow, removals among them, the
/// next row to be stored gets a greater one.
pub proof fn lemma_identifiers_are_never_reused(
    t: TableView,
    url: Seq<char>,
    later: Seq<Change>,
)
    requires
        t.wf(),
    ensures
        !t.contains_id(t.next_id()),
        t.insert(url).run(later).next_id() > t.next_id(),
        !t.insert(url).run(later).contains_id(t.insert(url).run(later).next_id()),
{
    lemma_insert_keeps_wf(t, url);
    lemma_run_keeps_wf(t.insert(url), later);
    assert(t.insert(url).last_id == t.next_id());
}

/// The identifiers that a table gives out in its lifetime are all different:
/// whatever changes are made, removals among them, each row that is stored
/// gets an identifier greater than every one given out before, in the course
/// of these changes and before them.
pub proof fn lemma_given_identifiers_increase(t: TableView, changes: Seq<Change>)
    requires
        t.wf(),
    ensures
        forall|k: int|
            0 <= k < t.given(changes).len() ==> t.last_id < (#[trigger] t.given(changes)[k])
                <= t.run(changes).last_id,
        forall|i: int, j: int|
            0 <= i < j < t.given(changes).len() ==> (#[trigger] t.given(changes)[i]) < (
            #[trigger] t.given(changes)[j]),
    decreases changes.len(),
{
    if changes.len() > 0 {
        let earlier = changes.drop_last();
        lemma_given_identifiers_increase(t, earlier);
        lemma_run_keeps_wf(t, earlier);
        lemma_run_keeps_wf(t, changes);
        let before = t.given(earlier);
        let all = t.given(changes);
        match changes.last() {
            Change::Insert(url) => {
                assert(all == before.push(t.run(earlier).next_id()));
                assert forall|k: int| 0 <= k < all.len() implies t.last_id < (#[trigger] all[k])
                    <= t.run(changes).last_id by {
                    if k < before.len() {
                        assert(all[k] == before[k]);
                    }
                }
                assert forall|i: int, j: int| 0 <= i < j < all.len() implies (#[trigger] all[i]) < (
                #[trigger] all[j]) by {
                    assert(all[i] == before[i]);
                    if j < before.len() {
                        assert(all[j] == before[j]);
                    }
                }
            },
            _ => {
                assert(all == before);
            },
        }
    }
}

/// A row that was stored is found by the identifier that it got, with the
/// text that was given.
pub proof fn lemma_find_after_insert(t: TableView, url: Seq<char>)
    requires
        t.wf(),
    ensures
        t.insert(url).find_by_id(t.next_id()) == Some(JokeView { id: t.next_id(), url }),
{
    lemma_insert_keeps_wf(t, url);
    let after = t.insert(url);
    assert(after.rows[t.rows.len() as int] == JokeView { id: t.next_id(), url });
    lemma_position_is_unique(after, t.next_id(), t.rows.len() as int);
}

/// Storing a row changes what is found under no other identifier.
pub proof fn lemma_insert_keeps_other_rows(t: TableView, url: Seq<char>, id: int)
    requires
        t.wf(),
        id != t.next_id(),
    ensures
        t.insert(url).find_by_id(id) == t.find_by_id(id),
{
    lemma_insert_keeps_wf(t, url);
    let after = t.insert(url);
    if t.contains_id(id) {
        let p = t.position(id);
        assert(after.rows[p] == t.rows[p]);
        lemma_position_is_unique(after, id, p);
    } else if after.contains_id(id) {
        let q = after.position(id);
        assert(q < t.rows.len());
        assert(after.rows[q] == t.rows[q]);
        assert(t.contains_id(id));
    }
}

/// Removing by an identifier that no row has changes nothing.
pub proof fn lemma_delete_absent_changes_nothing(t: TableView, id: int)
    requires
        !t.contains_id(id),
    ensures
        t.delete_by_id(id) == t,
        t.find_by_id(id) is None,
{
}

/// After a removal by an identifier no row has it, and what is found under
/// every other identifier is what was found before.
pub proof fn lemma_find_after_delete(t: TableView, id: int, other: int)
    requires
        t.wf(),
    ensures
        t.delete_by_id(id).find_by_id(id) is None,
        other != id ==> t.delete_by_id(id).find_by_id(other) == t.find_by_id(other),
{
    lemma_delete_by_id_keeps_wf(t, id);
    let after = t.delete_by_id(id);
    if t.contains_id(id) {
        let p = t.position(id);
        if after.contains_id(id) {
            let q = after.position(id);
            let sq = if q < p { q } else { q + 1 };
            assert(after.rows[q] == t.rows[sq]);
            lemma_identifiers_are_distinct(t, sq, p);
        }
        if other != id {
            if t.contains_id(other) {
                let o = t.position(other);
                let ao = if o < p { o } else { o - 1 };
                assert(after.rows[ao] == t.rows[o]);
                lemma_position_is_unique(after, other, ao);
            } else if after.contains_id(other) {
                let q = after.position(other);
                let sq = if q < p { q } else { q + 1 };
                assert(after.rows[q] == t.rows[sq]);
                assert(t.contains_id(other));
            }
        }
    }
}

/// After every row was removed the table lists nothing and finds nothing,
/// whatever it held before.
pub proof fn lemma_delete_all_leaves_nothing(t: TableView, id: int)
    ensures
        t.delete_all().rows == Seq::<JokeView>::empty(),
        t.delete_all().find_by_id(id) is None,
{
}

/// Storing a row for each of a number of texts, in whatever order they come,
/// adds that many rows, each with an identifier of its own: the rows that
/// were there stay in their places, and the row for the text at place `k`
/// gets the `k`-th identifier after the last one that was given out before.
pub proof fn lemma_insert_all(t: TableView, urls: Seq<Seq<char>>)
    requires
        t.wf(),
    ensures
        t.insert_all(urls).wf(),
        t.insert_all(urls).rows.len() == t.rows.len() + urls.len(),
        t.insert_all(urls).last_id == t.last_id + urls.len(),
        forall|i: int| 0 <= i < t.rows.len() ==> (#[trigger] t.insert_all(urls).rows[i]) == t.rows[i],
        forall|k: int|
            0 <= k < urls.len() ==> (#[trigger] t.insert_all(urls).rows[t.rows.len() + k]) == (
            JokeView { id: t.last_id + 1 + k, url: urls[k] }),
    decreases urls.len(),
{
    if urls.len() > 0 {
        let before = t.insert_all(urls.drop_last());
        lemma_insert_all(t, urls.drop_last());
        lemma_insert_keeps_wf(before, urls.last());
        let after = t.insert_all(urls);
        assert forall|i: int| 0 <= i < t.rows.len() implies (#[trigger] after.rows[i])
            == t.rows[i] by {
            assert(after.rows[i] == before.rows[i]);
        }
        assert forall|k: int| 0 <= k < urls.len() implies (#[trigger] after.rows[t.rows.len() + k])
            == (JokeView { id: t.last_id + 1 + k, url: urls[k] }) by {
            if k < urls.len() - 1 {
                assert(after.rows[t.rows.len() + k] == before.rows[t.rows.len() + k]);
                assert(urls.drop_last()[k] == urls[k]);
            }
        }
    }
}

/// A table in memory, which holds the jokes as the persisted table does: a
/// row gets the next identifier when it is stored, and an identifier is
/// never given out twice, whatever is removed in between.
pub struct Table {
    pub(crate) rows: Vec<Joke>,
    pub(crate) last_id: i32,
}

impl View for Table {
    type V = TableView;

    open(crate) spec fn view(&self) -> TableView {
        TableView { rows: views(self.rows@), last_id: self.last_id as int }
    }
}

impl Table {
    /// A table that has never held a row.
    pub fn new() -> (table: Table)
        ensures
            table@ == TableView::empty(),
            table@.wf(),
    {
        let table = Table { rows: Vec::new(), last_id: 0 };
        proof {
            assert(table@.rows =~= Seq::empty());
        }
        table
    }

    /// An empty table that has given out identifiers before, the last of
    /// them `last_id`: the next row gets the identifier after it.
    pub fn resumed(last_id: i32) -> (table: Table)
        ensures
            table@ == (TableView { rows: Seq::empty(), last_id: last_id as int }),
            table@.wf(),
    {
        let table = Table { rows: Vec::new(), last_id };
        proof {
            assert(table@.rows =~= Seq::empty());
        }
        table
    }

    /// The number of rows.
    pub fn len(&self) -> (n: usize)
        ensures
            n == self@.rows.len(),
    {
        self.rows.len()
    }
}

} // verus!
