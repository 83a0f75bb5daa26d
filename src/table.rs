use vstd::prelude::*;
use crate::todo::{Todo, TodoView, CreateTodo};

verus! {

/// The greatest id a store can hand out (ids are 32-bit serials).
pub const MAX_ID: i32 = 2147483647;

/// A failure of a repository operation.
#[derive(Debug, Clone)]
pub enum RepoError {
    /// No row has the given id.
    NotFound(i32),
    /// The id sequence has no value left to hand out.
    IdsExhausted,
    /// The backing database failed; the text describes why.
    Database(String),
}

/// The abstract state of a todo table: its rows, in insertion order, and
/// the last id the serial sequence issued.
pub struct TableModel {
    pub rows: Seq<TodoView>,
    pub issued: int,
}

impl TableModel {
    /// Ids are positive, never above the last issued one, and increase
    /// along the rows (so no two rows share an id).
    pub open spec fn wf(self) -> bool {
        &&& 0 <= self.issued <= MAX_ID as int
        &&& forall|i: int|
            0 <= i < self.rows.len() ==> 1 <= #[trigger] self.rows[i].id <= self.issued
        &&& forall|i: int, j: int|
            0 <= i < j < self.rows.len() ==> #[trigger] self.rows[i].id
                < #[trigger] self.rows[j].id
    }

    pub open spec fn has_id(self, id: int) -> bool {
        exists|i: int| 0 <= i < self.rows.len() && #[trigger] self.rows[i].id == id
    }

    /// The position of the row with the given id.
    pub open spec fn index_of(self, id: int) -> int {
        choose|i: int| 0 <= i < self.rows.len() && #[trigger] self.rows[i].id == id
    }

    /// Creating a row: the next serial value becomes its id and it is
    /// appended to the table. Yields the new table and the new row.
    pub open spec fn spec_create(self, title: Seq<char>, completed: bool) -> (TableModel, TodoView) {
        let t = TodoView { id: self.issued + 1, title, completed };
        (TableModel { rows: self.rows.push(t), issued: self.issued + 1 }, t)
    }

    /// Toggling the row with the given id: its completion flag is flipped.
    /// Yields the new table and the updated row.
    pub open spec fn spec_toggle(self, id: int) -> (TableModel, TodoView) {
        let i = self.index_of(id);
        let old_row = self.rows[i];
        let t = TodoView { id: old_row.id, title: old_row.title, completed: !old_row.completed };
        (TableModel { rows: self.rows.update(i, t), issued: self.issued }, t)
    }

    /// The table after creating one row for each (title, completed) pair, in order.
    pub open spec fn create_all(self, reqs: Seq<(Seq<char>, bool)>) -> TableModel
        decreases reqs.len(),
    {
        if reqs.len() == 0 {
            self
        } else {
            let last = reqs.last();
            self.create_all(reqs.drop_last()).spec_create(last.0, last.1).0
        }
    }
}

/// Creating a todo yields a row that carries the given title and completion
/// flag, whose id no row of the table had before, and that the table then holds.
pub proof fn lemma_create_fresh(m: TableModel, title: Seq<char>, completed: bool)
    requires
        m.wf(),
        m.issued < MAX_ID as int,
    ensures
        m.spec_create(title, completed).1.title == title,
        m.spec_create(title, completed).1.completed == completed,
        !m.has_id(m.spec_create(title, completed).1.id),
        m.spec_create(title, completed).0.wf(),
        m.spec_create(title, completed).0.has_id(m.spec_create(title, completed).1.id),
{
    let (m2, t) = m.spec_create(title, completed);
    assert(m2.rows[m.rows.len() as int] == t);
}

/// After creating todos one by one, the table lists every earlier row,
/// followed by one row per request, in order, carrying that request's title
/// and flag; all ids are distinct. From an empty table exactly the created
/// rows are listed.
pub proof fn lemma_creates_listed(m: TableModel, reqs: Seq<(Seq<char>, bool)>)
    requires
        m.wf(),
        m.issued + reqs.len() <= MAX_ID as int,
    ensures
        m.create_all(reqs).wf(),
        m.create_all(reqs).rows.len() == m.rows.len() + reqs.len(),
        m.create_all(reqs).issued == m.issued + reqs.len(),
        m.create_all(reqs).rows.subrange(0, m.rows.len() as int) == m.rows,
        forall|k: int|
            0 <= k < reqs.len() ==> {
                let t = #[trigger] m.create_all(reqs).rows[m.rows.len() + k];
                t.title == reqs[k].0 && t.completed == reqs[k].1 && t.id == m.issued + 1 + k
            },
        forall|i: int, j: int|
            0 <= i < j < m.create_all(reqs).rows.len() ==> #[trigger] m.create_all(reqs).rows[i].id
                != #[trigger] m.create_all(reqs).rows[j].id,
    decreases reqs.len(),
{
    if reqs.len() > 0 {
        let prev = reqs.drop_last();
        lemma_creates_listed(m, prev);
        let p = m.create_all(prev);
        let last = reqs.last();
        lemma_create_fresh(p, last.0, last.1);
        let r = m.create_all(reqs);
        assert(r == p.spec_create(last.0, last.1).0);
        assert(r.rows.subrange(0, m.rows.len() as int) =~= m.rows) by {
            assert(p.rows.subrange(0, m.rows.len() as int) == m.rows);
        }
        assert forall|k: int| 0 <= k < reqs.len() implies {
            let t = #[trigger] r.rows[m.rows.len() + k];
            t.title == reqs[k].0 && t.completed == reqs[k].1 && t.id == m.issued + 1 + k
        } by {
            if k < prev.len() {
                assert(r.rows[m.rows.len() + k] == p.rows[m.rows.len() + k]);
                assert(prev[k] == reqs[k]);
            } else {
                assert(r.rows[m.rows.len() + k] == p.spec_create(last.0, last.1).1);
            }
        }
    }
}

/// Toggling the same todo twice gives back the table it started from, and
/// the second toggle returns the row as it was at first.
pub proof fn lemma_toggle_twice(m: TableModel, id: int)
    requires
        m.wf(),
        m.has_id(id),
    ensures
        m.spec_toggle(id).0.wf(),
        m.spec_toggle(id).0.has_id(id),
        m.spec_toggle(id).0.spec_toggle(id).0 == m,
        m.spec_toggle(id).0.spec_toggle(id).1 == m.rows[m.index_of(id)],
{
    lemma_toggle_wf(m, id);
    let i = m.index_of(id);
    let (m1, t1) = m.spec_toggle(id);
    assert(m1.rows[i] == t1);
    let j = m1.index_of(id);
    lemma_unique_index(m1, id, i);
    assert(j == i);
    let (m2, t2) = m1.spec_toggle(id);
    assert(m2.rows =~= m.rows);
}

/// Toggling keeps the table well formed and keeps the row's id.
pub proof fn lemma_toggle_wf(m: TableModel, id: int)
    requires
        m.wf(),
        m.has_id(id),
    ensures
        m.spec_toggle(id).0.wf(),
        m.spec_toggle(id).0.has_id(id),
        m.spec_toggle(id).1.id == id,
        m.spec_toggle(id).0.rows.len() == m.rows.len(),
{
    let i = m.index_of(id);
    let (m1, t1) = m.spec_toggle(id);
    assert(0 <= i < m.rows.len() && m.rows[i].id == id);
    assert(m1.rows[i] == t1);
    assert(m1.rows[i].id == id);
    assert forall|a: int| 0 <= a < m1.rows.len() implies #[trigger] m1.rows[a].id == m.rows[a].id by {
    }
    assert forall|a: int, b: int| 0 <= a < b < m1.rows.len() implies #[trigger] m1.rows[a].id
        < #[trigger] m1.rows[b].id by {
        assert(m1.rows[a].id == m.rows[a].id);
        assert(m1.rows[b].id == m.rows[b].id);
    }
}

/// In a well-formed table the row with a given id sits at exactly one position.
pub proof fn lemma_unique_index(m: TableModel, id: int, i: int)
    requires
        m.wf(),
        0 <= i < m.rows.len(),
        m.rows[i].id == id,
    ensures
        m.index_of(id) == i,
{
    assert(m.has_id(id));
    let j = m.index_of(id);
    if j < i {
        assert(m.rows[j].id < m.rows[i].id);
    } else if j > i {
        assert(m.rows[i].id < m.rows[j].id);
    }
}

pub open spec fn views_of(rows: Seq<Todo>) -> Seq<TodoView> {
    rows.map_values(|t: Todo| t@)
}

/// A repository of todos held in memory, with the same create, list and
/// toggle operations as the database-backed one.
pub struct TodoTable {
    rows: Vec<Todo>,
    issued: i32,
}

impl View for TodoTable {
    type V = TableModel;

    closed spec fn view(&self) -> TableModel {
        TableModel { rows: views_of(self.rows@), issued: self.issued as int }
    }
}

impl TodoTable {
    pub open spec fn wf(&self) -> bool {
        self@.wf()
    }

    /// An empty table whose serial sequence has issued nothing yet.
    pub fn new() -> (r: TodoTable)
        ensures
            r.wf(),
            r@.rows.len() == 0,
            r@.issued == 0,
    {
        TodoTable { rows: Vec::new(), issued: 0 }
    }

    /// Inserts one row and returns it as stored, with its new id.
    pub fn create(&mut self, req: CreateTodo) -> (r: Result<Todo, RepoError>)
        requires
            old(self).wf(),
        ensures
            final(self).wf(),
            old(self)@.issued < MAX_ID ==> (r matches Ok(t) && (final(self)@, t@)
                == old(self)@.spec_create(req.title@, req.initial_completed())
                && req.is_realized_by(t@)),
            old(self)@.issued == MAX_ID ==> (r matches Err(RepoError::IdsExhausted)
                && final(self)@ == old(self)@),
    {
        if self.issued == MAX_ID {
            return Err(RepoError::IdsExhausted);
        }
        let completed = match req.completed {
            Some(c) => c,
            None => false,
        };
        let t = Todo { id: self.issued + 1, title: req.title, completed };
        let ghost before = self@;
        self.rows.push(t.duplicate());
        self.issued = self.issued + 1;
        assert(self@.rows =~= before.rows.push(t@));
        Ok(t)
    }

    /// Every row currently in the table, in insertion order.
    pub fn list(&self) -> (r: Vec<Todo>)
        ensures
            views_of(r@) == self@.rows,
    {
        let mut out: Vec<Todo> = Vec::new();
        let mut i: usize = 0;
        while i < self.rows.len()
            invariant
                i <= self.rows@.len(),
                views_of(out@) =~= views_of(self.rows@).subrange(0, i as int),
            decreases self.rows@.len() - i,
        {
            let ghost before = out@;
            out.push(self.rows[i].duplicate());
            assert(views_of(out@) =~= views_of(before).push(self.rows@[i as int]@));
            i = i + 1;
        }
        assert(views_of(self.rows@).subrange(0, i as int) =~= views_of(self.rows@));
        out
    }

    fn position_of(&self, id: i32) -> (r: Option<usize>)
        requires
            self.wf(),
        ensures
            r matches Some(i) ==> i == self@.index_of(id as int) && i < self@.rows.len(),
            r is None <==> !self@.has_id(id as int),
    {
        let mut i: usize = 0;
        while i < self.rows.len()
            invariant
                self.wf(),
                i <= self.rows@.len(),
                forall|k: int| 0 <= k < i ==> #[trigger] self@.rows[k].id != id as int,
            decreases self.rows@.len() - i,
        {
            if self.rows[i].id == id {
                assert(self@.rows[i as int].id == id as int);
                proof {
                    lemma_unique_index(self@, id as int, i as int);
                }
                return Some(i);
            }
            i = i + 1;
        }
        None
    }

    /// Flips the completion flag of the row with the given id and returns the
    /// updated row; a missing id is reported, and nothing changes.
    pub fn toggle(&mut self, id: i32) -> (r: Result<Todo, RepoError>)
        requires
            old(self).wf(),
        ensures
            final(self).wf(),
            old(self)@.has_id(id as int) ==> (r matches Ok(t) && (final(self)@, t@)
                == old(self)@.spec_toggle(id as int)),
            !old(self)@.has_id(id as int) ==> (r matches Err(RepoError::NotFound(n)) && n
                == id && final(self)@ == old(self)@),
    {
        match self.position_of(id) {
            None => Err(RepoError::NotFound(id)),
            Some(i) => {
                let ghost before = self@;
                let row = &self.rows[i];
                let t = Todo { id: row.id, title: row.title.clone(), completed: !row.completed };
                self.rows.set(i, t.duplicate());
                assert(self@.rows =~= before.rows.update(i as int, t@));
                Ok(t)
            },
        }
    }
}

} // verus!
