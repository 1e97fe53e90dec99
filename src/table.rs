use vstd::prelude::*;
use crate::error::RepoError;

verus! {

/// A row type of a table: it has a string primary key and can be copied.
pub trait Record: Sized {
    /// The primary key of the row.
    spec fn key(&self) -> Seq<char>;

    fn id(&self) -> (r: &String)
        ensures
            r@ == self.key(),
    ;

    fn duplicate(&self) -> (r: Self)
        ensures
            r == *self,
    ;
}

/// A filter over rows of type `E`: a conjunction of optional predicates.
pub trait RowFilter<E> {
    /// Whether the row meets every predicate that the filter holds.
    spec fn selects(&self, row: E) -> bool;

    /// Whether the filter holds at least one predicate.
    spec fn constrains(&self) -> bool;

    fn matches(&self, row: &E) -> (r: bool)
        ensures
            r == self.selects(*row),
    ;

    fn is_unconstrained(&self) -> (r: bool)
        ensures
            r == !self.constrains(),
    ;
}

/// A change to the row with a given primary key.
pub trait RowUpdate<E: Record> {
    /// The primary key of the row to change.
    spec fn target(&self) -> Seq<char>;

    /// The row after the change.
    spec fn applied(&self, row: E) -> E;

    fn target_id(&self) -> (r: &String)
        ensures
            r@ == self.target(),
    ;

    fn apply(&self, row: &E) -> (r: E)
        ensures
            r == self.applied(*row),
            r.key() == row.key(),
    ;
}

/// Some row of `rows` has primary key `k`.
pub open spec fn has_key<E: Record>(rows: Seq<E>, k: Seq<char>) -> bool {
    exists|i: int| 0 <= i < rows.len() && #[trigger] rows[i].key() == k
}

/// No two rows of `rows` share a primary key.
pub open spec fn keys_unique<E: Record>(rows: Seq<E>) -> bool {
    forall|i: int, j: int|
        0 <= i < rows.len() && 0 <= j < rows.len() && i != j ==> #[trigger] rows[i].key()
            != #[trigger] rows[j].key()
}

/// A batch clashes with stored rows when one of its keys is already stored,
/// or when two of its rows share a key.
pub open spec fn batch_clashes<E: Record>(rows: Seq<E>, batch: Seq<E>) -> bool {
    (exists|i: int| 0 <= i < batch.len() && has_key(rows, #[trigger] batch[i].key()))
        || !keys_unique(batch)
}

/// The rows after `u` is applied to the row that it targets.
pub open spec fn updated<E: Record, U: RowUpdate<E>>(rows: Seq<E>, u: U) -> Seq<E> {
    rows.map_values(|row: E| if row.key() == u.target() { u.applied(row) } else { row })
}

/// The rows that `f` selects, in stored order.
pub open spec fn selected<E, F: RowFilter<E>>(rows: Seq<E>, f: F) -> Seq<E> {
    rows.filter(|row: E| f.selects(row))
}

/// The rows that `f` does not select, in stored order.
pub open spec fn kept<E, F: RowFilter<E>>(rows: Seq<E>, f: F) -> Seq<E> {
    rows.filter(|row: E| !f.selects(row))
}

/// What a query returns: the selected rows, or all rows without a filter.
pub open spec fn query_result<E, F: RowFilter<E>>(rows: Seq<E>, f: Option<F>) -> Seq<E> {
    match f {
        Some(f) => selected(rows, f),
        None => rows,
    }
}

/// One table of a store: rows in insertion order, primary keys unique.
pub struct Table<E> {
    rows: Vec<E>,
}

impl<E> View for Table<E> {
    type V = Seq<E>;

    closed spec fn view(&self) -> Seq<E> {
        self.rows@
    }
}

impl<E: Record> Table<E> {
    pub open spec fn wf(&self) -> bool {
        keys_unique(self@)
    }

    pub fn new() -> (t: Self)
        ensures
            t@ == Seq::<E>::empty(),
            t.wf(),
    {
        Table { rows: Vec::new() }
    }

    /// The position of the row with primary key `k`, if there is one.
    fn find(&self, k: &String) -> (r: Option<usize>)
        ensures
            match r {
                Some(i) => i < self@.len() && self@[i as int].key() == k@,
                None => !has_key(self@, k@),
            },
    {
        let n = self.rows.len();
        let mut i: usize = 0;
        while i < n
            invariant
                n == self@.len(),
                i <= n,
                forall|j: int| 0 <= j < i ==> #[trigger] self@[j].key() != k@,
            decreases n - i,
        {
            if *self.rows[i].id() == *k {
                return Some(i);
            }
            i = i + 1;
        }
        None
    }

    /// Inserts one row, unless a row with its primary key is stored.
    pub fn insert_one(&mut self, row: E) -> (r: Result<(), RepoError>)
        requires
            old(self).wf(),
        ensures
            final(self).wf(),
            has_key(old(self)@, row.key()) ==> r == Err::<(), RepoError>(RepoError::DuplicateKey)
                && final(self)@ == old(self)@,
            !has_key(old(self)@, row.key()) ==> r == Ok::<(), RepoError>(())
                && final(self)@ == old(self)@.push(row),
    {
        match self.find(row.id()) {
            Some(_) => Err(RepoError::DuplicateKey),
            None => {
                self.rows.push(row);
                proof {
                    let s = self@;
                    assert forall|i: int, j: int|
                        0 <= i < s.len() && 0 <= j < s.len() && i != j implies #[trigger] s[i].key()
                            != #[trigger] s[j].key() by {
                        if i == s.len() - 1 {
                            assert(old(self)@[j].key() == s[j].key());
                        } else if j == s.len() - 1 {
                            assert(old(self)@[i].key() == s[i].key());
                        }
                    }
                }
                Ok(())
            },
        }
    }

    /// Whether `batch` clashes with the stored rows.
    fn clashes(&self, batch: &Vec<E>) -> (r: bool)
        ensures
            r == batch_clashes(self@, batch@),
    {
        let n = batch.len();
        let mut i: usize = 0;
        while i < n
            invariant
                n == batch@.len(),
                i <= n,
                forall|a: int| 0 <= a < i ==> !has_key(self@, #[trigger] batch@[a].key()),
                forall|a: int, b: int|
                    0 <= a < i && 0 <= b < i && a != b ==> #[trigger] batch@[a].key()
                        != #[trigger] batch@[b].key(),
            decreases n - i,
        {
            match self.find(batch[i].id()) {
                Some(k) => {
                    assert(self@[k as int].key() == batch@[i as int].key());
                    assert(has_key(self@, batch@[i as int].key()));
                    return true;
                },
                None => {},
            }
            let mut j: usize = 0;
            while j < i
                invariant
                    n == batch@.len(),
                    j <= i < n,
                    forall|b: int| 0 <= b < j ==> #[trigger] batch@[b].key() != batch@[i as int].key(),
                decreases i - j,
            {
                if *batch[j].id() == *batch[i].id() {
                    assert(batch@[j as int].key() == batch@[i as int].key());
                    return true;
                }
                j = j + 1;
            }
            i = i + 1;
        }
        false
    }

    /// Inserts every row of `batch`, or none of them when the batch clashes
    /// with the stored rows.
    pub fn insert_bulk(&mut self, batch: Vec<E>) -> (r: Result<(), RepoError>)
        requires
            old(self).wf(),
        ensures
            final(self).wf(),
            batch_clashes(old(self)@, batch@) ==> r == Err::<(), RepoError>(RepoError::DuplicateKey)
                && final(self)@ == old(self)@,
            !batch_clashes(old(self)@, batch@) ==> r == Ok::<(), RepoError>(())
                && final(self)@ == old(self)@ + batch@,
    {
        if self.clashes(&batch) {
            return Err(RepoError::DuplicateKey);
        }
        let ghost before = self@;
        let mut batch = batch;
        let ghost added = batch@;
        self.rows.append(&mut batch);
        proof {
            let s = self@;
            assert forall|i: int, j: int|
                0 <= i < s.len() && 0 <= j < s.len() && i != j implies #[trigger] s[i].key()
                    != #[trigger] s[j].key() by {
                let m = before.len() as int;
                if i < m && j >= m {
                    assert(added[j - m].key() == s[j].key());
                    assert(!has_key(before, added[j - m].key()));
                } else if i >= m && j < m {
                    assert(added[i - m].key() == s[i].key());
                    assert(!has_key(before, added[i - m].key()));
                } else if i >= m && j >= m {
                    assert(added[i - m].key() == s[i].key());
                    assert(added[j - m].key() == s[j].key());
                } else {
                    assert(before[i].key() == s[i].key());
                    assert(before[j].key() == s[j].key());
                }
            }
        }
        Ok(())
    }

    /// Applies `u` to the row with its target key; fails when no row has it.
    pub fn update_one<U: RowUpdate<E>>(&mut self, u: &U) -> (r: Result<(), RepoError>)
        requires
            old(self).wf(),
        ensures
            final(self).wf(),
            !has_key(old(self)@, u.target()) ==> r == Err::<(), RepoError>(RepoError::NotFound)
                && final(self)@ == old(self)@,
            has_key(old(self)@, u.target()) ==> r == Ok::<(), RepoError>(())
                && final(self)@ == updated(old(self)@, *u),
    {
        match self.find(u.target_id()) {
            None => Err(RepoError::NotFound),
            Some(k) => {
                let ghost before = self@;
                let row = u.apply(&self.rows[k]);
                self.rows.set(k, row);
                proof {
                    let s = self@;
                    let t = updated(before, *u);
                    assert forall|j: int| 0 <= j < s.len() implies s[j] == t[j] by {
                        if j != k {
                            assert(before[j].key() != before[k as int].key());
                        }
                    }
                    assert(s =~= t);
                    assert forall|i: int, j: int|
                        0 <= i < s.len() && 0 <= j < s.len() && i != j implies #[trigger] s[i].key()
                            != #[trigger] s[j].key() by {
                        assert(before[i].key() == s[i].key());
                        assert(before[j].key() == s[j].key());
                    }
                }
                Ok(())
            },
        }
    }

    /// Removes every row that `f` selects; refuses a filter that constrains
    /// nothing, leaving the rows as they were.
    pub fn delete_where<F: RowFilter<E>>(&mut self, f: &F) -> (r: Result<(), RepoError>)
        requires
            old(self).wf(),
        ensures
            final(self).wf(),
            !f.constrains() ==> r == Err::<(), RepoError>(RepoError::UnconstrainedDelete)
                && final(self)@ == old(self)@,
            f.constrains() ==> r == Ok::<(), RepoError>(()) && final(self)@ == kept(old(self)@, *f),
    {
        if f.is_unconstrained() {
            return Err(RepoError::UnconstrainedDelete);
        }
        let ghost pred = |row: E| !f.selects(row);
        let n = self.rows.len();
        let mut rest: Vec<E> = Vec::new();
        let mut i: usize = 0;
        while i < n
            invariant
                n == self@.len(),
                i <= n,
                self.wf(),
                pred == (|row: E| !f.selects(row)),
                rest@ == self@.subrange(0, i as int).filter(pred),
                keys_unique(rest@),
                forall|a: int|
                    0 <= a < rest@.len() ==> has_key(self@.subrange(0, i as int), #[trigger] rest@[a].key()),
            decreases n - i,
        {
            proof {
                reveal_with_fuel(Seq::filter, 1);
                assert(self@.subrange(0, i + 1).drop_last() =~= self@.subrange(0, i as int));
            }
            if !f.matches(&self.rows[i]) {
                let ghost prev = rest@;
                rest.push(self.rows[i].duplicate());
                proof {
                    let s = rest@;
                    let pre = self@.subrange(0, i as int);
                    let post = self@.subrange(0, i + 1);
                    assert forall|a: int, b: int|
                        0 <= a < s.len() && 0 <= b < s.len() && a != b implies #[trigger] s[a].key()
                            != #[trigger] s[b].key() by {
                        if a == s.len() - 1 && b < a {
                            assert(prev[b] == s[b]);
                            assert(has_key(pre, prev[b].key()));
                            let j = choose|j: int| 0 <= j < pre.len() && #[trigger] pre[j].key() == prev[b].key();
                            assert(self@[j].key() != self@[i as int].key());
                        } else if b == s.len() - 1 && a < b {
                            assert(prev[a] == s[a]);
                            assert(has_key(pre, prev[a].key()));
                            let j = choose|j: int| 0 <= j < pre.len() && #[trigger] pre[j].key() == prev[a].key();
                            assert(self@[j].key() != self@[i as int].key());
                        } else {
                            assert(prev[a] == s[a]);
                            assert(prev[b] == s[b]);
                        }
                    }
                    assert forall|a: int| 0 <= a < s.len() implies has_key(post, #[trigger] s[a].key()) by {
                        if a < s.len() - 1 {
                            assert(prev[a] == s[a]);
                            assert(has_key(pre, prev[a].key()));
                            let j = choose|j: int| 0 <= j < pre.len() && #[trigger] pre[j].key() == prev[a].key();
                            assert(post[j].key() == s[a].key());
                        } else {
                            assert(post[i as int].key() == s[a].key());
                        }
                    }
                }
            } else {
                proof {
                    let s = rest@;
                    let pre = self@.subrange(0, i as int);
                    let post = self@.subrange(0, i + 1);
                    assert forall|a: int| 0 <= a < s.len() implies has_key(post, #[trigger] s[a].key()) by {
                        assert(has_key(pre, s[a].key()));
                        let j = choose|j: int| 0 <= j < pre.len() && #[trigger] pre[j].key() == s[a].key();
                        assert(post[j].key() == s[a].key());
                    }
                }
            }
            i = i + 1;
        }
        proof {
            assert(self@.subrange(0, n as int) =~= self@);
        }
        self.rows = rest;
        Ok(())
    }

    /// The rows that `f` selects, or all rows when no filter is given.
    pub fn select_where<F: RowFilter<E>>(&self, f: Option<&F>) -> (r: Vec<E>)
        ensures
            r@ == query_result(self@, match f {
                Some(g) => Some(*g),
                None => None,
            }),
    {
        let n = self.rows.len();
        let mut out: Vec<E> = Vec::new();
        let mut i: usize = 0;
        while i < n
            invariant
                n == self@.len(),
                i <= n,
                out@ == query_result(self@.subrange(0, i as int), match f {
                    Some(g) => Some(*g),
                    None => None,
                }),
            decreases n - i,
        {
            proof {
                reveal_with_fuel(Seq::filter, 1);
                assert(self@.subrange(0, i + 1).drop_last() =~= self@.subrange(0, i as int));
                assert(self@.subrange(0, i as int).push(self@[i as int]) =~= self@.subrange(0, i + 1));
            }
            let take = match f {
                Some(g) => g.matches(&self.rows[i]),
                None => true,
            };
            if take {
                out.push(self.rows[i].duplicate());
            }
            i = i + 1;
        }
        proof {
            assert(self@.subrange(0, n as int) =~= self@);
        }
        out
    }
}

} // verus!
