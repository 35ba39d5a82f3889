//! The session table: every session row, keyed by id, in storage order.
//! Each operation is one atomic step; deleting or updating a row that is
//! not there changes nothing.

use vstd::prelude::*;
use crate::session::{live, refreshed_row, Session, SessionRow};
use crate::text::text_eq;

verus! {

/// Why a write to the session table was refused.
#[derive(Debug, Clone, Copy, PartialEq, Eq, Structural)]
pub enum StoreError {
    /// A row with that id is already stored.
    DuplicateId,
}

/// Whether no two rows share an id.
pub open spec fn unique_ids(rows: Seq<SessionRow>) -> bool {
    forall|i: int, j: int|
        0 <= i < rows.len() && 0 <= j < rows.len() && #[trigger] rows[i].id == #[trigger] rows[j].id
            ==> i == j
}

/// Whether some row has this id.
pub open spec fn has_id(rows: Seq<SessionRow>, id: Seq<char>) -> bool {
    exists|i: int| 0 <= i < rows.len() && #[trigger] rows[i].id == id
}

pub open spec fn id_differs(id: Seq<char>) -> spec_fn(SessionRow) -> bool {
    |r: SessionRow| r.id != id
}

pub open spec fn user_differs(user_id: Seq<char>) -> spec_fn(SessionRow) -> bool {
    |r: SessionRow| r.user_id != user_id
}

pub open spec fn live_at(now: int) -> spec_fn(SessionRow) -> bool {
    |r: SessionRow| live(r, now)
}

/// The rows but the one with this id.
pub open spec fn without_id(rows: Seq<SessionRow>, id: Seq<char>) -> Seq<SessionRow> {
    rows.filter(id_differs(id))
}

/// The rows that another user owns.
pub open spec fn without_user(rows: Seq<SessionRow>, user_id: Seq<char>) -> Seq<SessionRow> {
    rows.filter(user_differs(user_id))
}

/// The rows still valid at `now`.
pub open spec fn unexpired(rows: Seq<SessionRow>, now: int) -> Seq<SessionRow> {
    rows.filter(live_at(now))
}

/// The rows after an update with `fresh`: the row with its id takes its
/// token fields and expiry.
pub open spec fn updated(rows: Seq<SessionRow>, fresh: SessionRow) -> Seq<SessionRow> {
    rows.map_values(update_with(fresh))
}

pub open spec fn update_with(fresh: SessionRow) -> spec_fn(SessionRow) -> SessionRow {
    |r: SessionRow| if r.id == fresh.id { refreshed_row(r, fresh) } else { r }
}

/// Whether row `i` is the valid session of `user_id` that `active_for_user`
/// picks: the latest expiry, the first in storage order among equals.
pub open spec fn is_latest_live(rows: Seq<SessionRow>, i: int, user_id: Seq<char>, now: int) -> bool {
    &&& 0 <= i < rows.len()
    &&& rows[i].user_id == user_id
    &&& live(rows[i], now)
    &&& forall|j: int|
        0 <= j < rows.len() && #[trigger] rows[j].user_id == user_id && live(rows[j], now) ==> rows[j].expires_at
            < rows[i].expires_at || (rows[j].expires_at == rows[i].expires_at && i <= j)
}

/// Whether `user_id` has a session valid at `now`.
pub open spec fn has_live(rows: Seq<SessionRow>, user_id: Seq<char>, now: int) -> bool {
    exists|j: int| 0 <= j < rows.len() && #[trigger] rows[j].user_id == user_id && live(rows[j], now)
}

/// Keeping a part of a table keeps its ids apart.
pub proof fn lemma_filter_unique(rows: Seq<SessionRow>, keep: spec_fn(SessionRow) -> bool)
    requires
        unique_ids(rows),
    ensures
        unique_ids(rows.filter(keep)),
    decreases rows.len(),
{
    reveal(Seq::filter);
    if rows.len() > 0 {
        let front = rows.drop_last();
        assert(unique_ids(front)) by {
            assert forall|i: int, j: int|
                0 <= i < front.len() && 0 <= j < front.len() && #[trigger] front[i].id
                    == #[trigger] front[j].id implies i == j by {
                assert(rows[i].id == rows[j].id);
            }
        }
        lemma_filter_unique(front, keep);
        let f = front.filter(keep);
        if keep(rows.last()) {
            let out = f.push(rows.last());
            assert forall|i: int, j: int|
                0 <= i < out.len() && 0 <= j < out.len() && #[trigger] out[i].id == #[trigger] out[j].id
                    implies i == j by {
                if i < f.len() && j == f.len() {
                    front.lemma_filter_contains_rev(keep, f[i]);
                    let k = choose|k: int| 0 <= k < front.len() && front[k] == f[i];
                    assert(rows[k].id == rows[rows.len() - 1].id);
                } else if j < f.len() && i == f.len() {
                    front.lemma_filter_contains_rev(keep, f[j]);
                    let k = choose|k: int| 0 <= k < front.len() && front[k] == f[j];
                    assert(rows[k].id == rows[rows.len() - 1].id);
                } else if i < f.len() && j < f.len() {
                    assert(f[i].id == f[j].id);
                }
            }
        }
    }
}

/// Keeping what was kept keeps it all.
pub proof fn lemma_filter_twice(rows: Seq<SessionRow>, keep: spec_fn(SessionRow) -> bool)
    ensures
        rows.filter(keep).filter(keep) == rows.filter(keep),
    decreases rows.len(),
{
    reveal(Seq::filter);
    if rows.len() > 0 {
        let front = rows.drop_last();
        lemma_filter_twice(front, keep);
        if keep(rows.last()) {
            let f = front.filter(keep);
            assert(f.push(rows.last()).drop_last() =~= f);
        }
    }
}

/// A sweep at `now` keeps exactly the rows still valid at `now`, and a
/// second sweep at the same instant removes nothing.
pub proof fn lemma_sweep_exact(rows: Seq<SessionRow>, now: int)
    ensures
        forall|r: SessionRow| #[trigger] unexpired(rows, now).contains(r) <==> rows.contains(r) && live(r, now),
        unexpired(unexpired(rows, now), now) == unexpired(rows, now),
        unexpired(rows, now).len() - unexpired(unexpired(rows, now), now).len() == 0,
{
    let keep = live_at(now);
    assert forall|r: SessionRow| #[trigger] unexpired(rows, now).contains(r) <==> rows.contains(r) && live(r, now) by {
        if unexpired(rows, now).contains(r) {
            rows.lemma_filter_contains_rev(keep, r);
            let k = choose|k: int| 0 <= k < rows.filter(keep).len() && rows.filter(keep)[k] == r;
            rows.lemma_filter_pred(keep, k);
        }
        if rows.contains(r) && live(r, now) {
            let k = choose|k: int| 0 <= k < rows.len() && rows[k] == r;
            rows.lemma_filter_contains(keep, k);
        }
    }
    lemma_filter_twice(rows, keep);
}

/// Which rows a cull keeps.
enum Cull {
    Id(String),
    User(String),
    ExpiredAt(i64),
}

spec fn cull_keeps(c: Cull) -> spec_fn(SessionRow) -> bool {
    match c {
        Cull::Id(id) => id_differs(id@),
        Cull::User(user_id) => user_differs(user_id@),
        Cull::ExpiredAt(now) => live_at(now as int),
    }
}

fn keeps(c: &Cull, s: &Session) -> (r: bool)
    ensures
        r == cull_keeps(*c)(s@),
{
    match c {
        Cull::Id(id) => !text_eq(s.id.as_str(), id.as_str()),
        Cull::User(user_id) => !text_eq(s.user_id.as_str(), user_id.as_str()),
        Cull::ExpiredAt(now) => s.is_live(*now),
    }
}

/// The session rows of the service.
pub struct SessionTable {
    rows: Vec<Session>,
}

impl View for SessionTable {
    type V = Seq<SessionRow>;

    closed spec fn view(&self) -> Seq<SessionRow> {
        self.rows@.map_values(|s: Session| s@)
    }
}

impl SessionTable {
    /// Whether the table is well formed: no two rows share an id.
    pub open spec fn wf(&self) -> bool {
        unique_ids(self@)
    }

    /// An empty table.
    pub fn new() -> (r: SessionTable)
        ensures
            r.wf(),
            r@ == Seq::<SessionRow>::empty(),
    {
        let r = SessionTable { rows: Vec::new() };
        assert(r@ =~= Seq::<SessionRow>::empty());
        r
    }

    /// The number of rows.
    pub fn len(&self) -> (r: usize)
        ensures
            r == self@.len(),
    {
        self.rows.len()
    }

    /// Keeps the rows that `c` keeps, in order; returns how many went.
    fn cull(&mut self, c: &Cull) -> (removed: u64)
        requires
            old(self).wf(),
        ensures
            final(self).wf(),
            final(self)@ == old(self)@.filter(cull_keeps(*c)),
            removed == old(self)@.len() - final(self)@.len(),
    {
        let ghost start = self@;
        let ghost keep = cull_keeps(*c);
        let mut kept: Vec<Session> = Vec::new();
        let mut i: usize = 0;
        let n = self.rows.len();
        while i < n
            invariant
                n == self.rows@.len(),
                start == self@,
                keep == cull_keeps(*c),
                i <= n,
                kept@.map_values(|s: Session| s@) == start.subrange(0, i as int).filter(keep),
                kept@.len() <= i,
            decreases n - i,
        {
            let s = self.rows[i].duplicate();
            let ghost before = kept@.map_values(|s: Session| s@);
            proof {
                reveal(Seq::filter);
                assert(start.subrange(0, i + 1).drop_last() =~= start.subrange(0, i as int));
                assert(start[i as int] == self.rows@[i as int]@);
            }
            assert(start.subrange(0, i + 1).last() == start[i as int]);
            if keeps(c, &s) {
                kept.push(s);
                assert(kept@.map_values(|s: Session| s@) =~= before.push(start[i as int]));
            } else {
                assert(kept@.map_values(|s: Session| s@) == before);
            }
            i = i + 1;
        }
        assert(start.subrange(0, n as int) =~= start);
        let removed = (n - kept.len()) as u64;
        self.rows = kept;
        proof {
            lemma_filter_unique(start, keep);
        }
        removed
    }

    /// The row with this id, if there is one.
    pub fn get_by_id(&self, id: &str) -> (r: Option<Session>)
        ensures
            match r {
                Some(s) => exists|i: int| 0 <= i < self@.len() && self@[i].id == id@ && s@ == self@[i],
                None => !has_id(self@, id@),
            },
    {
        let mut i: usize = 0;
        while i < self.rows.len()
            invariant
                i <= self.rows@.len(),
                forall|j: int| 0 <= j < i ==> self@[j].id != id@,
            decreases self.rows@.len() - i,
        {
            if text_eq(self.rows[i].id.as_str(), id) {
                assert(self@[i as int] == self.rows@[i as int]@);
                return Some(self.rows[i].duplicate());
            }
            assert(self@[i as int] == self.rows@[i as int]@);
            i = i + 1;
        }
        None
    }

    /// Stores a new row; refused when its id is taken.
    pub fn create(&mut self, session: Session) -> (r: Result<(), StoreError>)
        requires
            old(self).wf(),
        ensures
            final(self).wf(),
            match r {
                Ok(()) => !has_id(old(self)@, session@.id) && final(self)@ == old(self)@.push(session@),
                Err(e) => has_id(old(self)@, session@.id) && e == StoreError::DuplicateId
                    && final(self)@ == old(self)@,
            },
    {
        match self.get_by_id(session.id.as_str()) {
            Some(_) => Err(StoreError::DuplicateId),
            None => {
                let ghost start = self@;
                self.rows.push(session);
                assert(self@ =~= start.push(session@));
                Ok(())
            },
        }
    }

    /// Gives the row with the id of `fresh` the token fields and the expiry
    /// of `fresh`; its id and owner stay. Without such a row, nothing changes.
    pub fn update(&mut self, fresh: &Session)
        requires
            old(self).wf(),
        ensures
            final(self).wf(),
            final(self)@ == updated(old(self)@, fresh@),
    {
        let ghost start = self@;
        let ghost f = update_with(fresh@);
        let mut out: Vec<Session> = Vec::new();
        let mut i: usize = 0;
        let n = self.rows.len();
        while i < n
            invariant
                n == self.rows@.len(),
                start == self@,
                f == update_with(fresh@),
                i <= n,
                out@.map_values(|s: Session| s@) == start.subrange(0, i as int).map_values(f),
            decreases n - i,
        {
            let s = &self.rows[i];
            assert(start[i as int] == s@);
            let next = if text_eq(s.id.as_str(), fresh.id.as_str()) {
                assert(f(start[i as int]) == refreshed_row(start[i as int], fresh@));
                Session {
                    id: s.id.clone(),
                    user_id: s.user_id.clone(),
                    access_token: fresh.access_token.clone(),
                    access_token_nonce: fresh.access_token_nonce.clone(),
                    refresh_token: fresh.refresh_token.clone(),
                    refresh_token_nonce: fresh.refresh_token_nonce.clone(),
                    expires_at: fresh.expires_at,
                }
            } else {
                assert(f(start[i as int]) == start[i as int]);
                s.duplicate()
            };
            assert(next@ == f(start[i as int]));
            let ghost before = out@.map_values(|s: Session| s@);
            out.push(next);
            assert(out@.map_values(|s: Session| s@) =~= before.push(next@));
            assert(start.subrange(0, i + 1).map_values(f) =~= start.subrange(0, i as int).map_values(f).push(
                f(start[i as int]),
            ));
            i = i + 1;
        }
        assert(start.subrange(0, n as int) =~= start);
        self.rows = out;
        assert(self@ =~= updated(start, fresh@));
        assert(unique_ids(self@)) by {
            assert forall|a: int, b: int|
                0 <= a < self@.len() && 0 <= b < self@.len() && #[trigger] self@[a].id
                    == #[trigger] self@[b].id implies a == b by {
                assert(start[a].id == start[b].id);
            }
        }
    }

    /// Removes the row with this id, if there is one.
    pub fn delete(&mut self, id: &str)
        requires
            old(self).wf(),
        ensures
            final(self).wf(),
            final(self)@ == without_id(old(self)@, id@),
    {
        let c = Cull::Id(id.to_owned());
        self.cull(&c);
    }

    /// Removes every row of this user.
    pub fn delete_all_for_user(&mut self, user_id: &str)
        requires
            old(self).wf(),
        ensures
            final(self).wf(),
            final(self)@ == without_user(old(self)@, user_id@),
    {
        let c = Cull::User(user_id.to_owned());
        self.cull(&c);
    }

    /// Removes every row whose expiry is at or before `now`, and returns how
    /// many went.
    pub fn sweep_expired(&mut self, now: i64) -> (removed: u64)
        requires
            old(self).wf(),
        ensures
            final(self).wf(),
            final(self)@ == unexpired(old(self)@, now as int),
            removed == old(self)@.len() - final(self)@.len(),
    {
        let c = Cull::ExpiredAt(now);
        self.cull(&c)
    }

    /// The valid session of `user_id` with the latest expiry (the first in
    /// storage order among equals). Where the user has none, the user's
    /// expired rows are removed.
    pub fn get_active_by_user(&mut self, user_id: &str, now: i64) -> (r: Option<Session>)
        requires
            old(self).wf(),
        ensures
            final(self).wf(),
            match r {
                Some(s) => final(self)@ == old(self)@ && exists|i: int|
                    is_latest_live(old(self)@, i, user_id@, now as int) && s@ == old(self)@[i],
                None => !has_live(old(self)@, user_id@, now as int) && final(self)@ == without_user(
                    old(self)@,
                    user_id@,
                ),
            },
    {
        let mut best: Option<usize> = None;
        let mut i: usize = 0;
        while i < self.rows.len()
            invariant
                i <= self.rows@.len(),
                match best {
                    Some(b) => b < i && is_latest_live(self@.subrange(0, i as int), b as int, user_id@, now as int),
                    None => !has_live(self@.subrange(0, i as int), user_id@, now as int),
                },
            decreases self.rows@.len() - i,
        {
            let ghost before = self@.subrange(0, i as int);
            let ghost after = self@.subrange(0, i + 1);
            assert(after =~= before.push(self@[i as int]));
            assert(self@[i as int] == self.rows@[i as int]@);
            let s = &self.rows[i];
            if text_eq(s.user_id.as_str(), user_id) && s.is_live(now) {
                let better = match best {
                    Some(b) => s.expires_at > self.rows[b].expires_at,
                    None => true,
                };
                if better {
                    proof {
                        if let Some(b) = best {
                            assert(self@[b as int] == self.rows@[b as int]@);
                            assert(before[b as int] == self@[b as int]);
                        }
                        assert forall|j: int|
                            0 <= j < after.len() && #[trigger] after[j].user_id == user_id@ && live(after[j], now as int)
                                implies after[j].expires_at < after[i as int].expires_at || (after[j].expires_at
                                == after[i as int].expires_at && i <= j) by {
                            if j < i {
                                assert(after[j] == before[j]);
                                assert(before[j].user_id == user_id@);
                            }
                        }
                    }
                    best = Some(i);
                } else {
                    proof {
                        let b = best.unwrap();
                        assert(self@[b as int] == self.rows@[b as int]@);
                        assert(before[b as int] == self@[b as int]);
                        assert forall|j: int|
                            0 <= j < after.len() && #[trigger] after[j].user_id == user_id@ && live(after[j], now as int)
                                implies after[j].expires_at < after[b as int].expires_at || (after[j].expires_at
                                == after[b as int].expires_at && b <= j) by {
                            if j < i {
                                assert(after[j] == before[j]);
                                assert(before[j].user_id == user_id@);
                            }
                        }
                    }
                }
            } else {
                proof {
                    if let Some(b) = best {
                        assert(before[b as int] == after[b as int]);
                        assert forall|j: int|
                            0 <= j < after.len() && #[trigger] after[j].user_id == user_id@ && live(after[j], now as int)
                                implies after[j].expires_at < after[b as int].expires_at || (after[j].expires_at
                                == after[b as int].expires_at && b <= j) by {
                            if j < i {
                                assert(after[j] == before[j]);
                                assert(before[j].user_id == user_id@);
                            }
                        }
                    } else {
                        assert forall|j: int|
                            0 <= j < after.len() && #[trigger] after[j].user_id == user_id@ implies !live(after[j], now as int) by {
                            if j < i {
                                assert(after[j] == before[j]);
                                assert(before[j].user_id == user_id@);
                            }
                        }
                    }
                }
            }
            i = i + 1;
        }
        assert(self@.subrange(0, self@.len() as int) =~= self@);
        match best {
            Some(b) => {
                assert(self@[b as int] == self.rows@[b as int]@);
                Some(self.rows[b].duplicate())
            },
            None => {
                let c = Cull::User(user_id.to_owned());
                self.cull(&c);
                None
            },
        }
    }
}

} // verus!
