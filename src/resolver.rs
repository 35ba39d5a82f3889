//! Session resolution: from a session id to a currently valid session,
//! refreshing an expired one or revoking it when the refresh fails.
//!
//! The steps are pure decisions: `after_lookup` on the row the store gave,
//! `after_refresh` on what the refresh gave. The caller performs the
//! action each step names (one refresh, one write) and feeds the result
//! back. `resolve_in` runs the same steps against a `SessionTable`.

use vstd::prelude::*;
use crate::error::Error;
use crate::refresh::{expiry_of, grant_fits, refreshed_session, TokenGrant};
use crate::session::{live, refreshed_row, Session, SessionRow};
use crate::store::{has_id, unique_ids, updated, without_id, SessionTable};

verus! {

/// What to do after looking the session up.
#[derive(Debug)]
pub enum ResolveStep {
    /// Resolution is over, with this result.
    Done(Option<Session>),
    /// The session has expired: refresh it, once.
    Refresh(Session),
}

/// The write that settles an expired session.
#[derive(Debug)]
pub enum Settle {
    /// Store the refreshed session over the stale row.
    Update(Session),
    /// Revoke the session: delete the row with this id.
    Delete(String),
}

/// A write to the session table, as contracts speak of it.
pub enum TableWrite {
    Update(SessionRow),
    Delete(Seq<char>),
}

impl View for Settle {
    type V = TableWrite;

    open spec fn view(&self) -> TableWrite {
        match self {
            Settle::Update(s) => TableWrite::Update(s@),
            Settle::Delete(id) => TableWrite::Delete(id@),
        }
    }
}

/// The rows after a write.
pub open spec fn applied(rows: Seq<SessionRow>, w: TableWrite) -> Seq<SessionRow> {
    match w {
        TableWrite::Update(fresh) => updated(rows, fresh),
        TableWrite::Delete(id) => without_id(rows, id),
    }
}

/// The first step: a missing row resolves to nothing, a valid one to
/// itself unchanged; an expired one must be refreshed.
pub fn after_lookup(found: Option<Session>, now: i64) -> (r: ResolveStep)
    ensures
        match found {
            None => r matches ResolveStep::Done(None),
            Some(s) => if live(s@, now as int) {
                r == ResolveStep::Done(Some(s))
            } else {
                r == ResolveStep::Refresh(s)
            },
        },
{
    match found {
        None => ResolveStep::Done(None),
        Some(s) => if s.is_live(now) {
            ResolveStep::Done(Some(s))
        } else {
            ResolveStep::Refresh(s)
        },
    }
}

/// The second step: a refreshed session is stored and returned; a failed
/// refresh revokes the session and resolves to nothing.
pub fn after_refresh(stale: &Session, outcome: Result<Session, Error>) -> (r: (Settle, Option<Session>))
    ensures
        match outcome {
            Ok(fresh) => r.0@ == TableWrite::Update(fresh@) && (r.1 matches Some(s) && s@ == fresh@),
            Err(_) => r.0@ == TableWrite::Delete(stale.id@) && r.1.is_none(),
        },
{
    match outcome {
        Ok(fresh) => {
            let copy = fresh.duplicate();
            (Settle::Update(fresh), Some(copy))
        },
        Err(_) => (Settle::Delete(stale.id.clone()), None),
    }
}

impl SessionTable {
    /// Performs a settling write.
    pub fn apply(&mut self, w: &Settle)
        requires
            old(self).wf(),
        ensures
            final(self).wf(),
            final(self)@ == applied(old(self)@, w@),
    {
        match w {
            Settle::Update(s) => self.update(s),
            Settle::Delete(id) => self.delete(id.as_str()),
        }
    }
}

/// The refresh the provider's answer leads to.
pub fn refresh_outcome(key: &[u8; 32], stale: &Session, answer: &Result<TokenGrant, String>, now: i64) -> (r: Result<Session, Error>)
    requires
        answer matches Ok(g) ==> grant_fits(*g),
    ensures
        r.is_ok() <==> (answer matches Ok(g) && g.refresh_token.is_some() && expiry_of(now as int, g.expires_in)
            <= i64::MAX),
        r matches Ok(s) ==> s.id@ == stale.id@ && s.user_id@ == stale.user_id@ && (answer matches Ok(g)
            && s.expires_at as int == expiry_of(now as int, g.expires_in)),
{
    match answer {
        Ok(g) => refreshed_session(key, stale, g, now),
        Err(e) => Err(Error::Auth(e.clone())),
    }
}

/// Resolves `id` against `table` at `now`, where `answer` is what the
/// provider answers to a refresh (it is used only for an expired session).
/// Returns the valid session, if any, and whether a refresh was made.
pub fn resolve_in(
    table: &mut SessionTable,
    key: &[u8; 32],
    id: &str,
    now: i64,
    answer: &Result<TokenGrant, String>,
) -> (r: (Option<Session>, bool))
    requires
        old(table).wf(),
        answer matches Ok(g) ==> grant_fits(*g),
    ensures
        final(table).wf(),
        !has_id(old(table)@, id@) ==> r.0.is_none() && !r.1 && final(table)@ == old(table)@,
        forall|i: int| 0 <= i < old(table)@.len() && #[trigger] old(table)@[i].id == id@ ==> {
            let row = old(table)@[i];
            if live(row, now as int) {
                &&& !r.1
                &&& final(table)@ == old(table)@
                &&& r.0 matches Some(s) && s@ == row
            } else {
                &&& r.1
                &&& r.0.is_some() <==> (answer matches Ok(g) && g.refresh_token.is_some() && expiry_of(
                    now as int,
                    g.expires_in,
                ) <= i64::MAX)
                &&& match r.0 {
                    Some(s) => {
                        &&& answer matches Ok(g) && s.expires_at as int == expiry_of(now as int, g.expires_in)
                        &&& s.id@ == row.id && s.user_id@ == row.user_id
                        &&& final(table)@ == updated(old(table)@, s@)
                        &&& final(table)@[i] == refreshed_row(row, s@)
                    },
                    None => final(table)@ == without_id(old(table)@, id@),
                }
            }
        },
{
    let found = table.get_by_id(id);
    match after_lookup(found, now) {
        ResolveStep::Done(r) => (r, false),
        ResolveStep::Refresh(stale) => {
            let outcome = refresh_outcome(key, &stale, answer, now);
            let (write, result) = after_refresh(&stale, outcome);
            let ghost before = table@;
            table.apply(&write);
            proof {
                if result is Some {
                    let s = result->Some_0;
                    let k = choose|k: int| 0 <= k < before.len() && before[k].id == id@ && stale@ == before[k];
                    assert(table@[k] == refreshed_row(before[k], s@));
                    assert forall|i: int| 0 <= i < before.len() && #[trigger] before[i].id == id@ implies i == k by {
                        assert(before[i].id == before[k].id);
                    }
                }
            }
            (result, true)
        },
    }
}

/// Two resolutions of one expired session that race: each settles it with
/// an update carrying its own refreshed session, or with a delete. In
/// whichever order the two writes land, the table keeps its ids apart, and
/// the row is either gone or holds the tokens, nonces and expiry of one
/// refresh together; every other row stays as it was.
pub proof fn lemma_racing_resolutions(rows: Seq<SessionRow>, i: int, first: TableWrite, second: TableWrite)
    requires
        unique_ids(rows),
        0 <= i < rows.len(),
        first matches TableWrite::Update(f) ==> f.id == rows[i].id,
        first matches TableWrite::Delete(d) ==> d == rows[i].id,
        second matches TableWrite::Update(f) ==> f.id == rows[i].id,
        second matches TableWrite::Delete(d) ==> d == rows[i].id,
    ensures
        ({
            let after = applied(applied(rows, first), second);
            &&& unique_ids(after)
            &&& after.len() <= rows.len()
            &&& forall|j: int| 0 <= j < after.len() && #[trigger] after[j].id == rows[i].id ==> {
                ||| (first matches TableWrite::Update(f) && after[j] == refreshed_row(rows[i], f))
                ||| (second matches TableWrite::Update(f) && after[j] == refreshed_row(rows[i], f))
            }
            &&& forall|j: int| 0 <= j < after.len() && #[trigger] after[j].id != rows[i].id ==> rows.contains(after[j])
        }),
{
    let id = rows[i].id;
    lemma_write_keeps(rows, i, first);
    let mid = applied(rows, first);
    if has_id(mid, id) {
        let k = choose|k: int| 0 <= k < mid.len() && #[trigger] mid[k].id == id;
        lemma_write_keeps(mid, k, second);
        let after = applied(mid, second);
        assert forall|j: int| 0 <= j < after.len() && #[trigger] after[j].id != id implies rows.contains(after[j]) by {
            assert(mid.contains(after[j]));
            let m = choose|m: int| 0 <= m < mid.len() && mid[m] == after[j];
        }
    } else {
        lemma_write_absent(mid, id, second);
        let after = applied(mid, second);
        assert forall|j: int| 0 <= j < after.len() && #[trigger] after[j].id != id implies rows.contains(after[j]) by {
            let m = choose|m: int| 0 <= m < mid.len() && mid[m] == after[j];
        }
    }
}

/// One write for the row at `i`: ids stay apart, no row is added, and the
/// row is either gone or refreshed by the write's session.
proof fn lemma_write_keeps(rows: Seq<SessionRow>, i: int, w: TableWrite)
    requires
        unique_ids(rows),
        0 <= i < rows.len(),
        w matches TableWrite::Update(f) ==> f.id == rows[i].id,
        w matches TableWrite::Delete(d) ==> d == rows[i].id,
    ensures
        ({
            let after = applied(rows, w);
            &&& unique_ids(after)
            &&& after.len() <= rows.len()
            &&& forall|j: int| 0 <= j < after.len() && #[trigger] after[j].id == rows[i].id ==> (w matches TableWrite::Update(
                f,
            ) && after[j] == refreshed_row(rows[i], f))
            &&& forall|j: int| 0 <= j < after.len() && #[trigger] after[j].id != rows[i].id ==> rows.contains(after[j])
            &&& (w matches TableWrite::Update(_) ==> has_id(after, rows[i].id))
        }),
{
    let id = rows[i].id;
    match w {
        TableWrite::Update(f) => {
            let after = updated(rows, f);
            assert(after[i].id == id);
            assert forall|a: int, b: int|
                0 <= a < after.len() && 0 <= b < after.len() && #[trigger] after[a].id == #[trigger] after[b].id
                    implies a == b by {
                assert(rows[a].id == rows[b].id);
            }
            assert forall|j: int| 0 <= j < after.len() && #[trigger] after[j].id == id implies after[j]
                == refreshed_row(rows[i], f) by {
                assert(rows[j].id == rows[i].id);
            }
            assert forall|j: int| 0 <= j < after.len() && #[trigger] after[j].id != id implies rows.contains(after[j]) by {
                assert(after[j] == rows[j]);
            }
        },
        TableWrite::Delete(d) => {
            crate::store::lemma_filter_unique(rows, crate::store::id_differs(d));
            let after = without_id(rows, d);
            assert forall|j: int| 0 <= j < after.len() implies #[trigger] after[j].id != id by {
                rows.lemma_filter_pred(crate::store::id_differs(d), j);
            }
            assert forall|j: int| 0 <= j < after.len() && #[trigger] after[j].id != rows[i].id implies rows.contains(after[j]) by {
                rows.lemma_filter_contains_rev(crate::store::id_differs(d), after[j]);
            }
        },
    }
}

/// A write for an id that no row has changes no row.
proof fn lemma_write_absent(rows: Seq<SessionRow>, id: Seq<char>, w: TableWrite)
    requires
        unique_ids(rows),
        !has_id(rows, id),
        w matches TableWrite::Update(f) ==> f.id == id,
        w matches TableWrite::Delete(d) ==> d == id,
    ensures
        applied(rows, w) == rows,
    decreases rows.len(),
{
    match w {
        TableWrite::Update(f) => {
            assert forall|j: int| 0 <= j < rows.len() implies #[trigger] updated(rows, f)[j] == rows[j] by {
                assert(rows[j].id != id);
            }
            assert(updated(rows, f) =~= rows);
        },
        TableWrite::Delete(d) => {
            reveal(Seq::filter);
            if rows.len() > 0 {
                let front = rows.drop_last();
                assert(!has_id(front, id)) by {
                    if has_id(front, id) {
                        let k = choose|k: int| 0 <= k < front.len() && #[trigger] front[k].id == id;
                        assert(rows[k].id == id);
                    }
                }
                assert(unique_ids(front)) by {
                    assert forall|a: int, b: int|
                        0 <= a < front.len() && 0 <= b < front.len() && #[trigger] front[a].id
                            == #[trigger] front[b].id implies a == b by {
                        assert(rows[a].id == rows[b].id);
                    }
                }
                lemma_write_absent(front, id, w);
                assert(rows[rows.len() - 1].id != id);
                assert(front.push(rows.last()) =~= rows);
            }
        },
    }
}

} // verus!
