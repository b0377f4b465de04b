//! The table of the duels under way: one row per accepted duel.

use crate::db::{involves, next_id, Store, StoreError, StoreView};
use crate::models::{AcceptedDuel, AcceptedDuelView};
use crate::search::{find_first, lemma_first_index, lemma_first_index_is};
use vstd::prelude::*;

verus! {

impl StoreView {
    /// The position of the row of the duel under way that involves `who`.
    pub open spec fn accepted_for(self, who: Seq<char>) -> Option<int> {
        find_first(self.accepted_duels, |a: AcceptedDuelView| involves(a, who))
    }

    /// The position of the row of the duel `duel_id`.
    pub open spec fn accepted_of(self, duel_id: int) -> Option<int> {
        find_first(self.accepted_duels, |a: AcceptedDuelView| a.duel_id == duel_id)
    }

    /// The identifier that the next row of a duel under way gets.
    pub open spec fn next_accepted_id(self) -> int {
        next_id(
            if self.accepted_duels.len() > 0 {
                Some(self.accepted_duels.last().id)
            } else {
                None
            },
        )
    }

    /// Why the store refuses a row for the duel `duel_id` between the two
    /// participants, if it does: the duel or one of them has a row already.
    pub open spec fn create_accepted_error(
        self,
        duel_id: int,
        challenger_id: Seq<char>,
        challenged_id: Seq<char>,
    ) -> Option<StoreError> {
        if self.accepted_of(duel_id) is Some || self.accepted_for(challenger_id) is Some
            || self.accepted_for(challenged_id) is Some {
            Some(StoreError::Duplicate)
        } else if self.next_accepted_id() > i32::MAX {
            Some(StoreError::Full)
        } else {
            None
        }
    }

    /// The row that the store creates for a duel under way.
    pub open spec fn new_accepted(
        self,
        duel_id: int,
        challenger_id: Seq<char>,
        challenged_id: Seq<char>,
        now: int,
    ) -> AcceptedDuelView {
        AcceptedDuelView {
            id: self.next_accepted_id(),
            duel_id: duel_id,
            challenger_id: challenger_id,
            challenged_id: challenged_id,
            created_at: Some(now),
        }
    }

    /// The store with the row `a` added to the duels under way.
    pub open spec fn push_accepted(self, a: AcceptedDuelView) -> StoreView {
        StoreView { accepted_duels: self.accepted_duels.push(a), ..self }
    }

    /// The store without the row of the duel `duel_id`.
    pub open spec fn destroy_accepted_duel(self, duel_id: int) -> StoreView {
        match self.accepted_of(duel_id) {
            Some(i) => StoreView { accepted_duels: self.accepted_duels.remove(i), ..self },
            None => self,
        }
    }
}

/// Removing the row of a duel keeps the store well-formed, and afterwards
/// the duel has no row among the duels under way.
pub proof fn lemma_destroy_accepted(s: StoreView, id: int)
    requires
        s.wf(),
    ensures
        s.destroy_accepted_duel(id).wf(),
        s.destroy_accepted_duel(id).accepted_of(id) is None,
{
    let p = |a: AcceptedDuelView| a.duel_id == id;
    let rows = s.accepted_duels;
    lemma_first_index(rows, p);
    match s.accepted_of(id) {
        Some(k) => {
            let after = rows.remove(k);
            assert forall|j: int| 0 <= j < after.len() implies !p(#[trigger] after[j]) by {
                if j < k {
                    assert(after[j] == rows[j]);
                    assert(rows[j].duel_id != rows[k].duel_id);
                } else {
                    assert(after[j] == rows[j + 1]);
                    assert(rows[k].duel_id != rows[j + 1].duel_id);
                }
            }
            lemma_first_index_is(after, p, after.len() as int);
            assert forall|a: int, b: int| 0 <= a < b < after.len() implies after[a].id
                < after[b].id && after[a].duel_id != after[b].duel_id && !involves(
                after[b],
                after[a].challenger_id,
            ) && !involves(after[b], after[a].challenged_id) by {
                let a0 = if a < k {
                    a
                } else {
                    a + 1
                };
                let b0 = if b < k {
                    b
                } else {
                    b + 1
                };
                assert(after[a] == rows[a0]);
                assert(after[b] == rows[b0]);
                assert(rows[a0].id < rows[b0].id);
            }
        },
        None => {},
    }
}

impl Store {
    /// The position of the row of the duel under way that involves `who`.
    pub fn find_accepted(&self, who: &str) -> (r: Option<usize>)
        ensures
            match r {
                Some(i) => self@.accepted_for(who@) == Some(i as int) && i
                    < self.accepted_duels.len(),
                None => self@.accepted_for(who@) is None,
            },
    {
        let ghost p = |a: AcceptedDuelView| involves(a, who@);
        let mut i: usize = 0;
        while i < self.accepted_duels.len()
            invariant
                0 <= i <= self.accepted_duels.len(),
                p == |a: AcceptedDuelView| involves(a, who@),
                forall|j: int| 0 <= j < i ==> !p(#[trigger] self@.accepted_duels[j]),
            decreases self.accepted_duels.len() - i,
        {
            if self.accepted_duels[i].challenger_id.as_str().eq(who)
                || self.accepted_duels[i].challenged_id.as_str().eq(who) {
                proof {
                    lemma_first_index_is(self@.accepted_duels, p, i as int);
                }
                return Some(i);
            }
            i += 1;
        }
        proof {
            lemma_first_index_is(self@.accepted_duels, p, i as int);
        }
        None
    }

    /// The position of the row of the duel `duel_id`.
    pub fn find_accepted_of(&self, duel_id: i32) -> (r: Option<usize>)
        ensures
            match r {
                Some(i) => self@.accepted_of(duel_id as int) == Some(i as int) && i
                    < self.accepted_duels.len(),
                None => self@.accepted_of(duel_id as int) is None,
            },
    {
        let ghost p = |a: AcceptedDuelView| a.duel_id == duel_id as int;
        let mut i: usize = 0;
        while i < self.accepted_duels.len()
            invariant
                0 <= i <= self.accepted_duels.len(),
                p == |a: AcceptedDuelView| a.duel_id == duel_id as int,
                forall|j: int| 0 <= j < i ==> !p(#[trigger] self@.accepted_duels[j]),
            decreases self.accepted_duels.len() - i,
        {
            if self.accepted_duels[i].duel_id == duel_id {
                proof {
                    lemma_first_index_is(self@.accepted_duels, p, i as int);
                }
                return Some(i);
            }
            i += 1;
        }
        proof {
            lemma_first_index_is(self@.accepted_duels, p, i as int);
        }
        None
    }

    /// The row of the duel under way that involves the participant `responder`.
    pub fn get_accepted_duel(&self, responder: &str) -> (r: Option<AcceptedDuel>)
        ensures
            match self@.accepted_for(responder@) {
                Some(i) => r is Some && r->0@ == self@.accepted_duels[i],
                None => r is None,
            },
    {
        match self.find_accepted(responder) {
            Some(i) => Some(self.accepted_duels[i].clone()),
            None => None,
        }
    }

    /// Records that the duel `duel_id` between the two participants is under
    /// way. Refused where the duel or one of them already has such a row.
    pub fn create_accepted_duel(
        &mut self,
        duel_id: i32,
        challenger_id: &str,
        challenged_id: &str,
        now: i64,
    ) -> (r: Result<AcceptedDuel, StoreError>)
        requires
            old(self)@.wf(),
        ensures
            final(self)@.wf(),
            match old(self)@.create_accepted_error(duel_id as int, challenger_id@, challenged_id@) {
                Some(e) => r == Err::<AcceptedDuel, StoreError>(e) && final(self)@ == old(self)@,
                None => r is Ok && r->Ok_0@ == old(self)@.new_accepted(
                    duel_id as int,
                    challenger_id@,
                    challenged_id@,
                    now as int,
                ) && final(self)@ == old(self)@.push_accepted(r->Ok_0@),
            },
    {
        if self.find_accepted_of(duel_id).is_some() || self.find_accepted(challenger_id).is_some()
            || self.find_accepted(challenged_id).is_some() {
            return Err(StoreError::Duplicate);
        }
        let n = self.accepted_duels.len();
        let id: i32 = if n == 0 {
            1
        } else {
            let last = self.accepted_duels[n - 1].id;
            if last < 1 {
                1
            } else if last == i32::MAX {
                return Err(StoreError::Full);
            } else {
                last + 1
            }
        };
        let row = AcceptedDuel {
            id,
            duel_id,
            challenger_id: challenger_id.to_owned(),
            challenged_id: challenged_id.to_owned(),
            created_at: Some(now),
        };
        let copy = row.clone();
        self.accepted_duels.push(row);
        proof {
            let before = old(self)@;
            assert(self@.accepted_duels =~= before.push_accepted(copy@).accepted_duels);
            lemma_first_index(
                before.accepted_duels,
                |a: AcceptedDuelView| a.duel_id == duel_id as int,
            );
            lemma_first_index(
                before.accepted_duels,
                |a: AcceptedDuelView| involves(a, challenger_id@),
            );
            lemma_first_index(
                before.accepted_duels,
                |a: AcceptedDuelView| involves(a, challenged_id@),
            );
        }
        Ok(copy)
    }

    /// Removes the row of the duel `id` from the duels under way.
    pub fn destroy_accepted_duel(&mut self, id: i32)
        requires
            old(self)@.wf(),
        ensures
            final(self)@.wf(),
            final(self)@ == old(self)@.destroy_accepted_duel(id as int),
            final(self)@.accepted_of(id as int) is None,
    {
        match self.find_accepted_of(id) {
            Some(i) => {
                self.accepted_duels.remove(i);
                proof {
                    let before = old(self)@.accepted_duels;
                    let after = before.remove(i as int);
                    let p = |a: AcceptedDuelView| a.duel_id == id as int;
                    assert(self@.accepted_duels =~= after);
                    lemma_first_index(before, p);
                    assert(before[i as int].duel_id == id);
                    assert forall|j: int| 0 <= j < after.len() implies !p(#[trigger] after[j]) by {
                        if j < i {
                            assert(after[j] == before[j]);
                            assert(before[j].duel_id != before[i as int].duel_id);
                        } else {
                            assert(after[j] == before[j + 1]);
                            assert(before[i as int].duel_id != before[j + 1].duel_id);
                        }
                    }
                    lemma_first_index_is(after, p, after.len() as int);
                }
            },
            None => {},
        }
    }
}

} // verus!
