//! The table of duels: every challenge from its issue to its completion.

use crate::db::{next_id, Store, StoreError, StoreView};
use crate::models::{Duel, DuelStatus, DuelView, GUESS_BUDGET};
use crate::search::{find_first, keep, lemma_first_index, lemma_first_index_is};
use vstd::prelude::*;

verus! {

impl StoreView {
    /// The position of the duel numbered `id`.
    pub open spec fn duel_at(self, id: int) -> Option<int> {
        find_first(self.duels, |d: DuelView| d.id == id)
    }

    /// The identifier that the next duel gets.
    pub open spec fn next_duel_id(self) -> int {
        next_id(
            if self.duels.len() > 0 {
                Some(self.duels.last().id)
            } else {
                None
            },
        )
    }

    /// A new duel as the store creates it: challenged, both sides with their
    /// full guess budget, no question and no winner yet.
    pub open spec fn new_duel(
        self,
        challenger: Seq<char>,
        challenged: Seq<char>,
        challenger_id: Seq<char>,
        challenged_id: Seq<char>,
        points: int,
        now: int,
    ) -> DuelView {
        DuelView {
            id: self.next_duel_id(),
            points: points,
            challenger: challenger,
            challenged: challenged,
            winner: None,
            status: DuelStatus::Challenged,
            created_at: now,
            updated_at: now,
            question: None,
            answer: None,
            challenger_id: challenger_id,
            challenged_id: challenged_id,
            challenger_guesses: GUESS_BUDGET as int,
            challenged_guesses: GUESS_BUDGET as int,
        }
    }

    /// The store with the duel `d` added.
    pub open spec fn push_duel(self, d: DuelView) -> StoreView {
        StoreView { duels: self.duels.push(d), ..self }
    }

    /// The store with the duel at position `i` replaced by `d`.
    pub open spec fn with_duel(self, i: int, d: DuelView) -> StoreView {
        StoreView { duels: self.duels.update(i, d), ..self }
    }

    /// Whether the duel `id` exists and awaits acceptance.
    pub open spec fn can_accept(self, id: int) -> bool {
        match self.duel_at(id) {
            Some(i) => self.duels[i].status == DuelStatus::Challenged,
            None => false,
        }
    }

    /// The store with the duel `id` moved from challenged to accepted.
    pub open spec fn accept_duel(self, id: int, now: int) -> StoreView {
        if self.can_accept(id) {
            let i = self.duel_at(id).unwrap();
            self.with_duel(
                i,
                DuelView { status: DuelStatus::Accepted, updated_at: now, ..self.duels[i] },
            )
        } else {
            self
        }
    }

    /// Whether the duel `id` is accepted and has no question yet.
    pub open spec fn can_set_question(self, id: int) -> bool {
        match self.duel_at(id) {
            Some(i) => self.duels[i].status == DuelStatus::Accepted && self.duels[i].question
                is None,
            None => false,
        }
    }

    /// The store with the question and its answer attached to the duel `id`.
    pub open spec fn set_question_duel(
        self,
        id: int,
        question: Seq<char>,
        answer: Seq<char>,
        now: int,
    ) -> StoreView {
        if self.can_set_question(id) {
            let i = self.duel_at(id).unwrap();
            self.with_duel(
                i,
                DuelView {
                    question: Some(question),
                    answer: Some(answer),
                    updated_at: now,
                    ..self.duels[i]
                },
            )
        } else {
            self
        }
    }

    /// Whether the duel `id` is under way.
    pub open spec fn can_complete(self, id: int) -> bool {
        match self.duel_at(id) {
            Some(i) => self.duels[i].status == DuelStatus::Accepted,
            None => false,
        }
    }

    /// The store with the duel `id` moved from accepted to completed, with
    /// the given winner.
    pub open spec fn complete_duel(self, id: int, winner: Option<Seq<char>>, now: int) -> StoreView {
        if self.can_complete(id) {
            let i = self.duel_at(id).unwrap();
            self.with_duel(
                i,
                DuelView {
                    status: DuelStatus::Completed,
                    winner: winner,
                    updated_at: now,
                    ..self.duels[i]
                },
            )
        } else {
            self
        }
    }

    /// Whether the duel `id` is under way and the given side has a guess left.
    pub open spec fn can_decrement(self, id: int, is_challenger: bool) -> bool {
        match self.duel_at(id) {
            Some(i) => self.duels[i].status == DuelStatus::Accepted && if is_challenger {
                self.duels[i].challenger_guesses > 0
            } else {
                self.duels[i].challenged_guesses > 0
            },
            None => false,
        }
    }

    /// The store with one guess taken from the given side of the duel `id`.
    pub open spec fn decrement_guesses(self, id: int, is_challenger: bool, now: int) -> StoreView {
        if self.can_decrement(id, is_challenger) {
            let i = self.duel_at(id).unwrap();
            if is_challenger {
                self.with_duel(
                    i,
                    DuelView {
                        challenger_guesses: self.duels[i].challenger_guesses - 1,
                        updated_at: now,
                        ..self.duels[i]
                    },
                )
            } else {
                self.with_duel(
                    i,
                    DuelView {
                        challenged_guesses: self.duels[i].challenged_guesses - 1,
                        updated_at: now,
                        ..self.duels[i]
                    },
                )
            }
        } else {
            self
        }
    }

    /// The challenges that await acceptance by the participant `challenged_id`.
    pub open spec fn challenges(self, challenged_id: Seq<char>) -> Seq<DuelView> {
        keep(
            self.duels,
            |d: DuelView| d.challenged_id == challenged_id && d.status == DuelStatus::Challenged,
        )
    }
}

/// Where the duel `id` is found, the duel there has that number.
pub proof fn lemma_duel_at(s: StoreView, id: int)
    ensures
        match s.duel_at(id) {
            Some(j) => 0 <= j < s.duels.len() && s.duels[j].id == id,
            None => forall|k: int| 0 <= k < s.duels.len() ==> (#[trigger] s.duels[k]).id != id,
        },
{
    lemma_first_index(s.duels, |d: DuelView| d.id == id);
}

/// Completing a duel keeps the store well-formed and touches no other table.
pub proof fn lemma_complete_duel_wf(s: StoreView, id: int, winner: Option<Seq<char>>, now: int)
    requires
        s.wf(),
    ensures
        s.complete_duel(id, winner, now).wf(),
        s.complete_duel(id, winner, now).duels.len() == s.duels.len(),
{
    lemma_duel_at(s, id);
}

impl Store {
    /// The position of the duel numbered `id`.
    pub fn find_duel(&self, id: i32) -> (r: Option<usize>)
        ensures
            match r {
                Some(i) => self@.duel_at(id as int) == Some(i as int) && i < self.duels.len(),
                None => self@.duel_at(id as int) is None,
            },
    {
        let ghost p = |d: DuelView| d.id == id as int;
        let mut i: usize = 0;
        while i < self.duels.len()
            invariant
                0 <= i <= self.duels.len(),
                p == |d: DuelView| d.id == id as int,
                forall|j: int| 0 <= j < i ==> !p(#[trigger] self@.duels[j]),
            decreases self.duels.len() - i,
        {
            if self.duels[i].id == id {
                proof {
                    lemma_first_index_is(self@.duels, p, i as int);
                }
                return Some(i);
            }
            i += 1;
        }
        proof {
            lemma_first_index_is(self@.duels, p, i as int);
        }
        None
    }

    /// The duel numbered `duel_id`, if there is one.
    pub fn get_duel(&self, duel_id: i32) -> (r: Option<Duel>)
        ensures
            match self@.duel_at(duel_id as int) {
                Some(i) => r is Some && r->0@ == self@.duels[i],
                None => r is None,
            },
    {
        match self.find_duel(duel_id) {
            Some(i) => Some(self.duels[i].clone()),
            None => None,
        }
    }

    /// Records a new challenge between two different participants for a
    /// wager that is not negative. Refused only where the identifiers are
    /// used up.
    pub fn create_duel(
        &mut self,
        challenger: &str,
        challenged: &str,
        challenger_id: &str,
        challenged_id: &str,
        points: i64,
        now: i64,
    ) -> (r: Result<Duel, StoreError>)
        requires
            old(self)@.wf(),
            points >= 0,
            challenger_id@ != challenged_id@,
        ensures
            final(self)@.wf(),
            old(self)@.next_duel_id() > i32::MAX ==> r == Err::<Duel, StoreError>(StoreError::Full)
                && final(self)@ == old(self)@,
            old(self)@.next_duel_id() <= i32::MAX ==> r is Ok && r->Ok_0@ == old(self)@.new_duel(
                challenger@,
                challenged@,
                challenger_id@,
                challenged_id@,
                points as int,
                now as int,
            ) && final(self)@ == old(self)@.push_duel(r->Ok_0@),
    {
        let n = self.duels.len();
        let id: i32 = if n == 0 {
            1
        } else {
            let last = self.duels[n - 1].id;
            if last < 1 {
                1
            } else if last == i32::MAX {
                return Err(StoreError::Full);
            } else {
                last + 1
            }
        };
        let duel = Duel {
            id,
            points,
            challenger: challenger.to_owned(),
            challenged: challenged.to_owned(),
            winner: None,
            status: DuelStatus::Challenged,
            created_at: now,
            updated_at: now,
            question: None,
            answer: None,
            challenger_id: challenger_id.to_owned(),
            challenged_id: challenged_id.to_owned(),
            challenger_guesses: GUESS_BUDGET,
            challenged_guesses: GUESS_BUDGET,
        };
        let copy = duel.clone();
        self.duels.push(duel);
        proof {
            assert(self@.duels =~= old(self)@.push_duel(copy@).duels);
        }
        Ok(copy)
    }

    /// Moves the duel `id` from challenged to accepted. Returns whether it did;
    /// a duel that is missing or past that point is left as it is.
    pub fn accept_duel(&mut self, id: i32, now: i64) -> (r: bool)
        requires
            old(self)@.wf(),
        ensures
            final(self)@.wf(),
            r == old(self)@.can_accept(id as int),
            final(self)@ == old(self)@.accept_duel(id as int, now as int),
    {
        match self.find_duel(id) {
            Some(i) => {
                if self.duels[i].status == DuelStatus::Challenged {
                    self.duels[i].status = DuelStatus::Accepted;
                    self.duels[i].updated_at = now;
                    proof {
                        assert(self@.duels =~= old(self)@.accept_duel(
                            id as int,
                            now as int,
                        ).duels);
                    }
                    true
                } else {
                    false
                }
            },
            None => false,
        }
    }

    /// Attaches the question and its answer to the duel `id`. Returns whether
    /// it did; only an accepted duel without a question takes one.
    pub fn set_question_duel(&mut self, id: i32, question: &str, answer: &str, now: i64) -> (r:
        bool)
        requires
            old(self)@.wf(),
        ensures
            final(self)@.wf(),
            r == old(self)@.can_set_question(id as int),
            final(self)@ == old(self)@.set_question_duel(
                id as int,
                question@,
                answer@,
                now as int,
            ),
    {
        match self.find_duel(id) {
            Some(i) => {
                if self.duels[i].status == DuelStatus::Accepted && self.duels[i].question.is_none() {
                    self.duels[i].question = Some(question.to_owned());
                    self.duels[i].answer = Some(answer.to_owned());
                    self.duels[i].updated_at = now;
                    proof {
                        assert(self@.duels =~= old(self)@.set_question_duel(
                            id as int,
                            question@,
                            answer@,
                            now as int,
                        ).duels);
                    }
                    true
                } else {
                    false
                }
            },
            None => false,
        }
    }

    /// Moves the duel `id` from accepted to completed and records the winner,
    /// `None` for a duel that nobody won. Returns whether it did.
    pub fn complete_duel(&mut self, id: i32, winner: Option<&str>, now: i64) -> (r: bool)
        requires
            old(self)@.wf(),
        ensures
            final(self)@.wf(),
            r == old(self)@.can_complete(id as int),
            final(self)@ == old(self)@.complete_duel(
                id as int,
                match winner {
                    Some(w) => Some(w@),
                    None => None,
                },
                now as int,
            ),
    {
        match self.find_duel(id) {
            Some(i) => {
                if self.duels[i].status == DuelStatus::Accepted {
                    self.duels[i].status = DuelStatus::Completed;
                    self.duels[i].winner = match winner {
                        Some(w) => Some(w.to_owned()),
                        None => None,
                    };
                    self.duels[i].updated_at = now;
                    proof {
                        assert(self@.duels =~= old(self)@.complete_duel(
                            id as int,
                            match winner {
                                Some(w) => Some(w@),
                                None => None,
                            },
                            now as int,
                        ).duels);
                    }
                    true
                } else {
                    false
                }
            },
            None => false,
        }
    }

    /// Takes one guess from the challenger's or the challenged side of the
    /// duel `id`. Returns whether it did; a counter at zero stays at zero.
    pub fn decrement_guesses(&mut self, id: i32, is_challenger: bool, now: i64) -> (r: bool)
        requires
            old(self)@.wf(),
        ensures
            final(self)@.wf(),
            r == old(self)@.can_decrement(id as int, is_challenger),
            final(self)@ == old(self)@.decrement_guesses(id as int, is_challenger, now as int),
    {
        match self.find_duel(id) {
            Some(i) => {
                if self.duels[i].status == DuelStatus::Accepted {
                    if is_challenger && self.duels[i].challenger_guesses > 0 {
                        self.duels[i].challenger_guesses = self.duels[i].challenger_guesses - 1;
                        self.duels[i].updated_at = now;
                        proof {
                            assert(self@.duels =~= old(self)@.decrement_guesses(
                                id as int,
                                is_challenger,
                                now as int,
                            ).duels);
                        }
                        true
                    } else if !is_challenger && self.duels[i].challenged_guesses > 0 {
                        self.duels[i].challenged_guesses = self.duels[i].challenged_guesses - 1;
                        self.duels[i].updated_at = now;
                        proof {
                            assert(self@.duels =~= old(self)@.decrement_guesses(
                                id as int,
                                is_challenger,
                                now as int,
                            ).duels);
                        }
                        true
                    } else {
                        false
                    }
                } else {
                    false
                }
            },
            None => false,
        }
    }

    /// The challenges that await acceptance by the participant `id`, oldest first.
    pub fn get_challenges(&self, id: &str) -> (r: Vec<Duel>)
        ensures
            r@.map_values(|d: Duel| d@) == self@.challenges(id@),
    {
        let ghost p = |d: DuelView| d.challenged_id == id@ && d.status == DuelStatus::Challenged;
        let mut r: Vec<Duel> = Vec::new();
        let mut i: usize = 0;
        proof {
            assert(self@.duels.take(0) =~= Seq::<DuelView>::empty());
            assert(r@.map_values(|d: Duel| d@) =~= keep(self@.duels.take(0), p));
        }
        while i < self.duels.len()
            invariant
                0 <= i <= self.duels.len(),
                p == |d: DuelView| d.challenged_id == id@ && d.status == DuelStatus::Challenged,
                r@.map_values(|d: Duel| d@) == keep(self@.duels.take(i as int), p),
            decreases self.duels.len() - i,
        {
            proof {
                assert(self@.duels.take(i + 1).drop_last() =~= self@.duels.take(i as int));
            }
            if self.duels[i].challenged_id.as_str().eq(id) && self.duels[i].status
                == DuelStatus::Challenged {
                let ghost before = r@.map_values(|d: Duel| d@);
                r.push(self.duels[i].clone());
                proof {
                    assert(r@.map_values(|d: Duel| d@) =~= before.push(self@.duels[i as int]));
                }
            }
            i += 1;
        }
        proof {
            assert(self@.duels.take(i as int) =~= self@.duels);
        }
        r
    }
}

} // verus!
