//! The life of a duel: acceptance, the question, the answers and the
//! completion, with the points that change hands.

use crate::chatter::{add_loss, add_points, add_win, bumped, credited, debited, subtract_points};
use crate::db::{
    lemma_chatter_at, lemma_chatter_at_kept, lemma_complete_duel_wf, lemma_destroy_accepted,
    lemma_duel_at, lemma_with_chatter_wf, Store, StoreError, StoreView,
};
use crate::messaging::{Outgoing, send_msg, send_view};
use crate::models::{ChatterView, Duel, DuelStatus, DuelView, POINTS_FLOOR, Question};
use crate::text::{lowercase, trim, trimmed};
use vstd::prelude::*;

verus! {

/// A text as answers are compared: in lower case, without the white space
/// at its ends.
pub open spec fn normalized(s: Seq<char>) -> Seq<char> {
    trimmed(lowercase(s))
}

/// Brings a text into the form in which answers are compared.
pub fn normalize(s: &str) -> (r: String)
    ensures
        r@ == normalized(s@),
{
    let lower = s.to_lowercase();
    trim(lower.as_str())
}

/// Half of a wager, rounded down.
pub open spec fn half(points: int) -> int {
    points / 2
}

/// The announcement of a question to the two sides of a duel.
pub open spec fn question_text(
    challenger: Seq<char>,
    challenged: Seq<char>,
    category: Seq<char>,
    question: Seq<char>,
) -> Seq<char> {
    "@"@ + challenger + " @"@ + challenged + " - format: '!a <answer>' - "@ + category + ": "@
        + question
}

/// The question of a duel, said once more to its two sides.
pub open spec fn repeat_text(
    challenger: Seq<char>,
    challenged: Seq<char>,
    question: Seq<char>,
) -> Seq<char> {
    "@"@ + challenger + " @"@ + challenged + " your question is: "@ + question
}

impl DuelView {
    /// The duel is between two different participants, the wager is not
    /// negative and no guess counter lies below zero.
    pub open spec fn wf(self) -> bool {
        &&& self.points >= 0
        &&& self.challenger_guesses >= 0
        &&& self.challenged_guesses >= 0
        &&& self.challenger_id != self.challenged_id
    }

    /// Whether `answer` is the answer of the duel's question, compared in
    /// lower case and without the white space at the ends. A duel without a
    /// question has no right answer.
    pub open spec fn is_winner(self, answer: Seq<char>) -> bool {
        match self.answer {
            Some(a) => normalized(answer) == normalized(a),
            None => false,
        }
    }

    /// The question said once more; nothing where the duel has none.
    pub open spec fn repeat_question(self) -> Option<Seq<char>> {
        match self.question {
            Some(q) => Some(repeat_text(self.challenger, self.challenged, q)),
            None => None,
        }
    }
}

impl StoreView {
    /// The store after both sides of the duel `d` have used up their
    /// guesses: each loses half the wager, rounded down, and the duel is
    /// completed without a winner.
    pub open spec fn exhaust(self, d: DuelView, now: int) -> StoreView {
        self.subtract_points(d.challenger_id, half(d.points)).subtract_points(
            d.challenged_id,
            half(d.points),
        ).complete_tie(d.id, now)
    }

    /// Whether the duel `id` between the two participants can start: it
    /// awaits acceptance, and neither of them is in a duel under way.
    pub open spec fn can_start(
        self,
        id: int,
        challenger_id: Seq<char>,
        challenged_id: Seq<char>,
    ) -> bool {
        self.can_accept(id) && self.create_accepted_error(id, challenger_id, challenged_id)
            is None
    }

    /// The store after the duel `id` has started: the duel is accepted and
    /// has its row among the duels under way.
    pub open spec fn start_duel(
        self,
        id: int,
        challenger_id: Seq<char>,
        challenged_id: Seq<char>,
        now: int,
    ) -> StoreView {
        self.push_accepted(self.new_accepted(id, challenger_id, challenged_id, now)).accept_duel(
            id,
            now,
        )
    }

    /// The store after the duel `id` with the wager `wager` was won: the
    /// winner gains the wager and a win, the loser loses half the wager,
    /// rounded down, and gains a loss; the duel is completed with its winner,
    /// and its row among the duels under way is gone.
    pub open spec fn award_winner(
        self,
        id: int,
        wager: int,
        winner: Seq<char>,
        winner_id: Seq<char>,
        loser_id: Seq<char>,
        now: int,
    ) -> StoreView {
        self.add_points(winner_id, wager).add_win(winner_id).add_loss(loser_id).subtract_points(
            loser_id,
            half(wager),
        ).complete_duel(id, Some(winner), now).destroy_accepted_duel(id)
    }

    /// The store after the duel `id` was completed without a winner and
    /// without any points changing hands.
    pub open spec fn complete_tie(self, id: int, now: int) -> StoreView {
        self.complete_duel(id, None, now).destroy_accepted_duel(id)
    }
}

/// What winning a duel does. The winner's balance grows by the wager, or
/// stays where the sum would overflow, and they have one win more. The
/// loser's balance shrinks by half the wager, rounded down, but not below
/// the floor, and they have one loss more. Nobody else's account changes.
/// The duel is completed with the winner's name, no other duel changes,
/// and the duel has no row among the duels under way any more.
pub proof fn lemma_award_winner(
    s: StoreView,
    id: int,
    wager: int,
    winner: Seq<char>,
    winner_id: Seq<char>,
    loser_id: Seq<char>,
    now: int,
)
    requires
        s.wf(),
        wager >= 0,
        winner_id != loser_id,
        s.chatter_at(winner_id) is Some,
        s.chatter_at(loser_id) is Some,
        s.can_complete(id),
    ensures
        ({
            let t = s.award_winner(id, wager, winner, winner_id, loser_id, now);
            let w = s.chatter_at(winner_id).unwrap();
            let l = s.chatter_at(loser_id).unwrap();
            let j = s.duel_at(id).unwrap();
            &&& t.wf()
            &&& t.chatters.len() == s.chatters.len()
            &&& t.chatters[w] == ChatterView {
                points: credited(s.chatters[w].points, wager),
                wins: bumped(s.chatters[w].wins),
                ..s.chatters[w]
            }
            &&& t.chatters[l] == ChatterView {
                points: debited(s.chatters[l].points, half(wager)),
                losses: bumped(s.chatters[l].losses),
                ..s.chatters[l]
            }
            &&& s.chatters[w].points + wager <= i64::MAX ==> t.chatters[w].points
                == s.chatters[w].points + wager
            &&& s.chatters[l].points - half(wager) >= POINTS_FLOOR ==> t.chatters[l].points
                == s.chatters[l].points - half(wager)
            &&& forall|k: int|
                0 <= k < s.chatters.len() && k != w && k != l ==> t.chatters[k] == s.chatters[k]
            &&& t.duels.len() == s.duels.len()
            &&& t.duels[j] == DuelView {
                status: DuelStatus::Completed,
                winner: Some(winner),
                updated_at: now,
                ..s.duels[j]
            }
            &&& forall|k: int| 0 <= k < s.duels.len() && k != j ==> t.duels[k] == s.duels[k]
            &&& t.accepted_of(id) is None
        }),
{
    lemma_chatter_at(s, winner_id);
    lemma_chatter_at(s, loser_id);
    lemma_duel_at(s, id);
    let w = s.chatter_at(winner_id).unwrap();
    let l = s.chatter_at(loser_id).unwrap();
    let c1 = ChatterView { points: credited(s.chatters[w].points, wager), ..s.chatters[w] };
    let s1 = s.add_points(winner_id, wager);
    assert(s1 == s.with_chatter(w, c1));
    lemma_with_chatter_wf(s, w, c1);
    lemma_chatter_at_kept(s, w, c1, winner_id);
    lemma_chatter_at_kept(s, w, c1, loser_id);
    let c2 = ChatterView { wins: bumped(c1.wins), ..c1 };
    let s2 = s1.add_win(winner_id);
    assert(s2 == s1.with_chatter(w, c2));
    lemma_with_chatter_wf(s1, w, c2);
    lemma_chatter_at_kept(s1, w, c2, loser_id);
    let c3 = ChatterView { losses: bumped(s.chatters[l].losses), ..s.chatters[l] };
    let s3 = s2.add_loss(loser_id);
    assert(s2.chatters[l] == s.chatters[l]);
    assert(s3 == s2.with_chatter(l, c3));
    lemma_with_chatter_wf(s2, l, c3);
    lemma_chatter_at_kept(s2, l, c3, loser_id);
    let c4 = ChatterView { points: debited(c3.points, half(wager)), ..c3 };
    let s4 = s3.subtract_points(loser_id, half(wager));
    assert(s4 == s3.with_chatter(l, c4));
    lemma_with_chatter_wf(s3, l, c4);
    let s5 = s4.complete_duel(id, Some(winner), now);
    assert(s4.duels == s.duels);
    lemma_complete_duel_wf(s4, id, Some(winner), now);
    lemma_destroy_accepted(s5, id);
}

/// What an exhausted duel does. Each side's balance shrinks by half the
/// wager, rounded down, but not below the floor; nobody wins and nobody's
/// wins or losses change. The duel is completed without a winner, and it
/// has no row among the duels under way any more.
pub proof fn lemma_exhaust(s: StoreView, d: DuelView, now: int)
    requires
        s.wf(),
        d.wf(),
        s.chatter_at(d.challenger_id) is Some,
        s.chatter_at(d.challenged_id) is Some,
        s.can_complete(d.id),
    ensures
        ({
            let t = s.exhaust(d, now);
            let a = s.chatter_at(d.challenger_id).unwrap();
            let b = s.chatter_at(d.challenged_id).unwrap();
            let j = s.duel_at(d.id).unwrap();
            &&& t.wf()
            &&& t.chatters.len() == s.chatters.len()
            &&& t.chatters[a] == ChatterView {
                points: debited(s.chatters[a].points, half(d.points)),
                ..s.chatters[a]
            }
            &&& t.chatters[b] == ChatterView {
                points: debited(s.chatters[b].points, half(d.points)),
                ..s.chatters[b]
            }
            &&& s.chatters[a].points - half(d.points) >= POINTS_FLOOR ==> t.chatters[a].points
                == s.chatters[a].points - half(d.points)
            &&& s.chatters[b].points - half(d.points) >= POINTS_FLOOR ==> t.chatters[b].points
                == s.chatters[b].points - half(d.points)
            &&& forall|k: int|
                0 <= k < s.chatters.len() && k != a && k != b ==> t.chatters[k] == s.chatters[k]
            &&& t.duels.len() == s.duels.len()
            &&& t.duels[j] == DuelView {
                status: DuelStatus::Completed,
                winner: None,
                updated_at: now,
                ..s.duels[j]
            }
            &&& t.accepted_of(d.id) is None
        }),
{
    lemma_chatter_at(s, d.challenger_id);
    lemma_chatter_at(s, d.challenged_id);
    lemma_duel_at(s, d.id);
    let a = s.chatter_at(d.challenger_id).unwrap();
    let b = s.chatter_at(d.challenged_id).unwrap();
    let c1 = ChatterView { points: debited(s.chatters[a].points, half(d.points)), ..s.chatters[a] };
    let s1 = s.subtract_points(d.challenger_id, half(d.points));
    assert(s1 == s.with_chatter(a, c1));
    lemma_with_chatter_wf(s, a, c1);
    lemma_chatter_at_kept(s, a, c1, d.challenged_id);
    let c2 = ChatterView { points: debited(s.chatters[b].points, half(d.points)), ..s.chatters[b] };
    let s2 = s1.subtract_points(d.challenged_id, half(d.points));
    assert(s1.chatters[b] == s.chatters[b]);
    assert(s2 == s1.with_chatter(b, c2));
    lemma_with_chatter_wf(s1, b, c2);
    let s3 = s2.complete_duel(d.id, None, now);
    assert(s2.duels == s.duels);
    lemma_complete_duel_wf(s2, d.id, None, now);
    lemma_destroy_accepted(s3, d.id);
}

/// Whether `after` can be a later state of the duel `before`: it is the
/// same duel between the same two, with the same wager; its status has not
/// gone back and its guess counters have not grown; a question, once set,
/// is still the same; and a completed duel has not changed at all.
pub open spec fn duel_moved_on(before: DuelView, after: DuelView) -> bool {
    &&& after.id == before.id
    &&& after.points == before.points
    &&& after.challenger == before.challenger
    &&& after.challenged == before.challenged
    &&& after.challenger_id == before.challenger_id
    &&& after.challenged_id == before.challenged_id
    &&& after.created_at == before.created_at
    &&& after.status.rank() >= before.status.rank()
    &&& after.challenger_guesses <= before.challenger_guesses
    &&& after.challenged_guesses <= before.challenged_guesses
    &&& before.question is Some ==> after.question == before.question && after.answer
        == before.answer
    &&& before.status == DuelStatus::Completed ==> after == before
}

/// Whether the duels `after` can be a later state of the duels `before`:
/// every duel is still there, in its place, and has only moved on.
pub open spec fn duels_moved_on(before: Seq<DuelView>, after: Seq<DuelView>) -> bool {
    &&& before.len() <= after.len()
    &&& forall|i: int| 0 <= i < before.len() ==> duel_moved_on(before[i], #[trigger] after[i])
}

/// Moving on is transitive.
pub proof fn lemma_moved_on_twice(a: Seq<DuelView>, b: Seq<DuelView>, c: Seq<DuelView>)
    requires
        duels_moved_on(a, b),
        duels_moved_on(b, c),
    ensures
        duels_moved_on(a, c),
{
    assert forall|i: int| 0 <= i < a.len() implies duel_moved_on(a[i], #[trigger] c[i]) by {
        assert(duel_moved_on(a[i], b[i]));
        assert(duel_moved_on(b[i], c[i]));
    }
}

/// Every operation of the store on duels only moves duels on: none goes
/// back to an earlier status, none leaves the completed status or changes
/// in it, no guess counter grows, and no wager, participant or question
/// that is set changes.
pub proof fn lemma_store_moves_duels_on(
    s: StoreView,
    id: int,
    d: DuelView,
    text: Seq<char>,
    winner: Option<Seq<char>>,
    side: bool,
    now: int,
)
    ensures
        duels_moved_on(s.duels, s.duels),
        duels_moved_on(s.duels, s.push_duel(d).duels),
        duels_moved_on(s.duels, s.accept_duel(id, now).duels),
        duels_moved_on(s.duels, s.set_question_duel(id, text, text, now).duels),
        duels_moved_on(s.duels, s.complete_duel(id, winner, now).duels),
        duels_moved_on(s.duels, s.decrement_guesses(id, side, now).duels),
        duels_moved_on(s.duels, s.complete_tie(id, now).duels),
{
    lemma_duel_at(s, id);
}

/// Winning, exhausting and starting a duel only move duels on.
pub proof fn lemma_duel_steps_move_on(
    s: StoreView,
    d: DuelView,
    winner: Seq<char>,
    winner_id: Seq<char>,
    loser_id: Seq<char>,
    now: int,
)
    ensures
        duels_moved_on(
            s.duels,
            s.award_winner(d.id, d.points, winner, winner_id, loser_id, now).duels,
        ),
        duels_moved_on(s.duels, s.exhaust(d, now).duels),
        duels_moved_on(s.duels, s.start_duel(d.id, d.challenger_id, d.challenged_id, now).duels),
{
    let a = s.add_points(winner_id, d.points).add_win(winner_id).add_loss(
        loser_id,
    ).subtract_points(loser_id, half(d.points));
    assert(a.duels == s.duels);
    lemma_duel_at(a, d.id);
    let b = s.subtract_points(d.challenger_id, half(d.points)).subtract_points(
        d.challenged_id,
        half(d.points),
    );
    assert(b.duels == s.duels);
    lemma_duel_at(b, d.id);
    lemma_duel_at(s, d.id);
}

impl Store {
    /// Whether the duel `id` exists and awaits acceptance.
    pub fn is_challenged(&self, id: i32) -> (r: bool)
        ensures
            r == self@.can_accept(id as int),
    {
        match self.find_duel(id) {
            Some(i) => self.duels[i].status == DuelStatus::Challenged,
            None => false,
        }
    }

    /// Whether the duel `id` exists and is under way.
    pub fn is_under_way(&self, id: i32) -> (r: bool)
        ensures
            r == self@.can_complete(id as int),
    {
        match self.find_duel(id) {
            Some(i) => self.duels[i].status == DuelStatus::Accepted,
            None => false,
        }
    }
}

impl Duel {
    /// Records a new challenge in the store and returns it. The challenger
    /// is not the challenged, and the wager is not negative.
    pub fn new(
        store: &mut Store,
        challenger: &str,
        challenged: &str,
        challenger_id: &str,
        challenged_id: &str,
        points: i64,
        now: i64,
    ) -> (r: Result<Duel, StoreError>)
        requires
            old(store)@.wf(),
            points >= 0,
            challenger_id@ != challenged_id@,
        ensures
            final(store)@.wf(),
            old(store)@.next_duel_id() > i32::MAX ==> r == Err::<Duel, StoreError>(StoreError::Full)
                && final(store)@ == old(store)@,
            old(store)@.next_duel_id() <= i32::MAX ==> r is Ok && r->Ok_0@ == old(store)@.new_duel(
                challenger@,
                challenged@,
                challenger_id@,
                challenged_id@,
                points as int,
                now as int,
            ) && final(store)@ == old(store)@.push_duel(r->Ok_0@),
    {
        store.create_duel(challenger, challenged, challenger_id, challenged_id, points, now)
    }

    /// Starts the duel: it becomes accepted in the store and gets its row
    /// among the duels under way. Returns whether it started; where it
    /// cannot start, nothing changes.
    pub fn accept_duel(&mut self, store: &mut Store, now: i64) -> (r: bool)
        requires
            old(store)@.wf(),
        ensures
            final(store)@.wf(),
            r == old(store)@.can_start(
                old(self)@.id,
                old(self)@.challenger_id,
                old(self)@.challenged_id,
            ),
            r ==> final(store)@ == old(store)@.start_duel(
                old(self)@.id,
                old(self)@.challenger_id,
                old(self)@.challenged_id,
                now as int,
            ),
            r ==> final(self)@ == (DuelView {
                status: DuelStatus::Accepted,
                updated_at: now as int,
                ..old(self)@
            }),
            !r ==> final(store)@ == old(store)@ && final(self)@ == old(self)@,
    {
        if !store.is_challenged(self.id) {
            return false;
        }
        match store.create_accepted_duel(
            self.id,
            self.challenger_id.as_str(),
            self.challenged_id.as_str(),
            now,
        ) {
            Err(_) => false,
            Ok(_) => {
                store.accept_duel(self.id, now);
                self.status = DuelStatus::Accepted;
                self.updated_at = now;
                true
            },
        }
    }

    /// Puts the question to both sides of the duel and attaches it, with
    /// its answer, to the duel in the store. Only a duel that is under way and
    /// has no question yet takes one; the announcement is made either way.
    pub fn ask_question(&mut self, store: &mut Store, question: &Question, now: i64) -> (r:
        Outgoing)
        requires
            old(store)@.wf(),
        ensures
            final(store)@.wf(),
            final(store)@ == old(store)@.set_question_duel(
                old(self)@.id,
                question@.question,
                question@.answer,
                now as int,
            ),
            final(self)@ == if old(store)@.can_set_question(old(self)@.id) {
                DuelView {
                    question: Some(question@.question),
                    answer: Some(question@.answer),
                    updated_at: now as int,
                    ..old(self)@
                }
            } else {
                old(self)@
            },
            r@ == send_view(
                question_text(
                    old(self)@.challenger,
                    old(self)@.challenged,
                    old(store)@.category_label(question@.category_id),
                    question@.question,
                ),
            ),
    {
        let category = store.category_label(question.category_id);
        let mut text = String::from_str("@");
        text.append(self.challenger.as_str());
        text.append(" @");
        text.append(self.challenged.as_str());
        text.append(" - format: '!a <answer>' - ");
        text.append(category.as_str());
        text.append(": ");
        text.append(question.question.as_str());
        if store.set_question_duel(self.id, question.question.as_str(), question.answer.as_str(), now) {
            self.question = Some(question.question.clone());
            self.answer = Some(question.answer.clone());
            self.updated_at = now;
        }
        send_msg(text.as_str())
    }

    /// Whether `answer` is the answer of the duel's question, compared in
    /// lower case and without the white space at the ends.
    pub fn is_winner(&self, answer: &str) -> (r: bool)
        ensures
            r == self@.is_winner(answer@),
    {
        match &self.answer {
            Some(a) => {
                let guess = normalize(answer);
                let correct_answer = normalize(a.as_str());
                guess == correct_answer
            },
            None => false,
        }
    }

    /// The question of the duel, said once more to both sides. Nothing is
    /// drawn anew and nothing changes.
    pub fn repeat_question(&self) -> (r: Option<Outgoing>)
        ensures
            match self@.repeat_question() {
                Some(t) => r is Some && r->0@ == send_view(t),
                None => r is None,
            },
    {
        match &self.question {
            Some(q) => {
                let mut text = String::from_str("@");
                text.append(self.challenger.as_str());
                text.append(" @");
                text.append(self.challenged.as_str());
                text.append(" your question is: ");
                text.append(q.as_str());
                Some(send_msg(text.as_str()))
            },
            None => None,
        }
    }

    /// Settles a duel that was won. Where the duel is under way in the
    /// store, the winner gains the wager and a win, the loser loses half the
    /// wager and gains a loss, and the duel is completed; returns whether it
    /// was. A duel that is not under way is left alone.
    pub fn award_winner(
        &mut self,
        store: &mut Store,
        duel_winner: &str,
        duel_winner_id: &str,
        duel_loser_id: &str,
        now: i64,
    ) -> (r: bool)
        requires
            old(store)@.wf(),
            old(self)@.wf(),
        ensures
            final(store)@.wf(),
            r == old(store)@.can_complete(old(self)@.id),
            r ==> final(store)@ == old(store)@.award_winner(
                old(self)@.id,
                old(self)@.points,
                duel_winner@,
                duel_winner_id@,
                duel_loser_id@,
                now as int,
            ),
            r ==> final(self)@ == (DuelView {
                winner: Some(duel_winner@),
                status: DuelStatus::Completed,
                updated_at: now as int,
                ..old(self)@
            }),
            !r ==> final(store)@ == old(store)@ && final(self)@ == old(self)@,
    {
        if !store.is_under_way(self.id) {
            return false;
        }
        add_points(store, duel_winner_id, self.points);
        add_win(store, duel_winner_id);
        add_loss(store, duel_loser_id);
        subtract_points(store, duel_loser_id, self.points / 2);
        store.complete_duel(self.id, Some(duel_winner), now);
        store.destroy_accepted_duel(self.id);
        self.winner = Some(duel_winner.to_owned());
        self.status = DuelStatus::Completed;
        self.updated_at = now;
        true
    }

    /// Takes one guess from the challenger; a counter at zero stays at zero.
    pub fn decrement_challenger_guesses(&mut self, store: &mut Store, now: i64)
        requires
            old(store)@.wf(),
        ensures
            final(store)@.wf(),
            final(store)@ == old(store)@.decrement_guesses(old(self)@.id, true, now as int),
            final(self)@ == if old(self)@.challenger_guesses > 0 {
                DuelView { challenger_guesses: old(self)@.challenger_guesses - 1, ..old(self)@ }
            } else {
                old(self)@
            },
    {
        store.decrement_guesses(self.id, true, now);
        if self.challenger_guesses > 0 {
            self.challenger_guesses = self.challenger_guesses - 1;
        }
    }

    /// Takes one guess from the challenged; a counter at zero stays at zero.
    pub fn decrement_challenged_guesses(&mut self, store: &mut Store, now: i64)
        requires
            old(store)@.wf(),
        ensures
            final(store)@.wf(),
            final(store)@ == old(store)@.decrement_guesses(old(self)@.id, false, now as int),
            final(self)@ == if old(self)@.challenged_guesses > 0 {
                DuelView { challenged_guesses: old(self)@.challenged_guesses - 1, ..old(self)@ }
            } else {
                old(self)@
            },
    {
        store.decrement_guesses(self.id, false, now);
        if self.challenged_guesses > 0 {
            self.challenged_guesses = self.challenged_guesses - 1;
        }
    }

    /// Completes the duel without a winner and without any points changing
    /// hands: the duel is completed in the store and its row among the duels
    /// under way is gone. The index of pending duels is not concerned: a duel
    /// that can be completed has left it when it was accepted.
    pub fn complete_duel(&mut self, store: &mut Store, now: i64)
        requires
            old(store)@.wf(),
        ensures
            final(store)@.wf(),
            final(store)@ == old(store)@.complete_tie(old(self)@.id, now as int),
            final(self)@ == (DuelView {
                winner: None,
                status: DuelStatus::Completed,
                updated_at: now as int,
                ..old(self)@
            }),
    {
        store.complete_duel(self.id, None, now);
        store.destroy_accepted_duel(self.id);
        self.winner = None;
        self.status = DuelStatus::Completed;
        self.updated_at = now;
    }
}

} // verus!
