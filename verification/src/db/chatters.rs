//! The table of chatters: accounts, their balances and their standing.

use crate::db::{floored, next_id, Store, StoreError, StoreView};
use crate::models::{Chatter, ChatterView, POINTS_FLOOR};
use crate::search::{
    find_first, keep, lemma_first_index, lemma_first_index_is, lemma_first_index_same,
};
use vstd::prelude::*;

verus! {

/// How long ago a chatter may have been seen last and still be drawn as a
/// random opponent: thirty minutes.
pub const ACTIVE_WINDOW: i64 = 1_800_000_000;

impl StoreView {
    /// The position of the chatter with the chat identity `twitch_id`.
    pub open spec fn chatter_at(self, twitch_id: Seq<char>) -> Option<int> {
        find_first(self.chatters, |c: ChatterView| c.twitch_id == twitch_id)
    }

    /// The position of the first chatter with the display name `username`.
    pub open spec fn chatter_named(self, username: Seq<char>) -> Option<int> {
        find_first(self.chatters, |c: ChatterView| c.username == username)
    }

    /// The balance of the chatter `twitch_id`; zero for an unknown chatter.
    pub open spec fn points_of(self, twitch_id: Seq<char>) -> int {
        match self.chatter_at(twitch_id) {
            Some(i) => self.chatters[i].points,
            None => 0,
        }
    }

    /// The identifier that the next chatter gets.
    pub open spec fn next_chatter_id(self) -> int {
        next_id(
            if self.chatters.len() > 0 {
                Some(self.chatters.last().id)
            } else {
                None
            },
        )
    }

    /// The store with the chatter at position `i` replaced by `c`.
    pub open spec fn with_chatter(self, i: int, c: ChatterView) -> StoreView {
        StoreView { chatters: self.chatters.update(i, c), ..self }
    }

    /// The store with the balance of chatter `twitch_id` set to `points`, held
    /// at the floor; unchanged where there is no such chatter.
    pub open spec fn update_points(self, twitch_id: Seq<char>, points: int) -> StoreView {
        match self.chatter_at(twitch_id) {
            Some(i) => self.with_chatter(
                i,
                ChatterView { points: floored(points), ..self.chatters[i] },
            ),
            None => self,
        }
    }

    /// The store with the wins of chatter `twitch_id` set to `wins`.
    pub open spec fn update_wins(self, twitch_id: Seq<char>, wins: int) -> StoreView {
        match self.chatter_at(twitch_id) {
            Some(i) => self.with_chatter(i, ChatterView { wins: wins, ..self.chatters[i] }),
            None => self,
        }
    }

    /// The store with the losses of chatter `twitch_id` set to `losses`.
    pub open spec fn update_losses(self, twitch_id: Seq<char>, losses: int) -> StoreView {
        match self.chatter_at(twitch_id) {
            Some(i) => self.with_chatter(i, ChatterView { losses: losses, ..self.chatters[i] }),
            None => self,
        }
    }

    /// The store with the lurk time of chatter `twitch_id` set to `lurk_time`.
    pub open spec fn update_lurk_time(self, twitch_id: Seq<char>, lurk_time: int) -> StoreView {
        match self.chatter_at(twitch_id) {
            Some(i) => self.with_chatter(
                i,
                ChatterView { lurk_time: lurk_time, ..self.chatters[i] },
            ),
            None => self,
        }
    }

    /// A new chatter as the store creates it: no points, wins or losses yet.
    pub open spec fn new_chatter(
        self,
        twitch_id: Seq<char>,
        username: Seq<char>,
        now: int,
    ) -> ChatterView {
        ChatterView {
            id: self.next_chatter_id(),
            twitch_id: twitch_id,
            username: username,
            points: 0,
            wins: 0,
            losses: 0,
            last_seen: now,
            lurk_time: 0,
        }
    }

    /// Whether the store takes a new chatter with the chat identity `twitch_id`.
    pub open spec fn create_chatter_error(self, twitch_id: Seq<char>) -> Option<StoreError> {
        if self.chatter_at(twitch_id) is Some {
            Some(StoreError::Duplicate)
        } else if self.next_chatter_id() > i32::MAX {
            Some(StoreError::Full)
        } else {
            None
        }
    }

    /// The store with a new chatter added.
    pub open spec fn create_chatter(
        self,
        twitch_id: Seq<char>,
        username: Seq<char>,
        now: int,
    ) -> StoreView {
        StoreView {
            chatters: self.chatters.push(self.new_chatter(twitch_id, username, now)),
            ..self
        }
    }

    /// The store after the chatter `twitch_id` was seen at `now` under the
    /// name `username`: a known chatter has the instant and the name written
    /// over, an unknown one is created.
    pub open spec fn record_user_presence(
        self,
        twitch_id: Seq<char>,
        username: Seq<char>,
        now: int,
    ) -> StoreView {
        match self.chatter_at(twitch_id) {
            Some(i) => self.with_chatter(
                i,
                ChatterView { last_seen: now, username: username, ..self.chatters[i] },
            ),
            None => if self.create_chatter_error(twitch_id) is None {
                self.create_chatter(twitch_id, username, now)
            } else {
                self
            },
        }
    }

    /// The place of the chatter at position `i` among all chatters ordered
    /// by their balance, highest first, and by their age in the store where
    /// balances are equal: one more than the number of chatters before them
    /// in that order.
    pub open spec fn rank_at(self, i: int) -> int {
        let mine = self.chatters[i].points;
        1 + keep(self.chatters, |c: ChatterView| c.points > mine).len() as int + keep(
            self.chatters.take(i),
            |c: ChatterView| c.points == mine,
        ).len() as int
    }

    /// The chatters that can be drawn as a random opponent for the chatter
    /// numbered `curr_id`: everyone else who was seen in the last thirty
    /// minutes.
    pub open spec fn opponents(self, curr_id: int, now: int) -> Seq<ChatterView> {
        keep(
            self.chatters,
            |c: ChatterView| c.id != curr_id && c.last_seen > now - ACTIVE_WINDOW,
        )
    }

    /// The opponent that the number `pick` selects for the chatter numbered
    /// `curr_id`: none where nobody can be drawn, else the one at position
    /// `pick` modulo their number.
    pub open spec fn random_chatter(self, curr_id: int, now: int, pick: int) -> Option<
        ChatterView,
    > {
        let all = self.opponents(curr_id, now);
        if all.len() == 0 {
            None
        } else {
            Some(all[pick % (all.len() as int)])
        }
    }
}

/// Replacing a chatter by one of the same chat identity moves no chatter:
/// every chat identity is found where it was.
pub proof fn lemma_chatter_at_kept(s: StoreView, i: int, c: ChatterView, who: Seq<char>)
    requires
        0 <= i < s.chatters.len(),
        c.twitch_id == s.chatters[i].twitch_id,
    ensures
        s.with_chatter(i, c).chatter_at(who) == s.chatter_at(who),
{
    let p = |x: ChatterView| x.twitch_id == who;
    let t = s.with_chatter(i, c);
    assert forall|j: int| 0 <= j < s.chatters.len() implies p(#[trigger] s.chatters[j]) == p(
        t.chatters[j],
    ) by {}
    lemma_first_index_same(s.chatters, t.chatters, p);
}

/// Where the chat identity `who` is found, the chatter there has it.
pub proof fn lemma_chatter_at(s: StoreView, who: Seq<char>)
    ensures
        match s.chatter_at(who) {
            Some(i) => 0 <= i < s.chatters.len() && s.chatters[i].twitch_id == who,
            None => forall|j: int|
                0 <= j < s.chatters.len() ==> (#[trigger] s.chatters[j]).twitch_id != who,
        },
{
    lemma_first_index(s.chatters, |x: ChatterView| x.twitch_id == who);
}

/// Setting a balance keeps the store well-formed, however low the balance:
/// the store holds it at the floor.
pub proof fn lemma_update_points_wf(s: StoreView, who: Seq<char>, points: int)
    requires
        s.wf(),
        points <= i64::MAX,
    ensures
        s.update_points(who, points).wf(),
        s.update_points(who, points).chatters.len() == s.chatters.len(),
{
    lemma_chatter_at(s, who);
}

/// Replacing a chatter by one with the same number, the same chat identity
/// and a balance at the floor or above keeps the store well-formed.
pub proof fn lemma_with_chatter_wf(s: StoreView, i: int, c: ChatterView)
    requires
        s.wf(),
        0 <= i < s.chatters.len(),
        c.id == s.chatters[i].id,
        c.twitch_id == s.chatters[i].twitch_id,
        POINTS_FLOOR <= c.points <= i64::MAX,
    ensures
        s.with_chatter(i, c).wf(),
{
}

/// The position of the chatter with the most wins; of several with the
/// most, the oldest.
pub open spec fn best_index(s: Seq<ChatterView>) -> int
    decreases s.len(),
{
    if s.len() <= 1 {
        0
    } else {
        let b = best_index(s.drop_last());
        if s.last().wins > s[b].wins {
            s.len() - 1
        } else {
            b
        }
    }
}

/// The `n` chatters with the most wins, best first; among equals the
/// oldest first.
pub open spec fn top_by_wins(s: Seq<ChatterView>, n: nat) -> Seq<ChatterView>
    decreases n,
{
    if n == 0 || s.len() == 0 {
        Seq::empty()
    } else {
        seq![s[best_index(s)]] + top_by_wins(s.remove(best_index(s)), (n - 1) as nat)
    }
}

/// There are no more of the best than were asked for.
pub proof fn lemma_top_by_wins_len(s: Seq<ChatterView>, n: nat)
    ensures
        top_by_wins(s, n).len() <= n,
    decreases n,
{
    if n > 0 && s.len() > 0 {
        lemma_top_by_wins_len(s.remove(best_index(s)), (n - 1) as nat);
    }
}

impl Store {
    /// The position of the chatter with the chat identity `twitch_id`.
    pub fn find_chatter(&self, twitch_id: &str) -> (r: Option<usize>)
        ensures
            match r {
                Some(i) => self@.chatter_at(twitch_id@) == Some(i as int) && i < self.chatters.len(),
                None => self@.chatter_at(twitch_id@) is None,
            },
    {
        let ghost p = |c: ChatterView| c.twitch_id == twitch_id@;
        let mut i: usize = 0;
        while i < self.chatters.len()
            invariant
                0 <= i <= self.chatters.len(),
                p == |c: ChatterView| c.twitch_id == twitch_id@,
                forall|j: int| 0 <= j < i ==> !p(#[trigger] self@.chatters[j]),
            decreases self.chatters.len() - i,
        {
            if self.chatters[i].twitch_id.as_str().eq(twitch_id) {
                proof {
                    lemma_first_index_is(self@.chatters, p, i as int);
                }
                return Some(i);
            }
            i += 1;
        }
        proof {
            lemma_first_index_is(self@.chatters, p, i as int);
        }
        None
    }

    /// The position of the first chatter with the display name `username`.
    pub fn find_chatter_by_username(&self, username: &str) -> (r: Option<usize>)
        ensures
            match r {
                Some(i) => self@.chatter_named(username@) == Some(i as int) && i
                    < self.chatters.len(),
                None => self@.chatter_named(username@) is None,
            },
    {
        let ghost p = |c: ChatterView| c.username == username@;
        let mut i: usize = 0;
        while i < self.chatters.len()
            invariant
                0 <= i <= self.chatters.len(),
                p == |c: ChatterView| c.username == username@,
                forall|j: int| 0 <= j < i ==> !p(#[trigger] self@.chatters[j]),
            decreases self.chatters.len() - i,
        {
            if self.chatters[i].username.as_str().eq(username) {
                proof {
                    lemma_first_index_is(self@.chatters, p, i as int);
                }
                return Some(i);
            }
            i += 1;
        }
        proof {
            lemma_first_index_is(self@.chatters, p, i as int);
        }
        None
    }

    /// The chatter with the chat identity `chatter_id`, if there is one.
    pub fn get_chatter(&self, chatter_id: &str) -> (r: Option<Chatter>)
        ensures
            match self@.chatter_at(chatter_id@) {
                Some(i) => r is Some && r->0@ == self@.chatters[i],
                None => r is None,
            },
    {
        match self.find_chatter(chatter_id) {
            Some(i) => Some(self.chatters[i].clone()),
            None => None,
        }
    }

    /// The first chatter with the display name `username`, if there is one.
    pub fn get_chatter_by_username(&self, username: &str) -> (r: Option<Chatter>)
        ensures
            match self@.chatter_named(username@) {
                Some(i) => r is Some && r->0@ == self@.chatters[i],
                None => r is None,
            },
    {
        match self.find_chatter_by_username(username) {
            Some(i) => Some(self.chatters[i].clone()),
            None => None,
        }
    }

    /// Adds a chatter with no points, wins or losses, last seen at `now`.
    /// Refused where the chat identity is taken or the identifiers are used up.
    pub fn create_chatter(&mut self, twitch_id: &str, username: &str, now: i64) -> (r: Result<
        Chatter,
        StoreError,
    >)
        requires
            old(self)@.wf(),
        ensures
            final(self)@.wf(),
            match old(self)@.create_chatter_error(twitch_id@) {
                Some(e) => r == Err::<Chatter, StoreError>(e) && final(self)@ == old(self)@,
                None => r is Ok && r->Ok_0@ == old(self)@.new_chatter(
                    twitch_id@,
                    username@,
                    now as int,
                ) && final(self)@ == old(self)@.create_chatter(twitch_id@, username@, now as int),
            },
    {
        if self.find_chatter(twitch_id).is_some() {
            return Err(StoreError::Duplicate);
        }
        let n = self.chatters.len();
        let id: i32 = if n == 0 {
            1
        } else {
            let last = self.chatters[n - 1].id;
            if last < 1 {
                1
            } else if last == i32::MAX {
                return Err(StoreError::Full);
            } else {
                last + 1
            }
        };
        let chatter = Chatter {
            id,
            twitch_id: twitch_id.to_owned(),
            username: username.to_owned(),
            points: 0,
            wins: 0,
            losses: 0,
            last_seen: now,
            lurk_time: 0,
        };
        let copy = chatter.clone();
        self.chatters.push(chatter);
        proof {
            let before = old(self)@;
            let after = before.create_chatter(twitch_id@, username@, now as int);
            assert(self@.chatters =~= after.chatters);
            lemma_first_index(before.chatters, |c: ChatterView| c.twitch_id == twitch_id@);
        }
        Ok(copy)
    }

    /// Sets the balance of chatter `id` to `new_points`, held at the floor.
    /// Nothing changes where there is no such chatter.
    pub fn update_points(&mut self, id: &str, new_points: i64)
        requires
            old(self)@.wf(),
        ensures
            final(self)@.wf(),
            final(self)@ == old(self)@.update_points(id@, new_points as int),
    {
        match self.find_chatter(id) {
            Some(i) => {
                self.chatters[i].points = if new_points < POINTS_FLOOR {
                    POINTS_FLOOR
                } else {
                    new_points
                };
                proof {
                    assert(self@.chatters =~= old(self)@.update_points(
                        id@,
                        new_points as int,
                    ).chatters);
                }
            },
            None => {},
        }
    }

    /// Sets the number of wins of chatter `id`.
    pub fn update_wins(&mut self, id: &str, wins: i32)
        requires
            old(self)@.wf(),
        ensures
            final(self)@.wf(),
            final(self)@ == old(self)@.update_wins(id@, wins as int),
    {
        match self.find_chatter(id) {
            Some(i) => {
                self.chatters[i].wins = wins;
                proof {
                    assert(self@.chatters =~= old(self)@.update_wins(id@, wins as int).chatters);
                }
            },
            None => {},
        }
    }

    /// Sets the number of losses of chatter `id`.
    pub fn update_losses(&mut self, id: &str, losses: i32)
        requires
            old(self)@.wf(),
        ensures
            final(self)@.wf(),
            final(self)@ == old(self)@.update_losses(id@, losses as int),
    {
        match self.find_chatter(id) {
            Some(i) => {
                self.chatters[i].losses = losses;
                proof {
                    assert(self@.chatters =~= old(self)@.update_losses(
                        id@,
                        losses as int,
                    ).chatters);
                }
            },
            None => {},
        }
    }

    /// Sets the time that chatter `id` has spent lurking, in seconds.
    pub fn update_lurk_time(&mut self, id: &str, new_lurk_time: i32)
        requires
            old(self)@.wf(),
        ensures
            final(self)@.wf(),
            final(self)@ == old(self)@.update_lurk_time(id@, new_lurk_time as int),
    {
        match self.find_chatter(id) {
            Some(i) => {
                self.chatters[i].lurk_time = new_lurk_time;
                proof {
                    assert(self@.chatters =~= old(self)@.update_lurk_time(
                        id@,
                        new_lurk_time as int,
                    ).chatters);
                }
            },
            None => {},
        }
    }

    /// Notes that the chatter `twitch_id` was seen at `now` under the name
    /// `username`. A known chatter has the instant and the name written over
    /// and is returned as they were before; an unknown one is created and
    /// returned. Refused only where a chatter must be created and the
    /// identifiers are used up.
    pub fn record_user_presence(&mut self, twitch_id: &str, username: &str, now: i64) -> (r: Result<
        Chatter,
        StoreError,
    >)
        requires
            old(self)@.wf(),
        ensures
            final(self)@.wf(),
            final(self)@ == old(self)@.record_user_presence(twitch_id@, username@, now as int),
            match old(self)@.chatter_at(twitch_id@) {
                Some(i) => r is Ok && r->Ok_0@ == old(self)@.chatters[i],
                None => match old(self)@.create_chatter_error(twitch_id@) {
                    Some(e) => r == Err::<Chatter, StoreError>(e),
                    None => r is Ok && r->Ok_0@ == old(self)@.new_chatter(
                        twitch_id@,
                        username@,
                        now as int,
                    ),
                },
            },
    {
        match self.find_chatter(twitch_id) {
            Some(i) => {
                let chatter = self.chatters[i].clone();
                self.chatters[i].last_seen = now;
                self.chatters[i].username = username.to_owned();
                proof {
                    assert(self@.chatters =~= old(self)@.record_user_presence(
                        twitch_id@,
                        username@,
                        now as int,
                    ).chatters);
                }
                Ok(chatter)
            },
            None => self.create_chatter(twitch_id, username, now),
        }
    }

    /// The place of the chatter `id` among all chatters ordered by their
    /// balance, highest first; nothing for an unknown chatter. A place that
    /// no `i64` holds is given as the largest `i64`.
    pub fn get_ranking(&self, id: &str) -> (r: Option<i64>)
        ensures
            match self@.chatter_at(id@) {
                Some(i) => r == Some(
                    if self@.rank_at(i) <= i64::MAX {
                        self@.rank_at(i) as i64
                    } else {
                        i64::MAX
                    },
                ),
                None => r is None,
            },
    {
        let at = match self.find_chatter(id) {
            Some(i) => i,
            None => {
                return None;
            },
        };
        let mine = self.chatters[at].points;
        let ghost above = |c: ChatterView| c.points > mine as int;
        let ghost level = |c: ChatterView| c.points == mine as int;
        let mut rank: u128 = 1;
        let mut k: usize = 0;
        proof {
            assert(self@.chatters.take(0) =~= Seq::<ChatterView>::empty());
            assert(self@.chatters.take(at as int).take(0) =~= Seq::<ChatterView>::empty());
        }
        while k < self.chatters.len()
            invariant
                0 <= k <= self.chatters.len(),
                at < self.chatters.len(),
                mine == self.chatters[at as int].points,
                above == |c: ChatterView| c.points > mine as int,
                level == |c: ChatterView| c.points == mine as int,
                rank <= k + 1,
                rank == 1 + keep(self@.chatters.take(k as int), above).len() + keep(
                    self@.chatters.take(at as int).take(if k < at {
                        k as int
                    } else {
                        at as int
                    }),
                    level,
                ).len(),
            decreases self.chatters.len() - k,
        {
            proof {
                assert(self@.chatters.take(k + 1).drop_last() =~= self@.chatters.take(k as int));
                if k < at {
                    assert(self@.chatters.take(at as int).take(k + 1).drop_last()
                        =~= self@.chatters.take(at as int).take(k as int));
                    assert(self@.chatters.take(at as int).take(k + 1).last()
                        == self@.chatters[k as int]);
                }
            }
            let points = self.chatters[k].points;
            if points > mine || (points == mine && k < at) {
                rank += 1;
            }
            k += 1;
        }
        proof {
            assert(self@.chatters.take(k as int) =~= self@.chatters);
            assert(self@.chatters.take(at as int).take(at as int) =~= self@.chatters.take(
                at as int,
            ));
        }
        if rank <= i64::MAX as u128 {
            Some(rank as i64)
        } else {
            Some(i64::MAX)
        }
    }

    /// The three chatters with the most wins, best first; among equals the
    /// oldest first.
    pub fn get_top_duelists(&self) -> (r: Vec<Chatter>)
        ensures
            r@.map_values(|c: Chatter| c@) == top_by_wins(self@.chatters, 3),
            r.len() <= 3,
    {
        proof {
            lemma_top_by_wins_len(self@.chatters, 3);
        }
        let mut pool: Vec<Chatter> = Vec::new();
        let mut i: usize = 0;
        while i < self.chatters.len()
            invariant
                0 <= i <= self.chatters.len(),
                pool@.map_values(|c: Chatter| c@) =~= self@.chatters.take(i as int),
            decreases self.chatters.len() - i,
        {
            let ghost before = pool@.map_values(|c: Chatter| c@);
            pool.push(self.chatters[i].clone());
            proof {
                assert(pool@.map_values(|c: Chatter| c@) =~= before.push(self@.chatters[i as int]));
                assert(self@.chatters.take(i + 1) =~= self@.chatters.take(i as int).push(
                    self@.chatters[i as int],
                ));
            }
            i += 1;
        }
        proof {
            assert(self@.chatters.take(i as int) =~= self@.chatters);
        }
        let mut r: Vec<Chatter> = Vec::new();
        let mut n: usize = 3;
        proof {
            assert(r@.map_values(|c: Chatter| c@) + top_by_wins(self@.chatters, 3) =~= top_by_wins(
                self@.chatters,
                3,
            ));
        }
        while n > 0 && pool.len() > 0
            invariant
                0 <= n <= 3,
                r@.map_values(|c: Chatter| c@) + top_by_wins(
                    pool@.map_values(|c: Chatter| c@),
                    n as nat,
                ) == top_by_wins(self@.chatters, 3),
            decreases n,
        {
            let mut b: usize = 0;
            let mut k: usize = 1;
            let ghost all = pool@.map_values(|c: Chatter| c@);
            proof {
                assert(all.take(1).len() == 1);
            }
            while k < pool.len()
                invariant
                    1 <= k <= pool.len(),
                    b < k,
                    all == pool@.map_values(|c: Chatter| c@),
                    b == best_index(all.take(k as int)),
                decreases pool.len() - k,
            {
                proof {
                    assert(all.take(k + 1).drop_last() =~= all.take(k as int));
                    assert(all.take(k as int)[b as int] == all[b as int]);
                }
                if pool[k].wins > pool[b].wins {
                    b = k;
                }
                k += 1;
            }
            proof {
                assert(all.take(k as int) =~= all);
            }
            let ghost done = r@.map_values(|c: Chatter| c@);
            let best = pool.remove(b);
            proof {
                assert(pool@.map_values(|c: Chatter| c@) =~= all.remove(b as int));
            }
            r.push(best);
            proof {
                assert(r@.map_values(|c: Chatter| c@) =~= done.push(all[b as int]));
                assert(done.push(all[b as int]) + top_by_wins(all.remove(b as int), (n - 1) as nat)
                    =~= done + top_by_wins(all, n as nat));
            }
            n -= 1;
        }
        proof {
            assert(r@.map_values(|c: Chatter| c@) + Seq::<ChatterView>::empty() =~= r@.map_values(
                |c: Chatter| c@,
            ));
        }
        r
    }

    /// The opponent that the number `pick` selects for `curr_chatter` among
    /// the other chatters who were seen in the last thirty minutes.
    pub fn get_random_chatter(&self, curr_chatter: &Chatter, now: i64, pick: usize) -> (r: Option<
        Chatter,
    >)
        ensures
            match self@.random_chatter(curr_chatter@.id, now as int, pick as int) {
                Some(c) => r is Some && r->0@ == c,
                None => r is None,
            },
    {
        let ghost p = |c: ChatterView|
            c.id != curr_chatter@.id && c.last_seen > now as int - ACTIVE_WINDOW;
        let mut found: Vec<usize> = Vec::new();
        let mut i: usize = 0;
        proof {
            assert(self@.chatters.take(0) =~= Seq::<ChatterView>::empty());
            assert(found@.map_values(|k: usize| self@.chatters[k as int]) =~= keep(
                self@.chatters.take(0),
                p,
            ));
        }
        while i < self.chatters.len()
            invariant
                0 <= i <= self.chatters.len(),
                p == |c: ChatterView|
                    c.id != curr_chatter@.id && c.last_seen > now as int - ACTIVE_WINDOW,
                forall|j: int| 0 <= j < found.len() ==> (#[trigger] found@[j]) < self.chatters.len(),
                found@.map_values(|k: usize| self@.chatters[k as int]) == keep(
                    self@.chatters.take(i as int),
                    p,
                ),
            decreases self.chatters.len() - i,
        {
            proof {
                assert(self@.chatters.take(i + 1).drop_last() =~= self@.chatters.take(i as int));
            }
            if self.chatters[i].id != curr_chatter.id && self.chatters[i].last_seen as i128
                > now as i128 - ACTIVE_WINDOW as i128 {
                let ghost before = found@.map_values(|k: usize| self@.chatters[k as int]);
                found.push(i);
                proof {
                    assert(found@.map_values(|k: usize| self@.chatters[k as int]) =~= before.push(
                        self@.chatters[i as int],
                    ));
                }
            }
            i += 1;
        }
        proof {
            assert(self@.chatters.take(i as int) =~= self@.chatters);
        }
        let n = found.len();
        if n == 0 {
            None
        } else {
            let k = found[pick % n];
            assert(found@.map_values(|k: usize| self@.chatters[k as int])[(pick % n) as int]
                == self@.chatters[k as int]);
            Some(self.chatters[k].clone())
        }
    }
}

} // verus!
