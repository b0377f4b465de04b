//! The table of lurkers.

use crate::db::{next_id, Store, StoreView};
use crate::models::{Lurker, LurkerView};
use crate::search::{find_first, keep, lemma_first_index_is};
use vstd::prelude::*;

verus! {

impl StoreView {
    /// The position of the first lurker with the chat identity `twitch_id`.
    pub open spec fn lurker_at(self, twitch_id: Seq<char>) -> Option<int> {
        find_first(self.lurkers, |l: LurkerView| l.twitch_id == twitch_id)
    }

    /// The identifier that the next lurker gets.
    pub open spec fn next_lurker_id(self) -> int {
        next_id(
            if self.lurkers.len() > 0 {
                Some(self.lurkers.last().id)
            } else {
                None
            },
        )
    }

    /// The store with a lurker added, where the identifiers allow it.
    pub open spec fn create_lurker(
        self,
        username: Seq<char>,
        twitch_id: Seq<char>,
        now: int,
    ) -> StoreView {
        if self.next_lurker_id() > i32::MAX {
            self
        } else {
            StoreView {
                lurkers: self.lurkers.push(
                    LurkerView {
                        id: self.next_lurker_id(),
                        username: username,
                        twitch_id: twitch_id,
                        created_at: Some(now),
                    },
                ),
                ..self
            }
        }
    }

    /// The store without the lurkers of the chat identity `twitch_id`.
    pub open spec fn delete_lurker(self, twitch_id: Seq<char>) -> StoreView {
        StoreView {
            lurkers: keep(self.lurkers, |l: LurkerView| l.twitch_id != twitch_id),
            ..self
        }
    }
}

impl Store {
    /// Notes that the chatter started to lurk at `now`. Returns whether the
    /// store took the lurker; it does unless the identifiers are used up.
    pub fn create_lurker(&mut self, username: &str, twitch_id: &str, now: i64) -> (r: bool)
        requires
            old(self)@.wf(),
        ensures
            final(self)@.wf(),
            r == (old(self)@.next_lurker_id() <= i32::MAX),
            final(self)@ == old(self)@.create_lurker(username@, twitch_id@, now as int),
    {
        let n = self.lurkers.len();
        let id: i32 = if n == 0 {
            1
        } else {
            let last = self.lurkers[n - 1].id;
            if last < 1 {
                1
            } else if last == i32::MAX {
                return false;
            } else {
                last + 1
            }
        };
        self.lurkers.push(
            Lurker {
                id,
                username: username.to_owned(),
                twitch_id: twitch_id.to_owned(),
                created_at: Some(now),
            },
        );
        proof {
            assert(self@.lurkers =~= old(self)@.create_lurker(
                username@,
                twitch_id@,
                now as int,
            ).lurkers);
        }
        true
    }

    /// The first lurker with the chat identity `id`, if there is one.
    pub fn get_lurker(&self, id: &str) -> (r: Option<Lurker>)
        ensures
            match self@.lurker_at(id@) {
                Some(i) => r is Some && r->0@ == self@.lurkers[i],
                None => r is None,
            },
    {
        let ghost p = |l: LurkerView| l.twitch_id == id@;
        let mut i: usize = 0;
        while i < self.lurkers.len()
            invariant
                0 <= i <= self.lurkers.len(),
                p == |l: LurkerView| l.twitch_id == id@,
                forall|j: int| 0 <= j < i ==> !p(#[trigger] self@.lurkers[j]),
            decreases self.lurkers.len() - i,
        {
            if self.lurkers[i].twitch_id.as_str().eq(id) {
                proof {
                    lemma_first_index_is(self@.lurkers, p, i as int);
                }
                return Some(self.lurkers[i].clone());
            }
            i += 1;
        }
        proof {
            lemma_first_index_is(self@.lurkers, p, i as int);
        }
        None
    }

    /// All lurkers, in the order in which they started to lurk.
    pub fn get_lurkers(&self) -> (r: Vec<Lurker>)
        ensures
            r@.map_values(|l: Lurker| l@) == self@.lurkers,
    {
        let mut r: Vec<Lurker> = Vec::new();
        let mut i: usize = 0;
        while i < self.lurkers.len()
            invariant
                0 <= i <= self.lurkers.len(),
                r@.map_values(|l: Lurker| l@) =~= self@.lurkers.take(i as int),
            decreases self.lurkers.len() - i,
        {
            let ghost before = r@.map_values(|l: Lurker| l@);
            r.push(self.lurkers[i].clone());
            proof {
                assert(r@.map_values(|l: Lurker| l@) =~= before.push(self@.lurkers[i as int]));
                assert(self@.lurkers.take(i + 1) =~= self@.lurkers.take(i as int).push(
                    self@.lurkers[i as int],
                ));
            }
            i += 1;
        }
        assert(self@.lurkers.take(i as int) =~= self@.lurkers);
        r
    }

    /// Removes every lurker with the chat identity `id`.
    pub fn delete_lurker(&mut self, id: &str)
        requires
            old(self)@.wf(),
        ensures
            final(self)@.wf(),
            final(self)@ == old(self)@.delete_lurker(id@),
    {
        let ghost p = |l: LurkerView| l.twitch_id != id@;
        let mut kept: Vec<Lurker> = Vec::new();
        let mut i: usize = 0;
        proof {
            assert(self@.lurkers.take(0) =~= Seq::<LurkerView>::empty());
            assert(kept@.map_values(|l: Lurker| l@) =~= keep(self@.lurkers.take(0), p));
        }
        while i < self.lurkers.len()
            invariant
                0 <= i <= self.lurkers.len(),
                p == |l: LurkerView| l.twitch_id != id@,
                kept@.map_values(|l: Lurker| l@) == keep(self@.lurkers.take(i as int), p),
            decreases self.lurkers.len() - i,
        {
            proof {
                assert(self@.lurkers.take(i + 1).drop_last() =~= self@.lurkers.take(i as int));
            }
            if !self.lurkers[i].twitch_id.as_str().eq(id) {
                let ghost before = kept@.map_values(|l: Lurker| l@);
                kept.push(self.lurkers[i].clone());
                proof {
                    assert(kept@.map_values(|l: Lurker| l@) =~= before.push(
                        self@.lurkers[i as int],
                    ));
                }
            }
            i += 1;
        }
        proof {
            assert(self@.lurkers.take(i as int) =~= self@.lurkers);
        }
        self.lurkers = kept;
    }
}

} // verus!
