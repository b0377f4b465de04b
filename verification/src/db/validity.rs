//! Checking a store that was put together by hand.

use crate::db::{
    accepted_wf, categories_wf, category_index, chatters_wf, duels_wf, involves, pools_wf,
    questions_wf, Store,
};
use crate::models::POINTS_FLOOR;
use vstd::prelude::*;

verus! {

impl Store {
    /// Whether the store is well-formed. A store that was put together by
    /// hand, from records of another source, is checked with this before
    /// anything else is done with it.
    pub fn is_valid(&self) -> (r: bool)
        ensures
            r == self@.wf(),
    {
        self.chatters_valid() && self.duels_valid() && self.accepted_valid()
            && self.categories_valid() && self.questions_valid() && self.pools_valid()
    }

    /// Whether the table of chatters is well-formed.
    pub fn chatters_valid(&self) -> (r: bool)
        ensures
            r == chatters_wf(self@.chatters),
    {
        let ghost rows = self@.chatters;
        let mut i: usize = 0;
        while i < self.chatters.len()
            invariant
                0 <= i <= self.chatters.len(),
                rows == self@.chatters,
                forall|a: int, b: int| 0 <= a < b < i ==> rows[a].id < rows[b].id,
                forall|a: int, b: int| 0 <= a < b < i ==> rows[a].twitch_id != rows[b].twitch_id,
                forall|a: int| 0 <= a < i ==> POINTS_FLOOR <= (#[trigger] rows[a]).points <= i64::MAX,
            decreases self.chatters.len() - i,
        {
            if self.chatters[i].points < POINTS_FLOOR {
                assert(!(POINTS_FLOOR <= rows[i as int].points));
                return false;
            }
            if i > 0 && self.chatters[i - 1].id >= self.chatters[i].id {
                assert(!(rows[i - 1].id < rows[i as int].id));
                return false;
            }
            let mut k: usize = 0;
            while k < i
                invariant
                    0 <= k <= i < self.chatters.len(),
                    rows == self@.chatters,
                    forall|a: int| 0 <= a < k ==> (#[trigger] rows[a]).twitch_id != rows[i as int].twitch_id,
                decreases i - k,
            {
                if self.chatters[k].twitch_id.as_str().eq(self.chatters[i].twitch_id.as_str()) {
                    assert(!(rows[k as int].twitch_id != rows[i as int].twitch_id));
                    return false;
                }
                k += 1;
            }
            proof {
                assert forall|a: int, b: int| 0 <= a < b < i + 1 implies rows[a].id
                    < rows[b].id by {
                    if b == i && a < i - 1 {
                        assert(rows[a].id < rows[i - 1].id);
                    }
                }
            }
            i += 1;
        }
        true
    }

    /// Whether the table of duels is well-formed.
    pub fn duels_valid(&self) -> (r: bool)
        ensures
            r == duels_wf(self@.duels),
    {
        let ghost rows = self@.duels;
        let mut i: usize = 0;
        while i < self.duels.len()
            invariant
                0 <= i <= self.duels.len(),
                rows == self@.duels,
                forall|a: int, b: int| 0 <= a < b < i ==> rows[a].id < rows[b].id,
                forall|a: int|
                    0 <= a < i ==> (#[trigger] rows[a]).points >= 0 && rows[a].challenger_guesses
                        >= 0 && rows[a].challenged_guesses >= 0 && rows[a].challenger_id
                        != rows[a].challenged_id,
            decreases self.duels.len() - i,
        {
            if self.duels[i].points < 0 || self.duels[i].challenger_guesses < 0
                || self.duels[i].challenged_guesses < 0 || self.duels[i].challenger_id.as_str().eq(
                self.duels[i].challenged_id.as_str(),
            ) {
                assert(!(rows[i as int].points >= 0 && rows[i as int].challenger_guesses >= 0
                    && rows[i as int].challenged_guesses >= 0 && rows[i as int].challenger_id
                    != rows[i as int].challenged_id));
                return false;
            }
            if i > 0 && self.duels[i - 1].id >= self.duels[i].id {
                assert(!(rows[i - 1].id < rows[i as int].id));
                return false;
            }
            proof {
                assert forall|a: int, b: int| 0 <= a < b < i + 1 implies rows[a].id
                    < rows[b].id by {
                    if b == i && a < i - 1 {
                        assert(rows[a].id < rows[i - 1].id);
                    }
                }
            }
            i += 1;
        }
        true
    }

    /// Whether the table of duels under way is well-formed.
    pub fn accepted_valid(&self) -> (r: bool)
        ensures
            r == accepted_wf(self@.accepted_duels),
    {
        let ghost rows = self@.accepted_duels;
        let mut i: usize = 0;
        while i < self.accepted_duels.len()
            invariant
                0 <= i <= self.accepted_duels.len(),
                rows == self@.accepted_duels,
                forall|a: int, b: int| 0 <= a < b < i ==> rows[a].id < rows[b].id,
                forall|a: int, b: int| 0 <= a < b < i ==> rows[a].duel_id != rows[b].duel_id,
                forall|a: int, b: int|
                    0 <= a < b < i ==> !involves(rows[b], rows[a].challenger_id) && !involves(
                        rows[b],
                        rows[a].challenged_id,
                    ),
            decreases self.accepted_duels.len() - i,
        {
            if i > 0 && self.accepted_duels[i - 1].id >= self.accepted_duels[i].id {
                assert(!(rows[i - 1].id < rows[i as int].id));
                return false;
            }
            let mut k: usize = 0;
            while k < i
                invariant
                    0 <= k <= i < self.accepted_duels.len(),
                    rows == self@.accepted_duels,
                    forall|a: int|
                        0 <= a < k ==> (#[trigger] rows[a]).duel_id != rows[i as int].duel_id
                            && !involves(rows[i as int], rows[a].challenger_id) && !involves(
                            rows[i as int],
                            rows[a].challenged_id,
                        ),
                decreases i - k,
            {
                let earlier = &self.accepted_duels[k];
                let later = &self.accepted_duels[i];
                if earlier.duel_id == later.duel_id || later.challenger_id.as_str().eq(
                    earlier.challenger_id.as_str(),
                ) || later.challenged_id.as_str().eq(earlier.challenger_id.as_str())
                    || later.challenger_id.as_str().eq(earlier.challenged_id.as_str())
                    || later.challenged_id.as_str().eq(earlier.challenged_id.as_str()) {
                    assert(!(rows[k as int].duel_id != rows[i as int].duel_id && !involves(
                        rows[i as int],
                        rows[k as int].challenger_id,
                    ) && !involves(rows[i as int], rows[k as int].challenged_id)));
                    return false;
                }
                k += 1;
            }
            proof {
                assert forall|a: int, b: int| 0 <= a < b < i + 1 implies rows[a].id
                    < rows[b].id by {
                    if b == i && a < i - 1 {
                        assert(rows[a].id < rows[i - 1].id);
                    }
                }
            }
            i += 1;
        }
        true
    }

    /// Whether the table of categories is well-formed.
    pub fn categories_valid(&self) -> (r: bool)
        ensures
            r == categories_wf(self@.categories),
    {
        let ghost rows = self@.categories;
        let mut i: usize = 1;
        while i < self.categories.len()
            invariant
                1 <= i,
                rows == self@.categories,
                forall|a: int, b: int| 0 <= a < b < i && b < rows.len() ==> rows[a].id < rows[b].id,
            decreases self.categories.len() - i,
        {
            if self.categories[i - 1].id >= self.categories[i].id {
                assert(!(rows[i - 1].id < rows[i as int].id));
                return false;
            }
            proof {
                assert forall|a: int, b: int| 0 <= a < b < i + 1 && b < rows.len() implies rows[a].id
                    < rows[b].id by {
                    if b == i && a < i - 1 {
                        assert(rows[a].id < rows[i - 1].id);
                    }
                }
            }
            i += 1;
        }
        true
    }

    /// Whether the table of questions is well-formed.
    pub fn questions_valid(&self) -> (r: bool)
        ensures
            r == questions_wf(self@.questions, self@.categories),
    {
        let ghost rows = self@.questions;
        let mut i: usize = 0;
        while i < self.questions.len()
            invariant
                0 <= i <= self.questions.len(),
                rows == self@.questions,
                forall|a: int, b: int| 0 <= a < b < i ==> rows[a].id < rows[b].id,
                forall|a: int|
                    0 <= a < i ==> category_index(
                        self@.categories,
                        (#[trigger] rows[a]).category_id,
                    ) is Some,
            decreases self.questions.len() - i,
        {
            if self.find_category(self.questions[i].category_id).is_none() {
                assert(!(category_index(self@.categories, rows[i as int].category_id) is Some));
                return false;
            }
            if i > 0 && self.questions[i - 1].id >= self.questions[i].id {
                assert(!(rows[i - 1].id < rows[i as int].id));
                return false;
            }
            proof {
                assert forall|a: int, b: int| 0 <= a < b < i + 1 implies rows[a].id
                    < rows[b].id by {
                    if b == i && a < i - 1 {
                        assert(rows[a].id < rows[i - 1].id);
                    }
                }
            }
            i += 1;
        }
        true
    }

    /// Whether the table of pools is well-formed.
    pub fn pools_valid(&self) -> (r: bool)
        ensures
            r == pools_wf(self@.pools),
    {
        let ghost rows = self@.pools;
        let mut i: usize = 1;
        while i < self.pools.len()
            invariant
                1 <= i,
                rows == self@.pools,
                forall|a: int, b: int| 0 <= a < b < i && b < rows.len() ==> rows[a].id < rows[b].id,
            decreases self.pools.len() - i,
        {
            if self.pools[i - 1].id >= self.pools[i].id {
                assert(!(rows[i - 1].id < rows[i as int].id));
                return false;
            }
            proof {
                assert forall|a: int, b: int| 0 <= a < b < i + 1 && b < rows.len() implies rows[a].id
                    < rows[b].id by {
                    if b == i && a < i - 1 {
                        assert(rows[a].id < rows[i - 1].id);
                    }
                }
            }
            i += 1;
        }
        true
    }
}

} // verus!
