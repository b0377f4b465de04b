//! The losers' pools.

use crate::db::{next_id, Store, StoreView};
use crate::models::LosersPool;
use crate::search::{find_first, lemma_first_index_is};
use vstd::prelude::*;

verus! {

impl StoreView {
    /// The position of the current pool: the youngest pool that is not drawn yet.
    pub open spec fn current_pool(self) -> Option<int> {
        last_open(self.pools)
    }

    /// The identifier that the next pool gets.
    pub open spec fn next_pool_id(self) -> int {
        next_id(
            if self.pools.len() > 0 {
                Some(self.pools.last().id as int)
            } else {
                None
            },
        )
    }

    /// The store with `points` added to the current pool; an addition that
    /// would overflow leaves the pool as it was, and so does a store
    /// without a current pool.
    pub open spec fn add_pool_points(self, points: int) -> StoreView {
        match self.current_pool() {
            Some(i) => StoreView {
                pools: self.pools.update(
                    i,
                    LosersPool {
                        amount: if i64::MIN <= self.pools[i].amount + points <= i64::MAX {
                            (self.pools[i].amount + points) as i64
                        } else {
                            self.pools[i].amount
                        },
                        ..self.pools[i]
                    },
                ),
                ..self
            },
            None => self,
        }
    }

    /// The store with the winner of the pool `pool_id` recorded.
    pub open spec fn update_pool_winner(self, pool_id: int, winner_id: i32) -> StoreView {
        match find_first(self.pools, |p: LosersPool| p.id == pool_id) {
            Some(i) => StoreView {
                pools: self.pools.update(
                    i,
                    LosersPool { winner: Some(winner_id), ..self.pools[i] },
                ),
                ..self
            },
            None => self,
        }
    }

    /// The store with a new, empty pool, where the identifiers allow it.
    pub open spec fn create_new_pool(self, now: int) -> StoreView {
        if self.next_pool_id() > i32::MAX {
            self
        } else {
            StoreView {
                pools: self.pools.push(
                    LosersPool {
                        id: self.next_pool_id() as i32,
                        amount: 0,
                        winner: None,
                        created_at: now as i64,
                    },
                ),
                ..self
            }
        }
    }
}

/// The position of the youngest pool that is not drawn yet.
pub open spec fn last_open(pools: Seq<LosersPool>) -> Option<int>
    decreases pools.len(),
{
    if pools.len() == 0 {
        None
    } else if pools.last().winner is None {
        Some(pools.len() - 1)
    } else {
        last_open(pools.drop_last())
    }
}

impl Store {
    /// The position of the current pool: the youngest pool that is not drawn yet.
    pub fn find_current_pool(&self) -> (r: Option<usize>)
        ensures
            match r {
                Some(i) => self@.current_pool() == Some(i as int) && i < self.pools.len(),
                None => self@.current_pool() is None,
            },
    {
        let mut i: usize = self.pools.len();
        proof {
            assert(self@.pools.take(i as int) =~= self@.pools);
        }
        while i > 0
            invariant
                0 <= i <= self.pools.len(),
                last_open(self@.pools) == last_open(self@.pools.take(i as int)),
            decreases i,
        {
            proof {
                assert(self@.pools.take(i as int).drop_last() =~= self@.pools.take(i - 1));
            }
            if self.pools[i - 1].winner.is_none() {
                return Some(i - 1);
            }
            i -= 1;
        }
        None
    }

    /// The current pool, if there is one.
    pub fn get_current_pool(&self) -> (r: Option<LosersPool>)
        ensures
            match self@.current_pool() {
                Some(i) => r == Some(self@.pools[i]),
                None => r is None,
            },
    {
        match self.find_current_pool() {
            Some(i) => Some(self.pools[i]),
            None => None,
        }
    }

    /// Adds `points` to the current pool. An addition that would overflow
    /// leaves the pool as it was, and so does a store without a current pool.
    pub fn add_pool_points(&mut self, points: i64)
        requires
            old(self)@.wf(),
        ensures
            final(self)@.wf(),
            final(self)@ == old(self)@.add_pool_points(points as int),
    {
        match self.find_current_pool() {
            Some(i) => {
                let amount = self.pools[i].amount;
                self.pools[i].amount = match amount.checked_add(points) {
                    Some(sum) => sum,
                    None => amount,
                };
                proof {
                    assert(self@.pools =~= old(self)@.add_pool_points(points as int).pools);
                }
            },
            None => {},
        }
    }

    /// Records the chatter numbered `winner_id` as the winner of the pool
    /// `pool_id`. Nothing changes where there is no such pool.
    pub fn update_pool_winner(&mut self, pool_id: i32, winner_id: i32)
        requires
            old(self)@.wf(),
        ensures
            final(self)@.wf(),
            final(self)@ == old(self)@.update_pool_winner(pool_id as int, winner_id),
    {
        let ghost p = |x: LosersPool| x.id == pool_id as int;
        let mut i: usize = 0;
        while i < self.pools.len()
            invariant
                0 <= i <= self.pools.len(),
                *self == *old(self),
                self@.wf(),
                p == |x: LosersPool| x.id == pool_id as int,
                forall|j: int| 0 <= j < i ==> !p(#[trigger] self@.pools[j]),
            decreases self.pools.len() - i,
        {
            if self.pools[i].id == pool_id {
                proof {
                    lemma_first_index_is(self@.pools, p, i as int);
                }
                self.pools[i].winner = Some(winner_id);
                proof {
                    assert(self@.pools =~= old(self)@.update_pool_winner(
                        pool_id as int,
                        winner_id,
                    ).pools);
                    assert forall|a: int, b: int| 0 <= a < b < self@.pools.len() implies self@.pools[a].id
                        < self@.pools[b].id by {
                        assert(old(self)@.pools[a].id < old(self)@.pools[b].id);
                    }
                }
                return ;
            }
            i += 1;
        }
        proof {
            lemma_first_index_is(self@.pools, p, i as int);
        }
    }

    /// Opens a new, empty pool. Returns whether the store took it; it does
    /// unless the identifiers are used up.
    pub fn create_new_pool(&mut self, now: i64) -> (r: bool)
        requires
            old(self)@.wf(),
        ensures
            final(self)@.wf(),
            r == (old(self)@.next_pool_id() <= i32::MAX),
            final(self)@ == old(self)@.create_new_pool(now as int),
    {
        let n = self.pools.len();
        let id: i32 = if n == 0 {
            1
        } else {
            let last = self.pools[n - 1].id;
            if last < 1 {
                1
            } else if last == i32::MAX {
                return false;
            } else {
                last + 1
            }
        };
        self.pools.push(LosersPool { id, amount: 0, winner: None, created_at: now });
        proof {
            assert(self@.pools =~= old(self)@.create_new_pool(now as int).pools);
        }
        true
    }
}

} // verus!
