//! The pending duel index: the challenges that await acceptance, queued per
//! pair of participants in the order in which they were issued.

use crate::models::{Duel, DuelView};
use crate::search::{first_index, lemma_first_index, lemma_first_index_is};
use crate::text::lowercase;
use vstd::prelude::*;

verus! {

/// The key of a pair of participants: the lower-case name of the challenger
/// followed by the lower-case name of the challenged.
pub open spec fn pair_key(challenger: Seq<char>, challenged: Seq<char>) -> Seq<char> {
    lowercase(challenger) + lowercase(challenged)
}

/// Computes the key of a pair of participants.
pub fn make_key(challenger: &str, challenged: &str) -> (k: String)
    ensures
        k@ == pair_key(challenger@, challenged@),
{
    let mut k = challenger.to_lowercase();
    let tail = challenged.to_lowercase();
    k.append(tail.as_str());
    k
}

/// One queued challenge with the key of its pair.
#[derive(Debug)]
pub struct Pending {
    pub key: String,
    pub duel: Duel,
}

/// A queued challenge in the model.
pub struct PendingView {
    pub key: Seq<char>,
    pub duel: DuelView,
}

impl View for Pending {
    type V = PendingView;

    open spec fn view(&self) -> PendingView {
        PendingView { key: self.key@, duel: self.duel@ }
    }
}

/// The index of the challenges that await acceptance. It holds them in the
/// order of their issue; the queue of a pair is what it holds under the
/// pair's key.
#[derive(Debug)]
pub struct State {
    pub duel_cache: Vec<Pending>,
}

impl View for State {
    type V = Seq<PendingView>;

    open spec fn view(&self) -> Seq<PendingView> {
        self.duel_cache@.map_values(|e: Pending| e@)
    }
}

/// The queue under `key`: the duels queued with that key, oldest first.
pub open spec fn queue_of(entries: Seq<PendingView>, key: Seq<char>) -> Seq<DuelView>
    decreases entries.len(),
{
    if entries.len() == 0 {
        Seq::empty()
    } else if entries.last().key == key {
        queue_of(entries.drop_last(), key).push(entries.last().duel)
    } else {
        queue_of(entries.drop_last(), key)
    }
}

/// The position of the oldest entry under `key`, or the number of entries
/// where the key has none.
pub open spec fn front_of(entries: Seq<PendingView>, key: Seq<char>) -> int {
    first_index(entries, |e: PendingView| e.key == key)
}

/// The entries without the oldest one under `key`.
pub open spec fn without_front(entries: Seq<PendingView>, key: Seq<char>) -> Seq<PendingView> {
    if front_of(entries, key) < entries.len() {
        entries.remove(front_of(entries, key))
    } else {
        entries
    }
}

/// Where no entry has the key, its queue is empty.
pub proof fn lemma_queue_absent(entries: Seq<PendingView>, key: Seq<char>)
    requires
        forall|j: int| 0 <= j < entries.len() ==> (#[trigger] entries[j]).key != key,
    ensures
        queue_of(entries, key).len() == 0,
    decreases entries.len(),
{
    if entries.len() > 0 {
        assert(entries.last().key != key);
        let rest = entries.drop_last();
        assert forall|j: int| 0 <= j < rest.len() implies (#[trigger] rest[j]).key != key by {
            assert(rest[j] == entries[j]);
        }
        lemma_queue_absent(rest, key);
    }
}

/// Adding an entry appends its duel to the queue of its key and leaves every
/// other queue as it was.
pub proof fn lemma_queue_push(entries: Seq<PendingView>, e: PendingView, key: Seq<char>)
    ensures
        queue_of(entries.push(e), key) == if e.key == key {
            queue_of(entries, key).push(e.duel)
        } else {
            queue_of(entries, key)
        },
{
    assert(entries.push(e).drop_last() =~= entries);
}

/// Removing the oldest entry under a key drops the first duel of that key's
/// queue, which is the duel of that entry, and leaves every other queue as
/// it was.
pub proof fn lemma_queue_pop(entries: Seq<PendingView>, key: Seq<char>, other: Seq<char>)
    requires
        front_of(entries, key) < entries.len(),
    ensures
        queue_of(entries, key).len() > 0,
        queue_of(entries, key)[0] == entries[front_of(entries, key)].duel,
        queue_of(without_front(entries, key), other) == if other == key {
            queue_of(entries, key).drop_first()
        } else {
            queue_of(entries, other)
        },
    decreases entries.len(),
{
    let p = |e: PendingView| e.key == key;
    lemma_first_index(entries, p);
    let i = front_of(entries, key);
    let rest = entries.drop_last();
    let last = entries.last();
    if i == entries.len() - 1 {
        assert(entries.remove(i) =~= rest);
        assert forall|j: int| 0 <= j < rest.len() implies (#[trigger] rest[j]).key != key by {
            assert(rest[j] == entries[j]);
            assert(!p(entries[j]));
        }
        lemma_queue_absent(rest, key);
        assert(queue_of(entries, key) =~= seq![last.duel]);
        assert(queue_of(entries, key).drop_first() =~= queue_of(rest, key));
    } else {
        assert forall|j: int| 0 <= j < i implies !p(#[trigger] rest[j]) by {
            assert(rest[j] == entries[j]);
        }
        assert(rest[i] == entries[i]);
        lemma_first_index_is(rest, p, i);
        lemma_queue_pop(rest, key, other);
        lemma_queue_pop(rest, key, key);
        assert(entries.remove(i).drop_last() =~= rest.remove(i));
        assert(entries.remove(i).last() == last);
        if last.key == key {
            assert(queue_of(rest, key).push(last.duel).drop_first() =~= queue_of(
                rest,
                key,
            ).drop_first().push(last.duel));
        }
    }
}

/// First challenged, first accepted: of two challenges queued one after the
/// other for the same pair, behind whatever that pair had outstanding, the
/// first stands before the second, and where the pair had nothing
/// outstanding, the first is the one that leaves the index first, and the
/// second is what then remains.
pub proof fn lemma_first_in_first_out(
    entries: Seq<PendingView>,
    key: Seq<char>,
    first: DuelView,
    second: DuelView,
)
    ensures
        ({
            let both = entries.push(PendingView { key: key, duel: first }).push(
                PendingView { key: key, duel: second },
            );
            &&& queue_of(both, key) == queue_of(entries, key).push(first).push(second)
            &&& queue_of(entries, key).len() == 0 ==> {
                &&& queue_of(both, key)[0] == first
                &&& queue_of(without_front(both, key), key) == seq![second]
            }
        }),
{
    let one = entries.push(PendingView { key: key, duel: first });
    let both = one.push(PendingView { key: key, duel: second });
    lemma_queue_push(entries, PendingView { key: key, duel: first }, key);
    lemma_queue_push(one, PendingView { key: key, duel: second }, key);
    if queue_of(entries, key).len() == 0 {
        let p = |e: PendingView| e.key == key;
        lemma_first_index(both, p);
        if front_of(both, key) >= both.len() {
            assert(!p(both[both.len() - 1]));
        }
        lemma_queue_pop(both, key, key);
        assert(queue_of(both, key).drop_first() =~= seq![second]);
    }
}

impl State {
    /// An index that holds no challenge.
    pub fn new() -> (s: State)
        ensures
            s@.len() == 0,
    {
        State { duel_cache: Vec::new() }
    }

    /// Queues the duel behind the challenges that its pair has outstanding.
    pub fn save_duel(&mut self, duel: &Duel)
        ensures
            final(self)@ == old(self)@.push(
                PendingView { key: pair_key(duel@.challenger, duel@.challenged), duel: duel@ },
            ),
            forall|k: Seq<char>|
                #[trigger] queue_of(final(self)@, k) == if k == pair_key(
                    duel@.challenger,
                    duel@.challenged,
                ) {
                    queue_of(old(self)@, k).push(duel@)
                } else {
                    queue_of(old(self)@, k)
                },
    {
        let key = make_key(duel.challenger.as_str(), duel.challenged.as_str());
        self.duel_cache.push(Pending { key, duel: duel.clone() });
        proof {
            let e = PendingView { key: pair_key(duel@.challenger, duel@.challenged), duel: duel@ };
            assert(self@ =~= old(self)@.push(e));
            assert forall|k: Seq<char>|
                #[trigger] queue_of(self@, k) == if k == e.key {
                    queue_of(old(self)@, k).push(duel@)
                } else {
                    queue_of(old(self)@, k)
                } by {
                lemma_queue_push(old(self)@, e, k);
            }
        }
    }

    /// The position of the oldest entry under the key `k`.
    pub fn find_front(&self, k: &str) -> (r: Option<usize>)
        ensures
            match r {
                Some(i) => i == front_of(self@, k@) && i < self.duel_cache.len(),
                None => front_of(self@, k@) == self@.len(),
            },
    {
        let ghost p = |e: PendingView| e.key == k@;
        let mut i: usize = 0;
        while i < self.duel_cache.len()
            invariant
                0 <= i <= self.duel_cache.len(),
                p == |e: PendingView| e.key == k@,
                forall|j: int| 0 <= j < i ==> !p(#[trigger] self@[j]),
            decreases self.duel_cache.len() - i,
        {
            if self.duel_cache[i].key.as_str().eq(k) {
                proof {
                    lemma_first_index_is(self@, p, i as int);
                }
                return Some(i);
            }
            i += 1;
        }
        proof {
            lemma_first_index_is(self@, p, i as int);
        }
        None
    }

    /// The oldest outstanding challenge of the pair with the key `k`, which
    /// stays in the index; `None` where the pair has none.
    pub fn peek(&self, k: &str) -> (r: Option<Duel>)
        ensures
            queue_of(self@, k@).len() == 0 ==> r is None,
            queue_of(self@, k@).len() > 0 ==> r is Some && r->0@ == queue_of(self@, k@)[0],
    {
        match self.find_front(k) {
            Some(i) => {
                proof {
                    lemma_queue_pop(self@, k@, k@);
                }
                Some(self.duel_cache[i].duel.clone())
            },
            None => {
                proof {
                    lemma_first_index(self@, |e: PendingView| e.key == k@);
                    lemma_queue_absent(self@, k@);
                }
                None
            },
        }
    }

    /// Takes the oldest outstanding challenge of the pair with the key `k`
    /// out of the index and returns it; `None` where the pair has none.
    pub fn get_duel(&mut self, k: &String) -> (r: Option<Duel>)
        ensures
            final(self)@ == without_front(old(self)@, k@),
            queue_of(old(self)@, k@).len() == 0 ==> r is None,
            queue_of(old(self)@, k@).len() > 0 ==> r is Some && r->0@ == queue_of(old(self)@, k@)[0],
            forall|other: Seq<char>|
                #[trigger] queue_of(final(self)@, other) == if other == k@ && queue_of(
                    old(self)@,
                    k@,
                ).len() > 0 {
                    queue_of(old(self)@, k@).drop_first()
                } else {
                    queue_of(old(self)@, other)
                },
    {
        match self.find_front(k.as_str()) {
            Some(i) => {
                let e = self.duel_cache.remove(i);
                proof {
                    assert(self@ =~= old(self)@.remove(i as int));
                    lemma_queue_pop(old(self)@, k@, k@);
                    assert forall|other: Seq<char>|
                        #[trigger] queue_of(self@, other) == if other == k@ && queue_of(
                            old(self)@,
                            k@,
                        ).len() > 0 {
                            queue_of(old(self)@, k@).drop_first()
                        } else {
                            queue_of(old(self)@, other)
                        } by {
                        lemma_queue_pop(old(self)@, k@, other);
                    }
                }
                Some(e.duel)
            },
            None => {
                proof {
                    lemma_first_index(old(self)@, |e: PendingView| e.key == k@);
                    lemma_queue_absent(old(self)@, k@);
                }
                None
            },
        }
    }

    /// Drops the oldest outstanding challenge of the duel's pair from the
    /// index. Returns whether there was one.
    pub fn clear_duel(&mut self, duel: &Duel) -> (r: bool)
        ensures
            final(self)@ == without_front(
                old(self)@,
                pair_key(duel@.challenger, duel@.challenged),
            ),
            r == (queue_of(old(self)@, pair_key(duel@.challenger, duel@.challenged)).len() > 0),
    {
        let k = make_key(duel.challenger.as_str(), duel.challenged.as_str());
        match self.get_duel(&k) {
            Some(_) => true,
            None => false,
        }
    }
}

} // verus!
