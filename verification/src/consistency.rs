//! How the store and the index of pending duels fit together, and that
//! every message keeps them so.
//!
//! A duel has its row among the duels under way exactly while it is
//! accepted, and a challenge is queued in the index exactly while it awaits
//! acceptance.

use crate::chatter::unlurk_step;
use crate::commands::{
    accept_challenger, accept_step, answer_step, ChatMessageView, duel_of, duel_step,
    named_opponent, strip_at, sweep_stale, wager_word,
};
use crate::commands::bank::{addcategory_step, addquestion_step};
use crate::commands::economy::{gamble_step, gift_step, pool_draw_step, setpoints_step};
use crate::db::{accepted_wf, duels_wf, lemma_duel_at, StoreView};
use crate::duel::half;
use crate::messaging::{
    ChanceView, Command, command_of, command_step, first_word, message_step, PRESENCE_POINTS,
};
use crate::models::{AcceptedDuelView, DuelStatus, DuelView};
use crate::search::lemma_first_index;
use crate::state::{front_of, lemma_queue_pop, pair_key, PendingView, queue_of, without_front};
use crate::text::{spec_parse_i32, split_on};
use vstd::prelude::*;

verus! {

/// Whether the duel `d` is the duel of the row: it has the row's number and
/// its two participants, and it is under way.
pub open spec fn backs_row(d: DuelView, row: AcceptedDuelView) -> bool {
    &&& d.id == row.duel_id
    &&& d.status == DuelStatus::Accepted
    &&& d.challenger_id == row.challenger_id
    &&& d.challenged_id == row.challenged_id
}

/// Whether the duel `d` is the duel of the queued challenge: it is the same
/// duel between the same two for the same wager, and it awaits acceptance.
pub open spec fn backs_entry(d: DuelView, e: PendingView) -> bool {
    &&& d.id == e.duel.id
    &&& d.status == DuelStatus::Challenged
    &&& d.challenger_id == e.duel.challenger_id
    &&& d.challenged_id == e.duel.challenged_id
    &&& d.challenger == e.duel.challenger
    &&& d.challenged == e.duel.challenged
    &&& d.points == e.duel.points
}

/// Whether the store holds the duel of the row.
pub open spec fn row_fits(duels: Seq<DuelView>, row: AcceptedDuelView) -> bool {
    exists|j: int| 0 <= j < duels.len() && backs_row(#[trigger] duels[j], row)
}

/// Whether the duel `id` has a row among the duels under way.
pub open spec fn has_row(rows: Seq<AcceptedDuelView>, id: int) -> bool {
    exists|k: int| 0 <= k < rows.len() && (#[trigger] rows[k]).duel_id == id
}

/// Whether the queued challenge is filed under the key of its pair and the
/// store holds its duel.
pub open spec fn entry_fits(duels: Seq<DuelView>, e: PendingView) -> bool {
    &&& e.key == pair_key(e.duel.challenger, e.duel.challenged)
    &&& exists|j: int| 0 <= j < duels.len() && backs_entry(#[trigger] duels[j], e)
}

/// Whether the duels, the rows of the duels under way and the index fit
/// together: every row belongs to a duel under way, every duel under way
/// has its row, every queued challenge is a duel that awaits acceptance,
/// and no duel is queued twice.
pub open spec fn fitting(
    duels: Seq<DuelView>,
    rows: Seq<AcceptedDuelView>,
    index: Seq<PendingView>,
) -> bool {
    &&& forall|k: int| 0 <= k < rows.len() ==> row_fits(duels, #[trigger] rows[k])
    &&& forall|j: int|
        0 <= j < duels.len() && (#[trigger] duels[j]).status == DuelStatus::Accepted ==> has_row(
            rows,
            duels[j].id,
        )
    &&& forall|e: int| 0 <= e < index.len() ==> entry_fits(duels, #[trigger] index[e])
    &&& forall|a: int, b: int|
        0 <= a < b < index.len() ==> (#[trigger] index[a]).duel.id != (#[trigger] index[b]).duel.id
}

/// Whether the store and the index fit together.
pub open spec fn consistent(s: StoreView, index: Seq<PendingView>) -> bool {
    fitting(s.duels, s.accepted_duels, index)
}

/// An empty store and an empty index fit together.
pub proof fn lemma_empty_is_consistent(s: StoreView, index: Seq<PendingView>)
    requires
        s.duels.len() == 0,
        s.accepted_duels.len() == 0,
        index.len() == 0,
    ensures
        consistent(s, index),
{
}

/// In a well-formed store, two duels of one number are one duel.
proof fn lemma_one_duel_per_number(s: StoreView, a: int, b: int)
    requires
        duels_wf(s.duels),
        0 <= a < s.duels.len(),
        0 <= b < s.duels.len(),
        s.duels[a].id == s.duels[b].id,
    ensures
        a == b,
{
    if a < b {
        assert(s.duels[a].id < s.duels[b].id);
    } else if b < a {
        assert(s.duels[b].id < s.duels[a].id);
    }
}

/// A change of a duel that leaves its number, its status, its participants
/// and its wager alone keeps store and index fitting.
pub proof fn lemma_same_standing(s: StoreView, index: Seq<PendingView>, j: int, d: DuelView)
    requires
        consistent(s, index),
        0 <= j < s.duels.len(),
        d.id == s.duels[j].id,
        d.status == s.duels[j].status,
        d.challenger_id == s.duels[j].challenger_id,
        d.challenged_id == s.duels[j].challenged_id,
        d.challenger == s.duels[j].challenger,
        d.challenged == s.duels[j].challenged,
        d.points == s.duels[j].points,
    ensures
        consistent(s.with_duel(j, d), index),
{
    let before = s.duels;
    let after = s.with_duel(j, d).duels;
    let rows = s.accepted_duels;
    assert forall|k: int| 0 <= k < rows.len() implies row_fits(after, #[trigger] rows[k]) by {
        let w = choose|w: int| 0 <= w < before.len() && backs_row(#[trigger] before[w], rows[k]);
        assert(backs_row(after[w], rows[k]));
    }
    assert forall|i: int|
        0 <= i < after.len() && (#[trigger] after[i]).status == DuelStatus::Accepted implies has_row(
        rows,
        after[i].id,
    ) by {
        assert(before[i].status == DuelStatus::Accepted);
        assert(has_row(rows, before[i].id));
    }
    assert forall|e: int| 0 <= e < index.len() implies entry_fits(after, #[trigger] index[e]) by {
        let w = choose|w: int| 0 <= w < before.len() && backs_entry(#[trigger] before[w], index[e]);
        assert(backs_entry(after[w], index[e]));
    }
}

/// Recording a new challenge and queuing it keeps store and index fitting.
pub proof fn lemma_challenge_fits(s: StoreView, index: Seq<PendingView>, d: DuelView)
    requires
        duels_wf(s.duels),
        consistent(s, index),
        d.id == s.next_duel_id(),
        d.status == DuelStatus::Challenged,
    ensures
        consistent(
            s.push_duel(d),
            index.push(PendingView { key: pair_key(d.challenger, d.challenged), duel: d }),
        ),
{
    let before = s.duels;
    let after = s.push_duel(d).duels;
    let rows = s.accepted_duels;
    let entry = PendingView { key: pair_key(d.challenger, d.challenged), duel: d };
    let queued = index.push(entry);
    assert forall|k: int| 0 <= k < rows.len() implies row_fits(after, #[trigger] rows[k]) by {
        let w = choose|w: int| 0 <= w < before.len() && backs_row(#[trigger] before[w], rows[k]);
        assert(backs_row(after[w], rows[k]));
    }
    assert forall|i: int|
        0 <= i < after.len() && (#[trigger] after[i]).status == DuelStatus::Accepted implies has_row(
        rows,
        after[i].id,
    ) by {
        assert(i < before.len());
        assert(before[i].status == DuelStatus::Accepted);
        assert(has_row(rows, before[i].id));
    }
    assert forall|e: int| 0 <= e < queued.len() implies entry_fits(after, #[trigger] queued[e]) by {
        if e < index.len() {
            assert(queued[e] == index[e]);
            let w = choose|w: int|
                0 <= w < before.len() && backs_entry(#[trigger] before[w], index[e]);
            assert(backs_entry(after[w], index[e]));
        } else {
            assert(backs_entry(after[before.len() as int], entry));
        }
    }
    assert forall|a: int, b: int| 0 <= a < b < queued.len() implies (#[trigger] queued[a]).duel.id
        != (#[trigger] queued[b]).duel.id by {
        assert(queued[a] == index[a]);
        if b < index.len() {
            assert(queued[b] == index[b]);
        } else {
            // The new number lies above every number in the store.
            let w = choose|w: int|
                0 <= w < before.len() && backs_entry(#[trigger] before[w], index[a]);
            if w < before.len() - 1 {
                assert(before[w].id < before[before.len() - 1].id);
            }
        }
    }
}

/// Where store and index fit together, a duel that is under way has its row.
pub proof fn lemma_under_way_has_row(s: StoreView, index: Seq<PendingView>, id: int)
    requires
        consistent(s, index),
        s.can_complete(id),
    ensures
        s.accepted_of(id) is Some,
{
    let rows = s.accepted_duels;
    lemma_duel_at(s, id);
    let j = s.duel_at(id).unwrap();
    assert(has_row(rows, s.duels[j].id));
    let k = choose|k: int| 0 <= k < rows.len() && (#[trigger] rows[k]).duel_id == id;
    let p = |a: AcceptedDuelView| a.duel_id == id;
    lemma_first_index(rows, p);
    assert(p(rows[k]));
}

/// Completing a duel and removing its row keeps store and index fitting.
pub proof fn lemma_completion_fits(
    s: StoreView,
    index: Seq<PendingView>,
    id: int,
    winner: Option<Seq<char>>,
    now: int,
)
    requires
        duels_wf(s.duels),
        accepted_wf(s.accepted_duels),
        consistent(s, index),
    ensures
        consistent(s.complete_duel(id, winner, now).destroy_accepted_duel(id), index),
{
    let before = s.duels;
    let rows = s.accepted_duels;
    let done = s.complete_duel(id, winner, now);
    let after = done.duels;
    let t = done.destroy_accepted_duel(id);
    let left = t.accepted_duels;
    lemma_duel_at(s, id);
    lemma_first_index(rows, |a: AcceptedDuelView| a.duel_id == id);
    // The duel is under way exactly where it has a row.
    if let Some(k) = s.accepted_of(id) {
        let w = choose|w: int| 0 <= w < before.len() && backs_row(#[trigger] before[w], rows[k]);
        lemma_one_duel_per_number(s, w, s.duel_at(id).unwrap());
        assert(s.can_complete(id));
    } else if s.can_complete(id) {
        lemma_under_way_has_row(s, index, id);
    }
    if let Some(k) = s.accepted_of(id) {
        let j = s.duel_at(id).unwrap();
        assert(left == rows.remove(k));
        assert forall|r: int| 0 <= r < left.len() implies row_fits(after, #[trigger] left[r]) by {
            let r0 = if r < k {
                r
            } else {
                r + 1
            };
            assert(left[r] == rows[r0]);
            if r0 < k {
                assert(rows[r0].duel_id != rows[k].duel_id);
            } else {
                assert(rows[k].duel_id != rows[r0].duel_id);
            }
            let w = choose|w: int|
                0 <= w < before.len() && backs_row(#[trigger] before[w], rows[r0]);
            assert(w != j);
            assert(backs_row(after[w], left[r]));
        }
        assert forall|i: int|
            0 <= i < after.len() && (#[trigger] after[i]).status
                == DuelStatus::Accepted implies has_row(left, after[i].id) by {
            assert(i != j);
            assert(before[i].status == DuelStatus::Accepted);
            assert(has_row(rows, before[i].id));
            let r0 = choose|r0: int|
                0 <= r0 < rows.len() && (#[trigger] rows[r0]).duel_id == before[i].id;
            lemma_one_duel_per_number(s, i, i);
            if r0 == k {
                lemma_one_duel_per_number(s, i, j);
            }
            let r = if r0 < k {
                r0
            } else {
                r0 - 1
            };
            assert(left[r] == rows[r0]);
        }
        assert forall|e: int| 0 <= e < index.len() implies entry_fits(
            after,
            #[trigger] index[e],
        ) by {
            let w = choose|w: int|
                0 <= w < before.len() && backs_entry(#[trigger] before[w], index[e]);
            assert(w != j);
            assert(backs_entry(after[w], index[e]));
        }
    } else {
        assert(t == s);
    }
}

/// Starting the duel that stands first in the queue of its pair, and taking
/// it out of the index, keeps store and index fitting.
pub proof fn lemma_start_fits(s: StoreView, index: Seq<PendingView>, key: Seq<char>, now: int)
    requires
        duels_wf(s.duels),
        consistent(s, index),
        queue_of(index, key).len() > 0,
        s.can_start(
            queue_of(index, key)[0].id,
            queue_of(index, key)[0].challenger_id,
            queue_of(index, key)[0].challenged_id,
        ),
    ensures
        consistent(
            s.start_duel(
                queue_of(index, key)[0].id,
                queue_of(index, key)[0].challenger_id,
                queue_of(index, key)[0].challenged_id,
                now,
            ),
            without_front(index, key),
        ),
{
    let d = queue_of(index, key)[0];
    let f = front_of(index, key);
    lemma_first_index(index, |e: PendingView| e.key == key);
    if f >= index.len() {
        crate::state::lemma_queue_absent(index, key);
    }
    lemma_queue_pop(index, key, key);
    assert(index[f].duel == d);
    let before = s.duels;
    let rows = s.accepted_duels;
    lemma_duel_at(s, d.id);
    let j = s.duel_at(d.id).unwrap();
    let w0 = choose|w: int| 0 <= w < before.len() && backs_entry(#[trigger] before[w], index[f]);
    lemma_one_duel_per_number(s, w0, j);
    let row = s.new_accepted(d.id, d.challenger_id, d.challenged_id, now);
    let with_row = s.push_accepted(row);
    lemma_duel_at(with_row, d.id);
    let t = s.start_duel(d.id, d.challenger_id, d.challenged_id, now);
    let after = t.duels;
    let more = t.accepted_duels;
    assert(more == rows.push(row));
    assert(after == before.update(
        j,
        DuelView { status: DuelStatus::Accepted, updated_at: now, ..before[j] },
    ));
    let left = without_front(index, key);
    assert(left == index.remove(f));
    assert forall|k: int| 0 <= k < more.len() implies row_fits(after, #[trigger] more[k]) by {
        if k < rows.len() {
            assert(more[k] == rows[k]);
            let w = choose|w: int|
                0 <= w < before.len() && backs_row(#[trigger] before[w], rows[k]);
            assert(w != j);
            assert(backs_row(after[w], more[k]));
        } else {
            assert(backs_row(after[j], more[k]));
        }
    }
    assert forall|i: int|
        0 <= i < after.len() && (#[trigger] after[i]).status == DuelStatus::Accepted implies has_row(
        more,
        after[i].id,
    ) by {
        if i == j {
            assert(more[rows.len() as int].duel_id == d.id);
        } else {
            assert(before[i].status == DuelStatus::Accepted);
            assert(has_row(rows, before[i].id));
            let r = choose|r: int|
                0 <= r < rows.len() && (#[trigger] rows[r]).duel_id == before[i].id;
            assert(more[r] == rows[r]);
        }
    }
    assert forall|e: int| 0 <= e < left.len() implies entry_fits(after, #[trigger] left[e]) by {
        let e0 = if e < f {
            e
        } else {
            e + 1
        };
        assert(left[e] == index[e0]);
        if e0 < f {
            assert(index[e0].duel.id != index[f].duel.id);
        } else {
            assert(index[f].duel.id != index[e0].duel.id);
        }
        let w = choose|w: int|
            0 <= w < before.len() && backs_entry(#[trigger] before[w], index[e0]);
        assert(w != j);
        assert(backs_entry(after[w], left[e]));
    }
    assert forall|a: int, b: int| 0 <= a < b < left.len() implies (#[trigger] left[a]).duel.id
        != (#[trigger] left[b]).duel.id by {
        let a0 = if a < f {
            a
        } else {
            a + 1
        };
        let b0 = if b < f {
            b
        } else {
            b + 1
        };
        assert(left[a] == index[a0]);
        assert(left[b] == index[b0]);
        assert(index[a0].duel.id != index[b0].duel.id);
    }
}

/// Sweeping a stale duel away keeps store and index fitting.
pub proof fn lemma_sweep_fits(s: StoreView, index: Seq<PendingView>, who: Seq<char>, now: int)
    requires
        duels_wf(s.duels),
        accepted_wf(s.accepted_duels),
        consistent(s, index),
    ensures
        consistent(sweep_stale(s, who, now), index),
        duels_wf(sweep_stale(s, who, now).duels),
{
    crate::commands::lemma_sweep_stale(s, who, now);
    if let Some(k) = s.accepted_for(who) {
        lemma_completion_fits(s, index, s.accepted_duels[k].duel_id, None, now);
    }
}

/// Where store and index fit together, whoever has a row among the duels
/// under way is in a duel that exists and is under way, and sweeping it
/// away completes that very duel without a winner.
pub proof fn lemma_sweep_completes(s: StoreView, index: Seq<PendingView>, who: Seq<char>, now: int)
    requires
        s.wf(),
        consistent(s, index),
        s.accepted_for(who) is Some,
    ensures
        ({
            let id = s.accepted_duels[s.accepted_for(who).unwrap()].duel_id;
            let swept = sweep_stale(s, who, now);
            &&& s.duel_at(id) is Some
            &&& s.duels[s.duel_at(id).unwrap()].status == DuelStatus::Accepted
            &&& swept.duels[s.duel_at(id).unwrap()].status == DuelStatus::Completed
            &&& swept.duels[s.duel_at(id).unwrap()].winner is None
            &&& swept.accepted_for(who) is None
        }),
{
    lemma_first_index(s.accepted_duels, |a: AcceptedDuelView| crate::db::involves(a, who));
    let k = s.accepted_for(who).unwrap();
    let id = s.accepted_duels[k].duel_id;
    let w = choose|w: int|
        0 <= w < s.duels.len() && backs_row(#[trigger] s.duels[w], s.accepted_duels[k]);
    lemma_duel_at(s, id);
    lemma_one_duel_per_number(s, w, s.duel_at(id).unwrap());
    crate::commands::lemma_sweep_stale(s, who, now);
}

/// A challenge keeps store and index fitting.
pub proof fn lemma_challenge_step_fits(
    s: StoreView,
    index: Seq<PendingView>,
    msg: ChatMessageView,
    now: int,
    pick: int,
)
    requires
        duels_wf(s.duels),
        accepted_wf(s.accepted_duels),
        consistent(s, index),
    ensures
        consistent(
            duel_step(s, index, msg, now, pick).store,
            duel_step(s, index, msg, now, pick).index,
        ),
{
    let words = split_on(msg.text, ' ');
    if let Some(i) = s.chatter_at(msg.sender_id) {
        crate::db::lemma_chatter_at(s, msg.sender_id);
        let me = s.chatters[i];
        let swept = sweep_stale(s, me.twitch_id, now);
        lemma_sweep_fits(s, index, me.twitch_id, now);
        if words.len() >= 2 {
            if let Some(them) = named_opponent(s, me, strip_at(words[1]), now, pick) {
                if let Some(p) = spec_parse_i32(wager_word(words)) {
                    let d = swept.new_duel(
                        msg.sender_name,
                        them.username,
                        me.twitch_id,
                        them.twitch_id,
                        p as int,
                        now,
                    );
                    lemma_challenge_fits(swept, index, d);
                }
            }
        }
    }
}

/// An acceptance keeps store and index fitting.
pub proof fn lemma_accept_step_fits(
    s: StoreView,
    index: Seq<PendingView>,
    msg: ChatMessageView,
    now: int,
    pick: int,
)
    requires
        duels_wf(s.duels),
        consistent(s, index),
    ensures
        consistent(
            accept_step(s, index, msg, now, pick).store,
            accept_step(s, index, msg, now, pick).index,
        ),
{
    if let Some(challenger) = accept_challenger(s, msg) {
        let key = pair_key(challenger, msg.sender_name);
        if queue_of(index, key).len() > 0 {
            let d = queue_of(index, key)[0];
            if let Some(q) = s.picked_question(pick) {
                if s.can_start(d.id, d.challenger_id, d.challenged_id) {
                    lemma_start_fits(s, index, key, now);
                    let started = s.start_duel(d.id, d.challenger_id, d.challenged_id, now);
                    lemma_duel_at(started, d.id);
                    if started.can_set_question(d.id) {
                        let j = started.duel_at(d.id).unwrap();
                        lemma_same_standing(
                            started,
                            without_front(index, key),
                            j,
                            DuelView {
                                question: Some(q.question),
                                answer: Some(q.answer),
                                updated_at: now,
                                ..started.duels[j]
                            },
                        );
                    }
                }
            }
        }
    }
}

/// An answer keeps store and index fitting.
pub proof fn lemma_answer_step_fits(
    s: StoreView,
    index: Seq<PendingView>,
    msg: ChatMessageView,
    now: int,
)
    requires
        duels_wf(s.duels),
        accepted_wf(s.accepted_duels),
        consistent(s, index),
    ensures
        consistent(answer_step(s, msg, now).store, index),
{
    if let Some(found) = duel_of(s, msg.sender_id) {
        let d = found.0;
        let my_id = if found.1 {
            d.challenger_id
        } else {
            d.challenged_id
        };
        let their_id = if found.1 {
            d.challenged_id
        } else {
            d.challenger_id
        };
        crate::commands::lemma_duel_of(s, msg.sender_id);
        lemma_duel_at(s, d.id);
        let j = s.duel_at(d.id).unwrap();
        // The win.
        let paid = s.add_points(my_id, d.points).add_win(my_id).add_loss(
            their_id,
        ).subtract_points(their_id, half(d.points));
        assert(paid.duels == s.duels && paid.accepted_duels == s.accepted_duels);
        lemma_completion_fits(paid, index, d.id, Some(msg.sender_name), now);
        // The guess less.
        let less = s.decrement_guesses(d.id, found.1, now);
        if s.can_decrement(d.id, found.1) {
            lemma_same_standing(s, index, j, less.duels[j]);
            assert(less.duels =~= s.with_duel(j, less.duels[j]).duels);
        }
        assert(consistent(less, index));
        // The end without a winner.
        let both = less.subtract_points(d.challenger_id, half(d.points)).subtract_points(
            d.challenged_id,
            half(d.points),
        );
        assert(both.duels == less.duels && both.accepted_duels == less.accepted_duels);
        lemma_completion_fits(both, index, d.id, None, now);
    }
}

/// Every message keeps store and index fitting: whatever arrives, from
/// whomever and whenever, afterwards every row among the duels under way
/// still belongs to a duel that is under way, every duel under way still
/// has its row, and every queued challenge still awaits acceptance.
pub proof fn lemma_messages_keep_fitting(
    s: StoreView,
    index: Seq<PendingView>,
    msg: ChatMessageView,
    broadcaster_id: Seq<char>,
    now: int,
    chance: ChanceView,
)
    requires
        s.wf(),
        consistent(s, index),
    ensures
        consistent(
            message_step(s, index, msg, broadcaster_id, now, chance).store,
            message_step(s, index, msg, broadcaster_id, now, chance).index,
        ),
{
    let present = s.record_user_presence(msg.sender_id, msg.sender_name, now).add_points(
        msg.sender_id,
        PRESENCE_POINTS as int,
    );
    assert(present.duels == s.duels && present.accepted_duels == s.accepted_duels);
    let back = unlurk_step(present, msg, now).store;
    assert(back.duels == s.duels && back.accepted_duels == s.accepted_duels);
    let command = command_of(first_word(msg.text));
    let done = command_step(command, back, index, msg, broadcaster_id, now, chance);
    match command {
        Command::Duel => {
            lemma_challenge_step_fits(back, index, msg, now, chance.pick);
        },
        Command::Accept => {
            lemma_accept_step_fits(back, index, msg, now, chance.pick);
        },
        Command::Answer => {
            lemma_answer_step_fits(back, index, msg, now);
        },
        Command::AddQuestion => {
            let t = addquestion_step(back, msg).store;
            assert(t.duels == back.duels && t.accepted_duels == back.accepted_duels);
        },
        Command::AddCategory => {
            let t = addcategory_step(back, msg, broadcaster_id, now).store;
            assert(t.duels == back.duels && t.accepted_duels == back.accepted_duels);
        },
        Command::Gift => {
            let t = gift_step(back, msg).store;
            assert(t.duels == back.duels && t.accepted_duels == back.accepted_duels);
        },
        Command::Gamble => {
            let t = gamble_step(back, msg, broadcaster_id, chance.roll1, chance.roll2).store;
            assert(t.duels == back.duels && t.accepted_duels == back.accepted_duels);
        },
        Command::SetPoints => {
            let t = setpoints_step(back, msg, broadcaster_id).store;
            assert(t.duels == back.duels && t.accepted_duels == back.accepted_duels);
        },
        Command::PoolDraw => {
            let t = pool_draw_step(back, msg, broadcaster_id, now, chance.pick).store;
            assert(t.duels == back.duels && t.accepted_duels == back.accepted_duels);
        },
        _ => {
            assert(done.store.duels == back.duels && done.store.accepted_duels
                == back.accepted_duels);
            assert(done.index == index);
        },
    }
}

} // verus!
