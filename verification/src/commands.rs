//! The chat commands: what each one does to the store and to the index of
//! pending duels, and what the bot says in return.
//!
//! Every command is a function from the state before, the message, the
//! present instant and, where chance plays a part, the number drawn, to the
//! state after and the messages to send. `Step` is that result in the model.

use crate::chatter::{get_challenge_to_accept, subtract_points};
use crate::commands::economy::{answer, StoreStep};
use crate::db::{Store, StoreView};
use crate::duel::{
    duels_moved_on, half, lemma_duel_steps_move_on, lemma_moved_on_twice,
    lemma_store_moves_duels_on, question_text,
};
use crate::messaging::{
    duel_err_text, outbox, Outgoing, OutgoingView, reply_to, reply_view, send_duel_err, send_msg,
    send_view,
};
use crate::models::{ChatterView, Duel, DuelStatus, DuelView};
use crate::search::lemma_first_index;
use crate::state::{make_key, pair_key, PendingView, queue_of, State, without_front};
use crate::text::{
    chars_of, decimal, decimal_string, join, join_from, lowercase, parse_i32, spec_parse_i32, split,
    split_on, string_of, texts,
};
use vstd::prelude::*;

pub mod bank;
pub mod economy;
pub mod helpers;
pub mod social;

pub use bank::{handle_addcategory_command, handle_addquestion_command};
pub use economy::{
    handle_gamble_command, handle_gift_command, handle_pool_command, handle_pool_draw_command,
    handle_setpoints_command,
};
pub use social::{
    handle_botrepo_command, handle_commands_command, handle_contribute_command,
    handle_github_command, handle_kda_command, handle_listcategories_command, handle_lurk_command,
    handle_lurkers_command, handle_lurktime_command, handle_ranking_command,
    handle_top_duelists_command, handle_yo_command,
};

verus! {

/// A message from the chat: who sent it, under which name, and what it says.
#[derive(Debug)]
pub struct ChatMessage {
    pub sender_id: String,
    pub sender_name: String,
    pub text: String,
}

/// A chat message in the model.
pub struct ChatMessageView {
    pub sender_id: Seq<char>,
    pub sender_name: Seq<char>,
    pub text: Seq<char>,
}

impl View for ChatMessage {
    type V = ChatMessageView;

    open spec fn view(&self) -> ChatMessageView {
        ChatMessageView {
            sender_id: self.sender_id@,
            sender_name: self.sender_name@,
            text: self.text@,
        }
    }
}

/// What a command leads to: the store and the index afterwards, and the
/// messages to send, in order.
pub struct Step {
    pub store: StoreView,
    pub index: Seq<PendingView>,
    pub out: Seq<OutgoingView>,
}

/// The step that changes nothing and says one thing.
pub open spec fn say(store: StoreView, index: Seq<PendingView>, m: OutgoingView) -> Step {
    Step { store: store, index: index, out: seq![m] }
}

/// The step that changes nothing and tells `who` that their command was refused.
pub open spec fn refuse(
    store: StoreView,
    index: Seq<PendingView>,
    who: Seq<char>,
    err: Seq<char>,
) -> Step {
    say(store, index, send_view(duel_err_text(who, err)))
}

/// A name without the `@` that may stand before it.
pub open spec fn strip_at(name: Seq<char>) -> Seq<char> {
    if name.len() > 0 && name[0] == '@' {
        name.drop_first()
    } else {
        name
    }
}

/// Takes the `@` off the front of a name, where there is one.
pub fn without_at(name: &str) -> (r: String)
    ensures
        r@ == strip_at(name@),
{
    let v = chars_of(name);
    if v.len() > 0 && v[0] == '@' {
        let r = string_of(&v, 1, v.len());
        assert(name@.drop_first() =~= v@.subrange(1, v.len() as int));
        r
    } else {
        name.to_owned()
    }
}

/// A list of one message.
pub fn one(m: Outgoing) -> (out: Vec<Outgoing>)
    ensures
        outbox(out@) == seq![m@],
        out@.len() == 1,
        out@[0]@ == m@,
{
    let mut out: Vec<Outgoing> = Vec::new();
    out.push(m);
    assert(outbox(out@) =~= seq![m@]);
    out
}

/// The challenger whose challenge the sender accepts: the one that the
/// message names, or, where it names none, the one of the sender's only
/// outstanding challenge.
pub open spec fn accept_challenger(s: StoreView, msg: ChatMessageView) -> Option<Seq<char>> {
    let words = split_on(msg.text, ' ');
    if words.len() >= 2 {
        Some(strip_at(words[1]))
    } else if s.challenges(msg.sender_id).len() == 1 {
        Some(s.challenges(msg.sender_id)[0].challenger)
    } else {
        None
    }
}

/// What `!accept` leads to. The sender accepts the oldest challenge that the
/// named challenger has outstanding against them. The duel starts, leaves
/// the index and gets the question that `pick` selects. Nothing changes
/// where no challenger can be told, where that pair has no challenge
/// outstanding, where the bank is empty, or where the duel cannot start.
pub open spec fn accept_step(
    s: StoreView,
    index: Seq<PendingView>,
    msg: ChatMessageView,
    now: int,
    pick: int,
) -> Step {
    match accept_challenger(s, msg) {
        None => refuse(
            s,
            index,
            msg.sender_name,
            "You have more than one challenge! Provide a username in the format !accept @<user> or !accept <user>"@,
        ),
        Some(challenger) => {
            let key = pair_key(challenger, msg.sender_name);
            if queue_of(index, key).len() == 0 {
                refuse(s, index, msg.sender_name, "Wrong opponent!"@)
            } else {
                let d = queue_of(index, key)[0];
                match s.picked_question(pick) {
                    None => say(s, index, send_view("No questions in the database yet!"@)),
                    Some(q) => if !s.can_start(d.id, d.challenger_id, d.challenged_id) {
                        refuse(s, index, msg.sender_name, "You already have an accepted duel!"@)
                    } else {
                        Step {
                            store: s.start_duel(
                                d.id,
                                d.challenger_id,
                                d.challenged_id,
                                now,
                            ).set_question_duel(d.id, q.question, q.answer, now),
                            index: without_front(index, key),
                            out: seq![
                                send_view(
                                    question_text(
                                        d.challenger,
                                        d.challenged,
                                        s.category_label(q.category_id),
                                        q.question,
                                    ),
                                ),
                            ],
                        }
                    },
                }
            }
        },
    }
}

/// Handles `!accept [@user]`.
pub fn handle_accept_command(
    store: &mut Store,
    bot_state: &mut State,
    msg: &ChatMessage,
    now: i64,
    pick: usize,
) -> (out: Vec<Outgoing>)
    requires
        old(store)@.wf(),
    ensures
        final(store)@.wf(),
        (Step { store: final(store)@, index: final(bot_state)@, out: outbox(out@) }) == accept_step(
            old(store)@,
            old(bot_state)@,
            msg@,
            now as int,
            pick as int,
        ),
{
    let words = split(msg.text.as_str(), ' ');
    let challenged = msg.sender_name.as_str();
    let challenger: String = if words.len() >= 2 {
        assert(texts(words@)[1] == words@[1]@);
        without_at(words[1].as_str())
    } else {
        match get_challenge_to_accept(store, msg.sender_id.as_str()) {
            Some(challenger) => challenger,
            None => {
                return one(
                    send_duel_err(
                        challenged,
                        "You have more than one challenge! Provide a username in the format !accept @<user> or !accept <user>",
                    ),
                );
            },
        }
    };
    let key = make_key(challenger.as_str(), challenged);
    let mut duel = match bot_state.peek(key.as_str()) {
        Some(d) => d,
        None => {
            return one(send_duel_err(challenged, "Wrong opponent!"));
        },
    };
    let question = match store.pick_question(pick) {
        Some(q) => q,
        None => {
            return one(send_msg("No questions in the database yet!"));
        },
    };
    if !duel.accept_duel(store, now) {
        return one(send_duel_err(challenged, "You already have an accepted duel!"));
    }
    bot_state.get_duel(&key);
    let announcement = duel.ask_question(store, &question, now);
    one(announcement)
}

/// How long a duel may be under way before a new challenge of one of its
/// sides sweeps it away: ten minutes.
pub const STALE_AFTER: i64 = 600_000_000;

/// Whether a duel that was accepted at `created_at` is stale at `now`: more
/// than ten minutes have passed. A duel without that instant is never stale.
pub open spec fn is_stale(created_at: Option<int>, now: int) -> bool {
    match created_at {
        Some(t) => now - t > STALE_AFTER,
        None => false,
    }
}

/// Whether a duel that was accepted at `created_at` is stale at `now`.
pub fn stale(created_at: Option<i64>, now: i64) -> (r: bool)
    ensures
        r == is_stale(
            match created_at {
                Some(t) => Some(t as int),
                None => None,
            },
            now as int,
        ),
{
    match created_at {
        Some(t) => now as i128 - t as i128 > STALE_AFTER as i128,
        None => false,
    }
}

/// The store after the stale duel of `who` was swept away: the duel is
/// completed without a winner, and its row among the duels under way is
/// gone. Nothing changes where `who` is in no duel under way.
pub open spec fn sweep_stale(s: StoreView, who: Seq<char>, now: int) -> StoreView {
    match s.accepted_for(who) {
        Some(k) => s.complete_tie(s.accepted_duels[k].duel_id, now),
        None => s,
    }
}

/// The announcement of a challenge.
pub open spec fn challenge_text(challenger: Seq<char>, challenged: Seq<char>) -> Seq<char> {
    "@"@ + challenger + " Challenge Announced, @"@ + challenged + " type the command '!accept @"@
        + challenger + "' to begin duel!"@
}

/// The wager that a `!duel` message names: its third word, or 100 where it
/// has none.
pub open spec fn wager_word(words: Seq<Seq<char>>) -> Seq<char> {
    if words.len() > 2 {
        words[2]
    } else {
        "100"@
    }
}

/// What becomes of a challenge of `me` against `them` once both are known
/// and no duel under way stands against it: the wager must be a number, not
/// negative and within the balance of `me`, and nothing may follow it. Then
/// the duel is recorded and queued, and the challenge is announced.
pub open spec fn wager_step(
    s: StoreView,
    index: Seq<PendingView>,
    me: ChatterView,
    them: ChatterView,
    challenger: Seq<char>,
    words: Seq<Seq<char>>,
    now: int,
) -> Step {
    match spec_parse_i32(wager_word(words)) {
        None => refuse(s, index, challenger, "Provide a valid point value."@),
        Some(p) => if p < 0 {
            refuse(s, index, challenger, "Provide a positive point value."@)
        } else if p > me.points {
            refuse(s, index, challenger, "You don't have enough points to wager that much!!"@)
        } else if words.len() > 3 {
            refuse(s, index, challenger, "Too many arguments!"@)
        } else if s.next_duel_id() > i32::MAX {
            say(s, index, reply_view("Something went wrong! Try Again!"@))
        } else {
            let d = s.new_duel(
                challenger,
                them.username,
                me.twitch_id,
                them.twitch_id,
                p as int,
                now,
            );
            Step {
                store: s.push_duel(d),
                index: index.push(
                    PendingView { key: pair_key(d.challenger, d.challenged), duel: d },
                ),
                out: seq![reply_view(challenge_text(challenger, them.username))],
            }
        },
    }
}

/// The opponent that a `!duel` message names for `me`: the first chatter of
/// that name, or, for the name `random`, the one that `pick` selects.
pub open spec fn named_opponent(
    s: StoreView,
    me: ChatterView,
    challenged: Seq<char>,
    now: int,
    pick: int,
) -> Option<ChatterView> {
    if challenged == "random"@ {
        s.random_chatter(me.id, now, pick)
    } else {
        match s.chatter_named(challenged) {
            Some(k) => Some(s.chatters[k]),
            None => None,
        }
    }
}

/// What `!duel <user> [points]` leads to. The sender challenges the named
/// chatter. The challenge is refused where no opponent is named, where the
/// opponent is the sender, by name under any spelling of upper and lower
/// case or by chat identity, where either of the two is unknown, and where
/// the sender is in a duel under way that is not stale. A stale duel of the sender is swept away first, and
/// stays so whatever becomes of the challenge itself.
pub open spec fn duel_step(
    s: StoreView,
    index: Seq<PendingView>,
    msg: ChatMessageView,
    now: int,
    pick: int,
) -> Step {
    let words = split_on(msg.text, ' ');
    let challenger = msg.sender_name;
    if words.len() < 2 {
        refuse(
            s,
            index,
            challenger,
            "You need to provide a username in the format @<user> <points> or <user> <points>, or you can say 'random' to duel a random user!"@,
        )
    } else if lowercase(challenger) == lowercase(strip_at(words[1])) {
        refuse(s, index, challenger, "You can't duel yourself silly!"@)
    } else {
        match s.chatter_at(msg.sender_id) {
            None => refuse(s, index, challenger, "Chatter not found!"@),
            Some(i) => {
                let me = s.chatters[i];
                match named_opponent(s, me, strip_at(words[1]), now, pick) {
                    None => refuse(s, index, challenger, "Chatter not found!"@),
                    Some(them) => {
                        let busy = s.accepted_for(me.twitch_id);
                        if them.twitch_id == me.twitch_id {
                            refuse(s, index, challenger, "You can't duel yourself silly!"@)
                        } else if busy is Some && !is_stale(
                            s.accepted_duels[busy.unwrap()].created_at,
                            now,
                        ) {
                            refuse(s, index, challenger, "You already have an accepted duel!"@)
                        } else {
                            wager_step(
                                sweep_stale(s, me.twitch_id, now),
                                index,
                                me,
                                them,
                                challenger,
                                words,
                                now,
                            )
                        }
                    },
                }
            },
        }
    }
}

/// Nobody duels themselves: a challenge whose opponent is the sender, in
/// whatever spelling of upper and lower case and with or without the `@`,
/// is refused and changes nothing, whatever the wager and whatever else
/// the message says.
pub proof fn lemma_self_duel_is_refused(
    s: StoreView,
    index: Seq<PendingView>,
    msg: ChatMessageView,
    now: int,
    pick: int,
)
    requires
        split_on(msg.text, ' ').len() >= 2,
        lowercase(msg.sender_name) == lowercase(strip_at(split_on(msg.text, ' ')[1])),
    ensures
        duel_step(s, index, msg, now, pick) == refuse(
            s,
            index,
            msg.sender_name,
            "You can't duel yourself silly!"@,
        ),
{
}

/// Sweeping a stale duel away creates no duel, touches no chatter and frees
/// the participant: afterwards no duel under way involves them. The duel
/// that was under way is completed without a winner.
pub proof fn lemma_sweep_stale(s: StoreView, who: Seq<char>, now: int)
    requires
        crate::db::duels_wf(s.duels),
        crate::db::accepted_wf(s.accepted_duels),
    ensures
        ({
            let swept = sweep_stale(s, who, now);
            &&& s.wf() ==> swept.wf()
            &&& crate::db::duels_wf(swept.duels)
            &&& crate::db::accepted_wf(swept.accepted_duels)
            &&& swept.accepted_for(who) is None
            &&& swept.chatters == s.chatters
            &&& swept.duels.len() == s.duels.len()
            &&& swept.next_duel_id() == s.next_duel_id()
            &&& forall|j: int|
                0 <= j < s.duels.len() ==> (#[trigger] swept.duels[j]).id == s.duels[j].id
            &&& match s.accepted_for(who) {
                Some(k) => match s.duel_at(s.accepted_duels[k].duel_id) {
                    Some(j) => s.duels[j].status == DuelStatus::Accepted ==> swept.duels[j].status
                        == DuelStatus::Completed && swept.duels[j].winner is None,
                    None => true,
                },
                None => swept == s,
            }
        }),
{
    let p = |a: crate::models::AcceptedDuelView| crate::db::involves(a, who);
    lemma_first_index(s.accepted_duels, p);
    match s.accepted_for(who) {
        Some(k) => {
            let rows = s.accepted_duels;
            let duel_id = rows[k].duel_id;
            let q = |a: crate::models::AcceptedDuelView| a.duel_id == duel_id;
            assert forall|j: int| 0 <= j < k implies !q(#[trigger] rows[j]) by {
                assert(rows[j].duel_id != rows[k].duel_id);
            }
            crate::search::lemma_first_index_is(rows, q, k);
            lemma_first_index(s.duels, |x: DuelView| x.id == duel_id);
            let done = s.complete_duel(duel_id, None, now);
            assert(done.accepted_duels == rows);
            let swept = done.destroy_accepted_duel(duel_id);
            let after = rows.remove(k);
            assert(swept.accepted_duels == after);
            assert forall|j: int| 0 <= j < after.len() implies !p(#[trigger] after[j]) by {
                if j < k {
                    assert(after[j] == rows[j]);
                    assert(!p(rows[j]));
                } else {
                    assert(after[j] == rows[j + 1]);
                    assert(!crate::db::involves(rows[j + 1], rows[k].challenger_id));
                    assert(!crate::db::involves(rows[j + 1], rows[k].challenged_id));
                }
            }
            crate::search::lemma_first_index_is(after, p, after.len() as int);
            assert forall|a: int, b: int| 0 <= a < b < after.len() implies after[a].id
                < after[b].id && after[a].duel_id != after[b].duel_id && !crate::db::involves(
                after[b],
                after[a].challenger_id,
            ) && !crate::db::involves(after[b], after[a].challenged_id) by {
                let a0 = if a < k {
                    a
                } else {
                    a + 1
                };
                let b0 = if b < k {
                    b
                } else {
                    b + 1
                };
                assert(after[a] == rows[a0]);
                assert(after[b] == rows[b0]);
                assert(rows[a0].id < rows[b0].id);
            }
        },
        None => {},
    }
}

/// A challenge beyond the balance creates no duel: where the sender has an
/// account and the wager that the message names is a number above its
/// balance, the challenge is refused, there are as many duels as
/// before, and the index is as it was. (A stale duel of the sender may have
/// been swept away on the way.)
pub proof fn lemma_overdrawn_wager_is_refused(
    s: StoreView,
    index: Seq<PendingView>,
    msg: ChatMessageView,
    now: int,
    pick: int,
)
    requires
        s.wf(),
        s.chatter_at(msg.sender_id) is Some,
        spec_parse_i32(wager_word(split_on(msg.text, ' '))) is Some,
        spec_parse_i32(wager_word(split_on(msg.text, ' '))).unwrap() > s.chatters[s.chatter_at(
            msg.sender_id,
        ).unwrap()].points,
    ensures
        ({
            let step = duel_step(s, index, msg, now, pick);
            let me = s.chatters[s.chatter_at(msg.sender_id).unwrap()];
            &&& step.store.duels.len() == s.duels.len()
            &&& step.store == s || step.store == sweep_stale(s, me.twitch_id, now)
            &&& step.index == index
            &&& exists|err: Seq<char>|
                step.out == seq![send_view(duel_err_text(msg.sender_name, err))]
        }),
{
    let step = duel_step(s, index, msg, now, pick);
    crate::db::lemma_chatter_at(s, msg.sender_id);
    let me = s.chatters[s.chatter_at(msg.sender_id).unwrap()];
    lemma_sweep_stale(s, me.twitch_id, now);
    let words = split_on(msg.text, ' ');
    let who = msg.sender_name;
    if words.len() < 2 {
        assert(step.out == seq![
            send_view(
                duel_err_text(
                    who,
                    "You need to provide a username in the format @<user> <points> or <user> <points>, or you can say 'random' to duel a random user!"@,
                ),
            ),
        ]);
    } else if lowercase(who) == lowercase(strip_at(words[1])) {
        assert(step.out == seq![send_view(duel_err_text(who, "You can't duel yourself silly!"@))]);
    } else if named_opponent(s, me, strip_at(words[1]), now, pick) is None {
        assert(step.out == seq![send_view(duel_err_text(who, "Chatter not found!"@))]);
    } else if named_opponent(s, me, strip_at(words[1]), now, pick).unwrap().twitch_id
        == me.twitch_id {
        assert(step.out == seq![send_view(duel_err_text(who, "You can't duel yourself silly!"@))]);
    } else {
        let busy = s.accepted_for(me.twitch_id);
        if busy is Some && !is_stale(s.accepted_duels[busy.unwrap()].created_at, now) {
            assert(step.out == seq![
                send_view(duel_err_text(who, "You already have an accepted duel!"@)),
            ]);
        } else {
            let p = spec_parse_i32(wager_word(words)).unwrap();
            if p < 0 {
                assert(step.out == seq![
                    send_view(duel_err_text(who, "Provide a positive point value."@)),
                ]);
            } else {
                assert(step.out == seq![
                    send_view(
                        duel_err_text(who, "You don't have enough points to wager that much!!"@),
                    ),
                ]);
            }
        }
    }
}

/// A stale duel does not block its sides for ever: where the sender of a
/// challenge is in a duel under way that was accepted more than ten
/// minutes ago, that duel is swept away: it is completed without a winner,
/// no points change hands, and the sender is free. The challenge goes on
/// as if the sender had been free from the start. With an opponent, a
/// wager within the balance and nothing behind it, the challenge succeeds:
/// one duel more is recorded, awaiting acceptance, and the challenge is
/// announced.
pub proof fn lemma_stale_duel_gives_way(
    s: StoreView,
    index: Seq<PendingView>,
    msg: ChatMessageView,
    now: int,
    pick: int,
)
    requires
        s.wf(),
        split_on(msg.text, ' ').len() >= 2,
        lowercase(msg.sender_name) != lowercase(strip_at(split_on(msg.text, ' ')[1])),
        s.chatter_at(msg.sender_id) is Some,
        named_opponent(
            s,
            s.chatters[s.chatter_at(msg.sender_id).unwrap()],
            strip_at(split_on(msg.text, ' ')[1]),
            now,
            pick,
        ) is Some,
        named_opponent(
            s,
            s.chatters[s.chatter_at(msg.sender_id).unwrap()],
            strip_at(split_on(msg.text, ' ')[1]),
            now,
            pick,
        ).unwrap().twitch_id != msg.sender_id,
        s.accepted_for(s.chatters[s.chatter_at(msg.sender_id).unwrap()].twitch_id) is Some,
        is_stale(
            s.accepted_duels[s.accepted_for(
                s.chatters[s.chatter_at(msg.sender_id).unwrap()].twitch_id,
            ).unwrap()].created_at,
            now,
        ),
    ensures
        ({
            let words = split_on(msg.text, ' ');
            let me = s.chatters[s.chatter_at(msg.sender_id).unwrap()];
            let them = named_opponent(s, me, strip_at(words[1]), now, pick).unwrap();
            let swept = sweep_stale(s, me.twitch_id, now);
            let step = duel_step(s, index, msg, now, pick);
            let wager = spec_parse_i32(wager_word(words));
            &&& step == wager_step(swept, index, me, them, msg.sender_name, words, now)
            &&& swept.accepted_for(me.twitch_id) is None
            &&& swept.chatters == s.chatters
            &&& match s.duel_at(s.accepted_duels[s.accepted_for(me.twitch_id).unwrap()].duel_id) {
                Some(j) => s.duels[j].status == DuelStatus::Accepted ==> swept.duels[j].status
                    == DuelStatus::Completed && swept.duels[j].winner is None,
                None => true,
            }
            &&& (wager is Some && 0 <= wager.unwrap() <= me.points && words.len() <= 3
                && s.next_duel_id() <= i32::MAX) ==> {
                &&& step.store.duels.len() == s.duels.len() + 1
                &&& step.store.duels.last().status == DuelStatus::Challenged
                &&& step.store.duels.last().points == wager.unwrap()
                &&& step.out == seq![reply_view(challenge_text(msg.sender_name, them.username))]
            }
        }),
{
    crate::db::lemma_chatter_at(s, msg.sender_id);
    let me = s.chatters[s.chatter_at(msg.sender_id).unwrap()];
    lemma_sweep_stale(s, me.twitch_id, now);
}

/// Handles `!duel <user> [points]` and `!challenge <user> [points]`.
pub fn handle_duel_command(
    store: &mut Store,
    bot_state: &mut State,
    msg: &ChatMessage,
    now: i64,
    pick: usize,
) -> (out: Vec<Outgoing>)
    requires
        old(store)@.wf(),
    ensures
        final(store)@.wf(),
        (Step { store: final(store)@, index: final(bot_state)@, out: outbox(out@) }) == duel_step(
            old(store)@,
            old(bot_state)@,
            msg@,
            now as int,
            pick as int,
        ),
{
    let words = split(msg.text.as_str(), ' ');
    let challenger = msg.sender_name.as_str();
    if words.len() < 2 {
        return one(
            send_duel_err(
                challenger,
                "You need to provide a username in the format @<user> <points> or <user> <points>, or you can say 'random' to duel a random user!",
            ),
        );
    }
    assert(texts(words@)[1] == words@[1]@);
    let challenged = without_at(words[1].as_str());
    if challenger.to_lowercase() == challenged.as_str().to_lowercase() {
        return one(send_duel_err(challenger, "You can't duel yourself silly!"));
    }
    let challenger_chatter = match store.get_chatter(msg.sender_id.as_str()) {
        Some(chatter) => chatter,
        None => {
            return one(send_duel_err(challenger, "Chatter not found!"));
        },
    };
    let found = if challenged.as_str().eq("random") {
        store.get_random_chatter(&challenger_chatter, now, pick)
    } else {
        store.get_chatter_by_username(challenged.as_str())
    };
    let challenged_chatter = match found {
        Some(chatter) => chatter,
        None => {
            return one(send_duel_err(challenger, "Chatter not found!"));
        },
    };
    if challenged_chatter.twitch_id == challenger_chatter.twitch_id {
        return one(send_duel_err(challenger, "You can't duel yourself silly!"));
    }
    match store.get_accepted_duel(challenger_chatter.twitch_id.as_str()) {
        Some(row) => {
            if stale(row.created_at, now) {
                match store.get_duel(row.duel_id) {
                    Some(d) => {
                        let mut d = d;
                        proof {
                            lemma_first_index(
                                store@.duels,
                                |x: DuelView| x.id == row.duel_id as int,
                            );
                        }
                        d.complete_duel(store, now);
                    },
                    None => {
                        store.destroy_accepted_duel(row.duel_id);
                    },
                }
            } else {
                return one(send_duel_err(challenger, "You already have an accepted duel!"));
            }
        },
        None => {},
    }
    let word: &str = if words.len() > 2 {
        assert(texts(words@)[2] == words@[2]@);
        words[2].as_str()
    } else {
        "100"
    };
    let points: i32 = match parse_i32(word) {
        Some(p) => {
            if p < 0 {
                return one(send_duel_err(challenger, "Provide a positive point value."));
            } else if (p as i64) > challenger_chatter.points {
                return one(
                    send_duel_err(challenger, "You don't have enough points to wager that much!!"),
                );
            } else {
                p
            }
        },
        None => {
            return one(send_duel_err(challenger, "Provide a valid point value."));
        },
    };
    if words.len() > 3 {
        return one(send_duel_err(challenger, "Too many arguments!"));
    }
    let curr_duel = match Duel::new(
        store,
        challenger,
        challenged_chatter.username.as_str(),
        challenger_chatter.twitch_id.as_str(),
        challenged_chatter.twitch_id.as_str(),
        points as i64,
        now,
    ) {
        Ok(d) => d,
        Err(_) => {
            return one(reply_to("Something went wrong! Try Again!"));
        },
    };
    bot_state.save_duel(&curr_duel);
    let mut text = String::from_str("@");
    text.append(challenger);
    text.append(" Challenge Announced, @");
    text.append(challenged_chatter.username.as_str());
    text.append(" type the command '!accept @");
    text.append(challenger);
    text.append("' to begin duel!");
    one(reply_to(text.as_str()))
}

/// What a side hears that has no guess left.
pub open spec fn out_of_guesses_text(name: Seq<char>) -> Seq<char> {
    "@"@ + name + " you are out of guesses!"@
}

/// What is said after the right answer.
pub open spec fn correct_text(winner: Seq<char>, wager: int, loser: Seq<char>) -> Seq<char> {
    "Correct! @"@ + winner + " won "@ + decimal(wager) + " Points & @"@ + loser + " lost "@
        + decimal(half(wager)) + " Points!"@
}

/// What a side hears after a wrong answer: how many guesses it has left,
/// or that it has none.
pub open spec fn incorrect_text(name: Seq<char>, left: int) -> Seq<char> {
    if left <= 0 {
        "Incorrect! @"@ + name + " you are out of guesses!"@
    } else {
        "Incorrect! @"@ + name + " you have "@ + decimal(left)
            + " guesses remaining! type '!repeat' to repeat the question"@
    }
}

/// What is said when both sides have used up their guesses.
pub open spec fn exhausted_text(d: DuelView) -> Seq<char> {
    "Both players have exhausted their guesses! The duel is over! Both @"@ + d.challenger
        + " and @"@ + d.challenged + " lose "@ + decimal(half(d.points))
        + " points! The correct answer was "@ + match d.answer {
        Some(a) => a,
        None => Seq::empty(),
    }
}

/// The answer that an `!answer` message gives: everything after its first
/// word.
pub open spec fn response_of(text: Seq<char>) -> Seq<char> {
    join(split_on(text, ' ').skip(1), " "@)
}

/// What an answer of one side of the duel `d` leads to, the duel being under
/// way: `as_challenger` tells the side. A side without a guess left is told
/// so and nothing changes. The right answer wins the duel. A wrong answer
/// costs the side one guess, and where neither side has a guess left after
/// it, the duel ends without a winner.
pub open spec fn guess_step(
    s: StoreView,
    d: DuelView,
    as_challenger: bool,
    responder: Seq<char>,
    response: Seq<char>,
    now: int,
) -> StoreStep {
    let mine = if as_challenger {
        d.challenger_guesses
    } else {
        d.challenged_guesses
    };
    let theirs = if as_challenger {
        d.challenged_guesses
    } else {
        d.challenger_guesses
    };
    let my_name = if as_challenger {
        d.challenger
    } else {
        d.challenged
    };
    let their_name = if as_challenger {
        d.challenged
    } else {
        d.challenger
    };
    let my_id = if as_challenger {
        d.challenger_id
    } else {
        d.challenged_id
    };
    let their_id = if as_challenger {
        d.challenged_id
    } else {
        d.challenger_id
    };
    if mine <= 0 {
        answer(s, out_of_guesses_text(my_name))
    } else if d.is_winner(response) {
        StoreStep {
            store: s.award_winner(d.id, d.points, responder, my_id, their_id, now),
            out: seq![reply_view(correct_text(responder, d.points, their_name))],
        }
    } else if mine - 1 <= 0 && theirs <= 0 {
        StoreStep {
            store: s.decrement_guesses(d.id, as_challenger, now).exhaust(d, now),
            out: seq![
                reply_view(incorrect_text(my_name, mine - 1)),
                reply_view(exhausted_text(d)),
            ],
        }
    } else {
        StoreStep {
            store: s.decrement_guesses(d.id, as_challenger, now),
            out: seq![reply_view(incorrect_text(my_name, mine - 1))],
        }
    }
}

/// The duel under way in which `who` is one of the two sides, and which
/// side: the duel of the row that involves them, provided that it exists,
/// is under way and names them.
pub open spec fn duel_of(s: StoreView, who: Seq<char>) -> Option<(DuelView, bool)> {
    match s.accepted_for(who) {
        None => None,
        Some(k) => match s.duel_at(s.accepted_duels[k].duel_id) {
            None => None,
            Some(j) => {
                let d = s.duels[j];
                if d.status != DuelStatus::Accepted {
                    None
                } else if d.challenger_id == who {
                    Some((d, true))
                } else if d.challenged_id == who {
                    Some((d, false))
                } else {
                    None
                }
            },
        },
    }
}

/// The duel that `duel_of` finds is the store's record of that number, is
/// under way, and has `who` on the side that is told.
pub proof fn lemma_duel_of(s: StoreView, who: Seq<char>)
    requires
        crate::db::duels_wf(s.duels),
    ensures
        match duel_of(s, who) {
            Some(found) => {
                &&& s.duel_at(found.0.id) is Some
                &&& s.duels[s.duel_at(found.0.id).unwrap()] == found.0
                &&& s.can_complete(found.0.id)
                &&& found.0.wf()
                &&& who == if found.1 {
                    found.0.challenger_id
                } else {
                    found.0.challenged_id
                }
            },
            None => true,
        },
{
    if let Some(k) = s.accepted_for(who) {
        let id = s.accepted_duels[k].duel_id;
        lemma_first_index(s.duels, |x: DuelView| x.id == id);
    }
}

/// What `!answer <text>` leads to: the guess counts in the duel under way
/// that the sender is a side of, and a sender without such a duel is told
/// that none was found.
pub open spec fn answer_step(s: StoreView, msg: ChatMessageView, now: int) -> StoreStep {
    match duel_of(s, msg.sender_id) {
        None => StoreStep {
            store: s,
            out: seq![send_view(duel_err_text(msg.sender_name, "No duel found!"@))],
        },
        Some(found) => guess_step(
            s,
            found.0,
            found.1,
            msg.sender_name,
            response_of(msg.text),
            now,
        ),
    }
}

/// The duel under way in which `who` is one of the two sides, and which side.
pub fn find_duel_of(store: &Store, who: &str) -> (r: Option<(Duel, bool)>)
    requires
        store@.wf(),
    ensures
        match (duel_of(store@, who@), r) {
            (Some(found), Some(got)) => got.0@ == found.0 && got.1 == found.1 && got.0@.wf(),
            (None, None) => true,
            _ => false,
        },
{
    let row = match store.get_accepted_duel(who) {
        Some(row) => row,
        None => {
            return None;
        },
    };
    let duel = match store.get_duel(row.duel_id) {
        Some(duel) => duel,
        None => {
            return None;
        },
    };
    proof {
        lemma_first_index(store@.duels, |x: DuelView| x.id == row.duel_id as int);
    }
    if duel.status != DuelStatus::Accepted {
        None
    } else if duel.challenger_id.as_str().eq(who) {
        Some((duel, true))
    } else if duel.challenged_id.as_str().eq(who) {
        Some((duel, false))
    } else {
        None
    }
}

/// Handles `!answer <text>` and `!a <text>`.
pub fn handle_answer_command(store: &mut Store, msg: &ChatMessage, now: i64) -> (out: Vec<
    Outgoing,
>)
    requires
        old(store)@.wf(),
    ensures
        final(store)@.wf(),
        (StoreStep { store: final(store)@, out: outbox(out@) }) == answer_step(
            old(store)@,
            msg@,
            now as int,
        ),
{
    let words = split(msg.text.as_str(), ' ');
    let responder = msg.sender_name.as_str();
    let response = join_from(&words, 1, " ");
    let (mut duel, as_challenger) = match find_duel_of(store, msg.sender_id.as_str()) {
        Some(found) => found,
        None => {
            return one(send_duel_err(responder, "No duel found!"));
        },
    };
    let ghost d = duel@;
    proof {
        lemma_duel_of(store@, msg@.sender_id);
    }
    let mine = if as_challenger {
        duel.challenger_guesses
    } else {
        duel.challenged_guesses
    };
    let theirs = if as_challenger {
        duel.challenged_guesses
    } else {
        duel.challenger_guesses
    };
    let my_name = if as_challenger {
        duel.challenger.clone()
    } else {
        duel.challenged.clone()
    };
    let their_name = if as_challenger {
        duel.challenged.clone()
    } else {
        duel.challenger.clone()
    };
    if mine <= 0 {
        let mut text = String::from_str("@");
        text.append(my_name.as_str());
        text.append(" you are out of guesses!");
        return one(reply_to(text.as_str()));
    }
    if duel.is_winner(response.as_str()) {
        let my_id = if as_challenger {
            duel.challenger_id.clone()
        } else {
            duel.challenged_id.clone()
        };
        let their_id = if as_challenger {
            duel.challenged_id.clone()
        } else {
            duel.challenger_id.clone()
        };
        duel.award_winner(store, responder, my_id.as_str(), their_id.as_str(), now);
        let mut text = String::from_str("Correct! @");
        text.append(responder);
        text.append(" won ");
        text.append(decimal_string(duel.points).as_str());
        text.append(" Points & @");
        text.append(their_name.as_str());
        text.append(" lost ");
        text.append(decimal_string(duel.points / 2).as_str());
        text.append(" Points!");
        return one(reply_to(text.as_str()));
    }
    if as_challenger {
        duel.decrement_challenger_guesses(store, now);
    } else {
        duel.decrement_challenged_guesses(store, now);
    }
    let left = mine - 1;
    let mut text = String::from_str("Incorrect! @");
    text.append(my_name.as_str());
    if left <= 0 {
        text.append(" you are out of guesses!");
    } else {
        text.append(" you have ");
        text.append(decimal_string(left as i64).as_str());
        text.append(" guesses remaining! type '!repeat' to repeat the question");
    }
    let mut out = one(reply_to(text.as_str()));
    if left <= 0 && theirs <= 0 {
        let loss = duel.points / 2;
        subtract_points(store, duel.challenger_id.as_str(), loss);
        subtract_points(store, duel.challenged_id.as_str(), loss);
        duel.complete_duel(store, now);
        let mut text = String::from_str(
            "Both players have exhausted their guesses! The duel is over! Both @",
        );
        text.append(duel.challenger.as_str());
        text.append(" and @");
        text.append(duel.challenged.as_str());
        text.append(" lose ");
        text.append(decimal_string(loss).as_str());
        text.append(" points! The correct answer was ");
        match &duel.answer {
            Some(a) => {
                text.append(a.as_str());
            },
            None => {},
        }
        let ghost first = out@[0]@;
        let last = reply_to(text.as_str());
        assert(last@.text =~= exhausted_text(d));
        out.push(last);
        assert(outbox(out@) =~= seq![first, last@]);
    }
    out
}

/// `!repeat` as a step: it says what `repeat_step` says and leaves the store
/// and the index as they are.
pub open spec fn repeat_as_step(
    s: StoreView,
    index: Seq<PendingView>,
    msg: ChatMessageView,
) -> Step {
    Step { store: s, index: index, out: repeat_step(s, msg) }
}

/// What `!repeat` leads to: the question of the duel under way that the
/// sender is a side of is said once more, and nothing changes.
pub open spec fn repeat_step(s: StoreView, msg: ChatMessageView) -> Seq<OutgoingView> {
    match duel_of(s, msg.sender_id) {
        None => seq![send_view(duel_err_text(msg.sender_name, "No duel found!"@))],
        Some(found) => match found.0.repeat_question() {
            Some(t) => seq![send_view(t)],
            None => seq![send_view(duel_err_text(msg.sender_name, "No duel found!"@))],
        },
    }
}

/// Saying the question again is idempotent: it changes neither the store
/// nor the index, so a second `!repeat` right after the first finds what the
/// first found and says the same, character for character.
pub proof fn lemma_repeat_is_idempotent(
    s: StoreView,
    index: Seq<PendingView>,
    msg: ChatMessageView,
)
    ensures
        ({
            let first = repeat_as_step(s, index, msg);
            let second = repeat_as_step(first.store, first.index, msg);
            &&& first.store == s
            &&& first.index == index
            &&& second.store == s
            &&& second.index == index
            &&& second.out == first.out
        }),
{
}

/// Handles `!repeat`. The store is only read.
pub fn handle_repeat_command(store: &Store, msg: &ChatMessage) -> (out: Vec<Outgoing>)
    requires
        store@.wf(),
    ensures
        outbox(out@) == repeat_step(store@, msg@),
{
    let responder = msg.sender_name.as_str();
    match find_duel_of(store, msg.sender_id.as_str()) {
        Some(found) => match found.0.repeat_question() {
            Some(m) => one(m),
            None => one(send_duel_err(responder, "No duel found!")),
        },
        None => one(send_duel_err(responder, "No duel found!")),
    }
}

/// What the sender of `!points` hears.
pub open spec fn points_text(points: int) -> Seq<char> {
    "You have "@ + decimal(points) + " point(s)!"@
}

/// Handles `!points`: tells the sender their balance. The store is only read.
pub fn handle_points_command(store: &Store, msg: &ChatMessage) -> (out: Vec<Outgoing>)
    ensures
        outbox(out@) == seq![reply_view(points_text(store@.points_of(msg@.sender_id)))],
{
    let points = crate::chatter::get_points(store, msg.sender_id.as_str());
    let mut text = String::from_str("You have ");
    text.append(decimal_string(points).as_str());
    text.append(" point(s)!");
    one(reply_to(text.as_str()))
}

/// A challenge, an acceptance and an answer only move duels on: whatever
/// the message, no duel goes back to an earlier status, a completed duel
/// stays as it is, no guess counter grows, and no wager changes.
pub proof fn lemma_duel_commands_move_on(
    s: StoreView,
    index: Seq<PendingView>,
    msg: ChatMessageView,
    now: int,
    pick: int,
)
    ensures
        duels_moved_on(s.duels, duel_step(s, index, msg, now, pick).store.duels),
        duels_moved_on(s.duels, accept_step(s, index, msg, now, pick).store.duels),
        duels_moved_on(s.duels, answer_step(s, msg, now).store.duels),
{
    let none = Seq::<char>::empty();
    let any = s.new_duel(none, none, none, none, 0, now);
    lemma_store_moves_duels_on(s, 0, any, none, None, true, now);
    // The challenge: a sweep, then perhaps one duel more.
    let words = split_on(msg.text, ' ');
    if let Some(i) = s.chatter_at(msg.sender_id) {
        let me = s.chatters[i];
        let swept = sweep_stale(s, me.twitch_id, now);
        if let Some(k) = s.accepted_for(me.twitch_id) {
            lemma_store_moves_duels_on(
                s,
                s.accepted_duels[k].duel_id,
                any,
                none,
                None,
                true,
                now,
            );
        }
        assert(duels_moved_on(s.duels, swept.duels));
        if words.len() >= 2 {
            if let Some(them) = named_opponent(s, me, strip_at(words[1]), now, pick) {
                if let Some(p) = spec_parse_i32(wager_word(words)) {
                    let d = swept.new_duel(
                        msg.sender_name,
                        them.username,
                        me.twitch_id,
                        them.twitch_id,
                        p as int,
                        now,
                    );
                    lemma_store_moves_duels_on(swept, 0, d, none, None, true, now);
                    lemma_moved_on_twice(s.duels, swept.duels, swept.push_duel(d).duels);
                }
            }
        }
    }
    // The acceptance: the duel starts and gets its question.
    if let Some(challenger) = accept_challenger(s, msg) {
        let key = pair_key(challenger, msg.sender_name);
        if queue_of(index, key).len() > 0 {
            let d = queue_of(index, key)[0];
            if let Some(q) = s.picked_question(pick) {
                let started = s.start_duel(d.id, d.challenger_id, d.challenged_id, now);
                lemma_duel_steps_move_on(s, d, none, none, none, now);
                lemma_store_moves_duels_on(started, d.id, any, q.question, None, true, now);
                lemma_store_moves_duels_on(started, d.id, any, q.answer, None, true, now);
                let asked = started.set_question_duel(d.id, q.question, q.answer, now);
                crate::db::lemma_duel_at(started, d.id);
                assert(duels_moved_on(started.duels, asked.duels));
                lemma_moved_on_twice(s.duels, started.duels, asked.duels);
            }
        }
    }
    // The answer: a win, a guess less, or a guess less and the end.
    if let Some(found) = duel_of(s, msg.sender_id) {
        let d = found.0;
        let my_id = if found.1 {
            d.challenger_id
        } else {
            d.challenged_id
        };
        let their_id = if found.1 {
            d.challenged_id
        } else {
            d.challenger_id
        };
        lemma_duel_steps_move_on(s, d, msg.sender_name, my_id, their_id, now);
        lemma_store_moves_duels_on(s, d.id, any, none, None, found.1, now);
        let less = s.decrement_guesses(d.id, found.1, now);
        lemma_duel_steps_move_on(less, d, msg.sender_name, my_id, their_id, now);
        lemma_moved_on_twice(s.duels, less.duels, less.exhaust(d, now).duels);
    }
}

} // verus!
