//! The commands that move points without a duel: gifts, the broadcaster's
//! corrections, the dice and the losers' pool.

use crate::chatter::{add_points, subtract_points};
use crate::commands::{ChatMessage, ChatMessageView, one, strip_at, wager_word, without_at};
use crate::db::{Store, StoreView};
use crate::helpers::{relative_time, relative_time_between, whole};
use crate::messaging::{outbox, Outgoing, OutgoingView, reply_to, reply_view, send_msg, send_view};
use crate::text::{decimal, decimal_string, parse_i32, spec_parse_i32, split, split_on, texts};
use vstd::prelude::*;

verus! {

/// What a command leads to that touches the store alone: the store
/// afterwards and the messages to send, in order.
pub struct StoreStep {
    pub store: StoreView,
    pub out: Seq<OutgoingView>,
}

/// The step that leaves the store as it is and replies one thing.
pub open spec fn answer(s: StoreView, text: Seq<char>) -> StoreStep {
    StoreStep { store: s, out: seq![reply_view(text)] }
}

/// The quotient of `a` by the positive `d`, rounded towards zero.
pub fn trunc_div(a: i64, d: i64) -> (r: i64)
    requires
        d > 0,
    ensures
        r == whole(a as int, d as int),
{
    if a >= 0 {
        a / d
    } else {
        let wide: i128 = -(a as i128);
        let q: i128 = wide / (d as i128);
        proof {
            vstd::arithmetic::div_mod::lemma_div_is_ordered_by_denominator(
                wide as int,
                1,
                d as int,
            );
        }
        (-q) as i64
    }
}

/// What is said about a gift.
pub open spec fn gift_text(gifter: Seq<char>, points: int, recipient: Seq<char>) -> Seq<char> {
    "@"@ + gifter + " gifted "@ + decimal(points) + " points to @"@ + recipient
}

/// What `!gift @user <points>` leads to. The sender gives points of their
/// own to the first chatter of the given name: the amount, 100 where none is
/// given, must be a number, not negative and within the sender's balance.
pub open spec fn gift_step(s: StoreView, msg: ChatMessageView) -> StoreStep {
    let words = split_on(msg.text, ' ');
    match s.chatter_at(msg.sender_id) {
        None => answer(s, "Something went wrong! Try Again!"@),
        Some(g) => if words.len() < 2 {
            answer(s, "Format is incorrect! try !gift @<username> <points>"@)
        } else {
            match s.chatter_named(strip_at(words[1])) {
                None => answer(s, "No chatter with that name!"@),
                Some(r) => match spec_parse_i32(wager_word(words)) {
                    None => answer(s, "Provide a valid number"@),
                    Some(p) => if p < 0 {
                        answer(s, "provide a positive value"@)
                    } else if s.chatters[g].points < p {
                        answer(s, "You don't have enough points to gift that many!"@)
                    } else {
                        StoreStep {
                            store: s.add_points(s.chatters[r].twitch_id, p as int).subtract_points(
                                s.chatters[g].twitch_id,
                                p as int,
                            ),
                            out: seq![
                                send_view(
                                    gift_text(
                                        s.chatters[g].username,
                                        p as int,
                                        s.chatters[r].username,
                                    ),
                                ),
                            ],
                        }
                    },
                },
            }
        },
    }
}

/// Handles `!gift @user <points>`.
pub fn handle_gift_command(store: &mut Store, msg: &ChatMessage) -> (out: Vec<Outgoing>)
    requires
        old(store)@.wf(),
    ensures
        final(store)@.wf(),
        (StoreStep { store: final(store)@, out: outbox(out@) }) == gift_step(old(store)@, msg@),
{
    let gifter = match store.get_chatter(msg.sender_id.as_str()) {
        Some(chatter) => chatter,
        None => {
            return one(reply_to("Something went wrong! Try Again!"));
        },
    };
    let words = split(msg.text.as_str(), ' ');
    if words.len() < 2 {
        return one(reply_to("Format is incorrect! try !gift @<username> <points>"));
    }
    assert(texts(words@)[1] == words@[1]@);
    let recipient_name = without_at(words[1].as_str());
    let recipient = match store.get_chatter_by_username(recipient_name.as_str()) {
        Some(user) => user,
        None => {
            return one(reply_to("No chatter with that name!"));
        },
    };
    let points: &str = if words.len() > 2 {
        assert(texts(words@)[2] == words@[2]@);
        words[2].as_str()
    } else {
        "100"
    };
    let new_points: i32 = match parse_i32(points) {
        Some(p) => {
            if p < 0 {
                return one(reply_to("provide a positive value"));
            }
            p
        },
        None => {
            return one(reply_to("Provide a valid number"));
        },
    };
    if gifter.points < new_points as i64 {
        return one(reply_to("You don't have enough points to gift that many!"));
    }
    add_points(store, recipient.twitch_id.as_str(), new_points as i64);
    subtract_points(store, gifter.twitch_id.as_str(), new_points as i64);
    let mut text = String::from_str("@");
    text.append(gifter.username.as_str());
    text.append(" gifted ");
    text.append(decimal_string(new_points as i64).as_str());
    text.append(" points to @");
    text.append(recipient.username.as_str());
    one(send_msg(text.as_str()))
}

/// What `!setpoints @user <points>` leads to. Only the broadcaster may set
/// a balance; the amount, 100 where none is given, must be a number and not
/// negative.
pub open spec fn setpoints_step(
    s: StoreView,
    msg: ChatMessageView,
    broadcaster_id: Seq<char>,
) -> StoreStep {
    let words = split_on(msg.text, ' ');
    if msg.sender_id != broadcaster_id {
        answer(s, "You aren't allowed to set points"@)
    } else if words.len() < 2 {
        answer(s, "Format is incorrect! try !gift @<username> <points>"@)
    } else {
        match s.chatter_named(strip_at(words[1])) {
            None => answer(s, "No chatter with that name!"@),
            Some(i) => match spec_parse_i32(wager_word(words)) {
                None => answer(s, "Provide a valid number"@),
                Some(p) => if p < 0 {
                    answer(s, "provide a positive value"@)
                } else {
                    StoreStep {
                        store: s.update_points(s.chatters[i].twitch_id, p as int),
                        out: seq![reply_view("Points updated!"@)],
                    }
                },
            },
        }
    }
}

/// Handles `!setpoints @user <points>`.
pub fn handle_setpoints_command(store: &mut Store, msg: &ChatMessage, broadcaster_id: &str) -> (out:
    Vec<Outgoing>)
    requires
        old(store)@.wf(),
    ensures
        final(store)@.wf(),
        (StoreStep { store: final(store)@, out: outbox(out@) }) == setpoints_step(
            old(store)@,
            msg@,
            broadcaster_id@,
        ),
{
    if !msg.sender_id.as_str().eq(broadcaster_id) {
        return one(reply_to("You aren't allowed to set points"));
    }
    let words = split(msg.text.as_str(), ' ');
    if words.len() < 2 {
        return one(reply_to("Format is incorrect! try !gift @<username> <points>"));
    }
    assert(texts(words@)[1] == words@[1]@);
    let chatter_name = without_at(words[1].as_str());
    let chatter = match store.get_chatter_by_username(chatter_name.as_str()) {
        Some(user) => user,
        None => {
            return one(reply_to("No chatter with that name!"));
        },
    };
    let points: &str = if words.len() > 2 {
        assert(texts(words@)[2] == words@[2]@);
        words[2].as_str()
    } else {
        "100"
    };
    let new_points: i32 = match parse_i32(points) {
        Some(p) => {
            if p < 0 {
                return one(reply_to("provide a positive value"));
            }
            p
        },
        None => {
            return one(reply_to("Provide a valid number"));
        },
    };
    store.update_points(chatter.twitch_id.as_str(), new_points as i64);
    one(reply_to("Points updated!"))
}

/// What is said after a throw that wins.
pub open spec fn win_text(roll1: int, roll2: int, points: int) -> Seq<char> {
    "You rolled a "@ + decimal(roll1) + " and a "@ + decimal(roll2) + "! You win "@ + decimal(
        points,
    ) + " points!"@
}

/// What is said after a throw that loses.
pub open spec fn loss_text(roll1: int, roll2: int, points: int) -> Seq<char> {
    "You rolled a "@ + decimal(roll1) + " and a "@ + decimal(roll2) + "! You lose "@ + decimal(
        points,
    ) + " points! They've been added to the losers pool"@
}

/// What is said after two ones.
pub open spec fn snake_eyes_text(points: int) -> Seq<char> {
    "Snake Eyes! You lose "@ + decimal(points) + " points! They've been added to the losers pool"@
}

/// What is said after a throw that changes nothing.
pub open spec fn draw_text(roll1: int, roll2: int) -> Seq<char> {
    "You rolled a "@ + decimal(roll1) + " and a "@ + decimal(roll2)
        + "! No points won or lost!"@
}

impl StoreView {
    /// The store after `who` lost `points` at the dice: the points leave
    /// their balance, and half of them, rounded towards zero, goes to the
    /// current pool and as much to the broadcaster.
    pub open spec fn lose_at_dice(
        self,
        who: Seq<char>,
        broadcaster_id: Seq<char>,
        points: int,
    ) -> StoreView {
        self.subtract_points(who, points).add_pool_points(whole(points, 2)).add_points(
            broadcaster_id,
            whole(points, 2),
        )
    }
}

/// What a throw of two dice does with a wager. Twelve wins four times the
/// wager, nine to eleven twice, eight once. Two loses the wager, seven a
/// quarter of it and three to six half of it, each rounded towards zero.
pub open spec fn dice_step(
    s: StoreView,
    who: Seq<char>,
    broadcaster_id: Seq<char>,
    wager: int,
    roll1: int,
    roll2: int,
) -> StoreStep {
    let sum = roll1 + roll2;
    if sum == 12 {
        StoreStep {
            store: s.add_points(who, wager * 4),
            out: seq![reply_view(win_text(roll1, roll2, wager * 4))],
        }
    } else if 9 <= sum <= 11 {
        StoreStep {
            store: s.add_points(who, wager * 2),
            out: seq![reply_view(win_text(roll1, roll2, wager * 2))],
        }
    } else if sum == 8 {
        StoreStep {
            store: s.add_points(who, wager),
            out: seq![reply_view(win_text(roll1, roll2, wager))],
        }
    } else if sum == 2 {
        StoreStep {
            store: s.lose_at_dice(who, broadcaster_id, wager),
            out: seq![reply_view(snake_eyes_text(wager))],
        }
    } else if sum == 7 {
        StoreStep {
            store: s.lose_at_dice(who, broadcaster_id, whole(wager, 4)),
            out: seq![reply_view(loss_text(roll1, roll2, whole(wager, 4)))],
        }
    } else if 3 <= sum <= 6 {
        StoreStep {
            store: s.lose_at_dice(who, broadcaster_id, whole(wager, 2)),
            out: seq![reply_view(loss_text(roll1, roll2, whole(wager, 2)))],
        }
    } else {
        StoreStep { store: s, out: seq![reply_view(draw_text(roll1, roll2))] }
    }
}

/// What `!gamble <points>` leads to with the two dice showing `roll1` and
/// `roll2`. The wager must be a number within the sender's balance. The
/// dice are announced, then the throw is settled.
pub open spec fn gamble_step(
    s: StoreView,
    msg: ChatMessageView,
    broadcaster_id: Seq<char>,
    roll1: int,
    roll2: int,
) -> StoreStep {
    let words = split_on(msg.text, ' ');
    if words.len() < 2 {
        answer(s, "You need to provide a wager! Format: '!gamble <points>'"@)
    } else {
        match spec_parse_i32(words[1]) {
            None => answer(s, "Invalid wager! Format: '!gamble <points>'"@),
            Some(wager) => match s.chatter_at(msg.sender_id) {
                None => answer(s, "Chatter not found!"@),
                Some(i) => if s.chatters[i].points < wager {
                    answer(s, "You don't have enough points to wager that much!"@)
                } else {
                    let settled = dice_step(
                        s,
                        msg.sender_id,
                        broadcaster_id,
                        wager as int,
                        roll1,
                        roll2,
                    );
                    StoreStep {
                        store: settled.store,
                        out: seq![reply_view("Rolling the dice!"@)] + settled.out,
                    }
                },
            },
        }
    }
}

/// Settles a throw of two dice for the wager of `who`.
pub fn settle_dice(
    store: &mut Store,
    who: &str,
    broadcaster_id: &str,
    wager: i32,
    roll1: i32,
    roll2: i32,
) -> (out: Outgoing)
    requires
        old(store)@.wf(),
    ensures
        final(store)@.wf(),
        (StoreStep { store: final(store)@, out: seq![out@] }) == dice_step(
            old(store)@,
            who@,
            broadcaster_id@,
            wager as int,
            roll1 as int,
            roll2 as int,
        ),
{
    let sum: i64 = roll1 as i64 + roll2 as i64;
    let wager: i64 = wager as i64;
    let lost: Option<i64> = if sum == 2 {
        Some(wager)
    } else if sum == 7 {
        Some(trunc_div(wager, 4))
    } else if 3 <= sum && sum <= 6 {
        Some(trunc_div(wager, 2))
    } else {
        None
    };
    let won: Option<i64> = if sum == 12 {
        Some(wager * 4)
    } else if 9 <= sum && sum <= 11 {
        Some(wager * 2)
    } else if sum == 8 {
        Some(wager)
    } else {
        None
    };
    let mut text = String::from_str("You rolled a ");
    text.append(decimal_string(roll1 as i64).as_str());
    text.append(" and a ");
    text.append(decimal_string(roll2 as i64).as_str());
    match won {
        Some(points) => {
            add_points(store, who, points);
            text.append("! You win ");
            text.append(decimal_string(points).as_str());
            text.append(" points!");
        },
        None => match lost {
            Some(points) => {
                subtract_points(store, who, points);
                let share = trunc_div(points, 2);
                store.add_pool_points(share);
                add_points(store, broadcaster_id, share);
                if sum == 2 {
                    text = String::from_str("Snake Eyes! You lose ");
                } else {
                    text.append("! You lose ");
                }
                text.append(decimal_string(points).as_str());
                text.append(" points! They've been added to the losers pool");
            },
            None => {
                text.append("! No points won or lost!");
            },
        },
    }
    reply_to(text.as_str())
}

/// Handles `!gamble <points>` for the two dice that were thrown.
pub fn handle_gamble_command(
    store: &mut Store,
    msg: &ChatMessage,
    broadcaster_id: &str,
    roll1: i32,
    roll2: i32,
) -> (out: Vec<Outgoing>)
    requires
        old(store)@.wf(),
    ensures
        final(store)@.wf(),
        (StoreStep { store: final(store)@, out: outbox(out@) }) == gamble_step(
            old(store)@,
            msg@,
            broadcaster_id@,
            roll1 as int,
            roll2 as int,
        ),
{
    let words = split(msg.text.as_str(), ' ');
    if words.len() < 2 {
        return one(reply_to("You need to provide a wager! Format: '!gamble <points>'"));
    }
    assert(texts(words@)[1] == words@[1]@);
    let wager = match parse_i32(words[1].as_str()) {
        Some(w) => w,
        None => {
            return one(reply_to("Invalid wager! Format: '!gamble <points>'"));
        },
    };
    let chatter = match store.get_chatter(msg.sender_id.as_str()) {
        Some(chatter) => chatter,
        None => {
            return one(reply_to("Chatter not found!"));
        },
    };
    if chatter.points < wager as i64 {
        return one(reply_to("You don't have enough points to wager that much!"));
    }
    let mut out = one(reply_to("Rolling the dice!"));
    let ghost first = out@[0]@;
    let result = settle_dice(store, msg.sender_id.as_str(), broadcaster_id, wager, roll1, roll2);
    out.push(result);
    assert(outbox(out@) =~= seq![first] + seq![result@]);
    out
}

/// What `!pool` answers at `now`: how much the current pool holds and how
/// long ago it was opened, or that there is no pool.
pub open spec fn pool_text(s: StoreView, now: int) -> Seq<char> {
    match s.current_pool() {
        Some(i) => "The Loser Pool is currently "@ + decimal(s.pools[i].amount as int)
            + " points! It started "@ + relative_time(now, s.pools[i].created_at as int),
        None => "No Pool Found!"@,
    }
}

/// Handles `!pool`. The store is only read.
pub fn handle_pool_command(store: &Store, now: i64) -> (out: Vec<Outgoing>)
    ensures
        outbox(out@) == seq![reply_view(pool_text(store@, now as int))],
{
    match store.get_current_pool() {
        Some(pool) => {
            let mut text = String::from_str("The Loser Pool is currently ");
            text.append(decimal_string(pool.amount).as_str());
            text.append(" points! It started ");
            text.append(relative_time_between(now, pool.created_at).as_str());
            one(reply_to(text.as_str()))
        },
        None => one(reply_to("No Pool Found!")),
    }
}

/// What is said about the draw of the pool.
pub open spec fn pool_won_text(winner: Seq<char>, amount: int) -> Seq<char> {
    "@"@ + winner + " has won the pool of "@ + decimal(amount) + " points!"@
}

/// What `!selectPoolWinner` leads to. Only the broadcaster draws the pool,
/// and anybody else gets no answer at all. The chatter that `pick` selects
/// among those seen in the last thirty minutes, the broadcaster left out,
/// gains what the current pool holds and is recorded as its winner, and a
/// new pool is opened.
pub open spec fn pool_draw_step(
    s: StoreView,
    msg: ChatMessageView,
    broadcaster_id: Seq<char>,
    now: int,
    pick: int,
) -> StoreStep {
    if msg.sender_id != broadcaster_id {
        StoreStep { store: s, out: Seq::empty() }
    } else {
        match s.chatter_at(broadcaster_id) {
            None => answer(s, "Broadcaster not found!"@),
            Some(b) => match s.current_pool() {
                None => answer(s, "No pool found!"@),
                Some(p) => match s.random_chatter(s.chatters[b].id, now, pick) {
                    None => answer(s, "Chatter not found!"@),
                    Some(winner) => StoreStep {
                        store: s.add_points(
                            winner.twitch_id,
                            s.pools[p].amount as int,
                        ).update_pool_winner(s.pools[p].id as int, winner.id as i32).create_new_pool(
                            now,
                        ),
                        out: seq![
                            reply_view(pool_won_text(winner.username, s.pools[p].amount as int)),
                        ],
                    },
                },
            },
        }
    }
}

/// Handles `!selectPoolWinner`.
pub fn handle_pool_draw_command(
    store: &mut Store,
    msg: &ChatMessage,
    broadcaster_id: &str,
    now: i64,
    pick: usize,
) -> (out: Vec<Outgoing>)
    requires
        old(store)@.wf(),
    ensures
        final(store)@.wf(),
        (StoreStep { store: final(store)@, out: outbox(out@) }) == pool_draw_step(
            old(store)@,
            msg@,
            broadcaster_id@,
            now as int,
            pick as int,
        ),
{
    if !msg.sender_id.as_str().eq(broadcaster_id) {
        let out: Vec<Outgoing> = Vec::new();
        assert(outbox(out@) =~= Seq::<OutgoingView>::empty());
        return out;
    }
    let broadcaster = match store.get_chatter(broadcaster_id) {
        Some(chatter) => chatter,
        None => {
            return one(reply_to("Broadcaster not found!"));
        },
    };
    let pool = match store.get_current_pool() {
        Some(pool) => pool,
        None => {
            return one(reply_to("No pool found!"));
        },
    };
    let winner = match store.get_random_chatter(&broadcaster, now, pick) {
        Some(chatter) => chatter,
        None => {
            return one(reply_to("Chatter not found!"));
        },
    };
    add_points(store, winner.twitch_id.as_str(), pool.amount);
    store.update_pool_winner(pool.id, winner.id);
    store.create_new_pool(now);
    let mut text = String::from_str("@");
    text.append(winner.username.as_str());
    text.append(" has won the pool of ");
    text.append(decimal_string(pool.amount).as_str());
    text.append(" points!");
    one(reply_to(text.as_str()))
}

} // verus!
