//! What the bot says: outgoing messages and the formatting of lists.

use crate::chatter::{add_points, unlurk, unlurk_step};
use crate::commands::{
    accept_step, answer_step, ChatMessage, ChatMessageView, duel_step, handle_accept_command,
    handle_addcategory_command, handle_addquestion_command, handle_answer_command,
    handle_botrepo_command, handle_commands_command, handle_contribute_command, handle_duel_command,
    handle_gamble_command, handle_gift_command, handle_github_command, handle_kda_command,
    handle_listcategories_command, handle_lurk_command, handle_lurkers_command,
    handle_lurktime_command, handle_points_command, handle_pool_command, handle_pool_draw_command,
    handle_ranking_command, handle_repeat_command, handle_setpoints_command,
    handle_top_duelists_command, one, points_text, repeat_step, Step,
};
use crate::commands::bank::{addcategory_step, addquestion_step};
use crate::commands::economy::{
    gamble_step, gift_step, pool_draw_step, pool_text, setpoints_step, StoreStep,
};
use crate::commands::social::{
    category_labels, command_names, draw_greeting, duelist_labels, greetings, kda_message,
    lurker_labels, lurktime_text, ranking_text,
};
use crate::db::{Store, StoreView, top_by_wins};
use crate::helpers::{dice_roll, now_micros, random_pick};
use crate::search::{first_index, lemma_first_index_is};
use crate::state::{PendingView, State};
use crate::text::{chars_of, join, string_of};
use vstd::prelude::*;

verus! {

/// A message for the chat. A reply is threaded to the message that caused
/// it; a message that is no reply is sent to the channel as it is.
#[derive(Debug)]
pub struct Outgoing {
    pub reply: bool,
    pub text: String,
}

/// An outgoing message in the model.
pub struct OutgoingView {
    pub reply: bool,
    pub text: Seq<char>,
}

impl View for Outgoing {
    type V = OutgoingView;

    open spec fn view(&self) -> OutgoingView {
        OutgoingView { reply: self.reply, text: self.text@ }
    }
}

/// The messages that a sequence of outgoing messages holds.
pub open spec fn outbox(v: Seq<Outgoing>) -> Seq<OutgoingView> {
    v.map_values(|m: Outgoing| m@)
}

/// A reply with the given text.
pub open spec fn reply_view(text: Seq<char>) -> OutgoingView {
    OutgoingView { reply: true, text: text }
}

/// A message to the channel with the given text.
pub open spec fn send_view(text: Seq<char>) -> OutgoingView {
    OutgoingView { reply: false, text: text }
}

/// The text that tells `challenger` that their command was refused.
pub open spec fn duel_err_text(challenger: Seq<char>, err: Seq<char>) -> Seq<char> {
    "@"@ + challenger + " Error; "@ + err
}

/// The message that tells `challenger` that their command was refused.
pub fn send_duel_err(challenger: &str, err: &str) -> (m: Outgoing)
    ensures
        m@ == send_view(duel_err_text(challenger@, err@)),
{
    let mut text = String::from_str("@");
    text.append(challenger);
    text.append(" Error; ");
    text.append(err);
    Outgoing { reply: false, text }
}

/// A message to the channel.
pub fn send_msg(text: &str) -> (m: Outgoing)
    ensures
        m@ == send_view(text@),
{
    Outgoing { reply: false, text: text.to_owned() }
}

/// A reply to the message at hand.
pub fn reply_to(reply: &str) -> (m: Outgoing)
    ensures
        m@ == reply_view(reply@),
{
    Outgoing { reply: true, text: reply.to_owned() }
}

/// What stands between the items of a list.
#[derive(Clone, Copy, PartialEq, Eq, Structural, Debug)]
pub enum ItemSeparator {
    Space,
    Comma,
    Dash,
    GoldStar,
}

/// The text of a separator.
pub open spec fn separator_text(separator: ItemSeparator) -> Seq<char> {
    match separator {
        ItemSeparator::Space => " "@,
        ItemSeparator::Comma => ", "@,
        ItemSeparator::Dash => " - "@,
        ItemSeparator::GoldStar => " \u{2b50} "@,
    }
}

/// Whether a list with this separator also starts with it.
pub open spec fn leads(separator: ItemSeparator) -> bool {
    separator == ItemSeparator::Dash || separator == ItemSeparator::GoldStar
}

/// A list as text: `None` for an empty list; else the items with the
/// separator between them, and before the first where the separator leads.
pub open spec fn list_text(items: Seq<Seq<char>>, separator: ItemSeparator) -> Seq<char> {
    if items.len() == 0 {
        "None"@
    } else if leads(separator) {
        separator_text(separator) + join(items, separator_text(separator))
    } else {
        join(items, separator_text(separator))
    }
}

/// Something that can stand as an item of a list: it has a text.
pub trait AsText {
    /// The characters of the item.
    spec fn text(&self) -> Seq<char>;

    /// The item as a string slice.
    fn as_text(&self) -> (r: &str)
        ensures
            r@ == self.text(),
    ;
}

impl AsText for String {
    open spec fn text(&self) -> Seq<char> {
        self@
    }

    fn as_text(&self) -> (r: &str) {
        self.as_str()
    }
}

impl<'a> AsText for &'a str {
    open spec fn text(&self) -> Seq<char> {
        self@
    }

    fn as_text(&self) -> (r: &str) {
        self
    }
}

/// The texts of a sequence of items.
pub open spec fn item_texts<S: AsText>(items: Seq<S>) -> Seq<Seq<char>> {
    items.map_values(|s: S| s.text())
}

/// The text of a separator.
#[must_use]
pub fn separator_str(separator: &ItemSeparator) -> (r: String)
    ensures
        r@ == separator_text(*separator),
{
    match separator {
        ItemSeparator::Space => String::from_str(" "),
        ItemSeparator::Comma => String::from_str(", "),
        ItemSeparator::Dash => String::from_str(" - "),
        ItemSeparator::GoldStar => String::from_str(" \u{2b50} "),
    }
}

/// Writes a list as text: `None` for an empty list; else the items with the
/// separator between them, and before the first where the separator leads.
#[must_use]
pub fn format_list<S: AsText>(items: &Vec<S>, separator: ItemSeparator) -> (r: String)
    ensures
        r@ == list_text(item_texts(items@), separator),
{
    let len = items.len();
    if len == 0 {
        return String::from_str("None");
    }
    let sep = separator_str(&separator);
    let mut res = match separator {
        ItemSeparator::Space | ItemSeparator::Comma => String::new(),
        ItemSeparator::Dash | ItemSeparator::GoldStar => sep.clone(),
    };
    let ghost lead = res@;
    let ghost all = item_texts(items@);
    let mut i: usize = 0;
    while i < len
        invariant
            0 <= i <= len,
            len == items.len(),
            all == item_texts(items@),
            sep@ == separator_text(separator),
            res@ == lead + join(all.take(i as int), sep@),
        decreases len - i,
    {
        let ghost before = res@;
        if i > 0 {
            res.append(sep.as_str());
        }
        res.append(items[i].as_text());
        proof {
            let done = all.take(i as int);
            let next = all.take(i + 1);
            assert(next.drop_last() =~= done);
            assert(next.last() == items@[i as int].text());
            if i == 0 {
                assert(res@ =~= lead + join(next, sep@));
            } else {
                assert(res@ =~= lead + join(next, sep@));
            }
        }
        i += 1;
    }
    proof {
        assert(all.take(len as int) =~= all);
        assert(Seq::<char>::empty() + join(all, sep@) =~= join(all, sep@));
    }
    res
}

/// A list as text behind its title and one space.
#[must_use]
pub fn list_with_title<S: AsText>(title: &str, items: &Vec<S>, separator: ItemSeparator) -> (r:
    String)
    ensures
        r@ == title@ + " "@ + list_text(item_texts(items@), separator),
{
    let mut r = String::from_str(title);
    r.append(" ");
    let list = format_list(items, separator);
    r.append(list.as_str());
    r
}

/// Whether `c` is ASCII white space: a space, a tab, a line feed, a form
/// feed or a carriage return.
pub open spec fn ascii_space(c: char) -> bool {
    c == ' ' || c == '\t' || c == '\n' || c == '\x0C' || c == '\r'
}

/// The first word of a text: what stands between the ASCII white space at
/// its start and the next ASCII white space. A text of white space alone
/// has no first word.
pub open spec fn first_word(text: Seq<char>) -> Option<Seq<char>> {
    let start = first_index(text, |c: char| !ascii_space(c));
    if start >= text.len() {
        None
    } else {
        Some(text.skip(start).take(first_index(text.skip(start), |c: char| ascii_space(c))))
    }
}

/// The first word of a text.
pub fn leading_word(text: &str) -> (r: Option<String>)
    ensures
        match first_word(text@) {
            Some(w) => r is Some && r->0@ == w,
            None => r is None,
        },
{
    let v = chars_of(text);
    let ghost dark = |c: char| !ascii_space(c);
    let ghost blank = |c: char| ascii_space(c);
    let mut start: usize = 0;
    while start < v.len() && (v[start] == ' ' || v[start] == '\t' || v[start] == '\n' || v[start]
        == '\x0C' || v[start] == '\r')
        invariant
            0 <= start <= v.len(),
            v@ == text@,
            dark == |c: char| !ascii_space(c),
            forall|j: int| 0 <= j < start ==> !dark(#[trigger] text@[j]),
        decreases v.len() - start,
    {
        start += 1;
    }
    proof {
        lemma_first_index_is(text@, dark, start as int);
    }
    if start == v.len() {
        return None;
    }
    let ghost rest = text@.skip(start as int);
    let mut end: usize = start;
    while end < v.len() && !(v[end] == ' ' || v[end] == '\t' || v[end] == '\n' || v[end] == '\x0C'
        || v[end] == '\r')
        invariant
            start <= end <= v.len(),
            v@ == text@,
            rest == text@.skip(start as int),
            blank == |c: char| ascii_space(c),
            forall|j: int| 0 <= j < end - start ==> !blank(#[trigger] rest[j]),
        decreases v.len() - end,
    {
        end += 1;
    }
    proof {
        lemma_first_index_is(rest, blank, end - start);
        assert(rest.take(end - start) =~= v@.subrange(start as int, end as int));
    }
    Some(string_of(&v, start, end))
}

/// The commands that the bot knows.
#[derive(Clone, Copy, PartialEq, Eq, Structural, Debug)]
pub enum Command {
    Points,
    Commands,
    Github,
    Botrepo,
    Contribute,
    Yo,
    AddQuestion,
    AddCategory,
    ListCategories,
    Lurk,
    Lurkers,
    Lurktime,
    Accept,
    Answer,
    Duel,
    Kda,
    Repeat,
    TopDuelists,
    Ranking,
    Gift,
    Gamble,
    SetPoints,
    Pool,
    PoolDraw,
    Unknown,
}

/// The command that a first word names.
pub open spec fn command_of(word: Option<Seq<char>>) -> Command {
    match word {
        None => Command::Unknown,
        Some(w) => if w == "!points"@ {
            Command::Points
        } else if w == "!commands"@ {
            Command::Commands
        } else if w == "!github"@ {
            Command::Github
        } else if w == "!botrepo"@ {
            Command::Botrepo
        } else if w == "!contribute"@ {
            Command::Contribute
        } else if w == "!yo"@ {
            Command::Yo
        } else if w == "!addquestion"@ {
            Command::AddQuestion
        } else if w == "!addcategory"@ {
            Command::AddCategory
        } else if w == "!listcategories"@ {
            Command::ListCategories
        } else if w == "!lurk"@ {
            Command::Lurk
        } else if w == "!lurkers"@ {
            Command::Lurkers
        } else if w == "!lurktime"@ {
            Command::Lurktime
        } else if w == "!accept"@ {
            Command::Accept
        } else if w == "!answer"@ || w == "!a"@ {
            Command::Answer
        } else if w == "!challenge"@ || w == "!duel"@ {
            Command::Duel
        } else if w == "!kda"@ {
            Command::Kda
        } else if w == "!repeat"@ {
            Command::Repeat
        } else if w == "!topDuelists"@ || w == "!top3"@ {
            Command::TopDuelists
        } else if w == "!ranking"@ {
            Command::Ranking
        } else if w == "!gift"@ {
            Command::Gift
        } else if w == "!gamble"@ {
            Command::Gamble
        } else if w == "!setpoints"@ {
            Command::SetPoints
        } else if w == "!pool"@ {
            Command::Pool
        } else if w == "!selectPoolWinner"@ {
            Command::PoolDraw
        } else {
            Command::Unknown
        },
    }
}

/// The command that a message gives: the one that its first word names.
pub fn classify(text: &str) -> (c: Command)
    ensures
        c == command_of(first_word(text@)),
{
    let word = match leading_word(text) {
        Some(w) => w,
        None => {
            return Command::Unknown;
        },
    };
    let w = word.as_str();
    if w.eq("!points") {
        Command::Points
    } else if w.eq("!commands") {
        Command::Commands
    } else if w.eq("!github") {
        Command::Github
    } else if w.eq("!botrepo") {
        Command::Botrepo
    } else if w.eq("!contribute") {
        Command::Contribute
    } else if w.eq("!yo") {
        Command::Yo
    } else if w.eq("!addquestion") {
        Command::AddQuestion
    } else if w.eq("!addcategory") {
        Command::AddCategory
    } else if w.eq("!listcategories") {
        Command::ListCategories
    } else if w.eq("!lurk") {
        Command::Lurk
    } else if w.eq("!lurkers") {
        Command::Lurkers
    } else if w.eq("!lurktime") {
        Command::Lurktime
    } else if w.eq("!accept") {
        Command::Accept
    } else if w.eq("!answer") || w.eq("!a") {
        Command::Answer
    } else if w.eq("!challenge") || w.eq("!duel") {
        Command::Duel
    } else if w.eq("!kda") {
        Command::Kda
    } else if w.eq("!repeat") {
        Command::Repeat
    } else if w.eq("!topDuelists") || w.eq("!top3") {
        Command::TopDuelists
    } else if w.eq("!ranking") {
        Command::Ranking
    } else if w.eq("!gift") {
        Command::Gift
    } else if w.eq("!gamble") {
        Command::Gamble
    } else if w.eq("!setpoints") {
        Command::SetPoints
    } else if w.eq("!pool") {
        Command::Pool
    } else if w.eq("!selectPoolWinner") {
        Command::PoolDraw
    } else {
        Command::Unknown
    }
}

/// What chance contributes to a message: the number that picks a question
/// or an opponent, the two dice, and the greeting.
pub struct Chance {
    pub pick: usize,
    pub roll1: i32,
    pub roll2: i32,
    pub greeting: String,
}

/// The contribution of chance in the model.
pub struct ChanceView {
    pub pick: int,
    pub roll1: int,
    pub roll2: int,
    pub greeting: Seq<char>,
}

impl View for Chance {
    type V = ChanceView;

    open spec fn view(&self) -> ChanceView {
        ChanceView {
            pick: self.pick as int,
            roll1: self.roll1 as int,
            roll2: self.roll2 as int,
            greeting: self.greeting@,
        }
    }
}

/// A step that touches the store alone, as a step of store and index.
pub open spec fn with_index(step: StoreStep, index: Seq<PendingView>) -> Step {
    Step { store: step.store, index: index, out: step.out }
}

/// A step that only says something.
pub open spec fn only_say(s: StoreView, index: Seq<PendingView>, text: Seq<char>) -> Step {
    Step { store: s, index: index, out: seq![reply_view(text)] }
}

/// What the command `command` leads to for the message `msg` at `now`,
/// with what chance contributed.
pub open spec fn command_step(
    command: Command,
    s: StoreView,
    index: Seq<PendingView>,
    msg: ChatMessageView,
    broadcaster_id: Seq<char>,
    now: int,
    chance: ChanceView,
) -> Step {
    match command {
        Command::Points => only_say(s, index, points_text(s.points_of(msg.sender_id))),
        Command::Commands => only_say(
            s,
            index,
            "Available commands:"@ + " "@ + list_text(command_names(), ItemSeparator::Comma),
        ),
        Command::Github => only_say(
            s,
            index,
            "You can check out ToluAfo's projects at https://github.com/tolu-afo"@,
        ),
        Command::Botrepo => only_say(
            s,
            index,
            "You can check out my source code at https://github.com/tolu-afo/TTB"@,
        ),
        Command::Contribute => only_say(
            s,
            index,
            "You can contribute to my Code by taking on one of the issues listed here: https://github.com/tolu-afo/TTB/issues"@,
        ),
        Command::Yo => only_say(s, index, chance.greeting),
        Command::AddQuestion => with_index(addquestion_step(s, msg), index),
        Command::AddCategory => with_index(addcategory_step(s, msg, broadcaster_id, now), index),
        Command::ListCategories => only_say(
            s,
            index,
            "Categories:"@ + " "@ + list_text(category_labels(s.categories), ItemSeparator::Dash),
        ),
        Command::Lurk => Step {
            store: s.create_lurker(msg.sender_name, msg.sender_id, now),
            index: index,
            out: seq![reply_view("@ToluAfo We got a lurker over here!!!"@)],
        },
        Command::Lurkers => only_say(
            s,
            index,
            "Lurkers:"@ + " "@ + list_text(lurker_labels(s.lurkers), ItemSeparator::Dash),
        ),
        Command::Lurktime => only_say(s, index, lurktime_text(s, msg)),
        Command::Accept => accept_step(s, index, msg, now, chance.pick),
        Command::Answer => with_index(answer_step(s, msg, now), index),
        Command::Duel => duel_step(s, index, msg, now, chance.pick),
        Command::Kda => Step { store: s, index: index, out: seq![kda_message(s, msg)] },
        Command::Repeat => Step { store: s, index: index, out: repeat_step(s, msg) },
        Command::TopDuelists => only_say(
            s,
            index,
            "Top Duelists:"@ + " "@ + list_text(
                duelist_labels(top_by_wins(s.chatters, 3)),
                ItemSeparator::GoldStar,
            ),
        ),
        Command::Ranking => only_say(s, index, ranking_text(s, msg)),
        Command::Gift => with_index(gift_step(s, msg), index),
        Command::Gamble => with_index(
            gamble_step(s, msg, broadcaster_id, chance.roll1, chance.roll2),
            index,
        ),
        Command::SetPoints => with_index(setpoints_step(s, msg, broadcaster_id), index),
        Command::Pool => only_say(s, index, pool_text(s, now)),
        Command::PoolDraw => with_index(
            pool_draw_step(s, msg, broadcaster_id, now, chance.pick),
            index,
        ),
        Command::Unknown => Step { store: s, index: index, out: Seq::empty() },
    }
}

/// Carries out the command `command` for the message `msg`.
pub fn dispatch(
    command: Command,
    store: &mut Store,
    bot_state: &mut State,
    msg: &ChatMessage,
    broadcaster_id: &str,
    now: i64,
    chance: &Chance,
) -> (out: Vec<Outgoing>)
    requires
        old(store)@.wf(),
    ensures
        final(store)@.wf(),
        (Step { store: final(store)@, index: final(bot_state)@, out: outbox(out@) })
            == command_step(
            command,
            old(store)@,
            old(bot_state)@,
            msg@,
            broadcaster_id@,
            now as int,
            chance@,
        ),
{
    match command {
        Command::Points => handle_points_command(store, msg),
        Command::Commands => handle_commands_command(),
        Command::Github => handle_github_command(),
        Command::Botrepo => handle_botrepo_command(),
        Command::Contribute => handle_contribute_command(),
        Command::Yo => one(reply_to(chance.greeting.as_str())),
        Command::AddQuestion => handle_addquestion_command(store, msg),
        Command::AddCategory => handle_addcategory_command(store, msg, broadcaster_id, now),
        Command::ListCategories => handle_listcategories_command(store),
        Command::Lurk => handle_lurk_command(store, msg, now),
        Command::Lurkers => handle_lurkers_command(store),
        Command::Lurktime => handle_lurktime_command(store, msg),
        Command::Accept => handle_accept_command(store, bot_state, msg, now, chance.pick),
        Command::Answer => handle_answer_command(store, msg, now),
        Command::Duel => handle_duel_command(store, bot_state, msg, now, chance.pick),
        Command::Kda => handle_kda_command(store, msg),
        Command::Repeat => handle_repeat_command(store, msg),
        Command::TopDuelists => handle_top_duelists_command(store),
        Command::Ranking => handle_ranking_command(store, msg),
        Command::Gift => handle_gift_command(store, msg),
        Command::Gamble => handle_gamble_command(
            store,
            msg,
            broadcaster_id,
            chance.roll1,
            chance.roll2,
        ),
        Command::SetPoints => handle_setpoints_command(store, msg, broadcaster_id),
        Command::Pool => handle_pool_command(store, now),
        Command::PoolDraw => handle_pool_draw_command(
            store,
            msg,
            broadcaster_id,
            now,
            chance.pick,
        ),
        Command::Unknown => {
            let out: Vec<Outgoing> = Vec::new();
            assert(outbox(out@) =~= Seq::<OutgoingView>::empty());
            out
        },
    }
}

/// The points that every message earns its sender.
pub const PRESENCE_POINTS: i64 = 5;

/// What a message leads to at `now`, with what chance contributed. The
/// sender is noted as present and earns the points of presence; a sender
/// who lurked is welcomed back; then the command of the message, if it
/// gives one, is carried out.
pub open spec fn message_step(
    s: StoreView,
    index: Seq<PendingView>,
    msg: ChatMessageView,
    broadcaster_id: Seq<char>,
    now: int,
    chance: ChanceView,
) -> Step {
    let present = s.record_user_presence(msg.sender_id, msg.sender_name, now).add_points(
        msg.sender_id,
        PRESENCE_POINTS as int,
    );
    let back = unlurk_step(present, msg, now);
    let done = command_step(
        command_of(first_word(msg.text)),
        back.store,
        index,
        msg,
        broadcaster_id,
        now,
        chance,
    );
    Step { store: done.store, index: done.index, out: back.out + done.out }
}

/// No message moves a duel backwards: whatever arrives, from whomever and
/// whenever, every duel is afterwards where it was or further on. Its
/// status has not gone back, a completed duel is unchanged, its guess
/// counters have not grown, and its wager, its participants and its
/// question, once set, are the same.
pub proof fn lemma_messages_move_duels_on(
    s: StoreView,
    index: Seq<PendingView>,
    msg: ChatMessageView,
    broadcaster_id: Seq<char>,
    now: int,
    chance: ChanceView,
)
    ensures
        crate::duel::duels_moved_on(
            s.duels,
            message_step(s, index, msg, broadcaster_id, now, chance).store.duels,
        ),
{
    let present = s.record_user_presence(msg.sender_id, msg.sender_name, now).add_points(
        msg.sender_id,
        PRESENCE_POINTS as int,
    );
    assert(present.duels == s.duels);
    let back = unlurk_step(present, msg, now).store;
    assert(back.duels == s.duels);
    let command = command_of(first_word(msg.text));
    let done = command_step(command, back, index, msg, broadcaster_id, now, chance).store;
    crate::commands::lemma_duel_commands_move_on(back, index, msg, now, chance.pick);
    match command {
        Command::Duel | Command::Accept | Command::Answer => {},
        Command::AddQuestion => {
            assert(addquestion_step(back, msg).store.duels == back.duels);
        },
        Command::AddCategory => {
            assert(addcategory_step(back, msg, broadcaster_id, now).store.duels == back.duels);
        },
        Command::Gift => {
            assert(gift_step(back, msg).store.duels == back.duels);
        },
        Command::Gamble => {
            assert(gamble_step(back, msg, broadcaster_id, chance.roll1, chance.roll2).store.duels
                == back.duels);
        },
        Command::SetPoints => {
            assert(setpoints_step(back, msg, broadcaster_id).store.duels == back.duels);
        },
        Command::PoolDraw => {
            assert(pool_draw_step(back, msg, broadcaster_id, now, chance.pick).store.duels
                == back.duels);
        },
        _ => {
            assert(done.duels == back.duels);
        },
    }
    let none = Seq::<char>::empty();
    crate::duel::lemma_store_moves_duels_on(
        s,
        0,
        s.new_duel(none, none, none, none, 0, now),
        none,
        None,
        true,
        now,
    );
}

/// Handles one message at the instant `now` with the given contribution of
/// chance.
pub fn on_msg_at(
    store: &mut Store,
    bot_state: &mut State,
    msg: &ChatMessage,
    broadcaster_id: &str,
    now: i64,
    chance: &Chance,
) -> (out: Vec<Outgoing>)
    requires
        old(store)@.wf(),
    ensures
        final(store)@.wf(),
        (Step { store: final(store)@, index: final(bot_state)@, out: outbox(out@) })
            == message_step(
            old(store)@,
            old(bot_state)@,
            msg@,
            broadcaster_id@,
            now as int,
            chance@,
        ),
{
    let _ = store.record_user_presence(msg.sender_id.as_str(), msg.sender_name.as_str(), now);
    add_points(store, msg.sender_id.as_str(), PRESENCE_POINTS);
    let mut out = unlurk(store, msg, now);
    let command = classify(msg.text.as_str());
    let mut rest = dispatch(command, store, bot_state, msg, broadcaster_id, now, chance);
    let ghost first = outbox(out@);
    let ghost second = outbox(rest@);
    out.append(&mut rest);
    assert(outbox(out@) =~= first + second);
    out
}

/// Handles one message: reads the clock, draws what the command leaves to
/// chance, and carries the message out. Whatever the clock said and
/// whatever was drawn, the result is the step of the message for it; the
/// dice show one to six each, and the greeting is one of the greetings.
pub fn on_msg(store: &mut Store, bot_state: &mut State, msg: &ChatMessage, broadcaster_id: &str) -> (out:
    Vec<Outgoing>)
    requires
        old(store)@.wf(),
    ensures
        final(store)@.wf(),
        exists|now: i64, chance: ChanceView|
            {
                &&& 1 <= chance.roll1 <= 6
                &&& 1 <= chance.roll2 <= 6
                &&& exists|i: int|
                    0 <= i < greetings().len() && chance.greeting == #[trigger] greetings()[i]
                &&& (Step { store: final(store)@, index: final(bot_state)@, out: outbox(out@) })
                    == #[trigger] message_step(
                    old(store)@,
                    old(bot_state)@,
                    msg@,
                    broadcaster_id@,
                    now as int,
                    chance,
                )
            },
{
    let now = now_micros();
    let command = classify(msg.text.as_str());
    let pick = match command {
        Command::Accept | Command::Duel | Command::PoolDraw => random_pick(),
        _ => 0,
    };
    let roll1 = match command {
        Command::Gamble => dice_roll(),
        _ => 1,
    };
    let roll2 = match command {
        Command::Gamble => dice_roll(),
        _ => 1,
    };
    let greeting = match command {
        Command::Yo => draw_greeting(),
        _ => {
            proof {
                reveal_strlit("yo");
                assert(greetings()[0] == "yo"@);
            }
            String::from_str("yo")
        },
    };
    let chance = Chance { pick, roll1, roll2, greeting };
    let out = on_msg_at(store, bot_state, msg, broadcaster_id, now, &chance);
    proof {
        assert((Step { store: store@, index: bot_state@, out: outbox(out@) }) == message_step(
            old(store)@,
            old(bot_state)@,
            msg@,
            broadcaster_id@,
            now as int,
            chance@,
        ));
    }
    out
}

} // verus!
