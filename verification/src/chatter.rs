//! The points ledger and the win and loss counters of the chat participants.

use crate::commands::{ChatMessage, ChatMessageView, one};
use crate::commands::economy::StoreStep;
use crate::db::{floored, lemma_update_points_wf, Store, StoreView};
use crate::helpers::{overflow_add, SECOND, spec_overflow_add, whole, whole_units};
use crate::messaging::{outbox, Outgoing, OutgoingView, reply_to, reply_view};
use crate::models::{Duel, POINTS_FLOOR};
use crate::text::{chars_of, decimal, decimal_string};
use vstd::prelude::*;

verus! {

/// Whether `c` may stand in a chat handle: an ASCII letter, an ASCII digit
/// or an underscore.
pub open spec fn is_handle_char(c: char) -> bool {
    ('0' <= c && c <= '9') || ('a' <= c && c <= 'z') || ('A' <= c && c <= 'Z') || c == '_'
}

/// Whether `s` is a chat handle: every character of it may stand in one.
pub open spec fn is_handle(s: Seq<char>) -> bool {
    forall|i: int| 0 <= i < s.len() ==> is_handle_char(#[trigger] s[i])
}

/// A chat handle: letters, digits and underscores only.
#[derive(Debug)]
pub struct TwitchUserId(String);

/// The refusal of a text that is no chat handle.
#[derive(Debug, Clone, Copy, PartialEq, Eq, Structural)]
pub struct InvalidHandle;

impl InvalidHandle {
    /// What to tell the user.
    pub fn message(&self) -> (r: &'static str)
        ensures
            r@ == "valid handles only contain characters 0-9 and a-f"@,
    {
        "valid handles only contain characters 0-9 and a-f"
    }
}

impl View for TwitchUserId {
    type V = Seq<char>;

    closed spec fn view(&self) -> Seq<char> {
        self.0@
    }
}

impl Clone for TwitchUserId {
    fn clone(&self) -> (r: TwitchUserId)
        ensures
            r@ == self@,
    {
        proof {
            use_type_invariant(self);
        }
        TwitchUserId(self.0.clone())
    }
}

impl TwitchUserId {
    /// Every handle that exists is valid.
    #[verifier::type_invariant]
    spec fn valid(&self) -> bool {
        is_handle(self.0@)
    }

    /// Takes `s` as a handle where it is one, and refuses it where it is not.
    pub fn from_str(s: &str) -> (r: Result<TwitchUserId, InvalidHandle>)
        ensures
            is_handle(s@) ==> r is Ok && r->Ok_0@ == s@,
            !is_handle(s@) ==> r is Err,
    {
        let v = chars_of(s);
        let mut i: usize = 0;
        while i < v.len()
            invariant
                0 <= i <= v.len(),
                v@ == s@,
                forall|j: int| 0 <= j < i ==> is_handle_char(#[trigger] s@[j]),
            decreases v.len() - i,
        {
            let c = v[i];
            let ok = ('0' <= c && c <= '9') || ('a' <= c && c <= 'z') || ('A' <= c && c <= 'Z') || c
                == '_';
            if !ok {
                assert(!is_handle_char(s@[i as int]));
                return Err(InvalidHandle);
            }
            i += 1;
        }
        Ok(TwitchUserId(s.to_owned()))
    }

    /// The handle as text.
    pub fn to_string(&self) -> (r: String)
        ensures
            r@ == self@,
            is_handle(r@),
    {
        proof {
            use_type_invariant(self);
        }
        self.0.clone()
    }
}

/// The balance after `points` are added to `balance`: an addition that would
/// overflow leaves the balance as it was, and the result is held at the floor.
pub open spec fn credited(balance: int, points: int) -> int {
    floored(spec_overflow_add(balance, points))
}

/// The balance after `points` are taken from `balance`: the result is held at
/// the floor, and a subtraction that would overflow upwards leaves the
/// balance as it was.
pub open spec fn debited(balance: int, points: int) -> int {
    if balance - points > i64::MAX {
        floored(balance)
    } else {
        floored(balance - points)
    }
}

/// A counter one higher, where the machine integer allows it.
pub open spec fn bumped(n: int) -> int {
    if n < i32::MAX {
        n + 1
    } else {
        n
    }
}

/// A counter one lower, where the machine integer allows it.
pub open spec fn lowered(n: int) -> int {
    if n > i32::MIN {
        n - 1
    } else {
        n
    }
}

impl StoreView {
    /// The store after `points` are added to the balance of `twitch_id`.
    pub open spec fn add_points(self, twitch_id: Seq<char>, points: int) -> StoreView {
        self.update_points(twitch_id, credited(self.points_of(twitch_id), points))
    }

    /// The store after `points` are taken from the balance of `twitch_id`.
    pub open spec fn subtract_points(self, twitch_id: Seq<char>, points: int) -> StoreView {
        self.update_points(twitch_id, debited(self.points_of(twitch_id), points))
    }

    /// The store after one win is credited to `twitch_id`.
    pub open spec fn add_win(self, twitch_id: Seq<char>) -> StoreView {
        match self.chatter_at(twitch_id) {
            Some(i) => self.update_wins(twitch_id, bumped(self.chatters[i].wins)),
            None => self,
        }
    }

    /// The store after one loss is credited to `twitch_id`.
    pub open spec fn add_loss(self, twitch_id: Seq<char>) -> StoreView {
        match self.chatter_at(twitch_id) {
            Some(i) => self.update_losses(twitch_id, bumped(self.chatters[i].losses)),
            None => self,
        }
    }
}

/// One entry of the ledger: points added to an account or taken from it.
pub enum LedgerEntry {
    Add { twitch_id: Seq<char>, points: int },
    Subtract { twitch_id: Seq<char>, points: int },
}

/// The store after the entries were applied one after the other.
pub open spec fn ledger_run(s: StoreView, entries: Seq<LedgerEntry>) -> StoreView
    decreases entries.len(),
{
    if entries.len() == 0 {
        s
    } else {
        let before = ledger_run(s, entries.drop_last());
        match entries.last() {
            LedgerEntry::Add { twitch_id, points } => before.add_points(twitch_id, points),
            LedgerEntry::Subtract { twitch_id, points } => before.subtract_points(
                twitch_id,
                points,
            ),
        }
    }
}

/// Whatever the balance and whatever the amount, the balance after an
/// addition or a subtraction does not lie below the floor, and where the
/// balance before fits the machine integer, so does the balance after.
pub proof fn lemma_floor_after_one(balance: int, points: int)
    ensures
        credited(balance, points) >= POINTS_FLOOR,
        debited(balance, points) >= POINTS_FLOOR,
        balance <= i64::MAX ==> credited(balance, points) <= i64::MAX && debited(balance, points)
            <= i64::MAX,
{
}

/// No balance ever drops below the floor: after any run of additions and
/// subtractions, of whatever amounts and on whatever accounts, the store is
/// well-formed, and so every balance in it is at the floor or above.
pub proof fn lemma_floor_is_never_breached(s: StoreView, entries: Seq<LedgerEntry>)
    requires
        s.wf(),
    ensures
        ledger_run(s, entries).wf(),
        forall|i: int|
            0 <= i < ledger_run(s, entries).chatters.len() ==> (#[trigger] ledger_run(
                s,
                entries,
            ).chatters[i]).points >= POINTS_FLOOR,
    decreases entries.len(),
{
    if entries.len() > 0 {
        let before = ledger_run(s, entries.drop_last());
        lemma_floor_is_never_breached(s, entries.drop_last());
        crate::db::lemma_chatter_at(before, match entries.last() {
            LedgerEntry::Add { twitch_id, points } => twitch_id,
            LedgerEntry::Subtract { twitch_id, points } => twitch_id,
        });
        match entries.last() {
            LedgerEntry::Add { twitch_id, points } => {
                lemma_update_points_wf(
                    before,
                    twitch_id,
                    credited(before.points_of(twitch_id), points),
                );
            },
            LedgerEntry::Subtract { twitch_id, points } => {
                lemma_update_points_wf(
                    before,
                    twitch_id,
                    debited(before.points_of(twitch_id), points),
                );
            },
        }
    }
}

/// Adds `points` to the balance of `twitch_id`. An addition that would
/// overflow leaves the balance as it was; the result is held at the floor.
/// An unknown chatter is left out.
pub fn add_points(store: &mut Store, twitch_id: &str, points: i64)
    requires
        old(store)@.wf(),
    ensures
        final(store)@.wf(),
        final(store)@ == old(store)@.add_points(twitch_id@, points as int),
{
    match store.get_chatter(twitch_id) {
        Some(chatter) => {
            let new_points = if overflow_add(chatter.points, points) < POINTS_FLOOR {
                POINTS_FLOOR
            } else {
                overflow_add(chatter.points, points)
            };
            store.update_points(twitch_id, new_points)
        },
        None => {},
    }
}

/// Takes `points` from the balance of `twitch_id`; the result is held at the
/// floor. An unknown chatter is left out.
pub fn subtract_points(store: &mut Store, twitch_id: &str, points: i64)
    requires
        old(store)@.wf(),
    ensures
        final(store)@.wf(),
        final(store)@ == old(store)@.subtract_points(twitch_id@, points as int),
{
    match store.get_chatter(twitch_id) {
        Some(chatter) => {
            let new_points = match chatter.points.checked_sub(points) {
                Some(d) => d,
                None => if points > 0 {
                    POINTS_FLOOR
                } else {
                    chatter.points
                },
            };
            store.update_points(twitch_id, new_points)
        },
        None => {},
    }
}

/// The balance of `twitch_id`; zero for an unknown chatter. In a
/// well-formed store it does not lie below the floor.
pub fn get_points(store: &Store, twitch_id: &str) -> (r: i64)
    ensures
        r == store@.points_of(twitch_id@),
        store@.wf() ==> r >= POINTS_FLOOR,
{
    proof {
        crate::db::lemma_chatter_at(store@, twitch_id@);
    }
    match store.get_chatter(twitch_id) {
        Some(chatter) => chatter.points,
        None => 0,
    }
}

/// Credits one win to `twitch_id`.
pub fn add_win(store: &mut Store, twitch_id: &str)
    requires
        old(store)@.wf(),
    ensures
        final(store)@.wf(),
        final(store)@ == old(store)@.add_win(twitch_id@),
{
    match store.get_chatter(twitch_id) {
        Some(chatter) => {
            let new_wins = if chatter.wins < i32::MAX {
                chatter.wins + 1
            } else {
                chatter.wins
            };
            store.update_wins(twitch_id, new_wins)
        },
        None => {},
    }
}

/// Takes one win back from `twitch_id`.
pub fn _subtract_win(store: &mut Store, twitch_id: &str)
    requires
        old(store)@.wf(),
    ensures
        final(store)@.wf(),
        final(store)@ == match old(store)@.chatter_at(twitch_id@) {
            Some(i) => old(store)@.update_wins(twitch_id@, lowered(old(store)@.chatters[i].wins)),
            None => old(store)@,
        },
{
    match store.get_chatter(twitch_id) {
        Some(chatter) => {
            let new_wins = if chatter.wins > i32::MIN {
                chatter.wins - 1
            } else {
                chatter.wins
            };
            store.update_wins(twitch_id, new_wins)
        },
        None => {},
    }
}

/// Credits one loss to `twitch_id`.
pub fn add_loss(store: &mut Store, twitch_id: &str)
    requires
        old(store)@.wf(),
    ensures
        final(store)@.wf(),
        final(store)@ == old(store)@.add_loss(twitch_id@),
{
    match store.get_chatter(twitch_id) {
        Some(chatter) => {
            let new_losses = if chatter.losses < i32::MAX {
                chatter.losses + 1
            } else {
                chatter.losses
            };
            store.update_losses(twitch_id, new_losses)
        },
        None => {},
    }
}

/// Takes one loss back from `twitch_id`.
pub fn _subtract_loss(store: &mut Store, twitch_id: &str)
    requires
        old(store)@.wf(),
    ensures
        final(store)@.wf(),
        final(store)@ == match old(store)@.chatter_at(twitch_id@) {
            Some(i) => old(store)@.update_losses(
                twitch_id@,
                lowered(old(store)@.chatters[i].losses),
            ),
            None => old(store)@,
        },
{
    match store.get_chatter(twitch_id) {
        Some(chatter) => {
            let new_losses = if chatter.losses > i32::MIN {
                chatter.losses - 1
            } else {
                chatter.losses
            };
            store.update_losses(twitch_id, new_losses)
        },
        None => {},
    }
}

/// The challenger whose challenge `twitch_id` would accept without naming
/// anyone: the one of their only outstanding challenge. With none or with
/// several outstanding there is no such challenger.
pub fn get_challenge_to_accept(store: &Store, twitch_id: &str) -> (r: Option<String>)
    ensures
        store@.challenges(twitch_id@).len() == 1 ==> r is Some && r->0@ == store@.challenges(
            twitch_id@,
        )[0].challenger,
        store@.challenges(twitch_id@).len() != 1 ==> r is None,
{
    let challenges = store.get_challenges(twitch_id);
    if challenges.len() == 1 {
        assert(challenges@.map_values(|d: Duel| d@)[0] == challenges@[0]@);
        Some(challenges[0].challenger.clone())
    } else {
        None
    }
}

/// A number held within the range of `i32`.
pub open spec fn clamped(n: int) -> int {
    if n < i32::MIN {
        i32::MIN as int
    } else if n > i32::MAX {
        i32::MAX as int
    } else {
        n
    }
}

/// Adds `lurk_time` seconds to the time that `twitch_id` has spent lurking;
/// the sum is held within the range of `i32`.
pub fn _add_lurk_time(store: &mut Store, twitch_id: &str, lurk_time: i32)
    requires
        old(store)@.wf(),
    ensures
        final(store)@.wf(),
        final(store)@ == match old(store)@.chatter_at(twitch_id@) {
            Some(i) => old(store)@.update_lurk_time(
                twitch_id@,
                clamped(old(store)@.chatters[i].lurk_time + lurk_time),
            ),
            None => old(store)@,
        },
{
    match store.get_chatter(twitch_id) {
        Some(chatter) => {
            let sum: i64 = chatter.lurk_time as i64 + lurk_time as i64;
            let new_lurk_time: i32 = if sum < i32::MIN as i64 {
                i32::MIN
            } else if sum > i32::MAX as i64 {
                i32::MAX
            } else {
                sum as i32
            };
            store.update_lurk_time(twitch_id, new_lurk_time)
        },
        None => {},
    }
}

/// The whole seconds between `created_at` and `now`, held within the range
/// of `i32`; zero where the start is not known.
pub open spec fn lurked_seconds(created_at: Option<int>, now: int) -> int {
    match created_at {
        Some(t) => clamped(whole(now - t, SECOND as int)),
        None => 0,
    }
}

/// What a returning lurker hears.
pub open spec fn welcome_back_text(username: Seq<char>, seconds: int) -> Seq<char> {
    "Welcome back, "@ + username + "! You were lurking for "@ + decimal(seconds) + " seconds."@
}

/// What a message from a lurker leads to at `now`: the time since they
/// started to lurk is added to their lurk time, they are no lurker any more,
/// and they are welcomed back. Nothing happens for a sender who does not
/// lurk or is no known chatter.
pub open spec fn unlurk_step(s: StoreView, msg: ChatMessageView, now: int) -> StoreStep {
    match s.lurker_at(msg.sender_id) {
        None => StoreStep { store: s, out: Seq::empty() },
        Some(l) => match s.chatter_at(msg.sender_id) {
            None => StoreStep { store: s, out: Seq::empty() },
            Some(c) => {
                let seconds = lurked_seconds(s.lurkers[l].created_at, now);
                StoreStep {
                    store: s.update_lurk_time(
                        msg.sender_id,
                        clamped(s.chatters[c].lurk_time + seconds),
                    ).delete_lurker(msg.sender_id),
                    out: seq![reply_view(welcome_back_text(s.chatters[c].username, seconds))],
                }
            },
        },
    }
}

/// Ends the lurking of the sender, if they lurk.
pub fn unlurk(store: &mut Store, msg: &ChatMessage, now: i64) -> (out: Vec<Outgoing>)
    requires
        old(store)@.wf(),
    ensures
        final(store)@.wf(),
        (StoreStep { store: final(store)@, out: outbox(out@) }) == unlurk_step(
            old(store)@,
            msg@,
            now as int,
        ),
{
    let twitch_id = msg.sender_id.as_str();
    let lurker = match store.get_lurker(twitch_id) {
        Some(lurker) => lurker,
        None => {
            let out: Vec<Outgoing> = Vec::new();
            assert(outbox(out@) =~= Seq::<OutgoingView>::empty());
            return out;
        },
    };
    let time_lurked: i32 = match lurker.created_at {
        Some(t) => {
            let seconds = whole_units(now, t, SECOND);
            if seconds < i32::MIN as i64 {
                i32::MIN
            } else if seconds > i32::MAX as i64 {
                i32::MAX
            } else {
                seconds as i32
            }
        },
        None => 0,
    };
    let chatter = match store.get_chatter(twitch_id) {
        Some(chatter) => chatter,
        None => {
            let out: Vec<Outgoing> = Vec::new();
            assert(outbox(out@) =~= Seq::<OutgoingView>::empty());
            return out;
        },
    };
    _add_lurk_time(store, twitch_id, time_lurked);
    store.delete_lurker(twitch_id);
    let mut text = String::from_str("Welcome back, ");
    text.append(chatter.username.as_str());
    text.append("! You were lurking for ");
    text.append(decimal_string(time_lurked as i64).as_str());
    text.append(" seconds.");
    one(reply_to(text.as_str()))
}

/// What a new chatter hears.
pub open spec fn welcome_text(name: Seq<char>) -> Seq<char> {
    "Welcome, "@ + name
        + "! You have been given 1000 points, to gamble and duel with, type !commands to see what you can do."@
}

/// Greets a new chatter and gives them 1000 points.
pub fn on_new_chatter(store: &mut Store, msg: &ChatMessage) -> (out: Vec<Outgoing>)
    requires
        old(store)@.wf(),
    ensures
        final(store)@.wf(),
        final(store)@ == old(store)@.add_points(msg@.sender_id, 1000),
        outbox(out@) == seq![reply_view(welcome_text(msg@.sender_name))],
{
    add_points(store, msg.sender_id.as_str(), 1000);
    let mut text = String::from_str("Welcome, ");
    text.append(msg.sender_name.as_str());
    text.append(
        "! You have been given 1000 points, to gamble and duel with, type !commands to see what you can do.",
    );
    one(reply_to(text.as_str()))
}

} // verus!
