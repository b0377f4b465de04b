use duel_bot::chatter::{
    _subtract_loss, _subtract_win, add_loss, add_points, add_win, get_challenge_to_accept,
    get_points, on_new_chatter, subtract_points, unlurk, InvalidHandle, TwitchUserId,
};
use duel_bot::commands::ChatMessage;
use duel_bot::db::Store;
use duel_bot::helpers::{_overflow_sub, overflow_add};

const NOW: i64 = 1_700_000_000_000_000;

fn store_with(points: i64) -> Store {
    let mut store = Store::new();
    store.create_chatter("1", "Bob", NOW).unwrap();
    store.update_points("1", points);
    store
}

fn msg(id: &str, name: &str, text: &str) -> ChatMessage {
    ChatMessage {
        sender_id: id.to_string(),
        sender_name: name.to_string(),
        text: text.to_string(),
    }
}

#[test]
fn overflow_add_keeps_the_left_operand_on_overflow() {
    assert_eq!(overflow_add(1, 2), 3);
    assert_eq!(overflow_add(-5, 2), -3);
    assert_eq!(overflow_add(i64::MAX, 1), i64::MAX);
    assert_eq!(overflow_add(i64::MAX - 1, 1), i64::MAX);
    assert_eq!(overflow_add(i64::MIN, -1), i64::MIN);
    assert_eq!(overflow_add(7, i64::MAX), 7);
}

#[test]
fn overflow_sub_keeps_the_left_operand_on_overflow() {
    assert_eq!(_overflow_sub(5, 2), 3);
    assert_eq!(_overflow_sub(i64::MIN, 1), i64::MIN);
    assert_eq!(_overflow_sub(i64::MIN + 1, 1), i64::MIN);
    assert_eq!(_overflow_sub(7, i64::MIN), 7);
    assert_eq!(_overflow_sub(-7, i64::MAX), -7);
    assert_eq!(_overflow_sub(-1, i64::MAX), i64::MIN);
}

#[test]
fn points_are_added_and_taken() {
    let mut store = store_with(100);
    add_points(&mut store, "1", 50);
    assert_eq!(get_points(&store, "1"), 150);
    subtract_points(&mut store, "1", 200);
    assert_eq!(get_points(&store, "1"), -50);
    add_points(&mut store, "1", -100);
    assert_eq!(get_points(&store, "1"), -150);
    subtract_points(&mut store, "1", -150);
    assert_eq!(get_points(&store, "1"), 0);
}

#[test]
fn balance_never_drops_below_the_floor() {
    let mut store = store_with(0);
    subtract_points(&mut store, "1", 1000);
    assert_eq!(get_points(&store, "1"), -1000);
    subtract_points(&mut store, "1", 1);
    assert_eq!(get_points(&store, "1"), -1000);
    subtract_points(&mut store, "1", i64::MAX);
    assert_eq!(get_points(&store, "1"), -1000);
    add_points(&mut store, "1", i64::MIN);
    assert_eq!(get_points(&store, "1"), -1000);
    add_points(&mut store, "1", -5);
    assert_eq!(get_points(&store, "1"), -1000);
    for _ in 0..10 {
        add_points(&mut store, "1", i64::MAX);
        subtract_points(&mut store, "1", i64::MAX);
        subtract_points(&mut store, "1", i64::MAX);
        assert!(get_points(&store, "1") >= -1000);
    }
    assert_eq!(get_points(&store, "1"), -1000);
    store.update_points("1", -5000);
    assert_eq!(get_points(&store, "1"), -1000);
}

#[test]
fn an_addition_that_overflows_leaves_the_balance() {
    let mut store = store_with(i64::MAX - 10);
    add_points(&mut store, "1", 11);
    assert_eq!(get_points(&store, "1"), i64::MAX - 10);
    add_points(&mut store, "1", 10);
    assert_eq!(get_points(&store, "1"), i64::MAX);
    add_points(&mut store, "1", i64::MAX);
    assert_eq!(get_points(&store, "1"), i64::MAX);
    subtract_points(&mut store, "1", -1);
    assert_eq!(get_points(&store, "1"), i64::MAX);
    subtract_points(&mut store, "1", i64::MIN);
    assert_eq!(get_points(&store, "1"), i64::MAX);
}

#[test]
fn unknown_accounts_read_as_zero_and_are_left_alone() {
    let mut store = store_with(100);
    assert_eq!(get_points(&store, "2"), 0);
    add_points(&mut store, "2", 50);
    subtract_points(&mut store, "2", 50);
    add_win(&mut store, "2");
    add_loss(&mut store, "2");
    assert_eq!(get_points(&store, "2"), 0);
    assert_eq!(store.chatters.len(), 1);
    assert_eq!(get_points(&store, "1"), 100);
}

#[test]
fn wins_and_losses_are_counted() {
    let mut store = store_with(0);
    add_win(&mut store, "1");
    add_win(&mut store, "1");
    add_loss(&mut store, "1");
    let bob = store.get_chatter("1").unwrap();
    assert_eq!((bob.wins, bob.losses), (2, 1));
    _subtract_win(&mut store, "1");
    _subtract_loss(&mut store, "1");
    _subtract_loss(&mut store, "1");
    let bob = store.get_chatter("1").unwrap();
    assert_eq!((bob.wins, bob.losses), (1, -1));
    store.update_wins("1", i32::MAX);
    add_win(&mut store, "1");
    assert_eq!(store.get_chatter("1").unwrap().wins, i32::MAX);
    store.update_losses("1", i32::MIN);
    _subtract_loss(&mut store, "1");
    assert_eq!(store.get_chatter("1").unwrap().losses, i32::MIN);
}

#[test]
fn handles_hold_letters_digits_and_underscores_only() {
    let handle = TwitchUserId::from_str("Tolu_Afo42").unwrap();
    assert_eq!(handle.to_string(), "Tolu_Afo42");
    assert_eq!(handle.clone().to_string(), "Tolu_Afo42");
    assert!(TwitchUserId::from_str("").is_ok());
    for bad in ["tolu afo", "tolu-afo", "tölu", "@tolu", "a.b"] {
        assert_eq!(TwitchUserId::from_str(bad).err(), Some(InvalidHandle));
    }
    assert_eq!(
        InvalidHandle.message(),
        "valid handles only contain characters 0-9 and a-f"
    );
}

#[test]
fn only_a_single_outstanding_challenge_can_be_accepted_without_a_name() {
    let mut store = store_with(0);
    store.create_chatter("2", "Alice", NOW).unwrap();
    assert_eq!(get_challenge_to_accept(&store, "2"), None);
    store.create_duel("Bob", "Alice", "1", "2", 10, NOW).unwrap();
    assert_eq!(get_challenge_to_accept(&store, "2"), Some("Bob".to_string()));
    assert_eq!(get_challenge_to_accept(&store, "1"), None);
    store.create_duel("Carol", "Alice", "3", "2", 10, NOW).unwrap();
    assert_eq!(get_challenge_to_accept(&store, "2"), None);
    assert!(store.accept_duel(1, NOW));
    assert_eq!(get_challenge_to_accept(&store, "2"), Some("Carol".to_string()));
}

#[test]
fn a_new_chatter_is_greeted_with_a_thousand_points() {
    let mut store = store_with(0);
    let out = on_new_chatter(&mut store, &msg("1", "Bob", "hi"));
    assert_eq!(out.len(), 1);
    assert!(out[0].reply);
    assert_eq!(
        out[0].text,
        "Welcome, Bob! You have been given 1000 points, to gamble and duel with, type !commands to see what you can do."
    );
    assert_eq!(get_points(&store, "1"), 1000);
}

#[test]
fn a_lurker_who_speaks_is_welcomed_back() {
    let mut store = store_with(0);
    assert!(store.create_lurker("Bob", "1", NOW));
    assert!(store.create_lurker("Bob", "1", NOW + 5));
    let out = unlurk(&mut store, &msg("1", "Bob", "hello"), NOW + 90_500_000);
    assert_eq!(out.len(), 1);
    assert!(out[0].reply);
    assert_eq!(out[0].text, "Welcome back, Bob! You were lurking for 90 seconds.");
    assert_eq!(store.get_chatter("1").unwrap().lurk_time, 90);
    assert_eq!(store.lurkers.len(), 0);
    let out = unlurk(&mut store, &msg("1", "Bob", "hello"), NOW + 100_000_000);
    assert_eq!(out.len(), 0);
    assert_eq!(store.get_chatter("1").unwrap().lurk_time, 90);
}

#[test]
fn lurk_time_stays_within_its_range() {
    let mut store = store_with(0);
    store.update_lurk_time("1", i32::MAX - 1);
    store.create_lurker("Bob", "1", NOW);
    let out = unlurk(&mut store, &msg("1", "Bob", "hello"), NOW + 10_000_000);
    assert_eq!(out[0].text, "Welcome back, Bob! You were lurking for 10 seconds.");
    assert_eq!(store.get_chatter("1").unwrap().lurk_time, i32::MAX);
    store.create_lurker("Bob", "1", 0);
    let out = unlurk(&mut store, &msg("1", "Bob", "hello"), i64::MAX);
    assert_eq!(
        out[0].text,
        "Welcome back, Bob! You were lurking for 2147483647 seconds."
    );
}
