use duel_bot::chatter::get_points;
use duel_bot::commands::social::{draw_greeting, responses};
use duel_bot::commands::{
    handle_addcategory_command, handle_addquestion_command, handle_botrepo_command,
    handle_commands_command, handle_contribute_command, handle_gamble_command,
    handle_gift_command, handle_github_command, handle_kda_command,
    handle_listcategories_command, handle_lurk_command, handle_lurkers_command,
    handle_lurktime_command, handle_points_command, handle_pool_command,
    handle_pool_draw_command, handle_ranking_command, handle_setpoints_command,
    handle_top_duelists_command, handle_yo_command, ChatMessage,
};
use duel_bot::commands::bank::is_valid_category;
use duel_bot::commands::economy::{settle_dice, trunc_div};
use duel_bot::db::Store;
use duel_bot::messaging::{on_msg, on_msg_at, Chance, Outgoing};
use duel_bot::models::DuelStatus;
use duel_bot::state::State;

const NOW: i64 = 1_700_000_000_000_000;
const BROADCASTER: &str = "99";

fn msg(id: &str, name: &str, text: &str) -> ChatMessage {
    ChatMessage {
        sender_id: id.to_string(),
        sender_name: name.to_string(),
        text: text.to_string(),
    }
}

fn texts(out: &Vec<Outgoing>) -> Vec<String> {
    out.iter().map(|m| m.text.clone()).collect()
}

fn one_reply(out: &Vec<Outgoing>) -> String {
    assert_eq!(out.len(), 1);
    assert!(out[0].reply);
    out[0].text.clone()
}

/// Bob (1) with 1000 points, Alice (2) with 10, the broadcaster (99) with 0.
fn town() -> Store {
    let mut store = Store::new();
    store.create_chatter("1", "Bob", NOW).unwrap();
    store.create_chatter("2", "Alice", NOW).unwrap();
    store.create_chatter(BROADCASTER, "Tolu", NOW).unwrap();
    store.update_points("1", 1000);
    store.update_points("2", 10);
    store
}

fn chance(pick: usize, roll1: i32, roll2: i32) -> Chance {
    Chance { pick, roll1, roll2, greeting: "Moin".to_string() }
}

#[test]
fn points_are_reported() {
    let store = town();
    assert_eq!(one_reply(&handle_points_command(&store, &msg("1", "Bob", "!points"))), "You have 1000 point(s)!");
    assert_eq!(one_reply(&handle_points_command(&store, &msg("7", "Zed", "!points"))), "You have 0 point(s)!");
}

#[test]
fn links_are_given() {
    assert_eq!(
        one_reply(&handle_github_command()),
        "You can check out ToluAfo's projects at https://github.com/tolu-afo"
    );
    assert_eq!(
        one_reply(&handle_botrepo_command()),
        "You can check out my source code at https://github.com/tolu-afo/TTB"
    );
    assert_eq!(
        one_reply(&handle_contribute_command()),
        "You can contribute to my Code by taking on one of the issues listed here: https://github.com/tolu-afo/TTB/issues"
    );
}

#[test]
fn commands_are_listed() {
    assert_eq!(
        one_reply(&handle_commands_command()),
        "Available commands: !gamble, !yo, !lurk, !lurktime, !lurkers, !github, !botrepo, !listcategories, !addquestion, !addcategory, !points, !challenge, !duel, !accept, !kda, !ranking, !top3, !gift, !setpoints, !pool, !selectPoolWinner"
    );
}

#[test]
fn greetings_come_from_the_list() {
    let all = responses();
    assert_eq!(all.len(), 30);
    assert_eq!(all[0], "yo");
    assert_eq!(all[8], "Ello Gov'na");
    assert_eq!(all[29], "Moi");
    let mut seen = std::collections::HashSet::new();
    for _ in 0..400 {
        let greeting = one_reply(&handle_yo_command());
        assert!(all.contains(&greeting));
        seen.insert(greeting);
        assert!(all.contains(&draw_greeting()));
    }
    assert!(seen.len() > 1);
}

#[test]
fn lurkers_are_noted_and_listed() {
    let mut store = town();
    assert_eq!(one_reply(&handle_lurkers_command(&store)), "Lurkers: None");
    assert_eq!(
        one_reply(&handle_lurk_command(&mut store, &msg("1", "Bob", "!lurk"), NOW)),
        "@ToluAfo We got a lurker over here!!!"
    );
    handle_lurk_command(&mut store, &msg("2", "Alice", "!lurk"), NOW + 1);
    assert_eq!(store.lurkers.len(), 2);
    assert_eq!(store.lurkers[0].twitch_id, "1");
    assert_eq!(store.lurkers[0].created_at, Some(NOW));
    assert_eq!(one_reply(&handle_lurkers_command(&store)), "Lurkers:  - @Bob  - @Alice ");
}

#[test]
fn lurk_time_is_reported() {
    let mut store = town();
    store.update_lurk_time("1", 75);
    assert_eq!(
        one_reply(&handle_lurktime_command(&store, &msg("1", "Bob", "!lurktime"))),
        "@Bob you have lurked for 75 seconds!"
    );
    assert_eq!(
        one_reply(&handle_lurktime_command(&store, &msg("7", "Zed", "!lurktime"))),
        "You need to lurk first!"
    );
}

#[test]
fn wins_and_losses_are_reported() {
    let mut store = town();
    store.update_wins("1", 3);
    store.update_losses("1", 4);
    assert_eq!(
        one_reply(&handle_kda_command(&store, &msg("1", "Bob", "!kda"))),
        "@Bob has 3 wins and 4 losses!"
    );
    let out = handle_kda_command(&store, &msg("7", "Zed", "!kda"));
    assert_eq!(texts(&out), vec!["@Zed Error; Chatter not found!"]);
    assert!(!out[0].reply);
}

#[test]
fn the_best_duelists_are_announced() {
    let mut store = Store::new();
    assert_eq!(one_reply(&handle_top_duelists_command(&store)), "Top Duelists: None");
    for (id, name, wins) in [("1", "Bob", 2), ("2", "Alice", 5), ("3", "Carol", 0), ("4", "Dan", 5)] {
        store.create_chatter(id, name, NOW).unwrap();
        store.update_wins(id, wins);
    }
    assert_eq!(
        one_reply(&handle_top_duelists_command(&store)),
        "Top Duelists:  \u{2b50} 1. Alice - 5 wins \u{2b50} 2. Dan - 5 wins \u{2b50} 3. Bob - 2 wins"
    );
}

#[test]
fn the_ranking_is_reported() {
    let store = town();
    assert_eq!(one_reply(&handle_ranking_command(&store, &msg("1", "Bob", "!ranking"))), "Your ranking is: 1");
    assert_eq!(one_reply(&handle_ranking_command(&store, &msg("99", "Tolu", "!ranking"))), "Your ranking is: 3");
    assert_eq!(one_reply(&handle_ranking_command(&store, &msg("7", "Zed", "!ranking"))), "Chatter not found!");
}

#[test]
fn categories_are_listed() {
    let mut store = town();
    assert_eq!(one_reply(&handle_listcategories_command(&store)), "Categories: None");
    store.create_category("General", 1, NOW).unwrap();
    store.create_category("word scramble", 1, NOW).unwrap();
    assert_eq!(
        one_reply(&handle_listcategories_command(&store)),
        "Categories:  - 1 - General - 2 - word scramble"
    );
}

#[test]
fn gifts_move_points_between_accounts() {
    let mut store = town();
    let out = handle_gift_command(&mut store, &msg("1", "Bob", "!gift @Alice 300"));
    assert_eq!(texts(&out), vec!["@Bob gifted 300 points to @Alice"]);
    assert!(!out[0].reply);
    assert_eq!(get_points(&store, "1"), 700);
    assert_eq!(get_points(&store, "2"), 310);
    let out = handle_gift_command(&mut store, &msg("1", "Bob", "!gift Alice"));
    assert_eq!(texts(&out), vec!["@Bob gifted 100 points to @Alice"]);
    assert_eq!(get_points(&store, "1"), 600);
    assert_eq!(get_points(&store, "2"), 410);
    let out = handle_gift_command(&mut store, &msg("1", "Bob", "!gift Alice 600"));
    assert_eq!(texts(&out), vec!["@Bob gifted 600 points to @Alice"]);
    assert_eq!(get_points(&store, "1"), 0);
}

#[test]
fn gifts_are_refused_with_a_reason() {
    let mut store = town();
    for (sender, text, reason) in [
        ("7", "!gift @Alice 5", "Something went wrong! Try Again!"),
        ("1", "!gift", "Format is incorrect! try !gift @<username> <points>"),
        ("1", "!gift @Zed 5", "No chatter with that name!"),
        ("1", "!gift @Alice -5", "provide a positive value"),
        ("1", "!gift @Alice five", "Provide a valid number"),
        ("1", "!gift @Alice 1001", "You don't have enough points to gift that many!"),
    ] {
        let out = handle_gift_command(&mut store, &msg(sender, "Bob", text));
        assert_eq!(one_reply(&out), reason);
    }
    assert_eq!(get_points(&store, "1"), 1000);
    assert_eq!(get_points(&store, "2"), 10);
}

#[test]
fn only_the_broadcaster_sets_points() {
    let mut store = town();
    let out = handle_setpoints_command(&mut store, &msg("1", "Bob", "!setpoints @Bob 5000"), BROADCASTER);
    assert_eq!(one_reply(&out), "You aren't allowed to set points");
    assert_eq!(get_points(&store, "1"), 1000);
    let out = handle_setpoints_command(&mut store, &msg("99", "Tolu", "!setpoints @Bob 5000"), BROADCASTER);
    assert_eq!(one_reply(&out), "Points updated!");
    assert_eq!(get_points(&store, "1"), 5000);
    let out = handle_setpoints_command(&mut store, &msg("99", "Tolu", "!setpoints Alice"), BROADCASTER);
    assert_eq!(one_reply(&out), "Points updated!");
    assert_eq!(get_points(&store, "2"), 100);
    for (text, reason) in [
        ("!setpoints", "Format is incorrect! try !gift @<username> <points>"),
        ("!setpoints @Zed 5", "No chatter with that name!"),
        ("!setpoints @Bob -5", "provide a positive value"),
        ("!setpoints @Bob x", "Provide a valid number"),
    ] {
        let out = handle_setpoints_command(&mut store, &msg("99", "Tolu", text), BROADCASTER);
        assert_eq!(one_reply(&out), reason);
    }
    assert_eq!(get_points(&store, "1"), 5000);
}

#[test]
fn division_rounds_towards_zero() {
    assert_eq!(trunc_div(7, 2), 3);
    assert_eq!(trunc_div(-7, 2), -3);
    assert_eq!(trunc_div(-8, 4), -2);
    assert_eq!(trunc_div(0, 4), 0);
    assert_eq!(trunc_div(i64::MIN, 1), i64::MIN);
    assert_eq!(trunc_div(i64::MIN, 2), i64::MIN / 2);
    assert_eq!(trunc_div(i64::MAX, 4), i64::MAX / 4);
}

#[test]
fn the_dice_decide_the_gamble() {
    let cases: [(i32, i32, i64, i64, i64, &str); 9] = [
        (6, 6, 1400, 0, 0, "You rolled a 6 and a 6! You win 400 points!"),
        (5, 6, 1200, 0, 0, "You rolled a 5 and a 6! You win 200 points!"),
        (4, 6, 1200, 0, 0, "You rolled a 4 and a 6! You win 200 points!"),
        (3, 6, 1200, 0, 0, "You rolled a 3 and a 6! You win 200 points!"),
        (4, 4, 1100, 0, 0, "You rolled a 4 and a 4! You win 100 points!"),
        (1, 1, 900, 50, 50, "Snake Eyes! You lose 100 points! They've been added to the losers pool"),
        (3, 4, 975, 12, 12, "You rolled a 3 and a 4! You lose 25 points! They've been added to the losers pool"),
        (2, 4, 950, 25, 25, "You rolled a 2 and a 4! You lose 50 points! They've been added to the losers pool"),
        (1, 2, 950, 25, 25, "You rolled a 1 and a 2! You lose 50 points! They've been added to the losers pool"),
    ];
    for (roll1, roll2, balance, pool, broadcaster, text) in cases {
        let mut store = town();
        store.create_new_pool(NOW);
        let out = handle_gamble_command(&mut store, &msg("1", "Bob", "!gamble 100"), BROADCASTER, roll1, roll2);
        assert_eq!(texts(&out), vec!["Rolling the dice!", text]);
        assert!(out[0].reply && out[1].reply);
        assert_eq!(get_points(&store, "1"), balance, "{} {}", roll1, roll2);
        assert_eq!(store.get_current_pool().unwrap().amount, pool);
        assert_eq!(get_points(&store, BROADCASTER), broadcaster);
    }
    let mut store = town();
    let out = settle_dice(&mut store, "1", BROADCASTER, 100, 0, 0);
    assert_eq!(out.text, "You rolled a 0 and a 0! No points won or lost!");
    assert_eq!(get_points(&store, "1"), 1000);
    let out = settle_dice(&mut store, "1", BROADCASTER, 101, 3, 4);
    assert_eq!(
        out.text,
        "You rolled a 3 and a 4! You lose 25 points! They've been added to the losers pool"
    );
    assert_eq!(get_points(&store, "1"), 975);
    assert_eq!(get_points(&store, BROADCASTER), 12);
}

#[test]
fn gambles_are_refused_with_a_reason() {
    let mut store = town();
    for (sender, text, reason) in [
        ("1", "!gamble", "You need to provide a wager! Format: '!gamble <points>'"),
        ("1", "!gamble ten", "Invalid wager! Format: '!gamble <points>'"),
        ("7", "!gamble 10", "Chatter not found!"),
        ("1", "!gamble 1001", "You don't have enough points to wager that much!"),
    ] {
        let out = handle_gamble_command(&mut store, &msg(sender, "Bob", text), BROADCASTER, 6, 6);
        assert_eq!(one_reply(&out), reason);
    }
    assert_eq!(get_points(&store, "1"), 1000);
    let out = handle_gamble_command(&mut store, &msg("1", "Bob", "!gamble 1000"), BROADCASTER, 6, 6);
    assert_eq!(out.len(), 2);
    assert_eq!(get_points(&store, "1"), 5000);
}

#[test]
fn the_pool_is_described_and_drawn() {
    let mut store = town();
    assert_eq!(one_reply(&handle_pool_command(&store, NOW)), "No Pool Found!");
    store.create_new_pool(NOW - 3 * 3_600_000_000);
    store.add_pool_points(250);
    assert_eq!(
        one_reply(&handle_pool_command(&store, NOW)),
        "The Loser Pool is currently 250 points! It started 3 hour(s) ago"
    );
    let out = handle_pool_draw_command(&mut store, &msg("1", "Bob", "!selectPoolWinner"), BROADCASTER, NOW, 0);
    assert_eq!(out.len(), 0);
    assert_eq!(store.pools.len(), 1);
    let out = handle_pool_draw_command(&mut store, &msg("99", "Tolu", "!selectPoolWinner"), BROADCASTER, NOW, 1);
    assert_eq!(one_reply(&out), "@Alice has won the pool of 250 points!");
    assert_eq!(get_points(&store, "2"), 260);
    assert_eq!(store.pools.len(), 2);
    assert_eq!(store.pools[0].winner, Some(2));
    assert_eq!(store.pools[1].amount, 0);
    assert_eq!(store.pools[1].winner, None);
    assert_eq!(store.pools[1].created_at, NOW);
    assert_eq!(store.get_current_pool().unwrap().id, 2);
}

#[test]
fn the_pool_draw_is_refused_with_a_reason() {
    let mut store = Store::new();
    let out = handle_pool_draw_command(&mut store, &msg("99", "Tolu", "!selectPoolWinner"), BROADCASTER, NOW, 0);
    assert_eq!(one_reply(&out), "Broadcaster not found!");
    store.create_chatter(BROADCASTER, "Tolu", NOW).unwrap();
    let out = handle_pool_draw_command(&mut store, &msg("99", "Tolu", "!selectPoolWinner"), BROADCASTER, NOW, 0);
    assert_eq!(one_reply(&out), "No pool found!");
    store.create_new_pool(NOW);
    let out = handle_pool_draw_command(&mut store, &msg("99", "Tolu", "!selectPoolWinner"), BROADCASTER, NOW, 0);
    assert_eq!(one_reply(&out), "Chatter not found!");
    assert_eq!(store.pools.len(), 1);
    assert_eq!(store.pools[0].winner, None);
}

#[test]
fn category_names_are_validated() {
    for good in ["Movies", "under 30?", "A.B!", "  padded  ", "Ölfässer", " ", "2024"] {
        assert!(is_valid_category(good), "{:?}", good);
    }
    for bad in ["", "a|b", "semi;colon", "tab\tinside", "new-wave", "@home", "a_b"] {
        assert!(!is_valid_category(bad), "{:?}", bad);
    }
}

#[test]
fn categories_are_added_at_a_price() {
    let mut store = town();
    store.update_points("1", 60000);
    let out = handle_addcategory_command(&mut store, &msg("1", "Bob", "!addcategory  Movie Quotes! "), BROADCASTER, NOW);
    assert_eq!(one_reply(&out), "Category Added!");
    assert_eq!(store.categories.len(), 1);
    assert_eq!(store.categories[0].name, "movie quotes!");
    assert_eq!(store.categories[0].submitter_id, 1);
    assert_eq!(store.categories[0].created_at, NOW);
    assert_eq!(get_points(&store, "1"), 10000);

    let out = handle_addcategory_command(&mut store, &msg("99", "Tolu", "!addcategory General"), BROADCASTER, NOW);
    assert_eq!(one_reply(&out), "Category Added!");
    assert_eq!(store.categories[1].name, "general");
    assert_eq!(store.categories[1].submitter_id, 99);
    assert_eq!(get_points(&store, BROADCASTER), 0);

    for (sender, points, text, reason) in [
        ("7", 0, "!addcategory x", "Chatter not found!"),
        ("1", 49999, "!addcategory x", "You don't have enough points to add a category! It costs 50000 points to add a category."),
        ("1", 50000, "!addcategory", "Invalid category name! Category names cannot be empty, and can only contain alphanumeric characters, spaces, and the following special characters: !, ?, ."),
        ("1", 50000, "!addcategory a_b", "Invalid category name! Category names cannot be empty, and can only contain alphanumeric characters, spaces, and the following special characters: !, ?, ."),
        ("1", 50000, "!addcategory MOVIE quotes!", "Category already exists! Provide a new category name."),
    ] {
        store.update_points("1", points);
        let out = handle_addcategory_command(&mut store, &msg(sender, "Bob", text), BROADCASTER, NOW);
        assert_eq!(one_reply(&out), reason);
        assert_eq!(get_points(&store, "1"), points);
    }
    assert_eq!(store.categories.len(), 2);

    store.create_chatter("bob", "Named", NOW).unwrap();
    store.update_points("bob", 50000);
    let out = handle_addcategory_command(&mut store, &msg("bob", "Named", "!addcategory new"), BROADCASTER, NOW);
    assert_eq!(one_reply(&out), "Something went wrong! Try Again!");
    assert_eq!(get_points(&store, "bob"), 50000);
}

#[test]
fn questions_are_added_at_a_price() {
    let mut store = town();
    store.update_points("1", 12000);
    store.create_category("Other", 1, NOW).unwrap();
    store.create_category("General", 1, NOW).unwrap();
    let out = handle_addquestion_command(&mut store, &msg("1", "Bob", "!addquestion  What  is 2+2? |  4 "));
    assert_eq!(one_reply(&out), "Question Added!");
    assert_eq!(store.questions.len(), 1);
    assert_eq!(store.questions[0].question, "What  is 2+2?");
    assert_eq!(store.questions[0].answer, "4");
    assert_eq!(store.questions[0].category_id, 2);
    assert_eq!(store.questions[0].submitter_id, 1);
    assert_eq!(get_points(&store, "1"), 7000);

    let out = handle_addquestion_command(&mut store, &msg("1", "Bob", "!addquestion q|a| 1 |ignored"));
    assert_eq!(one_reply(&out), "Question Added!");
    assert_eq!(store.questions[1].category_id, 1);
    assert_eq!(get_points(&store, "1"), 2000);

    let empty = "Your Question, Answer, or Category Id is empty! Use '!addquestion <question> | <answer> | <category_id>' to know which category id to use type !listcategories; ";
    for (sender, points, text, reason) in [
        ("7", 9000, "!addquestion q | a", "Something went wrong! Try Again!"),
        ("1", 9000, "!addquestion q a", "Invalid format! Use !addquestion <question> | <answer>"),
        ("1", 9000, "!addquestion", "Invalid format! Use !addquestion <question> | <answer>"),
        ("1", 9000, "!addquestion  | a", empty),
        ("1", 9000, "!addquestion q |  ", empty),
        ("1", 9000, "!addquestion q | a | ", empty),
        ("1", 9000, "!addquestion q | a | two", "Invalid category id! Use !listcategories to see available categories."),
        ("1", 9000, "!addquestion q | a | 3", "Category not found! Use !listcategories to see available categories."),
        ("1", 4999, "!addquestion q | a", "You don't have enough points to add a question! It costs 5000 points to add a question."),
    ] {
        store.update_points("1", points);
        let out = handle_addquestion_command(&mut store, &msg(sender, "Bob", text));
        assert_eq!(one_reply(&out), reason, "{}", text);
        assert_eq!(get_points(&store, "1"), points);
    }
    assert_eq!(store.questions.len(), 2);

    let mut bare = town();
    bare.update_points("1", 9000);
    let out = handle_addquestion_command(&mut bare, &msg("1", "Bob", "!addquestion q | a"));
    assert_eq!(one_reply(&out), "Category not found! Use !listcategories to see available categories.");
}

#[test]
fn every_message_counts_as_presence() {
    let mut store = Store::new();
    let mut state = State::new();
    let out = on_msg_at(&mut store, &mut state, &msg("1", "Bob", "hello there"), BROADCASTER, NOW, &chance(0, 1, 1));
    assert_eq!(out.len(), 0);
    assert_eq!(store.chatters.len(), 1);
    assert_eq!(store.chatters[0].username, "Bob");
    assert_eq!(get_points(&store, "1"), 5);
    let out = on_msg_at(&mut store, &mut state, &msg("1", "Bobby", "!points"), BROADCASTER, NOW + 9, &chance(0, 1, 1));
    assert_eq!(one_reply(&out), "You have 10 point(s)!");
    assert_eq!(store.chatters[0].username, "Bobby");
    assert_eq!(store.chatters[0].last_seen, NOW + 9);
}

#[test]
fn a_lurker_is_welcomed_back_before_the_command_is_answered() {
    let mut store = Store::new();
    let mut state = State::new();
    let out = on_msg_at(&mut store, &mut state, &msg("1", "Bob", "!lurk"), BROADCASTER, NOW, &chance(0, 1, 1));
    assert_eq!(texts(&out), vec!["@ToluAfo We got a lurker over here!!!"]);
    let out = on_msg_at(&mut store, &mut state, &msg("1", "Bob", "!yo"), BROADCASTER, NOW + 61_000_000, &chance(0, 1, 1));
    assert_eq!(
        texts(&out),
        vec!["Welcome back, Bob! You were lurking for 61 seconds.", "Moin"]
    );
    let out = on_msg_at(&mut store, &mut state, &msg("1", "Bob", "!lurktime"), BROADCASTER, NOW, &chance(0, 1, 1));
    assert_eq!(texts(&out), vec!["@Bob you have lurked for 61 seconds!"]);
}

#[test]
fn a_whole_duel_runs_through_the_dispatcher() {
    let mut store = Store::new();
    let mut state = State::new();
    let c = chance(0, 1, 1);
    on_msg_at(&mut store, &mut state, &msg("1", "Bob", "hi"), BROADCASTER, NOW, &c);
    on_msg_at(&mut store, &mut state, &msg("2", "Alice", "hi"), BROADCASTER, NOW, &c);
    store.create_category("General", 1, NOW).unwrap();
    store.create_question("ulot", "tolu", 1, 1).unwrap();
    let out = on_msg_at(&mut store, &mut state, &msg("1", "Bob", "!challenge @Alice 10"), BROADCASTER, NOW, &c);
    assert_eq!(
        texts(&out),
        vec!["@Bob Challenge Announced, @Alice type the command '!accept @Bob' to begin duel!"]
    );
    let out = on_msg_at(&mut store, &mut state, &msg("2", "Alice", "!accept"), BROADCASTER, NOW, &c);
    assert_eq!(texts(&out), vec!["@Bob @Alice - format: '!a <answer>' - General: ulot"]);
    let out = on_msg_at(&mut store, &mut state, &msg("2", "Alice", "!repeat"), BROADCASTER, NOW, &c);
    assert_eq!(texts(&out), vec!["@Bob @Alice your question is: ulot"]);
    let out = on_msg_at(&mut store, &mut state, &msg("1", "Bob", "!a Tolu"), BROADCASTER, NOW, &c);
    assert_eq!(texts(&out), vec!["Correct! @Bob won 10 Points & @Alice lost 5 Points!"]);
    assert_eq!(store.duels[0].status, DuelStatus::Completed);
    assert_eq!(get_points(&store, "1"), 5 + 5 + 5 + 10);
    assert_eq!(get_points(&store, "2"), 5 + 5 + 5 - 5);
    let out = on_msg_at(&mut store, &mut state, &msg("1", "Bob", "!kda"), BROADCASTER, NOW, &c);
    assert_eq!(texts(&out), vec!["@Bob has 1 wins and 0 losses!"]);
    let out = on_msg_at(&mut store, &mut state, &msg("1", "Bob", "!top3"), BROADCASTER, NOW, &c);
    assert_eq!(
        texts(&out),
        vec!["Top Duelists:  \u{2b50} 1. Bob - 1 wins \u{2b50} 2. Alice - 0 wins"]
    );
}

#[test]
fn the_dispatcher_hands_chance_to_the_commands() {
    let mut store = town();
    let mut state = State::new();
    store.create_new_pool(NOW);
    let out = on_msg_at(&mut store, &mut state, &msg("1", "Bob", "!gamble 100"), BROADCASTER, NOW, &chance(0, 6, 6));
    assert_eq!(
        texts(&out),
        vec!["Rolling the dice!", "You rolled a 6 and a 6! You win 400 points!"]
    );
    assert_eq!(get_points(&store, "1"), 1405);
    let out = on_msg_at(&mut store, &mut state, &msg("1", "Bob", "!duel random 5"), BROADCASTER, NOW, &chance(1, 1, 1));
    assert_eq!(
        texts(&out),
        vec!["@Bob Challenge Announced, @Tolu type the command '!accept @Bob' to begin duel!"]
    );
    let out = on_msg_at(&mut store, &mut state, &msg("99", "Tolu", "!setpoints Alice 77"), BROADCASTER, NOW, &chance(0, 1, 1));
    assert_eq!(texts(&out), vec!["Points updated!"]);
    assert_eq!(get_points(&store, "2"), 77);
    let out = on_msg_at(&mut store, &mut state, &msg("2", "Alice", "!gift Bob 7"), BROADCASTER, NOW, &chance(0, 1, 1));
    assert_eq!(texts(&out), vec!["@Alice gifted 7 points to @Bob"]);
    let out = on_msg_at(&mut store, &mut state, &msg("2", "Alice", "!pool"), BROADCASTER, NOW + 1_000_000, &chance(0, 1, 1));
    assert_eq!(
        texts(&out),
        vec!["The Loser Pool is currently 0 points! It started 1 second(s) ago"]
    );
    let out = on_msg_at(&mut store, &mut state, &msg("99", "Tolu", "!selectPoolWinner"), BROADCASTER, NOW, &chance(0, 1, 1));
    assert_eq!(texts(&out), vec!["@Bob has won the pool of 0 points!"]);
    for (text, reply) in [
        ("!github", "You can check out ToluAfo's projects at https://github.com/tolu-afo"),
        ("!botrepo", "You can check out my source code at https://github.com/tolu-afo/TTB"),
        ("!lurkers", "Lurkers: None"),
        ("!listcategories", "Categories: None"),
        ("!ranking", "Your ranking is: 2"),
        ("!addquestion x", "Invalid format! Use !addquestion <question> | <answer>"),
        ("!addcategory x", "You don't have enough points to add a category! It costs 50000 points to add a category."),
    ] {
        let out = on_msg_at(&mut store, &mut state, &msg("2", "Alice", text), BROADCASTER, NOW, &chance(0, 1, 1));
        assert_eq!(texts(&out), vec![reply], "{}", text);
    }
}

#[test]
fn the_clock_and_the_dice_are_read_for_a_message() {
    let mut store = town();
    let mut state = State::new();
    store.update_points("1", 1_000_000);
    let mut sums = std::collections::HashSet::new();
    for _ in 0..300 {
        let out = on_msg(&mut store, &mut state, &msg("1", "Bob", "!gamble 0"), BROADCASTER);
        assert_eq!(out.len(), 2);
        assert_eq!(out[0].text, "Rolling the dice!");
        let text = out[1].text.clone();
        if text.starts_with("Snake Eyes!") {
            sums.insert(2);
            continue;
        }
        let words: Vec<&str> = text.split(' ').collect();
        assert_eq!(&words[0..3], &["You", "rolled", "a"]);
        let roll1: i32 = words[3].parse().unwrap();
        let roll2: i32 = words[6].trim_end_matches('!').parse().unwrap();
        assert!((1..=6).contains(&roll1) && (1..=6).contains(&roll2));
        sums.insert(roll1 + roll2);
    }
    assert!(sums.len() > 3);
    let seen = store.get_chatter("1").unwrap().last_seen;
    assert!(seen > 1_600_000_000_000_000);
    assert_eq!(get_points(&store, "1"), 1_000_000 + 300 * 5);

    let out = on_msg(&mut store, &mut state, &msg("1", "Bob", "!yo"), BROADCASTER);
    assert!(responses().contains(&one_reply(&out)));

    store.create_category("General", 1, NOW).unwrap();
    for q in ["q0", "q1", "q2", "q3"] {
        store.create_question(q, "a", 1, 1).unwrap();
    }
    let mut asked = std::collections::HashSet::new();
    for round in 0..60 {
        on_msg(&mut store, &mut state, &msg("1", "Bob", "!duel Alice 0"), BROADCASTER);
        let out = on_msg(&mut store, &mut state, &msg("2", "Alice", "!accept @Bob"), BROADCASTER);
        assert_eq!(out.len(), 1, "round {}", round);
        let question = store.duels.last().unwrap().question.clone().unwrap();
        assert!(["q0", "q1", "q2", "q3"].contains(&question.as_str()));
        asked.insert(question);
        let out = on_msg(&mut store, &mut state, &msg("2", "Alice", "!answer a"), BROADCASTER);
        assert_eq!(out[0].text, "Correct! @Alice won 0 Points & @Bob lost 0 Points!");
    }
    assert!(asked.len() > 1);
}
