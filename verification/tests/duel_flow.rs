use duel_bot::chatter::get_points;
use duel_bot::commands::{
    handle_accept_command, handle_answer_command, handle_duel_command, handle_repeat_command,
    ChatMessage,
};
use duel_bot::db::Store;
use duel_bot::messaging::Outgoing;
use duel_bot::models::DuelStatus;
use duel_bot::state::State;

const NOW: i64 = 1_700_000_000_000_000;
const MINUTE: i64 = 60_000_000;

fn msg(id: &str, name: &str, text: &str) -> ChatMessage {
    ChatMessage {
        sender_id: id.to_string(),
        sender_name: name.to_string(),
        text: text.to_string(),
    }
}

fn texts(out: &Vec<Outgoing>) -> Vec<String> {
    out.iter().map(|m| m.text.clone()).collect()
}

/// Bob (id 1) and Alice (id 2) with 1000 points each, and one question.
fn arena() -> (Store, State) {
    let mut store = Store::new();
    store.create_chatter("1", "Bob", NOW).unwrap();
    store.create_chatter("2", "Alice", NOW).unwrap();
    store.update_points("1", 1000);
    store.update_points("2", 1000);
    let category = store.create_category("Word Scramble", 7, NOW).unwrap();
    store
        .create_question("ulot", "tolu", 7, category.id)
        .unwrap();
    (store, State::new())
}

fn start_duel(store: &mut Store, state: &mut State, wager: &str) {
    let text = format!("!duel Alice {}", wager);
    handle_duel_command(store, state, &msg("1", "Bob", &text), NOW, 0);
    handle_accept_command(store, state, &msg("2", "Alice", "!accept @Bob"), NOW, 0);
}

#[test]
fn challenge_is_announced_and_queued() {
    let (mut store, mut state) = arena();
    let out = handle_duel_command(&mut store, &mut state, &msg("1", "Bob", "!duel @Alice 100"), NOW, 0);
    assert_eq!(
        texts(&out),
        vec!["@Bob Challenge Announced, @Alice type the command '!accept @Bob' to begin duel!"]
    );
    assert!(out[0].reply);
    assert_eq!(store.duels.len(), 1);
    let duel = &store.duels[0];
    assert_eq!(duel.id, 1);
    assert_eq!(duel.points, 100);
    assert_eq!(duel.challenger, "Bob");
    assert_eq!(duel.challenged, "Alice");
    assert_eq!(duel.challenger_id, "1");
    assert_eq!(duel.challenged_id, "2");
    assert_eq!(duel.status, DuelStatus::Challenged);
    assert_eq!(duel.challenger_guesses, 5);
    assert_eq!(duel.challenged_guesses, 5);
    assert_eq!(duel.winner, None);
    assert_eq!(state.duel_cache.len(), 1);
    assert_eq!(state.duel_cache[0].key, "bobalice");
}

#[test]
fn wager_defaults_to_one_hundred() {
    let (mut store, mut state) = arena();
    handle_duel_command(&mut store, &mut state, &msg("1", "Bob", "!duel Alice"), NOW, 0);
    assert_eq!(store.duels[0].points, 100);
}

#[test]
fn wager_above_balance_is_rejected_and_nothing_is_recorded() {
    let (mut store, mut state) = arena();
    let out = handle_duel_command(&mut store, &mut state, &msg("1", "Bob", "!duel Alice 1001"), NOW, 0);
    assert_eq!(
        texts(&out),
        vec!["@Bob Error; You don't have enough points to wager that much!!"]
    );
    assert!(!out[0].reply);
    assert_eq!(store.duels.len(), 0);
    assert_eq!(state.duel_cache.len(), 0);
}

#[test]
fn whole_balance_can_be_wagered() {
    let (mut store, mut state) = arena();
    handle_duel_command(&mut store, &mut state, &msg("1", "Bob", "!duel Alice 1000"), NOW, 0);
    assert_eq!(store.duels.len(), 1);
    assert_eq!(store.duels[0].points, 1000);
}

#[test]
fn self_duel_is_rejected_whatever_the_wager() {
    for text in [
        "!duel Bob",
        "!duel @Bob 0",
        "!duel bob 100",
        "!duel BOB 5000",
        "!duel @bOb nonsense",
        "!duel Bob 1 2 3",
    ] {
        let (mut store, mut state) = arena();
        let out = handle_duel_command(&mut store, &mut state, &msg("1", "Bob", text), NOW, 0);
        assert_eq!(texts(&out), vec!["@Bob Error; You can't duel yourself silly!"]);
        assert_eq!(store.duels.len(), 0);
        assert_eq!(state.duel_cache.len(), 0);
    }
}

#[test]
fn nobody_duels_their_own_account_under_another_name() {
    let (mut store, mut state) = arena();
    let out = handle_duel_command(&mut store, &mut state, &msg("1", "Robert", "!duel Bob 5"), NOW, 0);
    assert_eq!(texts(&out), vec!["@Robert Error; You can't duel yourself silly!"]);
    assert_eq!(store.duels.len(), 0);
    assert_eq!(state.duel_cache.len(), 0);
}

#[test]
fn the_challenger_is_known_by_their_chat_identity() {
    let (mut store, mut state) = arena();
    store.create_chatter("3", "Bob", NOW).unwrap();
    let out = handle_duel_command(&mut store, &mut state, &msg("3", "Bob", "!duel Alice 1"), NOW, 0);
    assert_eq!(
        texts(&out),
        vec!["@Bob Error; You don't have enough points to wager that much!!"]
    );
    let out = handle_duel_command(&mut store, &mut state, &msg("1", "Bobby", "!duel Alice 1000"), NOW, 0);
    assert_eq!(
        texts(&out),
        vec!["@Bobby Challenge Announced, @Alice type the command '!accept @Bobby' to begin duel!"]
    );
    assert_eq!(store.duels[0].challenger, "Bobby");
    assert_eq!(store.duels[0].challenger_id, "1");
    assert_eq!(state.duel_cache[0].key, "bobbyalice");
}

#[test]
fn challenge_needs_an_opponent() {
    let (mut store, mut state) = arena();
    let out = handle_duel_command(&mut store, &mut state, &msg("1", "Bob", "!duel"), NOW, 0);
    assert_eq!(
        texts(&out),
        vec!["@Bob Error; You need to provide a username in the format @<user> <points> or <user> <points>, or you can say 'random' to duel a random user!"]
    );
    assert_eq!(store.duels.len(), 0);
}

#[test]
fn unknown_chatters_are_reported() {
    let (mut store, mut state) = arena();
    let out = handle_duel_command(&mut store, &mut state, &msg("1", "Bob", "!duel Carol 10"), NOW, 0);
    assert_eq!(texts(&out), vec!["@Bob Error; Chatter not found!"]);
    let out = handle_duel_command(&mut store, &mut state, &msg("9", "Zed", "!duel Alice 10"), NOW, 0);
    assert_eq!(texts(&out), vec!["@Zed Error; Chatter not found!"]);
    assert_eq!(store.duels.len(), 0);
}

#[test]
fn malformed_wagers_are_rejected() {
    let (mut store, mut state) = arena();
    let out = handle_duel_command(&mut store, &mut state, &msg("1", "Bob", "!duel Alice -5"), NOW, 0);
    assert_eq!(texts(&out), vec!["@Bob Error; Provide a positive point value."]);
    let out = handle_duel_command(&mut store, &mut state, &msg("1", "Bob", "!duel Alice ten"), NOW, 0);
    assert_eq!(texts(&out), vec!["@Bob Error; Provide a valid point value."]);
    let out = handle_duel_command(&mut store, &mut state, &msg("1", "Bob", "!duel Alice 99999999999"), NOW, 0);
    assert_eq!(texts(&out), vec!["@Bob Error; Provide a valid point value."]);
    let out = handle_duel_command(&mut store, &mut state, &msg("1", "Bob", "!duel Alice 10 20"), NOW, 0);
    assert_eq!(texts(&out), vec!["@Bob Error; Too many arguments!"]);
    let out = handle_duel_command(&mut store, &mut state, &msg("1", "Bob", "!duel Alice  10"), NOW, 0);
    assert_eq!(texts(&out), vec!["@Bob Error; Provide a valid point value."]);
    assert_eq!(store.duels.len(), 0);
    assert_eq!(state.duel_cache.len(), 0);
}

#[test]
fn random_opponent_is_someone_else_seen_lately() {
    let (mut store, mut state) = arena();
    store.create_chatter("3", "Carol", NOW - 31 * MINUTE).unwrap();
    for pick in 0..5 {
        let out = handle_duel_command(&mut store, &mut state, &msg("1", "Bob", "!duel random 1"), NOW, pick);
        assert_eq!(
            texts(&out),
            vec!["@Bob Challenge Announced, @Alice type the command '!accept @Bob' to begin duel!"]
        );
    }
    assert_eq!(store.duels.len(), 5);
    let (mut store, mut state) = arena();
    let out = handle_duel_command(&mut store, &mut state, &msg("1", "Bob", "!duel random 1"), NOW + 31 * MINUTE, 3);
    assert_eq!(texts(&out), vec!["@Bob Error; Chatter not found!"]);
}

#[test]
fn challenges_of_one_pair_are_accepted_first_in_first_out() {
    let (mut store, mut state) = arena();
    handle_duel_command(&mut store, &mut state, &msg("1", "Bob", "!duel Alice 100"), NOW, 0);
    handle_duel_command(&mut store, &mut state, &msg("1", "Bob", "!duel Alice 50"), NOW, 0);
    assert_eq!(state.duel_cache.len(), 2);
    assert_eq!(state.duel_cache[0].key, "bobalice");
    assert_eq!(state.duel_cache[1].key, "bobalice");
    assert_eq!(state.duel_cache[0].duel.points, 100);
    assert_eq!(state.duel_cache[1].duel.points, 50);

    let out = handle_accept_command(&mut store, &mut state, &msg("2", "Alice", "!accept Bob"), NOW, 0);
    assert_eq!(
        texts(&out),
        vec!["@Bob @Alice - format: '!a <answer>' - Word Scramble: ulot"]
    );
    assert_eq!(store.duels[0].points, 100);
    assert_eq!(store.duels[0].status, DuelStatus::Accepted);
    assert_eq!(store.duels[1].points, 50);
    assert_eq!(store.duels[1].status, DuelStatus::Challenged);
    assert_eq!(state.duel_cache.len(), 1);
    assert_eq!(state.duel_cache[0].duel.points, 50);
    assert_eq!(store.accepted_duels.len(), 1);
    assert_eq!(store.accepted_duels[0].duel_id, store.duels[0].id);
}

#[test]
fn accept_without_a_name_takes_the_only_challenge() {
    let (mut store, mut state) = arena();
    handle_duel_command(&mut store, &mut state, &msg("1", "Bob", "!duel Alice 100"), NOW, 0);
    let out = handle_accept_command(&mut store, &mut state, &msg("2", "Alice", "!accept"), NOW, 0);
    assert_eq!(
        texts(&out),
        vec!["@Bob @Alice - format: '!a <answer>' - Word Scramble: ulot"]
    );
    assert_eq!(store.duels[0].status, DuelStatus::Accepted);
    assert_eq!(store.duels[0].question.as_deref(), Some("ulot"));
    assert_eq!(store.duels[0].answer.as_deref(), Some("tolu"));
}

#[test]
fn accept_without_a_name_is_ambiguous_with_two_challenges() {
    let (mut store, mut state) = arena();
    store.create_chatter("3", "Carol", NOW).unwrap();
    handle_duel_command(&mut store, &mut state, &msg("1", "Bob", "!duel Alice 0"), NOW, 0);
    handle_duel_command(&mut store, &mut state, &msg("3", "Carol", "!duel Alice 0"), NOW, 0);
    let out = handle_accept_command(&mut store, &mut state, &msg("2", "Alice", "!accept"), NOW, 0);
    assert_eq!(
        texts(&out),
        vec!["@Alice Error; You have more than one challenge! Provide a username in the format !accept @<user> or !accept <user>"]
    );
    assert_eq!(store.accepted_duels.len(), 0);
    assert_eq!(state.duel_cache.len(), 2);
}

#[test]
fn accept_names_are_matched_without_regard_to_case() {
    let (mut store, mut state) = arena();
    handle_duel_command(&mut store, &mut state, &msg("1", "Bob", "!duel Alice 100"), NOW, 0);
    let out = handle_accept_command(&mut store, &mut state, &msg("2", "Alice", "!accept @bOB"), NOW, 0);
    assert_eq!(out.len(), 1);
    assert_eq!(store.duels[0].status, DuelStatus::Accepted);
}

#[test]
fn accept_of_the_wrong_opponent_is_rejected() {
    let (mut store, mut state) = arena();
    handle_duel_command(&mut store, &mut state, &msg("1", "Bob", "!duel Alice 100"), NOW, 0);
    let out = handle_accept_command(&mut store, &mut state, &msg("2", "Alice", "!accept @Carol"), NOW, 0);
    assert_eq!(texts(&out), vec!["@Alice Error; Wrong opponent!"]);
    let out = handle_accept_command(&mut store, &mut state, &msg("1", "Bob", "!accept @Alice"), NOW, 0);
    assert_eq!(texts(&out), vec!["@Bob Error; Wrong opponent!"]);
    assert_eq!(store.duels[0].status, DuelStatus::Challenged);
    assert_eq!(state.duel_cache.len(), 1);
}

#[test]
fn no_duel_starts_while_the_bank_is_empty() {
    let mut store = Store::new();
    let mut state = State::new();
    store.create_chatter("1", "Bob", NOW).unwrap();
    store.create_chatter("2", "Alice", NOW).unwrap();
    handle_duel_command(&mut store, &mut state, &msg("1", "Bob", "!duel Alice 0"), NOW, 0);
    let out = handle_accept_command(&mut store, &mut state, &msg("2", "Alice", "!accept @Bob"), NOW, 0);
    assert_eq!(texts(&out), vec!["No questions in the database yet!"]);
    assert_eq!(store.duels[0].status, DuelStatus::Challenged);
    assert_eq!(store.accepted_duels.len(), 0);
    assert_eq!(state.duel_cache.len(), 1);
}

#[test]
fn nobody_is_in_two_duels_under_way() {
    let (mut store, mut state) = arena();
    store.create_chatter("3", "Carol", NOW).unwrap();
    handle_duel_command(&mut store, &mut state, &msg("1", "Bob", "!duel Alice 0"), NOW, 0);
    handle_duel_command(&mut store, &mut state, &msg("1", "Bob", "!duel Carol 0"), NOW, 0);
    handle_accept_command(&mut store, &mut state, &msg("2", "Alice", "!accept @Bob"), NOW, 0);
    let out = handle_accept_command(&mut store, &mut state, &msg("3", "Carol", "!accept @Bob"), NOW, 0);
    assert_eq!(texts(&out), vec!["@Carol Error; You already have an accepted duel!"]);
    assert_eq!(store.accepted_duels.len(), 1);
    assert_eq!(store.duels[1].status, DuelStatus::Challenged);
    assert_eq!(state.duel_cache.len(), 1);
}

#[test]
fn right_answer_moves_the_points_and_completes_the_duel() {
    let (mut store, mut state) = arena();
    start_duel(&mut store, &mut state, "200");
    let out = handle_answer_command(&mut store, &msg("2", "Alice", "!answer  ToLu "), NOW);
    assert_eq!(
        texts(&out),
        vec!["Correct! @Alice won 200 Points & @Bob lost 100 Points!"]
    );
    assert!(out[0].reply);
    assert_eq!(get_points(&store, "2"), 1200);
    assert_eq!(get_points(&store, "1"), 900);
    let alice = store.get_chatter("2").unwrap();
    let bob = store.get_chatter("1").unwrap();
    assert_eq!((alice.wins, alice.losses), (1, 0));
    assert_eq!((bob.wins, bob.losses), (0, 1));
    assert_eq!(store.duels[0].status, DuelStatus::Completed);
    assert_eq!(store.duels[0].winner.as_deref(), Some("Alice"));
    assert_eq!(store.accepted_duels.len(), 0);
}

#[test]
fn the_challenger_can_win_too_and_an_odd_wager_is_halved_downwards() {
    let (mut store, mut state) = arena();
    start_duel(&mut store, &mut state, "7");
    let out = handle_answer_command(&mut store, &msg("1", "Bob", "!a tolu"), NOW);
    assert_eq!(texts(&out), vec!["Correct! @Bob won 7 Points & @Alice lost 3 Points!"]);
    assert_eq!(get_points(&store, "1"), 1007);
    assert_eq!(get_points(&store, "2"), 997);
}

#[test]
fn answers_match_exactly_after_trimming_and_lower_casing() {
    let (mut store, mut state) = arena();
    start_duel(&mut store, &mut state, "10");
    for wrong in ["!a tol", "!a tolu!", "!a to lu", "!a", "!a  "] {
        let out = handle_answer_command(&mut store, &msg("1", "Bob", wrong), NOW);
        assert!(out[0].text.starts_with("Incorrect!"), "{}", wrong);
    }
    assert_eq!(store.duels[0].challenger_guesses, 0);
    assert_eq!(store.duels[0].challenged_guesses, 5);
    assert_eq!(store.duels[0].status, DuelStatus::Accepted);
}

#[test]
fn wrong_answer_costs_only_the_own_guess() {
    let (mut store, mut state) = arena();
    start_duel(&mut store, &mut state, "10");
    let out = handle_answer_command(&mut store, &msg("1", "Bob", "!answer nope"), NOW);
    assert_eq!(
        texts(&out),
        vec!["Incorrect! @Bob you have 4 guesses remaining! type '!repeat' to repeat the question"]
    );
    assert_eq!(store.duels[0].challenger_guesses, 4);
    assert_eq!(store.duels[0].challenged_guesses, 5);
    let out = handle_answer_command(&mut store, &msg("2", "Alice", "!answer nope"), NOW);
    assert_eq!(
        texts(&out),
        vec!["Incorrect! @Alice you have 4 guesses remaining! type '!repeat' to repeat the question"]
    );
    assert_eq!(store.duels[0].challenger_guesses, 4);
    assert_eq!(store.duels[0].challenged_guesses, 4);
    assert_eq!(get_points(&store, "1"), 1000);
    assert_eq!(get_points(&store, "2"), 1000);
}

#[test]
fn five_wrong_answers_from_each_side_end_the_duel_without_a_winner() {
    let (mut store, mut state) = arena();
    start_duel(&mut store, &mut state, "200");
    for round in 0..5 {
        let out = handle_answer_command(&mut store, &msg("1", "Bob", "!answer no"), NOW);
        assert_eq!(out.len(), 1);
        if round == 4 {
            assert_eq!(texts(&out), vec!["Incorrect! @Bob you are out of guesses!"]);
        }
        assert_eq!(store.duels[0].status, DuelStatus::Accepted);
    }
    for round in 0..5 {
        assert_eq!(store.duels[0].status, DuelStatus::Accepted);
        let out = handle_answer_command(&mut store, &msg("2", "Alice", "!answer no"), NOW);
        if round == 4 {
            assert_eq!(
                texts(&out),
                vec![
                    "Incorrect! @Alice you are out of guesses!",
                    "Both players have exhausted their guesses! The duel is over! Both @Bob and @Alice lose 100 points! The correct answer was tolu",
                ]
            );
        } else {
            assert_eq!(out.len(), 1);
        }
    }
    assert_eq!(store.duels[0].status, DuelStatus::Completed);
    assert_eq!(store.duels[0].winner, None);
    assert_eq!(store.duels[0].challenger_guesses, 0);
    assert_eq!(store.duels[0].challenged_guesses, 0);
    assert_eq!(get_points(&store, "1"), 900);
    assert_eq!(get_points(&store, "2"), 900);
    let bob = store.get_chatter("1").unwrap();
    assert_eq!((bob.wins, bob.losses), (0, 0));
    assert_eq!(store.accepted_duels.len(), 0);
}

#[test]
fn a_side_without_guesses_is_told_so_and_ignored() {
    let (mut store, mut state) = arena();
    start_duel(&mut store, &mut state, "200");
    for _ in 0..5 {
        handle_answer_command(&mut store, &msg("1", "Bob", "!answer no"), NOW);
    }
    let out = handle_answer_command(&mut store, &msg("1", "Bob", "!answer tolu"), NOW);
    assert_eq!(texts(&out), vec!["@Bob you are out of guesses!"]);
    assert_eq!(store.duels[0].status, DuelStatus::Accepted);
    assert_eq!(store.duels[0].challenger_guesses, 0);
    assert_eq!(get_points(&store, "1"), 1000);
    let out = handle_answer_command(&mut store, &msg("2", "Alice", "!answer tolu"), NOW);
    assert_eq!(texts(&out), vec!["Correct! @Alice won 200 Points & @Bob lost 100 Points!"]);
}

#[test]
fn outsiders_have_no_duel() {
    let (mut store, mut state) = arena();
    store.create_chatter("3", "Carol", NOW).unwrap();
    start_duel(&mut store, &mut state, "200");
    let out = handle_answer_command(&mut store, &msg("3", "Carol", "!answer tolu"), NOW);
    assert_eq!(texts(&out), vec!["@Carol Error; No duel found!"]);
    assert!(!out[0].reply);
    let out = handle_repeat_command(&store, &msg("3", "Carol", "!repeat"));
    assert_eq!(texts(&out), vec!["@Carol Error; No duel found!"]);
    assert_eq!(store.duels[0].status, DuelStatus::Accepted);
}

#[test]
fn a_completed_duel_takes_no_further_answers() {
    let (mut store, mut state) = arena();
    start_duel(&mut store, &mut state, "200");
    handle_answer_command(&mut store, &msg("2", "Alice", "!answer tolu"), NOW);
    let out = handle_answer_command(&mut store, &msg("1", "Bob", "!answer tolu"), NOW);
    assert_eq!(texts(&out), vec!["@Bob Error; No duel found!"]);
    assert_eq!(get_points(&store, "2"), 1200);
    assert_eq!(get_points(&store, "1"), 900);
    assert_eq!(store.duels[0].winner.as_deref(), Some("Alice"));
}

#[test]
fn repeat_says_the_same_question_twice_and_changes_nothing() {
    let (mut store, mut state) = arena();
    let category = store.categories[0].id;
    store.create_question("lopo", "pool", 7, category).unwrap();
    start_duel(&mut store, &mut state, "200");
    let duels = format!("{:?}", store.duels);
    let rows = format!("{:?}", store.accepted_duels);
    let first = handle_repeat_command(&store, &msg("1", "Bob", "!repeat"));
    let second = handle_repeat_command(&store, &msg("1", "Bob", "!repeat"));
    assert_eq!(texts(&first), vec!["@Bob @Alice your question is: ulot"]);
    assert_eq!(first[0].text.as_bytes(), second[0].text.as_bytes());
    assert_eq!(first[0].reply, second[0].reply);
    let third = handle_repeat_command(&store, &msg("2", "Alice", "!repeat"));
    assert_eq!(texts(&third), texts(&first));
    assert_eq!(duels, format!("{:?}", store.duels));
    assert_eq!(rows, format!("{:?}", store.accepted_duels));
    let copy = store.get_duel(1).unwrap();
    assert_eq!(
        copy.repeat_question().unwrap().text,
        copy.repeat_question().unwrap().text
    );
}

#[test]
fn a_duel_under_way_blocks_a_new_challenge_until_it_is_stale() {
    let (mut store, mut state) = arena();
    store.create_chatter("3", "Carol", NOW).unwrap();
    start_duel(&mut store, &mut state, "200");
    let later = NOW + 10 * MINUTE;
    let out = handle_duel_command(&mut store, &mut state, &msg("1", "Bob", "!duel Carol 10"), later, 0);
    assert_eq!(texts(&out), vec!["@Bob Error; You already have an accepted duel!"]);
    assert_eq!(store.duels.len(), 1);
    assert_eq!(store.duels[0].status, DuelStatus::Accepted);

    let out = handle_duel_command(&mut store, &mut state, &msg("1", "Bob", "!duel Carol 10"), later + 1, 0);
    assert_eq!(
        texts(&out),
        vec!["@Bob Challenge Announced, @Carol type the command '!accept @Bob' to begin duel!"]
    );
    assert_eq!(store.duels[0].status, DuelStatus::Completed);
    assert_eq!(store.duels[0].winner, None);
    assert_eq!(store.accepted_duels.len(), 0);
    assert_eq!(get_points(&store, "1"), 1000);
    assert_eq!(get_points(&store, "2"), 1000);
    assert_eq!(store.duels.len(), 2);
    assert_eq!(store.duels[1].status, DuelStatus::Challenged);
    assert_eq!(store.duels[1].challenged, "Carol");
    assert_eq!(state.duel_cache.len(), 1);
    assert_eq!(state.duel_cache[0].key, "bobcarol");
}

#[test]
fn a_stale_duel_is_swept_even_when_the_new_challenge_fails() {
    let (mut store, mut state) = arena();
    start_duel(&mut store, &mut state, "200");
    let later = NOW + 11 * MINUTE;
    let out = handle_duel_command(&mut store, &mut state, &msg("1", "Bob", "!duel Alice 5000"), later, 0);
    assert_eq!(
        texts(&out),
        vec!["@Bob Error; You don't have enough points to wager that much!!"]
    );
    assert_eq!(store.duels.len(), 1);
    assert_eq!(store.duels[0].status, DuelStatus::Completed);
    assert_eq!(store.accepted_duels.len(), 0);
}

/// Whether every row among the duels under way belongs to a duel that is
/// under way, every duel under way has its row, and every queued challenge
/// awaits acceptance in the store.
fn fits(store: &Store, state: &State) -> bool {
    let rows_fit = store.accepted_duels.iter().all(|row| {
        store.duels.iter().any(|d| {
            d.id == row.duel_id
                && d.status == DuelStatus::Accepted
                && d.challenger_id == row.challenger_id
                && d.challenged_id == row.challenged_id
        })
    });
    let duels_fit = store
        .duels
        .iter()
        .filter(|d| d.status == DuelStatus::Accepted)
        .all(|d| store.accepted_duels.iter().any(|row| row.duel_id == d.id));
    let queue_fits = state.duel_cache.iter().all(|e| {
        store
            .duels
            .iter()
            .any(|d| d.id == e.duel.id && d.status == DuelStatus::Challenged)
    });
    rows_fit && duels_fit && queue_fits
}

#[test]
fn store_and_index_fit_together_after_every_message() {
    let (mut store, mut state) = arena();
    store.create_chatter("3", "Carol", NOW).unwrap();
    store.update_points("3", 500);
    let script: [(&str, &str, &str, i64); 16] = [
        ("1", "Bob", "!duel Alice 100", 0),
        ("1", "Bob", "!duel Alice 50", 0),
        ("3", "Carol", "!duel Alice 10", 0),
        ("2", "Alice", "!accept", 0),
        ("2", "Alice", "!accept @Bob", 1),
        ("2", "Alice", "!accept @Carol", 1),
        ("1", "Bob", "!answer wrong", 2),
        ("2", "Alice", "!repeat", 2),
        ("3", "Carol", "!duel Bob 5", 3),
        ("1", "Bob", "!duel Carol 5", 3),
        ("1", "Bob", "!duel Carol 5", 12),
        ("3", "Carol", "!accept Bob", 12),
        ("3", "Carol", "!a tolu", 12),
        ("2", "Alice", "!accept @Bob", 12),
        ("2", "Alice", "!a tolu", 13),
        ("2", "Alice", "!accept @Carol", 13),
    ];
    assert!(fits(&store, &state));
    for (id, name, text, minute) in script {
        let now = NOW + minute * MINUTE;
        let m = msg(id, name, text);
        if text.starts_with("!duel") {
            handle_duel_command(&mut store, &mut state, &m, now, 0);
        } else if text.starts_with("!accept") {
            handle_accept_command(&mut store, &mut state, &m, now, 0);
        } else if text.starts_with("!repeat") {
            handle_repeat_command(&store, &m);
        } else {
            handle_answer_command(&mut store, &m, now);
        }
        assert!(fits(&store, &state), "{}: {}", name, text);
        assert!(store.is_valid(), "{}: {}", name, text);
    }
    assert_eq!(store.duels.len(), 5);
    let statuses: Vec<DuelStatus> = store.duels.iter().map(|d| d.status).collect();
    assert_eq!(
        statuses,
        vec![
            DuelStatus::Completed,
            DuelStatus::Completed,
            DuelStatus::Accepted,
            DuelStatus::Challenged,
            DuelStatus::Completed,
        ]
    );
    assert_eq!(store.duels[0].winner, None);
    assert_eq!(store.duels[1].winner.as_deref(), Some("Alice"));
    assert_eq!(store.duels[4].winner.as_deref(), Some("Carol"));
    assert_eq!(state.duel_cache.len(), 1);
    assert_eq!(state.duel_cache[0].key, "carolbob");
}

#[test]
fn sweeping_a_stale_duel_leaves_the_queue_of_its_pair_alone() {
    let (mut store, mut state) = arena();
    handle_duel_command(&mut store, &mut state, &msg("1", "Bob", "!duel Alice 100"), NOW, 0);
    handle_duel_command(&mut store, &mut state, &msg("1", "Bob", "!duel Alice 50"), NOW, 0);
    handle_accept_command(&mut store, &mut state, &msg("2", "Alice", "!accept @Bob"), NOW, 0);
    assert_eq!(state.duel_cache.len(), 1);
    let later = NOW + 11 * MINUTE;
    handle_duel_command(&mut store, &mut state, &msg("2", "Alice", "!duel Bob 1"), later, 0);
    assert_eq!(store.duels[0].status, DuelStatus::Completed);
    assert_eq!(state.duel_cache.len(), 2);
    let out = handle_accept_command(&mut store, &mut state, &msg("2", "Alice", "!accept @Bob"), later, 0);
    assert_eq!(
        texts(&out),
        vec!["@Bob @Alice - format: '!a <answer>' - Word Scramble: ulot"]
    );
    assert_eq!(store.duels[1].status, DuelStatus::Accepted);
    assert_eq!(store.duels[1].points, 50);
}
