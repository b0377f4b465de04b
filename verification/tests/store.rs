use duel_bot::content::question::Question as FixedQuestion;
use duel_bot::db::{Store, StoreError};
use duel_bot::duel::normalize;
use duel_bot::models::{
    AcceptedDuel, Category, Chatter, Duel, DuelStatus, LosersPool, Question,
};
use duel_bot::seed::{questions, seed_initial_data, QuestionKind};
use duel_bot::state::State;

const NOW: i64 = 1_700_000_000_000_000;

fn chatter(id: i32, twitch_id: &str, points: i64) -> Chatter {
    Chatter {
        id,
        twitch_id: twitch_id.to_string(),
        username: format!("user{}", twitch_id),
        points,
        wins: 0,
        losses: 0,
        last_seen: NOW,
        lurk_time: 0,
    }
}

#[test]
fn chatters_are_numbered_and_unique() {
    let mut store = Store::new();
    let bob = store.create_chatter("11", "Bob", NOW).unwrap();
    assert_eq!(bob.id, 1);
    assert_eq!(bob.twitch_id, "11");
    assert_eq!(bob.username, "Bob");
    assert_eq!((bob.points, bob.wins, bob.losses, bob.lurk_time), (0, 0, 0, 0));
    assert_eq!(bob.last_seen, NOW);
    let alice = store.create_chatter("22", "Alice", NOW).unwrap();
    assert_eq!(alice.id, 2);
    assert_eq!(store.create_chatter("11", "Other", NOW).err(), Some(StoreError::Duplicate));
    assert_eq!(store.chatters.len(), 2);
    assert_eq!(store.get_chatter("22").unwrap().username, "Alice");
    assert!(store.get_chatter("33").is_none());
    assert_eq!(store.get_chatter_by_username("Bob").unwrap().twitch_id, "11");
    assert!(store.get_chatter_by_username("bob").is_none());
    assert_eq!(store.find_chatter("22"), Some(1));
    assert_eq!(store.find_chatter_by_username("Alice"), Some(1));
}

#[test]
fn identifiers_run_out_without_a_panic() {
    let mut store = Store::new();
    store.chatters.push(chatter(i32::MAX, "1", 0));
    assert!(store.is_valid());
    assert_eq!(store.create_chatter("2", "Bob", NOW).err(), Some(StoreError::Full));
    assert_eq!(
        store.record_user_presence("2", "Bob", NOW).err(),
        Some(StoreError::Full)
    );
    assert_eq!(store.chatters.len(), 1);
}

#[test]
fn presence_creates_or_refreshes_the_chatter() {
    let mut store = Store::new();
    let created = store.record_user_presence("1", "Bob", NOW).unwrap();
    assert_eq!(created.username, "Bob");
    assert_eq!(store.chatters.len(), 1);
    let before = store.record_user_presence("1", "Bobby", NOW + 7).unwrap();
    assert_eq!(before.username, "Bob");
    assert_eq!(before.last_seen, NOW);
    assert_eq!(store.chatters.len(), 1);
    assert_eq!(store.chatters[0].username, "Bobby");
    assert_eq!(store.chatters[0].last_seen, NOW + 7);
    assert_eq!(store.chatters[0].id, 1);
}

#[test]
fn a_duel_moves_forward_only() {
    let mut store = Store::new();
    let duel = store.create_duel("Bob", "Alice", "1", "2", 50, NOW).unwrap();
    assert_eq!(duel.id, 1);
    assert_eq!(duel.created_at, NOW);
    assert_eq!(duel.updated_at, NOW);
    assert!(!store.decrement_guesses(1, true, NOW));
    assert!(!store.set_question_duel(1, "q", "a", NOW));
    assert!(!store.complete_duel(1, None, NOW));
    assert_eq!(store.duels[0].status, DuelStatus::Challenged);

    assert!(store.accept_duel(1, NOW + 1));
    assert!(!store.accept_duel(1, NOW + 2));
    assert_eq!(store.duels[0].status, DuelStatus::Accepted);
    assert_eq!(store.duels[0].updated_at, NOW + 1);

    assert!(store.set_question_duel(1, "q", "a", NOW + 3));
    assert!(!store.set_question_duel(1, "q2", "a2", NOW + 4));
    assert_eq!(store.duels[0].question.as_deref(), Some("q"));
    assert_eq!(store.duels[0].answer.as_deref(), Some("a"));

    for left in (0..5).rev() {
        assert!(store.decrement_guesses(1, false, NOW + 5));
        assert_eq!(store.duels[0].challenged_guesses, left);
    }
    assert!(!store.decrement_guesses(1, false, NOW + 5));
    assert_eq!(store.duels[0].challenged_guesses, 0);
    assert_eq!(store.duels[0].challenger_guesses, 5);

    assert!(store.complete_duel(1, Some("Bob"), NOW + 6));
    assert_eq!(store.duels[0].status, DuelStatus::Completed);
    assert_eq!(store.duels[0].winner.as_deref(), Some("Bob"));
    assert!(!store.complete_duel(1, None, NOW + 7));
    assert!(!store.accept_duel(1, NOW + 7));
    assert!(!store.decrement_guesses(1, true, NOW + 7));
    assert_eq!(store.duels[0].winner.as_deref(), Some("Bob"));
    assert_eq!(store.duels[0].status, DuelStatus::Completed);
    assert_eq!(store.duels[0].points, 50);
    assert_eq!(store.duels[0].updated_at, NOW + 6);

    assert!(!store.accept_duel(9, NOW));
    assert!(store.get_duel(9).is_none());
    assert_eq!(store.get_duel(1).unwrap().challenger, "Bob");
}

#[test]
fn nobody_has_two_rows_among_the_duels_under_way() {
    let mut store = Store::new();
    let row = store.create_accepted_duel(1, "a", "b", NOW).unwrap();
    assert_eq!((row.id, row.duel_id), (1, 1));
    assert_eq!(row.created_at, Some(NOW));
    assert_eq!(store.create_accepted_duel(2, "a", "c", NOW).err(), Some(StoreError::Duplicate));
    assert_eq!(store.create_accepted_duel(2, "c", "a", NOW).err(), Some(StoreError::Duplicate));
    assert_eq!(store.create_accepted_duel(2, "b", "c", NOW).err(), Some(StoreError::Duplicate));
    assert_eq!(store.create_accepted_duel(1, "c", "d", NOW).err(), Some(StoreError::Duplicate));
    assert!(store.create_accepted_duel(2, "c", "d", NOW).is_ok());
    assert_eq!(store.get_accepted_duel("b").unwrap().duel_id, 1);
    assert_eq!(store.get_accepted_duel("c").unwrap().duel_id, 2);
    assert!(store.get_accepted_duel("e").is_none());
    store.destroy_accepted_duel(1);
    assert!(store.get_accepted_duel("a").is_none());
    assert!(store.get_accepted_duel("b").is_none());
    assert_eq!(store.accepted_duels.len(), 1);
    store.destroy_accepted_duel(7);
    assert_eq!(store.accepted_duels.len(), 1);
    assert_eq!(store.create_accepted_duel(3, "a", "b", NOW).unwrap().id, 3);
}

#[test]
fn questions_belong_to_categories_that_exist() {
    let mut store = Store::new();
    assert_eq!(
        store.create_question("q", "a", 7, 1).err(),
        Some(StoreError::Missing)
    );
    let general = store.create_category("General", 7, NOW).unwrap();
    assert_eq!(general.id, 1);
    let other = store.create_category("Other", 7, NOW).unwrap();
    assert_eq!(other.id, 2);
    let q = store.create_question("q", "a", 7, 2).unwrap();
    assert_eq!((q.id, q.category_id, q.submitter_id), (1, 2, 7));
    assert_eq!((q.times_asked, q.times_not_answered), (0, 0));
    assert_eq!(store.get_category(2).unwrap().name, "Other");
    assert!(store.get_category(3).is_none());
    assert_eq!(store.get_category_by_name("Other").unwrap().id, 2);
    assert!(store.get_category_by_name("other").is_none());
    assert_eq!(store._get_general_category().unwrap().id, 1);
    assert_eq!(store.get_categories().len(), 2);
    assert_eq!(store.get_questions().len(), 1);
    assert_eq!(store._get_question(1).unwrap().question, "q");
    assert!(store._get_question(2).is_none());
    assert_eq!(store.category_label(2), "Other");
    assert_eq!(store.category_label(9), "General");

    store.update_times_asked(1, 3);
    store.update_times_not_answered(1);
    store.update_times_not_answered(1);
    assert_eq!(store.questions[0].times_asked, 3);
    assert_eq!(store.questions[0].times_not_answered, 2);
    let mut copy = store._get_question(1).unwrap();
    copy.increment_times_asked(&mut store);
    assert_eq!(copy.times_asked, 4);
    assert_eq!(store.questions[0].times_asked, 4);
    copy.increment_times_not_answered(&mut store);
    assert_eq!(store.questions[0].times_not_answered, 3);
    assert_eq!(copy.display_question_kind(&store), "Other");
}

#[test]
fn a_question_records_the_number_of_its_submitter() {
    let mut store = Store::new();
    let category = store.create_category("General", 7, NOW).unwrap();
    let bob = store.create_chatter("1234", "Bob", NOW).unwrap();
    let named = store.create_chatter("bob", "Bob", NOW).unwrap();
    let q = Question::new(&mut store, "q", "a", &category, &bob).unwrap();
    assert_eq!(q.submitter_id, 1234);
    assert_eq!(q.category_id, category.id);
    assert_eq!(
        Question::new(&mut store, "q", "a", &category, &named).err(),
        Some(StoreError::Invalid)
    );
    assert_eq!(store.questions.len(), 1);
}

#[test]
fn the_question_is_picked_by_the_number_drawn() {
    let mut store = Store::new();
    assert!(store.pick_question(5).is_none());
    store.create_category("General", 7, NOW).unwrap();
    for q in ["q0", "q1", "q2"] {
        store.create_question(q, "a", 7, 1).unwrap();
    }
    assert_eq!(store.pick_question(0).unwrap().question, "q0");
    assert_eq!(store.pick_question(2).unwrap().question, "q2");
    assert_eq!(store.pick_question(3).unwrap().question, "q0");
    assert_eq!(store.pick_question(usize::MAX).unwrap().question, format!("q{}", usize::MAX % 3));
    let mut drawn = std::collections::HashSet::new();
    for _ in 0..200 {
        drawn.insert(store.get_random_question().unwrap().question);
    }
    assert_eq!(drawn.len(), 3);
    assert!(Store::new().get_random_question().is_none());
}

#[test]
fn lurkers_come_and_go() {
    let mut store = Store::new();
    assert!(store.create_lurker("Bob", "1", NOW));
    assert!(store.create_lurker("Alice", "2", NOW + 1));
    assert!(store.create_lurker("Bob", "1", NOW + 2));
    assert_eq!(store.get_lurkers().len(), 3);
    let bob = store.get_lurker("1").unwrap();
    assert_eq!((bob.id, bob.created_at), (1, Some(NOW)));
    assert_eq!(bob.username, "Bob");
    store.delete_lurker("1");
    assert!(store.get_lurker("1").is_none());
    assert_eq!(store.get_lurkers().len(), 1);
    assert_eq!(store.get_lurkers()[0].username, "Alice");
    store.delete_lurker("9");
    assert_eq!(store.lurkers.len(), 1);
}

#[test]
fn the_current_pool_is_the_youngest_undrawn_one() {
    let mut store = Store::new();
    assert!(store.get_current_pool().is_none());
    store.add_pool_points(5);
    assert!(store.create_new_pool(NOW));
    store.add_pool_points(5);
    store.add_pool_points(7);
    let pool = store.get_current_pool().unwrap();
    assert_eq!((pool.id, pool.amount, pool.winner, pool.created_at), (1, 12, None, NOW));
    store.add_pool_points(i64::MAX);
    assert_eq!(store.get_current_pool().unwrap().amount, 12);
    assert!(store.create_new_pool(NOW + 1));
    assert_eq!(store.get_current_pool().unwrap().id, 2);
    store.update_pool_winner(2, 42);
    assert_eq!(store.pools[1].winner, Some(42));
    assert_eq!(store.get_current_pool().unwrap().id, 1);
    store.update_pool_winner(1, 43);
    assert!(store.get_current_pool().is_none());
    store.update_pool_winner(9, 1);
    assert_eq!(store.pools.len(), 2);
}

#[test]
fn chatters_are_ranked_by_balance() {
    let mut store = Store::new();
    for (id, points) in [("1", 50), ("2", 100), ("3", 50), ("4", 0), ("5", 100)] {
        store.create_chatter(id, id, NOW).unwrap();
        store.update_points(id, points);
    }
    assert_eq!(store.get_ranking("2"), Some(1));
    assert_eq!(store.get_ranking("5"), Some(2));
    assert_eq!(store.get_ranking("1"), Some(3));
    assert_eq!(store.get_ranking("3"), Some(4));
    assert_eq!(store.get_ranking("4"), Some(5));
    assert_eq!(store.get_ranking("6"), None);
}

#[test]
fn the_three_best_duelists_are_listed_best_first() {
    let mut store = Store::new();
    assert_eq!(store.get_top_duelists().len(), 0);
    for (id, wins) in [("1", 2), ("2", 7), ("3", 2), ("4", 9), ("5", 7)] {
        store.create_chatter(id, id, NOW).unwrap();
        store.update_wins(id, wins);
    }
    let best: Vec<String> = store
        .get_top_duelists()
        .iter()
        .map(|c| c.twitch_id.clone())
        .collect();
    assert_eq!(best, vec!["4", "2", "5"]);
    assert_eq!(store.chatters.len(), 5);
    let mut two = Store::new();
    two.create_chatter("1", "a", NOW).unwrap();
    two.create_chatter("2", "b", NOW).unwrap();
    let best: Vec<String> = two.get_top_duelists().iter().map(|c| c.twitch_id.clone()).collect();
    assert_eq!(best, vec!["1", "2"]);
}

#[test]
fn a_random_opponent_is_picked_among_the_active_others() {
    let mut store = Store::new();
    let me = store.create_chatter("1", "me", NOW).unwrap();
    assert!(store.get_random_chatter(&me, NOW, 0).is_none());
    store.create_chatter("2", "old", NOW - 1_800_000_000).unwrap();
    assert!(store.get_random_chatter(&me, NOW, 0).is_none());
    store.create_chatter("3", "a", NOW - 1_799_999_999).unwrap();
    store.create_chatter("4", "b", NOW).unwrap();
    assert_eq!(store.get_random_chatter(&me, NOW, 0).unwrap().username, "a");
    assert_eq!(store.get_random_chatter(&me, NOW, 1).unwrap().username, "b");
    assert_eq!(store.get_random_chatter(&me, NOW, 2).unwrap().username, "a");
    assert_eq!(store.get_random_chatter(&me, i64::MIN, 6).unwrap().username, "old");
    assert_eq!(store.get_random_chatter(&me, i64::MIN, 7).unwrap().username, "a");
}

#[test]
fn validity_is_checked_table_by_table() {
    let mut store = Store::new();
    assert!(store.is_valid());
    store.chatters.push(chatter(1, "a", 0));
    store.chatters.push(chatter(2, "b", -1000));
    assert!(store.is_valid());

    let mut broken = Store::new();
    broken.chatters.push(chatter(1, "a", -1001));
    assert!(!broken.is_valid());
    assert!(!broken.chatters_valid());

    let mut broken = Store::new();
    broken.chatters.push(chatter(1, "a", 0));
    broken.chatters.push(chatter(2, "a", 0));
    assert!(!broken.is_valid());

    let mut broken = Store::new();
    broken.chatters.push(chatter(2, "a", 0));
    broken.chatters.push(chatter(2, "b", 0));
    assert!(!broken.is_valid());

    let duel = |id: i32, points: i64, guesses: i32| Duel {
        id,
        points,
        challenger: "a".to_string(),
        challenged: "b".to_string(),
        winner: None,
        status: DuelStatus::Challenged,
        created_at: NOW,
        updated_at: NOW,
        question: None,
        answer: None,
        challenger_id: "1".to_string(),
        challenged_id: "2".to_string(),
        challenger_guesses: guesses,
        challenged_guesses: 5,
    };
    let mut s = Store::new();
    s.duels.push(duel(1, 0, 5));
    s.duels.push(duel(5, 10, 0));
    assert!(s.is_valid());
    s.duels.push(duel(3, 10, 0));
    assert!(!s.duels_valid());
    let mut s = Store::new();
    s.duels.push(duel(1, -1, 5));
    assert!(!s.is_valid());
    let mut s = Store::new();
    s.duels.push(duel(1, 1, -1));
    assert!(!s.is_valid());
    let mut s = Store::new();
    let mut alone = duel(1, 1, 5);
    alone.challenged_id = "1".to_string();
    s.duels.push(alone);
    assert!(!s.duels_valid());

    let row = |id: i32, duel_id: i32, a: &str, b: &str| AcceptedDuel {
        id,
        duel_id,
        challenger_id: a.to_string(),
        challenged_id: b.to_string(),
        created_at: None,
    };
    let mut s = Store::new();
    s.accepted_duels.push(row(1, 1, "a", "b"));
    s.accepted_duels.push(row(2, 2, "c", "d"));
    assert!(s.is_valid());
    s.accepted_duels.push(row(3, 3, "e", "a"));
    assert!(!s.accepted_valid());
    let mut s = Store::new();
    s.accepted_duels.push(row(1, 1, "a", "b"));
    s.accepted_duels.push(row(2, 1, "c", "d"));
    assert!(!s.is_valid());

    let mut s = Store::new();
    s.questions.push(Question {
        id: 1,
        question: "q".to_string(),
        answer: "a".to_string(),
        category_id: 1,
        submitter_id: 1,
        times_asked: 0,
        times_not_answered: 0,
    });
    assert!(!s.questions_valid());
    assert!(!s.is_valid());
    s.categories.push(Category {
        id: 1,
        name: "General".to_string(),
        submitter_id: 1,
        created_at: NOW,
    });
    assert!(s.is_valid());
    s.categories.push(Category {
        id: 1,
        name: "Twice".to_string(),
        submitter_id: 1,
        created_at: NOW,
    });
    assert!(!s.categories_valid());
    s.categories.pop();
    s.pools.push(LosersPool { id: 2, amount: 0, winner: None, created_at: NOW });
    s.pools.push(LosersPool { id: 1, amount: 0, winner: None, created_at: NOW });
    assert!(!s.pools_valid());
    assert!(!s.is_valid());
}

#[test]
fn the_index_queues_per_pair_and_pops_the_oldest() {
    let mut store = Store::new();
    let mut state = State::new();
    let first = store.create_duel("Bob", "Alice", "1", "2", 100, NOW).unwrap();
    let second = store.create_duel("BOB", "alice", "1", "2", 50, NOW).unwrap();
    let other = store.create_duel("Alice", "Bob", "2", "1", 25, NOW).unwrap();
    state.save_duel(&first);
    state.save_duel(&other);
    state.save_duel(&second);
    assert_eq!(state.duel_cache.len(), 3);
    assert_eq!(state.find_front("bobalice"), Some(0));
    assert_eq!(state.find_front("alicebob"), Some(1));
    assert_eq!(state.find_front("BobAlice"), None);
    assert_eq!(state.peek("bobalice").unwrap().points, 100);
    assert_eq!(state.duel_cache.len(), 3);
    assert!(state.get_duel(&"nobody".to_string()).is_none());
    assert_eq!(state.get_duel(&"bobalice".to_string()).unwrap().points, 100);
    assert_eq!(state.get_duel(&"bobalice".to_string()).unwrap().points, 50);
    assert!(state.get_duel(&"bobalice".to_string()).is_none());
    assert_eq!(state.duel_cache.len(), 1);
    assert!(state.clear_duel(&other));
    assert!(!state.clear_duel(&other));
    assert_eq!(state.duel_cache.len(), 0);
}

#[test]
fn seeding_fills_an_empty_bank_once() {
    let mut store = Store::new();
    seed_initial_data(&mut store, 7, NOW);
    let names: Vec<String> = store.categories.iter().map(|c| c.name.clone()).collect();
    assert_eq!(
        names,
        vec![
            "Guess the Programming Language",
            "Guess the Movie by the Quote",
            "Word Scramble",
            "General"
        ]
    );
    assert_eq!(store.categories.iter().map(|c| c.id).collect::<Vec<i32>>(), vec![1, 2, 3, 4]);
    assert!(store.categories.iter().all(|c| c.submitter_id == 7));
    assert_eq!(store.questions.len(), 44);
    assert_eq!(store.questions[0].question, "cant do a for loop");
    assert_eq!(store.questions[0].answer, "python");
    assert_eq!(store.questions[0].category_id, 1);
    assert_eq!(store.questions[27].answer, "racket");
    assert_eq!(store.questions[31].question, "May the Force be with you");
    assert_eq!(store.questions[31].category_id, 2);
    assert_eq!(store.questions[37].answer, "the walking dead");
    assert_eq!(store.questions[43].question, "algansa");
    assert_eq!(store.questions[43].answer, "lasagna");
    assert_eq!(store.questions[43].category_id, 3);
    assert_eq!(store.questions[43].id, 44);
    assert!(store.questions.iter().all(|q| q.submitter_id == 7));
    assert!(store.is_valid());

    seed_initial_data(&mut store, 8, NOW);
    assert_eq!(store.categories.len(), 4);
    assert_eq!(store.questions.len(), 44);

    let table = questions();
    assert_eq!(table.len(), 44);
    assert_eq!(table.iter().filter(|q| q.kind == QuestionKind::ProgLang).count(), 31);
    assert_eq!(table.iter().filter(|q| q.kind == QuestionKind::MovieQuote).count(), 8);
    assert_eq!(table.iter().filter(|q| q.kind == QuestionKind::Scramble).count(), 5);
    assert_eq!(table.iter().filter(|q| q.kind == QuestionKind::General).count(), 0);
}

#[test]
fn seeding_questions_needs_their_categories() {
    let mut store = Store::new();
    store.create_category("Only One", 1, NOW).unwrap();
    seed_initial_data(&mut store, 7, NOW);
    assert_eq!(store.categories.len(), 1);
    assert_eq!(store.questions.len(), 31);
    assert!(store.questions.iter().all(|q| q.category_id == 1));
}

#[test]
fn the_fixed_questions_are_picked_by_number_or_at_random() {
    let first = FixedQuestion::picked(0);
    assert_eq!((first.q, first.a), ("cant do a for loop", "python"));
    let wrapped = FixedQuestion::picked(44 + 27);
    assert_eq!(wrapped.a, "racket ");
    assert_eq!(FixedQuestion::picked(37).a, "walking dead");
    assert_eq!(FixedQuestion::picked(43).a, "lasagna");
    let all = duel_bot::content::question::questions();
    assert_eq!(all.len(), 44);
    for _ in 0..50 {
        let q = FixedQuestion::randomized();
        assert!(all.iter().any(|x| x.q == q.q && x.a == q.a));
    }
    assert_eq!(normalize(FixedQuestion::picked(27).a), "racket");
}
