//! The starter content of the question bank: four categories and the
//! questions that go into them, written into a store that has none yet.

use crate::db::{Store, StoreView};
use crate::models::CategoryView;
use vstd::prelude::*;

verus! {

/// The kinds of starter questions.
#[derive(Clone, Copy, PartialEq, Eq, Structural, Debug)]
pub enum QuestionKind {
    ProgLang,
    MovieQuote,
    Scramble,
    General,
}

/// A starter question with its answer.
#[derive(Clone, Copy, Debug)]
pub struct Question {
    pub kind: QuestionKind,
    pub q: &'static str,
    pub a: &'static str,
}

/// A starter question in the model.
pub struct QuestionView {
    pub kind: QuestionKind,
    pub q: Seq<char>,
    pub a: Seq<char>,
}

impl View for Question {
    type V = QuestionView;

    open spec fn view(&self) -> QuestionView {
        QuestionView { kind: self.kind, q: self.q@, a: self.a@ }
    }
}

impl Question {
    /// A starter question.
    pub fn new(kind: QuestionKind, q: &'static str, a: &'static str) -> (r: Question)
        ensures
            r@ == entry(kind, q@, a@),
    {
        Question { q, a, kind }
    }
}

/// A starter question in the model.
pub open spec fn entry(kind: QuestionKind, q: Seq<char>, a: Seq<char>) -> QuestionView {
    QuestionView { kind: kind, q: q, a: a }
}

/// The number of the starter category of a kind of question.
pub open spec fn category_of(kind: QuestionKind) -> int {
    match kind {
        QuestionKind::ProgLang => 1,
        QuestionKind::MovieQuote => 2,
        QuestionKind::Scramble => 3,
        QuestionKind::General => 4,
    }
}

/// The starter questions.
pub open spec fn starter_questions() -> Seq<QuestionView> {
    seq![
        entry(QuestionKind::ProgLang, "cant do a for loop"@, "python"@),
        entry(QuestionKind::ProgLang, "named after a certain snake"@, "python"@),
        entry(QuestionKind::ProgLang, "is commonly seen in machine learning"@, "python"@),
        entry(QuestionKind::ProgLang, "will be killed by Mojo"@, "python"@),
        entry(QuestionKind::ProgLang, "tokiiiiiiiiiiooooooo!"@, "rust"@),
        entry(QuestionKind::ProgLang, "unsafe { /* trust me */ }"@, "rust"@),
        entry(QuestionKind::ProgLang, "named as popular survival game"@, "rust"@),
        entry(QuestionKind::ProgLang, "not endorsed by Rust foundation"@, "rust"@),
        entry(QuestionKind::ProgLang, "is considered to be blazingly fast"@, "rust"@),
        entry(QuestionKind::ProgLang, "fearless Arc<Mutex<HashMap<K, V>>>"@, "rust"@),
        entry(QuestionKind::ProgLang, "cannot borrow as mutable because it is also borrowed as immutable"@, "rust"@),
        entry(QuestionKind::ProgLang, "segfault"@, "c"@),
        entry(QuestionKind::ProgLang, "king of undefined behavior"@, "c"@),
        entry(QuestionKind::ProgLang, "main language of the linux kernel"@, "c"@),
        entry(QuestionKind::ProgLang, "was supposed to improve C"@, "c++"@),
        entry(QuestionKind::ProgLang, "one of the most hated languages"@, "c++"@),
        entry(QuestionKind::ProgLang, "has the most unredable standart library"@, "c++"@),
        entry(QuestionKind::ProgLang, "a desert themed functional language"@, "ocaml"@),
        entry(QuestionKind::ProgLang, "has `comptime` keyword"@, "zig"@),
        entry(QuestionKind::ProgLang, "has a lizard mascot for the language"@, "zig"@),
        entry(QuestionKind::ProgLang, "if err != nil"@, "go"@),
        entry(QuestionKind::ProgLang, "can go func yourself on accident"@, "go"@),
        entry(QuestionKind::ProgLang, "appeals to certain blue haired individuals"@, "go"@),
        entry(QuestionKind::ProgLang, "uses capital letters to denote public visibility"@, "go"@),
        entry(QuestionKind::ProgLang, "used by 35 people"@, "haskell"@),
        entry(QuestionKind::ProgLang, "is like a burrito"@, "haskell"@),
        entry(QuestionKind::ProgLang, "monad is a monoid in the category of endofunctors"@, "haskell"@),
        entry(QuestionKind::ProgLang, "this language is full of parenthesis"@, "racket"@),
        entry(QuestionKind::ProgLang, "can `explode`"@, "php"@),
        entry(QuestionKind::ProgLang, "each developer of this language drives a lambo"@, "php"@),
        entry(QuestionKind::ProgLang, "language created by Jonathan Blow, which will come out in the next 25 years"@, "jai"@),
        entry(QuestionKind::MovieQuote, "May the Force be with you"@, "star wars"@),
        entry(QuestionKind::MovieQuote, "I'm the king of the world!"@, "titanic"@),
        entry(QuestionKind::MovieQuote, "It's alive! It's alive!"@, "frankenstein"@),
        entry(QuestionKind::MovieQuote, "I'll be back"@, "terminator"@),
        entry(QuestionKind::MovieQuote, "You're gonna need a bigger boat."@, "jaws"@),
        entry(QuestionKind::MovieQuote, "My precious"@, "lord of the rings"@),
        entry(QuestionKind::MovieQuote, "Hey, you. Dumbass."@, "the walking dead"@),
        entry(QuestionKind::MovieQuote, "Hey you're right, man. That is enough."@, "walking dead"@),
        entry(QuestionKind::Scramble, "ulot"@, "tolu"@),
        entry(QuestionKind::Scramble, "lopo"@, "pool"@),
        entry(QuestionKind::Scramble, "chooectal"@, "chocolate"@),
        entry(QuestionKind::Scramble, "ubritro"@, "burrito"@),
        entry(QuestionKind::Scramble, "algansa"@, "lasagna"@),
    ]
}

/// The starter questions.
pub fn questions() -> (r: Vec<Question>)
    ensures
        r@.map_values(|x: Question| x@) == starter_questions(),
{
    let mut r: Vec<Question> = Vec::new();
    r.push(Question::new(QuestionKind::ProgLang, "cant do a for loop", "python"));
    r.push(Question::new(QuestionKind::ProgLang, "named after a certain snake", "python"));
    r.push(Question::new(QuestionKind::ProgLang, "is commonly seen in machine learning", "python"));
    r.push(Question::new(QuestionKind::ProgLang, "will be killed by Mojo", "python"));
    r.push(Question::new(QuestionKind::ProgLang, "tokiiiiiiiiiiooooooo!", "rust"));
    r.push(Question::new(QuestionKind::ProgLang, "unsafe { /* trust me */ }", "rust"));
    r.push(Question::new(QuestionKind::ProgLang, "named as popular survival game", "rust"));
    r.push(Question::new(QuestionKind::ProgLang, "not endorsed by Rust foundation", "rust"));
    r.push(Question::new(QuestionKind::ProgLang, "is considered to be blazingly fast", "rust"));
    r.push(Question::new(QuestionKind::ProgLang, "fearless Arc<Mutex<HashMap<K, V>>>", "rust"));
    r.push(Question::new(QuestionKind::ProgLang, "cannot borrow as mutable because it is also borrowed as immutable", "rust"));
    r.push(Question::new(QuestionKind::ProgLang, "segfault", "c"));
    r.push(Question::new(QuestionKind::ProgLang, "king of undefined behavior", "c"));
    r.push(Question::new(QuestionKind::ProgLang, "main language of the linux kernel", "c"));
    r.push(Question::new(QuestionKind::ProgLang, "was supposed to improve C", "c++"));
    r.push(Question::new(QuestionKind::ProgLang, "one of the most hated languages", "c++"));
    r.push(Question::new(QuestionKind::ProgLang, "has the most unredable standart library", "c++"));
    r.push(Question::new(QuestionKind::ProgLang, "a desert themed functional language", "ocaml"));
    r.push(Question::new(QuestionKind::ProgLang, "has `comptime` keyword", "zig"));
    r.push(Question::new(QuestionKind::ProgLang, "has a lizard mascot for the language", "zig"));
    r.push(Question::new(QuestionKind::ProgLang, "if err != nil", "go"));
    r.push(Question::new(QuestionKind::ProgLang, "can go func yourself on accident", "go"));
    r.push(Question::new(QuestionKind::ProgLang, "appeals to certain blue haired individuals", "go"));
    r.push(Question::new(QuestionKind::ProgLang, "uses capital letters to denote public visibility", "go"));
    r.push(Question::new(QuestionKind::ProgLang, "used by 35 people", "haskell"));
    r.push(Question::new(QuestionKind::ProgLang, "is like a burrito", "haskell"));
    r.push(Question::new(QuestionKind::ProgLang, "monad is a monoid in the category of endofunctors", "haskell"));
    r.push(Question::new(QuestionKind::ProgLang, "this language is full of parenthesis", "racket"));
    r.push(Question::new(QuestionKind::ProgLang, "can `explode`", "php"));
    r.push(Question::new(QuestionKind::ProgLang, "each developer of this language drives a lambo", "php"));
    r.push(Question::new(QuestionKind::ProgLang, "language created by Jonathan Blow, which will come out in the next 25 years", "jai"));
    r.push(Question::new(QuestionKind::MovieQuote, "May the Force be with you", "star wars"));
    r.push(Question::new(QuestionKind::MovieQuote, "I'm the king of the world!", "titanic"));
    r.push(Question::new(QuestionKind::MovieQuote, "It's alive! It's alive!", "frankenstein"));
    r.push(Question::new(QuestionKind::MovieQuote, "I'll be back", "terminator"));
    r.push(Question::new(QuestionKind::MovieQuote, "You're gonna need a bigger boat.", "jaws"));
    r.push(Question::new(QuestionKind::MovieQuote, "My precious", "lord of the rings"));
    r.push(Question::new(QuestionKind::MovieQuote, "Hey, you. Dumbass.", "the walking dead"));
    r.push(Question::new(QuestionKind::MovieQuote, "Hey you're right, man. That is enough.", "walking dead"));
    r.push(Question::new(QuestionKind::Scramble, "ulot", "tolu"));
    r.push(Question::new(QuestionKind::Scramble, "lopo", "pool"));
    r.push(Question::new(QuestionKind::Scramble, "chooectal", "chocolate"));
    r.push(Question::new(QuestionKind::Scramble, "ubritro", "burrito"));
    r.push(Question::new(QuestionKind::Scramble, "algansa", "lasagna"));
    assert(r@.map_values(|x: Question| x@) =~= starter_questions());
    r
}

/// The store with a category of the given name added by `submitter`, where
/// the identifiers allow it.
pub open spec fn with_category(s: StoreView, name: Seq<char>, submitter: int, now: int) -> StoreView {
    if s.next_category_id() > i32::MAX {
        s
    } else {
        s.push_category(
            CategoryView {
                id: s.next_category_id(),
                name: name,
                submitter_id: submitter,
                created_at: now,
            },
        )
    }
}

/// The store with the four starter categories added, in their order.
pub open spec fn seeded_categories(s: StoreView, submitter: int, now: int) -> StoreView {
    with_category(
        with_category(
            with_category(
                with_category(s, "Guess the Programming Language"@, submitter, now),
                "Guess the Movie by the Quote"@,
                submitter,
                now,
            ),
            "Word Scramble"@,
            submitter,
            now,
        ),
        "General"@,
        submitter,
        now,
    )
}

/// The store with the question `q` added by `submitter` to the starter
/// category of its kind, where that category exists and the identifiers
/// allow it.
pub open spec fn with_question(s: StoreView, q: QuestionView, submitter: int) -> StoreView {
    if s.create_question_error(category_of(q.kind)) is None {
        s.push_question(s.new_question(q.q, q.a, submitter, category_of(q.kind)))
    } else {
        s
    }
}

/// The store with the questions of `table` added, in their order.
pub open spec fn seeded_questions(
    s: StoreView,
    table: Seq<QuestionView>,
    submitter: int,
) -> StoreView
    decreases table.len(),
{
    if table.len() == 0 {
        s
    } else {
        with_question(seeded_questions(s, table.drop_last(), submitter), table.last(), submitter)
    }
}

/// The store after seeding: a store without categories gets the starter
/// categories, and a store that then has no questions gets the starter
/// questions.
pub open spec fn seeded(s: StoreView, submitter: int, now: int) -> StoreView {
    let c = if s.categories.len() == 0 {
        seeded_categories(s, submitter, now)
    } else {
        s
    };
    if c.questions.len() == 0 {
        seeded_questions(c, starter_questions(), submitter)
    } else {
        c
    }
}

/// Adds the four starter categories in the name of the broadcaster.
pub fn seed_categories(store: &mut Store, broadcaster_id: i32, now: i64)
    requires
        old(store)@.wf(),
    ensures
        final(store)@.wf(),
        final(store)@ == seeded_categories(old(store)@, broadcaster_id as int, now as int),
{
    let _ = store.create_category("Guess the Programming Language", broadcaster_id, now);
    let _ = store.create_category("Guess the Movie by the Quote", broadcaster_id, now);
    let _ = store.create_category("Word Scramble", broadcaster_id, now);
    let _ = store.create_category("General", broadcaster_id, now);
}

/// Adds the starter questions in the name of the broadcaster, each to the
/// starter category of its kind.
pub fn seed_questions(store: &mut Store, broadcaster_id: i32)
    requires
        old(store)@.wf(),
    ensures
        final(store)@.wf(),
        final(store)@ == seeded_questions(old(store)@, starter_questions(), broadcaster_id as int),
{
    let table = questions();
    let ghost all = starter_questions();
    let mut i: usize = 0;
    proof {
        assert(all.take(0) =~= Seq::<QuestionView>::empty());
    }
    while i < table.len()
        invariant
            0 <= i <= table.len(),
            store@.wf(),
            all == starter_questions(),
            table@.map_values(|x: Question| x@) == all,
            store@ == seeded_questions(old(store)@, all.take(i as int), broadcaster_id as int),
        decreases table.len() - i,
    {
        let question = table[i];
        proof {
            assert(table@.map_values(|x: Question| x@)[i as int] == table@[i as int]@);
            assert(all.take(i + 1).drop_last() =~= all.take(i as int));
            assert(all.take(i + 1).last() == question@);
        }
        let category_id: i32 = match question.kind {
            QuestionKind::ProgLang => 1,
            QuestionKind::MovieQuote => 2,
            QuestionKind::Scramble => 3,
            QuestionKind::General => 4,
        };
        let _ = store.create_question(question.q, question.a, broadcaster_id, category_id);
        i += 1;
    }
    proof {
        assert(all.take(i as int) =~= all);
    }
}

/// Seeds the store: a store without categories gets the starter
/// categories, and a store that then has no questions gets the starter
/// questions.
pub fn seed_initial_data(store: &mut Store, broadcaster_id: i32, now: i64)
    requires
        old(store)@.wf(),
    ensures
        final(store)@.wf(),
        final(store)@ == seeded(old(store)@, broadcaster_id as int, now as int),
{
    let categories = store.get_categories();
    if categories.len() == 0 {
        seed_categories(store, broadcaster_id, now);
    }
    let questions = store.get_questions();
    if questions.len() == 0 {
        seed_questions(store, broadcaster_id);
    }
}

} // verus!
