//! A fixed set of questions that needs no store.

use crate::helpers::random_pick;
use vstd::prelude::*;

verus! {

/// The kinds of questions.
#[derive(Clone, Copy, PartialEq, Eq, Structural, Debug)]
pub enum QuestionKind {
    ProgLang,
    MovieQuote,
    Scramble,
}

/// A question with its answer.
#[derive(Clone, Copy, Debug)]
pub struct Question {
    pub kind: QuestionKind,
    pub q: &'static str,
    pub a: &'static str,
}

/// A question in the model.
pub struct QuestionView {
    pub kind: QuestionKind,
    pub q: Seq<char>,
    pub a: Seq<char>,
}

impl View for Question {
    type V = QuestionView;

    open spec fn view(&self) -> QuestionView {
        QuestionView { kind: self.kind, q: self.q@, a: self.a@ }
    }
}

/// A question in the model.
pub open spec fn entry(kind: QuestionKind, q: Seq<char>, a: Seq<char>) -> QuestionView {
    QuestionView { kind: kind, q: q, a: a }
}

/// The questions.
pub open spec fn all_questions() -> Seq<QuestionView> {
    seq![
        entry(QuestionKind::ProgLang, "cant do a for loop"@, "python"@),
        entry(QuestionKind::ProgLang, "named after a certain snake"@, "python"@),
        entry(QuestionKind::ProgLang, "is commonly seen in machine learning"@, "python"@),
        entry(QuestionKind::ProgLang, "will be killed by Mojo"@, "python"@),
        entry(QuestionKind::ProgLang, "tokiiiiiiiiiiooooooo!"@, "rust"@),
        entry(QuestionKind::ProgLang, "unsafe { /* trust me */ }"@, "rust"@),
        entry(QuestionKind::ProgLang, "named as popular survival game"@, "rust"@),
        entry(QuestionKind::ProgLang, "not endorsed by Rust foundation"@, "rust"@),
        entry(QuestionKind::ProgLang, "is considered to be blazingly fast"@, "rust"@),
        entry(QuestionKind::ProgLang, "fearless Arc<Mutex<HashMap<K, V>>>"@, "rust"@),
        entry(QuestionKind::ProgLang, "cannot borrow as mutable because it is also borrowed as immutable"@, "rust"@),
        entry(QuestionKind::ProgLang, "segfault"@, "c"@),
        entry(QuestionKind::ProgLang, "king of undefined behavior"@, "c"@),
        entry(QuestionKind::ProgLang, "main language of the linux kernel"@, "c"@),
        entry(QuestionKind::ProgLang, "was supposed to improve C"@, "c++"@),
        entry(QuestionKind::ProgLang, "one of the most hated languages"@, "c++"@),
        entry(QuestionKind::ProgLang, "has the most unredable standart library"@, "c++"@),
        entry(QuestionKind::ProgLang, "a desert themed functional language"@, "ocaml"@),
        entry(QuestionKind::ProgLang, "has `comptime` keyword"@, "zig"@),
        entry(QuestionKind::ProgLang, "has a lizard mascot for the language"@, "zig"@),
        entry(QuestionKind::ProgLang, "if err != nil"@, "go"@),
        entry(QuestionKind::ProgLang, "can go func yourself on accident"@, "go"@),
        entry(QuestionKind::ProgLang, "appeals to certain blue haired individuals"@, "go"@),
        entry(QuestionKind::ProgLang, "uses capital letters to denote public visibility"@, "go"@),
        entry(QuestionKind::ProgLang, "used by 35 people"@, "haskell"@),
        entry(QuestionKind::ProgLang, "is like a burrito"@, "haskell"@),
        entry(QuestionKind::ProgLang, "monad is a monoid in the category of endofunctors"@, "haskell"@),
        entry(QuestionKind::ProgLang, "this language is full of parenthesis"@, "racket "@),
        entry(QuestionKind::ProgLang, "can `explode`"@, "php"@),
        entry(QuestionKind::ProgLang, "each developer of this language drives a lambo"@, "php"@),
        entry(QuestionKind::ProgLang, "language created by Jonathan Blow, which will come out in the next 25 years"@, "jai"@),
        entry(QuestionKind::MovieQuote, "May the Force be with you"@, "star wars"@),
        entry(QuestionKind::MovieQuote, "I'm the king of the world!"@, "titanic"@),
        entry(QuestionKind::MovieQuote, "It's alive! It's alive!"@, "frankenstein"@),
        entry(QuestionKind::MovieQuote, "I'll be back"@, "terminator"@),
        entry(QuestionKind::MovieQuote, "You're gonna need a bigger boat."@, "jaws"@),
        entry(QuestionKind::MovieQuote, "My precious"@, "lord of the rings"@),
        entry(QuestionKind::MovieQuote, "Hey, you. Dumbass."@, "walking dead"@),
        entry(QuestionKind::MovieQuote, "Hey you're right, man. That is enough."@, "walking dead"@),
        entry(QuestionKind::Scramble, "ulot"@, "tolu"@),
        entry(QuestionKind::Scramble, "lopo"@, "pool"@),
        entry(QuestionKind::Scramble, "chooectal"@, "chocolate"@),
        entry(QuestionKind::Scramble, "ubritro"@, "burrito"@),
        entry(QuestionKind::Scramble, "algansa"@, "lasagna"@),
    ]
}

/// The questions.
pub fn questions() -> (r: Vec<Question>)
    ensures
        r@.map_values(|x: Question| x@) == all_questions(),
        r.len() == 44,
{
    let mut r: Vec<Question> = Vec::new();
    r.push(Question::new(QuestionKind::ProgLang, "cant do a for loop", "python"));
    r.push(Question::new(QuestionKind::ProgLang, "named after a certain snake", "python"));
    r.push(Question::new(QuestionKind::ProgLang, "is commonly seen in machine learning", "python"));
    r.push(Question::new(QuestionKind::ProgLang, "will be killed by Mojo", "python"));
    r.push(Question::new(QuestionKind::ProgLang, "tokiiiiiiiiiiooooooo!", "rust"));
    r.push(Question::new(QuestionKind::ProgLang, "unsafe { /* trust me */ }", "rust"));
    r.push(Question::new(QuestionKind::ProgLang, "named as popular survival game", "rust"));
    r.push(Question::new(QuestionKind::ProgLang, "not endorsed by Rust foundation", "rust"));
    r.push(Question::new(QuestionKind::ProgLang, "is considered to be blazingly fast", "rust"));
    r.push(Question::new(QuestionKind::ProgLang, "fearless Arc<Mutex<HashMap<K, V>>>", "rust"));
    r.push(Question::new(QuestionKind::ProgLang, "cannot borrow as mutable because it is also borrowed as immutable", "rust"));
    r.push(Question::new(QuestionKind::ProgLang, "segfault", "c"));
    r.push(Question::new(QuestionKind::ProgLang, "king of undefined behavior", "c"));
    r.push(Question::new(QuestionKind::ProgLang, "main language of the linux kernel", "c"));
    r.push(Question::new(QuestionKind::ProgLang, "was supposed to improve C", "c++"));
    r.push(Question::new(QuestionKind::ProgLang, "one of the most hated languages", "c++"));
    r.push(Question::new(QuestionKind::ProgLang, "has the most unredable standart library", "c++"));
    r.push(Question::new(QuestionKind::ProgLang, "a desert themed functional language", "ocaml"));
    r.push(Question::new(QuestionKind::ProgLang, "has `comptime` keyword", "zig"));
    r.push(Question::new(QuestionKind::ProgLang, "has a lizard mascot for the language", "zig"));
    r.push(Question::new(QuestionKind::ProgLang, "if err != nil", "go"));
    r.push(Question::new(QuestionKind::ProgLang, "can go func yourself on accident", "go"));
    r.push(Question::new(QuestionKind::ProgLang, "appeals to certain blue haired individuals", "go"));
    r.push(Question::new(QuestionKind::ProgLang, "uses capital letters to denote public visibility", "go"));
    r.push(Question::new(QuestionKind::ProgLang, "used by 35 people", "haskell"));
    r.push(Question::new(QuestionKind::ProgLang, "is like a burrito", "haskell"));
    r.push(Question::new(QuestionKind::ProgLang, "monad is a monoid in the category of endofunctors", "haskell"));
    r.push(Question::new(QuestionKind::ProgLang, "this language is full of parenthesis", "racket "));
    r.push(Question::new(QuestionKind::ProgLang, "can `explode`", "php"));
    r.push(Question::new(QuestionKind::ProgLang, "each developer of this language drives a lambo", "php"));
    r.push(Question::new(QuestionKind::ProgLang, "language created by Jonathan Blow, which will come out in the next 25 years", "jai"));
    r.push(Question::new(QuestionKind::MovieQuote, "May the Force be with you", "star wars"));
    r.push(Question::new(QuestionKind::MovieQuote, "I'm the king of the world!", "titanic"));
    r.push(Question::new(QuestionKind::MovieQuote, "It's alive! It's alive!", "frankenstein"));
    r.push(Question::new(QuestionKind::MovieQuote, "I'll be back", "terminator"));
    r.push(Question::new(QuestionKind::MovieQuote, "You're gonna need a bigger boat.", "jaws"));
    r.push(Question::new(QuestionKind::MovieQuote, "My precious", "lord of the rings"));
    r.push(Question::new(QuestionKind::MovieQuote, "Hey, you. Dumbass.", "walking dead"));
    r.push(Question::new(QuestionKind::MovieQuote, "Hey you're right, man. That is enough.", "walking dead"));
    r.push(Question::new(QuestionKind::Scramble, "ulot", "tolu"));
    r.push(Question::new(QuestionKind::Scramble, "lopo", "pool"));
    r.push(Question::new(QuestionKind::Scramble, "chooectal", "chocolate"));
    r.push(Question::new(QuestionKind::Scramble, "ubritro", "burrito"));
    r.push(Question::new(QuestionKind::Scramble, "algansa", "lasagna"));
    assert(r@.map_values(|x: Question| x@) =~= all_questions());
    r
}

impl Question {
    /// A question.
    pub fn new(kind: QuestionKind, q: &'static str, a: &'static str) -> (r: Question)
        ensures
            r@ == entry(kind, q@, a@),
    {
        Question { q, a, kind }
    }

    /// The question that the number `pick` selects: the one at position
    /// `pick` modulo the number of questions.
    pub fn picked(pick: usize) -> (r: Question)
        ensures
            r@ == all_questions()[(pick as int) % (all_questions().len() as int)],
    {
        let all = questions();
        let index = pick % all.len();
        assert(all@.map_values(|x: Question| x@)[index as int] == all@[index as int]@);
        all[index]
    }

    /// A question drawn at random: one of the questions.
    pub fn randomized() -> (r: Question)
        ensures
            exists|i: int| 0 <= i < all_questions().len() && r@ == #[trigger] all_questions()[i],
    {
        let random = random_pick();
        let r = Question::picked(random);
        assert(all_questions().len() == 44);
        assert(0 <= (random as int) % 44 < 44);
        r
    }
}

} // verus!
