//! The store: the tables of the game, held in memory.
//!
//! Each table is a sequence of records in the order in which they were
//! created. `StoreView` is the mathematical model of the tables; every
//! operation of `Store` is stated as a function on that model.

use crate::models::{
    AcceptedDuel, AcceptedDuelView, Category, CategoryView, Chatter, ChatterView, Duel, DuelView,
    LosersPool, Lurker, LurkerView, POINTS_FLOOR, Question, QuestionView,
};
use crate::search::find_first;
use vstd::prelude::*;

pub mod accepted;
pub mod bank;
pub mod chatters;
pub mod duels;
pub mod lurkers;
pub mod pools;
pub mod validity;

pub use accepted::lemma_destroy_accepted;
pub use chatters::{
    best_index, lemma_chatter_at, lemma_chatter_at_kept, lemma_top_by_wins_len,
    lemma_update_points_wf, lemma_with_chatter_wf, top_by_wins,
};
pub use duels::{lemma_complete_duel_wf, lemma_duel_at};
pub use pools::last_open;

verus! {

/// Why the store refused an operation.
#[derive(Clone, Copy, PartialEq, Eq, Structural, Debug)]
pub enum StoreError {
    /// The record would repeat a key that must be unique.
    Duplicate,
    /// The table has used up its identifiers.
    Full,
    /// A record that the operation refers to does not exist.
    Missing,
    /// A text that must write a number writes none.
    Invalid,
}

/// The tables of the game.
pub struct Store {
    pub chatters: Vec<Chatter>,
    pub duels: Vec<Duel>,
    pub accepted_duels: Vec<AcceptedDuel>,
    pub lurkers: Vec<Lurker>,
    pub categories: Vec<Category>,
    pub questions: Vec<Question>,
    pub pools: Vec<LosersPool>,
}

/// The mathematical model of the store: each table as a sequence of record views.
pub struct StoreView {
    pub chatters: Seq<ChatterView>,
    pub duels: Seq<DuelView>,
    pub accepted_duels: Seq<AcceptedDuelView>,
    pub lurkers: Seq<LurkerView>,
    pub categories: Seq<CategoryView>,
    pub questions: Seq<QuestionView>,
    pub pools: Seq<LosersPool>,
}

impl View for Store {
    type V = StoreView;

    open spec fn view(&self) -> StoreView {
        StoreView {
            chatters: self.chatters@.map_values(|c: Chatter| c@),
            duels: self.duels@.map_values(|d: Duel| d@),
            accepted_duels: self.accepted_duels@.map_values(|a: AcceptedDuel| a@),
            lurkers: self.lurkers@.map_values(|l: Lurker| l@),
            categories: self.categories@.map_values(|c: Category| c@),
            questions: self.questions@.map_values(|q: Question| q@),
            pools: self.pools@,
        }
    }
}

/// The identifier for the next record of a table whose last identifier is `last`.
pub open spec fn next_id(last: Option<int>) -> int {
    match last {
        Some(id) => if id < 1 {
            1
        } else {
            id + 1
        },
        None => 1,
    }
}

/// A balance held at or above the floor.
pub open spec fn floored(points: int) -> int {
    if points < POINTS_FLOOR {
        POINTS_FLOOR as int
    } else {
        points
    }
}

/// The chatters are numbered in increasing order, no two share a chat
/// identity, and no balance lies below the floor or above what the machine
/// integer holds.
pub open spec fn chatters_wf(chatters: Seq<ChatterView>) -> bool {
    &&& forall|i: int, j: int| 0 <= i < j < chatters.len() ==> chatters[i].id < chatters[j].id
    &&& forall|i: int, j: int|
        0 <= i < j < chatters.len() ==> chatters[i].twitch_id != chatters[j].twitch_id
    &&& forall|i: int|
        0 <= i < chatters.len() ==> POINTS_FLOOR <= (#[trigger] chatters[i]).points <= i64::MAX
}

/// The duels are numbered in increasing order, each is between two
/// different participants, no wager is negative and no guess counter lies
/// below zero.
pub open spec fn duels_wf(duels: Seq<DuelView>) -> bool {
    &&& forall|i: int, j: int| 0 <= i < j < duels.len() ==> duels[i].id < duels[j].id
    &&& forall|i: int|
        0 <= i < duels.len() ==> {
            &&& (#[trigger] duels[i]).points >= 0
            &&& duels[i].challenger_guesses >= 0
            &&& duels[i].challenged_guesses >= 0
            &&& duels[i].challenger_id != duels[i].challenged_id
        }
}

/// Whether the participant `who` is one of the two sides of the row.
pub open spec fn involves(row: AcceptedDuelView, who: Seq<char>) -> bool {
    row.challenger_id == who || row.challenged_id == who
}

/// The rows are numbered in increasing order, no two refer to the same duel,
/// and no participant stands in two of them.
pub open spec fn accepted_wf(rows: Seq<AcceptedDuelView>) -> bool {
    &&& forall|i: int, j: int| 0 <= i < j < rows.len() ==> rows[i].id < rows[j].id
    &&& forall|i: int, j: int| 0 <= i < j < rows.len() ==> rows[i].duel_id != rows[j].duel_id
    &&& forall|i: int, j: int|
        0 <= i < j < rows.len() ==> !involves(rows[j], rows[i].challenger_id) && !involves(
            rows[j],
            rows[i].challenged_id,
        )
}

/// The categories are numbered in increasing order.
pub open spec fn categories_wf(categories: Seq<CategoryView>) -> bool {
    forall|i: int, j: int| 0 <= i < j < categories.len() ==> categories[i].id < categories[j].id
}

/// The position of the category numbered `id`.
pub open spec fn category_index(categories: Seq<CategoryView>, id: int) -> Option<int> {
    find_first(categories, |c: CategoryView| c.id == id)
}

/// The questions are numbered in increasing order, and each belongs to a
/// category that exists.
pub open spec fn questions_wf(questions: Seq<QuestionView>, categories: Seq<CategoryView>) -> bool {
    &&& forall|i: int, j: int| 0 <= i < j < questions.len() ==> questions[i].id < questions[j].id
    &&& forall|i: int|
        0 <= i < questions.len() ==> category_index(
            categories,
            (#[trigger] questions[i]).category_id,
        ) is Some
}

/// The pools are numbered in increasing order.
pub open spec fn pools_wf(pools: Seq<LosersPool>) -> bool {
    forall|i: int, j: int| 0 <= i < j < pools.len() ==> pools[i].id < pools[j].id
}

impl StoreView {
    /// Every table's invariant holds.
    pub open spec fn wf(self) -> bool {
        &&& chatters_wf(self.chatters)
        &&& duels_wf(self.duels)
        &&& accepted_wf(self.accepted_duels)
        &&& categories_wf(self.categories)
        &&& questions_wf(self.questions, self.categories)
        &&& pools_wf(self.pools)
    }
}

impl Store {
    /// A store with empty tables.
    pub fn new() -> (s: Store)
        ensures
            s@.chatters.len() == 0,
            s@.duels.len() == 0,
            s@.accepted_duels.len() == 0,
            s@.lurkers.len() == 0,
            s@.categories.len() == 0,
            s@.questions.len() == 0,
            s@.pools.len() == 0,
            s@.wf(),
    {
        Store {
            chatters: Vec::new(),
            duels: Vec::new(),
            accepted_duels: Vec::new(),
            lurkers: Vec::new(),
            categories: Vec::new(),
            questions: Vec::new(),
            pools: Vec::new(),
        }
    }
}

} // verus!
