//! The records of the game: chat participants, duels and what accompanies them.
//!
//! Each record has a view that replaces its strings by their characters and
//! its machine integers by mathematical ones; contracts speak of the views.
//! Instants are counted in microseconds since the Unix epoch.

use vstd::prelude::*;

verus! {

/// The lowest balance an account can have.
pub const POINTS_FLOOR: i64 = -1000;

/// The number of wrong answers each side of a duel may give.
pub const GUESS_BUDGET: i32 = 5;

/// A chat participant and their account.
#[derive(Debug)]
pub struct Chatter {
    pub id: i32,
    pub twitch_id: String,
    pub username: String,
    pub points: i64,
    pub wins: i32,
    pub losses: i32,
    pub last_seen: i64,
    pub lurk_time: i32,
}

/// A chatter in the model.
pub struct ChatterView {
    pub id: int,
    pub twitch_id: Seq<char>,
    pub username: Seq<char>,
    pub points: int,
    pub wins: int,
    pub losses: int,
    pub last_seen: int,
    pub lurk_time: int,
}

impl View for Chatter {
    type V = ChatterView;

    open spec fn view(&self) -> ChatterView {
        ChatterView {
            id: self.id as int,
            twitch_id: self.twitch_id@,
            username: self.username@,
            points: self.points as int,
            wins: self.wins as int,
            losses: self.losses as int,
            last_seen: self.last_seen as int,
            lurk_time: self.lurk_time as int,
        }
    }
}

impl Clone for Chatter {
    fn clone(&self) -> (r: Chatter)
        ensures
            r == *self,
    {
        Chatter {
            id: self.id,
            twitch_id: self.twitch_id.clone(),
            username: self.username.clone(),
            points: self.points,
            wins: self.wins,
            losses: self.losses,
            last_seen: self.last_seen,
            lurk_time: self.lurk_time,
        }
    }
}

/// Where a duel stands. A duel only ever moves forward through these.
#[derive(Clone, Copy, PartialEq, Eq, Structural, Debug)]
pub enum DuelStatus {
    Challenged,
    Accepted,
    Completed,
}

impl DuelStatus {
    /// The place of a status in the order challenged, accepted, completed.
    pub open spec fn rank(self) -> int {
        match self {
            DuelStatus::Challenged => 0,
            DuelStatus::Accepted => 1,
            DuelStatus::Completed => 2,
        }
    }
}

/// The characters of an optional string.
pub open spec fn opt_text(o: Option<String>) -> Option<Seq<char>> {
    match o {
        Some(t) => Some(t@),
        None => None,
    }
}

/// A copy of an optional string.
pub fn clone_opt(o: &Option<String>) -> (r: Option<String>)
    ensures
        r == *o,
{
    match o {
        Some(t) => Some(t.clone()),
        None => None,
    }
}

/// One challenge between two participants, from its issue to its completion.
#[derive(Debug)]
pub struct Duel {
    pub id: i32,
    /// The wager, fixed when the challenge is issued.
    pub points: i64,
    pub challenger: String,
    pub challenged: String,
    pub winner: Option<String>,
    pub status: DuelStatus,
    pub created_at: i64,
    pub updated_at: i64,
    pub question: Option<String>,
    pub answer: Option<String>,
    pub challenger_id: String,
    pub challenged_id: String,
    pub challenger_guesses: i32,
    pub challenged_guesses: i32,
}

/// A duel in the model.
pub struct DuelView {
    pub id: int,
    pub points: int,
    pub challenger: Seq<char>,
    pub challenged: Seq<char>,
    pub winner: Option<Seq<char>>,
    pub status: DuelStatus,
    pub created_at: int,
    pub updated_at: int,
    pub question: Option<Seq<char>>,
    pub answer: Option<Seq<char>>,
    pub challenger_id: Seq<char>,
    pub challenged_id: Seq<char>,
    pub challenger_guesses: int,
    pub challenged_guesses: int,
}

impl View for Duel {
    type V = DuelView;

    open spec fn view(&self) -> DuelView {
        DuelView {
            id: self.id as int,
            points: self.points as int,
            challenger: self.challenger@,
            challenged: self.challenged@,
            winner: opt_text(self.winner),
            status: self.status,
            created_at: self.created_at as int,
            updated_at: self.updated_at as int,
            question: opt_text(self.question),
            answer: opt_text(self.answer),
            challenger_id: self.challenger_id@,
            challenged_id: self.challenged_id@,
            challenger_guesses: self.challenger_guesses as int,
            challenged_guesses: self.challenged_guesses as int,
        }
    }
}

impl Clone for Duel {
    fn clone(&self) -> (r: Duel)
        ensures
            r == *self,
    {
        Duel {
            id: self.id,
            points: self.points,
            challenger: self.challenger.clone(),
            challenged: self.challenged.clone(),
            winner: clone_opt(&self.winner),
            status: self.status,
            created_at: self.created_at,
            updated_at: self.updated_at,
            question: clone_opt(&self.question),
            answer: clone_opt(&self.answer),
            challenger_id: self.challenger_id.clone(),
            challenged_id: self.challenged_id.clone(),
            challenger_guesses: self.challenger_guesses,
            challenged_guesses: self.challenged_guesses,
        }
    }
}

/// The index row of a duel under way: it exists exactly while the duel is accepted.
#[derive(Debug)]
pub struct AcceptedDuel {
    pub id: i32,
    pub duel_id: i32,
    pub challenger_id: String,
    pub challenged_id: String,
    pub created_at: Option<i64>,
}

/// The row of a duel under way in the model.
pub struct AcceptedDuelView {
    pub id: int,
    pub duel_id: int,
    pub challenger_id: Seq<char>,
    pub challenged_id: Seq<char>,
    pub created_at: Option<int>,
}

impl View for AcceptedDuel {
    type V = AcceptedDuelView;

    open spec fn view(&self) -> AcceptedDuelView {
        AcceptedDuelView {
            id: self.id as int,
            duel_id: self.duel_id as int,
            challenger_id: self.challenger_id@,
            challenged_id: self.challenged_id@,
            created_at: match self.created_at {
                Some(t) => Some(t as int),
                None => None,
            },
        }
    }
}

impl Clone for AcceptedDuel {
    fn clone(&self) -> (r: AcceptedDuel)
        ensures
            r == *self,
    {
        AcceptedDuel {
            id: self.id,
            duel_id: self.duel_id,
            challenger_id: self.challenger_id.clone(),
            challenged_id: self.challenged_id.clone(),
            created_at: self.created_at,
        }
    }
}

/// A participant who announced that they only watch.
#[derive(Debug)]
pub struct Lurker {
    pub id: i32,
    pub username: String,
    pub twitch_id: String,
    pub created_at: Option<i64>,
}

/// A lurker in the model.
pub struct LurkerView {
    pub id: int,
    pub username: Seq<char>,
    pub twitch_id: Seq<char>,
    pub created_at: Option<int>,
}

impl View for Lurker {
    type V = LurkerView;

    open spec fn view(&self) -> LurkerView {
        LurkerView {
            id: self.id as int,
            username: self.username@,
            twitch_id: self.twitch_id@,
            created_at: match self.created_at {
                Some(t) => Some(t as int),
                None => None,
            },
        }
    }
}

impl Clone for Lurker {
    fn clone(&self) -> (r: Lurker)
        ensures
            r == *self,
    {
        Lurker {
            id: self.id,
            username: self.username.clone(),
            twitch_id: self.twitch_id.clone(),
            created_at: self.created_at,
        }
    }
}

/// A category of questions.
#[derive(Debug)]
pub struct Category {
    pub id: i32,
    pub name: String,
    pub submitter_id: i32,
    pub created_at: i64,
}

/// A category in the model.
pub struct CategoryView {
    pub id: int,
    pub name: Seq<char>,
    pub submitter_id: int,
    pub created_at: int,
}

impl View for Category {
    type V = CategoryView;

    open spec fn view(&self) -> CategoryView {
        CategoryView {
            id: self.id as int,
            name: self.name@,
            submitter_id: self.submitter_id as int,
            created_at: self.created_at as int,
        }
    }
}

impl Clone for Category {
    fn clone(&self) -> (r: Category)
        ensures
            r == *self,
    {
        Category {
            id: self.id,
            name: self.name.clone(),
            submitter_id: self.submitter_id,
            created_at: self.created_at,
        }
    }
}

/// A question of the bank, with its answer and its usage counters.
#[derive(Debug)]
pub struct Question {
    pub id: i32,
    pub question: String,
    pub answer: String,
    pub category_id: i32,
    pub submitter_id: i32,
    pub times_asked: i32,
    pub times_not_answered: i32,
}

/// A question of the bank in the model.
pub struct QuestionView {
    pub id: int,
    pub question: Seq<char>,
    pub answer: Seq<char>,
    pub category_id: int,
    pub submitter_id: int,
    pub times_asked: int,
    pub times_not_answered: int,
}

impl View for Question {
    type V = QuestionView;

    open spec fn view(&self) -> QuestionView {
        QuestionView {
            id: self.id as int,
            question: self.question@,
            answer: self.answer@,
            category_id: self.category_id as int,
            submitter_id: self.submitter_id as int,
            times_asked: self.times_asked as int,
            times_not_answered: self.times_not_answered as int,
        }
    }
}

impl Clone for Question {
    fn clone(&self) -> (r: Question)
        ensures
            r == *self,
    {
        Question {
            id: self.id,
            question: self.question.clone(),
            answer: self.answer.clone(),
            category_id: self.category_id,
            submitter_id: self.submitter_id,
            times_asked: self.times_asked,
            times_not_answered: self.times_not_answered,
        }
    }
}

/// The pool that gathers what gamblers lose, until it is drawn.
#[derive(Clone, Copy, Debug)]
pub struct LosersPool {
    pub id: i32,
    pub amount: i64,
    /// The row id of the chatter who drew the pool, once it is drawn.
    pub winner: Option<i32>,
    pub created_at: i64,
}

} // verus!
