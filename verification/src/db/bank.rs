//! The question bank: categories and the questions in them.

use crate::db::{category_index, next_id, Store, StoreError, StoreView};
use crate::helpers::random_pick;
use crate::models::{Category, CategoryView, Question, QuestionView};
use crate::search::{find_first, first_index, lemma_first_index, lemma_first_index_is};
use vstd::prelude::*;

verus! {

impl StoreView {
    /// The position of the category numbered `id`.
    pub open spec fn category_at(self, id: int) -> Option<int> {
        category_index(self.categories, id)
    }

    /// The position of the first category with the given name.
    pub open spec fn category_named(self, name: Seq<char>) -> Option<int> {
        find_first(self.categories, |c: CategoryView| c.name == name)
    }

    /// The identifier that the next category gets.
    pub open spec fn next_category_id(self) -> int {
        next_id(
            if self.categories.len() > 0 {
                Some(self.categories.last().id)
            } else {
                None
            },
        )
    }

    /// The store with the category `c` added.
    pub open spec fn push_category(self, c: CategoryView) -> StoreView {
        StoreView { categories: self.categories.push(c), ..self }
    }

    /// The position of the question numbered `id`.
    pub open spec fn question_at(self, id: int) -> Option<int> {
        find_first(self.questions, |q: QuestionView| q.id == id)
    }

    /// The identifier that the next question gets.
    pub open spec fn next_question_id(self) -> int {
        next_id(
            if self.questions.len() > 0 {
                Some(self.questions.last().id)
            } else {
                None
            },
        )
    }

    /// Why the store refuses a question for the category `category_id`, if
    /// it does: there is no such category, or the identifiers are used up.
    pub open spec fn create_question_error(self, category_id: int) -> Option<StoreError> {
        if self.category_at(category_id) is None {
            Some(StoreError::Missing)
        } else if self.next_question_id() > i32::MAX {
            Some(StoreError::Full)
        } else {
            None
        }
    }

    /// A new question as the store creates it: never asked yet.
    pub open spec fn new_question(
        self,
        question: Seq<char>,
        answer: Seq<char>,
        submitter_id: int,
        category_id: int,
    ) -> QuestionView {
        QuestionView {
            id: self.next_question_id(),
            question: question,
            answer: answer,
            category_id: category_id,
            submitter_id: submitter_id,
            times_asked: 0,
            times_not_answered: 0,
        }
    }

    /// The store with the question `q` added.
    pub open spec fn push_question(self, q: QuestionView) -> StoreView {
        StoreView { questions: self.questions.push(q), ..self }
    }

    /// The store with the question at position `i` replaced by `q`.
    pub open spec fn with_question(self, i: int, q: QuestionView) -> StoreView {
        StoreView { questions: self.questions.update(i, q), ..self }
    }

    /// The store with the number of times that question `id` was asked set
    /// to `times_asked`.
    pub open spec fn update_times_asked(self, id: int, times_asked: int) -> StoreView {
        match self.question_at(id) {
            Some(i) => self.with_question(
                i,
                QuestionView { times_asked: times_asked, ..self.questions[i] },
            ),
            None => self,
        }
    }

    /// The store with one more time that question `id` went unanswered,
    /// where the machine integer allows it.
    pub open spec fn update_times_not_answered(self, id: int) -> StoreView {
        match self.question_at(id) {
            Some(i) => self.with_question(
                i,
                QuestionView {
                    times_not_answered: if self.questions[i].times_not_answered < i32::MAX {
                        self.questions[i].times_not_answered + 1
                    } else {
                        self.questions[i].times_not_answered
                    },
                    ..self.questions[i]
                },
            ),
            None => self,
        }
    }

    /// The question that the number `pick` selects from the bank: none from
    /// an empty bank, else the one at position `pick` modulo the size.
    pub open spec fn picked_question(self, pick: int) -> Option<QuestionView> {
        if self.questions.len() == 0 {
            None
        } else {
            Some(self.questions[pick % (self.questions.len() as int)])
        }
    }

    /// The name of the category numbered `id`.
    pub open spec fn category_name(self, id: int) -> Option<Seq<char>> {
        match category_index(self.categories, id) {
            Some(i) => Some(self.categories[i].name),
            None => None,
        }
    }

    /// The name under which the category `id` is shown.
    pub open spec fn category_label(self, id: int) -> Seq<char> {
        match self.category_name(id) {
            Some(name) => name,
            None => "General"@,
        }
    }
}

impl Store {
    /// The position of the category numbered `id`.
    pub fn find_category(&self, id: i32) -> (r: Option<usize>)
        ensures
            match r {
                Some(i) => self@.category_at(id as int) == Some(i as int) && i
                    < self.categories.len(),
                None => self@.category_at(id as int) is None,
            },
    {
        let ghost p = |c: CategoryView| c.id == id as int;
        let mut i: usize = 0;
        while i < self.categories.len()
            invariant
                0 <= i <= self.categories.len(),
                p == |c: CategoryView| c.id == id as int,
                forall|j: int| 0 <= j < i ==> !p(#[trigger] self@.categories[j]),
            decreases self.categories.len() - i,
        {
            if self.categories[i].id == id {
                proof {
                    lemma_first_index_is(self@.categories, p, i as int);
                }
                return Some(i);
            }
            i += 1;
        }
        proof {
            lemma_first_index_is(self@.categories, p, i as int);
        }
        None
    }

    /// The category numbered `id`, if there is one.
    pub fn get_category(&self, id: i32) -> (r: Option<Category>)
        ensures
            match self@.category_at(id as int) {
                Some(i) => r is Some && r->0@ == self@.categories[i],
                None => r is None,
            },
    {
        match self.find_category(id) {
            Some(i) => Some(self.categories[i].clone()),
            None => None,
        }
    }

    /// The first category with the given name, if there is one.
    pub fn get_category_by_name(&self, name: &str) -> (r: Option<Category>)
        ensures
            match self@.category_named(name@) {
                Some(i) => r is Some && r->0@ == self@.categories[i],
                None => r is None,
            },
    {
        let ghost p = |c: CategoryView| c.name == name@;
        let mut i: usize = 0;
        while i < self.categories.len()
            invariant
                0 <= i <= self.categories.len(),
                p == |c: CategoryView| c.name == name@,
                forall|j: int| 0 <= j < i ==> !p(#[trigger] self@.categories[j]),
            decreases self.categories.len() - i,
        {
            if self.categories[i].name.as_str().eq(name) {
                proof {
                    lemma_first_index_is(self@.categories, p, i as int);
                }
                return Some(self.categories[i].clone());
            }
            i += 1;
        }
        proof {
            lemma_first_index_is(self@.categories, p, i as int);
        }
        None
    }

    /// The category that questions without a category of their own belong to.
    pub fn _get_general_category(&self) -> (r: Option<Category>)
        ensures
            match self@.category_named("General"@) {
                Some(i) => r is Some && r->0@ == self@.categories[i],
                None => r is None,
            },
    {
        self.get_category_by_name("General")
    }

    /// All categories, oldest first.
    pub fn get_categories(&self) -> (r: Vec<Category>)
        ensures
            r@.map_values(|c: Category| c@) == self@.categories,
    {
        let mut r: Vec<Category> = Vec::new();
        let mut i: usize = 0;
        while i < self.categories.len()
            invariant
                0 <= i <= self.categories.len(),
                r@.map_values(|c: Category| c@) =~= self@.categories.take(i as int),
            decreases self.categories.len() - i,
        {
            let ghost before = r@.map_values(|c: Category| c@);
            r.push(self.categories[i].clone());
            proof {
                assert(r@.map_values(|c: Category| c@) =~= before.push(self@.categories[i as int]));
                assert(self@.categories.take(i + 1) =~= self@.categories.take(i as int).push(
                    self@.categories[i as int],
                ));
            }
            i += 1;
        }
        assert(self@.categories.take(i as int) =~= self@.categories);
        r
    }

    /// Adds a category. Refused only where the identifiers are used up.
    pub fn create_category(&mut self, name: &str, submitter_id: i32, now: i64) -> (r: Result<
        Category,
        StoreError,
    >)
        requires
            old(self)@.wf(),
        ensures
            final(self)@.wf(),
            old(self)@.next_category_id() > i32::MAX ==> r == Err::<Category, StoreError>(
                StoreError::Full,
            ) && final(self)@ == old(self)@,
            old(self)@.next_category_id() <= i32::MAX ==> r is Ok && r->Ok_0@ == (CategoryView {
                id: old(self)@.next_category_id(),
                name: name@,
                submitter_id: submitter_id as int,
                created_at: now as int,
            }) && final(self)@ == old(self)@.push_category(r->Ok_0@),
    {
        let n = self.categories.len();
        let id: i32 = if n == 0 {
            1
        } else {
            let last = self.categories[n - 1].id;
            if last < 1 {
                1
            } else if last == i32::MAX {
                return Err(StoreError::Full);
            } else {
                last + 1
            }
        };
        let category = Category { id, name: name.to_owned(), submitter_id, created_at: now };
        let copy = category.clone();
        self.categories.push(category);
        proof {
            let before = old(self)@;
            assert(self@.categories =~= before.push_category(copy@).categories);
            assert forall|i: int| 0 <= i < self@.questions.len() implies category_index(
                self@.categories,
                (#[trigger] self@.questions[i]).category_id,
            ) is Some by {
                let p = |c: CategoryView| c.id == self@.questions[i].category_id;
                assert(category_index(before.categories, before.questions[i].category_id) is Some);
                lemma_first_index(before.categories, p);
                let k = first_index(before.categories, p);
                assert(self@.categories[k] == before.categories[k]);
                lemma_first_index(self@.categories, p);
                if first_index(self@.categories, p) >= self@.categories.len() {
                    assert(!p(self@.categories[k]));
                }
            }
        }
        Ok(copy)
    }

    /// The position of the question numbered `id`.
    pub fn find_question(&self, id: i32) -> (r: Option<usize>)
        ensures
            match r {
                Some(i) => self@.question_at(id as int) == Some(i as int) && i
                    < self.questions.len(),
                None => self@.question_at(id as int) is None,
            },
    {
        let ghost p = |q: QuestionView| q.id == id as int;
        let mut i: usize = 0;
        while i < self.questions.len()
            invariant
                0 <= i <= self.questions.len(),
                p == |q: QuestionView| q.id == id as int,
                forall|j: int| 0 <= j < i ==> !p(#[trigger] self@.questions[j]),
            decreases self.questions.len() - i,
        {
            if self.questions[i].id == id {
                proof {
                    lemma_first_index_is(self@.questions, p, i as int);
                }
                return Some(i);
            }
            i += 1;
        }
        proof {
            lemma_first_index_is(self@.questions, p, i as int);
        }
        None
    }

    /// The question numbered `id`, if there is one.
    pub fn _get_question(&self, id: i32) -> (r: Option<Question>)
        ensures
            match self@.question_at(id as int) {
                Some(i) => r is Some && r->0@ == self@.questions[i],
                None => r is None,
            },
    {
        match self.find_question(id) {
            Some(i) => Some(self.questions[i].clone()),
            None => None,
        }
    }

    /// All questions, oldest first.
    pub fn get_questions(&self) -> (r: Vec<Question>)
        ensures
            r@.map_values(|q: Question| q@) == self@.questions,
    {
        let mut r: Vec<Question> = Vec::new();
        let mut i: usize = 0;
        while i < self.questions.len()
            invariant
                0 <= i <= self.questions.len(),
                r@.map_values(|q: Question| q@) =~= self@.questions.take(i as int),
            decreases self.questions.len() - i,
        {
            let ghost before = r@.map_values(|q: Question| q@);
            r.push(self.questions[i].clone());
            proof {
                assert(r@.map_values(|q: Question| q@) =~= before.push(self@.questions[i as int]));
                assert(self@.questions.take(i + 1) =~= self@.questions.take(i as int).push(
                    self@.questions[i as int],
                ));
            }
            i += 1;
        }
        assert(self@.questions.take(i as int) =~= self@.questions);
        r
    }

    /// Adds a question to the bank. Refused where its category does not
    /// exist or the identifiers are used up.
    pub fn create_question(
        &mut self,
        question: &str,
        answer: &str,
        submitter_id: i32,
        category_id: i32,
    ) -> (r: Result<Question, StoreError>)
        requires
            old(self)@.wf(),
        ensures
            final(self)@.wf(),
            match old(self)@.create_question_error(category_id as int) {
                Some(e) => r == Err::<Question, StoreError>(e) && final(self)@ == old(self)@,
                None => r is Ok && r->Ok_0@ == old(self)@.new_question(
                    question@,
                    answer@,
                    submitter_id as int,
                    category_id as int,
                ) && final(self)@ == old(self)@.push_question(r->Ok_0@),
            },
    {
        if self.find_category(category_id).is_none() {
            return Err(StoreError::Missing);
        }
        let n = self.questions.len();
        let id: i32 = if n == 0 {
            1
        } else {
            let last = self.questions[n - 1].id;
            if last < 1 {
                1
            } else if last == i32::MAX {
                return Err(StoreError::Full);
            } else {
                last + 1
            }
        };
        let row = Question {
            id,
            question: question.to_owned(),
            answer: answer.to_owned(),
            category_id,
            submitter_id,
            times_asked: 0,
            times_not_answered: 0,
        };
        let copy = row.clone();
        self.questions.push(row);
        proof {
            assert(self@.questions =~= old(self)@.push_question(copy@).questions);
        }
        Ok(copy)
    }

    /// Sets the number of times that question `id` was asked.
    pub fn update_times_asked(&mut self, id: i32, new_times_asked: i32)
        requires
            old(self)@.wf(),
        ensures
            final(self)@.wf(),
            final(self)@ == old(self)@.update_times_asked(id as int, new_times_asked as int),
    {
        match self.find_question(id) {
            Some(i) => {
                self.questions[i].times_asked = new_times_asked;
                proof {
                    assert(self@.questions =~= old(self)@.update_times_asked(
                        id as int,
                        new_times_asked as int,
                    ).questions);
                }
            },
            None => {},
        }
    }

    /// Counts one more time that question `id` went unanswered.
    pub fn update_times_not_answered(&mut self, id: i32)
        requires
            old(self)@.wf(),
        ensures
            final(self)@.wf(),
            final(self)@ == old(self)@.update_times_not_answered(id as int),
    {
        match self.find_question(id) {
            Some(i) => {
                if self.questions[i].times_not_answered < i32::MAX {
                    self.questions[i].times_not_answered = self.questions[i].times_not_answered
                        + 1;
                }
                proof {
                    assert(self@.questions =~= old(self)@.update_times_not_answered(
                        id as int,
                    ).questions);
                }
            },
            None => {},
        }
    }

    /// The question that the number `pick` selects from the bank: none from
    /// an empty bank, else the one at position `pick` modulo the size.
    pub fn pick_question(&self, pick: usize) -> (r: Option<Question>)
        ensures
            match self@.picked_question(pick as int) {
                Some(q) => r is Some && r->0@ == q,
                None => r is None,
            },
    {
        let n = self.questions.len();
        if n == 0 {
            None
        } else {
            Some(self.questions[pick % n].clone())
        }
    }

    /// A question drawn at random from the bank: none from an empty bank,
    /// else one of its questions; which one is left to chance.
    pub fn get_random_question(&self) -> (r: Option<Question>)
        ensures
            self@.questions.len() == 0 ==> r is None,
            self@.questions.len() > 0 ==> r is Some && exists|i: int|
                0 <= i < self@.questions.len() && r->0@ == #[trigger] self@.questions[i],
    {
        let pick = random_pick();
        let r = self.pick_question(pick);
        proof {
            if self@.questions.len() > 0 {
                let n = self@.questions.len() as int;
                assert(0 <= (pick as int) % n < n);
            }
        }
        r
    }

    /// The name under which the category `id` is shown; a category that
    /// does not exist is shown as `General`.
    pub fn category_label(&self, id: i32) -> (r: String)
        ensures
            r@ == self@.category_label(id as int),
    {
        match self.get_category(id) {
            Some(c) => c.name,
            None => String::from_str("General"),
        }
    }
}

} // verus!
