//! The commands that extend the question bank: new questions and new
//! categories, each at a price.

use crate::chatter::subtract_points;
use crate::commands::{ChatMessage, ChatMessageView, one, response_of};
use crate::commands::economy::{answer, StoreStep};
use crate::db::{Store, StoreError, StoreView};
use crate::messaging::{outbox, Outgoing, reply_to, reply_view};
use crate::models::{Category, Chatter, Question, QuestionView};
use crate::text::{
    chars_of, decimal, decimal_string, join_from, letter_or_number, lowercase, parse_i32,
    spec_parse_i32, split, split_on, texts, trim, trimmed,
};
use vstd::prelude::*;

verus! {

/// The price of adding a question.
pub const QUESTION_PRICE: i64 = 5000;

/// The price of adding a category.
pub const CATEGORY_PRICE: i64 = 50000;

impl StoreView {
    /// Why a question of the chatter with the chat identity `twitch_id` for
    /// the category `category_id` is refused, if it is: the chat identity is
    /// no number, the category does not exist, or the identifiers are used up.
    pub open spec fn question_error(self, twitch_id: Seq<char>, category_id: int) -> Option<
        StoreError,
    > {
        if spec_parse_i32(twitch_id) is None {
            Some(StoreError::Invalid)
        } else {
            self.create_question_error(category_id)
        }
    }
}

impl Question {
    /// Adds a question of the chatter `submitter` to the category
    /// `category`. The submitter is recorded by the number that their chat
    /// identity writes.
    pub fn new(
        store: &mut Store,
        question: &str,
        answer: &str,
        category: &Category,
        submitter: &Chatter,
    ) -> (r: Result<Question, StoreError>)
        requires
            old(store)@.wf(),
        ensures
            final(store)@.wf(),
            match old(store)@.question_error(submitter@.twitch_id, category@.id) {
                Some(e) => r == Err::<Question, StoreError>(e) && final(store)@ == old(store)@,
                None => r is Ok && r->Ok_0@ == old(store)@.new_question(
                    question@,
                    answer@,
                    spec_parse_i32(submitter@.twitch_id).unwrap() as int,
                    category@.id,
                ) && final(store)@ == old(store)@.push_question(r->Ok_0@),
            },
    {
        match parse_i32(submitter.twitch_id.as_str()) {
            Some(twitch_id) => store.create_question(question, answer, twitch_id, category.id),
            None => Err(StoreError::Invalid),
        }
    }

    /// The name under which the question's category is shown.
    pub fn display_question_kind(&self, store: &Store) -> (r: String)
        ensures
            r@ == store@.category_label(self@.category_id),
    {
        store.category_label(self.category_id)
    }

    /// Counts one more time that the question was asked, here and in the
    /// store; a counter at the largest value stays there.
    pub fn increment_times_asked(&mut self, store: &mut Store)
        requires
            old(store)@.wf(),
        ensures
            final(store)@.wf(),
            final(store)@ == old(store)@.update_times_asked(
                old(self)@.id,
                crate::chatter::bumped(old(self)@.times_asked),
            ),
            final(self)@ == (QuestionView {
                times_asked: crate::chatter::bumped(old(self)@.times_asked),
                ..old(self)@
            }),
    {
        if self.times_asked < i32::MAX {
            self.times_asked = self.times_asked + 1;
        }
        store.update_times_asked(self.id, self.times_asked);
    }

    /// Counts in the store one more time that the question went unanswered.
    pub fn increment_times_not_answered(&mut self, store: &mut Store)
        requires
            old(store)@.wf(),
        ensures
            final(store)@.wf(),
            final(store)@ == old(store)@.update_times_not_answered(old(self)@.id),
            final(self)@ == old(self)@,
    {
        store.update_times_not_answered(self.id);
    }
}

/// The number of the category that an `!addquestion` message names: the
/// third part of what follows the command, trimmed, or, where there is no
/// third part, the number of the category `General`. Nothing where there
/// is neither.
pub open spec fn category_word(s: StoreView, parts: Seq<Seq<char>>) -> Option<Seq<char>> {
    if parts.len() > 2 {
        Some(trimmed(parts[2]))
    } else {
        match s.category_named("General"@) {
            Some(i) => Some(decimal(s.categories[i].id)),
            None => None,
        }
    }
}

/// What `!addquestion <question> | <answer> | <category>` leads to. The
/// question and the answer are what stands before and after the first `|`,
/// trimmed. The sender pays the price of a question, which they must have.
pub open spec fn addquestion_step(s: StoreView, msg: ChatMessageView) -> StoreStep {
    let parts = split_on(response_of(msg.text), '|');
    match s.chatter_at(msg.sender_id) {
        None => answer(s, "Something went wrong! Try Again!"@),
        Some(c) => if parts.len() < 2 {
            answer(s, "Invalid format! Use !addquestion <question> | <answer>"@)
        } else {
            match category_word(s, parts) {
                None => answer(
                    s,
                    "Category not found! Use !listcategories to see available categories."@,
                ),
                Some(word) => if trimmed(parts[0]).len() == 0 || trimmed(parts[1]).len() == 0
                    || word.len() == 0 {
                    answer(
                        s,
                        "Your Question, Answer, or Category Id is empty! Use '!addquestion <question> | <answer> | <category_id>' to know which category id to use type !listcategories; "@,
                    )
                } else {
                    match spec_parse_i32(word) {
                        None => answer(
                            s,
                            "Invalid category id! Use !listcategories to see available categories."@,
                        ),
                        Some(id) => if s.category_at(id as int) is None {
                            answer(
                                s,
                                "Category not found! Use !listcategories to see available categories."@,
                            )
                        } else if s.chatters[c].points < QUESTION_PRICE {
                            answer(
                                s,
                                "You don't have enough points to add a question! It costs 5000 points to add a question."@,
                            )
                        } else if s.question_error(s.chatters[c].twitch_id, id as int) is Some {
                            answer(s, "Something went wrong! Try Again!"@)
                        } else {
                            StoreStep {
                                store: s.push_question(
                                    s.new_question(
                                        trimmed(parts[0]),
                                        trimmed(parts[1]),
                                        spec_parse_i32(s.chatters[c].twitch_id).unwrap() as int,
                                        id as int,
                                    ),
                                ).subtract_points(s.chatters[c].twitch_id, QUESTION_PRICE as int),
                                out: seq![reply_view("Question Added!"@)],
                            }
                        },
                    }
                },
            }
        },
    }
}

/// Handles `!addquestion <question> | <answer> | <category>`.
pub fn handle_addquestion_command(store: &mut Store, msg: &ChatMessage) -> (out: Vec<Outgoing>)
    requires
        old(store)@.wf(),
    ensures
        final(store)@.wf(),
        (StoreStep { store: final(store)@, out: outbox(out@) }) == addquestion_step(
            old(store)@,
            msg@,
        ),
{
    let words = split(msg.text.as_str(), ' ');
    let chatter = match store.get_chatter(msg.sender_id.as_str()) {
        Some(chatter) => chatter,
        None => {
            return one(reply_to("Something went wrong! Try Again!"));
        },
    };
    let response = join_from(&words, 1, " ");
    let parts = split(response.as_str(), '|');
    if parts.len() < 2 {
        return one(reply_to("Invalid format! Use !addquestion <question> | <answer>"));
    }
    proof {
        assert(texts(parts@)[0] == parts@[0]@);
        assert(texts(parts@)[1] == parts@[1]@);
    }
    let question = trim(parts[0].as_str());
    let answer = trim(parts[1].as_str());
    let cat_id: String = if parts.len() > 2 {
        assert(texts(parts@)[2] == parts@[2]@);
        trim(parts[2].as_str())
    } else {
        match store._get_general_category() {
            Some(general) => decimal_string(general.id as i64),
            None => {
                return one(
                    reply_to(
                        "Category not found! Use !listcategories to see available categories.",
                    ),
                );
            },
        }
    };
    if question.as_str().unicode_len() == 0 || answer.as_str().unicode_len() == 0
        || cat_id.as_str().unicode_len() == 0 {
        return one(
            reply_to(
                "Your Question, Answer, or Category Id is empty! Use '!addquestion <question> | <answer> | <category_id>' to know which category id to use type !listcategories; ",
            ),
        );
    }
    let category = match parse_i32(cat_id.as_str()) {
        Some(id) => match store.get_category(id) {
            Some(category) => category,
            None => {
                return one(
                    reply_to(
                        "Category not found! Use !listcategories to see available categories.",
                    ),
                );
            },
        },
        None => {
            return one(
                reply_to("Invalid category id! Use !listcategories to see available categories."),
            );
        },
    };
    proof {
        crate::search::lemma_first_index(
            store@.categories,
            |c: crate::models::CategoryView| c.id == spec_parse_i32(cat_id@).unwrap() as int,
        );
    }
    if chatter.points < QUESTION_PRICE {
        return one(
            reply_to(
                "You don't have enough points to add a question! It costs 5000 points to add a question.",
            ),
        );
    }
    match Question::new(store, question.as_str(), answer.as_str(), &category, &chatter) {
        Ok(_) => {},
        Err(_) => {
            return one(reply_to("Something went wrong! Try Again!"));
        },
    }
    subtract_points(store, chatter.twitch_id.as_str(), QUESTION_PRICE);
    one(reply_to("Question Added!"))
}

/// Whether `c` may stand in the name of a category: a letter, a number, a
/// space, or one of `?`, `!` and `.`.
pub open spec fn is_category_char(c: char) -> bool {
    letter_or_number(c) || c == ' ' || c == '?' || c == '!' || c == '.'
}

/// The name of a category as it is stored: trimmed and in lower case.
pub open spec fn cleaned_category(name: Seq<char>) -> Seq<char> {
    lowercase(trimmed(name))
}

/// Whether `name` can name a category: it is not empty, and every
/// character of its stored form may stand in such a name.
pub open spec fn valid_category(name: Seq<char>) -> bool {
    name.len() > 0 && forall|i: int|
        0 <= i < cleaned_category(name).len() ==> is_category_char(
            #[trigger] cleaned_category(name)[i],
        )
}

/// Whether `category` can name a category.
pub fn is_valid_category(category: &str) -> (r: bool)
    ensures
        r == valid_category(category@),
{
    if category.unicode_len() == 0 {
        return false;
    }
    let cleaned = trim(category).as_str().to_lowercase();
    let v = chars_of(cleaned.as_str());
    let mut i: usize = 0;
    while i < v.len()
        invariant
            0 <= i <= v.len(),
            v@ == cleaned_category(category@),
            forall|j: int| 0 <= j < i ==> is_category_char(#[trigger] v@[j]),
        decreases v.len() - i,
    {
        let c = v[i];
        if !(c.is_alphanumeric() || c == ' ' || c == '?' || c == '!' || c == '.') {
            assert(!is_category_char(cleaned_category(category@)[i as int]));
            return false;
        }
        i += 1;
    }
    true
}

/// What `!addcategory <name>` leads to at `now`. The name is what follows
/// the command. Everybody but the broadcaster pays the price of a category,
/// which they must have. The name must be valid and new, and the sender's
/// chat identity must write a number, by which the category records them.
pub open spec fn addcategory_step(
    s: StoreView,
    msg: ChatMessageView,
    broadcaster_id: Seq<char>,
    now: int,
) -> StoreStep {
    let name = response_of(msg.text);
    let free = msg.sender_id == broadcaster_id;
    match s.chatter_at(msg.sender_id) {
        None => answer(s, "Chatter not found!"@),
        Some(c) => if !free && s.chatters[c].points < CATEGORY_PRICE {
            answer(
                s,
                "You don't have enough points to add a category! It costs 50000 points to add a category."@,
            )
        } else if !valid_category(name) {
            answer(
                s,
                "Invalid category name! Category names cannot be empty, and can only contain alphanumeric characters, spaces, and the following special characters: !, ?, ."@,
            )
        } else if s.category_named(cleaned_category(name)) is Some {
            answer(s, "Category already exists! Provide a new category name."@)
        } else if spec_parse_i32(msg.sender_id) is None || s.next_category_id() > i32::MAX {
            answer(s, "Something went wrong! Try Again!"@)
        } else {
            let added = s.push_category(
                crate::models::CategoryView {
                    id: s.next_category_id(),
                    name: cleaned_category(name),
                    submitter_id: spec_parse_i32(msg.sender_id).unwrap() as int,
                    created_at: now,
                },
            );
            StoreStep {
                store: if free {
                    added
                } else {
                    added.subtract_points(msg.sender_id, CATEGORY_PRICE as int)
                },
                out: seq![reply_view("Category Added!"@)],
            }
        },
    }
}

/// Handles `!addcategory <name>`.
pub fn handle_addcategory_command(
    store: &mut Store,
    msg: &ChatMessage,
    broadcaster_id: &str,
    now: i64,
) -> (out: Vec<Outgoing>)
    requires
        old(store)@.wf(),
    ensures
        final(store)@.wf(),
        (StoreStep { store: final(store)@, out: outbox(out@) }) == addcategory_step(
            old(store)@,
            msg@,
            broadcaster_id@,
            now as int,
        ),
{
    let words = split(msg.text.as_str(), ' ');
    let responder_id = msg.sender_id.as_str();
    let new_category = join_from(&words, 1, " ");
    let responder = match store.get_chatter(responder_id) {
        Some(chatter) => chatter,
        None => {
            return one(reply_to("Chatter not found!"));
        },
    };
    let comparison = responder_id.eq(broadcaster_id);
    if !comparison {
        if responder.points < CATEGORY_PRICE {
            return one(
                reply_to(
                    "You don't have enough points to add a category! It costs 50000 points to add a category.",
                ),
            );
        }
    }
    if !is_valid_category(new_category.as_str()) {
        return one(
            reply_to(
                "Invalid category name! Category names cannot be empty, and can only contain alphanumeric characters, spaces, and the following special characters: !, ?, .",
            ),
        );
    }
    let cleaned_category = trim(new_category.as_str()).as_str().to_lowercase();
    match store.get_category_by_name(cleaned_category.as_str()) {
        Some(_) => one(reply_to("Category already exists! Provide a new category name.")),
        None => {
            let submitter = match parse_i32(responder_id) {
                Some(id) => id,
                None => {
                    return one(reply_to("Something went wrong! Try Again!"));
                },
            };
            match store.create_category(cleaned_category.as_str(), submitter, now) {
                Ok(_) => {},
                Err(_) => {
                    return one(reply_to("Something went wrong! Try Again!"));
                },
            }
            if !comparison {
                subtract_points(store, responder_id, CATEGORY_PRICE);
            }
            one(reply_to("Category Added!"))
        },
    }
}

} // verus!
