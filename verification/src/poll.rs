//! Polls: quiz questions that are delivered once, oldest first.

use crate::answer::{Answer, AnswerView, NewBasicAnswer, NewBasicAnswerView};
use crate::error::{CustomError, ErrorView};
use crate::store::{Store, StoreView};
use crate::table::{
    following_key, has_room, holds, lookup, oldest_pending, place, views, Publishable, Record,
};
use vstd::prelude::*;

verus! {

/// A quiz question under a category.
#[derive(Debug)]
pub struct Poll {
    id: i64,
    category_id: i64,
    question: String,
    published: bool,
}

/// A poll that has no id yet.
#[derive(Debug)]
pub struct NewPoll {
    category_id: i64,
    question: String,
}

/// A poll as it is authored: under the name of its category, with its
/// answers.
#[derive(Debug)]
pub struct NewPollWithAnswers {
    pub category: String,
    pub question: String,
    pub answers: Vec<NewBasicAnswer>,
}

/// A poll together with its answers, in ascending order of their ids.
#[derive(Debug)]
pub struct PollWithAnswers {
    id: i64,
    category_id: i64,
    question: String,
    published: bool,
    pub answers: Vec<Answer>,
}

/// The mathematical value of a [`Poll`].
pub struct PollView {
    pub id: int,
    pub category_id: int,
    pub question: Seq<char>,
    pub published: bool,
}

/// The mathematical value of a [`NewPoll`].
pub struct NewPollView {
    pub category_id: int,
    pub question: Seq<char>,
}

/// The mathematical value of a [`NewPollWithAnswers`].
pub struct NewPollWithAnswersView {
    pub category: Seq<char>,
    pub question: Seq<char>,
    pub answers: Seq<NewBasicAnswerView>,
}

/// The mathematical value of a [`PollWithAnswers`].
pub struct PollWithAnswersView {
    pub id: int,
    pub category_id: int,
    pub question: Seq<char>,
    pub published: bool,
    pub answers: Seq<AnswerView>,
}

impl NewPollView {
    /// The pending poll that this one becomes under the id `id`.
    pub open spec fn with_id(self, id: int) -> PollView {
        PollView { id, category_id: self.category_id, question: self.question, published: false }
    }
}

impl PollView {
    /// The poll together with `answers`.
    pub open spec fn with_answers(self, answers: Seq<AnswerView>) -> PollWithAnswersView {
        PollWithAnswersView {
            id: self.id,
            category_id: self.category_id,
            question: self.question,
            published: self.published,
            answers,
        }
    }
}

impl View for Poll {
    type V = PollView;

    closed spec fn view(&self) -> PollView {
        PollView {
            id: self.id as int,
            category_id: self.category_id as int,
            question: self.question@,
            published: self.published,
        }
    }
}

impl View for NewPoll {
    type V = NewPollView;

    closed spec fn view(&self) -> NewPollView {
        NewPollView { category_id: self.category_id as int, question: self.question@ }
    }
}

impl View for NewPollWithAnswers {
    type V = NewPollWithAnswersView;

    open spec fn view(&self) -> NewPollWithAnswersView {
        NewPollWithAnswersView {
            category: self.category@,
            question: self.question@,
            answers: views(self.answers@),
        }
    }
}

impl View for PollWithAnswers {
    type V = PollWithAnswersView;

    closed spec fn view(&self) -> PollWithAnswersView {
        PollWithAnswersView {
            id: self.id as int,
            category_id: self.category_id as int,
            question: self.question@,
            published: self.published,
            answers: views(self.answers@),
        }
    }
}

impl Clone for Poll {
    fn clone(&self) -> (copy: Self)
        ensures
            copy@ == self@,
    {
        Poll {
            id: self.id,
            category_id: self.category_id,
            question: self.question.clone(),
            published: self.published,
        }
    }
}

impl Clone for NewPoll {
    fn clone(&self) -> (copy: Self)
        ensures
            copy@ == self@,
    {
        NewPoll { category_id: self.category_id, question: self.question.clone() }
    }
}

impl Clone for NewPollWithAnswers {
    fn clone(&self) -> (copy: Self)
        ensures
            copy@ == self@,
    {
        let answers = self.answers.clone();
        proof {
            assert(views(answers@) =~= views(self.answers@));
        }
        NewPollWithAnswers {
            category: self.category.clone(),
            question: self.question.clone(),
            answers,
        }
    }
}

impl Clone for PollWithAnswers {
    fn clone(&self) -> (copy: Self)
        ensures
            copy@ == self@,
    {
        let answers = self.answers.clone();
        proof {
            assert(views(answers@) =~= views(self.answers@));
        }
        PollWithAnswers {
            id: self.id,
            category_id: self.category_id,
            question: self.question.clone(),
            published: self.published,
            answers,
        }
    }
}

impl Record for Poll {
    open spec fn key(row: PollView) -> int {
        row.id
    }

    fn id(&self) -> (id: i64) {
        self.id
    }

    proof fn clone_keeps_view(row: Self, copy: Self) {
    }
}

impl Publishable for Poll {
    open spec fn published(row: PollView) -> bool {
        row.published
    }

    open spec fn delivered(row: PollView) -> PollView {
        PollView { published: true, ..row }
    }

    fn is_published(&self) -> (published: bool) {
        self.published
    }

    fn publish(&mut self) {
        self.published = true;
    }

    proof fn delivered_is_published(row: PollView) {
    }
}

/// The flag of a row that was never delivered.
pub fn get_default_published() -> (published: bool)
    ensures
        !published,
{
    false
}

impl NewPoll {
    /// A poll to register under the category `category_id`.
    pub fn new(category_id: i64, question: String) -> (poll: Self)
        ensures
            poll@ == (NewPollView { category_id: category_id as int, question: question@ }),
    {
        NewPoll { category_id, question }
    }
}

impl PollWithAnswers {
    /// The poll with these values, together with `answers`.
    pub fn new(
        id: i64,
        category_id: i64,
        question: String,
        published: bool,
        answers: Vec<Answer>,
    ) -> (poll: Self)
        ensures
            poll@ == (PollWithAnswersView {
                id: id as int,
                category_id: category_id as int,
                question: question@,
                published,
                answers: views(answers@),
            }),
    {
        PollWithAnswers { id, category_id, question, published, answers }
    }

    /// The poll's id.
    pub fn get_id(&self) -> (id: i64)
        ensures
            id == self@.id,
    {
        self.id
    }

    /// The id of the poll's category.
    pub fn get_category_id(&self) -> (category_id: i64)
        ensures
            category_id == self@.category_id,
    {
        self.category_id
    }

    /// The question that the poll asks.
    pub fn get_question(&self) -> (question: &str)
        ensures
            question@ == self@.question,
    {
        self.question.as_str()
    }

    /// Whether the poll was delivered.
    pub fn get_published(&self) -> (published: bool)
        ensures
            published == self@.published,
    {
        self.published
    }

    /// The poll's answers, in ascending order of their ids.
    pub fn get_answers(&self) -> (answers: &Vec<Answer>)
        ensures
            views(answers@) == self@.answers,
    {
        &self.answers
    }
}

impl Poll {
    /// The poll that a stored row with these column values stands for.
    pub fn from_row(id: i64, category_id: i64, question: String, published: bool) -> (poll: Self)
        ensures
            poll@ == (PollView {
                id: id as int,
                category_id: category_id as int,
                question: question@,
                published,
            }),
    {
        Poll { id, category_id, question, published }
    }

    /// The poll's id.
    pub fn get_id(&self) -> (id: i64)
        ensures
            id == self@.id,
    {
        self.id
    }

    /// The id of the poll's category.
    pub fn get_category_id(&self) -> (category_id: i64)
        ensures
            category_id == self@.category_id,
    {
        self.category_id
    }

    /// The question that the poll asks.
    pub fn get_question(&self) -> (question: &str)
        ensures
            question@ == self@.question,
    {
        self.question.as_str()
    }

    /// Whether the poll was delivered.
    pub fn get_published(&self) -> (published: bool)
        ensures
            published == self@.published,
    {
        self.published
    }

    /// Sets whether the poll counts as delivered.
    pub fn set_published(&mut self, published: bool)
        ensures
            final(self)@ == (PollView { published, ..old(self)@ }),
    {
        self.published = published;
    }

    /// Registers `new_poll` as a pending poll under the next id and returns
    /// the row. Fails with a server error, and changes nothing, if no id is
    /// left.
    pub fn create(store: &mut Store, new_poll: NewPoll) -> (created: Result<Poll, CustomError>)
        requires
            old(store).wf(),
        ensures
            final(store).wf(),
            match created {
                Ok(poll) => {
                    &&& has_room::<Poll>(old(store)@.polls, 1)
                    &&& poll@ == new_poll@.with_id(following_key::<Poll>(old(store)@.polls))
                    &&& final(store)@ == (StoreView {
                        polls: old(store)@.polls.push(poll@),
                        ..old(store)@
                    })
                },
                Err(error) => {
                    &&& !has_room::<Poll>(old(store)@.polls, 1)
                    &&& error@ == ErrorView::exhausted()
                    &&& final(store)@ == old(store)@
                },
            },
    {
        match store.polls.next_id() {
            Some(id) => {
                let poll = Poll {
                    id,
                    category_id: new_poll.category_id,
                    question: new_poll.question,
                    published: get_default_published(),
                };
                store.polls.append(poll.clone());
                Ok(poll)
            },
            None => Err(CustomError::exhausted()),
        }
    }

    /// The poll with the id `id`; not found if there is none.
    pub fn read(store: &Store, id: i64) -> (found: Result<Poll, CustomError>)
        requires
            store.wf(),
        ensures
            match found {
                Ok(poll) => lookup::<Poll>(store@.polls, id as int) == Some(poll@),
                Err(error) => {
                    &&& lookup::<Poll>(store@.polls, id as int) is None
                    &&& error@ == ErrorView::NotFound
                },
            },
    {
        match store.polls.get(id) {
            Some(poll) => Ok(poll),
            None => Err(CustomError::NotFound),
        }
    }

    /// The pending poll with the smallest id, if any poll is pending.
    pub fn read_not_published(store: &Store) -> (next: Option<Poll>)
        requires
            store.wf(),
        ensures
            match next {
                Some(poll) => oldest_pending::<Poll>(store@.polls) == Some(poll@),
                None => oldest_pending::<Poll>(store@.polls) is None,
            },
    {
        store.polls.oldest_pending()
    }

    /// Every poll, in ascending order of the ids.
    pub fn read_all(store: &Store) -> (polls: Vec<Poll>)
        ensures
            views(polls@) == store@.polls,
    {
        store.polls.rows()
    }

    /// Replaces the poll that has the id of `poll` with `poll` and returns
    /// the row as stored; not found, and nothing changed, if there is none.
    pub fn update(store: &mut Store, poll: Poll) -> (updated: Result<Poll, CustomError>)
        requires
            old(store).wf(),
        ensures
            final(store).wf(),
            match updated {
                Ok(row) => {
                    &&& holds::<Poll>(old(store)@.polls, poll@.id)
                    &&& row@ == poll@
                    &&& final(store)@ == (StoreView {
                        polls: old(store)@.polls.update(
                            place::<Poll>(old(store)@.polls, poll@.id),
                            poll@,
                        ),
                        ..old(store)@
                    })
                },
                Err(error) => {
                    &&& !holds::<Poll>(old(store)@.polls, poll@.id)
                    &&& error@ == ErrorView::NotFound
                    &&& final(store)@ == old(store)@
                },
            },
    {
        let row = poll.clone();
        if store.polls.replace(poll) {
            Ok(row)
        } else {
            Err(CustomError::NotFound)
        }
    }

    /// Removes the poll with the id `id` and returns it; not found, and
    /// nothing changed, if there is none.
    pub fn delete(store: &mut Store, id: i64) -> (deleted: Result<Poll, CustomError>)
        requires
            old(store).wf(),
        ensures
            final(store).wf(),
            match deleted {
                Ok(poll) => {
                    &&& lookup::<Poll>(old(store)@.polls, id as int) == Some(poll@)
                    &&& final(store)@ == (StoreView {
                        polls: old(store)@.polls.remove(
                            place::<Poll>(old(store)@.polls, id as int),
                        ),
                        ..old(store)@
                    })
                },
                Err(error) => {
                    &&& lookup::<Poll>(old(store)@.polls, id as int) is None
                    &&& error@ == ErrorView::NotFound
                    &&& final(store)@ == old(store)@
                },
            },
    {
        match store.polls.remove(id) {
            Some(poll) => Ok(poll),
            None => Err(CustomError::NotFound),
        }
    }
}

} // verus!
