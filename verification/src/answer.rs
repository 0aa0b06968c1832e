//! Answers: the options of a poll, one or more of them marked correct.

use crate::error::{CustomError, ErrorView};
use crate::store::{Store, StoreView};
use crate::table::{following_key, has_room, holds, lookup, place, views, Record};
use vstd::prelude::*;

verus! {

/// One option of a poll.
#[derive(Debug)]
pub struct Answer {
    id: i64,
    poll_id: i64,
    text: String,
    isok: bool,
}

/// An answer that has no id yet.
#[derive(Debug)]
pub struct NewAnswer {
    poll_id: i64,
    text: String,
    isok: bool,
}

/// An answer as it is authored together with its poll: it names no poll.
#[derive(Debug)]
pub struct NewBasicAnswer {
    pub text: String,
    pub isok: bool,
}

/// The mathematical value of an [`Answer`].
pub struct AnswerView {
    pub id: int,
    pub poll_id: int,
    pub text: Seq<char>,
    pub isok: bool,
}

/// The mathematical value of a [`NewAnswer`].
pub struct NewAnswerView {
    pub poll_id: int,
    pub text: Seq<char>,
    pub isok: bool,
}

/// The mathematical value of a [`NewBasicAnswer`].
pub struct NewBasicAnswerView {
    pub text: Seq<char>,
    pub isok: bool,
}

impl NewAnswerView {
    /// The answer that this one becomes under the id `id`.
    pub open spec fn with_id(self, id: int) -> AnswerView {
        AnswerView { id, poll_id: self.poll_id, text: self.text, isok: self.isok }
    }
}

impl NewBasicAnswerView {
    /// The answer that this one becomes as an option of the poll `poll_id`.
    pub open spec fn of_poll(self, poll_id: int) -> NewAnswerView {
        NewAnswerView { poll_id, text: self.text, isok: self.isok }
    }
}

impl View for Answer {
    type V = AnswerView;

    closed spec fn view(&self) -> AnswerView {
        AnswerView {
            id: self.id as int,
            poll_id: self.poll_id as int,
            text: self.text@,
            isok: self.isok,
        }
    }
}

impl View for NewAnswer {
    type V = NewAnswerView;

    closed spec fn view(&self) -> NewAnswerView {
        NewAnswerView { poll_id: self.poll_id as int, text: self.text@, isok: self.isok }
    }
}

impl View for NewBasicAnswer {
    type V = NewBasicAnswerView;

    open spec fn view(&self) -> NewBasicAnswerView {
        NewBasicAnswerView { text: self.text@, isok: self.isok }
    }
}

impl Clone for Answer {
    fn clone(&self) -> (copy: Self)
        ensures
            copy@ == self@,
    {
        Answer { id: self.id, poll_id: self.poll_id, text: self.text.clone(), isok: self.isok }
    }
}

impl Clone for NewAnswer {
    fn clone(&self) -> (copy: Self)
        ensures
            copy@ == self@,
    {
        NewAnswer { poll_id: self.poll_id, text: self.text.clone(), isok: self.isok }
    }
}

impl Clone for NewBasicAnswer {
    fn clone(&self) -> (copy: Self)
        ensures
            copy@ == self@,
    {
        NewBasicAnswer { text: self.text.clone(), isok: self.isok }
    }
}

impl Record for Answer {
    open spec fn key(row: AnswerView) -> int {
        row.id
    }

    fn id(&self) -> (id: i64) {
        self.id
    }

    proof fn clone_keeps_view(row: Self, copy: Self) {
    }
}

/// The answers among `answers` that belong to the poll `poll_id`, in the
/// order in which they stand.
pub open spec fn answers_of(answers: Seq<AnswerView>, poll_id: int) -> Seq<AnswerView> {
    answers.filter(|answer: AnswerView| answer.poll_id == poll_id)
}

/// The texts of `answers`, in order.
pub open spec fn texts(answers: Seq<AnswerView>) -> Seq<Seq<char>> {
    Seq::new(answers.len(), |i: int| answers[i].text)
}

/// Whether some answer of `answers` is marked correct.
pub open spec fn has_correct(answers: Seq<AnswerView>) -> bool {
    exists|i: int| 0 <= i < answers.len() && (#[trigger] answers[i]).isok
}

/// Whether the answer at `i` is marked correct and none before it is.
pub open spec fn is_first_correct(answers: Seq<AnswerView>, i: int) -> bool {
    &&& 0 <= i < answers.len()
    &&& answers[i].isok
    &&& forall|j: int| 0 <= j < i ==> !(#[trigger] answers[j]).isok
}

/// The zero-based place of the first answer that is marked correct, if any
/// is.
pub open spec fn first_correct(answers: Seq<AnswerView>) -> Option<int> {
    if has_correct(answers) {
        Some(choose|i: int| is_first_correct(answers, i))
    } else {
        None
    }
}

/// A correct answer before which none is correct is the first correct one.
pub proof fn lemma_first_correct_at(answers: Seq<AnswerView>, i: int)
    requires
        is_first_correct(answers, i),
    ensures
        first_correct(answers) == Some(i),
{
}

/// Among the first `n` answers, if any is marked correct, one is the first
/// that is.
proof fn lemma_earliest_correct(answers: Seq<AnswerView>, n: int) -> (earliest: int)
    requires
        0 <= n <= answers.len(),
        exists|j: int| 0 <= j < n && (#[trigger] answers[j]).isok,
    ensures
        is_first_correct(answers, earliest),
        earliest < n,
    decreases n,
{
    if exists|j: int| 0 <= j < n - 1 && (#[trigger] answers[j]).isok {
        lemma_earliest_correct(answers, n - 1)
    } else {
        n - 1
    }
}

/// The place that `first_correct` yields is that of an answer marked
/// correct before which none is; it yields nothing only if no answer is
/// marked correct.
pub proof fn lemma_first_correct(answers: Seq<AnswerView>)
    ensures
        match first_correct(answers) {
            Some(i) => is_first_correct(answers, i),
            None => forall|j: int| 0 <= j < answers.len() ==> !(#[trigger] answers[j]).isok,
        },
{
    if has_correct(answers) {
        let earliest = lemma_earliest_correct(answers, answers.len() as int);
    }
}

/// The zero-based place of the first of `answers` that is marked correct,
/// if any is.
pub fn correct_option(answers: &Vec<Answer>) -> (index: Option<usize>)
    ensures
        match index {
            Some(i) => i < answers.len() && first_correct(views(answers@)) == Some(i as int),
            None => first_correct(views(answers@)) is None,
        },
{
    let mut i: usize = 0;
    while i < answers.len()
        invariant
            i <= answers.len(),
            forall|j: int| 0 <= j < i ==> !(#[trigger] views(answers@)[j]).isok,
        decreases answers.len() - i,
    {
        if answers[i].isok {
            proof {
                lemma_first_correct_at(views(answers@), i as int);
            }
            return Some(i);
        }
        i = i + 1;
    }
    None
}

/// The texts of `answers`, in order.
pub fn option_texts(answers: &Vec<Answer>) -> (options: Vec<String>)
    ensures
        options.len() == answers.len(),
        views(options@) == texts(views(answers@)),
{
    let mut options: Vec<String> = Vec::new();
    let mut i: usize = 0;
    while i < answers.len()
        invariant
            i <= answers.len(),
            options.len() == i,
            forall|k: int| 0 <= k < i ==> (#[trigger] options[k])@ == answers[k]@.text,
        decreases answers.len() - i,
    {
        options.push(answers[i].text.clone());
        i = i + 1;
    }
    options
}

/// The mark of an answer that does not say whether it is correct.
pub fn get_default_isok() -> (isok: bool)
    ensures
        !isok,
{
    false
}

impl NewAnswer {
    /// An answer to register for the poll `poll_id`.
    pub fn new(poll_id: i64, text: String, isok: bool) -> (answer: Self)
        ensures
            answer@ == (NewAnswerView { poll_id: poll_id as int, text: text@, isok }),
    {
        NewAnswer { poll_id, text, isok }
    }
}

impl Answer {
    /// The answer that a stored row with these column values stands for.
    pub fn from_row(id: i64, poll_id: i64, text: String, isok: bool) -> (answer: Self)
        ensures
            answer@ == (AnswerView { id: id as int, poll_id: poll_id as int, text: text@, isok }),
    {
        Answer { id, poll_id, text, isok }
    }

    /// The answer's id.
    pub fn get_id(&self) -> (id: i64)
        ensures
            id == self@.id,
    {
        self.id
    }

    /// The id of the poll that the answer belongs to.
    pub fn get_poll_id(&self) -> (poll_id: i64)
        ensures
            poll_id == self@.poll_id,
    {
        self.poll_id
    }

    /// The text shown for the option.
    pub fn get_text(&self) -> (text: &str)
        ensures
            text@ == self@.text,
    {
        self.text.as_str()
    }

    /// Whether the answer is marked correct.
    pub fn get_isok(&self) -> (isok: bool)
        ensures
            isok == self@.isok,
    {
        self.isok
    }

    /// Registers `new_answer` under the next id and returns the row. Fails
    /// with a server error, and changes nothing, if no id is left.
    pub fn create(store: &mut Store, new_answer: NewAnswer) -> (created: Result<
        Answer,
        CustomError,
    >)
        requires
            old(store).wf(),
        ensures
            final(store).wf(),
            match created {
                Ok(answer) => {
                    &&& has_room::<Answer>(old(store)@.answers, 1)
                    &&& answer@ == new_answer@.with_id(following_key::<Answer>(old(store)@.answers))
                    &&& final(store)@ == (StoreView {
                        answers: old(store)@.answers.push(answer@),
                        ..old(store)@
                    })
                },
                Err(error) => {
                    &&& !has_room::<Answer>(old(store)@.answers, 1)
                    &&& error@ == ErrorView::exhausted()
                    &&& final(store)@ == old(store)@
                },
            },
    {
        match store.answers.next_id() {
            Some(id) => {
                let answer = Answer {
                    id,
                    poll_id: new_answer.poll_id,
                    text: new_answer.text,
                    isok: new_answer.isok,
                };
                store.answers.append(answer.clone());
                Ok(answer)
            },
            None => Err(CustomError::exhausted()),
        }
    }

    /// The answer with the id `id`; not found if there is none.
    pub fn read(store: &Store, id: i64) -> (found: Result<Answer, CustomError>)
        requires
            store.wf(),
        ensures
            match found {
                Ok(answer) => lookup::<Answer>(store@.answers, id as int) == Some(answer@),
                Err(error) => {
                    &&& lookup::<Answer>(store@.answers, id as int) is None
                    &&& error@ == ErrorView::NotFound
                },
            },
    {
        match store.answers.get(id) {
            Some(answer) => Ok(answer),
            None => Err(CustomError::NotFound),
        }
    }

    /// Every answer, in ascending order of the ids.
    pub fn read_all(store: &Store) -> (answers: Vec<Answer>)
        ensures
            views(answers@) == store@.answers,
    {
        store.answers.rows()
    }

    /// The answers of the poll `poll_id`, in ascending order of their ids.
    pub fn read_for_poll(store: &Store, poll_id: i64) -> (answers: Vec<Answer>)
        ensures
            views(answers@) == answers_of(store@.answers, poll_id as int),
    {
        let ghost belongs = |answer: AnswerView| answer.poll_id == poll_id as int;
        let mut answers: Vec<Answer> = Vec::new();
        let mut i: usize = 0;
        while i < store.answers.len()
            invariant
                i <= store@.answers.len(),
                belongs == |answer: AnswerView| answer.poll_id == poll_id as int,
                views(answers@) == store@.answers.take(i as int).filter(belongs),
            decreases store@.answers.len() - i,
        {
            let answer = store.answers.row(i);
            proof {
                store@.answers.lemma_take_succ_push(i as int);
                store@.answers.take(i as int).lemma_filter_push(store@.answers[i as int], belongs);
            }
            if answer.poll_id == poll_id {
                answers.push(answer.clone());
            }
            i = i + 1;
        }
        proof {
            store@.answers.lemma_take_len();
        }
        answers
    }

    /// Among the answers of the poll `poll_id`, in ascending order of their
    /// ids, the zero-based place of the first that is marked correct, if
    /// any is.
    pub fn get_correct_answer_for_poll(store: &Store, poll_id: i64) -> (index: Option<usize>)
        ensures
            match index {
                Some(i) => first_correct(answers_of(store@.answers, poll_id as int)) == Some(
                    i as int,
                ),
                None => first_correct(answers_of(store@.answers, poll_id as int)) is None,
            },
    {
        let answers = Answer::read_for_poll(store, poll_id);
        correct_option(&answers)
    }

    /// Replaces the answer that has the id of `answer` with `answer` and
    /// returns the row as stored; not found, and nothing changed, if there
    /// is none.
    pub fn update(store: &mut Store, answer: Answer) -> (updated: Result<Answer, CustomError>)
        requires
            old(store).wf(),
        ensures
            final(store).wf(),
            match updated {
                Ok(row) => {
                    &&& holds::<Answer>(old(store)@.answers, answer@.id)
                    &&& row@ == answer@
                    &&& final(store)@ == (StoreView {
                        answers: old(store)@.answers.update(
                            place::<Answer>(old(store)@.answers, answer@.id),
                            answer@,
                        ),
                        ..old(store)@
                    })
                },
                Err(error) => {
                    &&& !holds::<Answer>(old(store)@.answers, answer@.id)
                    &&& error@ == ErrorView::NotFound
                    &&& final(store)@ == old(store)@
                },
            },
    {
        let row = answer.clone();
        if store.answers.replace(answer) {
            Ok(row)
        } else {
            Err(CustomError::NotFound)
        }
    }

    /// Removes the answer with the id `id` and returns it; not found, and
    /// nothing changed, if there is none.
    pub fn delete(store: &mut Store, id: i64) -> (deleted: Result<Answer, CustomError>)
        requires
            old(store).wf(),
        ensures
            final(store).wf(),
            match deleted {
                Ok(answer) => {
                    &&& lookup::<Answer>(old(store)@.answers, id as int) == Some(answer@)
                    &&& final(store)@ == (StoreView {
                        answers: old(store)@.answers.remove(
                            place::<Answer>(old(store)@.answers, id as int),
                        ),
                        ..old(store)@
                    })
                },
                Err(error) => {
                    &&& lookup::<Answer>(old(store)@.answers, id as int) is None
                    &&& error@ == ErrorView::NotFound
                    &&& final(store)@ == old(store)@
                },
            },
    {
        match store.answers.remove(id) {
            Some(answer) => Ok(answer),
            None => Err(CustomError::NotFound),
        }
    }
}

} // verus!
