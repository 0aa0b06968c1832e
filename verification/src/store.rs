//! The store: the four tables that the publishing workflow works on.

use crate::answer::{Answer, AnswerView};
use crate::category::{Category, CategoryView};
use crate::error::{CustomError, ErrorView};
use crate::poll::{Poll, PollView};
use crate::table::{ascending, views, Table};
use crate::tip::{Tip, TipView};
use vstd::prelude::*;

verus! {

/// The categories, polls, answers and tips that were registered.
#[derive(Debug)]
pub struct Store {
    pub categories: Table<Category>,
    pub polls: Table<Poll>,
    pub answers: Table<Answer>,
    pub tips: Table<Tip>,
}

/// The mathematical value of a [`Store`]: the rows of each table, in
/// ascending order of their ids.
pub struct StoreView {
    pub categories: Seq<CategoryView>,
    pub polls: Seq<PollView>,
    pub answers: Seq<AnswerView>,
    pub tips: Seq<TipView>,
}

impl StoreView {
    /// A store is well formed when the ids of each table ascend.
    pub open spec fn wf(self) -> bool {
        &&& ascending::<Category>(self.categories)
        &&& ascending::<Poll>(self.polls)
        &&& ascending::<Answer>(self.answers)
        &&& ascending::<Tip>(self.tips)
    }
}

impl View for Store {
    type V = StoreView;

    open spec fn view(&self) -> StoreView {
        StoreView {
            categories: self.categories@,
            polls: self.polls@,
            answers: self.answers@,
            tips: self.tips@,
        }
    }
}

impl Store {
    /// A store is well formed when its view is.
    pub open spec fn wf(&self) -> bool {
        self@.wf()
    }

    /// The store without rows.
    pub fn new() -> (store: Store)
        ensures
            store.wf(),
            store@.categories.len() == 0,
            store@.polls.len() == 0,
            store@.answers.len() == 0,
            store@.tips.len() == 0,
    {
        Store {
            categories: Table::new(),
            polls: Table::new(),
            answers: Table::new(),
            tips: Table::new(),
        }
    }

    /// The store that holds the given rows. The rows of each table must
    /// stand in ascending order of their ids; otherwise the store is
    /// refused with a server error.
    pub fn from_tables(
        categories: Vec<Category>,
        polls: Vec<Poll>,
        answers: Vec<Answer>,
        tips: Vec<Tip>,
    ) -> (store: Result<Store, CustomError>)
        ensures
            match store {
                Ok(store) => {
                    &&& store.wf()
                    &&& store@ == (StoreView {
                        categories: views(categories@),
                        polls: views(polls@),
                        answers: views(answers@),
                        tips: views(tips@),
                    })
                },
                Err(error) => {
                    &&& error@ == ErrorView::unordered()
                    &&& !(StoreView {
                        categories: views(categories@),
                        polls: views(polls@),
                        answers: views(answers@),
                        tips: views(tips@),
                    }).wf()
                },
            },
    {
        let categories = match Table::from_rows(categories) {
            Some(table) => table,
            None => {
                return Err(CustomError::unordered());
            },
        };
        let polls = match Table::from_rows(polls) {
            Some(table) => table,
            None => {
                return Err(CustomError::unordered());
            },
        };
        let answers = match Table::from_rows(answers) {
            Some(table) => table,
            None => {
                return Err(CustomError::unordered());
            },
        };
        let tips = match Table::from_rows(tips) {
            Some(table) => table,
            None => {
                return Err(CustomError::unordered());
            },
        };
        Ok(Store { categories, polls, answers, tips })
    }
}

} // verus!
