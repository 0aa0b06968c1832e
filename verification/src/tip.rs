//! Tips: plain announcements that are delivered once, oldest first.

use crate::error::{CustomError, ErrorView};
use crate::store::{Store, StoreView};
use crate::table::{
    following_key, has_room, holds, lookup, oldest_pending, place, views, Publishable, Record,
};
use vstd::prelude::*;

verus! {

/// An announcement under a category.
#[derive(Debug)]
pub struct Tip {
    id: i64,
    category_id: i64,
    title: String,
    text: String,
    published: bool,
}

/// A tip that has no id yet.
#[derive(Debug)]
pub struct NewTip {
    category_id: i64,
    title: String,
    text: String,
    published: bool,
}

/// A tip as it is authored: under the name of its category.
#[derive(Debug)]
pub struct NewTipWithCategory {
    pub category: String,
    pub title: String,
    pub text: String,
}

/// The mathematical value of a [`Tip`].
pub struct TipView {
    pub id: int,
    pub category_id: int,
    pub title: Seq<char>,
    pub text: Seq<char>,
    pub published: bool,
}

/// The mathematical value of a [`NewTip`].
pub struct NewTipView {
    pub category_id: int,
    pub title: Seq<char>,
    pub text: Seq<char>,
    pub published: bool,
}

/// The mathematical value of a [`NewTipWithCategory`].
pub struct NewTipWithCategoryView {
    pub category: Seq<char>,
    pub title: Seq<char>,
    pub text: Seq<char>,
}

impl NewTipView {
    /// The tip that this one becomes under the id `id`.
    pub open spec fn with_id(self, id: int) -> TipView {
        TipView {
            id,
            category_id: self.category_id,
            title: self.title,
            text: self.text,
            published: self.published,
        }
    }
}

impl NewTipWithCategoryView {
    /// The pending tip that this one becomes under the category
    /// `category_id`.
    pub open spec fn under(self, category_id: int) -> NewTipView {
        NewTipView { category_id, title: self.title, text: self.text, published: false }
    }
}

impl View for Tip {
    type V = TipView;

    closed spec fn view(&self) -> TipView {
        TipView {
            id: self.id as int,
            category_id: self.category_id as int,
            title: self.title@,
            text: self.text@,
            published: self.published,
        }
    }
}

impl View for NewTip {
    type V = NewTipView;

    closed spec fn view(&self) -> NewTipView {
        NewTipView {
            category_id: self.category_id as int,
            title: self.title@,
            text: self.text@,
            published: self.published,
        }
    }
}

impl View for NewTipWithCategory {
    type V = NewTipWithCategoryView;

    open spec fn view(&self) -> NewTipWithCategoryView {
        NewTipWithCategoryView { category: self.category@, title: self.title@, text: self.text@ }
    }
}

impl Clone for Tip {
    fn clone(&self) -> (copy: Self)
        ensures
            copy@ == self@,
    {
        Tip {
            id: self.id,
            category_id: self.category_id,
            title: self.title.clone(),
            text: self.text.clone(),
            published: self.published,
        }
    }
}

impl Clone for NewTip {
    fn clone(&self) -> (copy: Self)
        ensures
            copy@ == self@,
    {
        NewTip {
            category_id: self.category_id,
            title: self.title.clone(),
            text: self.text.clone(),
            published: self.published,
        }
    }
}

impl Clone for NewTipWithCategory {
    fn clone(&self) -> (copy: Self)
        ensures
            copy@ == self@,
    {
        NewTipWithCategory {
            category: self.category.clone(),
            title: self.title.clone(),
            text: self.text.clone(),
        }
    }
}

impl Record for Tip {
    open spec fn key(row: TipView) -> int {
        row.id
    }

    fn id(&self) -> (id: i64) {
        self.id
    }

    proof fn clone_keeps_view(row: Self, copy: Self) {
    }
}

impl Publishable for Tip {
    open spec fn published(row: TipView) -> bool {
        row.published
    }

    open spec fn delivered(row: TipView) -> TipView {
        TipView { published: true, ..row }
    }

    fn is_published(&self) -> (published: bool) {
        self.published
    }

    fn publish(&mut self) {
        self.published = true;
    }

    proof fn delivered_is_published(row: TipView) {
    }
}

/// The flag of a row that was never delivered.
pub fn get_default_published() -> (published: bool)
    ensures
        !published,
{
    false
}

impl NewTip {
    /// A pending tip to register under the category `category_id`.
    pub fn new(category_id: i64, title: String, text: String) -> (tip: Self)
        ensures
            tip@ == (NewTipView {
                category_id: category_id as int,
                title: title@,
                text: text@,
                published: false,
            }),
    {
        NewTip { category_id, title, text, published: get_default_published() }
    }
}

impl Tip {
    /// The tip that a stored row with these column values stands for.
    pub fn from_row(id: i64, category_id: i64, title: String, text: String, published: bool) -> (tip:
        Self)
        ensures
            tip@ == (TipView {
                id: id as int,
                category_id: category_id as int,
                title: title@,
                text: text@,
                published,
            }),
    {
        Tip { id, category_id, title, text, published }
    }

    /// The tip's id.
    pub fn get_id(&self) -> (id: i64)
        ensures
            id == self@.id,
    {
        self.id
    }

    /// The id of the tip's category.
    pub fn get_category_id(&self) -> (category_id: i64)
        ensures
            category_id == self@.category_id,
    {
        self.category_id
    }

    /// The tip's title.
    pub fn get_title(&self) -> (title: &str)
        ensures
            title@ == self@.title,
    {
        self.title.as_str()
    }

    /// The text that is announced.
    pub fn get_text(&self) -> (text: &str)
        ensures
            text@ == self@.text,
    {
        self.text.as_str()
    }

    /// Whether the tip was delivered.
    pub fn get_published(&self) -> (published: bool)
        ensures
            published == self@.published,
    {
        self.published
    }

    /// Registers `new_tip` under the next id and returns the row. Fails
    /// with a server error, and changes nothing, if no id is left.
    pub fn create(store: &mut Store, new_tip: NewTip) -> (created: Result<Tip, CustomError>)
        requires
            old(store).wf(),
        ensures
            final(store).wf(),
            match created {
                Ok(tip) => {
                    &&& has_room::<Tip>(old(store)@.tips, 1)
                    &&& tip@ == new_tip@.with_id(following_key::<Tip>(old(store)@.tips))
                    &&& final(store)@ == (StoreView {
                        tips: old(store)@.tips.push(tip@),
                        ..old(store)@
                    })
                },
                Err(error) => {
                    &&& !has_room::<Tip>(old(store)@.tips, 1)
                    &&& error@ == ErrorView::exhausted()
                    &&& final(store)@ == old(store)@
                },
            },
    {
        match store.tips.next_id() {
            Some(id) => {
                let tip = Tip {
                    id,
                    category_id: new_tip.category_id,
                    title: new_tip.title,
                    text: new_tip.text,
                    published: new_tip.published,
                };
                store.tips.append(tip.clone());
                Ok(tip)
            },
            None => Err(CustomError::exhausted()),
        }
    }

    /// The tip with the id `id`; not found if there is none.
    pub fn read(store: &Store, id: i64) -> (found: Result<Tip, CustomError>)
        requires
            store.wf(),
        ensures
            match found {
                Ok(tip) => lookup::<Tip>(store@.tips, id as int) == Some(tip@),
                Err(error) => {
                    &&& lookup::<Tip>(store@.tips, id as int) is None
                    &&& error@ == ErrorView::NotFound
                },
            },
    {
        match store.tips.get(id) {
            Some(tip) => Ok(tip),
            None => Err(CustomError::NotFound),
        }
    }

    /// Every tip, in ascending order of the ids.
    pub fn read_all(store: &Store) -> (tips: Vec<Tip>)
        ensures
            views(tips@) == store@.tips,
    {
        store.tips.rows()
    }

    /// The pending tip with the smallest id, if any tip is pending.
    pub fn read_not_published(store: &Store) -> (next: Option<Tip>)
        requires
            store.wf(),
        ensures
            match next {
                Some(tip) => oldest_pending::<Tip>(store@.tips) == Some(tip@),
                None => oldest_pending::<Tip>(store@.tips) is None,
            },
    {
        store.tips.oldest_pending()
    }

    /// Replaces the tip that has the id of `tip` with `tip` and returns the
    /// row as stored; not found, and nothing changed, if there is none.
    pub fn update(store: &mut Store, tip: Tip) -> (updated: Result<Tip, CustomError>)
        requires
            old(store).wf(),
        ensures
            final(store).wf(),
            match updated {
                Ok(row) => {
                    &&& holds::<Tip>(old(store)@.tips, tip@.id)
                    &&& row@ == tip@
                    &&& final(store)@ == (StoreView {
                        tips: old(store)@.tips.update(
                            place::<Tip>(old(store)@.tips, tip@.id),
                            tip@,
                        ),
                        ..old(store)@
                    })
                },
                Err(error) => {
                    &&& !holds::<Tip>(old(store)@.tips, tip@.id)
                    &&& error@ == ErrorView::NotFound
                    &&& final(store)@ == old(store)@
                },
            },
    {
        let row = tip.clone();
        if store.tips.replace(tip) {
            Ok(row)
        } else {
            Err(CustomError::NotFound)
        }
    }

    /// Removes the tip with the id `id` and returns it; not found, and
    /// nothing changed, if there is none.
    pub fn delete(store: &mut Store, id: i64) -> (deleted: Result<Tip, CustomError>)
        requires
            old(store).wf(),
        ensures
            final(store).wf(),
            match deleted {
                Ok(tip) => {
                    &&& lookup::<Tip>(old(store)@.tips, id as int) == Some(tip@)
                    &&& final(store)@ == (StoreView {
                        tips: old(store)@.tips.remove(place::<Tip>(old(store)@.tips, id as int)),
                        ..old(store)@
                    })
                },
                Err(error) => {
                    &&& lookup::<Tip>(old(store)@.tips, id as int) is None
                    &&& error@ == ErrorView::NotFound
                    &&& final(store)@ == old(store)@
                },
            },
    {
        match store.tips.remove(id) {
            Some(tip) => Ok(tip),
            None => Err(CustomError::NotFound),
        }
    }
}

} // verus!
