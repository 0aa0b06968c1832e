//! Categories: the destinations under which polls and tips are authored.

use crate::error::{CustomError, ErrorView};
use crate::store::{Store, StoreView};
use crate::table::{following_key, has_room, holds, lookup, place, views, Record};
use vstd::prelude::*;
use vstd::string::*;

verus! {

/// A destination on the messaging platform: a chat and a thread in it.
#[derive(Debug)]
pub struct Category {
    id: i64,
    name: String,
    chat_id: String,
    thread_id: i64,
}

/// A category that has no id yet.
#[derive(Debug)]
pub struct NewCategory {
    name: String,
    chat_id: String,
    thread_id: i64,
}

/// The mathematical value of a [`Category`].
pub struct CategoryView {
    pub id: int,
    pub name: Seq<char>,
    pub chat_id: Seq<char>,
    pub thread_id: int,
}

/// The mathematical value of a [`NewCategory`].
pub struct NewCategoryView {
    pub name: Seq<char>,
    pub chat_id: Seq<char>,
    pub thread_id: int,
}

impl NewCategoryView {
    /// The category that this one becomes under the id `id`.
    pub open spec fn with_id(self, id: int) -> CategoryView {
        CategoryView { id, name: self.name, chat_id: self.chat_id, thread_id: self.thread_id }
    }
}

impl View for Category {
    type V = CategoryView;

    closed spec fn view(&self) -> CategoryView {
        CategoryView {
            id: self.id as int,
            name: self.name@,
            chat_id: self.chat_id@,
            thread_id: self.thread_id as int,
        }
    }
}

impl View for NewCategory {
    type V = NewCategoryView;

    closed spec fn view(&self) -> NewCategoryView {
        NewCategoryView {
            name: self.name@,
            chat_id: self.chat_id@,
            thread_id: self.thread_id as int,
        }
    }
}

impl Clone for Category {
    fn clone(&self) -> (copy: Self)
        ensures
            copy@ == self@,
    {
        Category {
            id: self.id,
            name: self.name.clone(),
            chat_id: self.chat_id.clone(),
            thread_id: self.thread_id,
        }
    }
}

impl Clone for NewCategory {
    fn clone(&self) -> (copy: Self)
        ensures
            copy@ == self@,
    {
        NewCategory {
            name: self.name.clone(),
            chat_id: self.chat_id.clone(),
            thread_id: self.thread_id,
        }
    }
}

impl Record for Category {
    open spec fn key(row: CategoryView) -> int {
        row.id
    }

    fn id(&self) -> (id: i64) {
        self.id
    }

    proof fn clone_keeps_view(row: Self, copy: Self) {
    }
}

/// Whether the category at `i` bears the name `name` and no category
/// before it does.
pub open spec fn is_first_named(categories: Seq<CategoryView>, name: Seq<char>, i: int) -> bool {
    &&& 0 <= i < categories.len()
    &&& categories[i].name == name
    &&& forall|j: int| 0 <= j < i ==> (#[trigger] categories[j]).name != name
}

/// Whether some category bears the name `name`.
pub open spec fn has_named(categories: Seq<CategoryView>, name: Seq<char>) -> bool {
    exists|i: int| 0 <= i < categories.len() && (#[trigger] categories[i]).name == name
}

/// The category that the name `name` resolves to: the first that bears it
/// exactly, if any does.
pub open spec fn named(categories: Seq<CategoryView>, name: Seq<char>) -> Option<CategoryView> {
    if has_named(categories, name) {
        Some(categories[choose|i: int| is_first_named(categories, name, i)])
    } else {
        None
    }
}

/// A category that bears `name`, and before which none does, is the one
/// that `name` resolves to.
pub proof fn lemma_named_at(categories: Seq<CategoryView>, name: Seq<char>, i: int)
    requires
        is_first_named(categories, name, i),
    ensures
        named(categories, name) == Some(categories[i]),
{
}

impl NewCategory {
    /// A category to register under `name`, bound to the thread `thread_id`
    /// of the chat `chat_id`.
    pub fn new(name: String, chat_id: String, thread_id: i64) -> (category: Self)
        ensures
            category@ == (NewCategoryView {
                name: name@,
                chat_id: chat_id@,
                thread_id: thread_id as int,
            }),
    {
        NewCategory { name, chat_id, thread_id }
    }
}

impl Category {
    /// The category that a stored row with these column values stands for.
    pub fn from_row(id: i64, name: String, chat_id: String, thread_id: i64) -> (category: Self)
        ensures
            category@ == (CategoryView {
                id: id as int,
                name: name@,
                chat_id: chat_id@,
                thread_id: thread_id as int,
            }),
    {
        Category { id, name, chat_id, thread_id }
    }

    /// The category's id.
    pub fn get_id(&self) -> (id: i64)
        ensures
            id == self@.id,
    {
        self.id
    }

    /// The name under which polls and tips are authored.
    pub fn get_name(&self) -> (name: &str)
        ensures
            name@ == self@.name,
    {
        self.name.as_str()
    }

    /// The chat that the category's items are delivered to.
    pub fn get_chat_id(&self) -> (chat_id: &str)
        ensures
            chat_id@ == self@.chat_id,
    {
        self.chat_id.as_str()
    }

    /// The thread of the chat that the category's items are delivered to.
    pub fn get_thread_id(&self) -> (thread_id: i64)
        ensures
            thread_id == self@.thread_id,
    {
        self.thread_id
    }

    /// Registers `new_category` under the next id and returns the row.
    /// Fails with a server error, and changes nothing, if no id is left.
    pub fn create(store: &mut Store, new_category: NewCategory) -> (created: Result<
        Category,
        CustomError,
    >)
        requires
            old(store).wf(),
        ensures
            final(store).wf(),
            match created {
                Ok(category) => {
                    &&& has_room::<Category>(old(store)@.categories, 1)
                    &&& category@ == new_category@.with_id(
                        following_key::<Category>(old(store)@.categories),
                    )
                    &&& final(store)@ == (StoreView {
                        categories: old(store)@.categories.push(category@),
                        ..old(store)@
                    })
                },
                Err(error) => {
                    &&& !has_room::<Category>(old(store)@.categories, 1)
                    &&& error@ == ErrorView::exhausted()
                    &&& final(store)@ == old(store)@
                },
            },
    {
        match store.categories.next_id() {
            Some(id) => {
                let category = Category {
                    id,
                    name: new_category.name,
                    chat_id: new_category.chat_id,
                    thread_id: new_category.thread_id,
                };
                store.categories.append(category.clone());
                Ok(category)
            },
            None => Err(CustomError::exhausted()),
        }
    }

    /// The category with the id `id`; not found if there is none.
    pub fn read(store: &Store, id: i64) -> (found: Result<Category, CustomError>)
        requires
            store.wf(),
        ensures
            match found {
                Ok(category) => lookup::<Category>(store@.categories, id as int) == Some(
                    category@,
                ),
                Err(error) => {
                    &&& lookup::<Category>(store@.categories, id as int) is None
                    &&& error@ == ErrorView::NotFound
                },
            },
    {
        match store.categories.get(id) {
            Some(category) => Ok(category),
            None => Err(CustomError::NotFound),
        }
    }

    /// Every category, in ascending order of the ids.
    pub fn read_all(store: &Store) -> (categories: Vec<Category>)
        ensures
            views(categories@) == store@.categories,
    {
        store.categories.rows()
    }

    /// Replaces the category that has the id of `category` with `category`
    /// and returns the row as stored; not found, and nothing changed, if
    /// there is none.
    pub fn update(store: &mut Store, category: Category) -> (updated: Result<
        Category,
        CustomError,
    >)
        requires
            old(store).wf(),
        ensures
            final(store).wf(),
            match updated {
                Ok(row) => {
                    &&& holds::<Category>(old(store)@.categories, category@.id)
                    &&& row@ == category@
                    &&& final(store)@ == (StoreView {
                        categories: old(store)@.categories.update(
                            place::<Category>(old(store)@.categories, category@.id),
                            category@,
                        ),
                        ..old(store)@
                    })
                },
                Err(error) => {
                    &&& !holds::<Category>(old(store)@.categories, category@.id)
                    &&& error@ == ErrorView::NotFound
                    &&& final(store)@ == old(store)@
                },
            },
    {
        let row = category.clone();
        if store.categories.replace(category) {
            Ok(row)
        } else {
            Err(CustomError::NotFound)
        }
    }

    /// Removes the category with the id `id` and returns it; not found, and
    /// nothing changed, if there is none.
    pub fn delete(store: &mut Store, id: i64) -> (deleted: Result<Category, CustomError>)
        requires
            old(store).wf(),
        ensures
            final(store).wf(),
            match deleted {
                Ok(category) => {
                    &&& lookup::<Category>(old(store)@.categories, id as int) == Some(
                        category@,
                    )
                    &&& final(store)@ == (StoreView {
                        categories: old(store)@.categories.remove(
                            place::<Category>(old(store)@.categories, id as int),
                        ),
                        ..old(store)@
                    })
                },
                Err(error) => {
                    &&& lookup::<Category>(old(store)@.categories, id as int) is None
                    &&& error@ == ErrorView::NotFound
                    &&& final(store)@ == old(store)@
                },
            },
    {
        match store.categories.remove(id) {
            Some(category) => Ok(category),
            None => Err(CustomError::NotFound),
        }
    }

    /// The category that `name` resolves to: the first, in ascending order
    /// of the ids, whose name is exactly `name`; not found if there is none.
    pub fn search(store: &Store, name: &str) -> (found: Result<Category, CustomError>)
        ensures
            match found {
                Ok(category) => named(store@.categories, name@) == Some(category@),
                Err(error) => {
                    &&& named(store@.categories, name@) is None
                    &&& error@ == ErrorView::NotFound
                },
            },
    {
        let wanted = String::from_str(name);
        let mut i: usize = 0;
        while i < store.categories.len()
            invariant
                wanted@ == name@,
                i <= store@.categories.len(),
                forall|j: int| 0 <= j < i ==> (#[trigger] store@.categories[j]).name != name@,
            decreases store@.categories.len() - i,
        {
            let category = store.categories.row(i);
            if category.name == wanted {
                proof {
                    lemma_named_at(store@.categories, name@, i as int);
                }
                return Ok(category.clone());
            }
            i = i + 1;
        }
        Err(CustomError::NotFound)
    }
}

} // verus!
