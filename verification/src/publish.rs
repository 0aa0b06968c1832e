//! The publishing workflow.
//!
//! Publishing an item takes two steps around one call to the messaging
//! platform. The first step selects the oldest pending item, assembles what
//! is to be sent for it and refuses what cannot be delivered; it hands out
//! a delivery. The caller makes the call. The second step takes the
//! delivery and the platform's reply and, only if the reply confirms the
//! delivery, records the item as published. An item whose delivery failed
//! stays pending and is selected again.
//!
//! Authoring resolves the category by its name and registers the rows, all
//! of them or none.

use crate::answer::{
    answers_of, correct_option, first_correct, is_first_correct, lemma_first_correct,
    option_texts, texts, Answer, AnswerView, NewBasicAnswerView,
};
use crate::category::{has_named, lemma_named_at, named, Category, NewCategoryView};
use crate::error::{CustomError, ErrorView};
use crate::poll::{
    NewPollView, NewPollWithAnswers, NewPollWithAnswersView, Poll, PollView, PollWithAnswers,
    PollWithAnswersView,
};
use crate::store::{Store, StoreView};
use crate::table::{
    ascending, following_key, has_room, lemma_filter_all, lemma_lookup_at, lookup,
    oldest_pending, oldest_pending_is_minimal, place, published_is_not_selected, views,
    Publishable, Table,
};
use crate::telegram::{
    poll_message, text_message, PollMessage, PollMessageView, Reply, ReplyView, Telegram,
    TextMessage, TextMessageView,
};
use crate::tip::{NewTip, NewTipWithCategory, NewTipWithCategoryView, Tip, TipView};
use vstd::prelude::*;
use vstd::string::*;

verus! {

/// A delivery of a poll that is under way: the poll that was selected and
/// what is to be sent for it. Only the selection makes one, and settling
/// uses it up.
#[derive(Debug)]
pub struct PollDelivery {
    poll_id: i64,
    message: PollMessage,
}

/// A delivery of a tip that is under way: the tip that was selected and
/// what is to be sent for it. Only the selection makes one, and settling
/// uses it up.
#[derive(Debug)]
pub struct TipDelivery {
    tip_id: i64,
    message: TextMessage,
}

/// The mathematical value of a [`PollDelivery`].
pub struct PollDeliveryView {
    pub poll_id: int,
    pub message: PollMessageView,
}

/// The mathematical value of a [`TipDelivery`].
pub struct TipDeliveryView {
    pub tip_id: int,
    pub message: TextMessageView,
}

impl View for PollDelivery {
    type V = PollDeliveryView;

    closed spec fn view(&self) -> PollDeliveryView {
        PollDeliveryView { poll_id: self.poll_id as int, message: self.message@ }
    }
}

impl View for TipDelivery {
    type V = TipDeliveryView;

    closed spec fn view(&self) -> TipDeliveryView {
        TipDeliveryView { tip_id: self.tip_id as int, message: self.message@ }
    }
}

impl PollDelivery {
    /// The id of the poll that is being delivered.
    pub fn poll_id(&self) -> (poll_id: i64)
        ensures
            poll_id == self@.poll_id,
    {
        self.poll_id
    }

    /// The quiz to send.
    pub fn message(&self) -> (message: &PollMessage)
        ensures
            message@ == self@.message,
    {
        &self.message
    }
}

impl TipDelivery {
    /// The id of the tip that is being delivered.
    pub fn tip_id(&self) -> (tip_id: i64)
        ensures
            tip_id == self@.tip_id,
    {
        self.tip_id
    }

    /// The text message to send.
    pub fn message(&self) -> (message: &TextMessage)
        ensures
            message@ == self@.message,
    {
        &self.message
    }
}

/// The text of a tip as it is shown: a heading, the text, then the name of
/// the category as a tag on a line of its own.
pub open spec fn tagged_tip(text: Seq<char>, category: Seq<char>) -> Seq<char> {
    "Tip:\n"@ + text + "\n#"@ + category
}

/// What publishing the next poll of `store` sends.
///
/// Nothing is pending: not found. The oldest pending poll names a category
/// that does not exist: a server error. It has no answers: not found. None
/// of its answers is marked correct: a server error. Otherwise the quiz
/// for the category's thread, with the poll's question, the answers' texts
/// in ascending order of their ids and the place of the first correct one.
pub open spec fn poll_delivery(store: StoreView, token: Seq<char>) -> Result<
    PollDeliveryView,
    ErrorView,
> {
    match oldest_pending::<Poll>(store.polls) {
        None => Err(ErrorView::NotFound),
        Some(poll) => match lookup::<Category>(store.categories, poll.category_id) {
            None => Err(ErrorView::missing_category()),
            Some(category) => {
                let answers = answers_of(store.answers, poll.id);
                if answers.len() == 0 {
                    Err(ErrorView::NotFound)
                } else {
                    match first_correct(answers) {
                        None => Err(ErrorView::no_correct_answer()),
                        Some(correct) => Ok(
                            PollDeliveryView {
                                poll_id: poll.id,
                                message: poll_message(
                                    token,
                                    category.chat_id,
                                    category.thread_id,
                                    poll.question,
                                    texts(answers),
                                    correct,
                                ),
                            },
                        ),
                    }
                }
            },
        },
    }
}

/// What publishing the next tip of `store` sends.
///
/// Nothing is pending: not found. The oldest pending tip names a category
/// that does not exist: a server error. Otherwise the tip's text for the
/// category's thread.
pub open spec fn tip_delivery(store: StoreView, token: Seq<char>) -> Result<
    TipDeliveryView,
    ErrorView,
> {
    match oldest_pending::<Tip>(store.tips) {
        None => Err(ErrorView::NotFound),
        Some(tip) => match lookup::<Category>(store.categories, tip.category_id) {
            None => Err(ErrorView::missing_category()),
            Some(category) => Ok(
                TipDeliveryView {
                    tip_id: tip.id,
                    message: text_message(
                        token,
                        category.chat_id,
                        category.thread_id,
                        tagged_tip(tip.text, category.name),
                    ),
                },
            ),
        },
    }
}

/// What the reply `reply` to the delivery of the row `id` makes of `rows`.
///
/// The reply does not confirm the delivery: a transport error that carries
/// what the reply says. It does, but the row is gone: not found. Otherwise
/// the rows with that row published, and the row as it then stands.
pub open spec fn settlement<T: Publishable>(rows: Seq<T::V>, id: int, reply: ReplyView) -> Result<
    (Seq<T::V>, T::V),
    ErrorView,
> {
    if !reply.confirms() {
        Err(ErrorView::OtherError(reply.message()))
    } else {
        match lookup::<T>(rows, id) {
            None => Err(ErrorView::NotFound),
            Some(row) => Ok((rows.update(place::<T>(rows, id), T::delivered(row)), T::delivered(row))),
        }
    }
}

/// The answers `answers` as rows of the poll `poll_id`, under consecutive
/// ids from `first_id` on.
pub open spec fn numbered(answers: Seq<NewBasicAnswerView>, poll_id: int, first_id: int) -> Seq<
    AnswerView,
> {
    Seq::new(answers.len(), |i: int| answers[i].of_poll(poll_id).with_id(first_id + i))
}

/// What authoring `new` makes of `store`.
///
/// No category bears the name: not found. The polls or the answers have no
/// room: a server error. Otherwise the store with a pending poll under the
/// category and with the answers, in the order given, and the poll with
/// its answers.
pub open spec fn poll_creation(store: StoreView, new: NewPollWithAnswersView) -> Result<
    (StoreView, PollWithAnswersView),
    ErrorView,
> {
    match named(store.categories, new.category) {
        None => Err(ErrorView::NotFound),
        Some(category) => {
            if !has_room::<Poll>(store.polls, 1) || !has_room::<Answer>(
                store.answers,
                new.answers.len() as int,
            ) {
                Err(ErrorView::exhausted())
            } else {
                let poll = (NewPollView {
                    category_id: category.id,
                    question: new.question,
                }).with_id(following_key::<Poll>(store.polls));
                let answers = numbered(
                    new.answers,
                    poll.id,
                    following_key::<Answer>(store.answers),
                );
                Ok(
                    (
                        StoreView {
                            polls: store.polls.push(poll),
                            answers: store.answers + answers,
                            ..store
                        },
                        poll.with_answers(answers),
                    ),
                )
            }
        },
    }
}

/// What authoring `new` makes of `store`.
///
/// No category bears the name: not found. The tips have no room: a server
/// error. Otherwise the store with a pending tip under the category, and
/// the tip.
pub open spec fn tip_creation(store: StoreView, new: NewTipWithCategoryView) -> Result<
    (StoreView, TipView),
    ErrorView,
> {
    match named(store.categories, new.category) {
        None => Err(ErrorView::NotFound),
        Some(category) => {
            if !has_room::<Tip>(store.tips, 1) {
                Err(ErrorView::exhausted())
            } else {
                let tip = new.under(category.id).with_id(following_key::<Tip>(store.tips));
                Ok((StoreView { tips: store.tips.push(tip), ..store }, tip))
            }
        },
    }
}

/// The first step of publishing the next poll: selects the oldest pending
/// poll and assembles the quiz to send for it. The store is not changed: the
/// poll stays pending until its delivery is settled.
pub fn next_poll_delivery(store: &Store, telegram: &Telegram) -> (next: Result<
    PollDelivery,
    CustomError,
>)
    requires
        store.wf(),
    ensures
        match poll_delivery(store@, telegram@) {
            Ok(delivery) => next matches Ok(found) && found@ == delivery,
            Err(error) => next matches Err(found) && found@ == error,
        },
{
    let poll = match Poll::read_not_published(store) {
        Some(poll) => poll,
        None => {
            return Err(CustomError::NotFound);
        },
    };
    let category = match Category::read(store, poll.get_category_id()) {
        Ok(category) => category,
        Err(_) => {
            return Err(CustomError::missing_category());
        },
    };
    let answers = Answer::read_for_poll(store, poll.get_id());
    if answers.len() == 0 {
        return Err(CustomError::NotFound);
    }
    let correct: usize = match correct_option(&answers) {
        Some(correct) => correct,
        None => {
            return Err(CustomError::no_correct_answer());
        },
    };
    let options = option_texts(&answers);
    let message = telegram.poll(
        category.get_chat_id(),
        category.get_thread_id(),
        poll.get_question(),
        options,
        correct,
    );
    Ok(PollDelivery { poll_id: poll.get_id(), message })
}

/// The first step of publishing the next tip: selects the oldest pending
/// tip and assembles the message to send for it. The store is not changed:
/// the tip stays pending until its delivery is settled.
pub fn next_tip_delivery(store: &Store, telegram: &Telegram) -> (next: Result<
    TipDelivery,
    CustomError,
>)
    requires
        store.wf(),
    ensures
        match tip_delivery(store@, telegram@) {
            Ok(delivery) => next matches Ok(found) && found@ == delivery,
            Err(error) => next matches Err(found) && found@ == error,
        },
{
    let tip = match Tip::read_not_published(store) {
        Some(tip) => tip,
        None => {
            return Err(CustomError::NotFound);
        },
    };
    let category = match Category::read(store, tip.get_category_id()) {
        Ok(category) => category,
        Err(_) => {
            return Err(CustomError::missing_category());
        },
    };
    let text = String::from_str("Tip:\n").concat(tip.get_text()).concat("\n#").concat(
        category.get_name(),
    );
    let message = telegram.message(
        category.get_chat_id(),
        category.get_thread_id(),
        text.as_str(),
    );
    Ok(TipDelivery { tip_id: tip.get_id(), message })
}

/// Settles the delivery of the row `id` of `table` with the platform's
/// reply: publishes the row if the reply confirms the delivery, and leaves
/// the table as it is otherwise.
fn settle<T: Publishable>(table: &mut Table<T>, id: i64, reply: Reply) -> (settled: Result<
    T,
    CustomError,
>)
    requires
        old(table).wf(),
    ensures
        final(table).wf(),
        match settlement::<T>(old(table)@, id as int, reply@) {
            Ok((rows, row)) => settled matches Ok(found) && found@ == row && final(table)@ == rows,
            Err(error) => settled matches Err(found) && found@ == error && final(table)@ == old(
                table,
            )@,
        },
{
    match reply.outcome() {
        Ok(_) => match table.mark_published(id) {
            Some(row) => Ok(row),
            None => Err(CustomError::NotFound),
        },
        Err(reason) => Err(CustomError::OtherError(reason)),
    }
}

/// The second step of publishing a poll: settles `delivery` with the
/// platform's reply. A reply that confirms the delivery publishes the poll,
/// which is returned as it then stands; any other reply is a transport
/// error and leaves the store as it is.
pub fn settle_poll_delivery(store: &mut Store, delivery: PollDelivery, reply: Reply) -> (settled:
    Result<Poll, CustomError>)
    requires
        old(store).wf(),
    ensures
        final(store).wf(),
        match settlement::<Poll>(old(store)@.polls, delivery@.poll_id, reply@) {
            Ok((polls, poll)) => {
                &&& settled matches Ok(found) && found@ == poll
                &&& final(store)@ == (StoreView { polls, ..old(store)@ })
            },
            Err(error) => {
                &&& settled matches Err(found) && found@ == error
                &&& final(store)@ == old(store)@
            },
        },
{
    settle(&mut store.polls, delivery.poll_id, reply)
}

/// The second step of publishing a tip: settles `delivery` with the
/// platform's reply. A reply that confirms the delivery publishes the tip,
/// which is returned as it then stands; any other reply is a transport
/// error and leaves the store as it is.
pub fn settle_tip_delivery(store: &mut Store, delivery: TipDelivery, reply: Reply) -> (settled:
    Result<Tip, CustomError>)
    requires
        old(store).wf(),
    ensures
        final(store).wf(),
        match settlement::<Tip>(old(store)@.tips, delivery@.tip_id, reply@) {
            Ok((tips, tip)) => {
                &&& settled matches Ok(found) && found@ == tip
                &&& final(store)@ == (StoreView { tips, ..old(store)@ })
            },
            Err(error) => {
                &&& settled matches Err(found) && found@ == error
                &&& final(store)@ == old(store)@
            },
        },
{
    settle(&mut store.tips, delivery.tip_id, reply)
}

/// Authors a poll with its answers under the category that bears the name
/// `new.category`. Either the poll and all the answers are registered, or
/// nothing is.
pub fn create_poll_with_answers(store: &mut Store, new: NewPollWithAnswers) -> (created: Result<
    PollWithAnswers,
    CustomError,
>)
    requires
        old(store).wf(),
    ensures
        final(store).wf(),
        match poll_creation(old(store)@, new@) {
            Ok((after, poll)) => {
                &&& created matches Ok(found) && found@ == poll
                &&& final(store)@ == after
            },
            Err(error) => {
                &&& created matches Err(found) && found@ == error
                &&& final(store)@ == old(store)@
            },
        },
{
    let category = match Category::search(store, new.category.as_str()) {
        Ok(category) => category,
        Err(error) => {
            return Err(error);
        },
    };
    let count: usize = new.answers.len();
    let poll_id: i64 = match store.polls.next_id() {
        Some(id) => id,
        None => {
            return Err(CustomError::exhausted());
        },
    };
    if !store.answers.has_room_for(count) {
        return Err(CustomError::exhausted());
    }
    // The answers have room, so there is a next id unless no answer is to
    // be numbered; then the id is not used.
    let first_id: i64 = match store.answers.next_id() {
        Some(id) => id,
        None => 0,
    };
    let ghost rows = numbered(
        new@.answers,
        poll_id as int,
        following_key::<Answer>(old(store)@.answers),
    );
    let poll = Poll::from_row(poll_id, category.get_id(), new.question.clone(), false);
    store.polls.append(poll);
    let mut answers: Vec<Answer> = Vec::new();
    let mut id: i64 = first_id;
    let mut i: usize = 0;
    while i < count
        invariant
            count == new.answers.len(),
            rows == numbered(
                new@.answers,
                poll_id as int,
                following_key::<Answer>(old(store)@.answers),
            ),
            has_room::<Answer>(old(store)@.answers, count as int),
            i <= count,
            i < count ==> id == following_key::<Answer>(old(store)@.answers) + i,
            store.wf(),
            store@.categories == old(store)@.categories,
            store@.polls == old(store)@.polls.push(poll@),
            store@.tips == old(store)@.tips,
            store@.answers == old(store)@.answers + rows.take(i as int),
            views(answers@) == rows.take(i as int),
        decreases count - i,
    {
        let answer = Answer::from_row(
            id,
            poll_id,
            new.answers[i].text.clone(),
            new.answers[i].isok,
        );
        proof {
            assert(old(store)@.answers + rows.take(i + 1) =~= (old(store)@.answers + rows.take(
                i as int,
            )).push(rows[i as int]));
        }
        answers.push(answer.clone());
        store.answers.append(answer);
        i = i + 1;
        if i < count {
            id = id + 1;
        }
    }
    proof {
        assert(rows.take(count as int) =~= rows);
    }
    Ok(PollWithAnswers::new(poll_id, category.get_id(), new.question, false, answers))
}

/// Authors a tip under the category that bears the name `new.category`.
pub fn create_tip_with_category(store: &mut Store, new: NewTipWithCategory) -> (created: Result<
    Tip,
    CustomError,
>)
    requires
        old(store).wf(),
    ensures
        final(store).wf(),
        match tip_creation(old(store)@, new@) {
            Ok((after, tip)) => {
                &&& created matches Ok(found) && found@ == tip
                &&& final(store)@ == after
            },
            Err(error) => {
                &&& created matches Err(found) && found@ == error
                &&& final(store)@ == old(store)@
            },
        },
{
    let category = match Category::search(store, new.category.as_str()) {
        Ok(category) => category,
        Err(error) => {
            return Err(error);
        },
    };
    Tip::create(store, NewTip::new(category.get_id(), new.title, new.text))
}

/// Publishing selects the pending poll with the smallest id: the poll of
/// a delivery is pending, and no pending poll has a smaller id.
pub proof fn poll_delivery_selects_oldest(store: StoreView, token: Seq<char>)
    ensures
        match poll_delivery(store, token) {
            Ok(delivery) => exists|i: int|
                {
                    &&& 0 <= i < store.polls.len()
                    &&& (#[trigger] store.polls[i]).id == delivery.poll_id
                    &&& !store.polls[i].published
                    &&& forall|j: int|
                        0 <= j < store.polls.len() && !(#[trigger] store.polls[j]).published
                            ==> delivery.poll_id <= store.polls[j].id
                },
            Err(_) => true,
        },
{
    oldest_pending_is_minimal::<Poll>(store.polls);
}

/// Publishing selects the pending tip with the smallest id: the tip of a
/// delivery is pending, and no pending tip has a smaller id.
pub proof fn tip_delivery_selects_oldest(store: StoreView, token: Seq<char>)
    ensures
        match tip_delivery(store, token) {
            Ok(delivery) => exists|i: int|
                {
                    &&& 0 <= i < store.tips.len()
                    &&& (#[trigger] store.tips[i]).id == delivery.tip_id
                    &&& !store.tips[i].published
                    &&& forall|j: int|
                        0 <= j < store.tips.len() && !(#[trigger] store.tips[j]).published
                            ==> delivery.tip_id <= store.tips[j].id
                },
            Err(_) => true,
        },
{
    oldest_pending_is_minimal::<Tip>(store.tips);
}

/// A published poll is never selected: whatever else the store holds, no
/// delivery is for it.
pub proof fn published_poll_is_not_delivered(store: StoreView, token: Seq<char>, i: int)
    requires
        store.wf(),
        0 <= i < store.polls.len(),
        store.polls[i].published,
    ensures
        match poll_delivery(store, token) {
            Ok(delivery) => delivery.poll_id != store.polls[i].id,
            Err(_) => true,
        },
{
    published_is_not_selected::<Poll>(store.polls, i);
}

/// A published tip is never selected: whatever else the store holds, no
/// delivery is for it.
pub proof fn published_tip_is_not_delivered(store: StoreView, token: Seq<char>, i: int)
    requires
        store.wf(),
        0 <= i < store.tips.len(),
        store.tips[i].published,
    ensures
        match tip_delivery(store, token) {
            Ok(delivery) => delivery.tip_id != store.tips[i].id,
            Err(_) => true,
        },
{
    published_is_not_selected::<Tip>(store.tips, i);
}

/// Settling a delivery never takes a row away, changes an id or makes a
/// published row pending again; a confirmed delivery publishes its row, and
/// one that is not confirmed changes nothing.
pub proof fn settlement_is_monotone<T: Publishable>(rows: Seq<T::V>, id: int, reply: ReplyView)
    requires
        ascending::<T>(rows),
    ensures
        match settlement::<T>(rows, id, reply) {
            Ok((after, row)) => {
                &&& reply.confirms()
                &&& ascending::<T>(after)
                &&& after.len() == rows.len()
                &&& lookup::<T>(after, id) == Some(row)
                &&& T::key(row) == id
                &&& T::published(row)
                &&& forall|i: int|
                    0 <= i < rows.len() ==> T::key(#[trigger] after[i]) == T::key(rows[i]) && (
                    T::published(rows[i]) ==> T::published(after[i]))
                &&& forall|i: int|
                    0 <= i < rows.len() && T::key(rows[i]) != id ==> #[trigger] after[i] == rows[i]
            },
            Err(error) => {
                &&& error == if reply.confirms() {
                    ErrorView::NotFound
                } else {
                    ErrorView::OtherError(reply.message())
                }
                &&& reply.confirms() ==> lookup::<T>(rows, id) is None
            },
        },
{
    if reply.confirms() && lookup::<T>(rows, id) is Some {
        let at = place::<T>(rows, id);
        let row = T::delivered(rows[at]);
        let after = rows.update(at, row);
        T::delivered_is_published(rows[at]);
        lemma_lookup_at::<T>(after, at);
    }
}

/// A confirmed delivery publishes the poll that was selected: while the
/// store is as it was at the selection, settling a delivery with a reply
/// that confirms it succeeds, and changes of the selected poll the flag
/// alone.
pub proof fn confirmed_delivery_publishes_the_poll(
    store: StoreView,
    token: Seq<char>,
    reply: ReplyView,
)
    requires
        store.wf(),
        poll_delivery(store, token) is Ok,
        reply.confirms(),
    ensures
        ({
            let selected = oldest_pending::<Poll>(store.polls)->Some_0;
            let poll_id = poll_delivery(store, token)->Ok_0.poll_id;
            &&& poll_id == selected.id
            &&& settlement::<Poll>(store.polls, poll_id, reply) is Ok
            &&& settlement::<Poll>(store.polls, poll_id, reply)->Ok_0.1 == (PollView {
                published: true,
                ..selected
            })
        }),
{
    oldest_pending_is_minimal::<Poll>(store.polls);
}

/// A confirmed delivery publishes the tip that was selected: while the
/// store is as it was at the selection, settling a delivery with a reply
/// that confirms it succeeds, and changes of the selected tip the flag
/// alone.
pub proof fn confirmed_delivery_publishes_the_tip(
    store: StoreView,
    token: Seq<char>,
    reply: ReplyView,
)
    requires
        store.wf(),
        tip_delivery(store, token) is Ok,
        reply.confirms(),
    ensures
        ({
            let selected = oldest_pending::<Tip>(store.tips)->Some_0;
            let tip_id = tip_delivery(store, token)->Ok_0.tip_id;
            &&& tip_id == selected.id
            &&& settlement::<Tip>(store.tips, tip_id, reply) is Ok
            &&& settlement::<Tip>(store.tips, tip_id, reply)->Ok_0.1 == (TipView {
                published: true,
                ..selected
            })
        }),
{
    oldest_pending_is_minimal::<Tip>(store.tips);
}

/// Once the delivery of a poll is settled as confirmed, the poll is never
/// selected again.
pub proof fn settled_poll_is_not_delivered_again(
    store: StoreView,
    poll_id: int,
    reply: ReplyView,
    token: Seq<char>,
)
    requires
        store.wf(),
        settlement::<Poll>(store.polls, poll_id, reply) is Ok,
    ensures
        ({
            let after = StoreView {
                polls: settlement::<Poll>(store.polls, poll_id, reply)->Ok_0.0,
                ..store
            };
            &&& after.wf()
            &&& match poll_delivery(after, token) {
                Ok(delivery) => delivery.poll_id != poll_id,
                Err(_) => true,
            }
        }),
{
    let polls = settlement::<Poll>(store.polls, poll_id, reply)->Ok_0.0;
    let after = StoreView { polls, ..store };
    let at = place::<Poll>(store.polls, poll_id);
    published_poll_is_not_delivered(after, token, at);
}

/// Once the delivery of a tip is settled as confirmed, the tip is never
/// selected again.
pub proof fn settled_tip_is_not_delivered_again(
    store: StoreView,
    tip_id: int,
    reply: ReplyView,
    token: Seq<char>,
)
    requires
        store.wf(),
        settlement::<Tip>(store.tips, tip_id, reply) is Ok,
    ensures
        ({
            let after = StoreView {
                tips: settlement::<Tip>(store.tips, tip_id, reply)->Ok_0.0,
                ..store
            };
            &&& after.wf()
            &&& match tip_delivery(after, token) {
                Ok(delivery) => delivery.tip_id != tip_id,
                Err(_) => true,
            }
        }),
{
    let tips = settlement::<Tip>(store.tips, tip_id, reply)->Ok_0.0;
    let after = StoreView { tips, ..store };
    let at = place::<Tip>(store.tips, tip_id);
    published_tip_is_not_delivered(after, token, at);
}

/// With nothing pending, publishing reports not found, for polls and for
/// tips alike.
pub proof fn nothing_pending_is_not_found(store: StoreView, token: Seq<char>)
    ensures
        (forall|i: int| 0 <= i < store.polls.len() ==> (#[trigger] store.polls[i]).published)
            ==> poll_delivery(store, token) == Err::<PollDeliveryView, ErrorView>(
            ErrorView::NotFound,
        ),
        (forall|i: int| 0 <= i < store.tips.len() ==> (#[trigger] store.tips[i]).published)
            ==> tip_delivery(store, token) == Err::<TipDeliveryView, ErrorView>(
            ErrorView::NotFound,
        ),
{
}

/// A poll without answers is never delivered: while the oldest pending
/// poll has no answers, publishing yields no delivery, and reports not
/// found if the poll's category exists.
pub proof fn poll_without_answers_is_not_delivered(store: StoreView, token: Seq<char>)
    requires
        oldest_pending::<Poll>(store.polls) is Some,
        answers_of(store.answers, oldest_pending::<Poll>(store.polls)->Some_0.id).len() == 0,
    ensures
        poll_delivery(store, token) is Err,
        lookup::<Category>(
            store.categories,
            oldest_pending::<Poll>(store.polls)->Some_0.category_id,
        ) is Some ==> poll_delivery(store, token) == Err::<PollDeliveryView, ErrorView>(
            ErrorView::NotFound,
        ),
{
}

/// Every delivery of a poll is a quiz that can be sent: it goes to the
/// thread of the poll's category, asks the poll's question, lists the
/// texts of all the poll's answers in ascending order of their ids, one at
/// least, and its correct option is the place of the first answer that is
/// marked correct.
pub proof fn poll_delivery_is_a_quiz(store: StoreView, token: Seq<char>)
    ensures
        match poll_delivery(store, token) {
            Ok(delivery) => {
                let poll = oldest_pending::<Poll>(store.polls)->Some_0;
                let category = lookup::<Category>(store.categories, poll.category_id)->Some_0;
                let answers = answers_of(store.answers, delivery.poll_id);
                let message = delivery.message;
                &&& delivery.poll_id == poll.id
                &&& message.chat_id == category.chat_id
                &&& message.message_thread_id == category.thread_id
                &&& message.question == poll.question
                &&& message.options == texts(answers)
                &&& message.options.len() > 0
                &&& is_first_correct(answers, message.correct_option_id)
                &&& message.is_anonymous
                &&& !message.allows_multiple_answers
            },
            Err(_) => true,
        },
{
    if poll_delivery(store, token) is Ok {
        let poll = oldest_pending::<Poll>(store.polls)->Some_0;
        lemma_first_correct(answers_of(store.answers, poll.id));
    }
}

/// Authoring under a name that no category bears reports not found and
/// registers nothing.
pub proof fn unknown_category_is_not_found(
    store: StoreView,
    poll: NewPollWithAnswersView,
    tip: NewTipWithCategoryView,
)
    ensures
        !has_named(store.categories, poll.category) ==> poll_creation(store, poll) == Err::<
            (StoreView, PollWithAnswersView),
            ErrorView,
        >(ErrorView::NotFound),
        !has_named(store.categories, tip.category) ==> tip_creation(store, tip) == Err::<
            (StoreView, TipView),
            ErrorView,
        >(ErrorView::NotFound),
{
}

/// Authoring changes no row that was there: it adds one poll with its
/// answers, or one tip, after the rows of their tables, and gives every
/// new row an id above the ids that were there.
pub proof fn authoring_keeps_rows(
    store: StoreView,
    poll: NewPollWithAnswersView,
    tip: NewTipWithCategoryView,
)
    requires
        store.wf(),
    ensures
        match poll_creation(store, poll) {
            Ok((after, created)) => {
                &&& after.wf()
                &&& after.categories == store.categories
                &&& after.tips == store.tips
                &&& after.polls.len() == store.polls.len() + 1
                &&& after.polls.take(store.polls.len() as int) == store.polls
                &&& after.polls.last().id == created.id
                &&& !after.polls.last().published
                &&& after.answers.len() == store.answers.len() + poll.answers.len()
                &&& after.answers.take(store.answers.len() as int) == store.answers
                &&& after.answers.skip(store.answers.len() as int) == created.answers
            },
            Err(_) => true,
        },
        match tip_creation(store, tip) {
            Ok((after, created)) => {
                &&& after.wf()
                &&& after.categories == store.categories
                &&& after.polls == store.polls
                &&& after.answers == store.answers
                &&& after.tips.len() == store.tips.len() + 1
                &&& after.tips.take(store.tips.len() as int) == store.tips
                &&& after.tips.last() == created
                &&& !created.published
            },
            Err(_) => true,
        },
{
}

/// A tip authored under the name of a category that was just registered
/// reads back as authored: under that category, with its title and text,
/// and pending. The name must be new to the store, so that it resolves to
/// the category just registered.
pub proof fn authored_tip_reads_back(
    store: StoreView,
    category: NewCategoryView,
    tip: NewTipWithCategoryView,
)
    requires
        store.wf(),
        has_room::<Category>(store.categories, 1),
        has_room::<Tip>(store.tips, 1),
        !has_named(store.categories, category.name),
        tip.category == category.name,
    ensures
        ({
            let registered = category.with_id(following_key::<Category>(store.categories));
            let with_category = StoreView {
                categories: store.categories.push(registered),
                ..store
            };
            &&& tip_creation(with_category, tip) is Ok
            &&& lookup::<Tip>(
                tip_creation(with_category, tip)->Ok_0.0.tips,
                tip_creation(with_category, tip)->Ok_0.1.id,
            ) == Some(
                TipView {
                    id: following_key::<Tip>(store.tips),
                    category_id: registered.id,
                    title: tip.title,
                    text: tip.text,
                    published: false,
                },
            )
        }),
{
    let registered = category.with_id(following_key::<Category>(store.categories));
    let categories = store.categories.push(registered);
    let at = store.categories.len() as int;
    lemma_named_at(categories, tip.category, at);
    let created = tip.under(registered.id).with_id(following_key::<Tip>(store.tips));
    let tips = store.tips.push(created);
    lemma_lookup_at::<Tip>(tips, store.tips.len() as int);
}

/// A poll authored with its answers reads back as authored: its answers
/// are the ones given, in the order given, each marked as given. No answer
/// already in the store may name the id that the poll gets.
pub proof fn authored_poll_reads_back(store: StoreView, new: NewPollWithAnswersView)
    requires
        store.wf(),
        poll_creation(store, new) is Ok,
        forall|i: int|
            0 <= i < store.answers.len() ==> (#[trigger] store.answers[i]).poll_id
                != following_key::<Poll>(store.polls),
    ensures
        ({
            let after = poll_creation(store, new)->Ok_0.0;
            let poll = poll_creation(store, new)->Ok_0.1;
            &&& after.wf()
            &&& lookup::<Poll>(after.polls, poll.id) == Some(
                PollView {
                    id: poll.id,
                    category_id: poll.category_id,
                    question: new.question,
                    published: false,
                },
            )
            &&& answers_of(after.answers, poll.id) == poll.answers
            &&& poll.answers.len() == new.answers.len()
            &&& forall|i: int|
                0 <= i < new.answers.len() ==> (#[trigger] poll.answers[i]).text
                    == new.answers[i].text && poll.answers[i].isok == new.answers[i].isok
        }),
{
    let after = poll_creation(store, new)->Ok_0.0;
    let poll = poll_creation(store, new)->Ok_0.1;
    let rows = numbered(new.answers, poll.id, following_key::<Answer>(store.answers));
    lemma_lookup_at::<Poll>(after.polls, store.polls.len() as int);
    let belongs = |answer: AnswerView| answer.poll_id == poll.id;
    store.answers.lemma_all_neg_filter_empty(belongs);
    lemma_filter_all(rows, belongs);
}

} // verus!
