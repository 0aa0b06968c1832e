//! The messaging transport: what is sent to the platform for a text
//! message and for a quiz poll, and how the platform's reply is read.
//!
//! The calls themselves are made by the caller. This module fixes the
//! address, the body and the flags of each call, and decides from the reply
//! whether the call counts as delivered.

use crate::table::views;
use vstd::prelude::*;
use vstd::string::*;

verus! {

/// The longest time, in seconds, that one call to the platform may take.
pub const DELIVERY_TIMEOUT_SECONDS: u64 = 10;

/// The platform's client: it holds the credential of the bot.
#[derive(Debug)]
pub struct Telegram {
    token: String,
}

impl View for Telegram {
    type V = Seq<char>;

    /// The bot's token.
    closed spec fn view(&self) -> Seq<char> {
        self.token@
    }
}

/// A text message for a thread of a chat.
#[derive(Debug)]
pub struct TextMessage {
    pub url: String,
    pub chat_id: String,
    pub message_thread_id: i64,
    pub text: String,
    pub parse_mode: String,
}

/// A quiz poll for a thread of a chat.
#[derive(Debug)]
pub struct PollMessage {
    pub url: String,
    pub chat_id: String,
    pub message_thread_id: i64,
    pub question: String,
    pub options: Vec<String>,
    pub is_anonymous: bool,
    pub kind: String,
    pub allows_multiple_answers: bool,
    pub correct_option_id: usize,
    pub parse_mode: String,
}

/// What came back from the platform for one call.
#[derive(Debug)]
pub enum Reply {
    /// The platform answered: the HTTP status and its status line.
    Status { code: u16, line: String },
    /// No answer arrived.
    Failure { reason: String },
}

/// The mathematical value of a [`TextMessage`].
pub struct TextMessageView {
    pub url: Seq<char>,
    pub chat_id: Seq<char>,
    pub message_thread_id: int,
    pub text: Seq<char>,
    pub parse_mode: Seq<char>,
}

/// The mathematical value of a [`PollMessage`].
pub struct PollMessageView {
    pub url: Seq<char>,
    pub chat_id: Seq<char>,
    pub message_thread_id: int,
    pub question: Seq<char>,
    pub options: Seq<Seq<char>>,
    pub is_anonymous: bool,
    pub kind: Seq<char>,
    pub allows_multiple_answers: bool,
    pub correct_option_id: int,
    pub parse_mode: Seq<char>,
}

/// The mathematical value of a [`Reply`].
pub enum ReplyView {
    Status { code: int, line: Seq<char> },
    Failure { reason: Seq<char> },
}

impl View for TextMessage {
    type V = TextMessageView;

    open spec fn view(&self) -> TextMessageView {
        TextMessageView {
            url: self.url@,
            chat_id: self.chat_id@,
            message_thread_id: self.message_thread_id as int,
            text: self.text@,
            parse_mode: self.parse_mode@,
        }
    }
}

impl View for PollMessage {
    type V = PollMessageView;

    open spec fn view(&self) -> PollMessageView {
        PollMessageView {
            url: self.url@,
            chat_id: self.chat_id@,
            message_thread_id: self.message_thread_id as int,
            question: self.question@,
            options: views(self.options@),
            is_anonymous: self.is_anonymous,
            kind: self.kind@,
            allows_multiple_answers: self.allows_multiple_answers,
            correct_option_id: self.correct_option_id as int,
            parse_mode: self.parse_mode@,
        }
    }
}

impl View for Reply {
    type V = ReplyView;

    open spec fn view(&self) -> ReplyView {
        match self {
            Reply::Status { code, line } => ReplyView::Status { code: *code as int, line: line@ },
            Reply::Failure { reason } => ReplyView::Failure { reason: reason@ },
        }
    }
}

/// The address of the method `method` for the bot with the token `token`.
pub open spec fn method_url(token: Seq<char>, method: Seq<char>) -> Seq<char> {
    "https://api.telegram.org/bot"@ + token + "/"@ + method
}

/// The text message that carries `text` to the thread `thread_id` of the
/// chat `chat_id`, marked up as HTML.
pub open spec fn text_message(
    token: Seq<char>,
    chat_id: Seq<char>,
    thread_id: int,
    text: Seq<char>,
) -> TextMessageView {
    TextMessageView {
        url: method_url(token, "sendMessage"@),
        chat_id,
        message_thread_id: thread_id,
        text,
        parse_mode: "HTML"@,
    }
}

/// The poll that asks `question` in the thread `thread_id` of the chat
/// `chat_id`: an anonymous quiz with a single choice among `options`, of
/// which the one at `correct_option_id` is right.
pub open spec fn poll_message(
    token: Seq<char>,
    chat_id: Seq<char>,
    thread_id: int,
    question: Seq<char>,
    options: Seq<Seq<char>>,
    correct_option_id: int,
) -> PollMessageView {
    PollMessageView {
        url: method_url(token, "sendPoll"@),
        chat_id,
        message_thread_id: thread_id,
        question,
        options,
        is_anonymous: true,
        kind: "quiz"@,
        allows_multiple_answers: false,
        correct_option_id,
        parse_mode: "HTML"@,
    }
}

impl ReplyView {
    /// Whether the reply confirms the delivery: the platform answered with
    /// a status from 200 to 299.
    pub open spec fn confirms(self) -> bool {
        match self {
            ReplyView::Status { code, line } => 200 <= code <= 299,
            ReplyView::Failure { reason } => false,
        }
    }

    /// What the reply says: the status line, or the reason of the failure.
    pub open spec fn message(self) -> Seq<char> {
        match self {
            ReplyView::Status { code, line } => line,
            ReplyView::Failure { reason } => reason,
        }
    }
}

impl Reply {
    /// Reads the reply: the status line if the platform confirmed the
    /// delivery; otherwise, as an error, the status line of the refusal or
    /// the reason of the failure.
    pub fn outcome(self) -> (outcome: Result<String, String>)
        ensures
            match outcome {
                Ok(line) => self@.confirms() && line@ == self@.message(),
                Err(reason) => !self@.confirms() && reason@ == self@.message(),
            },
    {
        match self {
            Reply::Status { code, line } => {
                if 200 <= code && code <= 299 {
                    Ok(line)
                } else {
                    Err(line)
                }
            },
            Reply::Failure { reason } => Err(reason),
        }
    }
}

impl Telegram {
    /// The client of the bot with the token `token`.
    pub fn new(token: &str) -> (telegram: Self)
        ensures
            telegram@ == token@,
    {
        Telegram { token: String::from_str(token) }
    }

    /// The address of the method `method`.
    fn url(&self, method: &str) -> (url: String)
        ensures
            url@ == method_url(self@, method@),
    {
        String::from_str("https://api.telegram.org/bot").concat(self.token.as_str()).concat(
            "/",
        ).concat(method)
    }

    /// The text message that carries `message` to the thread `thread_id`
    /// of the chat `chat_id`.
    pub fn message(&self, chat_id: &str, thread_id: i64, message: &str) -> (request: TextMessage)
        ensures
            request@ == text_message(self@, chat_id@, thread_id as int, message@),
    {
        TextMessage {
            url: self.url("sendMessage"),
            chat_id: String::from_str(chat_id),
            message_thread_id: thread_id,
            text: String::from_str(message),
            parse_mode: String::from_str("HTML"),
        }
    }

    /// The quiz poll that asks `question` in the thread `thread_id` of the
    /// chat `chat_id`. The transport does not check the options: there
    /// must be one at least, and `correct_option_id` must be the place of
    /// one of them.
    pub fn poll(
        &self,
        chat_id: &str,
        thread_id: i64,
        question: &str,
        options: Vec<String>,
        correct_option_id: usize,
    ) -> (request: PollMessage)
        requires
            correct_option_id < options.len(),
        ensures
            request@ == poll_message(
                self@,
                chat_id@,
                thread_id as int,
                question@,
                views(options@),
                correct_option_id as int,
            ),
    {
        PollMessage {
            url: self.url("sendPoll"),
            chat_id: String::from_str(chat_id),
            message_thread_id: thread_id,
            question: String::from_str(question),
            options,
            is_anonymous: true,
            kind: String::from_str("quiz"),
            allows_multiple_answers: false,
            correct_option_id,
            parse_mode: String::from_str("HTML"),
        }
    }
}

} // verus!
