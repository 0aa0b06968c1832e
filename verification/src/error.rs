//! The error kinds that every operation of the crate reports.

use vstd::prelude::*;
use vstd::string::*;

verus! {

/// What went wrong, by kind.
#[derive(Debug)]
pub enum CustomError {
    /// The request was malformed.
    BadRequest,
    /// The row asked for does not exist, or nothing is pending.
    NotFound,
    /// The store failed or the data is inconsistent.
    ServerError(String),
    /// The messaging platform could not be reached or refused the call.
    OtherError(String),
}

/// The body of the response that reports an error: a discriminator and a
/// message for the reader.
#[derive(Debug)]
pub struct ErrorBody {
    pub status: String,
    pub message: String,
}

/// The mathematical value of an [`ErrorBody`].
pub struct ErrorBodyView {
    pub status: Seq<char>,
    pub message: Seq<char>,
}

impl View for ErrorBody {
    type V = ErrorBodyView;

    open spec fn view(&self) -> ErrorBodyView {
        ErrorBodyView { status: self.status@, message: self.message@ }
    }
}

/// The mathematical value of a [`CustomError`]: its kind and message.
pub enum ErrorView {
    BadRequest,
    NotFound,
    ServerError(Seq<char>),
    OtherError(Seq<char>),
}

impl View for CustomError {
    type V = ErrorView;

    open spec fn view(&self) -> ErrorView {
        match self {
            CustomError::BadRequest => ErrorView::BadRequest,
            CustomError::NotFound => ErrorView::NotFound,
            CustomError::ServerError(message) => ErrorView::ServerError(message@),
            CustomError::OtherError(message) => ErrorView::OtherError(message@),
        }
    }
}

impl ErrorView {
    /// The one-line description of the error.
    pub open spec fn text(self) -> Seq<char> {
        match self {
            ErrorView::BadRequest => "Bad request"@,
            ErrorView::NotFound => "Not found"@,
            ErrorView::ServerError(message) => "Server error: "@ + message,
            ErrorView::OtherError(message) => "Server error: "@ + message,
        }
    }

    /// The HTTP status that stands for the error's kind.
    pub open spec fn status(self) -> int {
        match self {
            ErrorView::BadRequest => 400,
            ErrorView::NotFound => 404,
            ErrorView::ServerError(_) => 500,
            ErrorView::OtherError(_) => 500,
        }
    }

    /// The message of the error's response.
    pub open spec fn response_message(self) -> Seq<char> {
        match self {
            ErrorView::BadRequest => "Bad Request"@,
            ErrorView::NotFound => "Not Found"@,
            ErrorView::ServerError(message) => message,
            ErrorView::OtherError(message) => message,
        }
    }

    /// The body of the error's response.
    pub open spec fn body(self) -> ErrorBodyView {
        ErrorBodyView { status: "error"@, message: self.response_message() }
    }

    /// A table cannot take a new row: every id above its last one is used up.
    pub open spec fn exhausted() -> ErrorView {
        ErrorView::ServerError("no id is left for a new row"@)
    }

    /// Rows handed over as a table do not stand in ascending order of their ids.
    pub open spec fn unordered() -> ErrorView {
        ErrorView::ServerError("rows are not in ascending order of their ids"@)
    }

    /// A pending item names a category that the store does not hold.
    pub open spec fn missing_category() -> ErrorView {
        ErrorView::ServerError("the category of a pending item does not exist"@)
    }

    /// A poll has answers, but none of them is marked correct.
    pub open spec fn no_correct_answer() -> ErrorView {
        ErrorView::ServerError("no answer of the poll is marked correct"@)
    }
}

impl CustomError {
    /// The error of a table that cannot take a new row.
    pub fn exhausted() -> (error: CustomError)
        ensures
            error@ == ErrorView::exhausted(),
    {
        CustomError::ServerError(String::from_str("no id is left for a new row"))
    }

    /// The error of rows that do not stand in ascending order of their ids.
    pub fn unordered() -> (error: CustomError)
        ensures
            error@ == ErrorView::unordered(),
    {
        CustomError::ServerError(String::from_str("rows are not in ascending order of their ids"))
    }

    /// The error of a pending item whose category does not exist.
    pub fn missing_category() -> (error: CustomError)
        ensures
            error@ == ErrorView::missing_category(),
    {
        CustomError::ServerError(String::from_str("the category of a pending item does not exist"))
    }

    /// The error of a poll none of whose answers is marked correct.
    pub fn no_correct_answer() -> (error: CustomError)
        ensures
            error@ == ErrorView::no_correct_answer(),
    {
        CustomError::ServerError(String::from_str("no answer of the poll is marked correct"))
    }

    /// Describes the error in one line.
    pub fn to_string(&self) -> (text: String)
        ensures
            text@ == self@.text(),
    {
        match self {
            CustomError::BadRequest => String::from_str("Bad request"),
            CustomError::NotFound => String::from_str("Not found"),
            CustomError::ServerError(message) => String::from_str("Server error: ").concat(
                message.as_str(),
            ),
            CustomError::OtherError(message) => String::from_str("Server error: ").concat(
                message.as_str(),
            ),
        }
    }

    /// The HTTP status that stands for the error's kind.
    pub fn status_code(&self) -> (status: u16)
        ensures
            status == self@.status(),
    {
        match self {
            CustomError::BadRequest => 400,
            CustomError::NotFound => 404,
            CustomError::ServerError(_) => 500,
            CustomError::OtherError(_) => 500,
        }
    }

    /// The response that reports the error: its HTTP status and its body.
    pub fn into_response(self) -> (response: (u16, ErrorBody))
        ensures
            response.0 == self@.status(),
            response.1@ == self@.body(),
    {
        let status: u16 = self.status_code();
        let message = match self {
            CustomError::BadRequest => String::from_str("Bad Request"),
            CustomError::NotFound => String::from_str("Not Found"),
            CustomError::ServerError(message) => message,
            CustomError::OtherError(message) => message,
        };
        (status, ErrorBody { status: String::from_str("error"), message })
    }
}

} // verus!
