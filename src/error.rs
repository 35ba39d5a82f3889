//! The service's errors and the HTTP status each one is answered with.

use vstd::prelude::*;
use crate::crypto::CryptoError;

verus! {

/// Everything that can go wrong in a request.
#[derive(Debug)]
pub enum Error {
    /// The OAuth provider refused or failed an exchange.
    Auth(String),
    /// A configuration value is missing or malformed.
    Config(String),
    /// The backing store failed; the text describes the failure.
    Db(String),
    /// A stored token could not be decrypted.
    Crypto(CryptoError),
    UserAlreadyExists,
    InvalidQuestionTitle,
    InvalidQuestionBody,
    DailyLimitReached,
    QuestionNotFound,
    Unauthorized,
    AnswerAlreadyExists,
}

/// The HTTP status that answers each error.
pub open spec fn status_of(e: Error) -> u16 {
    match e {
        Error::Auth(_) | Error::Unauthorized => 401,
        Error::Config(_) | Error::Db(_) | Error::Crypto(_) => 500,
        Error::QuestionNotFound => 404,
        _ => 400,
    }
}

/// The message shown to the user for each error.
pub open spec fn message_of(e: Error) -> Seq<char> {
    match e {
        Error::Auth(_) | Error::Unauthorized => "Unauthorized"@,
        Error::Config(_) | Error::Db(_) | Error::Crypto(_) => "Internal Server Error"@,
        Error::AnswerAlreadyExists => "Answer already exists for this question"@,
        Error::InvalidQuestionTitle => "Invalid Question Title. Title must be between 5 and 100 characters"@,
        Error::InvalidQuestionBody => "Invalid Question Body. Body must be at most 1000 characters"@,
        Error::DailyLimitReached => "Daily question limit reached. Come back tomorrow to submit another question"@,
        Error::QuestionNotFound => "Question not found"@,
        Error::UserAlreadyExists => "User Already Exists"@,
    }
}

impl Error {
    /// The HTTP status and the message shown to the user.
    pub fn status_and_message(&self) -> (r: (u16, &'static str))
        ensures
            r.0 == status_of(*self),
            r.1@ == message_of(*self),
    {
        match self {
            Error::Auth(_) => (401, "Unauthorized"),
            Error::AnswerAlreadyExists => (400, "Answer already exists for this question"),
            Error::Config(_) => (500, "Internal Server Error"),
            Error::Db(_) => (500, "Internal Server Error"),
            Error::Crypto(_) => (500, "Internal Server Error"),
            Error::Unauthorized => (401, "Unauthorized"),
            Error::InvalidQuestionTitle => (
                400,
                "Invalid Question Title. Title must be between 5 and 100 characters",
            ),
            Error::InvalidQuestionBody => (
                400,
                "Invalid Question Body. Body must be at most 1000 characters",
            ),
            Error::DailyLimitReached => (
                400,
                "Daily question limit reached. Come back tomorrow to submit another question",
            ),
            Error::QuestionNotFound => (404, "Question not found"),
            Error::UserAlreadyExists => (400, "User Already Exists"),
        }
    }
}

} // verus!
