//! Error taxonomy of the catalog services.

use vstd::prelude::*;

verus! {

/// Every failure of the game and movie catalog services.
#[derive(Clone, Copy, Debug, PartialEq, Eq, Structural)]
pub enum ServiceError {
    /// The backing store could not be reached.
    ConnectionFailure,
    /// No game row exists for the requested id.
    GameNotFound,
    /// No movie row exists for the requested id.
    MovieNotFound,
    /// The supplied fields do not describe a game.
    FailedToMakeGame,
    /// The supplied fields do not describe a movie.
    FailedToMakeMovie,
    /// The game row could not be rewritten.
    FailedToUpdateGame,
    /// The movie row could not be rewritten.
    FailedToUpdateMovie,
}

/// The HTTP status code that a transport layer renders for each error kind.
pub open spec fn service_status_code(e: ServiceError) -> u16 {
    match e {
        ServiceError::ConnectionFailure => 500,
        ServiceError::GameNotFound => 404,
        ServiceError::MovieNotFound => 404,
        ServiceError::FailedToMakeGame => 418,
        ServiceError::FailedToMakeMovie => 418,
        ServiceError::FailedToUpdateGame => 500,
        ServiceError::FailedToUpdateMovie => 500,
    }
}

/// The short, fixed message shown for each error kind.
pub open spec fn service_message(e: ServiceError) -> Seq<char> {
    match e {
        ServiceError::ConnectionFailure => "failed to connect to DB."@,
        ServiceError::GameNotFound => "Failed to find a game for specified id"@,
        ServiceError::MovieNotFound => "Failed to find a movie for specified id"@,
        ServiceError::FailedToMakeGame => "Failed to make new game"@,
        ServiceError::FailedToMakeMovie => "Failed to make new movie"@,
        ServiceError::FailedToUpdateGame => "Failed to update game"@,
        ServiceError::FailedToUpdateMovie => "Failed to update movie"@,
    }
}

impl ServiceError {
    /// The HTTP status code this error maps to.
    pub fn status_code(&self) -> (c: u16)
        ensures
            c == service_status_code(*self),
    {
        match self {
            ServiceError::ConnectionFailure => 500,
            ServiceError::GameNotFound => 404,
            ServiceError::MovieNotFound => 404,
            ServiceError::FailedToMakeGame => 418,
            ServiceError::FailedToMakeMovie => 418,
            ServiceError::FailedToUpdateGame => 500,
            ServiceError::FailedToUpdateMovie => 500,
        }
    }

    /// The user-visible message for this error.
    pub fn message(&self) -> (m: String)
        ensures
            m@ == service_message(*self),
    {
        match self {
            ServiceError::ConnectionFailure => "failed to connect to DB.".to_owned(),
            ServiceError::GameNotFound => "Failed to find a game for specified id".to_owned(),
            ServiceError::MovieNotFound => "Failed to find a movie for specified id".to_owned(),
            ServiceError::FailedToMakeGame => "Failed to make new game".to_owned(),
            ServiceError::FailedToMakeMovie => "Failed to make new movie".to_owned(),
            ServiceError::FailedToUpdateGame => "Failed to update game".to_owned(),
            ServiceError::FailedToUpdateMovie => "Failed to update movie".to_owned(),
        }
    }
}

} // verus!
