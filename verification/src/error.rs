//! Errors that the game's operations report.

use vstd::prelude::*;

verus! {

/// An operation that was refused, with the reason shown to the player.
#[derive(Debug)]
pub enum AppError {
    NotFound(String),
    BadRequest(String),
    Forbidden(String),
    GameError(String),
}

/// An error as a kind and the text of its message.
pub enum ErrorView {
    NotFound(Seq<char>),
    BadRequest(Seq<char>),
    Forbidden(Seq<char>),
    GameError(Seq<char>),
}

impl View for AppError {
    type V = ErrorView;

    open spec fn view(&self) -> ErrorView {
        match self {
            AppError::NotFound(m) => ErrorView::NotFound(m@),
            AppError::BadRequest(m) => ErrorView::BadRequest(m@),
            AppError::Forbidden(m) => ErrorView::Forbidden(m@),
            AppError::GameError(m) => ErrorView::GameError(m@),
        }
    }
}

pub type AppResult<T> = Result<T, AppError>;

impl AppError {
    /// A refused game action.
    pub fn game(message: &str) -> (e: AppError)
        ensures
            e@ == ErrorView::GameError(message@),
    {
        AppError::GameError(String::from_str(message))
    }

    /// A request that does not fit the room's state.
    pub fn bad_request(message: &str) -> (e: AppError)
        ensures
            e@ == ErrorView::BadRequest(message@),
    {
        AppError::BadRequest(String::from_str(message))
    }

    /// An action by a player whose turn it is not.
    pub fn forbidden(message: &str) -> (e: AppError)
        ensures
            e@ == ErrorView::Forbidden(message@),
    {
        AppError::Forbidden(String::from_str(message))
    }

    /// Something that does not exist.
    pub fn not_found(message: &str) -> (e: AppError)
        ensures
            e@ == ErrorView::NotFound(message@),
    {
        AppError::NotFound(String::from_str(message))
    }
}

} // verus!
