//! Error kinds of the repository layer and of the command layer above it.
use vstd::prelude::*;

verus! {

/// What a repository operation can fail with. Absence of a row is not an
/// error: lookups return `None` for it.
#[derive(Debug)]
pub enum RepoError {
    /// Caller-supplied data fails a precondition; the caller fixes it and retries.
    InvalidInput(String),
    /// The storage engine rejected or failed the operation; its message is kept.
    DatabaseError(String),
    /// Anything outside the kinds above.
    UnexpectedError(String),
}

#[derive(Debug)]
pub enum BookCommandError {
    DatabaseError(String),
    InvalidInput(String),
    UnexpectedError(String),
}

#[derive(Debug)]
pub enum TagCommandError {
    DatabaseError(String),
    InvalidInput(String),
    UnexpectedError(String),
}

#[derive(Debug)]
pub enum UserCommandError {
    DatabaseError(String),
    InvalidInput(String),
    UnexpectedError(String),
}

/// The command-layer kind that a repository error is reported as: the kind
/// is kept, and so is the message.
pub open spec fn book_error_of(e: RepoError) -> BookCommandError {
    match e {
        RepoError::InvalidInput(m) => BookCommandError::InvalidInput(m),
        RepoError::DatabaseError(m) => BookCommandError::DatabaseError(m),
        RepoError::UnexpectedError(m) => BookCommandError::UnexpectedError(m),
    }
}

pub open spec fn tag_error_of(e: RepoError) -> TagCommandError {
    match e {
        RepoError::InvalidInput(m) => TagCommandError::InvalidInput(m),
        RepoError::DatabaseError(m) => TagCommandError::DatabaseError(m),
        RepoError::UnexpectedError(m) => TagCommandError::UnexpectedError(m),
    }
}

pub open spec fn user_error_of(e: RepoError) -> UserCommandError {
    match e {
        RepoError::InvalidInput(m) => UserCommandError::InvalidInput(m),
        RepoError::DatabaseError(m) => UserCommandError::DatabaseError(m),
        RepoError::UnexpectedError(m) => UserCommandError::UnexpectedError(m),
    }
}

impl RepoError {
    /// The message the error carries.
    pub fn message(self) -> (r: String)
        ensures
            r == match self {
                RepoError::InvalidInput(m) => m,
                RepoError::DatabaseError(m) => m,
                RepoError::UnexpectedError(m) => m,
            },
    {
        match self {
            RepoError::InvalidInput(m) => m,
            RepoError::DatabaseError(m) => m,
            RepoError::UnexpectedError(m) => m,
        }
    }
}

impl BookCommandError {
    pub fn from_repo(e: RepoError) -> (r: BookCommandError)
        ensures
            r == book_error_of(e),
    {
        match e {
            RepoError::InvalidInput(m) => BookCommandError::InvalidInput(m),
            RepoError::DatabaseError(m) => BookCommandError::DatabaseError(m),
            RepoError::UnexpectedError(m) => BookCommandError::UnexpectedError(m),
        }
    }
}

impl TagCommandError {
    pub fn from_repo(e: RepoError) -> (r: TagCommandError)
        ensures
            r == tag_error_of(e),
    {
        match e {
            RepoError::InvalidInput(m) => TagCommandError::InvalidInput(m),
            RepoError::DatabaseError(m) => TagCommandError::DatabaseError(m),
            RepoError::UnexpectedError(m) => TagCommandError::UnexpectedError(m),
        }
    }
}

impl UserCommandError {
    pub fn from_repo(e: RepoError) -> (r: UserCommandError)
        ensures
            r == user_error_of(e),
    {
        match e {
            RepoError::InvalidInput(m) => UserCommandError::InvalidInput(m),
            RepoError::DatabaseError(m) => UserCommandError::DatabaseError(m),
            RepoError::UnexpectedError(m) => UserCommandError::UnexpectedError(m),
        }
    }
}

} // verus!
