//! The error kinds of fetching, caching and durable storage.

use vstd::prelude::*;

verus! {

/// Why a page's HTML could not be had.
#[derive(Clone, Debug, PartialEq, Eq)]
pub enum FetchError {
    /// The direct HTTP fetch failed: connection, timeout or body decoding.
    Network(String),
    /// The headless browser could not start, open a tab, navigate, become
    /// ready or hand back its content.
    Render(String),
}

impl FetchError {
    /// A readable description of the error.
    pub fn message(&self) -> (r: String)
        ensures
            r@ == match self {
                FetchError::Network(m) => m@,
                FetchError::Render(m) => m@,
            },
    {
        match self {
            FetchError::Network(m) => m.clone(),
            FetchError::Render(m) => m.clone(),
        }
    }
}

/// Why the cache backend could not serve a lookup or a store. Never surfaced
/// as a request failure.
#[derive(Clone, Debug, PartialEq, Eq)]
pub enum CacheError {
    /// The backend could not be reached or refused the command.
    Backend(String),
    /// A stored payload could not be read back, or a record not written.
    Serialization(String),
    /// Any other failure, such as a missing backend handle.
    Other(String),
}

/// Why the durable repository failed.
#[derive(Clone, Debug, PartialEq, Eq)]
pub enum RepositoryError {
    /// The database reported an error.
    Database(String),
    /// The metadata table does not exist: migrations have not been run.
    TableNotFound,
    /// Any other failure, such as a missing database pool.
    Other(String),
}

/// The SQLSTATE code of an undefined table.
pub open spec fn undefined_table_code() -> Seq<char> {
    "42P01"@
}

impl RepositoryError {
    /// Classifies a database error by its SQLSTATE code: an undefined table is
    /// `TableNotFound`, anything else a `Database` error with the message.
    pub fn from_database(code: Option<&str>, message: String) -> (r: RepositoryError)
        ensures
            match code {
                Some(c) => c@ == undefined_table_code(),
                None => false,
            } ==> r == RepositoryError::TableNotFound,
            !match code {
                Some(c) => c@ == undefined_table_code(),
                None => false,
            } ==> r == RepositoryError::Database(message),
    {
        match code {
            Some(c) => {
                let found = c.to_owned();
                let expected = "42P01".to_owned();
                if found == expected {
                    RepositoryError::TableNotFound
                } else {
                    RepositoryError::Database(message)
                }
            },
            None => RepositoryError::Database(message),
        }
    }
}

} // verus!
