use vstd::prelude::*;
use std::time::SystemTimeError;

verus! {

#[verifier::external_type_specification]
#[verifier::external_body]
pub struct ExSystemTimeError(SystemTimeError);

/// Why a database operation failed.
#[derive(Debug)]
pub enum DbError {
    /// SQLite or rusqlite reported an error, or the library reports one in
    /// rusqlite's terms (a database without the diary table).
    Sqlite(rusqlite::Error),
    /// A pattern of the furigana stripper did not compile.
    Pattern(regex::Error),
    /// The system clock is set before the Unix epoch.
    ClockBeforeEpoch(SystemTimeError),
}

/// What an SQLite step hands on: its value when it succeeded, its error
/// (as an SQLite error) when it failed.
pub fn sqlite_step<T>(step: Result<T, rusqlite::Error>) -> (r: Result<T, DbError>)
    ensures
        step is Ok ==> (r is Ok && r->Ok_0 == step->Ok_0),
        step is Err ==> r == Err::<T, DbError>(DbError::Sqlite(step->Err_0)),
{
    match step {
        Ok(v) => Ok(v),
        Err(e) => Err(DbError::Sqlite(e)),
    }
}

/// The error `rusqlite::Error::SqliteFailure` with the result code
/// `SQLITE_ERROR` and the given message.
pub uninterp spec fn sqlite_failure(message: Seq<char>) -> rusqlite::Error;

/// `rusqlite::ffi::Error::new` with `SQLITE_ERROR`, wrapped in
/// `rusqlite::Error::SqliteFailure` with `message`: the error is a function
/// of the message alone, named by `sqlite_failure`.
#[verifier::external_body]
pub(crate) fn sqlite_error_with_message(message: &str) -> (r: rusqlite::Error)
    ensures
        r == sqlite_failure(message@),
{
    rusqlite::Error::SqliteFailure(
        rusqlite::ffi::Error::new(rusqlite::ffi::SQLITE_ERROR),
        Some(message.to_string()),
    )
}

} // verus!
