//! Database transactions that are tried again: which errors are worth another try, how a
//! transaction begins, and when to stop.

pub mod retry;

use std::borrow::Cow;

use sqlx_core::Error as DriverError;
use tokio::task::JoinError;
use vstd::prelude::*;
use vstd::string::*;

use crate::text::same_text;

verus! {

/// An error of `sqlx_core`. The value is opaque.
#[verifier::external_type_specification]
#[verifier::external_body]
pub struct ExDriverError(DriverError);

/// Why awaiting a spawned task of `tokio` failed. The value is opaque.
#[verifier::external_type_specification]
#[verifier::external_body]
pub struct ExJoinError(JoinError);

/// Which errors of a PostgreSQL server are worth another try.
#[derive(Debug, Clone, Copy, PartialEq, Eq, Structural)]
pub enum PgRetryStrategy {
    /// retry on 40001 `serialization_failure`,
    /// and 40P01 `deadlock_detected`
    Default,
    /// other than `Default`,
    /// also retry 23505 `unique_violation`,
    /// and 23P01 `exclusion_violation`
    UniqueKey,
}

impl Default for PgRetryStrategy {
    fn default() -> (strategy: Self)
        ensures
            strategy == PgRetryStrategy::Default,
    {
        PgRetryStrategy::Default
    }
}

impl PgRetryStrategy {
    /// The error codes that are worth another try.
    pub open spec fn retries(self, code: Seq<char>) -> bool {
        ||| code == "40001"@
        ||| code == "40P01"@
        ||| self == PgRetryStrategy::UniqueKey && (code == "23505"@ || code == "23P01"@)
    }

    /// Whether an error with this code is worth another try.
    pub fn is_code_retryable(self, code: &str) -> (retryable: bool)
        ensures
            retryable == self.retries(code@),
    {
        let def = same_text(code, "40001") || same_text(code, "40P01");
        match self {
            PgRetryStrategy::Default => def,
            PgRetryStrategy::UniqueKey => def || same_text(code, "23505") || same_text(
                code,
                "23P01",
            ),
        }
    }
}

/// An error of the database driver.
#[derive(Debug)]
pub struct SqlxError {
    /// The code that the server gave, if the server reported the error and gave one.
    pub code: Option<String>,
    /// The error itself.
    pub error: DriverError,
}

/// Why a transaction failed.
#[derive(Debug)]
pub enum Error {
    /// The driver failed.
    Sqlx(SqlxError),
    /// The spawned task failed.
    Tokio(JoinError),
    /// The transaction was tried as often as it may be.
    RetryLimit,
}

/// Calls `sqlx_core::error::DatabaseError::code` where the error is one that the server reported.
///
/// Nothing is claimed of the result: the call goes to the database driver in use. The contracts
/// below say only that a code came out of this call.
#[verifier::external_body]
pub fn database_code(error: &DriverError) -> (code: Option<String>) {
    match error {
        DriverError::Database(error) => error.code().map(|code| code.into_owned()),
        _ => None,
    }
}

impl From<DriverError> for SqlxError {
    fn from(error: DriverError) -> (wrapped: Self)
        ensures
            wrapped.error == error,
            call_ensures(database_code, (&error,), wrapped.code),
    {
        SqlxError::with_code_read_by(error, database_code)
    }
}

impl vstd::std_specs::convert::FromSpecImpl<DriverError> for SqlxError {
    open spec fn obeys_from_spec() -> bool {
        false
    }

    open spec fn from_spec(error: DriverError) -> Self {
        vstd::pervasive::arbitrary()
    }
}

impl From<DriverError> for Error {
    fn from(error: DriverError) -> (wrapped: Self)
        ensures
            wrapped matches Error::Sqlx(sqlx) && sqlx.error == error && call_ensures(
                database_code,
                (&error,),
                sqlx.code,
            ),
    {
        Error::Sqlx(SqlxError::from(error))
    }
}

impl vstd::std_specs::convert::FromSpecImpl<DriverError> for Error {
    open spec fn obeys_from_spec() -> bool {
        false
    }

    open spec fn from_spec(error: DriverError) -> Self {
        vstd::pervasive::arbitrary()
    }
}

impl From<JoinError> for Error {
    fn from(error: JoinError) -> Self {
        Error::Tokio(error)
    }
}

impl vstd::std_specs::convert::FromSpecImpl<JoinError> for Error {
    open spec fn obeys_from_spec() -> bool {
        true
    }

    open spec fn from_spec(error: JoinError) -> Self {
        Error::Tokio(error)
    }
}

impl Error {
    /// Whether the error is one of the driver, with a code that is worth another try.
    pub open spec fn is_retryable(self, strategy: PgRetryStrategy) -> bool {
        self matches Error::Sqlx(sqlx) && sqlx.is_retryable(strategy)
    }

    /// The error of the driver, if it is one.
    #[must_use]
    pub fn as_sqlx(&self) -> (sqlx: Option<&SqlxError>)
        ensures
            match *self {
                Error::Sqlx(error) => sqlx == Some(&error),
                _ => sqlx is None,
            },
    {
        match self {
            Error::Sqlx(error) => Some(error),
            _ => None,
        }
    }
}

impl SqlxError {
    /// Whether the error has a code that is worth another try.
    pub open spec fn is_retryable(self, strategy: PgRetryStrategy) -> bool {
        self.code matches Some(code) && strategy.retries(code@)
    }

    /// The error together with the code that is read from it.
    pub fn with_code_read_by<F>(error: DriverError, read: F) -> (wrapped: Self) where
        F: FnOnce(&DriverError) -> Option<String>,

        requires
            read.requires((&error,)),
        ensures
            wrapped.error == error,
            read.ensures((&error,), wrapped.code),
    {
        let code = read(&error);
        SqlxError { code, error }
    }
}

/// The error of a service, among whose causes are failed transactions.
pub trait CustomError: From<Error> {
    /// The error of the transaction, if one is the cause.
    fn as_transaction_err(&self) -> Option<&Error>;

    /// The error of the driver, if one is the cause.
    fn as_transaction_db_err(&self) -> (sqlx: Option<&SqlxError>)
        default_ensures
            exists|error: Option<&Error>| #[trigger]
                call_ensures(Self::as_transaction_err, (self,), error) && match error {
                    Some(Error::Sqlx(cause)) => sqlx == Some(cause),
                    _ => sqlx is None,
                },
    {
        match self.as_transaction_err() {
            Some(error) => error.as_sqlx(),
            None => None,
        }
    }

    /// Whether the cause is worth another try.
    fn is_transaction_retryable_pg(&self, strategy: PgRetryStrategy) -> (retryable: bool)
        default_ensures
            exists|sqlx: Option<&SqlxError>| #[trigger]
                call_ensures(Self::as_transaction_db_err, (self,), sqlx) && retryable == (
                sqlx matches Some(error) && error.is_retryable(strategy)),
    {
        match self.as_transaction_db_err() {
            Some(error) => match &error.code {
                Some(code) => strategy.is_code_retryable(code.as_str()),
                None => false,
            },
            None => false,
        }
    }
}

impl CustomError for Error {
    fn as_transaction_err(&self) -> (error: Option<&Error>)
        ensures
            error == Some(self),
    {
        Some(self)
    }
}

/// What awaiting a spawned task of the driver gave, with either failure as an error of the
/// transaction.
///
/// # Errors
///
/// if the task failed,
/// or the driver did
pub fn joined<T>(result: Result<Result<T, DriverError>, JoinError>) -> (joined: Result<T, Error>)
    ensures
        match result {
            Ok(Ok(value)) => joined == Ok::<T, Error>(value),
            Ok(Err(error)) => joined matches Err(Error::Sqlx(sqlx)) && sqlx.error == error
                && call_ensures(database_code, (&error,), sqlx.code),
            Err(error) => joined == Err::<T, Error>(Error::Tokio(error)),
        },
{
    match result {
        Ok(Ok(value)) => Ok(value),
        Ok(Err(error)) => Err(Error::from(error)),
        Err(error) => Err(Error::from(error)),
    }
}

/// How a PostgreSQL transaction begins.
#[derive(Debug, Clone, Copy, PartialEq, Eq, Structural)]
pub enum PgBegin {
    /// As the server is configured: isolated against uncommitted changes, by default.
    ReadCommitted,
    /// The same, read-only.
    ReadCommittedRo,
    /// Isolated against changes that are committed meanwhile.
    RepeatableRead,
    /// The same, read-only.
    RepeatableReadRo,
    /// As if it ran alone.
    Serializable,
    /// The same, read-only.
    SerializableRo,
    /// The same, read-only, and begun when nothing can make it fail any more.
    SerializableRoDeferrable,
}

impl Default for PgBegin {
    fn default() -> (begin: Self)
        ensures
            begin == PgBegin::ReadCommitted,
    {
        PgBegin::ReadCommitted
    }
}

impl PgBegin {
    /// The statement that begins the transaction.
    pub open spec fn text(self) -> &'static str {
        match self {
            PgBegin::ReadCommitted => "BEGIN",
            PgBegin::ReadCommittedRo => "BEGIN READ ONLY",
            PgBegin::RepeatableRead => "BEGIN ISOLATION LEVEL REPEATABLE READ",
            PgBegin::RepeatableReadRo => "BEGIN ISOLATION LEVEL REPEATABLE READ, READ ONLY",
            PgBegin::Serializable => "BEGIN ISOLATION LEVEL SERIALIZABLE",
            PgBegin::SerializableRo => "BEGIN ISOLATION LEVEL SERIALIZABLE, READ ONLY",
            PgBegin::SerializableRoDeferrable =>
                "BEGIN ISOLATION LEVEL SERIALIZABLE, READ ONLY, DEFERRABLE",
        }
    }
}

impl From<PgBegin> for Cow<'static, str> {
    fn from(value: PgBegin) -> Self {
        Cow::Borrowed(
            match value {
                PgBegin::ReadCommitted => "BEGIN",
                PgBegin::ReadCommittedRo => "BEGIN READ ONLY",
                PgBegin::RepeatableRead => "BEGIN ISOLATION LEVEL REPEATABLE READ",
                PgBegin::RepeatableReadRo => "BEGIN ISOLATION LEVEL REPEATABLE READ, READ ONLY",
                PgBegin::Serializable => "BEGIN ISOLATION LEVEL SERIALIZABLE",
                PgBegin::SerializableRo => "BEGIN ISOLATION LEVEL SERIALIZABLE, READ ONLY",
                PgBegin::SerializableRoDeferrable => {
                    "BEGIN ISOLATION LEVEL SERIALIZABLE, READ ONLY, DEFERRABLE"
                },
            },
        )
    }
}

impl vstd::std_specs::convert::FromSpecImpl<PgBegin> for Cow<'static, str> {
    open spec fn obeys_from_spec() -> bool {
        true
    }

    open spec fn from_spec(value: PgBegin) -> Self {
        Cow::Borrowed(value.text())
    }
}

/// Whatever the default strategy tries again, the other one does too.
pub proof fn law_unique_key_retries_more(code: Seq<char>)
    requires
        PgRetryStrategy::Default.retries(code),
    ensures
        PgRetryStrategy::UniqueKey.retries(code),
{
}

/// An error of a transaction is worth another try exactly if it is one of the driver with such a
/// code. A failed task or a reached limit never is.
pub proof fn law_transaction_errors_are_retried_by_code(
    error: &Error,
    strategy: PgRetryStrategy,
    retryable: bool,
)
    requires
        call_ensures(
            <Error as CustomError>::is_transaction_retryable_pg,
            (error, strategy),
            retryable,
        ),
    ensures
        retryable == error.is_retryable(strategy),
        error is Tokio || error is RetryLimit ==> !retryable,
{
}

/// What is made of an error of the driver is worth another try exactly if the code that was read
/// from that error is.
pub proof fn law_driver_errors_are_retried_by_code<T>(
    error: DriverError,
    strategy: PgRetryStrategy,
    joined_result: Result<T, Error>,
)
    requires
        call_ensures(joined::<T>, (Ok(Err(error)),), joined_result),
    ensures
        joined_result matches Err(Error::Sqlx(sqlx)) && sqlx.error == error && exists|
            code: Option<String>,
        | #[trigger]
            call_ensures(database_code, (&error,), code) && sqlx.is_retryable(strategy) == (
            code matches Some(c) && strategy.retries(c@)),
{
}

/// Different ways to begin have different statements.
pub proof fn law_statements_differ(one: PgBegin, other: PgBegin)
    requires
        one != other,
    ensures
        one.text()@ != other.text()@,
{
    // No two of the statements have the same length.
    lemma_statement_length(one);
    lemma_statement_length(other);
}

/// The lengths of the statements.
proof fn lemma_statement_length(begin: PgBegin)
    ensures
        begin.text()@.len() == match begin {
            PgBegin::ReadCommitted => 5nat,
            PgBegin::ReadCommittedRo => 15,
            PgBegin::RepeatableRead => 37,
            PgBegin::RepeatableReadRo => 48,
            PgBegin::Serializable => 34,
            PgBegin::SerializableRo => 45,
            PgBegin::SerializableRoDeferrable => 57,
        },
{
    reveal_strlit("BEGIN");
    reveal_strlit("BEGIN READ ONLY");
    reveal_strlit("BEGIN ISOLATION LEVEL REPEATABLE READ");
    reveal_strlit("BEGIN ISOLATION LEVEL REPEATABLE READ, READ ONLY");
    reveal_strlit("BEGIN ISOLATION LEVEL SERIALIZABLE");
    reveal_strlit("BEGIN ISOLATION LEVEL SERIALIZABLE, READ ONLY");
    reveal_strlit("BEGIN ISOLATION LEVEL SERIALIZABLE, READ ONLY, DEFERRABLE");
}

} // verus!
