//! Transactions that are tried again.

use std::borrow::Cow;

use sqlx_core::Error as DriverError;
use tokio::task::JoinError;
use vstd::prelude::*;

use crate::sqlx_transaction::retry::{Event, Outcome, Retry, Stage};
use crate::sqlx_transaction::{
    database_code, joined, CustomError, Error, PgBegin, PgRetryStrategy, SqlxError,
};

verus! {

/// By default a code is worth another try exactly if it is 40001 or 40P01; with unique keys it also
/// is if it is 23505 or 23P01. No other code is.
pub proof fn law_retryable_codes(strategy: PgRetryStrategy, code: &str, retryable: bool)
    requires
        call_ensures(PgRetryStrategy::is_code_retryable, (strategy, code), retryable),
    ensures
        strategy is Default ==> (retryable <==> code@ == "40001"@ || code@ == "40P01"@),
        strategy is UniqueKey ==> (retryable <==> code@ == "40001"@ || code@ == "40P01"@ || code@
            == "23505"@ || code@ == "23P01"@),
{
}

/// An error of a transaction is worth another try exactly if the driver reported it with one of
/// those codes. One without a code, a failed task and a reached limit are not.
pub proof fn law_retryable_errors(error: &Error, strategy: PgRetryStrategy, retryable: bool)
    requires
        call_ensures(
            <Error as CustomError>::is_transaction_retryable_pg,
            (error, strategy),
            retryable,
        ),
    ensures
        match *error {
            Error::Sqlx(SqlxError { code: Some(code), error: _ }) => match strategy {
                PgRetryStrategy::Default => retryable <==> code@ == "40001"@ || code@ == "40P01"@,
                PgRetryStrategy::UniqueKey => retryable <==> code@ == "40001"@ || code@ == "40P01"@
                    || code@ == "23505"@ || code@ == "23P01"@,
            },
            _ => !retryable,
        },
{
}

/// The error of a transaction is its own cause, and the driver's error is there exactly if the
/// driver reported it.
pub proof fn law_causes_of_errors(
    error: &Error,
    sqlx: Option<&SqlxError>,
    cause: Option<&Error>,
    db_cause: Option<&SqlxError>,
)
    requires
        call_ensures(Error::as_sqlx, (error,), sqlx),
        call_ensures(<Error as CustomError>::as_transaction_err, (error,), cause),
        call_ensures(<Error as CustomError>::as_transaction_db_err, (error,), db_cause),
    ensures
        cause == Some(error),
        match *error {
            Error::Sqlx(e) => sqlx == Some(&e) && db_cause == Some(&e),
            Error::Tokio(_) | Error::RetryLimit => sqlx is None && db_cause is None,
        },
{
}

/// An error of a service that names its causes itself and leaves the rest to `CustomError`.
#[derive(Debug)]
pub struct NamedCauses {
    /// The error of the transaction.
    pub transaction: Option<Error>,
    /// The error of the driver.
    pub driver: Option<SqlxError>,
}

impl From<Error> for NamedCauses {
    fn from(error: Error) -> Self {
        NamedCauses { transaction: Some(error), driver: None }
    }
}

impl vstd::std_specs::convert::FromSpecImpl<Error> for NamedCauses {
    open spec fn obeys_from_spec() -> bool {
        true
    }

    open spec fn from_spec(error: Error) -> Self {
        NamedCauses { transaction: Some(error), driver: None }
    }
}

impl CustomError for NamedCauses {
    fn as_transaction_err(&self) -> (error: Option<&Error>)
        ensures
            error is Some <==> self.transaction is Some,
            error matches Some(e) ==> self.transaction == Some(*e),
    {
        match &self.transaction {
            Some(error) => Some(error),
            None => None,
        }
    }

    fn as_transaction_db_err(&self) -> (error: Option<&SqlxError>)
        ensures
            error is Some <==> self.driver is Some,
            error matches Some(e) ==> self.driver == Some(*e),
    {
        match &self.driver {
            Some(error) => Some(error),
            None => None,
        }
    }
}

/// Where a service leaves it open which of its errors are worth another try, the driver's error
/// that it names decides, by its code, and the error of the transaction does not.
pub proof fn law_named_driver_error_decides(
    error: &NamedCauses,
    strategy: PgRetryStrategy,
    retryable: bool,
)
    requires
        call_ensures(
            <NamedCauses as CustomError>::is_transaction_retryable_pg,
            (error, strategy),
            retryable,
        ),
    ensures
        retryable <==> (error.driver matches Some(sqlx) && sqlx.code matches Some(code) && (code@
            == "40001"@ || code@ == "40P01"@ || (strategy is UniqueKey && (code@ == "23505"@
            || code@ == "23P01"@)))),
{
}

/// An error of the driver is kept, with the code that was read from it.
pub proof fn law_driver_errors_are_kept<F>(
    error: DriverError,
    read: F,
    by_reader: SqlxError,
    wrapped: SqlxError,
    transaction_error: Error,
) where F: FnOnce(&DriverError) -> Option<String>
    requires
        call_ensures(SqlxError::with_code_read_by::<F>, (error, read), by_reader),
        call_ensures(<SqlxError as From<DriverError>>::from, (error,), wrapped),
        call_ensures(<Error as From<DriverError>>::from, (error,), transaction_error),
    ensures
        by_reader.error == error,
        read.ensures((&error,), by_reader.code),
        wrapped.error == error,
        call_ensures(database_code, (&error,), wrapped.code),
        transaction_error matches Error::Sqlx(sqlx) && sqlx.error == error && call_ensures(
            database_code,
            (&error,),
            sqlx.code,
        ),
{
}

/// A failed task is kept as what it is.
pub proof fn law_failed_tasks_are_kept(error: JoinError, transaction_error: Error)
    requires
        call_ensures(<Error as From<JoinError>>::from, (error,), transaction_error),
    ensures
        transaction_error == Error::Tokio(error),
{
}

/// A task of the driver succeeds exactly if it could be awaited and the driver succeeded, with the
/// value of the driver.
pub proof fn law_joined_tasks<T>(
    result: Result<Result<T, DriverError>, JoinError>,
    joined_result: Result<T, Error>,
)
    requires
        call_ensures(joined::<T>, (result,), joined_result),
    ensures
        match joined_result {
            Ok(value) => result == Ok::<Result<T, DriverError>, JoinError>(Ok(value)),
            Err(Error::Tokio(error)) => result == Err::<Result<T, DriverError>, JoinError>(error),
            Err(Error::Sqlx(sqlx)) => result == Ok::<Result<T, DriverError>, JoinError>(
                Err(sqlx.error),
            ) && call_ensures(database_code, (&sqlx.error,), sqlx.code),
            Err(Error::RetryLimit) => false,
        },
{
}

/// The statements that begin transactions.
pub proof fn law_begin_statements(begin: PgBegin, statement: Cow<'static, str>)
    requires
        call_ensures(<Cow<'static, str> as From<PgBegin>>::from, (begin,), statement),
    ensures
        begin is ReadCommitted ==> statement@ == "BEGIN"@,
        begin is ReadCommittedRo ==> statement@ == "BEGIN READ ONLY"@,
        begin is RepeatableRead ==> statement@ == "BEGIN ISOLATION LEVEL REPEATABLE READ"@,
        begin is RepeatableReadRo ==> statement@
            == "BEGIN ISOLATION LEVEL REPEATABLE READ, READ ONLY"@,
        begin is Serializable ==> statement@ == "BEGIN ISOLATION LEVEL SERIALIZABLE"@,
        begin is SerializableRo ==> statement@ == "BEGIN ISOLATION LEVEL SERIALIZABLE, READ ONLY"@,
        begin is SerializableRoDeferrable ==> statement@
            == "BEGIN ISOLATION LEVEL SERIALIZABLE, READ ONLY, DEFERRABLE"@,
{
}

/// If nothing is said, transactions are isolated against uncommitted changes and tried again on the
/// default codes.
pub proof fn law_transaction_defaults(strategy: PgRetryStrategy, begin: PgBegin)
    requires
        call_ensures(<PgRetryStrategy as Default>::default, (), strategy),
        call_ensures(<PgBegin as Default>::default, (), begin),
    ensures
        strategy is Default,
        begin is ReadCommitted,
{
}

/// The loop gives the value of the committed transaction, the error of the callback as it is, or
/// what the service makes of an error of a transaction.
pub proof fn law_outcomes_as_results<R, E: CustomError>(
    outcome: Outcome<R, E>,
    result: Result<R, E>,
)
    requires
        call_ensures(Outcome::<R, E>::into_result, (outcome,), result),
    ensures
        match outcome {
            Outcome::Success(value) => result == Ok::<R, E>(value),
            Outcome::Callback(error) => result == Err::<R, E>(error),
            Outcome::Transaction(error) => result matches Err(converted) && call_ensures(
                <E as From<Error>>::from,
                (error,),
                converted,
            ),
        },
{
}

/// A new machine is about to begin, has not tried again, and has the settings that it was made
/// with.
pub proof fn law_new_machines<R, E>(
    statement: Cow<'static, str>,
    max_retries: u64,
    strategy: PgRetryStrategy,
    machine: Retry<R, E>,
)
    requires
        call_ensures(Retry::<R, E>::new, (statement, max_retries, strategy), machine),
    ensures
        machine.stage() is Begin,
        machine.retry_count() == 0,
        machine.max_retries() == max_retries,
        machine.strategy() == strategy,
        machine.statement() == statement@,
{
}

/// A machine shows its state, and how often it has tried again is never more than it may.
pub proof fn law_machines_show_their_state<R, E>(
    machine: Retry<R, E>,
    statement: Cow<'static, str>,
    count: u64,
    shown: &Stage<R, E>,
    taken: Stage<R, E>,
)
    requires
        call_ensures(Retry::<R, E>::begin_statement, (&machine,), statement),
        call_ensures(Retry::<R, E>::retries, (&machine,), count),
        call_ensures(Retry::<R, E>::next, (&machine,), shown),
        call_ensures(Retry::<R, E>::into_stage, (machine,), taken),
    ensures
        statement@ == machine.statement(),
        count == machine.retry_count(),
        count <= machine.max_retries(),
        *shown == machine.stage(),
        taken == machine.stage(),
{
}

/// No step changes the statement, the limit or the strategy, and the count stays within the limit
/// and grows by one at most, and only where the next stage is another begin.
pub proof fn law_steps_keep_the_settings<R, E: CustomError>(
    machine: Retry<R, E>,
    event: Event<R, E>,
    next: Retry<R, E>,
)
    requires
        call_ensures(Retry::<R, E>::step, (machine, event), next),
    ensures
        next.statement() == machine.statement(),
        next.max_retries() == machine.max_retries(),
        next.strategy() == machine.strategy(),
        next.retry_count() <= next.max_retries(),
        next.stage() is Begin ==> next.retry_count() == machine.retry_count() + 1,
        next.stage() !is Begin ==> next.retry_count() == machine.retry_count(),
{
}

/// After a begin comes the callback; a begin that fails ends the loop with its error.
pub proof fn law_step_after_begin<R, E: CustomError>(
    machine: Retry<R, E>,
    begun: Result<(), Error>,
    next: Retry<R, E>,
)
    requires
        call_ensures(Retry::<R, E>::step, (machine, Event::Begin(begun)), next),
        machine.stage() is Begin,
    ensures
        match begun {
            Ok(_) => next.stage() is Callback,
            Err(error) => next.stage() == Stage::<R, E>::Finished(Outcome::Transaction(error)),
        },
{
}

/// What the callback returns is committed. An error of the callback is tried again, within the
/// limit, exactly if the service says that it is worth it, however often the transaction has been
/// tried; any other is rolled back in the same try.
pub proof fn law_step_after_callback<R, E: CustomError>(
    machine: Retry<R, E>,
    called: Result<R, E>,
    next: Retry<R, E>,
)
    requires
        call_ensures(Retry::<R, E>::step, (machine, Event::Callback(called)), next),
        machine.stage() is Callback,
    ensures
        called matches Ok(value) ==> next.stage() == Stage::<R, E>::Commit(value),
        called matches Err(error) ==> match next.stage() {
            Stage::Begin => machine.retry_count() < machine.max_retries() && call_ensures(
                E::is_transaction_retryable_pg,
                (&error, machine.strategy()),
                true,
            ),
            Stage::Finished(outcome) => machine.retry_count() >= machine.max_retries()
                && call_ensures(
                E::is_transaction_retryable_pg,
                (&error, machine.strategy()),
                true,
            ) && outcome == Outcome::<R, E>::Transaction(Error::RetryLimit),
            Stage::Rollback(kept) => kept == error && call_ensures(
                E::is_transaction_retryable_pg,
                (&error, machine.strategy()),
                false,
            ),
            _ => false,
        },
{
}

/// A commit ends the loop with the value of the callback. A commit that fails is tried again, within
/// the limit, exactly if the driver reported one of the codes that are worth it; any other failure
/// ends the loop with its error.
pub proof fn law_step_after_commit<R, E: CustomError>(
    machine: Retry<R, E>,
    value: R,
    committed: Result<(), Error>,
    next: Retry<R, E>,
)
    requires
        call_ensures(Retry::<R, E>::step, (machine, Event::Commit(committed)), next),
        machine.stage() == Stage::<R, E>::Commit(value),
    ensures
        committed is Ok ==> next.stage() == Stage::<R, E>::Finished(Outcome::Success(value)),
        committed matches Err(error) ==> {
            let retryable = error matches Error::Sqlx(sqlx) && sqlx.code matches Some(code) && (
            code@ == "40001"@ || code@ == "40P01"@ || (machine.strategy() is UniqueKey && (code@
                == "23505"@ || code@ == "23P01"@)));
            if !retryable {
                next.stage() == Stage::<R, E>::Finished(Outcome::Transaction(error))
            } else if machine.retry_count() < machine.max_retries() {
                next.stage() is Begin
            } else {
                next.stage() == Stage::<R, E>::Finished(Outcome::Transaction(Error::RetryLimit))
            }
        },
{
}

/// A rollback ends the loop with the error of the callback; one that fails ends it with its own.
pub proof fn law_step_after_rollback<R, E: CustomError>(
    machine: Retry<R, E>,
    error: E,
    rolled_back: Result<(), Error>,
    next: Retry<R, E>,
)
    requires
        call_ensures(Retry::<R, E>::step, (machine, Event::Rollback(rolled_back)), next),
        machine.stage() == Stage::<R, E>::Rollback(error),
    ensures
        match rolled_back {
            Ok(_) => next.stage() == Stage::<R, E>::Finished(Outcome::Callback(error)),
            Err(e) => next.stage() == Stage::<R, E>::Finished(Outcome::Transaction(e)),
        },
{
}

} // verus!
