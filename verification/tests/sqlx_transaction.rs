use std::borrow::Cow;
use std::error::Error as StdError;
use std::fmt;

use service_kit::sqlx_transaction::retry::{Event, Outcome, Retry, Stage};
use service_kit::sqlx_transaction::{
    database_code, joined, CustomError, Error, PgBegin, PgRetryStrategy, SqlxError,
};
use sqlx_core::error::{DatabaseError, ErrorKind};

#[derive(Debug)]
struct ServerError {
    code: Option<&'static str>,
}

impl fmt::Display for ServerError {
    fn fmt(&self, formatter: &mut fmt::Formatter<'_>) -> fmt::Result {
        formatter.write_str("server error")
    }
}

impl StdError for ServerError {}

impl DatabaseError for ServerError {
    fn message(&self) -> &str {
        "server error"
    }

    fn code(&self) -> Option<Cow<'_, str>> {
        self.code.map(Cow::Borrowed)
    }

    fn as_error(&self) -> &(dyn StdError + Send + Sync + 'static) {
        self
    }

    fn as_error_mut(&mut self) -> &mut (dyn StdError + Send + Sync + 'static) {
        self
    }

    fn into_error(self: Box<Self>) -> Box<dyn StdError + Send + Sync + 'static> {
        self
    }

    fn kind(&self) -> ErrorKind {
        ErrorKind::Other
    }
}

fn with_code(code: Option<&'static str>) -> Error {
    Error::from(sqlx_core::Error::Database(Box::new(ServerError { code })))
}

fn join_error() -> tokio::task::JoinError {
    let runtime = tokio::runtime::Builder::new_current_thread().build().unwrap();
    runtime.block_on(async {
        let task = tokio::spawn(std::future::pending::<()>());
        task.abort();
        task.await.unwrap_err()
    })
}

#[derive(Debug)]
enum ServiceError {
    Transaction(Error),
    Rejected(&'static str),
    Busy,
}

impl From<Error> for ServiceError {
    fn from(error: Error) -> Self {
        ServiceError::Transaction(error)
    }
}

impl CustomError for ServiceError {
    fn as_transaction_err(&self) -> Option<&Error> {
        match self {
            ServiceError::Transaction(error) => Some(error),
            _ => None,
        }
    }
}

#[derive(Debug)]
struct Stubborn;

impl From<Error> for Stubborn {
    fn from(_: Error) -> Self {
        Stubborn
    }
}

impl CustomError for Stubborn {
    fn as_transaction_err(&self) -> Option<&Error> {
        None
    }

    fn is_transaction_retryable_pg(&self, _: PgRetryStrategy) -> bool {
        true
    }
}

#[test]
fn codes_worth_another_try() {
    let default = PgRetryStrategy::default();
    assert_eq!(default, PgRetryStrategy::Default);
    for code in ["40001", "40P01"] {
        assert!(default.is_code_retryable(code));
        assert!(PgRetryStrategy::UniqueKey.is_code_retryable(code));
    }
    for code in ["23505", "23P01"] {
        assert!(!default.is_code_retryable(code));
        assert!(PgRetryStrategy::UniqueKey.is_code_retryable(code));
    }
    for code in ["", "40002", "40p01", "4000", "23503"] {
        assert!(!default.is_code_retryable(code));
        assert!(!PgRetryStrategy::UniqueKey.is_code_retryable(code));
    }
}

#[test]
fn codes_come_from_the_driver() {
    let code = |error: Error| match error {
        Error::Sqlx(SqlxError { code, .. }) => code,
        other => panic!("{other:?}"),
    };
    assert_eq!(code(with_code(Some("40001"))).as_deref(), Some("40001"));
    assert_eq!(code(with_code(None)), None);
    assert_eq!(code(Error::from(sqlx_core::Error::RowNotFound)), None);
}

#[test]
fn codes_are_read_from_the_error() {
    let error = || sqlx_core::Error::Database(Box::new(ServerError { code: Some("40P01") }));
    assert_eq!(database_code(&error()).as_deref(), Some("40P01"));
    assert_eq!(database_code(&sqlx_core::Error::WorkerCrashed), None);
    let wrapped = SqlxError::with_code_read_by(error(), |_| Some("23505".to_owned()));
    assert_eq!(wrapped.code.as_deref(), Some("23505"));
    assert!(matches!(wrapped.error, sqlx_core::Error::Database(_)));
    let wrapped = SqlxError::from(error());
    assert_eq!(wrapped.code.as_deref(), Some("40P01"));
    assert!(matches!(wrapped.error, sqlx_core::Error::Database(_)));
}

#[test]
fn joined_driver_errors_are_retried_by_code() {
    let error = |code| sqlx_core::Error::Database(Box::new(ServerError { code: Some(code) }));
    let retried = joined::<()>(Ok(Err(error("40001")))).unwrap_err();
    assert!(retried.is_transaction_retryable_pg(PgRetryStrategy::Default));
    let unique = joined::<()>(Ok(Err(error("23P01")))).unwrap_err();
    assert!(!unique.is_transaction_retryable_pg(PgRetryStrategy::Default));
    assert!(unique.is_transaction_retryable_pg(PgRetryStrategy::UniqueKey));
}

#[test]
fn errors_are_retried_by_code() {
    let default = PgRetryStrategy::Default;
    let unique = PgRetryStrategy::UniqueKey;
    assert!(with_code(Some("40P01")).is_transaction_retryable_pg(default));
    assert!(!with_code(Some("23505")).is_transaction_retryable_pg(default));
    assert!(with_code(Some("23505")).is_transaction_retryable_pg(unique));
    assert!(!with_code(None).is_transaction_retryable_pg(unique));
    assert!(!Error::from(sqlx_core::Error::RowNotFound).is_transaction_retryable_pg(unique));
    assert!(!Error::RetryLimit.is_transaction_retryable_pg(unique));
    assert!(!Error::from(join_error()).is_transaction_retryable_pg(unique));

    assert!(ServiceError::from(with_code(Some("40001"))).is_transaction_retryable_pg(default));
    assert!(!ServiceError::Rejected("no").is_transaction_retryable_pg(unique));
    assert!(ServiceError::Busy.as_transaction_db_err().is_none());
}

#[test]
fn errors_of_the_driver_are_seen() {
    let error = with_code(Some("40001"));
    assert!(matches!(error.as_sqlx().unwrap().error, sqlx_core::Error::Database(_)));
    assert!(error.as_transaction_err().is_some());
    assert_eq!(error.as_transaction_db_err().unwrap().code.as_deref(), Some("40001"));
    assert!(Error::RetryLimit.as_sqlx().is_none());
    assert!(Error::from(join_error()).as_sqlx().is_none());
}

#[test]
fn joined_results() {
    assert!(matches!(joined(Ok(Ok(3))), Ok(3)));
    let res = joined::<()>(Ok(Err(sqlx_core::Error::PoolTimedOut)));
    match res {
        Err(Error::Sqlx(error)) => assert!(matches!(error.error, sqlx_core::Error::PoolTimedOut)),
        other => panic!("{other:?}"),
    }
    let res = joined::<()>(Err(join_error()));
    match res {
        Err(Error::Tokio(error)) => assert!(error.is_cancelled()),
        other => panic!("{other:?}"),
    }
}

#[test]
fn statements() {
    let statements = [
        (PgBegin::ReadCommitted, "BEGIN"),
        (PgBegin::ReadCommittedRo, "BEGIN READ ONLY"),
        (PgBegin::RepeatableRead, "BEGIN ISOLATION LEVEL REPEATABLE READ"),
        (PgBegin::RepeatableReadRo, "BEGIN ISOLATION LEVEL REPEATABLE READ, READ ONLY"),
        (PgBegin::Serializable, "BEGIN ISOLATION LEVEL SERIALIZABLE"),
        (PgBegin::SerializableRo, "BEGIN ISOLATION LEVEL SERIALIZABLE, READ ONLY"),
        (
            PgBegin::SerializableRoDeferrable,
            "BEGIN ISOLATION LEVEL SERIALIZABLE, READ ONLY, DEFERRABLE",
        ),
    ];
    for (begin, statement) in statements {
        assert_eq!(Cow::<'static, str>::from(begin), statement);
    }
    for (i, (_, one)) in statements.iter().enumerate() {
        for (_, other) in &statements[..i] {
            assert_ne!(one, other);
        }
    }
    assert_eq!(PgBegin::default(), PgBegin::ReadCommitted);
}

type Machine = Retry<u8, ServiceError>;

fn machine(max_retries: u64, strategy: PgRetryStrategy) -> Machine {
    Machine::new(PgBegin::Serializable.into(), max_retries, strategy)
}

fn begun(machine: Machine) -> Machine {
    assert!(matches!(machine.next(), Stage::Begin));
    let machine = machine.step(Event::Begin(Ok(())));
    assert!(matches!(machine.next(), Stage::Callback));
    machine
}

fn finish(machine: Machine) -> Outcome<u8, ServiceError> {
    match machine.into_stage() {
        Stage::Finished(outcome) => outcome,
        other => panic!("{other:?}"),
    }
}

#[test]
fn success_is_committed() {
    let machine = begun(machine(3, PgRetryStrategy::Default));
    let machine = machine.step(Event::Callback(Ok(7)));
    assert!(matches!(machine.next(), Stage::Commit(7)));
    let outcome = finish(machine.step(Event::Commit(Ok(()))));
    assert!(matches!(outcome, Outcome::Success(7)));
    assert!(matches!(outcome.into_result(), Ok(7)));
}

#[test]
fn transactions_are_tried_again() {
    let mut machine = machine(5, PgRetryStrategy::Default);
    machine = begun(machine).step(Event::Callback(Err(with_code(Some("40001")).into())));
    assert_eq!(machine.retries(), 1);
    machine = begun(machine).step(Event::Callback(Ok(1)));
    machine = machine.step(Event::Commit(Err(with_code(Some("40P01")))));
    assert_eq!(machine.retries(), 2);
    machine = begun(machine).step(Event::Callback(Ok(2)));
    let outcome = finish(machine.step(Event::Commit(Ok(()))));
    assert!(matches!(outcome, Outcome::Success(2)));
}

#[test]
fn tries_are_limited() {
    for max_retries in 0..4 {
        let mut machine = machine(max_retries, PgRetryStrategy::Default);
        let mut tries = 0;
        let mut steps = 0;
        while let Stage::Begin = machine.next() {
            tries += 1;
            machine = begun(machine).step(Event::Callback(Ok(0)));
            machine = machine.step(Event::Commit(Err(with_code(Some("40001")))));
            steps += 3;
        }
        assert_eq!(tries, max_retries + 1);
        assert_eq!(steps, 3 * (max_retries + 1));
        assert_eq!(machine.retries(), max_retries);
        let outcome = finish(machine);
        assert!(matches!(outcome, Outcome::Transaction(Error::RetryLimit)));
        let res = outcome.into_result();
        assert!(matches!(res, Err(ServiceError::Transaction(Error::RetryLimit))));
    }
}

#[test]
fn callback_errors_are_rolled_back() {
    let machine = begun(machine(3, PgRetryStrategy::UniqueKey));
    let machine = machine.step(Event::Callback(Err(ServiceError::Rejected("no"))));
    assert!(matches!(machine.next(), Stage::Rollback(ServiceError::Rejected("no"))));
    let outcome = finish(machine.step(Event::Rollback(Ok(()))));
    assert!(matches!(outcome.into_result(), Err(ServiceError::Rejected("no"))));
}

#[test]
fn failed_rollback_hides_the_callback_error() {
    let machine = begun(machine(3, PgRetryStrategy::Default));
    let machine = machine.step(Event::Callback(Err(ServiceError::Rejected("no"))));
    let outcome = finish(machine.step(Event::Rollback(Err(with_code(Some("40001"))))));
    let res = outcome.into_result();
    assert!(matches!(res, Err(ServiceError::Transaction(Error::Sqlx(_)))), "{res:?}");
}

#[test]
fn failed_begin_is_final() {
    let machine = machine(3, PgRetryStrategy::Default);
    let outcome = finish(machine.step(Event::Begin(Err(with_code(Some("40001"))))));
    assert!(matches!(outcome, Outcome::Transaction(Error::Sqlx(_))));
}

#[test]
fn commit_errors_not_worth_another_try_are_final() {
    let machine = begun(machine(3, PgRetryStrategy::Default)).step(Event::Callback(Ok(1)));
    let outcome = finish(machine.step(Event::Commit(Err(with_code(Some("23505"))))));
    assert!(matches!(outcome, Outcome::Transaction(Error::Sqlx(_))));
}

#[test]
fn services_decide_on_callback_errors() {
    let machine = Retry::<u8, Stubborn>::new(Cow::Borrowed("BEGIN"), 1, PgRetryStrategy::Default);
    let machine = machine.step(Event::Begin(Ok(()))).step(Event::Callback(Err(Stubborn)));
    assert!(matches!(machine.next(), Stage::Begin));
    let machine = machine.step(Event::Begin(Ok(()))).step(Event::Callback(Err(Stubborn)));
    let outcome = machine.into_stage();
    assert!(
        matches!(outcome, Stage::Finished(Outcome::Transaction(Error::RetryLimit))),
        "{outcome:?}"
    );
}

#[test]
fn success_after_failures_takes_one_more_call() {
    for failures in 0..=4 {
        let mut machine = machine(4, PgRetryStrategy::Default);
        let mut calls = 0;
        for i in 0..failures {
            calls += 1;
            machine = if i % 2 == 0 {
                begun(machine).step(Event::Callback(Err(with_code(Some("40001")).into())))
            } else {
                begun(machine)
                    .step(Event::Callback(Ok(0)))
                    .step(Event::Commit(Err(with_code(Some("40P01")))))
            };
        }
        calls += 1;
        machine = begun(machine).step(Event::Callback(Ok(9))).step(Event::Commit(Ok(())));
        assert_eq!(calls, failures + 1);
        assert_eq!(machine.retries(), failures);
        assert!(matches!(finish(machine), Outcome::Success(9)));
    }
}

#[test]
fn every_try_has_the_same_statement() {
    let mut borrowed = machine(2, PgRetryStrategy::Default);
    let owned = Cow::Owned("BEGIN DEFERRABLE".to_owned());
    let mut other = Machine::new(owned, u64::MAX, PgRetryStrategy::Default);
    for _ in 0..3 {
        assert_eq!(borrowed.begin_statement(), "BEGIN ISOLATION LEVEL SERIALIZABLE");
        assert_eq!(other.begin_statement(), "BEGIN DEFERRABLE");
        borrowed = begun(borrowed).step(Event::Callback(Err(with_code(Some("40001")).into())));
        other = begun(other).step(Event::Callback(Err(with_code(Some("40001")).into())));
    }
    assert!(matches!(finish(borrowed), Outcome::Transaction(Error::RetryLimit)));
    assert_eq!(other.retries(), 3);
    assert!(matches!(other.next(), Stage::Begin));
}
