//! The loop around a transaction that is tried again, as a state machine.
//!
//! Each stage asks for one operation on the database; the outcome of that operation is the event
//! that leads to the next stage.

use std::borrow::Cow;

use vstd::prelude::*;
use vstd::string::*;

use super::{CustomError, Error, PgRetryStrategy};

verus! {

/// What to do next.
#[derive(Debug)]
pub enum Stage<R, E> {
    /// Begin a transaction, with the statement of the machine.
    Begin,
    /// Run the callback in the transaction.
    Callback,
    /// Commit the transaction, in which the callback returned this.
    Commit(R),
    /// Roll the transaction back, in which the callback failed with this.
    Rollback(E),
    /// Nothing: this is how it ended.
    Finished(Outcome<R, E>),
}

/// How the loop ended.
#[derive(Debug)]
pub enum Outcome<R, E> {
    /// A transaction was committed, in which the callback returned this.
    Success(R),
    /// The callback failed with this, and the transaction was rolled back.
    Callback(E),
    /// A transaction failed, or the limit was reached.
    Transaction(Error),
}

/// What came of the operation that a stage asks for.
#[derive(Debug)]
pub enum Event<R, E> {
    /// A transaction was begun, or not.
    Begin(Result<(), Error>),
    /// The callback ran.
    Callback(Result<R, E>),
    /// The transaction was committed, or not.
    Commit(Result<(), Error>),
    /// The transaction was rolled back, or not.
    Rollback(Result<(), Error>),
}

/// A transaction that is tried again.
#[derive(Debug)]
pub struct Retry<R, E> {
    statement: Cow<'static, str>,
    max_retries: u64,
    strategy: PgRetryStrategy,
    retry_count: u64,
    stage: Stage<R, E>,
}

impl<R, E> Outcome<R, E> where E: CustomError {
    /// The outcome as a result, with the error of a transaction turned into one of the service.
    ///
    /// # Errors
    ///
    /// if the callback failed for good,
    /// a transaction did,
    /// or the limit was reached
    pub fn into_result(self) -> (result: Result<R, E>)
        ensures
            match self {
                Outcome::Success(value) => result == Ok::<R, E>(value),
                Outcome::Callback(error) => result == Err::<R, E>(error),
                Outcome::Transaction(error) => result matches Err(converted) && call_ensures(
                    <E as From<Error>>::from,
                    (error,),
                    converted,
                ),
            },
    {
        match self {
            Outcome::Success(value) => Ok(value),
            Outcome::Callback(error) => Err(error),
            Outcome::Transaction(error) => Err(E::from(error)),
        }
    }
}

impl<R, E> Retry<R, E> {
    #[verifier::type_invariant]
    spec fn is_within_limit(self) -> bool {
        self.retry_count <= self.max_retries
    }

    /// The statement that begins every try.
    pub closed spec fn statement(self) -> Seq<char> {
        self.statement@
    }

    /// How often the transaction may be tried again.
    pub closed spec fn max_retries(self) -> u64 {
        self.max_retries
    }

    /// Which errors are worth another try.
    pub closed spec fn strategy(self) -> PgRetryStrategy {
        self.strategy
    }

    /// How often the transaction has been tried again.
    pub closed spec fn retry_count(self) -> u64 {
        self.retry_count
    }

    /// What to do next.
    pub closed spec fn stage(self) -> Stage<R, E> {
        self.stage
    }

    /// The machine before the first try.
    pub open spec fn is_initial(
        self,
        statement: Seq<char>,
        max_retries: u64,
        strategy: PgRetryStrategy,
    ) -> bool {
        &&& self.statement() == statement
        &&& self.max_retries() == max_retries
        &&& self.strategy() == strategy
        &&& self.retry_count() == 0
        &&& self.stage() is Begin
    }

    /// Whether the event is one of the operation that the stage asks for.
    pub open spec fn expects(self, event: Event<R, E>) -> bool {
        match self.stage() {
            Stage::Begin => event is Begin,
            Stage::Callback => event is Callback,
            Stage::Commit(_) => event is Commit,
            Stage::Rollback(_) => event is Rollback,
            Stage::Finished(_) => false,
        }
    }

    /// Whether `next` goes on with this stage in the same try.
    pub open spec fn moves_to(self, stage: Stage<R, E>, next: Self) -> bool {
        next.retry_count() == self.retry_count() && next.stage() == stage
    }

    /// Whether `next` is the next try, or the end if there may be none.
    pub open spec fn tries_again(self, next: Self) -> bool {
        if self.retry_count() < self.max_retries() {
            next.retry_count() == self.retry_count() + 1 && next.stage() is Begin
        } else {
            self.moves_to(Stage::Finished(Outcome::Transaction(Error::RetryLimit)), next)
        }
    }

    /// A machine that has not begun.
    pub fn new(
        statement: Cow<'static, str>,
        max_retries: u64,
        strategy: PgRetryStrategy,
    ) -> (machine: Self)
        ensures
            machine.is_initial(statement@, max_retries, strategy),
    {
        Retry { statement, max_retries, strategy, retry_count: 0, stage: Stage::Begin }
    }

    /// The statement that begins every try.
    pub fn begin_statement(&self) -> (statement: Cow<'static, str>)
        ensures
            statement@ == self.statement(),
    {
        match &self.statement {
            Cow::Borrowed(text) => Cow::Borrowed(*text),
            Cow::Owned(text) => Cow::Owned(text.clone()),
        }
    }

    /// How often the transaction has been tried again.
    pub fn retries(&self) -> (count: u64)
        ensures
            count == self.retry_count(),
            count <= self.max_retries(),
    {
        proof {
            use_type_invariant(self);
        }
        self.retry_count
    }

    /// What to do next.
    pub fn next(&self) -> (stage: &Stage<R, E>)
        ensures
            *stage == self.stage(),
    {
        &self.stage
    }

    /// What to do next.
    pub fn into_stage(self) -> (stage: Stage<R, E>)
        ensures
            stage == self.stage(),
    {
        self.stage
    }
}

impl<R, E> Retry<R, E> where E: CustomError {
    /// Whether `next` is what the event leads to. Whether an error of the callback is worth
    /// another try, the service says; whether one of the commit is, its code does. A transaction
    /// that cannot be begun is not tried again, and a rollback that fails hides the error of the
    /// callback.
    pub open spec fn steps_to(self, event: Event<R, E>, next: Self) -> bool {
        &&& next.statement() == self.statement()
        &&& next.max_retries() == self.max_retries()
        &&& next.strategy() == self.strategy()
        &&& match (self.stage(), event) {
            (Stage::Begin, Event::Begin(Ok(()))) => self.moves_to(Stage::Callback, next),
            (Stage::Begin, Event::Begin(Err(error))) => self.moves_to(
                Stage::Finished(Outcome::Transaction(error)),
                next,
            ),
            (Stage::Callback, Event::Callback(Ok(value))) => self.moves_to(
                Stage::Commit(value),
                next,
            ),
            (Stage::Callback, Event::Callback(Err(error))) => exists|retryable: bool| #[trigger]
                call_ensures(
                    E::is_transaction_retryable_pg,
                    (&error, self.strategy()),
                    retryable,
                ) && if retryable {
                    self.tries_again(next)
                } else {
                    self.moves_to(Stage::Rollback(error), next)
                },
            (Stage::Commit(value), Event::Commit(Ok(()))) => self.moves_to(
                Stage::Finished(Outcome::Success(value)),
                next,
            ),
            (Stage::Commit(_), Event::Commit(Err(error))) => if error.is_retryable(
                self.strategy(),
            ) {
                self.tries_again(next)
            } else {
                self.moves_to(Stage::Finished(Outcome::Transaction(error)), next)
            },
            (Stage::Rollback(error), Event::Rollback(Ok(()))) => self.moves_to(
                Stage::Finished(Outcome::Callback(error)),
                next,
            ),
            (Stage::Rollback(_), Event::Rollback(Err(error))) => self.moves_to(
                Stage::Finished(Outcome::Transaction(error)),
                next,
            ),
            _ => false,
        }
    }

    /// Goes on after an operation.
    pub fn step(self, event: Event<R, E>) -> (next: Self)
        requires
            self.expects(event),
        ensures
            self.steps_to(event, next),
            next.retry_count() <= next.max_retries(),
    {
        proof {
            use_type_invariant(&self);
        }
        let Retry { statement, max_retries, strategy, retry_count, stage } = self;
        let stage = match (stage, event) {
            (Stage::Begin, Event::Begin(Ok(()))) => Stage::Callback,
            (Stage::Begin, Event::Begin(Err(error))) => Stage::Finished(
                Outcome::Transaction(error),
            ),
            (Stage::Callback, Event::Callback(Ok(value))) => Stage::Commit(value),
            (Stage::Callback, Event::Callback(Err(error))) => {
                if error.is_transaction_retryable_pg(strategy) {
                    return Self::again(statement, max_retries, strategy, retry_count);
                }
                Stage::Rollback(error)
            },
            (Stage::Commit(value), Event::Commit(Ok(()))) => Stage::Finished(
                Outcome::Success(value),
            ),
            (Stage::Commit(_), Event::Commit(Err(error))) => {
                if error.is_transaction_retryable_pg(strategy) {
                    return Self::again(statement, max_retries, strategy, retry_count);
                }
                Stage::Finished(Outcome::Transaction(error))
            },
            (Stage::Rollback(error), Event::Rollback(Ok(()))) => Stage::Finished(
                Outcome::Callback(error),
            ),
            (Stage::Rollback(_), Event::Rollback(Err(error))) => Stage::Finished(
                Outcome::Transaction(error),
            ),
            (stage, _) => stage,
        };
        Retry { statement, max_retries, strategy, retry_count, stage }
    }

    /// The next try, or the end if there may be none.
    fn again(
        statement: Cow<'static, str>,
        max_retries: u64,
        strategy: PgRetryStrategy,
        retry_count: u64,
    ) -> (next: Self)
        requires
            retry_count <= max_retries,
        ensures
            next.statement() == statement@,
            next.max_retries() == max_retries,
            next.strategy() == strategy,
            if retry_count < max_retries {
                next.retry_count() == retry_count + 1 && next.stage() is Begin
            } else {
                &&& next.retry_count() == retry_count
                &&& next.stage() == Stage::<R, E>::Finished(
                    Outcome::Transaction(Error::RetryLimit),
                )
            },
    {
        if retry_count >= max_retries {
            return Retry {
                statement,
                max_retries,
                strategy,
                retry_count,
                stage: Stage::Finished(Outcome::Transaction(Error::RetryLimit)),
            };
        }
        Retry { statement, max_retries, strategy, retry_count: retry_count + 1, stage: Stage::Begin }
    }
}

/// Whether the states follow each other from the first, each led to by the event before it.
pub open spec fn is_run<R, E: CustomError>(
    states: Seq<Retry<R, E>>,
    events: Seq<Event<R, E>>,
    statement: Seq<char>,
    max_retries: u64,
    strategy: PgRetryStrategy,
) -> bool {
    &&& states.len() == events.len() + 1
    &&& states[0].is_initial(statement, max_retries, strategy)
    &&& forall|i: int|
        0 <= i < events.len() ==> states[i].steps_to(#[trigger] events[i], states[i + 1])
}

/// How many of the events come from beginning a transaction: the number of tries.
pub open spec fn tries<R, E>(events: Seq<Event<R, E>>) -> nat
    decreases events.len(),
{
    if events.len() == 0 {
        0
    } else {
        tries(events.drop_last()) + if events.last() is Begin {
            1nat
        } else {
            0
        }
    }
}

/// How many of the events come from the callback: the number of calls.
pub open spec fn calls<R, E>(events: Seq<Event<R, E>>) -> nat
    decreases events.len(),
{
    if events.len() == 0 {
        0
    } else {
        calls(events.drop_last()) + if events.last() is Callback {
            1nat
        } else {
            0
        }
    }
}

/// How many operations of a try are behind this stage.
spec fn position<R, E>(stage: Stage<R, E>) -> nat {
    match stage {
        Stage::Begin => 0,
        Stage::Callback => 1,
        Stage::Commit(_) | Stage::Rollback(_) => 2,
        Stage::Finished(_) => 3,
    }
}

/// What holds of the last state of a run.
proof fn lemma_run_invariant<R, E: CustomError>(
    states: Seq<Retry<R, E>>,
    events: Seq<Event<R, E>>,
    statement: Seq<char>,
    max_retries: u64,
    strategy: PgRetryStrategy,
)
    requires
        is_run(states, events, statement, max_retries, strategy),
    ensures
        states.last().statement() == statement,
        states.last().max_retries() == max_retries,
        states.last().strategy() == strategy,
        states.last().retry_count() <= max_retries,
        events.len() <= 3 * states.last().retry_count() + position(states.last().stage()),
        tries(events) == states.last().retry_count() + if states.last().stage() is Begin {
            0nat
        } else {
            1
        },
        calls(events) == states.last().retry_count() + match states.last().stage() {
            Stage::Begin | Stage::Callback => 0nat,
            Stage::Commit(_) | Stage::Rollback(_) => 1,
            Stage::Finished(_) => if events.last() is Begin {
                0
            } else {
                1
            },
        },
    decreases events.len(),
{
    if events.len() > 0 {
        lemma_run_shortens(states, events, statement, max_retries, strategy);
        lemma_run_invariant(states.drop_last(), events.drop_last(), statement, max_retries, strategy);
    }
}

/// A run without its last step is one.
proof fn lemma_run_shortens<R, E: CustomError>(
    states: Seq<Retry<R, E>>,
    events: Seq<Event<R, E>>,
    statement: Seq<char>,
    max_retries: u64,
    strategy: PgRetryStrategy,
)
    requires
        is_run(states, events, statement, max_retries, strategy),
        events.len() > 0,
    ensures
        is_run(states.drop_last(), events.drop_last(), statement, max_retries, strategy),
        states.drop_last().last().steps_to(events.last(), states.last()),
{
    let n = events.len() as int;
    assert(states[n - 1].steps_to(events[n - 1], states[n]));
    assert forall|i: int| 0 <= i < n - 1 implies states.drop_last()[i].steps_to(
        #[trigger] events.drop_last()[i],
        states.drop_last()[i + 1],
    ) by {
        assert(states[i].steps_to(events[i], states[i + 1]));
    }
}

/// A transaction is tried, and the callback called, at most once more often than it may be tried
/// again. With no more tries allowed it is tried once.
pub proof fn law_tries_are_bounded<R, E: CustomError>(
    states: Seq<Retry<R, E>>,
    events: Seq<Event<R, E>>,
    statement: Seq<char>,
    max_retries: u64,
    strategy: PgRetryStrategy,
)
    requires
        is_run(states, events, statement, max_retries, strategy),
    ensures
        tries(events) <= max_retries + 1,
        calls(events) <= tries(events),
{
    lemma_run_invariant(states, events, statement, max_retries, strategy);
}

/// Every try begins with the same statement.
pub proof fn law_statement_stays<R, E: CustomError>(
    states: Seq<Retry<R, E>>,
    events: Seq<Event<R, E>>,
    statement: Seq<char>,
    max_retries: u64,
    strategy: PgRetryStrategy,
    i: int,
)
    requires
        is_run(states, events, statement, max_retries, strategy),
        0 <= i < states.len(),
    ensures
        states[i].statement() == statement,
    decreases i,
{
    if i > 0 {
        law_statement_stays(states, events, statement, max_retries, strategy, i - 1);
        assert(states[i - 1].steps_to(events[i - 1], states[i]));
    }
}

/// Every run comes to an end: a try takes at most three operations.
pub proof fn law_runs_end<R, E: CustomError>(
    states: Seq<Retry<R, E>>,
    events: Seq<Event<R, E>>,
    statement: Seq<char>,
    max_retries: u64,
    strategy: PgRetryStrategy,
)
    requires
        is_run(states, events, statement, max_retries, strategy),
    ensures
        events.len() <= 3 * (max_retries + 1),
        events.len() == 3 * (max_retries + 1) ==> states.last().stage() is Finished,
{
    lemma_run_invariant(states, events, statement, max_retries, strategy);
}

/// A run succeeds only by committing the transaction in which the callback returned the value that
/// is handed out.
pub proof fn law_success_was_committed<R, E: CustomError>(
    states: Seq<Retry<R, E>>,
    events: Seq<Event<R, E>>,
    statement: Seq<char>,
    max_retries: u64,
    strategy: PgRetryStrategy,
    value: R,
)
    requires
        is_run(states, events, statement, max_retries, strategy),
        states.last().stage() == Stage::<R, E>::Finished(Outcome::Success(value)),
    ensures
        events.len() >= 3,
        events[events.len() - 3] matches Event::Begin(Ok(_)),
        events[events.len() - 2] == Event::<R, E>::Callback(Ok(value)),
        events[events.len() - 1] matches Event::Commit(Ok(_)),
{
    lemma_run_shortens(states, events, statement, max_retries, strategy);
    lemma_run_shortens(states.drop_last(), events.drop_last(), statement, max_retries, strategy);
    lemma_run_shortens(
        states.drop_last().drop_last(),
        events.drop_last().drop_last(),
        statement,
        max_retries,
        strategy,
    );
}

/// An error of the callback is handed out only if it is not worth another try and the transaction
/// was rolled back.
pub proof fn law_callback_errors_are_rolled_back<R, E: CustomError>(
    states: Seq<Retry<R, E>>,
    events: Seq<Event<R, E>>,
    statement: Seq<char>,
    max_retries: u64,
    strategy: PgRetryStrategy,
    error: E,
)
    requires
        is_run(states, events, statement, max_retries, strategy),
        states.last().stage() == Stage::<R, E>::Finished(Outcome::Callback(error)),
    ensures
        events.len() >= 3,
        events[events.len() - 3] matches Event::Begin(Ok(_)),
        events[events.len() - 2] == Event::<R, E>::Callback(Err(error)),
        events[events.len() - 1] matches Event::Rollback(Ok(_)),
        call_ensures(E::is_transaction_retryable_pg, (&error, strategy), false),
{
    lemma_run_shortens(states, events, statement, max_retries, strategy);
    lemma_run_shortens(states.drop_last(), events.drop_last(), statement, max_retries, strategy);
    lemma_run_shortens(
        states.drop_last().drop_last(),
        events.drop_last().drop_last(),
        statement,
        max_retries,
        strategy,
    );
    lemma_run_invariant(
        states.drop_last().drop_last(),
        events.drop_last().drop_last(),
        statement,
        max_retries,
        strategy,
    );
}

/// The error that the event reports, if it comes from an operation on a transaction.
pub open spec fn reported_error<R, E>(event: Event<R, E>) -> Option<Error> {
    match event {
        Event::Begin(Err(error)) | Event::Commit(Err(error)) | Event::Rollback(Err(error)) => Some(
            error,
        ),
        _ => None,
    }
}

/// Where a run ends with the error of a transaction, the last operation reported it and it is not
/// worth another try, or the run ends with the limit reached: then the transaction was tried as
/// often as it may be.
pub proof fn law_transaction_errors_are_reported<R, E: CustomError>(
    states: Seq<Retry<R, E>>,
    events: Seq<Event<R, E>>,
    statement: Seq<char>,
    max_retries: u64,
    strategy: PgRetryStrategy,
    error: Error,
)
    requires
        is_run(states, events, statement, max_retries, strategy),
        states.last().stage() == Stage::<R, E>::Finished(Outcome::Transaction(error)),
    ensures
        events.len() > 0,
        ({
            ||| reported_error(events.last()) == Some(error) && (events.last() is Commit
                ==> !error.is_retryable(strategy))
            ||| error is RetryLimit && tries(events) == max_retries + 1 && match events.last() {
                Event::Callback(Err(cause)) => call_ensures(
                    E::is_transaction_retryable_pg,
                    (&cause, strategy),
                    true,
                ),
                Event::Commit(Err(cause)) => cause.is_retryable(strategy),
                _ => false,
            }
        }),
{
    lemma_run_invariant(states, events, statement, max_retries, strategy);
    lemma_run_shortens(states, events, statement, max_retries, strategy);
    lemma_run_invariant(states.drop_last(), events.drop_last(), statement, max_retries, strategy);
}

/// A transaction that cannot be begun is not tried again, whatever the error.
pub proof fn law_failed_begin_ends_the_run<R, E: CustomError>(
    states: Seq<Retry<R, E>>,
    events: Seq<Event<R, E>>,
    statement: Seq<char>,
    max_retries: u64,
    strategy: PgRetryStrategy,
    i: int,
)
    requires
        is_run(states, events, statement, max_retries, strategy),
        0 <= i < events.len(),
        events[i] matches Event::Begin(Err(_)),
    ensures
        i == events.len() - 1,
        events[i] matches Event::Begin(Err(error)) ==> states.last().stage() == Stage::<
            R,
            E,
        >::Finished(Outcome::Transaction(error)),
{
    assert(states[i].steps_to(events[i], states[i + 1]));
    if i + 1 < events.len() {
        assert(states[i + 1].steps_to(events[i + 1], states[i + 2]));
    }
}

/// A commit that went through is the last event of a run, which then succeeds with what the
/// callback returned. No error follows a commit.
pub proof fn law_commit_ends_the_run<R, E: CustomError>(
    states: Seq<Retry<R, E>>,
    events: Seq<Event<R, E>>,
    statement: Seq<char>,
    max_retries: u64,
    strategy: PgRetryStrategy,
    i: int,
)
    requires
        is_run(states, events, statement, max_retries, strategy),
        0 <= i < events.len(),
        events[i] matches Event::Commit(Ok(_)),
    ensures
        i == events.len() - 1,
        i > 0,
        events[i - 1] matches Event::Callback(Ok(value)) && states.last().stage() == Stage::<
            R,
            E,
        >::Finished(Outcome::Success(value)),
{
    assert(states[i].steps_to(events[i], states[i + 1]));
    if i + 1 < events.len() {
        assert(states[i + 1].steps_to(events[i + 1], states[i + 2]));
    }
    if i > 0 {
        assert(states[i - 1].steps_to(events[i - 1], states[i]));
    }
}

/// Whether each state that expects its event steps to the next by it: what a caller sees that
/// hands the events to a machine one after the other, as long as they are expected.
pub open spec fn is_driven<R, E: CustomError>(
    states: Seq<Retry<R, E>>,
    events: Seq<Event<R, E>>,
) -> bool {
    &&& states.len() == events.len() + 1
    &&& forall|i: int|
        0 <= i < events.len() ==> states[i].expects(#[trigger] events[i]) ==> states[i].steps_to(
            events[i],
            states[i + 1],
        )
}

/// Whether the service says that an error of the callback is worth another try.
pub open spec fn is_always_retryable<E: CustomError>(error: E, strategy: PgRetryStrategy) -> bool {
    forall|retryable: bool| #[trigger]
        call_ensures(E::is_transaction_retryable_pg, (&error, strategy), retryable) ==> retryable
}

/// Whether these are the events of a try that fails in a way that is worth another: in the
/// callback, or in the commit.
pub open spec fn is_retryable_failure<R, E: CustomError>(
    attempt: Seq<Event<R, E>>,
    strategy: PgRetryStrategy,
) -> bool {
    &&& attempt.len() >= 2
    &&& attempt[0] matches Event::Begin(Ok(_))
    &&& match attempt[1] {
        Event::Callback(Err(error)) => attempt.len() == 2 && is_always_retryable(error, strategy),
        Event::Callback(Ok(_)) => attempt.len() == 3 && (attempt[2] matches Event::Commit(
            Err(error),
        ) && error.is_retryable(strategy)),
        _ => false,
    }
}

/// Whether each of these is a try that fails in a way that is worth another.
pub open spec fn are_retryable_failures<R, E: CustomError>(
    failures: Seq<Seq<Event<R, E>>>,
    strategy: PgRetryStrategy,
) -> bool {
    forall|i: int|
        0 <= i < failures.len() ==> is_retryable_failure(#[trigger] failures[i], strategy)
}

/// A machine about to begin expects the events of a try that is worth another, and then tries
/// again.
proof fn lemma_failure<R, E: CustomError>(
    states: Seq<Retry<R, E>>,
    events: Seq<Event<R, E>>,
    attempt: Seq<Event<R, E>>,
)
    requires
        is_driven(states, events),
        states[0].stage() is Begin,
        is_retryable_failure(attempt, states[0].strategy()),
        attempt.is_prefix_of(events),
    ensures
        forall|i: int|
            0 <= i < attempt.len() ==> states[i].steps_to(#[trigger] events[i], states[i + 1]),
        states[attempt.len() as int].max_retries() == states[0].max_retries(),
        states[attempt.len() as int].strategy() == states[0].strategy(),
        states[0].tries_again(states[attempt.len() as int]),
{
    assert(events[0] == attempt[0]);
    assert(events[1] == attempt[1]);
    assert(states[0].steps_to(events[0], states[1]));
    assert(states[1].steps_to(events[1], states[2]));
    if attempt.len() == 3 {
        assert(events[2] == attempt[2]);
        assert(states[2].steps_to(events[2], states[3]));
    }
}

/// A machine about to begin expects the events of as many tries that are worth another as may
/// follow, and is then about to begin again, or at the end if there may be no more.
proof fn lemma_failures<R, E: CustomError>(
    states: Seq<Retry<R, E>>,
    events: Seq<Event<R, E>>,
    failures: Seq<Seq<Event<R, E>>>,
)
    requires
        is_driven(states, events),
        states[0].stage() is Begin,
        states[0].retry_count() <= states[0].max_retries(),
        are_retryable_failures(failures, states[0].strategy()),
        failures.flatten().is_prefix_of(events),
        states[0].retry_count() + failures.len() <= states[0].max_retries() + 1,
    ensures
        forall|i: int|
            0 <= i < failures.flatten().len() ==> states[i].steps_to(
                #[trigger] events[i],
                states[i + 1],
            ),
        ({
            let end = states[failures.flatten().len() as int];
            &&& end.strategy() == states[0].strategy()
            &&& end.max_retries() == states[0].max_retries()
            &&& if states[0].retry_count() + failures.len() <= states[0].max_retries() {
                &&& end.stage() is Begin
                &&& end.retry_count() == states[0].retry_count() + failures.len()
            } else {
                &&& end.stage() == Stage::<R, E>::Finished(Outcome::Transaction(Error::RetryLimit))
                &&& end.retry_count() == end.max_retries()
            }
        }),
        failures.len() > 0 ==> failures.flatten().len() > 0
            && events[failures.flatten().len() - 1] !is Begin,
    decreases failures.len(),
{
    if failures.len() > 0 {
        let first = failures.first();
        let others = failures.drop_first();
        let n = first.len() as int;
        let m = others.flatten().len() as int;
        assert(failures.flatten() == first + others.flatten());
        assert(is_retryable_failure(failures[0], states[0].strategy()));
        assert forall|i: int| 0 <= i < n implies first[i] == #[trigger] events[i] by {
            assert(failures.flatten()[i] == first[i]);
        }
        assert(first =~= events.subrange(0, n));
        lemma_failure(states, events, first);
        if others.len() > 0 {
            let later_states = states.skip(n);
            let later_events = events.skip(n);
            assert forall|i: int|
                0 <= i < later_events.len() && later_states[i].expects(
                    #[trigger] later_events[i],
                ) implies later_states[i].steps_to(later_events[i], later_states[i + 1]) by {
                assert(later_events[i] == events[i + n]);
            }
            assert forall|i: int| 0 <= i < m implies others.flatten()[i]
                == #[trigger] later_events[i] by {
                assert(failures.flatten()[i + n] == others.flatten()[i]);
            }
            assert(others.flatten() =~= later_events.subrange(0, m));
            assert forall|i: int| 0 <= i < others.len() implies is_retryable_failure(
                #[trigger] others[i],
                states[0].strategy(),
            ) by {
                assert(others[i] == failures[i + 1]);
            }
            lemma_failures(later_states, later_events, others);
            assert forall|i: int| 0 <= i < n + m implies states[i].steps_to(
                #[trigger] events[i],
                states[i + 1],
            ) by {
                if i >= n {
                    assert(later_states[i - n].steps_to(later_events[i - n], later_states[i - n + 1]));
                }
            }
        }
    }
}

/// After fewer failures that are worth another try than there may be tries, a try that commits
/// succeeds with its value. The callback is called once for each failure and once more.
pub proof fn law_success_after_failures<R, E: CustomError>(
    states: Seq<Retry<R, E>>,
    events: Seq<Event<R, E>>,
    statement: Seq<char>,
    max_retries: u64,
    strategy: PgRetryStrategy,
    failures: Seq<Seq<Event<R, E>>>,
    value: R,
)
    requires
        is_driven(states, events),
        states[0].is_initial(statement, max_retries, strategy),
        are_retryable_failures(failures, strategy),
        failures.len() <= max_retries,
        events == failures.flatten() + seq![
            Event::Begin(Ok(())),
            Event::Callback(Ok(value)),
            Event::Commit(Ok(())),
        ],
    ensures
        is_run(states, events, statement, max_retries, strategy),
        states.last().stage() == Stage::<R, E>::Finished(Outcome::Success(value)),
        tries(events) == failures.len() + 1,
        calls(events) == failures.len() + 1,
{
    let n = failures.flatten().len() as int;
    assert(failures.flatten() =~= events.subrange(0, n));
    lemma_failures(states, events, failures);
    assert(states[n].steps_to(events[n], states[n + 1]));
    assert(states[n + 1].steps_to(events[n + 1], states[n + 2]));
    assert(states[n + 2].steps_to(events[n + 2], states[n + 3]));
    lemma_run_invariant(states, events, statement, max_retries, strategy);
}

/// Where every try fails in a way that is worth another, the limit is reached after one try, and
/// one call of the callback, more than the transaction may be tried again.
pub proof fn law_failures_reach_the_limit<R, E: CustomError>(
    states: Seq<Retry<R, E>>,
    events: Seq<Event<R, E>>,
    statement: Seq<char>,
    max_retries: u64,
    strategy: PgRetryStrategy,
    failures: Seq<Seq<Event<R, E>>>,
)
    requires
        is_driven(states, events),
        states[0].is_initial(statement, max_retries, strategy),
        are_retryable_failures(failures, strategy),
        failures.len() == max_retries + 1,
        events == failures.flatten(),
    ensures
        is_run(states, events, statement, max_retries, strategy),
        states.last().stage() == Stage::<R, E>::Finished(
            Outcome::Transaction(Error::RetryLimit),
        ),
        tries(events) == max_retries + 1,
        calls(events) == max_retries + 1,
{
    assert(failures.flatten() =~= events.subrange(0, events.len() as int));
    lemma_failures(states, events, failures);
    lemma_run_invariant(states, events, statement, max_retries, strategy);
}

/// The settings of a machine are the same in every state of a run.
proof fn lemma_settings_stay<R, E: CustomError>(
    states: Seq<Retry<R, E>>,
    events: Seq<Event<R, E>>,
    statement: Seq<char>,
    max_retries: u64,
    strategy: PgRetryStrategy,
    i: int,
)
    requires
        is_run(states, events, statement, max_retries, strategy),
        0 <= i < states.len(),
    ensures
        states[i].max_retries() == max_retries,
        states[i].strategy() == strategy,
    decreases i,
{
    if i > 0 {
        lemma_settings_stay(states, events, statement, max_retries, strategy, i - 1);
        assert(states[i - 1].steps_to(events[i - 1], states[i]));
    }
}

/// An error of the callback that the service does not call worth another try is rolled back in the
/// same try, whichever try it is: nothing but the rollback follows it, and one that goes through
/// ends the run with that error.
pub proof fn law_final_callback_error_ends_the_run<R, E: CustomError>(
    states: Seq<Retry<R, E>>,
    events: Seq<Event<R, E>>,
    statement: Seq<char>,
    max_retries: u64,
    strategy: PgRetryStrategy,
    i: int,
    error: E,
)
    requires
        is_run(states, events, statement, max_retries, strategy),
        0 <= i < events.len(),
        events[i] == Event::<R, E>::Callback(Err(error)),
        !call_ensures(E::is_transaction_retryable_pg, (&error, strategy), true),
    ensures
        states[i + 1].stage() == Stage::<R, E>::Rollback(error),
        states[i + 1].retry_count() == states[i].retry_count(),
        events.len() <= i + 2,
        events.len() == i + 2 ==> match events[i + 1] {
            Event::Rollback(Ok(_)) => states.last().stage() == Stage::<R, E>::Finished(
                Outcome::Callback(error),
            ),
            Event::Rollback(Err(e)) => states.last().stage() == Stage::<R, E>::Finished(
                Outcome::Transaction(e),
            ),
            _ => false,
        },
{
    lemma_settings_stay(states, events, statement, max_retries, strategy, i);
    assert(states[i].steps_to(events[i], states[i + 1]));
    if i + 1 < events.len() {
        assert(states[i + 1].steps_to(events[i + 1], states[i + 2]));
    }
    if i + 2 < events.len() {
        assert(states[i + 2].steps_to(events[i + 2], states[i + 3]));
    }
}

/// Every try but the first follows one that failed in a way that is worth another: in the callback,
/// as the service says, or in the commit, as the code that the driver reported says.
pub proof fn law_only_retryable_failures_are_tried_again<R, E: CustomError>(
    states: Seq<Retry<R, E>>,
    events: Seq<Event<R, E>>,
    statement: Seq<char>,
    max_retries: u64,
    strategy: PgRetryStrategy,
    i: int,
)
    requires
        is_run(states, events, statement, max_retries, strategy),
        0 < i < events.len(),
        events[i] is Begin,
    ensures
        match events[i - 1] {
            Event::Callback(Err(error)) => call_ensures(
                E::is_transaction_retryable_pg,
                (&error, strategy),
                true,
            ),
            Event::Commit(Err(Error::Sqlx(sqlx))) => sqlx.code matches Some(code) && (code@
                == "40001"@ || code@ == "40P01"@ || (strategy is UniqueKey && (code@ == "23505"@
                || code@ == "23P01"@))),
            _ => false,
        },
        i >= 2,
        events[i - 1] is Callback ==> events[i - 2] matches Event::Begin(Ok(_)),
        events[i - 1] is Commit ==> events[i - 2] matches Event::Callback(Ok(_)),
{
    lemma_settings_stay(states, events, statement, max_retries, strategy, i - 1);
    assert(states[i].steps_to(events[i], states[i + 1]));
    assert(states[i - 1].steps_to(events[i - 1], states[i]));
    if i >= 2 {
        assert(states[i - 2].steps_to(events[i - 2], states[i - 1]));
    }
}

/// A run that is not at its end asks for the operation that its events lead to: a begin at first
/// and after a failure that is tried again, the callback after a begin, and a commit or a rollback
/// after the callback.
pub proof fn law_operations_follow_each_other<R, E: CustomError>(
    states: Seq<Retry<R, E>>,
    events: Seq<Event<R, E>>,
    statement: Seq<char>,
    max_retries: u64,
    strategy: PgRetryStrategy,
    i: int,
)
    requires
        is_run(states, events, statement, max_retries, strategy),
        0 <= i < events.len(),
    ensures
        i == 0 ==> events[i] is Begin,
        i > 0 ==> match events[i] {
            Event::Begin(_) => events[i - 1] matches Event::Callback(Err(_)) || (
            events[i - 1] matches Event::Commit(Err(_))),
            Event::Callback(_) => events[i - 1] matches Event::Begin(Ok(_)),
            Event::Commit(_) => events[i - 1] matches Event::Callback(Ok(_)),
            Event::Rollback(_) => events[i - 1] matches Event::Callback(Err(_)),
        },
{
    assert(states[i].steps_to(events[i], states[i + 1]));
    if i > 0 {
        assert(states[i - 1].steps_to(events[i - 1], states[i]));
    }
}

} // verus!
