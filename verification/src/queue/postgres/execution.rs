//! The run of a queue operation: its steps are handed to the database driver
//! one at a time, in order, and the first failure ends the run with that
//! failure, as the `?` chain of each operation does.

use vstd::prelude::*;
use crate::errors::Error;
use super::statement::{Step, StepView};

verus! {

/// The database library that runs the steps, which decides the error variant
/// a failed step is reported as.
#[derive(Debug, Clone, Copy, PartialEq, Eq)]
pub enum Driver {
    /// `diesel` or `diesel-async`.
    Diesel,
    /// `tokio-postgres`.
    TokioPostgres,
    /// `sqlx`.
    Sqlx,
}

/// The error reported when a step fails in `driver` with `message`.
pub open spec fn driver_error(driver: Driver, message: String) -> Error {
    match driver {
        Driver::Diesel => Error::DieselError(message),
        Driver::TokioPostgres => Error::TokioPostgresError(message),
        Driver::Sqlx => Error::SqlxError(message),
    }
}

/// The error for a step that failed in `driver` with `message`.
pub fn driver_failure(driver: Driver, message: String) -> (error: Error)
    ensures
        error == driver_error(driver, message),
{
    match driver {
        Driver::Diesel => Error::DieselError(message),
        Driver::TokioPostgres => Error::TokioPostgresError(message),
        Driver::Sqlx => Error::SqlxError(message),
    }
}

/// The state of a run: its steps, the index of the step under way and, once
/// the run is over, its result.
pub struct ExecutionView {
    pub driver: Driver,
    pub steps: Seq<StepView>,
    pub next: nat,
    pub outcome: Option<Result<(), Error>>,
}

impl ExecutionView {
    /// Ends the run where no step is left (success) or where the step under
    /// way is a [`StepView::Fail`] (that failure).
    pub open spec fn settle(self) -> ExecutionView {
        if self.outcome is Some {
            self
        } else if self.next >= self.steps.len() {
            ExecutionView { outcome: Some(Ok(())), ..self }
        } else {
            match self.steps[self.next as int] {
                StepView::Fail(e) => ExecutionView { outcome: Some(Err(e)), ..self },
                _ => self,
            }
        }
    }

    /// A run of `steps` in `driver`, before any step has been performed.
    pub open spec fn start(driver: Driver, steps: Seq<StepView>) -> ExecutionView {
        ExecutionView { driver, steps, next: 0, outcome: None }.settle()
    }

    /// The step that the driver is to perform next, if the run is not over.
    pub open spec fn pending(self) -> Option<StepView> {
        if self.outcome is None && self.next < self.steps.len() {
            Some(self.steps[self.next as int])
        } else {
            None
        }
    }

    /// The run after the driver reports `result` for the pending step: a
    /// failure ends it, a success moves on to the next step. A run that is
    /// over stays as it is.
    pub open spec fn after(self, result: Result<(), String>) -> ExecutionView {
        if self.outcome is Some {
            self
        } else {
            match result {
                Err(message) => ExecutionView {
                    outcome: Some(Err(driver_error(self.driver, message))),
                    ..self
                },
                Ok(_) => ExecutionView {
                    next: if self.next < self.steps.len() { self.next + 1 } else { self.next },
                    ..self
                }.settle(),
            }
        }
    }

    /// The run after the driver reports each of `results` in turn.
    pub open spec fn feed(self, results: Seq<Result<(), String>>) -> ExecutionView
        decreases results.len(),
    {
        if results.len() == 0 {
            self
        } else {
            self.after(results[0]).feed(results.drop_first())
        }
    }

    /// A run that is under way has a step to perform, and that step asks
    /// the driver for work.
    pub open spec fn wf(self) -> bool {
        &&& self.next <= self.steps.len()
        &&& self.outcome is None ==> self.next < self.steps.len() && !(self.steps[self.next as int] is Fail)
    }
}

/// What a run of `steps` in `driver` returns when the driver reports
/// `results` for the steps it performs: `None` while results are missing.
pub open spec fn run(driver: Driver, steps: Seq<StepView>, results: Seq<Result<(), String>>) -> Option<Result<(), Error>>
    decreases steps.len(),
{
    if steps.len() == 0 {
        Some(Ok(()))
    } else {
        match steps[0] {
            StepView::Fail(e) => Some(Err(e)),
            _ => if results.len() == 0 {
                None
            } else {
                match results[0] {
                    Err(message) => Some(Err(driver_error(driver, message))),
                    Ok(_) => run(driver, steps.drop_first(), results.drop_first()),
                }
            },
        }
    }
}

/// A run that is over ignores whatever else the driver reports.
proof fn lemma_finished_run_is_fixed(v: ExecutionView, results: Seq<Result<(), String>>)
    requires
        v.outcome is Some,
    ensures
        v.feed(results) == v,
    decreases results.len(),
{
    if results.len() > 0 {
        lemma_finished_run_is_fixed(v.after(results[0]), results.drop_first());
    }
}

/// From the state at step `k`, feeding results ends as `run` does on the steps from `k` on.
proof fn lemma_feed_from(driver: Driver, steps: Seq<StepView>, k: nat, results: Seq<Result<(), String>>)
    requires
        k <= steps.len(),
    ensures
        (ExecutionView { driver, steps, next: k, outcome: None }).settle().feed(results).outcome
            == run(driver, steps.skip(k as int), results),
        (ExecutionView { driver, steps, next: k, outcome: None }).settle().feed(results).wf(),
    decreases results.len(),
{
    let v = (ExecutionView { driver, steps, next: k, outcome: None }).settle();
    let rest = steps.skip(k as int);
    if v.outcome is Some {
        lemma_finished_run_is_fixed(v, results);
        if k < steps.len() {
            assert(rest[0] == steps[k as int]);
        }
    } else {
        assert(rest[0] == steps[k as int]);
        if results.len() > 0 {
            let w = v.after(results[0]);
            match results[0] {
                Err(message) => {
                    lemma_finished_run_is_fixed(w, results.drop_first());
                },
                Ok(_) => {
                    assert(rest.drop_first() =~= steps.skip(k + 1 as int));
                    lemma_feed_from(driver, steps, (k + 1) as nat, results.drop_first());
                },
            }
        }
    }
}

/// Every state that a run reaches is well formed: while it is under way, the
/// pending step is in range and asks the driver for work.
pub proof fn law_run_states_are_well_formed(driver: Driver, steps: Seq<StepView>, results: Seq<Result<(), String>>)
    ensures
        ExecutionView::start(driver, steps).feed(results).wf(),
{
    lemma_feed_from(driver, steps, 0, results);
}

/// Reporting the driver's results one by one to a run of `steps` ends as
/// `run` says: the steps succeed in order until one fails or the run is over.
pub proof fn law_recorded_results_give_run(driver: Driver, steps: Seq<StepView>, results: Seq<Result<(), String>>)
    ensures
        ExecutionView::start(driver, steps).feed(results).outcome == run(driver, steps, results),
{
    lemma_feed_from(driver, steps, 0, results);
    assert(steps.skip(0) =~= steps);
}

/// When every step asks the driver for work and the driver reports success
/// for each, the operation succeeds.
pub proof fn law_all_steps_succeed(driver: Driver, steps: Seq<StepView>, results: Seq<Result<(), String>>)
    requires
        forall|i: int| 0 <= i < steps.len() ==> !(#[trigger] steps[i] is Fail),
        steps.len() <= results.len(),
        forall|i: int| 0 <= i < results.len() ==> #[trigger] results[i] is Ok,
    ensures
        run(driver, steps, results) == Some(Ok::<(), Error>(())),
    decreases steps.len(),
{
    if steps.len() > 0 {
        assert(!(steps[0] is Fail));
        assert(results[0] is Ok);
        let s2 = steps.drop_first();
        let r2 = results.drop_first();
        assert forall|i: int| 0 <= i < s2.len() implies !(#[trigger] s2[i] is Fail) by {
            assert(s2[i] == steps[i + 1]);
        }
        assert forall|i: int| 0 <= i < r2.len() implies #[trigger] r2[i] is Ok by {
            assert(r2[i] == results[i + 1]);
        }
        law_all_steps_succeed(driver, s2, r2);
    }
}

/// The first step that fails ends the operation with that driver's error for
/// its message; no later step is performed.
pub proof fn law_first_failure_ends_run(
    driver: Driver,
    steps: Seq<StepView>,
    results: Seq<Result<(), String>>,
    i: int,
    message: String,
)
    requires
        0 <= i < steps.len(),
        i < results.len(),
        forall|j: int| 0 <= j <= i ==> !(#[trigger] steps[j] is Fail),
        forall|j: int| 0 <= j < i ==> #[trigger] results[j] is Ok,
        results[i] == Err::<(), String>(message),
    ensures
        run(driver, steps, results) == Some(Err::<(), Error>(driver_error(driver, message))),
    decreases i,
{
    assert(!(steps[0] is Fail));
    if i > 0 {
        assert(results[0] is Ok);
        let s2 = steps.drop_first();
        let r2 = results.drop_first();
        assert forall|j: int| 0 <= j <= i - 1 implies !(#[trigger] s2[j] is Fail) by {
            assert(s2[j] == steps[j + 1]);
        }
        assert forall|j: int| 0 <= j < i - 1 implies #[trigger] r2[j] is Ok by {
            assert(r2[j] == results[j + 1]);
        }
        assert(r2[i - 1] == results[i]);
        law_first_failure_ends_run(driver, s2, r2, i - 1, message);
    }
}

/// The steps are handed to the driver in their order: after `k` reported
/// successes, the pending step is the `k`-th.
pub proof fn law_steps_are_handed_out_in_order(driver: Driver, steps: Seq<StepView>, k: nat)
    requires
        k < steps.len(),
        forall|j: int| 0 <= j <= k ==> !(#[trigger] steps[j] is Fail),
    ensures
        ExecutionView::start(driver, steps).feed(Seq::new(k, |j: int| Ok::<(), String>(()))).pending()
            == Some(steps[k as int]),
{
    lemma_handed_out_from(driver, steps, 0, k);
}

proof fn lemma_handed_out_from(driver: Driver, steps: Seq<StepView>, m: nat, k: nat)
    requires
        m <= k < steps.len(),
        forall|j: int| 0 <= j <= k ==> !(#[trigger] steps[j] is Fail),
    ensures
        (ExecutionView { driver, steps, next: m, outcome: None }).settle().feed(
            Seq::new((k - m) as nat, |j: int| Ok::<(), String>(())),
        ).pending() == Some(steps[k as int]),
    decreases k - m,
{
    let v = (ExecutionView { driver, steps, next: m, outcome: None }).settle();
    assert(!(steps[m as int] is Fail));
    let oks = Seq::new((k - m) as nat, |j: int| Ok::<(), String>(()));
    if m < k {
        let rest = Seq::new((k - (m + 1)) as nat, |j: int| Ok::<(), String>(()));
        assert(oks.drop_first() =~= rest);
        lemma_handed_out_from(driver, steps, (m + 1) as nat, k);
    }
}

/// A queue operation in progress: the steps a database driver is to
/// perform, one at a time, and the result once the run is over.
///
/// A driver takes the pending step from [`Execution::next_step`], performs it,
/// reports the result with [`Execution::record`], and repeats until no step is
/// pending; [`Execution::into_outcome`] then gives the operation's result.
#[derive(Debug)]
pub struct Execution {
    driver: Driver,
    steps: Vec<Step>,
    next: usize,
    outcome: Option<Result<(), Error>>,
}

impl View for Execution {
    type V = ExecutionView;

    closed spec fn view(&self) -> ExecutionView {
        ExecutionView {
            driver: self.driver,
            steps: self.steps@.map_values(|s: Step| s@),
            next: self.next as nat,
            outcome: self.outcome,
        }
    }
}

impl Execution {
    /// Ends the run where no step is left or where the pending step is a failure.
    fn settle(&mut self)
        ensures
            final(self)@ == old(self)@.settle(),
    {
        if self.outcome.is_none() {
            if self.next >= self.steps.len() {
                self.outcome = Some(Ok(()));
            } else {
                match &self.steps[self.next] {
                    Step::Fail(e) => {
                        self.outcome = Some(Err(e.clone()));
                    },
                    _ => {},
                }
            }
        }
    }

    /// Starts a run of `steps` in `driver`.
    pub fn new(driver: Driver, steps: Vec<Step>) -> (run: Execution)
        ensures
            run@ == ExecutionView::start(driver, steps@.map_values(|s: Step| s@)),
    {
        let mut run = Execution { driver, steps, next: 0, outcome: None };
        run.settle();
        run
    }

    /// The driver whose errors a failed step is reported as.
    pub fn driver(&self) -> (driver: Driver)
        ensures
            driver == self@.driver,
    {
        self.driver
    }

    /// The step to perform next, or `None` once the run is over.
    pub fn next_step(&self) -> (step: Option<&Step>)
        ensures
            step is Some <==> self@.pending() is Some,
            step matches Some(s) ==> self@.pending() == Some(s@),
    {
        if self.outcome.is_none() && self.next < self.steps.len() {
            Some(&self.steps[self.next])
        } else {
            None
        }
    }

    /// Reports the result of the pending step: `Err` with the driver's
    /// message when it failed.
    pub fn record(&mut self, result: Result<(), String>)
        ensures
            final(self)@ == old(self)@.after(result),
    {
        if self.outcome.is_none() {
            match result {
                Err(message) => {
                    self.outcome = Some(Err(driver_failure(self.driver, message)));
                },
                Ok(()) => {
                    if self.next < self.steps.len() {
                        self.next = self.next + 1;
                    }
                    self.settle();
                },
            }
        }
    }

    /// Whether the run is over.
    pub fn is_finished(&self) -> (finished: bool)
        ensures
            finished == self@.outcome is Some,
    {
        self.outcome.is_some()
    }

    /// The result of the run: `None` while a step is pending.
    pub fn into_outcome(self) -> (outcome: Option<Result<(), Error>>)
        ensures
            outcome == self@.outcome,
    {
        self.outcome
    }
}

} // verus!
