//! The execution runner.
//!
//! A [`Runtime`] drives one run of the cached satisfied program against a
//! transaction environment. Every run fully replaces the previous outcome:
//! the debug trace is rebuilt from the lines emitted during this execution,
//! the error message is set on failure and cleared on success, and the
//! transient success flag is set for the presentation layer to display and
//! later clear.

use vstd::prelude::*;

use simplicityhl::simplicity::jet::elements::ElementsEnv;
use simplicityhl::tracker::DefaultTracker;
use std::sync::Arc;

use crate::pipeline;
use crate::pipeline::Satisfied;
use crate::program::Program;
use crate::text;

verus! {

#[verifier::external_type_specification]
#[verifier::external_body]
pub struct ExTransaction(simplicityhl::elements::Transaction);

#[verifier::external_type_specification]
#[verifier::external_body]
#[verifier::reject_recursive_types(T)]
pub struct ExElementsEnv<T: core::ops::Deref<Target = simplicityhl::elements::Transaction>>(
    ElementsEnv<T>,
);

/// Whether executing the satisfied program against the environment
/// completes successfully.
pub uninterp spec fn exec_ok(
    program: Satisfied,
    env: ElementsEnv<Arc<simplicityhl::elements::Transaction>>,
) -> bool;

/// The failure description of an execution that does not complete.
pub uninterp spec fn exec_error(
    program: Satisfied,
    env: ElementsEnv<Arc<simplicityhl::elements::Transaction>>,
) -> Seq<char>;

/// The ordered debug lines emitted during the execution.
pub uninterp spec fn exec_trace(
    program: Satisfied,
    env: ElementsEnv<Arc<simplicityhl::elements::Transaction>>,
) -> Seq<Seq<char>>;

/// Relies on `simplicity::BitMachine::for_program` and
/// `BitMachine::exec_with_tracker`: one synchronous execution of the
/// satisfied program against the environment. The bit machine consults no
/// clock, randomness or ambient state, so the run's outcome, its failure
/// description and its ordered debug trace are deterministic functions of
/// the program and the environment, recorded under the three names above.
/// The closure handed to the tracker only formats and collects the lines.
#[verifier::external_body]
fn execute_call(program: &Satisfied, env: &ElementsEnv<Arc<simplicityhl::elements::Transaction>>)
    -> (r: (Result<(), String>, Vec<String>))
    ensures
        r.0 is Ok <==> exec_ok(*program, *env),
        r.0 is Err ==> r.0->Err_0@ == exec_error(*program, *env),
        r.1.deep_view() == exec_trace(*program, *env),
{
    let redeem = program.inner().redeem();
    let mut lines: Vec<String> = Vec::new();
    let mut machine = match simplicityhl::simplicity::BitMachine::for_program(redeem) {
        Ok(machine) => machine,
        Err(error) => return (Err(error.to_string()), lines),
    };
    let mut tracker = DefaultTracker::new(program.inner().debug_symbols())
        .with_debug_sink(|label, value| lines.push(format!("{label} = {value}")));
    let outcome = match machine.exec_with_tracker(redeem, env, &mut tracker) {
        Ok(_) => Ok(()),
        Err(error) => Err(error.to_string()),
    };
    drop(tracker);
    (outcome, lines)
}

/// The execution runner: the source cache it reads from, the transaction
/// environment it runs against, and the outcome of the latest run.
pub struct Runtime {
    /// The source cache whose satisfied program is run.
    pub program: Program,
    env: ElementsEnv<Arc<simplicityhl::elements::Transaction>>,
    run_succeeded: Option<bool>,
    debug_output: String,
    error_output: String,
}

impl Runtime {
    /// The source cache whose satisfied program is run.
    pub closed spec fn cache(self) -> Program {
        self.program
    }

    /// The transaction environment runs execute against.
    pub closed spec fn environment(self) -> ElementsEnv<Arc<simplicityhl::elements::Transaction>> {
        self.env
    }

    /// The transient success flag of the latest run.
    pub closed spec fn run_status(self) -> Option<bool> {
        self.run_succeeded
    }

    /// The debug trace of the latest run.
    pub closed spec fn debug_view(self) -> Seq<char> {
        self.debug_output@
    }

    /// The error message of the latest run.
    pub closed spec fn error_view(self) -> Seq<char> {
        self.error_output@
    }

    /// A runner over the given cache and environment, with no run recorded.
    pub fn new(program: Program, env: ElementsEnv<Arc<simplicityhl::elements::Transaction>>) -> (r:
        Runtime)
        ensures
            r.cache() == program,
            r.environment() == env,
            r.run_status() is None,
            r.debug_view() == Seq::<char>::empty(),
            r.error_view() == Seq::<char>::empty(),
    {
        Runtime {
            program,
            env,
            run_succeeded: None,
            debug_output: String::new(),
            error_output: String::new(),
        }
    }

    /// Record the outcome of one execution: the success flag mirrors the
    /// result, the error message is the failure's description or cleared on
    /// success, and the debug trace is replaced by the given lines.
    pub fn apply_outcome(&mut self, result: Result<(), String>, lines: Vec<String>)
        ensures
            final(self).cache() == old(self).cache(),
            final(self).environment() == old(self).environment(),
            final(self).run_status() == Some(result is Ok),
            result is Ok ==> final(self).error_view() == Seq::<char>::empty(),
            result is Err ==> final(self).error_view() == result->Err_0@,
            final(self).debug_view() == text::join_lines(lines.deep_view()),
    {
        match result {
            Ok(_) => {
                self.error_output = String::new();
                self.run_succeeded = Some(true);
            },
            Err(error) => {
                self.error_output = error;
                self.run_succeeded = Some(false);
            },
        }
        self.debug_output = text::join_with_newlines(&lines);
    }

    /// Run the cached satisfied program once against the environment. When
    /// the cache cannot produce a satisfied program, the run fails with that
    /// error and an empty trace; otherwise the recorded outcome is the
    /// execution's: its success flag, its failure description, and the
    /// ordered debug lines it emitted, joined into one trace.
    pub fn run(&mut self)
        ensures
            final(self).environment() == old(self).environment(),
            final(self).cache().text_view() == old(self).cache().text_view(),
            final(self).cache().fresh(),
            old(self).cache().fresh() ==> final(self).cache() == old(self).cache(),
            !old(self).cache().fresh() ==> pipeline::satisfied_matches(
                old(self).cache().text_view(),
                final(self).cache().satisfied_slot(),
            ),
            final(self).run_status() == Some(true) ==> final(self).error_view()
                == Seq::<char>::empty() && final(self).cache().satisfied_slot() is Ok,
            final(self).run_status() is Some,
            final(self).cache().satisfied_slot() is Err ==> {
                &&& final(self).run_status() == Some(false)
                &&& final(self).error_view() == final(self).cache().satisfied_slot()->Err_0@
                &&& final(self).debug_view() == Seq::<char>::empty()
            },
            final(self).cache().satisfied_slot() is Ok ==> ({
                let program = final(self).cache().satisfied_slot()->Ok_0;
                let env = old(self).environment();
                &&& final(self).run_status() == Some(exec_ok(program, env))
                &&& final(self).debug_view() == text::join_lines(exec_trace(program, env))
                &&& (!exec_ok(program, env) ==> final(self).error_view() == exec_error(
                    program,
                    env,
                ))
            }),
    {
        self.debug_output = String::new();
        let satisfied = self.program.satisfied();
        match satisfied {
            Ok(program) => {
                let (outcome, lines) = execute_call(&program, &self.env);
                self.apply_outcome(outcome, lines);
            },
            Err(error) => {
                self.error_output = error;
                self.run_succeeded = Some(false);
            },
        }
    }

    /// Clear the transient success flag, as the presentation layer does
    /// once its display window has elapsed.
    pub fn clear_run_status(&mut self)
        ensures
            final(self).cache() == old(self).cache(),
            final(self).environment() == old(self).environment(),
            final(self).run_status() is None,
            final(self).debug_view() == old(self).debug_view(),
            final(self).error_view() == old(self).error_view(),
    {
        self.run_succeeded = None;
    }

    /// The transient success flag of the latest run.
    pub fn run_succeeded(&self) -> (r: Option<bool>)
        ensures
            r == self.run_status(),
    {
        self.run_succeeded
    }

    /// The debug trace of the latest run, one line per emitted value.
    pub fn debug_output(&self) -> (r: &String)
        ensures
            r@ == self.debug_view(),
    {
        &self.debug_output
    }

    /// The error message of the latest run, empty after a success.
    pub fn error_output(&self) -> (r: &String)
        ensures
            r@ == self.error_view(),
    {
        &self.error_output
    }
}

} // verus!
