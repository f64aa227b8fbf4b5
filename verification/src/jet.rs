//! The single-jet execution harness.
//!
//! A jet is a primitive operation of the virtual machine. The harness wraps
//! one jet into a one-node program, finalizes it, and executes it on a bit
//! machine against an environment. A one-node program always type-checks
//! and always fits the machine's limits, so the only failure an execution
//! can report is the jet's own failure condition; a breach of those
//! construction guarantees aborts instead of being reported.

use vstd::prelude::*;

use simplicityhl::simplicity;
use simplicityhl::simplicity::jet::elements::ElementsEnv;
use simplicityhl::simplicity::jet::Elements;
use simplicityhl::simplicity::jet::Jet;
use simplicityhl::simplicity::node::JetConstructible;
use simplicityhl::simplicity::types::Context;
use simplicityhl::simplicity::{BitMachine, ConstructNode, Value};
use std::sync::Arc;

verus! {

#[verifier::external_type_specification]
#[verifier::external_body]
pub struct ExElements(Elements);

#[verifier::external_type_specification]
#[verifier::external_body]
pub struct ExValue(Value);

/// A jet's defined runtime failure condition was triggered.
pub struct JetFailed;

/// Whether the value is of the jet's source type, so that the machine
/// accepts it as the one-jet program's input.
pub uninterp spec fn jet_input_ok(jet: Elements, input: Value) -> bool;

/// Whether an input may be fed to the jet: it must be a value of the jet's
/// source type. This is the precondition of [`execute_jet_with_env`];
/// breaching it there is an internal invariant violation and aborts.
///
/// Relies on `simplicity::jet::Jet::source_ty`, `TypeName::to_final` and
/// `Value::is_of_type`: the check the bit machine itself performs on its
/// input, a deterministic function of the jet and the value.
#[verifier::external_body]
pub fn input_matches(jet: &Elements, input: &Value) -> (r: bool)
    ensures
        r == jet_input_ok(*jet, *input),
{
    input.is_of_type(&jet.source_ty().to_final())
}

/// Whether the jet, applied to the input inside the environment, meets its
/// defined success condition.
pub uninterp spec fn jet_ok(
    jet: Elements,
    input: Value,
    env: ElementsEnv<Arc<simplicityhl::elements::Transaction>>,
) -> bool;

/// The output of a jet that succeeds on the input inside the environment.
pub uninterp spec fn jet_value(
    jet: Elements,
    input: Value,
    env: ElementsEnv<Arc<simplicityhl::elements::Transaction>>,
) -> Value;

/// Execute a jet on an input and inside an environment. Return the output.
///
/// The input must be of the jet's source type, as [`input_matches`] tests:
/// on any other input the machine's input step is an internal invariant
/// violation and aborts instead of returning.
///
/// Relies on `simplicity::types::Context::with_context`,
/// `node::JetConstructible::jet`, `ConstructNode::finalize_unpruned`,
/// `BitMachine::for_program`, `BitMachine::input` and `BitMachine::exec`: a
/// one-jet program always type-checks and is within the machine's limits,
/// and a value of the jet's source type always fits its frame, so those
/// stages cannot fail; the execution either returns the jet's output or
/// reports the jet's own failure condition, surfaced here as `JetFailed`,
/// and both are deterministic functions of the jet, the input and the
/// environment, recorded under the two names above.
#[verifier::external_body]
pub fn execute_jet_with_env(
    jet: &Elements,
    input: &Value,
    env: &ElementsEnv<Arc<simplicityhl::elements::Transaction>>,
) -> (r: Result<Value, JetFailed>)
    requires
        jet_input_ok(*jet, *input),
    ensures
        r is Ok <==> jet_ok(*jet, *input, *env),
        r is Ok ==> r->Ok_0 == jet_value(*jet, *input, *env),
{
    let prog = Context::with_context(|ctx| {
        Arc::<ConstructNode<Elements>>::jet(&ctx, *jet)
            .finalize_unpruned()
            .expect("a single jet definitely typechecks")
    });
    let mut mac = BitMachine::for_program(&prog).expect("a single jet is within limits");
    mac.input(input).expect("no problem with input");
    mac.exec(&prog, env).map_err(|_| JetFailed)
}


} // verus!
