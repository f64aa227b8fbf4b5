//! The staged compilation pipeline.
//!
//! The SimplicityHL compiler is called through trusted wrappers, one per
//! stage: parse the argument declarations, compile the text, derive the
//! commitment identifier, parse the witness declarations, and satisfy the
//! compiled program. Each stage is a deterministic function of the source
//! text alone, which the specifications record with uninterpreted names
//! indexed by the text. The chaining of the stages, with its error
//! short-circuiting, is verified code, and the values that flow between the
//! stages carry the text they came from as a ghost source, so that each
//! stage's name can be applied to the one text the whole run is about.
//!
//! Error messages are deliberately left unspecified: the compiler renders
//! some of them from hash-map walks whose order is not a function of the
//! text, so only the success or failure of each stage, and the commitment
//! bytes themselves, are pinned down.
//!
//! The stage contracts rest on the ghost sources being honest: only the
//! verified chaining functions below ever construct a [`ParsedArgs`],
//! [`ParsedWitness`], [`Compiled`] or [`Satisfied`], and each pairs the
//! inner value with exactly the text it came from. Any new constructor in
//! this module must keep that pairing, or the per-text names lose their
//! ground.

use vstd::prelude::*;

use simplicityhl::parse::ParseFromStr;

verus! {

#[verifier::external_type_specification]
#[verifier::external_body]
pub struct ExArguments(simplicityhl::Arguments);

#[verifier::external_type_specification]
#[verifier::external_body]
pub struct ExWitnessValues(simplicityhl::WitnessValues);

#[verifier::external_type_specification]
#[verifier::external_body]
pub struct ExCompiledProgram(simplicityhl::CompiledProgram);

#[verifier::external_type_specification]
#[verifier::external_body]
pub struct ExSatisfiedProgram(simplicityhl::SatisfiedProgram);

/// Whether the argument declarations of the text parse.
pub uninterp spec fn args_ok(text: Seq<char>) -> bool;

/// Whether the text, instantiated with its own parsed arguments, compiles.
pub uninterp spec fn compile_ok(text: Seq<char>) -> bool;

/// The commitment identifier of the compiled text, as bytes.
pub uninterp spec fn cmr_of(text: Seq<char>) -> Seq<u8>;

/// Whether the witness declarations of the text parse.
pub uninterp spec fn witness_ok(text: Seq<char>) -> bool;

/// Whether the compiled text is satisfied by its own parsed witness values.
pub uninterp spec fn satisfy_ok(text: Seq<char>) -> bool;

/// The arguments parsed out of a source text, together with that text.
pub struct ParsedArgs {
    inner: simplicityhl::Arguments,
    source: Ghost<Seq<char>>,
}

impl ParsedArgs {
    /// The text the arguments were parsed from.
    pub closed spec fn source(self) -> Seq<char> {
        self.source@
    }
}

/// The witness values parsed out of a source text, together with that text.
pub struct ParsedWitness {
    inner: simplicityhl::WitnessValues,
    source: Ghost<Seq<char>>,
}

impl ParsedWitness {
    /// The text the witness values were parsed from.
    pub closed spec fn source(self) -> Seq<char> {
        self.source@
    }
}

/// A compiled program, together with the text it was compiled from.
pub struct Compiled {
    inner: simplicityhl::CompiledProgram,
    source: Ghost<Seq<char>>,
}

impl Compiled {
    /// The text the program was compiled from.
    pub closed spec fn source(self) -> Seq<char> {
        self.source@
    }
}

/// A satisfied program, together with the text it was built from.
pub struct Satisfied {
    inner: simplicityhl::SatisfiedProgram,
    source: Ghost<Seq<char>>,
}

impl Satisfied {
    /// The text the program was built from.
    pub closed spec fn source(self) -> Seq<char> {
        self.source@
    }

    /// Hand the inner program to the execution boundary.
    pub(crate) fn inner(&self) -> &simplicityhl::SatisfiedProgram {
        &self.inner
    }
}

/// Relies on `simplicityhl::Arguments::parse_from_str`: parsing the `mod
/// param` declarations of a text is a deterministic function of the text.
#[verifier::external_body]
fn parse_arguments_call(text: &str) -> (r: Result<simplicityhl::Arguments, String>)
    ensures
        r is Ok <==> args_ok(text@),
{
    simplicityhl::Arguments::parse_from_str(text).map_err(|error| error.to_string())
}

fn parse_arguments(text: &str) -> (r: Result<ParsedArgs, String>)
    ensures
        r is Ok <==> args_ok(text@),
        r is Ok ==> r->Ok_0.source() == text@,
{
    match parse_arguments_call(text) {
        Ok(inner) => Ok(ParsedArgs { inner, source: Ghost(text@) }),
        Err(error) => Err(error),
    }
}

/// Relies on `simplicityhl::WitnessValues::parse_from_str`: parsing the
/// `mod witness` declarations of a text is a deterministic function of the
/// text.
#[verifier::external_body]
fn parse_witness_call(text: &str) -> (r: Result<simplicityhl::WitnessValues, String>)
    ensures
        r is Ok <==> witness_ok(text@),
{
    simplicityhl::WitnessValues::parse_from_str(text).map_err(|error| error.to_string())
}

fn parse_witness(text: &str) -> (r: Result<ParsedWitness, String>)
    ensures
        r is Ok <==> witness_ok(text@),
        r is Ok ==> r->Ok_0.source() == text@,
{
    match parse_witness_call(text) {
        Ok(inner) => Ok(ParsedWitness { inner, source: Ghost(text@) }),
        Err(error) => Err(error),
    }
}

/// Relies on `simplicityhl::CompiledProgram::new`: compiling a text with
/// the arguments parsed from that same text, and without debug symbols, is
/// a deterministic function of the text. The tie between `args` and `text`
/// is the ghost source that `parse_arguments` records.
#[verifier::external_body]
fn compile_call(text: &str, args: ParsedArgs) -> (r: Result<simplicityhl::CompiledProgram, String>)
    requires
        args.source() == text@,
    ensures
        r is Ok <==> compile_ok(text@),
{
    simplicityhl::CompiledProgram::new(text, args.inner, false)
}

fn compile(text: &str, args: ParsedArgs) -> (r: Result<Compiled, String>)
    requires
        args.source() == text@,
    ensures
        r is Ok <==> compile_ok(text@),
        r is Ok ==> r->Ok_0.source() == text@,
{
    match compile_call(text, args) {
        Ok(inner) => Ok(Compiled { inner, source: Ghost(text@) }),
        Err(error) => Err(error),
    }
}

/// Relies on `simplicityhl::CompiledProgram::commit` and
/// `simplicity::Cmr::to_byte_array`: the commitment Merkle root is derived
/// from the program structure alone, hence a deterministic function of the
/// source text, and is 32 bytes long.
#[verifier::external_body]
fn commitment(program: &Compiled) -> (r: Vec<u8>)
    ensures
        r@ == cmr_of(program.source()),
        r@.len() == 32,
{
    program.inner.commit().cmr().to_byte_array().to_vec()
}

/// Relies on `simplicityhl::CompiledProgram::satisfy`: whether the witness
/// values parsed from a text satisfy the program compiled from that same
/// text is a deterministic function of the text. The tie between the two
/// parts is their common ghost source.
#[verifier::external_body]
fn satisfy_call(program: &Compiled, witness: ParsedWitness) -> (r: Result<
    simplicityhl::SatisfiedProgram,
    String,
>)
    requires
        witness.source() == program.source(),
    ensures
        r is Ok <==> satisfy_ok(program.source()),
{
    program.inner.satisfy(witness.inner)
}

fn satisfy(program: &Compiled, witness: ParsedWitness) -> (r: Result<Satisfied, String>)
    requires
        witness.source() == program.source(),
    ensures
        r is Ok <==> satisfy_ok(program.source()),
        r is Ok ==> r->Ok_0.source() == program.source(),
{
    let ghost source = program.source();
    match satisfy_call(program, witness) {
        Ok(inner) => Ok(Satisfied { inner, source: Ghost(source) }),
        Err(error) => Err(error),
    }
}

/// Relies on `simplicityhl::SatisfiedProgram::clone`: the clone shares the
/// immutable program graph, so it is the same satisfied program.
#[verifier::external_body]
fn clone_satisfied_call(program: &simplicityhl::SatisfiedProgram) -> (r:
    simplicityhl::SatisfiedProgram)
    ensures
        r == *program,
{
    program.clone()
}

pub(crate) fn clone_satisfied(program: &Satisfied) -> (r: Satisfied)
    ensures
        r == *program,
{
    let inner = clone_satisfied_call(&program.inner);
    Satisfied { inner, source: Ghost(program.source()) }
}

/// Deriving a commitment succeeds when both front-end stages succeed.
pub open spec fn commitment_ok(text: Seq<char>) -> bool {
    args_ok(text) && compile_ok(text)
}

/// Satisfaction succeeds when every stage of the pipeline succeeds.
pub open spec fn satisfied_ok(text: Seq<char>) -> bool {
    commitment_ok(text) && witness_ok(text) && satisfy_ok(text)
}

/// The commitment slot a pipeline run over `text` must produce.
pub open spec fn commitment_matches(text: Seq<char>, slot: Result<Vec<u8>, String>) -> bool {
    if commitment_ok(text) {
        slot is Ok && slot->Ok_0@ == cmr_of(text)
    } else {
        slot is Err
    }
}

/// The satisfied slot a pipeline run over `text` must produce.
pub open spec fn satisfied_matches(text: Seq<char>, slot: Result<Satisfied, String>) -> bool {
    if satisfied_ok(text) {
        slot is Ok && slot->Ok_0.source() == text
    } else {
        slot is Err
    }
}

/// The pair of slots a single pipeline run over `text` must fill: each slot
/// matches its stages, and a front-end failure — satisfaction was never
/// attempted — puts the identical message into both slots.
pub open spec fn slots_match(
    text: Seq<char>,
    cmr_slot: Result<Vec<u8>, String>,
    satisfied_slot: Result<Satisfied, String>,
) -> bool {
    &&& commitment_matches(text, cmr_slot)
    &&& satisfied_matches(text, satisfied_slot)
    &&& (!commitment_ok(text) ==> cmr_slot->Err_0@ == satisfied_slot->Err_0@)
}

/// A text on which every pipeline stage succeeds — it compiles and its own
/// witness values satisfy it — yields a commitment and a satisfied program
/// from the same run, never one without the other.
pub proof fn lemma_round_trip_results(
    text: Seq<char>,
    cmr_slot: Result<Vec<u8>, String>,
    satisfied_slot: Result<Satisfied, String>,
)
    requires
        satisfied_ok(text),
        commitment_matches(text, cmr_slot),
        satisfied_matches(text, satisfied_slot),
    ensures
        cmr_slot is Ok && cmr_slot->Ok_0@ == cmr_of(text),
        satisfied_slot is Ok && satisfied_slot->Ok_0.source() == text,
{
}

/// Run the full pipeline over one immutable text snapshot: compile once,
/// derive the commitment from the compiled program, then resolve the
/// witness values against the same compiled program. An early failure
/// short-circuits the later stages, and a front-end failure fills both
/// slots.
pub fn compile_text(text: &str) -> (r: (Result<Vec<u8>, String>, Result<Satisfied, String>))
    ensures
        slots_match(text@, r.0, r.1),
{
    let compiled = match parse_arguments(text) {
        Ok(args) => compile(text, args),
        Err(error) => Err(error),
    };
    match compiled {
        Ok(program) => {
            let cmr = commitment(&program);
            let satisfied = match parse_witness(text) {
                Ok(witness) => satisfy(&program, witness),
                Err(error) => Err(error),
            };
            (Ok(cmr), satisfied)
        },
        Err(error) => {
            let error_copy = error.clone();
            (Err(error_copy), Err(error))
        },
    }
}

} // verus!
