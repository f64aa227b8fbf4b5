//! The lazy source cache.
//!
//! A [`Program`] owns the editable source text and memoizes the two outputs
//! of the compilation pipeline — the commitment identifier and the satisfied
//! program — against a snapshot of the text. A read first compares the text
//! to the snapshot by value; only on a mismatch does it run the pipeline,
//! once, over one immutable copy of the text, and it stores both outputs
//! together with the new snapshot before returning. Both cached slots
//! therefore always derive from the single pipeline run over the snapshot,
//! never from two different text versions.

use vstd::prelude::*;
use vstd::string::StringExecFns;

use crate::pipeline;
use crate::pipeline::Satisfied;
use crate::text;

verus! {

/// The header that marks a witness declarations block.
pub open spec fn witness_header() -> Seq<char> {
    "mod witness"@
}

/// The header that marks a parameter declarations block.
pub open spec fn param_header() -> Seq<char> {
    "mod param"@
}

/// The empty witness declarations block that is prepended when absent.
pub open spec fn witness_block() -> Seq<char> {
    "mod witness {}\n\n"@
}

/// The empty parameter declarations block that is prepended when absent.
pub open spec fn param_block() -> Seq<char> {
    "mod param {}\n\n"@
}

/// The text after the default modules were added: for each of the two block
/// headers absent from `t`, the matching empty block is prepended.
pub open spec fn with_default_modules(t: Seq<char>) -> Seq<char> {
    let with_param = if text::seq_contains(t, param_header()) {
        t
    } else {
        param_block() + t
    };
    if text::seq_contains(t, witness_header()) {
        with_param
    } else {
        witness_block() + with_param
    }
}

/// The source cache.
pub struct Program {
    text: String,
    cached_text: String,
    lazy_cmr: Result<Vec<u8>, String>,
    lazy_satisfied: Result<Satisfied, String>,
}

impl Program {
    /// The current source text.
    pub closed spec fn text_view(self) -> Seq<char> {
        self.text@
    }

    /// The text the cached slots were computed against.
    pub closed spec fn snapshot(self) -> Seq<char> {
        self.cached_text@
    }

    /// The cached commitment slot.
    pub closed spec fn cmr_slot(self) -> Result<Vec<u8>, String> {
        self.lazy_cmr
    }

    /// The cached satisfied-program slot.
    pub closed spec fn satisfied_slot(self) -> Result<Satisfied, String> {
        self.lazy_satisfied
    }

    /// The cached slots are valid for the current text.
    pub open spec fn fresh(self) -> bool {
        self.text_view() == self.snapshot()
    }

    /// The construction-time slots: both failed with an empty message.
    pub open spec fn initial_slots(self) -> bool {
        &&& self.cmr_slot() is Err
        &&& self.cmr_slot()->Err_0@ == Seq::<char>::empty()
        &&& self.satisfied_slot() is Err
        &&& self.satisfied_slot()->Err_0@ == Seq::<char>::empty()
    }

    /// Both cached slots always derive from one pipeline run over the
    /// snapshot; the only other reachable state is the construction state,
    /// whose snapshot is empty and whose slots are both failed.
    #[verifier::type_invariant]
    pub closed spec fn inv(self) -> bool {
        ||| pipeline::slots_match(self.snapshot(), self.cmr_slot(), self.satisfied_slot())
        ||| (self.snapshot() == Seq::<char>::empty() && self.initial_slots())
    }

    /// Create a cache over the given text and compile it once.
    pub fn new(text: String) -> (r: Program)
        ensures
            r.text_view() == text@,
            r.snapshot() == text@,
            text@ == Seq::<char>::empty() ==> r.initial_slots(),
            text@ != Seq::<char>::empty() ==> pipeline::slots_match(
                text@,
                r.cmr_slot(),
                r.satisfied_slot(),
            ),
    {
        let mut program = Program {
            text,
            cached_text: String::new(),
            lazy_cmr: Err(String::new()),
            lazy_satisfied: Err(String::new()),
        };
        program.update_on_read();
        program
    }

    /// The current source text.
    pub fn text(&self) -> (r: &String)
        ensures
            r@ == self.text_view(),
    {
        &self.text
    }

    /// Whether the source text is the empty string.
    pub fn is_empty(&self) -> (r: bool)
        ensures
            r == (self.text_view().len() == 0),
    {
        self.text.as_str().is_empty()
    }

    /// Replace the source text. No recompilation happens here: the cached
    /// slots and their snapshot stay as they are until the next read.
    pub fn set_text(&mut self, new_text: String)
        ensures
            final(self).text_view() == new_text@,
            final(self).snapshot() == old(self).snapshot(),
            final(self).cmr_slot() == old(self).cmr_slot(),
            final(self).satisfied_slot() == old(self).satisfied_slot(),
    {
        proof {
            use_type_invariant(&*self);
        }
        self.text = new_text;
    }

    /// Bring the cache up to date. When the text equals the snapshot the
    /// cache is left untouched — no recompute, no side effect. Otherwise the
    /// pipeline runs once over an immutable copy of the current text, and
    /// both slots and the snapshot are replaced together before returning.
    pub fn update_on_read(&mut self)
        ensures
            final(self).text_view() == old(self).text_view(),
            final(self).fresh(),
            old(self).fresh() ==> *final(self) == *old(self),
            !old(self).fresh() ==> {
                &&& final(self).snapshot() == old(self).text_view()
                &&& pipeline::slots_match(
                    old(self).text_view(),
                    final(self).cmr_slot(),
                    final(self).satisfied_slot(),
                )
            },
    {
        proof {
            use_type_invariant(&*self);
        }
        let needs_update = !self.text.eq(&self.cached_text);
        if !needs_update {
            return ;
        }
        let snapshot = self.text.clone();
        let (cmr, satisfied) = pipeline::compile_text(snapshot.as_str());
        let text = snapshot.clone();
        *self = Program { text, cached_text: snapshot, lazy_cmr: cmr, lazy_satisfied: satisfied };
    }

    /// Read the commitment identifier, recompiling first if the text
    /// changed. Repeated reads without an intervening text change return the
    /// stored result unchanged.
    pub fn cmr(&mut self) -> (r: Result<Vec<u8>, String>)
        ensures
            final(self).text_view() == old(self).text_view(),
            final(self).fresh(),
            old(self).fresh() ==> *final(self) == *old(self),
            !old(self).fresh() ==> pipeline::commitment_matches(old(self).text_view(), r)
                && pipeline::satisfied_matches(old(self).text_view(), final(self).satisfied_slot()),
            r is Ok <==> final(self).cmr_slot() is Ok,
            r is Ok ==> r->Ok_0@ == final(self).cmr_slot()->Ok_0@,
            r is Err ==> r->Err_0@ == final(self).cmr_slot()->Err_0@,
    {
        self.update_on_read();
        match &self.lazy_cmr {
            Ok(bytes) => Ok(copy_bytes(bytes)),
            Err(error) => Err(error.clone()),
        }
    }

    /// Read the satisfied program, recompiling first if the text changed.
    /// Repeated reads without an intervening text change return the stored
    /// result unchanged.
    pub fn satisfied(&mut self) -> (r: Result<Satisfied, String>)
        ensures
            final(self).text_view() == old(self).text_view(),
            final(self).fresh(),
            old(self).fresh() ==> *final(self) == *old(self),
            !old(self).fresh() ==> pipeline::commitment_matches(
                old(self).text_view(),
                final(self).cmr_slot(),
            ) && pipeline::satisfied_matches(old(self).text_view(), r),
            r is Ok <==> final(self).satisfied_slot() is Ok,
            r is Ok ==> r->Ok_0 == final(self).satisfied_slot()->Ok_0,
            r is Err ==> r->Err_0@ == final(self).satisfied_slot()->Err_0@,
    {
        self.update_on_read();
        match &self.lazy_satisfied {
            Ok(program) => Ok(pipeline::clone_satisfied(program)),
            Err(error) => Err(error.clone()),
        }
    }

    /// Prepend an empty witness and an empty parameter block for whichever
    /// of the two headers the text does not contain. Running this twice
    /// changes nothing the second time, because the first run leaves both
    /// headers present.
    pub fn add_default_modules(&mut self)
        ensures
            final(self).text_view() == with_default_modules(old(self).text_view()),
            final(self).snapshot() == old(self).snapshot(),
            final(self).cmr_slot() == old(self).cmr_slot(),
            final(self).satisfied_slot() == old(self).satisfied_slot(),
    {
        proof {
            use_type_invariant(&*self);
        }
        let contains_witness = text::str_contains(self.text.as_str(), "mod witness");
        let contains_param = text::str_contains(self.text.as_str(), "mod param");
        if !contains_param {
            let longer = String::from_str("mod param {}\n\n").concat(self.text.as_str());
            self.text = longer;
        }
        if !contains_witness {
            let longer = String::from_str("mod witness {}\n\n").concat(self.text.as_str());
            self.text = longer;
        }
    }
}

impl Default for Program {
    /// An empty cache: empty text, both slots failed.
    fn default() -> (r: Program)
        ensures
            r.text_view() == Seq::<char>::empty(),
            r.snapshot() == Seq::<char>::empty(),
            r.initial_slots(),
    {
        Program::new(String::new())
    }
}

/// Copy a byte vector element by element.
fn copy_bytes(bytes: &Vec<u8>) -> (r: Vec<u8>)
    ensures
        r@ == bytes@,
{
    let mut r: Vec<u8> = Vec::new();
    let mut i: usize = 0;
    while i < bytes.len()
        invariant
            0 <= i <= bytes@.len(),
            r@ == bytes@.subrange(0, i as int),
        decreases bytes@.len() - i,
    {
        r.push(bytes[i]);
        proof {
            assert(r@ =~= bytes@.subrange(0, i + 1));
        }
        i = i + 1;
    }
    proof {
        assert(bytes@.subrange(0, bytes@.len() as int) =~= bytes@);
    }
    r
}

/// Both cached slots always derive from the one snapshot: whenever the
/// satisfied slot holds a program, that program was built from the snapshot
/// text, the commitment slot holds the identifier of that same text, and
/// neither slot can mix in another text version.
pub proof fn lemma_slots_consistent(p: Program)
    requires
        p.inv(),
    ensures
        p.satisfied_slot() is Ok ==> {
            &&& p.cmr_slot() is Ok
            &&& p.cmr_slot()->Ok_0@ == pipeline::cmr_of(p.snapshot())
            &&& p.satisfied_slot()->Ok_0.source() == p.snapshot()
        },
        p.cmr_slot() is Ok ==> p.cmr_slot()->Ok_0@ == pipeline::cmr_of(p.snapshot()),
        p.snapshot() != Seq::<char>::empty() ==> pipeline::slots_match(
            p.snapshot(),
            p.cmr_slot(),
            p.satisfied_slot(),
        ),
{
}

/// After the default modules were added, both block headers stand in the
/// text, and when both were absent the text grew by exactly the two
/// inserted blocks.
pub proof fn lemma_default_modules_present(t: Seq<char>)
    ensures
        text::seq_contains(with_default_modules(t), witness_header()),
        text::seq_contains(with_default_modules(t), param_header()),
        !text::seq_contains(t, witness_header()) && !text::seq_contains(t, param_header())
            ==> with_default_modules(t).len() == t.len() + witness_block().len()
            + param_block().len(),
{
    reveal_strlit("mod witness");
    reveal_strlit("mod param");
    reveal_strlit("mod witness {}\n\n");
    reveal_strlit("mod param {}\n\n");
    let with_param = if text::seq_contains(t, param_header()) {
        t
    } else {
        param_block() + t
    };
    // The witness header stands in the result.
    if text::seq_contains(t, witness_header()) {
        if !text::seq_contains(t, param_header()) {
            text::lemma_contains_prepend(param_block(), t, witness_header());
        }
    } else {
        assert(witness_block().subrange(0, witness_header().len() as int) =~= witness_header());
        assert(text::contains_at(witness_block(), witness_header(), 0));
        text::lemma_contains_in_prefix(witness_block(), with_param, witness_header());
    }
    // The parameter header stands in the result.
    if text::seq_contains(t, param_header()) {
        if !text::seq_contains(t, witness_header()) {
            text::lemma_contains_prepend(witness_block(), with_param, param_header());
        }
    } else {
        assert(param_block().subrange(0, param_header().len() as int) =~= param_header());
        assert(text::contains_at(param_block(), param_header(), 0));
        text::lemma_contains_in_prefix(param_block(), t, param_header());
        if !text::seq_contains(t, witness_header()) {
            text::lemma_contains_prepend(witness_block(), with_param, param_header());
        }
    }
}

/// Adding the default modules is idempotent: one run leaves both headers
/// present, so a second run inserts nothing.
pub proof fn lemma_add_default_modules_idempotent(t: Seq<char>)
    ensures
        with_default_modules(with_default_modules(t)) == with_default_modules(t),
{
    lemma_default_modules_present(t);
}



} // verus!
