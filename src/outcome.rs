//! The flat outcome of one pipeline run, how it is built from what the
//! pipeline produced, and how it is released.
use vstd::prelude::*;
use vstd::utf8::encode_utf8;

use crate::transfer::CVec;

verus! {

/// Relies on `String::into_bytes`: the vector holds the UTF-8 encoding of
/// the string.
#[verifier::external_body]
fn string_into_bytes(s: String) -> (r: Vec<u8>)
    ensures
        r@ == encode_utf8(s@),
{
    s.into_bytes()
}

/// Why a pipeline run produced no bytecode.
#[derive(Debug)]
pub enum JsparagusError {
    /// The input is invalid; the message says why.
    GenericError(String),
    /// The input is valid but uses a construct the pipeline does not
    /// support yet.
    NotImplemented,
}

/// What the emitter produced for a script.
#[derive(Debug)]
pub struct EmitOutput {
    pub bytecode: Vec<u8>,
    pub strings: Vec<String>,
    /// Maximum stack depth before any instruction.
    pub maximum_stack_depth: u32,
    /// Number of instructions that have inline-cache entries.
    pub num_ic_entries: u32,
}

/// The three ways a run can end.
#[derive(Clone, Copy, Debug, PartialEq, Eq, Structural)]
pub enum OutcomeKind {
    Success,
    GenericError,
    NotImplemented,
}

/// The elements of each descriptor of a table.
pub open spec fn table_view(t: Seq<CVec<u8>>) -> Seq<Seq<u8>> {
    t.map_values(|c: CVec<u8>| c@)
}

/// Every descriptor of a table is well formed.
pub open spec fn table_wf(t: Seq<CVec<u8>>) -> bool {
    forall|i: int| 0 <= i < t.len() ==> #[trigger] t[i].wf()
}

/// The bytes of each string of a string table.
pub open spec fn encoded_table(strings: Seq<String>) -> Seq<Seq<u8>> {
    strings.map_values(|s: String| encode_utf8(s@))
}

/// A diagnostic as it crosses the boundary: UTF-8, ended by a zero byte.
pub open spec fn diagnostic_bytes(message: Seq<char>) -> Seq<u8> {
    encode_utf8(message).push(0u8)
}

/// The buffers an outcome receives for a pipeline result: the diagnostic,
/// the bytecode, and the string table, each empty where it does not apply.
pub open spec fn pipeline_payload(result: Result<EmitOutput, JsparagusError>) -> (
    Seq<u8>,
    Seq<u8>,
    Seq<Seq<u8>>,
) {
    match result {
        Ok(out) => (Seq::empty(), out.bytecode@, encoded_table(out.strings@)),
        Err(JsparagusError::GenericError(message)) => (
            diagnostic_bytes(message@),
            Seq::empty(),
            Seq::empty(),
        ),
        Err(JsparagusError::NotImplemented) => (Seq::empty(), Seq::empty(), Seq::empty()),
    }
}

/// The elements of each vector of a sequence.
pub open spec fn vecs_view(vs: Seq<Vec<u8>>) -> Seq<Seq<u8>> {
    vs.map_values(|v: Vec<u8>| v@)
}

/// The number of descriptors of a table that hold an allocation.
pub open spec fn table_blocks(t: Seq<CVec<u8>>) -> nat
    decreases t.len(),
{
    if t.len() == 0 {
        0
    } else {
        table_blocks(t.drop_last()) + if t.last().spec_capacity() > 0 {
            1nat
        } else {
            0nat
        }
    }
}

/// Hands each string of a table over as its own descriptor, in order.
fn string_table(strings: Vec<String>) -> (r: CVec<CVec<u8>>)
    ensures
        r.wf(),
        table_wf(r@),
        table_view(r@) == encoded_table(strings@),
{
    let ghost source = strings@;
    let mut table: Vec<CVec<u8>> = Vec::new();
    for s in it: strings.into_iter()
        invariant
            it.seq() == source,
            table@.len() == it.index(),
            forall|i: int| 0 <= i < it.index() ==> #[trigger] table@[i].wf(),
            forall|i: int|
                0 <= i < it.index() ==> #[trigger] table@[i]@ == encode_utf8(source[i]@),
    {
        table.push(CVec::from(string_into_bytes(s)));
    }
    let r = CVec::from(table);
    assert(table_view(r@) =~= encoded_table(source));
    r
}

/// The diagnostic of a failed run, ended by a zero byte.
fn diagnostic(message: String) -> (r: Vec<u8>)
    ensures
        r@ == diagnostic_bytes(message@),
{
    let mut bytes = string_into_bytes(message);
    bytes.push(0u8);
    bytes
}

/// The outcome of one pipeline run, as handed to the host.
///
/// The discriminant is `unimplemented` together with whether `error` holds
/// a message; every buffer that does not belong to the discriminant is the
/// canonical empty descriptor, so release is the same for every outcome.
#[derive(Debug)]
pub struct JsparagusResult {
    pub(crate) unimplemented: bool,
    pub(crate) error: CVec<u8>,
    pub(crate) bytecode: CVec<u8>,
    pub(crate) strings: CVec<CVec<u8>>,
    /// Maximum stack depth before any instruction.
    ///
    /// This value is a function of `bytecode`: there's only one correct value
    /// for a given script.
    pub(crate) maximum_stack_depth: u32,
    /// Number of instructions in this script that have IC entries.
    ///
    /// A function of `bytecode`.
    pub(crate) num_ic_entries: u32,
}

impl JsparagusResult {
    pub open(crate) spec fn is_not_implemented(&self) -> bool {
        self.unimplemented
    }

    pub open(crate) spec fn is_generic_error(&self) -> bool {
        !self.unimplemented && self.error.spec_len() > 0
    }

    pub open(crate) spec fn is_success(&self) -> bool {
        !self.unimplemented && self.error.spec_len() == 0
    }

    pub open(crate) spec fn spec_kind(&self) -> OutcomeKind {
        if self.unimplemented {
            OutcomeKind::NotImplemented
        } else if self.error.spec_len() > 0 {
            OutcomeKind::GenericError
        } else {
            OutcomeKind::Success
        }
    }

    pub open(crate) spec fn error_view(&self) -> Seq<u8> {
        self.error@
    }

    pub open(crate) spec fn bytecode_view(&self) -> Seq<u8> {
        self.bytecode@
    }

    pub open(crate) spec fn strings_view(&self) -> Seq<Seq<u8>> {
        table_view(self.strings@)
    }

    /// The diagnostic, the bytecode, and the string table.
    pub open(crate) spec fn payload(&self) -> (Seq<u8>, Seq<u8>, Seq<Seq<u8>>) {
        (self.error_view(), self.bytecode_view(), self.strings_view())
    }

    pub open(crate) spec fn spec_maximum_stack_depth(&self) -> u32 {
        self.maximum_stack_depth
    }

    pub open(crate) spec fn spec_num_ic_entries(&self) -> u32 {
        self.num_ic_entries
    }

    /// Every field that does not belong to the discriminant is empty.
    pub open(crate) spec fn has_canonical_payload(&self) -> bool {
        &&& self.is_success() ==> self.error.is_canonical_empty()
        &&& self.is_generic_error() ==> {
            &&& self.bytecode.is_canonical_empty()
            &&& self.strings.is_canonical_empty()
            &&& self.maximum_stack_depth == 0
            &&& self.num_ic_entries == 0
            &&& self.error@.last() == 0u8
        }
        &&& self.is_not_implemented() ==> {
            &&& self.error.is_canonical_empty()
            &&& self.bytecode.is_canonical_empty()
            &&& self.strings.is_canonical_empty()
            &&& self.maximum_stack_depth == 0
            &&& self.num_ic_entries == 0
        }
    }

    pub open(crate) spec fn wf(&self) -> bool {
        &&& self.error.wf()
        &&& self.bytecode.wf()
        &&& self.strings.wf()
        &&& table_wf(self.strings@)
        &&& self.has_canonical_payload()
    }

    pub open(crate) spec fn error_is_empty(&self) -> bool {
        self.error.is_canonical_empty()
    }

    pub open(crate) spec fn bytecode_is_empty(&self) -> bool {
        self.bytecode.is_canonical_empty()
    }

    pub open(crate) spec fn strings_is_empty(&self) -> bool {
        self.strings.is_canonical_empty()
    }

    /// Every buffer of the outcome is the canonical empty descriptor.
    pub open(crate) spec fn all_canonical_empty(&self) -> bool {
        &&& self.error.is_canonical_empty()
        &&& self.bytecode.is_canonical_empty()
        &&& self.strings.is_canonical_empty()
    }

    /// The number of heap blocks the outcome owns: one for each descriptor
    /// with allocated slots.
    pub open(crate) spec fn owned_blocks(&self) -> nat {
        (if self.error.spec_capacity() > 0 { 1nat } else { 0nat })
        + (if self.bytecode.spec_capacity() > 0 { 1nat } else { 0nat })
        + (if self.strings.spec_capacity() > 0 { 1nat } else { 0nat })
        + table_blocks(self.strings@)
    }

    /// The outcome for what a pipeline run produced: the emitter's output
    /// on success, the zero-terminated message of a generic error, or
    /// nothing at all for a construct that is not supported yet.
    pub fn from_pipeline(result: Result<EmitOutput, JsparagusError>) -> (r: JsparagusResult)
        ensures
            r.wf(),
            r.payload() == pipeline_payload(result),
            match result {
                Ok(out) => {
                    &&& r.is_success()
                    &&& r.bytecode_view() == out.bytecode@
                    &&& r.strings_view() == encoded_table(out.strings@)
                    &&& r.spec_maximum_stack_depth() == out.maximum_stack_depth
                    &&& r.spec_num_ic_entries() == out.num_ic_entries
                },
                Err(JsparagusError::GenericError(message)) => {
                    &&& r.is_generic_error()
                    &&& r.error_view() == diagnostic_bytes(message@)
                },
                Err(JsparagusError::NotImplemented) => r.is_not_implemented(),
            },
    {
        match result {
            Ok(out) => {
                let EmitOutput { bytecode, strings, maximum_stack_depth, num_ic_entries } = out;
                JsparagusResult {
                    unimplemented: false,
                    error: CVec::empty(),
                    bytecode: CVec::from(bytecode),
                    strings: string_table(strings),
                    maximum_stack_depth,
                    num_ic_entries,
                }
            },
            Err(JsparagusError::GenericError(message)) => {
                let error = CVec::from(diagnostic(message));
                JsparagusResult {
                    unimplemented: false,
                    error,
                    bytecode: CVec::empty(),
                    strings: CVec::empty(),
                    maximum_stack_depth: 0,
                    num_ic_entries: 0,
                }
            },
            Err(JsparagusError::NotImplemented) => JsparagusResult {
                unimplemented: true,
                error: CVec::empty(),
                bytecode: CVec::empty(),
                strings: CVec::empty(),
                maximum_stack_depth: 0,
                num_ic_entries: 0,
            },
        }
    }

    /// Which of the three ways the run ended.
    pub fn kind(&self) -> (r: OutcomeKind)
        ensures
            r == self.spec_kind(),
    {
        if self.unimplemented {
            OutcomeKind::NotImplemented
        } else if self.error.len() > 0 {
            OutcomeKind::GenericError
        } else {
            OutcomeKind::Success
        }
    }

    /// Whether the run met a construct that is not supported yet.
    pub fn unimplemented(&self) -> (r: bool)
        ensures
            r == self.is_not_implemented(),
    {
        self.unimplemented
    }

    /// The zero-terminated diagnostic of a generic error.
    pub fn error(&self) -> (r: &CVec<u8>)
        ensures
            r@ == self.error_view(),
    {
        &self.error
    }

    pub fn bytecode(&self) -> (r: &CVec<u8>)
        ensures
            r@ == self.bytecode_view(),
    {
        &self.bytecode
    }

    /// The string table: one descriptor per string.
    pub fn strings(&self) -> (r: &CVec<CVec<u8>>)
        ensures
            table_view(r@) == self.strings_view(),
    {
        &self.strings
    }

    pub fn maximum_stack_depth(&self) -> (r: u32)
        ensures
            r == self.spec_maximum_stack_depth(),
    {
        self.maximum_stack_depth
    }

    pub fn num_ic_entries(&self) -> (r: u32)
        ensures
            r == self.spec_num_ic_entries(),
    {
        self.num_ic_entries
    }

    /// Takes back every buffer the outcome owns: the diagnostic, the
    /// bytecode, and each string of the table. The outer table descriptor
    /// is released once every inner one has been taken back.
    pub fn into_parts(self) -> (r: (Vec<u8>, Vec<u8>, Vec<Vec<u8>>))
        requires
            self.wf(),
        ensures
            r.0@ == self.error_view(),
            r.1@ == self.bytecode_view(),
            vecs_view(r.2@) == self.strings_view(),
    {
        let JsparagusResult { error, bytecode, strings, .. } = self;
        let ghost table = strings@;
        let inner = strings.into();
        let mut parts: Vec<Vec<u8>> = Vec::new();
        for v in it: inner.into_iter()
            invariant
                it.seq() == table,
                table_wf(table),
                parts@.len() == it.index(),
                forall|i: int| 0 <= i < it.index() ==> #[trigger] parts@[i]@ == table[i]@,
        {
            assert(table[it.index() as int].wf());
            parts.push(v.into());
        }
        assert(vecs_view(parts@) =~= table_view(table));
        (error.into(), bytecode.into(), parts)
    }
}

/// Releases every buffer of an outcome. Each outcome is released once:
/// this consumes it.
pub fn free_jsparagus(result: JsparagusResult)
    requires
        result.wf(),
{
    let (_error, _bytecode, _strings) = result.into_parts();
}

/// Every outcome is exactly one of success, generic error and not
/// implemented, and each buffer that does not belong to that kind is the
/// canonical empty descriptor.
pub proof fn lemma_kind_exclusive(r: &JsparagusResult)
    requires
        r.wf(),
    ensures
        r.is_success() || r.is_generic_error() || r.is_not_implemented(),
        !(r.is_success() && r.is_generic_error()),
        !(r.is_success() && r.is_not_implemented()),
        !(r.is_generic_error() && r.is_not_implemented()),
        r.is_success() ==> r.spec_kind() == OutcomeKind::Success && r.error_is_empty(),
        r.is_generic_error() ==> {
            &&& r.spec_kind() == OutcomeKind::GenericError
            &&& r.bytecode_is_empty()
            &&& r.strings_is_empty()
            &&& r.spec_maximum_stack_depth() == 0
            &&& r.spec_num_ic_entries() == 0
        },
        r.is_not_implemented() ==> {
            &&& r.spec_kind() == OutcomeKind::NotImplemented
            &&& r.all_canonical_empty()
            &&& r.spec_maximum_stack_depth() == 0
            &&& r.spec_num_ic_entries() == 0
        },
{
}

/// Releasing an outcome whose buffers are all canonical empty frees no
/// block, and gives back only empty vectors.
pub proof fn lemma_release_of_empty_outcome(r: &JsparagusResult)
    requires
        r.wf(),
        r.all_canonical_empty(),
    ensures
        r.owned_blocks() == 0,
        r.payload() == (Seq::<u8>::empty(), Seq::<u8>::empty(), Seq::<Seq<u8>>::empty()),
{
    assert(r.strings_view() =~= Seq::<Seq<u8>>::empty());
    assert(r.error_view() =~= Seq::<u8>::empty());
    assert(r.bytecode_view() =~= Seq::<u8>::empty());
}

/// A run followed by one release gives back every buffer the run handed
/// over, and nothing else: what `from_pipeline` stores is what
/// `into_parts` returns.
pub proof fn lemma_release_returns_payload(
    result: Result<EmitOutput, JsparagusError>,
    r: &JsparagusResult,
    parts: (Seq<u8>, Seq<u8>, Seq<Seq<u8>>),
)
    requires
        r.wf(),
        r.payload() == pipeline_payload(result),
        parts == r.payload(),
    ensures
        parts == pipeline_payload(result),
        result is Err ==> parts.1.len() == 0 && parts.2.len() == 0,
        result is Ok ==> parts.0.len() == 0,
{
}

} // verus!
