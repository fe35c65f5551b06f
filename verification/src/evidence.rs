//! Evidence: the signals from which the engine detects a device, and the
//! script that carries them across the boundary.

use crate::bindings::fiftyoneDegreesException;
use crate::bindings::FIFTYONE_DEGREES_EVIDENCE_HTTP_HEADER_STRING;
use crate::call::all_well_formed;
use crate::call::EvidencePtr;
use crate::call::NativeCall;
use crate::call::NativeCallView;
use crate::call::ResultsPtr;
use crate::marshal::c_string;
use crate::marshal::has_nul;
use crate::marshal::is_c_string;
use crate::marshal::to_c_string;
use vstd::prelude::*;
use vstd::slice::slice_to_vec;
use vstd::string::StringSliceAdditionalSpecFns;

verus! {

/// One piece of evidence: where it came from, its name and its value.
/// Neither name nor value holds a zero byte.
#[derive(Debug, PartialEq, Eq)]
pub struct EvidenceEntry {
    prefix: u32,
    field: Vec<u8>,
    value: Vec<u8>,
}

/// An [`EvidenceEntry`] as its prefix and the UTF-8 bytes of its two texts.
pub struct EvidenceEntryView {
    pub prefix: u32,
    pub field: Seq<u8>,
    pub value: Seq<u8>,
}

impl EvidenceEntryView {
    /// Both texts can cross the boundary as C strings.
    pub open spec fn well_formed(self) -> bool {
        !has_nul(self.field) && !has_nul(self.value)
    }
}

impl View for EvidenceEntry {
    type V = EvidenceEntryView;

    closed spec fn view(&self) -> EvidenceEntryView {
        EvidenceEntryView {
            prefix: self.prefix,
            field: self.field@.drop_last(),
            value: self.value@.drop_last(),
        }
    }
}

impl DeepView for EvidenceEntry {
    type V = EvidenceEntryView;

    open spec fn deep_view(&self) -> EvidenceEntryView {
        self.view()
    }
}

impl EvidenceEntry {
    #[verifier::type_invariant]
    spec fn stored_as_c_strings(&self) -> bool {
        is_c_string(self.field@) && is_c_string(self.value@)
    }

    /// The entry with the given prefix, name and value. There is none if the
    /// name or the value holds a zero byte.
    pub fn new(prefix: u32, field: &str, value: &str) -> (entry: Option<EvidenceEntry>)
        ensures
            entry is None <==> has_nul(field.spec_bytes()) || has_nul(value.spec_bytes()),
            entry matches Some(e) ==> e@ == (EvidenceEntryView {
                prefix,
                field: field.spec_bytes(),
                value: value.spec_bytes(),
            }) && e@.well_formed(),
    {
        match to_c_string(field) {
            None => None,
            Some(field_bytes) => match to_c_string(value) {
                None => None,
                Some(value_bytes) => {
                    assert(field_bytes@.drop_last() == field.spec_bytes());
                    assert(value_bytes@.drop_last() == value.spec_bytes());
                    Some(EvidenceEntry { prefix, field: field_bytes, value: value_bytes })
                },
            },
        }
    }

    /// The entry for a `User-Agent` header with the given value. There is
    /// none if the value holds a zero byte.
    pub fn user_agent(value: &str) -> (entry: Option<EvidenceEntry>)
        ensures
            entry is None <==> has_nul(value.spec_bytes()),
            entry matches Some(e) ==> e@ == user_agent_entry(value.spec_bytes()) && e@.well_formed(),
    {
        proof {
            lemma_user_agent_field();
        }
        EvidenceEntry::new(FIFTYONE_DEGREES_EVIDENCE_HTTP_HEADER_STRING, "user-agent", value)
    }

    /// Where the evidence came from.
    pub fn prefix(&self) -> (prefix: u32)
        ensures
            prefix == self@.prefix,
    {
        self.prefix
    }

    /// The name, as a C string.
    pub fn field(&self) -> (bytes: &Vec<u8>)
        ensures
            bytes@ == c_string(self@.field),
            self@.well_formed(),
    {
        proof {
            use_type_invariant(self);
        }
        &self.field
    }

    /// The value, as a C string.
    pub fn value(&self) -> (bytes: &Vec<u8>)
        ensures
            bytes@ == c_string(self@.value),
            self@.well_formed(),
    {
        proof {
            use_type_invariant(self);
        }
        &self.value
    }

    /// The call that adds this entry to the collection at `evidence`.
    pub fn add_to(&self, evidence: EvidencePtr) -> (call: NativeCall)
        ensures
            call@ == add_call(evidence, self@),
            self@.well_formed(),
    {
        NativeCall::EvidenceAddString {
            evidence,
            prefix: self.prefix,
            field: slice_to_vec(self.field().as_slice()),
            original_value: slice_to_vec(self.value().as_slice()),
        }
    }
}

/// The UTF-8 bytes of the header name `user-agent`.
pub open spec fn user_agent_field() -> Seq<u8> {
    "user-agent".spec_bytes()
}

/// The entry for a `User-Agent` header whose value has the UTF-8 bytes `value`.
pub open spec fn user_agent_entry(value: Seq<u8>) -> EvidenceEntryView {
    EvidenceEntryView {
        prefix: FIFTYONE_DEGREES_EVIDENCE_HTTP_HEADER_STRING,
        field: user_agent_field(),
        value,
    }
}

/// The header name is nine ASCII letters and a hyphen, none of them zero.
pub proof fn lemma_user_agent_field()
    ensures
        user_agent_field() == seq![117u8, 115u8, 101u8, 114u8, 45u8, 97u8, 103u8, 101u8, 110u8, 116u8],
        !has_nul(user_agent_field()),
{
    reveal_strlit("user-agent");
    vstd::string::is_ascii_spec_bytes("user-agent");
    assert(user_agent_field() =~= seq![
        117u8,
        115u8,
        101u8,
        114u8,
        45u8,
        97u8,
        103u8,
        101u8,
        110u8,
        116u8,
    ]);
}

/// Room to ask for in a collection that is to take `count` entries: one for
/// each, and never none.
pub open spec fn evidence_capacity(count: nat) -> nat {
    if count == 0 {
        1
    } else {
        count
    }
}

/// The call that adds `entry` to the collection at `evidence`.
pub open spec fn add_call(evidence: EvidencePtr, entry: EvidenceEntryView) -> NativeCallView {
    NativeCallView::EvidenceAddString {
        evidence,
        prefix: entry.prefix,
        field: c_string(entry.field),
        original_value: c_string(entry.value),
    }
}

/// What is done with a collection once the engine has allocated it at
/// `evidence`: each entry is added, in order; detection runs, with an
/// exception record that is not set; the collection is freed.
pub open spec fn detection_script(
    results: ResultsPtr,
    evidence: EvidencePtr,
    entries: Seq<EvidenceEntryView>,
) -> Seq<NativeCallView> {
    Seq::new(entries.len(), |i: int| add_call(evidence, entries[i])).push(
        NativeCallView::ResultsHashFromEvidence {
            results,
            evidence,
            exception: fiftyoneDegreesException::spec_not_set(),
        },
    ).push(NativeCallView::EvidenceFree { evidence })
}

/// All the calls of one run of evidence processing in which the engine
/// answered the allocation with `evidence`: the allocation, and, unless the
/// answer was null, what [`detection_script`] lists.
pub open spec fn processing_calls(
    results: ResultsPtr,
    evidence: EvidencePtr,
    entries: Seq<EvidenceEntryView>,
) -> Seq<NativeCallView> {
    let allocation = seq![
        NativeCallView::EvidenceCreate { capacity: evidence_capacity(entries.len()) as u32 },
    ];
    if evidence.spec_is_null() {
        allocation
    } else {
        allocation + detection_script(results, evidence, entries)
    }
}

/// Builds [`detection_script`].
pub fn build_detection_script(
    results: ResultsPtr,
    evidence: EvidencePtr,
    entries: &Vec<EvidenceEntry>,
) -> (script: Vec<NativeCall>)
    ensures
        script.deep_view() == detection_script(results, evidence, entries.deep_view()),
        forall|i: int| 0 <= i < entries.len() ==> (#[trigger] entries.deep_view()[i]).well_formed(),
{
    let mut script: Vec<NativeCall> = Vec::new();
    let mut i: usize = 0;
    while i < entries.len()
        invariant
            i <= entries.len(),
            script.len() == i,
            forall|j: int| 0 <= j < i ==> (#[trigger] script@[j])@ == add_call(evidence, entries@[j]@),
            forall|j: int| 0 <= j < i ==> (#[trigger] entries@[j])@.well_formed(),
        decreases entries.len() - i,
    {
        script.push(entries[i].add_to(evidence));
        i += 1;
    }
    script.push(
        NativeCall::ResultsHashFromEvidence {
            results,
            evidence,
            exception: fiftyoneDegreesException::not_set(),
        },
    );
    script.push(NativeCall::EvidenceFree { evidence });
    script
}

/// Every call of the detection script is well formed, given a results record
/// and a collection that exist and entries that are well formed.
pub proof fn lemma_detection_script_well_formed(
    results: ResultsPtr,
    evidence: EvidencePtr,
    entries: Seq<EvidenceEntryView>,
)
    requires
        !results.spec_is_null(),
        !evidence.spec_is_null(),
        forall|i: int| 0 <= i < entries.len() ==> (#[trigger] entries[i]).well_formed(),
    ensures
        all_well_formed(detection_script(results, evidence, entries)),
{
}

/// Every call of a run of evidence processing is well formed, given a results
/// record that exists, entries that are well formed and a number of them that
/// a C `unsigned int` can hold.
pub proof fn lemma_processing_calls_well_formed(
    results: ResultsPtr,
    evidence: EvidencePtr,
    entries: Seq<EvidenceEntryView>,
)
    requires
        !results.spec_is_null(),
        entries.len() <= u32::MAX,
        forall|i: int| 0 <= i < entries.len() ==> (#[trigger] entries[i]).well_formed(),
    ensures
        all_well_formed(processing_calls(results, evidence, entries)),
{
    if !evidence.spec_is_null() {
        lemma_detection_script_well_formed(results, evidence, entries);
    }
}

/// The collection is never asked to hold more than it has room for, and the
/// room asked for is never none.
pub proof fn lemma_capacity_suffices(count: nat)
    ensures
        evidence_capacity(count) >= 1,
        evidence_capacity(count) >= count,
        count >= 1 ==> evidence_capacity(count) == count,
{
}

/// The collection is asked for with room for every entry, and exactly the
/// entries are added to it: each once, in order, right after the allocation.
pub proof fn lemma_collection_never_overfilled(
    results: ResultsPtr,
    evidence: EvidencePtr,
    entries: Seq<EvidenceEntryView>,
)
    requires
        !evidence.spec_is_null(),
        entries.len() <= u32::MAX,
    ensures
        ({
            let calls = processing_calls(results, evidence, entries);
            &&& calls[0] matches NativeCallView::EvidenceCreate { capacity }
            &&& capacity >= 1
            &&& capacity >= entries.len()
            &&& forall|i: int|
                1 <= i <= entries.len() ==> #[trigger] calls[i] == add_call(evidence, entries[i - 1])
            &&& forall|i: int|
                entries.len() < i < calls.len() ==> !(#[trigger] calls[i] is EvidenceAddString)
        }),
{
}

/// One run of evidence processing frees the collection that it allocated
/// exactly once, as its last call, right after detection on that collection;
/// it frees no other; and where the engine allocated none, the allocation is
/// its only call.
pub proof fn lemma_evidence_released_once(
    results: ResultsPtr,
    evidence: EvidencePtr,
    entries: Seq<EvidenceEntryView>,
)
    ensures
        ({
            let calls = processing_calls(results, evidence, entries);
            let last = calls.len() - 1;
            &&& calls[0] is EvidenceCreate
            &&& evidence.spec_is_null() ==> calls.len() == 1
            &&& !evidence.spec_is_null() ==> {
                &&& calls.len() == entries.len() + 3
                &&& calls[last] == (NativeCallView::EvidenceFree { evidence })
                &&& calls[last - 1] == (NativeCallView::ResultsHashFromEvidence {
                    results,
                    evidence,
                    exception: fiftyoneDegreesException::spec_not_set(),
                })
                &&& forall|i: int| 0 <= i < last ==> !(#[trigger] calls[i] is EvidenceFree)
            }
        }),
{
}

} // verus!
