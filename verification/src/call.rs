//! The native interface as data: each call that the engine offers, with the
//! arguments this layer hands to it.

use crate::bindings::fiftyoneDegreesConfigHash;
use crate::bindings::fiftyoneDegreesEvidenceKeyValuePairArray;
use crate::bindings::fiftyoneDegreesException;
use crate::bindings::fiftyoneDegreesPropertiesRequired;
use crate::bindings::fiftyoneDegreesResourceManager;
use crate::bindings::fiftyoneDegreesResultsHash;
use crate::bindings::NativePtr;
use crate::marshal::is_c_string;
use vstd::prelude::*;

verus! {

/// Address of a native results record.
pub type ResultsPtr = NativePtr<fiftyoneDegreesResultsHash>;

/// Address of a native evidence collection.
pub type EvidencePtr = NativePtr<fiftyoneDegreesEvidenceKeyValuePairArray>;

/// One call into the engine. Strings are C strings, terminator included. An
/// `exception` is the record to pass as the call's out-parameter. A `buffer`
/// is the memory to lend to the call, its length the length to declare.
#[derive(Debug, PartialEq, Eq)]
pub enum NativeCall {
    /// Load the data file `file_name` into a fresh manager.
    HashInitManagerFromFile {
        config: fiftyoneDegreesConfigHash,
        properties: fiftyoneDegreesPropertiesRequired,
        file_name: Vec<u8>,
        exception: fiftyoneDegreesException,
    },
    /// Free a manager.
    ResourceManagerFree { manager: fiftyoneDegreesResourceManager },
    /// Allocate a results record on the engine's manager.
    ResultsHashCreate { overrides_capacity: u32 },
    /// Allocate an evidence collection with room for `capacity` entries.
    EvidenceCreate { capacity: u32 },
    /// Add one entry to an evidence collection.
    EvidenceAddString { evidence: EvidencePtr, prefix: u32, field: Vec<u8>, original_value: Vec<u8> },
    /// Run detection on the evidence, into the results record.
    ResultsHashFromEvidence {
        results: ResultsPtr,
        evidence: EvidencePtr,
        exception: fiftyoneDegreesException,
    },
    /// Free an evidence collection.
    EvidenceFree { evidence: EvidencePtr },
    /// Write the values of one property into the buffer, separated.
    ResultsHashGetValuesString {
        results: ResultsPtr,
        property_name: Vec<u8>,
        buffer: Vec<u8>,
        separator: Vec<u8>,
        exception: fiftyoneDegreesException,
    },
    /// Write all values into the buffer, as a JSON document.
    ResultsHashGetValuesJson {
        results: ResultsPtr,
        buffer: Vec<u8>,
        exception: fiftyoneDegreesException,
    },
    /// Write the device identifier into the buffer.
    HashGetDeviceIdFromResults {
        results: ResultsPtr,
        buffer: Vec<u8>,
        exception: fiftyoneDegreesException,
    },
    /// Free a results record.
    ResultsHashFree { results: ResultsPtr },
}

/// A [`NativeCall`] with its byte strings as sequences.
pub enum NativeCallView {
    HashInitManagerFromFile {
        config: fiftyoneDegreesConfigHash,
        properties: fiftyoneDegreesPropertiesRequired,
        file_name: Seq<u8>,
        exception: fiftyoneDegreesException,
    },
    ResourceManagerFree { manager: fiftyoneDegreesResourceManager },
    ResultsHashCreate { overrides_capacity: u32 },
    EvidenceCreate { capacity: u32 },
    EvidenceAddString { evidence: EvidencePtr, prefix: u32, field: Seq<u8>, original_value: Seq<u8> },
    ResultsHashFromEvidence {
        results: ResultsPtr,
        evidence: EvidencePtr,
        exception: fiftyoneDegreesException,
    },
    EvidenceFree { evidence: EvidencePtr },
    ResultsHashGetValuesString {
        results: ResultsPtr,
        property_name: Seq<u8>,
        buffer: Seq<u8>,
        separator: Seq<u8>,
        exception: fiftyoneDegreesException,
    },
    ResultsHashGetValuesJson {
        results: ResultsPtr,
        buffer: Seq<u8>,
        exception: fiftyoneDegreesException,
    },
    HashGetDeviceIdFromResults {
        results: ResultsPtr,
        buffer: Seq<u8>,
        exception: fiftyoneDegreesException,
    },
    ResultsHashFree { results: ResultsPtr },
}

impl View for NativeCall {
    type V = NativeCallView;

    open spec fn view(&self) -> NativeCallView {
        match *self {
            NativeCall::HashInitManagerFromFile { config, properties, file_name, exception } => {
                NativeCallView::HashInitManagerFromFile {
                    config,
                    properties,
                    file_name: file_name@,
                    exception,
                }
            },
            NativeCall::ResourceManagerFree { manager } => NativeCallView::ResourceManagerFree {
                manager,
            },
            NativeCall::ResultsHashCreate { overrides_capacity } => {
                NativeCallView::ResultsHashCreate { overrides_capacity }
            },
            NativeCall::EvidenceCreate { capacity } => NativeCallView::EvidenceCreate { capacity },
            NativeCall::EvidenceAddString { evidence, prefix, field, original_value } => {
                NativeCallView::EvidenceAddString {
                    evidence,
                    prefix,
                    field: field@,
                    original_value: original_value@,
                }
            },
            NativeCall::ResultsHashFromEvidence { results, evidence, exception } => {
                NativeCallView::ResultsHashFromEvidence { results, evidence, exception }
            },
            NativeCall::EvidenceFree { evidence } => NativeCallView::EvidenceFree { evidence },
            NativeCall::ResultsHashGetValuesString {
                results,
                property_name,
                buffer,
                separator,
                exception,
            } => NativeCallView::ResultsHashGetValuesString {
                results,
                property_name: property_name@,
                buffer: buffer@,
                separator: separator@,
                exception,
            },
            NativeCall::ResultsHashGetValuesJson { results, buffer, exception } => {
                NativeCallView::ResultsHashGetValuesJson { results, buffer: buffer@, exception }
            },
            NativeCall::HashGetDeviceIdFromResults { results, buffer, exception } => {
                NativeCallView::HashGetDeviceIdFromResults { results, buffer: buffer@, exception }
            },
            NativeCall::ResultsHashFree { results } => NativeCallView::ResultsHashFree { results },
        }
    }
}

impl DeepView for NativeCall {
    type V = NativeCallView;

    open spec fn deep_view(&self) -> NativeCallView {
        self.view()
    }
}

impl NativeCallView {
    /// The call can be made as it stands: no pointer it passes is null, every
    /// string it passes is a C string, its exception record is "not set", and
    /// a buffer or collection it asks for has room.
    pub open spec fn well_formed(self) -> bool {
        match self {
            NativeCallView::HashInitManagerFromFile { file_name, exception, .. } => {
                is_c_string(file_name) && exception == fiftyoneDegreesException::spec_not_set()
            },
            NativeCallView::ResourceManagerFree { .. } => true,
            NativeCallView::ResultsHashCreate { .. } => true,
            NativeCallView::EvidenceCreate { capacity } => capacity >= 1,
            NativeCallView::EvidenceAddString { evidence, field, original_value, .. } => {
                !evidence.spec_is_null() && is_c_string(field) && is_c_string(original_value)
            },
            NativeCallView::ResultsHashFromEvidence { results, evidence, exception } => {
                &&& !results.spec_is_null()
                &&& !evidence.spec_is_null()
                &&& exception == fiftyoneDegreesException::spec_not_set()
            },
            NativeCallView::EvidenceFree { evidence } => !evidence.spec_is_null(),
            NativeCallView::ResultsHashGetValuesString {
                results,
                property_name,
                buffer,
                separator,
                exception,
            } => {
                &&& !results.spec_is_null()
                &&& is_c_string(property_name)
                &&& buffer.len() > 0
                &&& is_c_string(separator)
                &&& exception == fiftyoneDegreesException::spec_not_set()
            },
            NativeCallView::ResultsHashGetValuesJson { results, buffer, exception } => {
                &&& !results.spec_is_null()
                &&& buffer.len() > 0
                &&& exception == fiftyoneDegreesException::spec_not_set()
            },
            NativeCallView::HashGetDeviceIdFromResults { results, buffer, exception } => {
                &&& !results.spec_is_null()
                &&& 0 < buffer.len() <= i32::MAX
                &&& exception == fiftyoneDegreesException::spec_not_set()
            },
            NativeCallView::ResultsHashFree { results } => !results.spec_is_null(),
        }
    }
}

/// Every call of `script` is well formed.
pub open spec fn all_well_formed(script: Seq<NativeCallView>) -> bool {
    forall|i: int| 0 <= i < script.len() ==> (#[trigger] script[i]).well_formed()
}

/// The script that holds `call` and nothing else.
pub(crate) fn single(call: NativeCall) -> (script: Vec<NativeCall>)
    ensures
        script.deep_view() == seq![call@],
{
    let mut script: Vec<NativeCall> = Vec::new();
    script.push(call);
    script
}

/// What an operation answers to an event: calls for the caller to perform, in
/// order, before it comes back with their outcome; or the operation's result.
#[derive(Debug, PartialEq, Eq)]
pub enum Step<T> {
    Perform(Vec<NativeCall>),
    Done(T),
}

impl<T> Step<T> {
    /// The calls that the answer asks for: none where it is a result.
    pub open spec fn calls(self) -> Seq<NativeCallView> {
        match self {
            Step::Perform(script) => script.deep_view(),
            Step::Done(_) => Seq::empty(),
        }
    }
}

} // verus!
