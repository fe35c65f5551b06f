//! The result handle: one native results record, from its allocation through
//! evidence processing and value queries to its release.

use crate::bindings::fiftyoneDegreesException;
use crate::call::all_well_formed;
use crate::call::single;
use crate::call::EvidencePtr;
use crate::call::NativeCall;
use crate::call::NativeCallView;
use crate::call::ResultsPtr;
use crate::call::Step;
use crate::engine::HashEngine;
use crate::engine::HashEngineView;
use crate::error::Error;
use crate::evidence::build_detection_script;
use crate::evidence::detection_script;
use crate::evidence::evidence_capacity;
use crate::evidence::lemma_detection_script_well_formed;
use crate::evidence::lemma_evidence_released_once;
use crate::evidence::processing_calls;
use crate::evidence::user_agent_entry;
use crate::evidence::EvidenceEntry;
use crate::evidence::EvidenceEntryView;
use crate::marshal::buffer_content;
use crate::marshal::c_string;
use crate::marshal::contains_nul;
use crate::marshal::has_nul;
use crate::marshal::is_text_of;
use crate::marshal::lemma_empty_text;
use crate::marshal::lemma_zero_length_is_empty;
use crate::marshal::read_text;
use crate::marshal::reported;
use crate::marshal::to_c_string;
use crate::marshal::zeroed_buffer;
use crate::marshal::zeros;
use vstd::prelude::*;
use vstd::string::StringSliceAdditionalSpecFns;

verus! {

/// Overrides capacity of a results record where the caller has no other wish.
pub const DEFAULT_OVERRIDES_CAPACITY: u32 = 1;

/// Length of the buffer lent to a query for the values of one property.
pub const VALUE_BUFFER_LENGTH: usize = 1024;

/// Length of the buffer lent to a query for all values as JSON.
pub const JSON_BUFFER_LENGTH: usize = 8192;

/// Length of the buffer lent to a query for the device identifier.
pub const DEVICE_ID_BUFFER_LENGTH: usize = 100;

/// The byte that separates the values of a property that has several: a comma.
pub const VALUE_SEPARATOR: u8 = 0x2c;

/// Where a result handle stands in its life.
#[derive(Debug, Clone, Copy, PartialEq, Eq)]
pub enum ResultsState {
    /// Allocated; no evidence has been processed.
    Created,
    /// Evidence has been processed: the record holds a detection outcome.
    Processed,
    /// Released: the handle holds no record.
    Disposed,
}

/// What [`HashResults::new`] is told of the engine.
#[derive(Debug, PartialEq, Eq)]
pub enum CreateEvent {
    /// Nothing yet: the operation begins.
    Start,
    /// The allocation returned this pointer.
    Created(ResultsPtr),
}

/// What evidence processing is told of the engine.
#[derive(Debug, PartialEq, Eq)]
pub enum ProcessEvent {
    /// Nothing yet: the operation begins.
    Start,
    /// The allocation of the evidence collection returned this pointer.
    EvidenceCreated(EvidencePtr),
    /// The detection script has been performed, and detection left the
    /// exception record as given.
    Detected(fiftyoneDegreesException),
}

/// What a query that fills a buffer is told of the engine.
#[derive(Debug, PartialEq, Eq)]
pub enum QueryEvent {
    /// Nothing yet: the operation begins.
    Start,
    /// The query returned `length`, and left the buffer and the exception
    /// record as given.
    Replied { buffer: Vec<u8>, length: usize, exception: fiftyoneDegreesException },
}

/// What the device-identifier query is told of the engine.
#[derive(Debug, PartialEq, Eq)]
pub enum DeviceIdEvent {
    /// Nothing yet: the operation begins.
    Start,
    /// The query returned `length`, and left the buffer and the exception
    /// record as given.
    Replied { buffer: Vec<u8>, length: i32, exception: fiftyoneDegreesException },
}

/// Owner of one native results record, allocated on the manager of the engine
/// handle that it borrows: it cannot outlive that handle, and cannot be copied.
#[derive(Debug)]
pub struct HashResults<'e> {
    engine: &'e HashEngine,
    results: ResultsPtr,
    overrides_capacity: u32,
    processed: bool,
}

/// What a [`HashResults`] holds.
pub struct HashResultsView {
    pub engine: HashEngineView,
    /// The native record; null once it has been released.
    pub results: ResultsPtr,
    pub overrides_capacity: u32,
    /// Evidence has been processed into the record.
    pub processed: bool,
}

impl HashResultsView {
    /// Disposed without a record; with one, processed or merely created.
    pub open spec fn state(self) -> ResultsState {
        if self.results.spec_is_null() {
            ResultsState::Disposed
        } else if self.processed {
            ResultsState::Processed
        } else {
            ResultsState::Created
        }
    }

    /// The handle holds a record.
    pub open spec fn is_live(self) -> bool {
        !self.results.spec_is_null()
    }

    /// The handle after evidence processing has been told `event`: processed
    /// once detection has run without a failure, and as before otherwise.
    pub open spec fn after_process(self, event: ProcessEvent) -> HashResultsView {
        match event {
            ProcessEvent::Detected(exception) if !exception.spec_is_failure() => HashResultsView {
                processed: true,
                ..self
            },
            _ => self,
        }
    }

    /// The handle after its release: without a record.
    pub open spec fn after_dispose(self) -> HashResultsView {
        HashResultsView { results: ResultsPtr::spec_null(), ..self }
    }
}

impl<'e> View for HashResults<'e> {
    type V = HashResultsView;

    closed spec fn view(&self) -> HashResultsView {
        HashResultsView {
            engine: self.engine@,
            results: self.results,
            overrides_capacity: self.overrides_capacity,
            processed: self.processed,
        }
    }
}

/// The query for the values of the property whose name has the UTF-8 bytes
/// `name`: a zeroed buffer of [`VALUE_BUFFER_LENGTH`] bytes, a comma as
/// separator, an exception record that is not set.
pub open spec fn value_call(results: ResultsPtr, name: Seq<u8>) -> NativeCallView {
    NativeCallView::ResultsHashGetValuesString {
        results,
        property_name: c_string(name),
        buffer: zeros(VALUE_BUFFER_LENGTH as nat),
        separator: c_string(seq![VALUE_SEPARATOR]),
        exception: fiftyoneDegreesException::spec_not_set(),
    }
}

/// The query for all values as JSON: a zeroed buffer of
/// [`JSON_BUFFER_LENGTH`] bytes, an exception record that is not set.
pub open spec fn json_call(results: ResultsPtr) -> NativeCallView {
    NativeCallView::ResultsHashGetValuesJson {
        results,
        buffer: zeros(JSON_BUFFER_LENGTH as nat),
        exception: fiftyoneDegreesException::spec_not_set(),
    }
}

/// The query for the device identifier: a zeroed buffer of
/// [`DEVICE_ID_BUFFER_LENGTH`] bytes, an exception record that is not set.
pub open spec fn device_id_call(results: ResultsPtr) -> NativeCallView {
    NativeCallView::HashGetDeviceIdFromResults {
        results,
        buffer: zeros(DEVICE_ID_BUFFER_LENGTH as nat),
        exception: fiftyoneDegreesException::spec_not_set(),
    }
}

/// The number of bytes that a length reported as a C `int` covers: none if it
/// is negative.
pub open spec fn covered_by(length: i32) -> nat {
    if length <= 0 {
        0
    } else {
        length as nat
    }
}

/// `step` is the answer of a query to `event`, where the query begins with
/// `call`: at `Start`, that call; told a length of zero, `PropertyNotFound`
/// with the exception record; told any other length, the text of the
/// buffer's content.
pub open spec fn answers_query(
    step: Step<Result<String, Error>>,
    call: NativeCallView,
    event: QueryEvent,
) -> bool {
    match event {
        QueryEvent::Start => {
            &&& step matches Step::Perform(script)
            &&& script.deep_view() == seq![call]
        },
        QueryEvent::Replied { buffer, length, exception } => {
            if length == 0 {
                step == Step::<Result<String, Error>>::Done(
                    Err(Error::PropertyNotFound { exception }),
                )
            } else {
                &&& step matches Step::Done(Ok(text))
                &&& is_text_of(text@, buffer_content(buffer@, length as nat))
            }
        },
    }
}

/// `step` is the answer of [`HashResults::get_value`] to `event`, for a handle
/// with the record `results` and a property name with the UTF-8 bytes `name`.
/// A name with a zero byte in it names no property: the answer is
/// `PropertyNotFound`, with an exception record that is not set, whatever the
/// event. For any other name the answer is that of [`answers_query`],
/// beginning with [`value_call`].
pub open spec fn answers_get_value(
    step: Step<Result<String, Error>>,
    results: ResultsPtr,
    name: Seq<u8>,
    event: QueryEvent,
) -> bool {
    if has_nul(name) {
        step == Step::<Result<String, Error>>::Done(
            Err(Error::PropertyNotFound { exception: fiftyoneDegreesException::spec_not_set() }),
        )
    } else {
        answers_query(step, value_call(results, name), event)
    }
}

/// `step` is the answer of evidence processing to `event`, for a handle with
/// the record `results` and the given entries. At `Start`: the allocation of
/// a collection with room for every entry, and for one at least. Told the
/// pointer that the allocation returned: `ResourceExhausted` if it is null,
/// else the detection script. Told the exception record that detection left:
/// `ProcessingFailed` with the record if it holds a failure, else success.
pub open spec fn answers_process(
    step: Step<Result<(), Error>>,
    results: ResultsPtr,
    entries: Seq<EvidenceEntryView>,
    event: ProcessEvent,
) -> bool {
    match event {
        ProcessEvent::Start => {
            &&& step matches Step::Perform(script)
            &&& script.deep_view() == seq![
                NativeCallView::EvidenceCreate {
                    capacity: evidence_capacity(entries.len()) as u32,
                },
            ]
        },
        ProcessEvent::EvidenceCreated(evidence) => {
            if evidence.spec_is_null() {
                step == Step::<Result<(), Error>>::Done(Err(Error::ResourceExhausted))
            } else {
                &&& step matches Step::Perform(script)
                &&& script.deep_view() == detection_script(results, evidence, entries)
                &&& all_well_formed(script.deep_view())
            }
        },
        ProcessEvent::Detected(exception) => {
            if exception.spec_is_failure() {
                step == Step::<Result<(), Error>>::Done(
                    Err(Error::ProcessingFailed { exception }),
                )
            } else {
                step == Step::<Result<(), Error>>::Done(Ok(()))
            }
        },
    }
}

impl<'e> HashResults<'e> {
    /// Makes a result handle on `engine`.
    ///
    /// At `Start` the answer is the one call to perform: the allocation of a
    /// results record with the given overrides capacity. Told the pointer
    /// that the allocation returned, the answer is `ResourceExhausted` if it
    /// is null, and else the handle, in state `Created`.
    pub fn new(engine: &'e HashEngine, overrides_capacity: u32, event: CreateEvent) -> (step: Step<
        Result<HashResults<'e>, Error>,
    >)
        requires
            engine.spec_is_usable(),
        ensures
            match event {
                CreateEvent::Start => {
                    &&& step matches Step::Perform(script)
                    &&& script.deep_view() == seq![
                        NativeCallView::ResultsHashCreate { overrides_capacity },
                    ]
                },
                CreateEvent::Created(results) => {
                    if results.spec_is_null() {
                        step == Step::<Result<HashResults<'e>, Error>>::Done(
                            Err(Error::ResourceExhausted),
                        )
                    } else {
                        &&& step matches Step::Done(Ok(handle))
                        &&& handle@ == (HashResultsView {
                            engine: engine@,
                            results,
                            overrides_capacity,
                            processed: false,
                        })
                        &&& handle@.state() is Created
                    }
                },
            },
    {
        match event {
            CreateEvent::Start => Step::Perform(
                single(NativeCall::ResultsHashCreate { overrides_capacity }),
            ),
            CreateEvent::Created(results) => {
                if results.is_null() {
                    Step::Done(Err(Error::ResourceExhausted))
                } else {
                    Step::Done(
                        Ok(HashResults { engine, results, overrides_capacity, processed: false }),
                    )
                }
            },
        }
    }

    /// The engine handle on whose manager the record was allocated.
    pub fn engine(&self) -> (engine: &'e HashEngine)
        ensures
            engine@ == self@.engine,
    {
        self.engine
    }

    /// The overrides capacity that the record was allocated with.
    pub fn overrides_capacity(&self) -> (capacity: u32)
        ensures
            capacity == self@.overrides_capacity,
    {
        self.overrides_capacity
    }

    /// Where the handle stands in its life.
    pub fn state(&self) -> (state: ResultsState)
        ensures
            state == self@.state(),
    {
        if self.results.is_null() {
            ResultsState::Disposed
        } else if self.processed {
            ResultsState::Processed
        } else {
            ResultsState::Created
        }
    }

    /// Whether the handle holds a record, that is, has not been disposed of.
    pub fn is_live(&self) -> (live: bool)
        ensures
            live == self@.is_live(),
    {
        !self.results.is_null()
    }

    /// Processes `entries` into the record, in place of what it held.
    ///
    /// The three steps are those of [`answers_process`]. The collection that
    /// the first step allocates is freed by the last call of the second,
    /// whatever detection reports. The handle changes only when detection is
    /// reported without a failure: it is then `Processed`.
    pub fn process(&mut self, entries: &Vec<EvidenceEntry>, event: ProcessEvent) -> (step: Step<
        Result<(), Error>,
    >)
        requires
            old(self)@.is_live(),
            entries.len() <= u32::MAX,
        ensures
            answers_process(step, old(self)@.results, entries.deep_view(), event),
            final(self)@ == old(self)@.after_process(event),
    {
        match event {
            ProcessEvent::Start => {
                let capacity: u32 = if entries.len() == 0 {
                    1
                } else {
                    entries.len() as u32
                };
                Step::Perform(single(NativeCall::EvidenceCreate { capacity }))
            },
            ProcessEvent::EvidenceCreated(evidence) => {
                if evidence.is_null() {
                    Step::Done(Err(Error::ResourceExhausted))
                } else {
                    let script = build_detection_script(self.results, evidence, entries);
                    proof {
                        lemma_detection_script_well_formed(
                            self.results,
                            evidence,
                            entries.deep_view(),
                        );
                    }
                    Step::Perform(script)
                }
            },
            ProcessEvent::Detected(exception) => {
                if exception.is_failure() {
                    Step::Done(Err(Error::ProcessingFailed { exception }))
                } else {
                    self.processed = true;
                    Step::Done(Ok(()))
                }
            },
        }
    }

    /// Processes a `User-Agent` header as the only piece of evidence: what
    /// [`HashResults::process`] does with the one entry of
    /// [`user_agent_entry`].
    pub fn process_user_agent(&mut self, user_agent: &str, event: ProcessEvent) -> (step: Step<
        Result<(), Error>,
    >)
        requires
            old(self)@.is_live(),
            !has_nul(user_agent.spec_bytes()),
        ensures
            answers_process(
                step,
                old(self)@.results,
                seq![user_agent_entry(user_agent.spec_bytes())],
                event,
            ),
            final(self)@ == old(self)@.after_process(event),
    {
        let mut entries: Vec<EvidenceEntry> = Vec::new();
        match EvidenceEntry::user_agent(user_agent) {
            Some(entry) => {
                entries.push(entry);
            },
            None => {},
        }
        assert(entries.deep_view() =~= seq![user_agent_entry(user_agent.spec_bytes())]);
        self.process(&entries, event)
    }

    /// The values of one property, separated by commas: the answer is that
    /// of [`answers_get_value`]. The handle is not changed.
    pub fn get_value(&self, property_name: &str, event: QueryEvent) -> (step: Step<
        Result<String, Error>,
    >)
        requires
            self@.is_live(),
        ensures
            answers_get_value(step, self@.results, property_name.spec_bytes(), event),
    {
        match event {
            QueryEvent::Start => match to_c_string(property_name) {
                None => Step::Done(
                    Err(Error::PropertyNotFound { exception: fiftyoneDegreesException::not_set() }),
                ),
                Some(name) => {
                    let mut separator: Vec<u8> = Vec::new();
                    separator.push(VALUE_SEPARATOR);
                    separator.push(0u8);
                    Step::Perform(
                        single(
                            NativeCall::ResultsHashGetValuesString {
                                results: self.results,
                                property_name: name,
                                buffer: zeroed_buffer(VALUE_BUFFER_LENGTH),
                                separator,
                                exception: fiftyoneDegreesException::not_set(),
                            },
                        ),
                    )
                },
            },
            QueryEvent::Replied { buffer, length, exception } => {
                if contains_nul(property_name) {
                    Step::Done(
                        Err(
                            Error::PropertyNotFound {
                                exception: fiftyoneDegreesException::not_set(),
                            },
                        ),
                    )
                } else {
                    finish_query(buffer, length, exception)
                }
            },
        }
    }

    /// All detected values, as one JSON document: the answer is that of
    /// [`answers_query`], beginning with [`json_call`].
    pub fn get_all_values_json(&self, event: QueryEvent) -> (step: Step<Result<String, Error>>)
        requires
            self@.is_live(),
        ensures
            answers_query(step, json_call(self@.results), event),
    {
        match event {
            QueryEvent::Start => Step::Perform(
                single(
                    NativeCall::ResultsHashGetValuesJson {
                        results: self.results,
                        buffer: zeroed_buffer(JSON_BUFFER_LENGTH),
                        exception: fiftyoneDegreesException::not_set(),
                    },
                ),
            ),
            QueryEvent::Replied { buffer, length, exception } => finish_query(
                buffer,
                length,
                exception,
            ),
        }
    }

    /// The identifier of the detected device.
    ///
    /// At `Start` the answer is [`device_id_call`]. Told the reply, the
    /// answer is always a text, that of the buffer's content under the
    /// reported length: a length of zero is no error here, and gives the
    /// empty text. A negative length covers nothing. The handle is not
    /// changed.
    pub fn get_device_id(&self, event: DeviceIdEvent) -> (step: Step<Result<String, Error>>)
        requires
            self@.is_live(),
        ensures
            match event {
                DeviceIdEvent::Start => {
                    &&& step matches Step::Perform(script)
                    &&& script.deep_view() == seq![device_id_call(self@.results)]
                },
                DeviceIdEvent::Replied { buffer, length, exception } => {
                    &&& step matches Step::Done(Ok(text))
                    &&& is_text_of(text@, buffer_content(buffer@, covered_by(length)))
                    &&& length <= 0 ==> text@ == Seq::<char>::empty()
                },
            },
    {
        match event {
            DeviceIdEvent::Start => Step::Perform(
                single(
                    NativeCall::HashGetDeviceIdFromResults {
                        results: self.results,
                        buffer: zeroed_buffer(DEVICE_ID_BUFFER_LENGTH),
                        exception: fiftyoneDegreesException::not_set(),
                    },
                ),
            ),
            DeviceIdEvent::Replied { buffer, length, exception } => {
                let covered: usize = if length <= 0 {
                    0
                } else {
                    length as usize
                };
                proof {
                    if length <= 0 {
                        lemma_zero_length_is_empty(buffer@);
                        lemma_empty_text();
                    }
                }
                Step::Done(Ok(read_text(buffer.as_slice(), covered)))
            },
        }
    }

    /// Releases the record. The answer is the one call that frees it, and the
    /// handle is then `Disposed`. On a handle without a record this does
    /// nothing, and there is no call to perform.
    pub fn dispose(&mut self) -> (call: Option<NativeCall>)
        ensures
            !old(self)@.is_live() ==> call is None && final(self)@ == old(self)@,
            old(self)@.is_live() ==> {
                &&& call matches Some(free)
                &&& free@ == (NativeCallView::ResultsHashFree { results: old(self)@.results })
                &&& free@.well_formed()
            },
            final(self)@ == old(self)@.after_dispose(),
            final(self)@.state() is Disposed,
    {
        if self.results.is_null() {
            None
        } else {
            let results = self.results;
            self.results = ResultsPtr::null();
            Some(NativeCall::ResultsHashFree { results })
        }
    }
}

/// The answer of a query to its reply: see [`answers_query`].
fn finish_query(buffer: Vec<u8>, length: usize, exception: fiftyoneDegreesException) -> (step:
    Step<Result<String, Error>>)
    ensures
        length == 0 ==> step == Step::<Result<String, Error>>::Done(
            Err(Error::PropertyNotFound { exception }),
        ),
        length != 0 ==> {
            &&& step matches Step::Done(Ok(text))
            &&& is_text_of(text@, buffer_content(buffer@, length as nat))
        },
{
    if length == 0 {
        Step::Done(Err(Error::PropertyNotFound { exception }))
    } else {
        Step::Done(Ok(read_text(buffer.as_slice(), length)))
    }
}

/// Two events tell a query the same: both are `Start`, or both are replies
/// with the same length and exception record whose buffers agree on the part
/// that the length covers.
pub open spec fn same_reply(first: QueryEvent, second: QueryEvent) -> bool {
    match (first, second) {
        (QueryEvent::Start, QueryEvent::Start) => true,
        (
            QueryEvent::Replied { buffer: first_buffer, length: first_length, exception: first_exception },
            QueryEvent::Replied {
                buffer: second_buffer,
                length: second_length,
                exception: second_exception,
            },
        ) => {
            &&& first_length == second_length
            &&& first_exception == second_exception
            &&& reported(first_buffer@, first_length as nat) == reported(
                second_buffer@,
                second_length as nat,
            )
        },
        _ => false,
    }
}

/// Two answers of a query say the same: the same calls, the same error, or
/// the same text.
pub open spec fn same_answer(
    first: Step<Result<String, Error>>,
    second: Step<Result<String, Error>>,
) -> bool {
    match (first, second) {
        (Step::Perform(first_script), Step::Perform(second_script)) => first_script.deep_view()
            == second_script.deep_view(),
        (Step::Done(Ok(first_text)), Step::Done(Ok(second_text))) => first_text@ == second_text@,
        (Step::Done(Err(first_error)), Step::Done(Err(second_error))) => first_error
            == second_error,
        _ => false,
    }
}

/// Asked twice for the same property of the same record, `get_value` asks the
/// engine the same question; and told twice the same, it answers the same.
/// What the buffers hold past the reported length makes no difference.
pub proof fn lemma_get_value_repeatable(
    first: Step<Result<String, Error>>,
    second: Step<Result<String, Error>>,
    results: ResultsPtr,
    name: Seq<u8>,
    first_event: QueryEvent,
    second_event: QueryEvent,
)
    requires
        answers_get_value(first, results, name, first_event),
        answers_get_value(second, results, name, second_event),
        same_reply(first_event, second_event),
    ensures
        same_answer(first, second),
{
}

/// A property for which the engine reports a length of zero is not found,
/// whatever the buffer holds; and so is one whose name cannot cross the
/// boundary. Neither ever yields a text.
pub proof fn lemma_absent_property_not_found(
    step: Step<Result<String, Error>>,
    results: ResultsPtr,
    name: Seq<u8>,
    event: QueryEvent,
)
    requires
        answers_get_value(step, results, name, event),
        has_nul(name) || (event matches QueryEvent::Replied { length, .. } && length == 0),
    ensures
        step matches Step::Done(Err(error)) && error is PropertyNotFound,
{
}

/// The first call of each query is well formed, on a handle that holds a
/// record and for a property name without a zero byte.
pub proof fn lemma_query_calls_well_formed(results: ResultsPtr, name: Seq<u8>)
    requires
        !results.spec_is_null(),
        !has_nul(name),
    ensures
        value_call(results, name).well_formed(),
        json_call(results).well_formed(),
        device_id_call(results).well_formed(),
{
}

/// A handle never goes back: once processed it is not `Created` again, and
/// once disposed of it stays so. Disposing a second time changes nothing.
pub proof fn lemma_state_never_returns(handle: HashResultsView, event: ProcessEvent)
    ensures
        handle.after_process(event).state() is Created ==> handle.state() is Created,
        handle.state() is Disposed ==> handle.after_process(event).state() is Disposed,
        handle.after_dispose().state() is Disposed,
        handle.after_dispose().after_dispose() == handle.after_dispose(),
        !handle.is_live() ==> handle.after_dispose() == handle,
{
}

/// The calls that evidence processing asks for in the course of one run, in
/// which the engine answers the allocation with `evidence`, are those of
/// [`processing_calls`]: its answer to the outcome of detection asks for none,
/// and where `evidence` is null neither does its answer to that.
pub proof fn lemma_process_asks_for_processing_calls(
    start: Step<Result<(), Error>>,
    created: Step<Result<(), Error>>,
    detected: Step<Result<(), Error>>,
    results: ResultsPtr,
    evidence: EvidencePtr,
    entries: Seq<EvidenceEntryView>,
    exception: fiftyoneDegreesException,
)
    requires
        answers_process(start, results, entries, ProcessEvent::Start),
        answers_process(created, results, entries, ProcessEvent::EvidenceCreated(evidence)),
        answers_process(detected, results, entries, ProcessEvent::Detected(exception)),
    ensures
        detected.calls() == Seq::<NativeCallView>::empty(),
        evidence.spec_is_null() ==> created.calls() == Seq::<NativeCallView>::empty(),
        start.calls() + created.calls() + detected.calls() == processing_calls(
            results,
            evidence,
            entries,
        ),
{
}

/// All the calls of one run of evidence processing, followed at once by the
/// release of a handle that holds the record `results`.
pub open spec fn process_then_dispose_calls(
    results: ResultsPtr,
    evidence: EvidencePtr,
    entries: Seq<EvidenceEntryView>,
) -> Seq<NativeCallView> {
    processing_calls(results, evidence, entries).push(NativeCallView::ResultsHashFree { results })
}

/// Evidence processing followed at once by disposal leaks nothing: the
/// collection that the engine allocated is freed exactly once, after
/// detection and before the results record; the results record is freed
/// exactly once, last of all; and where the engine allocated no collection,
/// none is freed.
pub proof fn lemma_process_then_dispose_releases_once(
    results: ResultsPtr,
    evidence: EvidencePtr,
    entries: Seq<EvidenceEntryView>,
)
    ensures
        ({
            let calls = process_then_dispose_calls(results, evidence, entries);
            let last = calls.len() - 1;
            &&& calls[last] == (NativeCallView::ResultsHashFree { results })
            &&& forall|i: int| 0 <= i < last ==> !(#[trigger] calls[i] is ResultsHashFree)
            &&& evidence.spec_is_null() ==> forall|i: int|
                0 <= i <= last ==> !(#[trigger] calls[i] is EvidenceFree)
            &&& !evidence.spec_is_null() ==> {
                &&& calls[last - 1] == (NativeCallView::EvidenceFree { evidence })
                &&& calls[last - 2] is ResultsHashFromEvidence
                &&& forall|i: int|
                    0 <= i <= last && i != last - 1 ==> !(#[trigger] calls[i] is EvidenceFree)
            }
        }),
{
    lemma_evidence_released_once(results, evidence, entries);
}

} // verus!
