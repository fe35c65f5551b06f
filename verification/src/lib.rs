//! Verified core of a safety layer between application code and a native
//! device-detection engine.
//!
//! The engine is reached through a C interface that this crate never calls
//! itself. Every operation is a step function: given what the engine last
//! answered, it says which native calls to perform next, or what the operation
//! returns. The caller performs the calls and hands back the answer.
#![allow(non_camel_case_types)]

pub mod bindings;
pub mod call;
pub mod engine;
pub mod error;
pub mod evidence;
pub mod marshal;
pub mod results;

pub use bindings::fiftyoneDegreesConfigHash;
pub use bindings::fiftyoneDegreesEvidenceKeyValuePairArray;
pub use bindings::fiftyoneDegreesException;
pub use bindings::fiftyoneDegreesPropertiesRequired;
pub use bindings::fiftyoneDegreesResourceManager;
pub use bindings::fiftyoneDegreesResultsHash;
pub use bindings::ConfigPreset;
pub use bindings::NativePtr;
pub use bindings::FIFTYONE_DEGREES_EVIDENCE_HTTP_HEADER_STRING;
pub use bindings::FIFTYONE_DEGREES_STATUS_NOT_SET;
pub use bindings::FIFTYONE_DEGREES_STATUS_SUCCESS;
pub use call::EvidencePtr;
pub use call::NativeCall;
pub use call::NativeCallView;
pub use call::ResultsPtr;
pub use call::Step;
pub use engine::HashEngine;
pub use engine::HashEngineView;
pub use engine::InitEvent;
pub use engine::Platform;
pub use error::Error;
pub use evidence::EvidenceEntry;
pub use evidence::EvidenceEntryView;
pub use results::CreateEvent;
pub use results::DeviceIdEvent;
pub use results::HashResults;
pub use results::HashResultsView;
pub use results::ProcessEvent;
pub use results::QueryEvent;
pub use results::ResultsState;
pub use results::DEFAULT_OVERRIDES_CAPACITY;
pub use results::DEVICE_ID_BUFFER_LENGTH;
pub use results::JSON_BUFFER_LENGTH;
pub use results::VALUE_BUFFER_LENGTH;
pub use results::VALUE_SEPARATOR;
