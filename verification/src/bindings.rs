//! The engine's records and constants, as plain values.
//!
//! A record whose layout belongs to the engine is a marker here: no value of
//! it can be made, and it is only ever named as the target of a
//! [`NativePtr`]. A record whose fields this layer reads holds them as
//! integers and strings: an address is a `usize`, with 0 for the null pointer.

use core::marker::PhantomData;
use vstd::prelude::*;

verus! {

/// Status with which the engine reports that a call succeeded.
pub const FIFTYONE_DEGREES_STATUS_SUCCESS: u32 = 0;

/// Status that an exception record holds before the engine has written to it.
pub const FIFTYONE_DEGREES_STATUS_NOT_SET: u32 = 26;

/// Prefix of an evidence entry that came from an HTTP header, as a string.
pub const FIFTYONE_DEGREES_EVIDENCE_HTTP_HEADER_STRING: u32 = 2;

/// The address of a native record of type `T`. Address 0 is the null pointer.
///
/// A `NativePtr` is only an address: it can be copied freely and owns nothing.
/// Ownership of the record behind it lies with the handle that holds it.
#[derive(Debug, PartialEq, Eq)]
pub struct NativePtr<T> {
    pub addr: usize,
    pub record: PhantomData<T>,
}

impl<T> Clone for NativePtr<T> {
    fn clone(&self) -> (p: Self)
        ensures
            p == *self,
    {
        *self
    }
}

impl<T> Copy for NativePtr<T> {

}

impl<T> NativePtr<T> {
    /// The null pointer.
    pub open spec fn spec_null() -> Self {
        NativePtr { addr: 0, record: PhantomData }
    }

    /// The pointer with address `addr`.
    pub open spec fn spec_from_addr(addr: usize) -> Self {
        NativePtr { addr, record: PhantomData }
    }

    /// The pointer is the null pointer.
    pub open spec fn spec_is_null(&self) -> bool {
        self.addr == 0
    }

    /// The null pointer.
    #[verifier::when_used_as_spec(spec_null)]
    pub fn null() -> (p: Self)
        ensures
            p == Self::spec_null(),
    {
        NativePtr { addr: 0, record: PhantomData }
    }

    /// The pointer with address `addr`.
    #[verifier::when_used_as_spec(spec_from_addr)]
    pub fn from_addr(addr: usize) -> (p: Self)
        ensures
            p == Self::spec_from_addr(addr),
    {
        NativePtr { addr, record: PhantomData }
    }

    /// Whether the pointer is the null pointer.
    #[verifier::when_used_as_spec(spec_is_null)]
    pub fn is_null(&self) -> (b: bool)
        ensures
            b == self.spec_is_null(),
    {
        self.addr == 0
    }
}

/// The engine's resource manager, of which this layer reads one field.
#[derive(Debug, PartialEq, Eq)]
pub struct fiftyoneDegreesResourceManager {
    /// Address of the active data set; 0 until initialization has succeeded.
    pub active: usize,
}

impl fiftyoneDegreesResourceManager {
    /// The manager holds an active data set.
    pub open spec fn spec_is_active(&self) -> bool {
        self.active != 0
    }

    /// Whether the manager holds an active data set.
    #[verifier::when_used_as_spec(spec_is_active)]
    pub fn is_active(&self) -> (b: bool)
        ensures
            b == self.spec_is_active(),
    {
        self.active != 0
    }
}

/// The record through which the engine reports an exception: an out-parameter
/// of every native call that can fail.
#[derive(Debug, PartialEq, Eq)]
pub struct fiftyoneDegreesException {
    /// The status that the engine wrote, or "not set".
    pub status: u32,
    /// What the engine has to say about the failure, if anything.
    pub message: Option<String>,
    /// The source file of the engine in which the exception was raised.
    pub file: Option<String>,
    /// The line in that file.
    pub line: i32,
}

impl fiftyoneDegreesException {
    /// The record as it must be handed to the engine: status "not set", no
    /// message and no source location.
    pub open spec fn spec_not_set() -> Self {
        fiftyoneDegreesException {
            status: FIFTYONE_DEGREES_STATUS_NOT_SET,
            message: None,
            file: None,
            line: 0,
        }
    }

    /// The engine has not written a status to the record.
    pub open spec fn spec_is_not_set(&self) -> bool {
        self.status == FIFTYONE_DEGREES_STATUS_NOT_SET
    }

    /// The engine has written a status other than success.
    pub open spec fn spec_is_failure(&self) -> bool {
        self.status != FIFTYONE_DEGREES_STATUS_NOT_SET && self.status
            != FIFTYONE_DEGREES_STATUS_SUCCESS
    }

    /// A fresh record, to hand to the engine with a call.
    #[verifier::when_used_as_spec(spec_not_set)]
    pub fn not_set() -> (e: Self)
        ensures
            e == Self::spec_not_set(),
    {
        fiftyoneDegreesException {
            status: FIFTYONE_DEGREES_STATUS_NOT_SET,
            message: None,
            file: None,
            line: 0,
        }
    }

    /// Whether the engine has left the record as it was handed over.
    #[verifier::when_used_as_spec(spec_is_not_set)]
    pub fn is_not_set(&self) -> (b: bool)
        ensures
            b == self.spec_is_not_set(),
    {
        self.status == FIFTYONE_DEGREES_STATUS_NOT_SET
    }

    /// Whether the engine has raised an exception: a status that is neither
    /// "not set" nor success.
    #[verifier::when_used_as_spec(spec_is_failure)]
    pub fn is_failure(&self) -> (b: bool)
        ensures
            b == self.spec_is_failure(),
    {
        self.status != FIFTYONE_DEGREES_STATUS_NOT_SET && self.status
            != FIFTYONE_DEGREES_STATUS_SUCCESS
    }
}

/// The two configurations that the engine supplies ready-made.
#[derive(Debug, Clone, Copy, PartialEq, Eq)]
pub enum ConfigPreset {
    /// Whole data set in memory, with the property-profile index.
    InMemory,
    /// Whole data set in memory, without the index.
    InMemoryNoIndex,
}

/// A hash-engine configuration. Its layout belongs to the engine: this layer
/// knows a configuration by the preset it stands for.
#[derive(Debug, Clone, Copy, PartialEq, Eq)]
pub struct fiftyoneDegreesConfigHash {
    pub preset: ConfigPreset,
}

impl fiftyoneDegreesConfigHash {
    /// The engine builds its index under this configuration.
    pub open spec fn spec_has_index(&self) -> bool {
        self.preset is InMemory
    }

    /// Whether the engine builds its index under this configuration.
    #[verifier::when_used_as_spec(spec_has_index)]
    pub fn has_index(&self) -> (b: bool)
        ensures
            b == self.spec_has_index(),
    {
        match self.preset {
            ConfigPreset::InMemory => true,
            ConfigPreset::InMemoryNoIndex => false,
        }
    }
}

/// The properties that an engine is asked to make available.
#[derive(Debug, PartialEq, Eq)]
pub struct fiftyoneDegreesPropertiesRequired {
    /// Address of an array of property names, 0 if none.
    pub array: usize,
    /// Number of names in that array.
    pub count: u32,
    /// The names as one separated string, if given that way.
    pub string: Option<String>,
    /// Address of a set of properties already in use, 0 if none.
    pub existing: usize,
}

impl fiftyoneDegreesPropertiesRequired {
    /// The selection that names no property, which the engine reads as "all".
    pub open spec fn spec_all() -> Self {
        fiftyoneDegreesPropertiesRequired { array: 0, count: 0, string: None, existing: 0 }
    }

    /// The selection of all properties.
    #[verifier::when_used_as_spec(spec_all)]
    pub fn all() -> (p: Self)
        ensures
            p == Self::spec_all(),
    {
        fiftyoneDegreesPropertiesRequired { array: 0, count: 0, string: None, existing: 0 }
    }
}

/// The engine's record of one detection. Opaque: only its address is known.
#[derive(Debug, PartialEq, Eq)]
pub struct fiftyoneDegreesResultsHash {
    _data: [u8; 0],
}

/// The engine's collection of evidence. Opaque: only its address is known.
#[derive(Debug, PartialEq, Eq)]
pub struct fiftyoneDegreesEvidenceKeyValuePairArray {
    _data: [u8; 0],
}

} // verus!
