//! The engine handle: a manager that the engine has loaded a data file into.

use crate::bindings::fiftyoneDegreesConfigHash;
use crate::bindings::fiftyoneDegreesException;
use crate::bindings::fiftyoneDegreesPropertiesRequired;
use crate::bindings::fiftyoneDegreesResourceManager;
use crate::bindings::ConfigPreset;
use crate::bindings::FIFTYONE_DEGREES_STATUS_SUCCESS;
use crate::call::single;
use crate::call::NativeCall;
use crate::call::NativeCallView;
use crate::call::Step;
use crate::error::Error;
use crate::marshal::c_string;
use crate::marshal::contains_nul;
use crate::marshal::has_nul;
use crate::marshal::to_c_string;
use vstd::prelude::*;
use vstd::string::StringSliceAdditionalSpecFns;

verus! {

/// The kind of target that the program runs on.
#[derive(Debug, Clone, Copy, PartialEq, Eq)]
pub enum Platform {
    /// An ordinary process. The engine's index is built.
    Native,
    /// A constrained or sandboxed target, on which building the index is not
    /// safe.
    Sandboxed,
}

impl Platform {
    /// The configuration to start from on this platform: with the index on a
    /// native target, without it on a sandboxed one.
    pub open spec fn spec_base_config(self) -> fiftyoneDegreesConfigHash {
        match self {
            Platform::Native => fiftyoneDegreesConfigHash { preset: ConfigPreset::InMemory },
            Platform::Sandboxed => fiftyoneDegreesConfigHash {
                preset: ConfigPreset::InMemoryNoIndex,
            },
        }
    }

    #[verifier::when_used_as_spec(spec_base_config)]
    pub fn base_config(self) -> (config: fiftyoneDegreesConfigHash)
        ensures
            config == self.spec_base_config(),
            config.spec_has_index() <==> self is Native,
    {
        match self {
            Platform::Native => fiftyoneDegreesConfigHash { preset: ConfigPreset::InMemory },
            Platform::Sandboxed => fiftyoneDegreesConfigHash {
                preset: ConfigPreset::InMemoryNoIndex,
            },
        }
    }
}

/// What [`HashEngine::new`] is told of the engine.
#[derive(Debug, PartialEq, Eq)]
pub enum InitEvent {
    /// Nothing yet: the operation begins.
    Start,
    /// Initialization returned `status`, and left the manager and the
    /// exception record as given.
    Initialized {
        status: u32,
        manager: fiftyoneDegreesResourceManager,
        exception: fiftyoneDegreesException,
    },
}

/// The initialization call for the data file at `path`, given as UTF-8 bytes.
pub open spec fn init_call(path: Seq<u8>, platform: Platform) -> NativeCallView {
    NativeCallView::HashInitManagerFromFile {
        config: platform.spec_base_config(),
        properties: fiftyoneDegreesPropertiesRequired::spec_all(),
        file_name: c_string(path),
        exception: fiftyoneDegreesException::spec_not_set(),
    }
}

/// Initialization has produced a manager that can be used: the engine
/// returned the success status, the manager holds an active data set, and the
/// exception record came back as it was handed over.
pub open spec fn init_succeeded(
    status: u32,
    manager: fiftyoneDegreesResourceManager,
    exception: fiftyoneDegreesException,
) -> bool {
    &&& status == FIFTYONE_DEGREES_STATUS_SUCCESS
    &&& manager.spec_is_active()
    &&& exception.spec_is_not_set()
}

/// Owner of one native manager, and with it of a loaded data file. It cannot
/// be copied; [`HashEngine::release`] consumes it.
#[derive(Debug)]
pub struct HashEngine {
    manager: fiftyoneDegreesResourceManager,
    config: fiftyoneDegreesConfigHash,
    properties: fiftyoneDegreesPropertiesRequired,
}

/// What a [`HashEngine`] holds.
pub struct HashEngineView {
    pub manager: fiftyoneDegreesResourceManager,
    pub config: fiftyoneDegreesConfigHash,
    pub properties: fiftyoneDegreesPropertiesRequired,
}

impl View for HashEngine {
    type V = HashEngineView;

    closed spec fn view(&self) -> HashEngineView {
        HashEngineView { manager: self.manager, config: self.config, properties: self.properties }
    }
}

impl HashEngine {
    /// Makes an engine handle from the data file at `data_file_path`.
    ///
    /// A path with a zero byte in it is refused with `InvalidPath`, whatever
    /// the event. Otherwise, at `Start` the answer is the one call to
    /// perform: initialization from that file, with the base configuration of
    /// `platform`, all properties, and an exception record that is not set.
    /// Told the outcome of that call, the answer is the handle if and only if
    /// the engine returned the success status, the manager is active and the
    /// exception record is still not set; else `InitializationFailed`, with
    /// the status and the exception record.
    pub fn new(data_file_path: &str, platform: Platform, event: InitEvent) -> (step: Step<
        Result<HashEngine, Error>,
    >)
        ensures
            step matches Step::Done(Ok(_)) <==> {
                &&& !has_nul(data_file_path.spec_bytes())
                &&& event matches InitEvent::Initialized { status, manager, exception }
                &&& init_succeeded(status, manager, exception)
            },
            has_nul(data_file_path.spec_bytes()) ==> step == Step::<
                Result<HashEngine, Error>,
            >::Done(Err(Error::InvalidPath)),
            !has_nul(data_file_path.spec_bytes()) ==> match event {
                InitEvent::Start => {
                    &&& step matches Step::Perform(script)
                    &&& script.deep_view() == seq![
                        init_call(data_file_path.spec_bytes(), platform),
                    ]
                },
                InitEvent::Initialized { status, manager, exception } => {
                    if init_succeeded(status, manager, exception) {
                        &&& step matches Step::Done(Ok(engine))
                        &&& engine@ == (HashEngineView {
                            manager,
                            config: platform.spec_base_config(),
                            properties: fiftyoneDegreesPropertiesRequired::spec_all(),
                        })
                    } else {
                        step == Step::<Result<HashEngine, Error>>::Done(
                            Err(Error::InitializationFailed { status, exception }),
                        )
                    }
                },
            },
    {
        match event {
            InitEvent::Start => match to_c_string(data_file_path) {
                None => Step::Done(Err(Error::InvalidPath)),
                Some(file_name) => Step::Perform(
                    single(
                        NativeCall::HashInitManagerFromFile {
                            config: platform.base_config(),
                            properties: fiftyoneDegreesPropertiesRequired::all(),
                            file_name,
                            exception: fiftyoneDegreesException::not_set(),
                        },
                    ),
                ),
            },
            InitEvent::Initialized { status, manager, exception } => {
                if contains_nul(data_file_path) {
                    Step::Done(Err(Error::InvalidPath))
                } else if status != FIFTYONE_DEGREES_STATUS_SUCCESS || !manager.is_active()
                    || !exception.is_not_set() {
                    Step::Done(Err(Error::InitializationFailed { status, exception }))
                } else {
                    Step::Done(
                        Ok(
                            HashEngine {
                                manager,
                                config: platform.base_config(),
                                properties: fiftyoneDegreesPropertiesRequired::all(),
                            },
                        ),
                    )
                }
            },
        }
    }

    /// The manager can be handed to the engine: it holds an active data set.
    pub open spec fn spec_is_usable(&self) -> bool {
        self@.manager.spec_is_active()
    }

    /// Whether result handles can be made on this engine.
    #[verifier::when_used_as_spec(spec_is_usable)]
    pub fn is_usable(&self) -> (usable: bool)
        ensures
            usable == self.spec_is_usable(),
    {
        self.manager.is_active()
    }

    /// The manager as the engine left it.
    pub fn get_manager(&self) -> (manager: &fiftyoneDegreesResourceManager)
        ensures
            *manager == self@.manager,
    {
        &self.manager
    }

    /// The manager, to write to. Whatever is written becomes the handle's
    /// manager; configuration and properties stay.
    pub fn get_manager_mut(&mut self) -> (manager: &mut fiftyoneDegreesResourceManager)
        ensures
            *manager == old(self)@.manager,
            final(self)@ == (HashEngineView { manager: *final(manager), ..old(self)@ }),
    {
        &mut self.manager
    }

    /// The configuration that the engine was initialized with.
    pub fn config(&self) -> (config: fiftyoneDegreesConfigHash)
        ensures
            config == self@.config,
    {
        self.config
    }

    /// The properties that the engine was initialized with.
    pub fn properties(&self) -> (properties: &fiftyoneDegreesPropertiesRequired)
        ensures
            *properties == self@.properties,
    {
        &self.properties
    }

    /// Gives the handle up. The answer is the one call that frees its
    /// manager; the handle is gone, so there cannot be a second.
    pub fn release(self) -> (call: NativeCall)
        ensures
            call@ == (NativeCallView::ResourceManagerFree { manager: self@.manager }),
    {
        NativeCall::ResourceManagerFree { manager: self.manager }
    }
}

/// Where the engine raises no exception, initialization succeeds exactly when
/// the status is success and the manager is active.
pub proof fn lemma_init_needs_status_and_manager(
    status: u32,
    manager: fiftyoneDegreesResourceManager,
    exception: fiftyoneDegreesException,
)
    requires
        exception.spec_is_not_set(),
    ensures
        init_succeeded(status, manager, exception) <==> status == FIFTYONE_DEGREES_STATUS_SUCCESS
            && manager.spec_is_active(),
{
}

/// A status and a manager that disagree are rejected, whatever else holds: a
/// success status without an active manager, and an active manager without a
/// success status.
pub proof fn lemma_init_rejects_mismatch(
    status: u32,
    manager: fiftyoneDegreesResourceManager,
    exception: fiftyoneDegreesException,
)
    requires
        (status == FIFTYONE_DEGREES_STATUS_SUCCESS) != manager.spec_is_active(),
    ensures
        !init_succeeded(status, manager, exception),
{
}

/// The initialization call is well formed for every path without a zero byte.
pub proof fn lemma_init_call_well_formed(path: Seq<u8>, platform: Platform)
    requires
        !has_nul(path),
    ensures
        init_call(path, platform).well_formed(),
{
}

} // verus!
