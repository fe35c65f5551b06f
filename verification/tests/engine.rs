use rust_poc::fiftyoneDegreesConfigHash;
use rust_poc::fiftyoneDegreesException;
use rust_poc::fiftyoneDegreesPropertiesRequired;
use rust_poc::fiftyoneDegreesResourceManager;
use rust_poc::ConfigPreset;
use rust_poc::Error;
use rust_poc::HashEngine;
use rust_poc::InitEvent;
use rust_poc::NativeCall;
use rust_poc::Platform;
use rust_poc::Step;

const PATH: &str = "../device-detection-data/51Degrees-LiteV4.1.hash";

fn initialised(status: u32, active: usize, exception_status: u32) -> InitEvent {
    InitEvent::Initialized {
        status,
        manager: fiftyoneDegreesResourceManager { active },
        exception: fiftyoneDegreesException {
            status: exception_status,
            message: None,
            file: None,
            line: 0,
        },
    }
}

fn engine(active: usize) -> HashEngine {
    match HashEngine::new(PATH, Platform::Native, initialised(0, active, 26)) {
        Step::Done(Ok(engine)) => engine,
        other => panic!("no engine: {:?}", other),
    }
}

fn error_of(step: Step<Result<HashEngine, Error>>) -> Error {
    match step {
        Step::Done(Err(error)) => error,
        other => panic!("no error: {:?}", other),
    }
}

#[test]
fn new_begins_with_initialization_from_the_file() {
    let step = HashEngine::new(PATH, Platform::Native, InitEvent::Start);
    let mut file_name = PATH.as_bytes().to_vec();
    file_name.push(0);
    let expected = vec![NativeCall::HashInitManagerFromFile {
        config: fiftyoneDegreesConfigHash { preset: ConfigPreset::InMemory },
        properties: fiftyoneDegreesPropertiesRequired::all(),
        file_name,
        exception: fiftyoneDegreesException::not_set(),
    }];
    match step {
        Step::Perform(script) => assert_eq!(script, expected),
        other => panic!("no call: {:?}", other),
    }
}

#[test]
fn new_on_a_sandboxed_platform_asks_for_no_index() {
    match HashEngine::new("/data/db.hash", Platform::Sandboxed, InitEvent::Start) {
        Step::Perform(script) => {
            assert_eq!(script.len(), 1);
            match &script[0] {
                NativeCall::HashInitManagerFromFile { config, file_name, .. } => {
                    assert_eq!(config.preset, ConfigPreset::InMemoryNoIndex);
                    assert_eq!(file_name.as_slice(), b"/data/db.hash\0");
                }
                other => panic!("wrong call: {:?}", other),
            }
        }
        other => panic!("no call: {:?}", other),
    }
}

#[test]
fn path_with_zero_byte_is_invalid() {
    let step = HashEngine::new("data\0file.hash", Platform::Native, InitEvent::Start);
    assert_eq!(error_of(step), Error::InvalidPath);
}

#[test]
fn path_with_zero_byte_is_invalid_whatever_the_engine_said() {
    let step = HashEngine::new("data.hash\0", Platform::Native, initialised(0, 0x1000, 26));
    assert_eq!(error_of(step), Error::InvalidPath);
}

#[test]
fn success_status_and_active_manager_give_a_handle() {
    let step = HashEngine::new(PATH, Platform::Native, initialised(0, 0x5000, 26));
    match step {
        Step::Done(Ok(engine)) => {
            assert!(engine.is_usable());
            assert_eq!(engine.get_manager().active, 0x5000);
            assert_eq!(engine.config().preset, ConfigPreset::InMemory);
            assert_eq!(*engine.properties(), fiftyoneDegreesPropertiesRequired::all());
        }
        other => panic!("no engine: {:?}", other),
    }
}

#[test]
fn handle_records_the_configuration_of_its_platform() {
    match HashEngine::new(PATH, Platform::Sandboxed, initialised(0, 0x5000, 26)) {
        Step::Done(Ok(engine)) => assert!(!engine.config().has_index()),
        other => panic!("no engine: {:?}", other),
    }
}

#[test]
fn success_status_without_active_manager_is_rejected() {
    let step = HashEngine::new(PATH, Platform::Native, initialised(0, 0, 26));
    assert_eq!(
        error_of(step),
        Error::InitializationFailed { status: 0, exception: fiftyoneDegreesException::not_set() }
    );
}

#[test]
fn failure_status_with_active_manager_is_rejected() {
    let step = HashEngine::new(PATH, Platform::Native, initialised(3, 0x5000, 26));
    assert_eq!(
        error_of(step),
        Error::InitializationFailed { status: 3, exception: fiftyoneDegreesException::not_set() }
    );
}

#[test]
fn not_set_is_no_success_status() {
    let step = HashEngine::new(PATH, Platform::Native, initialised(26, 0x5000, 26));
    assert!(matches!(error_of(step), Error::InitializationFailed { status: 26, .. }));
}

#[test]
fn raised_exception_rejects_an_otherwise_good_initialization() {
    let step = HashEngine::new(PATH, Platform::Native, initialised(0, 0x5000, 5));
    match error_of(step) {
        Error::InitializationFailed { status, exception } => {
            assert_eq!(status, 0);
            assert_eq!(exception.status, 5);
        }
        other => panic!("wrong error: {:?}", other),
    }
}

#[test]
fn exception_record_that_was_written_to_rejects_initialization() {
    for exception_status in [0u32, 1, 25, 27, u32::MAX] {
        let step = HashEngine::new(PATH, Platform::Native, initialised(0, 0x5000, exception_status));
        assert!(matches!(
            error_of(step),
            Error::InitializationFailed { status: 0, .. }
        ));
    }
}

#[test]
fn initialization_failure_carries_both_codes() {
    let exception = fiftyoneDegreesException {
        status: 10,
        message: Some(String::from("The data file could not be found")),
        file: Some(String::from("hash.c")),
        line: 2011,
    };
    let event = InitEvent::Initialized {
        status: 10,
        manager: fiftyoneDegreesResourceManager { active: 0 },
        exception,
    };
    match error_of(HashEngine::new(PATH, Platform::Native, event)) {
        Error::InitializationFailed { status, exception } => {
            assert_eq!(status, 10);
            assert_eq!(exception.status, 10);
            assert_eq!(exception.message.as_deref(), Some("The data file could not be found"));
            assert_eq!(exception.file.as_deref(), Some("hash.c"));
            assert_eq!(exception.line, 2011);
        }
        other => panic!("wrong error: {:?}", other),
    }
}

#[test]
fn nonexistent_file_gives_initialization_failed() {
    let path = "/no/such/directory/missing.hash";
    let call = HashEngine::new(path, Platform::Native, InitEvent::Start);
    assert!(matches!(call, Step::Perform(_)));
    let file_not_found = 10;
    let step = HashEngine::new(path, Platform::Native, initialised(file_not_found, 0, file_not_found));
    assert!(matches!(
        error_of(step),
        Error::InitializationFailed { status: 10, .. }
    ));
}

#[test]
fn create_succeeds_exactly_when_status_and_manager_agree() {
    for status in [0u32, 1, 10, 26] {
        for active in [0usize, 1, 0xffff_0000] {
            let step = HashEngine::new(PATH, Platform::Native, initialised(status, active, 26));
            let succeeded = matches!(step, Step::Done(Ok(_)));
            assert_eq!(succeeded, status == 0 && active != 0);
            let raised = HashEngine::new(PATH, Platform::Native, initialised(status, active, 3));
            assert!(matches!(raised, Step::Done(Err(Error::InitializationFailed { .. }))));
            if !succeeded {
                assert!(matches!(
                    step,
                    Step::Done(Err(Error::InitializationFailed { .. }))
                ));
            }
        }
    }
}

#[test]
fn get_manager_mut_writes_through_to_the_handle() {
    let mut engine = engine(0x5000);
    assert_eq!(engine.get_manager_mut().active, 0x5000);
    engine.get_manager_mut().active = 0x6000;
    assert_eq!(engine.get_manager().active, 0x6000);
    assert!(engine.is_usable());
    engine.get_manager_mut().active = 0;
    assert!(!engine.is_usable());
    assert_eq!(engine.config().preset, ConfigPreset::InMemory);
}

#[test]
fn release_frees_the_manager() {
    let call = engine(0x5000).release();
    assert_eq!(
        call,
        NativeCall::ResourceManagerFree { manager: fiftyoneDegreesResourceManager { active: 0x5000 } }
    );
}
