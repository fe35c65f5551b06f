use rust_poc::fiftyoneDegreesException;
use rust_poc::fiftyoneDegreesResourceManager;
use rust_poc::CreateEvent;
use rust_poc::DeviceIdEvent;
use rust_poc::Error;
use rust_poc::EvidenceEntry;
use rust_poc::EvidencePtr;
use rust_poc::HashEngine;
use rust_poc::HashResults;
use rust_poc::InitEvent;
use rust_poc::NativeCall;
use rust_poc::Platform;
use rust_poc::ProcessEvent;
use rust_poc::QueryEvent;
use rust_poc::ResultsPtr;
use rust_poc::ResultsState;
use rust_poc::Step;
use rust_poc::DEFAULT_OVERRIDES_CAPACITY;
use rust_poc::DEVICE_ID_BUFFER_LENGTH;
use rust_poc::JSON_BUFFER_LENGTH;
use rust_poc::VALUE_BUFFER_LENGTH;
use rust_poc::VALUE_SEPARATOR;

const RESULTS: usize = 0x2000;
const EVIDENCE: usize = 0x3000;

fn engine() -> HashEngine {
    let event = InitEvent::Initialized {
        status: 0,
        manager: fiftyoneDegreesResourceManager { active: 0x1000 },
        exception: fiftyoneDegreesException::not_set(),
    };
    match HashEngine::new("51Degrees-LiteV4.1.hash", Platform::Native, event) {
        Step::Done(Ok(engine)) => engine,
        other => panic!("no engine: {:?}", other),
    }
}

fn results(engine: &HashEngine) -> HashResults<'_> {
    let event = CreateEvent::Created(ResultsPtr::from_addr(RESULTS));
    match HashResults::new(engine, DEFAULT_OVERRIDES_CAPACITY, event) {
        Step::Done(Ok(results)) => results,
        other => panic!("no results: {:?}", other),
    }
}

fn exception_with(status: u32) -> fiftyoneDegreesException {
    fiftyoneDegreesException { status, message: None, file: None, line: 0 }
}

fn buffer_with(content: &[u8], length: usize) -> Vec<u8> {
    let mut buffer = vec![0u8; length];
    buffer[..content.len()].copy_from_slice(content);
    buffer
}

fn replied(content: &[u8], length: usize) -> QueryEvent {
    QueryEvent::Replied {
        buffer: buffer_with(content, VALUE_BUFFER_LENGTH),
        length,
        exception: fiftyoneDegreesException::not_set(),
    }
}

fn entries(count: usize) -> Vec<EvidenceEntry> {
    let mut entries = Vec::new();
    for index in 0..count {
        match EvidenceEntry::new(2, "header", &format!("value {}", index)) {
            Some(entry) => entries.push(entry),
            None => panic!("no entry"),
        }
    }
    entries
}

#[test]
fn default_overrides_capacity_is_one() {
    assert_eq!(DEFAULT_OVERRIDES_CAPACITY, 1);
}

#[test]
fn buffers_have_their_fixed_lengths() {
    assert_eq!(VALUE_BUFFER_LENGTH, 1024);
    assert_eq!(JSON_BUFFER_LENGTH, 8192);
    assert_eq!(DEVICE_ID_BUFFER_LENGTH, 100);
    assert_eq!(VALUE_SEPARATOR, b',');
}

#[test]
fn new_begins_with_the_allocation() {
    let engine = engine();
    match HashResults::new(&engine, 1, CreateEvent::Start) {
        Step::Perform(script) => {
            assert_eq!(script, vec![NativeCall::ResultsHashCreate { overrides_capacity: 1 }]);
        }
        other => panic!("no call: {:?}", other),
    }
    match HashResults::new(&engine, 12, CreateEvent::Start) {
        Step::Perform(script) => {
            assert_eq!(script, vec![NativeCall::ResultsHashCreate { overrides_capacity: 12 }]);
        }
        other => panic!("no call: {:?}", other),
    }
}

#[test]
fn null_results_pointer_is_resource_exhausted() {
    let engine = engine();
    let step = HashResults::new(&engine, 1, CreateEvent::Created(ResultsPtr::null()));
    assert!(matches!(step, Step::Done(Err(Error::ResourceExhausted))));
}

#[test]
fn new_handle_is_created_and_live() {
    let engine = engine();
    let results = HashResults::new(&engine, 5, CreateEvent::Created(ResultsPtr::from_addr(0x77)));
    match results {
        Step::Done(Ok(results)) => {
            assert_eq!(results.state(), ResultsState::Created);
            assert!(results.is_live());
            assert_eq!(results.overrides_capacity(), 5);
            assert_eq!(results.engine().get_manager().active, 0x1000);
        }
        other => panic!("no results: {:?}", other),
    }
}

#[test]
fn many_handles_share_one_engine() {
    let engine = engine();
    let mut first = results(&engine);
    let second = results(&engine);
    let step = first.process(&entries(1), ProcessEvent::Detected(fiftyoneDegreesException::not_set()));
    assert_eq!(step, Step::Done(Ok(())));
    assert_eq!(first.state(), ResultsState::Processed);
    assert_eq!(second.state(), ResultsState::Created);
}

#[test]
fn process_begins_with_a_collection_sized_to_the_entries() {
    let engine = engine();
    let mut results = results(&engine);
    for (count, capacity) in [(0usize, 1u32), (1, 1), (2, 2), (9, 9)] {
        let step = results.process(&entries(count), ProcessEvent::Start);
        assert_eq!(step, Step::Perform(vec![NativeCall::EvidenceCreate { capacity }]));
    }
    assert_eq!(results.state(), ResultsState::Created);
}

#[test]
fn process_without_a_collection_is_resource_exhausted() {
    let engine = engine();
    let mut results = results(&engine);
    let step = results.process(&entries(1), ProcessEvent::EvidenceCreated(EvidencePtr::null()));
    assert_eq!(step, Step::Done(Err(Error::ResourceExhausted)));
    assert_eq!(results.state(), ResultsState::Created);
}

#[test]
fn process_with_a_collection_performs_the_detection_script() {
    let engine = engine();
    let mut results = results(&engine);
    let evidence = EvidencePtr::from_addr(EVIDENCE);
    let step = results.process(&entries(2), ProcessEvent::EvidenceCreated(evidence));
    let expected = vec![
        NativeCall::EvidenceAddString {
            evidence,
            prefix: 2,
            field: b"header\0".to_vec(),
            original_value: b"value 0\0".to_vec(),
        },
        NativeCall::EvidenceAddString {
            evidence,
            prefix: 2,
            field: b"header\0".to_vec(),
            original_value: b"value 1\0".to_vec(),
        },
        NativeCall::ResultsHashFromEvidence {
            results: ResultsPtr::from_addr(RESULTS),
            evidence,
            exception: fiftyoneDegreesException::not_set(),
        },
        NativeCall::EvidenceFree { evidence },
    ];
    assert_eq!(step, Step::Perform(expected));
    assert_eq!(results.state(), ResultsState::Created);
}

#[test]
fn detection_without_exception_makes_the_handle_processed() {
    let engine = engine();
    let mut results = results(&engine);
    let step = results.process(&entries(1), ProcessEvent::Detected(exception_with(26)));
    assert_eq!(step, Step::Done(Ok(())));
    assert_eq!(results.state(), ResultsState::Processed);
}

#[test]
fn detection_with_explicit_success_makes_the_handle_processed() {
    let engine = engine();
    let mut results = results(&engine);
    let step = results.process(&entries(1), ProcessEvent::Detected(exception_with(0)));
    assert_eq!(step, Step::Done(Ok(())));
    assert_eq!(results.state(), ResultsState::Processed);
}

#[test]
fn detection_with_a_failure_status_is_processing_failed() {
    let engine = engine();
    let mut results = results(&engine);
    let exception = fiftyoneDegreesException {
        status: 4,
        message: Some(String::from("Insufficient memory")),
        file: Some(String::from("results-hash.c")),
        line: 77,
    };
    let step = results.process(&entries(1), ProcessEvent::Detected(exception));
    let expected = fiftyoneDegreesException {
        status: 4,
        message: Some(String::from("Insufficient memory")),
        file: Some(String::from("results-hash.c")),
        line: 77,
    };
    assert_eq!(step, Step::Done(Err(Error::ProcessingFailed { exception: expected })));
    assert_eq!(results.state(), ResultsState::Created);
}

#[test]
fn failed_processing_keeps_a_processed_handle_processed() {
    let engine = engine();
    let mut results = results(&engine);
    let first = results.process(&entries(1), ProcessEvent::Detected(exception_with(26)));
    assert_eq!(first, Step::Done(Ok(())));
    let second = results.process(&entries(1), ProcessEvent::Detected(exception_with(9)));
    assert!(matches!(second, Step::Done(Err(Error::ProcessingFailed { .. }))));
    assert_eq!(results.state(), ResultsState::Processed);
}

#[test]
fn processing_again_stays_processed() {
    let engine = engine();
    let mut results = results(&engine);
    for _ in 0..3 {
        let step = results.process(&entries(2), ProcessEvent::Start);
        assert!(matches!(step, Step::Perform(_)));
        let step = results.process(&entries(2), ProcessEvent::Detected(exception_with(26)));
        assert_eq!(step, Step::Done(Ok(())));
        assert_eq!(results.state(), ResultsState::Processed);
    }
}

#[test]
fn process_user_agent_sends_one_http_header_entry() {
    let engine = engine();
    let mut results = results(&engine);
    let user_agent = "Mozilla/5.0 (iPhone; CPU iPhone OS 15_0 like Mac OS X) AppleWebKit/605.1.15";
    let start = results.process_user_agent(user_agent, ProcessEvent::Start);
    assert_eq!(start, Step::Perform(vec![NativeCall::EvidenceCreate { capacity: 1 }]));
    let evidence = EvidencePtr::from_addr(EVIDENCE);
    let script = results.process_user_agent(user_agent, ProcessEvent::EvidenceCreated(evidence));
    let mut value = user_agent.as_bytes().to_vec();
    value.push(0);
    let expected = vec![
        NativeCall::EvidenceAddString {
            evidence,
            prefix: 1 << 1,
            field: b"user-agent\0".to_vec(),
            original_value: value,
        },
        NativeCall::ResultsHashFromEvidence {
            results: ResultsPtr::from_addr(RESULTS),
            evidence,
            exception: fiftyoneDegreesException::not_set(),
        },
        NativeCall::EvidenceFree { evidence },
    ];
    assert_eq!(script, Step::Perform(expected));
    let done = results.process_user_agent(user_agent, ProcessEvent::Detected(exception_with(26)));
    assert_eq!(done, Step::Done(Ok(())));
    assert_eq!(results.state(), ResultsState::Processed);
}

#[test]
fn process_user_agent_without_a_collection_is_resource_exhausted() {
    let engine = engine();
    let mut results = results(&engine);
    let step = results.process_user_agent("curl/8.0", ProcessEvent::EvidenceCreated(EvidencePtr::null()));
    assert_eq!(step, Step::Done(Err(Error::ResourceExhausted)));
}

#[test]
fn get_value_begins_with_the_query() {
    let engine = engine();
    let results = results(&engine);
    let step = results.get_value("IsMobile", QueryEvent::Start);
    let expected = vec![NativeCall::ResultsHashGetValuesString {
        results: ResultsPtr::from_addr(RESULTS),
        property_name: b"IsMobile\0".to_vec(),
        buffer: vec![0u8; 1024],
        separator: b",\0".to_vec(),
        exception: fiftyoneDegreesException::not_set(),
    }];
    assert_eq!(step, Step::Perform(expected));
}

#[test]
fn get_value_returns_the_reported_bytes_as_text() {
    let engine = engine();
    let results = results(&engine);
    let step = results.get_value("IsMobile", replied(b"True", 4));
    assert_eq!(step, Step::Done(Ok(String::from("True"))));
}

#[test]
fn get_value_strips_trailing_zero_padding() {
    let engine = engine();
    let results = results(&engine);
    let step = results.get_value("PlatformName", replied(b"Android", 8));
    assert_eq!(step, Step::Done(Ok(String::from("Android"))));
    let step = results.get_value("PlatformName", replied(b"Android", 1024));
    assert_eq!(step, Step::Done(Ok(String::from("Android"))));
}

#[test]
fn get_value_truncates_to_the_reported_length() {
    let engine = engine();
    let results = results(&engine);
    let step = results.get_value("BrowserName", replied(b"Chrome Mobile", 6));
    assert_eq!(step, Step::Done(Ok(String::from("Chrome"))));
}

#[test]
fn get_value_caps_an_overlong_length_at_the_buffer() {
    let engine = engine();
    let results = results(&engine);
    let step = results.get_value("BrowserName", replied(b"Safari", 5000));
    assert_eq!(step, Step::Done(Ok(String::from("Safari"))));
}

#[test]
fn get_value_keeps_separated_values() {
    let engine = engine();
    let results = results(&engine);
    let step = results.get_value("Languages", replied(b"en,fr,de", 8));
    assert_eq!(step, Step::Done(Ok(String::from("en,fr,de"))));
}

#[test]
fn get_value_replaces_invalid_utf8() {
    let engine = engine();
    let results = results(&engine);
    let step = results.get_value("HardwareName", replied(b"Gal\xffaxy", 7));
    assert_eq!(step, Step::Done(Ok(String::from("Gal\u{fffd}axy"))));
}

#[test]
fn zero_length_is_property_not_found() {
    let engine = engine();
    let results = results(&engine);
    let step = results.get_value("NoSuchProperty", replied(b"", 0));
    assert_eq!(
        step,
        Step::Done(Err(Error::PropertyNotFound { exception: fiftyoneDegreesException::not_set() }))
    );
}

#[test]
fn zero_length_is_not_found_even_over_a_dirty_buffer() {
    let engine = engine();
    let results = results(&engine);
    let event = QueryEvent::Replied {
        buffer: vec![b'x'; 1024],
        length: 0,
        exception: exception_with(26),
    };
    let step = results.get_value("NoSuchProperty", event);
    assert!(matches!(step, Step::Done(Err(Error::PropertyNotFound { .. }))));
}

#[test]
fn property_not_found_carries_the_exception() {
    let engine = engine();
    let results = results(&engine);
    let event = QueryEvent::Replied {
        buffer: vec![0u8; 1024],
        length: 0,
        exception: exception_with(14),
    };
    let step = results.get_value("IsMobile", event);
    assert_eq!(step, Step::Done(Err(Error::PropertyNotFound { exception: exception_with(14) })));
}

#[test]
fn property_name_with_zero_byte_is_not_found() {
    let engine = engine();
    let results = results(&engine);
    let not_found =
        Step::Done(Err(Error::PropertyNotFound { exception: fiftyoneDegreesException::not_set() }));
    assert_eq!(results.get_value("Is\0Mobile", QueryEvent::Start), not_found);
    assert_eq!(results.get_value("Is\0Mobile", replied(b"True", 4)), not_found);
}

#[test]
fn get_value_twice_gives_the_same_string() {
    let engine = engine();
    let mut results = results(&engine);
    let done = results.process(&entries(1), ProcessEvent::Detected(exception_with(26)));
    assert_eq!(done, Step::Done(Ok(())));
    let first_call = results.get_value("IsMobile", QueryEvent::Start);
    let second_call = results.get_value("IsMobile", QueryEvent::Start);
    assert_eq!(first_call, second_call);
    let first = results.get_value("IsMobile", replied(b"True", 4));
    let mut dirty = vec![0xaau8; 1024];
    dirty[..4].copy_from_slice(b"True");
    let second = results.get_value(
        "IsMobile",
        QueryEvent::Replied { buffer: dirty, length: 4, exception: exception_with(26) },
    );
    assert_eq!(first, second);
    assert_eq!(first, Step::Done(Ok(String::from("True"))));
    assert_eq!(results.state(), ResultsState::Processed);
}

#[test]
fn queries_are_answered_before_any_evidence() {
    let engine = engine();
    let results = results(&engine);
    assert_eq!(results.state(), ResultsState::Created);
    assert!(matches!(results.get_value("IsMobile", QueryEvent::Start), Step::Perform(_)));
    assert!(matches!(
        results.get_value("IsMobile", replied(b"", 0)),
        Step::Done(Err(Error::PropertyNotFound { .. }))
    ));
    assert_eq!(results.state(), ResultsState::Created);
}

#[test]
fn get_all_values_json_begins_with_the_query() {
    let engine = engine();
    let results = results(&engine);
    let step = results.get_all_values_json(QueryEvent::Start);
    let expected = vec![NativeCall::ResultsHashGetValuesJson {
        results: ResultsPtr::from_addr(RESULTS),
        buffer: vec![0u8; 8192],
        exception: fiftyoneDegreesException::not_set(),
    }];
    assert_eq!(step, Step::Perform(expected));
}

#[test]
fn get_all_values_json_returns_the_document() {
    let engine = engine();
    let results = results(&engine);
    let document = br#"{"IsMobile":"True","PlatformName":"Android"}"#;
    let event = QueryEvent::Replied {
        buffer: buffer_with(document, JSON_BUFFER_LENGTH),
        length: document.len(),
        exception: exception_with(26),
    };
    let step = results.get_all_values_json(event);
    assert_eq!(
        step,
        Step::Done(Ok(String::from(r#"{"IsMobile":"True","PlatformName":"Android"}"#)))
    );
}

#[test]
fn get_all_values_json_of_length_zero_is_an_error() {
    let engine = engine();
    let results = results(&engine);
    let event = QueryEvent::Replied {
        buffer: vec![0u8; 8192],
        length: 0,
        exception: exception_with(5),
    };
    let step = results.get_all_values_json(event);
    assert_eq!(step, Step::Done(Err(Error::PropertyNotFound { exception: exception_with(5) })));
}

#[test]
fn get_device_id_begins_with_the_query() {
    let engine = engine();
    let results = results(&engine);
    let step = results.get_device_id(DeviceIdEvent::Start);
    let expected = vec![NativeCall::HashGetDeviceIdFromResults {
        results: ResultsPtr::from_addr(RESULTS),
        buffer: vec![0u8; 100],
        exception: fiftyoneDegreesException::not_set(),
    }];
    assert_eq!(step, Step::Perform(expected));
}

#[test]
fn get_device_id_returns_the_identifier() {
    let engine = engine();
    let results = results(&engine);
    let event = DeviceIdEvent::Replied {
        buffer: buffer_with(b"12280-81243-82102-0", DEVICE_ID_BUFFER_LENGTH),
        length: 19,
        exception: exception_with(26),
    };
    let step = results.get_device_id(event);
    assert_eq!(step, Step::Done(Ok(String::from("12280-81243-82102-0"))));
}

#[test]
fn get_device_id_of_length_zero_is_the_empty_text() {
    let engine = engine();
    let results = results(&engine);
    let event = DeviceIdEvent::Replied {
        buffer: vec![0u8; 100],
        length: 0,
        exception: exception_with(26),
    };
    assert_eq!(results.get_device_id(event), Step::Done(Ok(String::new())));
}

#[test]
fn get_device_id_of_negative_length_is_the_empty_text() {
    let engine = engine();
    let results = results(&engine);
    let event = DeviceIdEvent::Replied {
        buffer: buffer_with(b"0-0-0-0", DEVICE_ID_BUFFER_LENGTH),
        length: -1,
        exception: exception_with(26),
    };
    assert_eq!(results.get_device_id(event), Step::Done(Ok(String::new())));
}

#[test]
fn get_device_id_is_ok_whatever_the_exception() {
    let engine = engine();
    let results = results(&engine);
    let event = DeviceIdEvent::Replied {
        buffer: buffer_with(b"0-0-0-0", DEVICE_ID_BUFFER_LENGTH),
        length: 100,
        exception: exception_with(3),
    };
    assert_eq!(results.get_device_id(event), Step::Done(Ok(String::from("0-0-0-0"))));
}

#[test]
fn dispose_frees_the_record_once() {
    let engine = engine();
    let mut results = results(&engine);
    let call = results.dispose();
    assert_eq!(call, Some(NativeCall::ResultsHashFree { results: ResultsPtr::from_addr(RESULTS) }));
    assert_eq!(results.state(), ResultsState::Disposed);
    assert!(!results.is_live());
}

#[test]
fn dispose_of_a_disposed_handle_does_nothing() {
    let engine = engine();
    let mut results = results(&engine);
    assert!(results.dispose().is_some());
    assert_eq!(results.dispose(), None);
    assert_eq!(results.dispose(), None);
    assert_eq!(results.state(), ResultsState::Disposed);
    assert_eq!(results.overrides_capacity(), DEFAULT_OVERRIDES_CAPACITY);
}

#[test]
fn dispose_of_a_processed_handle_frees_the_record() {
    let engine = engine();
    let mut results = results(&engine);
    let done = results.process(&entries(1), ProcessEvent::Detected(exception_with(26)));
    assert_eq!(done, Step::Done(Ok(())));
    let call = results.dispose();
    assert_eq!(call, Some(NativeCall::ResultsHashFree { results: ResultsPtr::from_addr(RESULTS) }));
    assert_eq!(results.state(), ResultsState::Disposed);
}

#[test]
fn engine_can_be_released_after_its_results() {
    let engine = engine();
    {
        let mut results = results(&engine);
        assert!(results.dispose().is_some());
    }
    let call = engine.release();
    assert!(matches!(call, NativeCall::ResourceManagerFree { .. }));
}
