use test_optimization_sdk::boundary::{ArrayKind, Dispatch, EntityKind, ForeignArray, Number, Request};
use test_optimization_sdk::codec::Bool_to_bool;
use test_optimization_sdk::marshal::decode_bytes;
use test_optimization_sdk::mock_tracer::{MockSpanRecord, MockTracer};
use test_optimization_sdk::name_map::NameMap;
use test_optimization_sdk::settings::{
    EfdResponse, EfdSlowTestRetriesSettings, FlakyTestRetriesResponse, SettingsResponse,
    TestManagementResponse,
};
use test_optimization_sdk::span::Span;
use test_optimization_sdk::test::TestStatus;
use test_optimization_sdk::test_optimization::TestOptimization;
use test_optimization_sdk::test_session::TestSession;

/// A stand-in for the native side: it accepts every request, numbers what is
/// created and keeps the spans that were closed.
struct Recorder {
    log: Vec<Request>,
    next_id: u64,
    open: Vec<MockSpanRecord>,
    finished: Vec<MockSpanRecord>,
}

impl Recorder {
    fn send(&mut self, request: Request) -> u64 {
        let reply = match &request {
            Request::CreateSession { .. }
            | Request::CreateModule { .. }
            | Request::CreateSuite { .. }
            | Request::CreateTest { .. } => {
                self.next_id += 1;
                self.next_id
            }
            Request::CreateSpan { parent_id, operation_name, start, .. } => {
                self.next_id += 1;
                self.open.push(MockSpanRecord {
                    span_id: self.next_id,
                    trace_id: *parent_id,
                    parent_span_id: *parent_id,
                    start_time: *start,
                    finish_time: *start,
                    operation_name: Some(operation_name.clone()),
                    string_tags: ForeignArray::null(),
                    number_tags: ForeignArray::null(),
                });
                self.next_id
            }
            Request::Close { entity: EntityKind::Span, id, finish } => {
                let at = self.open.iter().position(|s| s.span_id == *id).unwrap();
                let mut span = self.open.remove(at);
                span.finish_time = *finish;
                self.finished.push(span);
                1
            }
            _ => 1,
        };
        self.log.push(request);
        reply
    }

    fn flag(&mut self, request: Request) -> bool {
        Bool_to_bool(self.send(request) as u8)
    }
}

#[test]
fn complete() {
    let mut native = Recorder { log: vec![], next_id: 0, open: vec![], finished: vec![] };

    // Initialize library
    assert!(native.flag(TestOptimization::init_mock().unwrap()));

    // session
    let session = TestSession::created(native.send(TestSession::create(Some("cargo test"), None).unwrap()));
    println!("Hello, world!");

    let response = SettingsResponse {
        code_coverage: 0,
        early_flake_detection: EfdResponse {
            enabled: 0,
            slow_test_retries: EfdSlowTestRetriesSettings { five_m: 0, thirty_s: 0, ten_s: 0, five_s: 0 },
            faulty_session_threshold: 0,
        },
        flaky_test_retries_enabled: 0,
        itr_enabled: 0,
        require_git: 0,
        tests_skipping: 0,
        known_tests_enabled: 0,
        test_management: TestManagementResponse { enabled: 0, attempt_to_fix_retries: 0 },
    };
    println!("{:?}", TestOptimization::get_settings(&response));
    println!(
        "{:?}",
        TestOptimization::get_flaky_test_retries_settings(&FlakyTestRetriesResponse {
            retry_count: 5,
            total_retry_count: 1000
        })
    );
    let (known, release) = TestOptimization::get_known_tests(ForeignArray::null());
    println!("{:?}", known);
    assert_eq!(release, Request::Release { array: ArrayKind::KnownTests });
    let (skippable, release) = TestOptimization::get_skippable_tests(ForeignArray::null());
    println!("{:?}", skippable);
    assert_eq!(release, Request::Release { array: ArrayKind::SkippableTests });
    let (managed, release) = TestOptimization::get_test_management_tests(ForeignArray::null());
    println!("{:?}", managed);
    assert_eq!(release, Request::Release { array: ArrayKind::TestManagementTests });

    println!("session id: {:?}", session.session_id);

    let forty_two = Number { bits: 42f64.to_bits() };
    assert!(native.flag(session.set_string_tag("Session-KeyFromRust", "Hello world").unwrap()));
    assert!(native.flag(session.set_number_tag("Session-NumberFromRust", forty_two).unwrap()));

    // Session span
    let request = Span::create(session.session_id, "my-operation-name", "my-service", "session-resource-name", "span-type");
    let session_span = Span::created(session.session_id, native.send(request.unwrap()));
    println!("span_id (from session): {:?}", session_span.span_id);
    assert!(native.flag(session_span.set_string_tag("Session-KeyFromRust", "Hello world").unwrap()));
    assert!(native.flag(session_span.set_number_tag("Session-NumberFromRust", forty_two).unwrap()));
    println!("session_span close: {}", native.flag(session_span.close()));

    // module
    let module_name = String::from("my-test-module");
    let request = session.create_module(&module_name, "Framework Name", "Framework Version");
    let module = session.module_created(native.send(request.unwrap()));
    println!("module id: {:?}", module.module_id);
    assert!(native.flag(module.set_string_tag("Module-KeyFromRust", "Hello world").unwrap()));
    assert!(native.flag(module.set_number_tag("Module-NumberFromRust", forty_two).unwrap()));

    // Module span
    let request = Span::create(module.module_id, "my-operation-name", "my-service", "module-resource-name", "span-type");
    let module_span = Span::created(module.module_id, native.send(request.unwrap()));
    println!("span_id (from module): {:?}", module_span.span_id);
    assert!(native.flag(module_span.set_string_tag("Session-KeyFromRust", "Hello world").unwrap()));
    assert!(native.flag(module_span.set_number_tag("Session-NumberFromRust", forty_two).unwrap()));
    println!("module_span close: {}", native.flag(module_span.close()));

    // suite
    let suite = module.suite_created(native.send(module.create_test_suite("My Suite").unwrap()));
    println!("suite id: {:?}", suite.suite_id);
    assert!(native.flag(suite.set_string_tag("Suite-KeyFromRust", "Hello world").unwrap()));
    assert!(native.flag(suite.set_number_tag("Suite-NumberFromRust", forty_two).unwrap()));

    // Suite span
    let request = Span::create(suite.suite_id, "my-operation-name", "my-service", "suite-resource-name", "span-type");
    let suite_span = Span::created(suite.suite_id, native.send(request.unwrap()));
    println!("span_id (from suite): {:?}", suite_span.span_id);
    assert!(native.flag(suite_span.set_string_tag("Session-KeyFromRust", "Hello world").unwrap()));
    assert!(native.flag(suite_span.set_number_tag("Session-NumberFromRust", forty_two).unwrap()));
    println!("suite_span close: {}", native.flag(suite_span.close()));

    // pass test
    let pass_test = suite.test_created(native.send(suite.create_test("My PassTest").unwrap()));
    assert!(native.flag(pass_test.set_string_tag("Pass-KeyFromRust", "Hello world").unwrap()));
    assert!(native.flag(pass_test.set_number_tag("Pass-NumberFromRust", forty_two).unwrap()));
    assert!(native.flag(pass_test.set_test_source("test.rs", Some(6), Some(58)).unwrap()));
    native.send(pass_test.set_coverage_data(&vec!["file.rs".to_string()]).unwrap());

    let mut measurement_data: NameMap<Number> = NameMap::new();
    measurement_data.insert("data1".to_string(), forty_two);
    measurement_data.insert("data2".to_string(), Number { bits: 64f64.to_bits() });
    match pass_test.set_benchmark_number_data("my_custom_measurement", &measurement_data).unwrap() {
        Dispatch::Send(request) => assert!(native.flag(request)),
        Dispatch::Settled(_) => panic!("two measurements are to be sent"),
    }

    let mut measurement_strdata: NameMap<String> = NameMap::new();
    measurement_strdata.insert("datastr1".to_string(), "MyData".to_string());
    measurement_strdata.insert("datastr2".to_string(), "MyData2".to_string());
    match pass_test.set_benchmark_string_data("my_custom_measurement", &measurement_strdata).unwrap() {
        Dispatch::Send(request) => assert!(native.flag(request)),
        Dispatch::Settled(_) => panic!("two measurements are to be sent"),
    }

    // Test span
    let request = Span::create(pass_test.test_id, "my-operation-name", "my-service", "test-resource-name", "span-type");
    let test_span = Span::created(pass_test.test_id, native.send(request.unwrap()));
    println!("span_id (from test): {:?}", test_span.span_id);
    assert!(native.flag(test_span.set_string_tag("Session-KeyFromRust", "Hello world").unwrap()));
    assert!(native.flag(test_span.set_number_tag("Session-NumberFromRust", forty_two).unwrap()));
    println!("test_span close: {}", native.flag(test_span.close()));

    println!("pass test close: {}", native.flag(pass_test.close(TestStatus::Pass)));

    // fail test
    let fail_test = suite.test_created(native.send(suite.create_test("My FailTest").unwrap()));
    assert!(native.flag(fail_test.set_string_tag("Fail-KeyFromRust", "Hello world").unwrap()));
    assert!(native.flag(fail_test.set_number_tag("Fail-NumberFromRust", forty_two).unwrap()));
    assert!(native.flag(fail_test.set_error_info("custom_error_type", "error from rust lib", "...").unwrap()));
    println!("fail test close: {}", native.flag(fail_test.close(TestStatus::Fail)));

    // skip test
    let skip_test = suite.test_created(native.send(suite.create_test("My SkipTest").unwrap()));
    assert!(native.flag(skip_test.set_string_tag("Skip-KeyFromRust", "Hello world").unwrap()));
    assert!(native.flag(skip_test.set_number_tag("Skip-KeyFromRust", forty_two).unwrap()));
    let skip_reason = String::from("skip because yes");
    println!("skip test close: {}", native.flag(skip_test.close_with_skip_reason(&skip_reason).unwrap()));

    // close everything
    println!("suite closed: {}", native.flag(suite.close()));
    println!("module closed: {}", native.flag(module.close()));
    let (close, shutdown) = session.close(0, false);
    native.send(close);
    native.send(shutdown);

    // shutdown the library
    native.send(TestOptimization::shutdown());

    let (spans, release) = MockTracer::get_finished_spans(ForeignArray::of(native.finished.clone()));
    assert_eq!(release, Request::Release { array: ArrayKind::MockSpans });
    for span in &spans {
        println!("span: {:?}", span);
    }

    assert_eq!(spans.len(), 4);
    assert!(spans.iter().all(|s| s.operation_name == "my-operation-name"));
    assert!(spans.iter().all(|s| s.start_time.not_after(&s.finish_time)));
    assert_eq!(pass_test.session_id, session.session_id);
    assert_eq!(skip_test.module_id, module.module_id);
    assert_eq!(fail_test.get_suite(), suite);
    assert!(matches!(native.log.first(), Some(Request::Initialize { use_mock_tracer: 1, .. })));
    assert_eq!(native.log.last(), Some(&Request::Shutdown));
    let skipped = native.log.iter().find_map(|r| match r {
        Request::CloseTest { status: 2, skip_reason: Some(reason), .. } => Some(decode_bytes(reason)),
        _ => None,
    });
    assert_eq!(skipped, Some("skip because yes".to_string()));
    let closes = native.log.iter().filter(|r| matches!(r, Request::CloseTest { .. })).count();
    assert_eq!(closes, 3);
}
