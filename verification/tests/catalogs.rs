use test_optimization_sdk::boundary::{ArrayKind, ForeignArray, Request};
use test_optimization_sdk::catalogs::{
    decode_known_tests, decode_skippable_tests, KnownTestRecord, SkippableTest,
    SkippableTestRecord, TestManagementRecord, TestManagementTest,
};
use test_optimization_sdk::management::decode_test_management_tests;
use test_optimization_sdk::settings::{
    EfDSettings, EfdResponse, EfdSlowTestRetriesSettings, FlakyTestRetriesResponse,
    FlakyTestRetriesSettings, Settings, SettingsResponse, TestManagementResponse,
    TestManagementSettings,
};
use test_optimization_sdk::test_optimization::TestOptimization;
use test_optimization_sdk::test_session::TestSession;

fn c(s: &str) -> Option<Vec<u8>> {
    let mut v = s.as_bytes().to_vec();
    v.push(0);
    Some(v)
}

fn known(m: &str, s: &str, t: &str) -> KnownTestRecord {
    KnownTestRecord { module_name: c(m), suite_name: c(s), test_name: c(t) }
}

fn strings(items: &[&str]) -> Vec<String> {
    items.iter().map(|s| s.to_string()).collect()
}

#[test]
fn known_tests_from_null_array_are_empty() {
    let (tests, release) = TestOptimization::get_known_tests(ForeignArray::null());
    assert_eq!(tests.groups().len(), 0);
    assert_eq!(tests.get("m", "s"), None);
    assert_eq!(release, Request::Release { array: ArrayKind::KnownTests });
}

#[test]
fn known_tests_from_zero_length_array_are_empty() {
    let (tests, release) = TestOptimization::get_known_tests(ForeignArray::of(vec![]));
    assert_eq!(tests.groups().len(), 0);
    assert_eq!(release, Request::Release { array: ArrayKind::KnownTests });
    let (again, _) = decode_known_tests(ForeignArray { records: None });
    assert_eq!(again, tests);
}

#[test]
fn known_tests_are_grouped_by_module_and_suite() {
    let array = ForeignArray::of(vec![
        known("m1", "s1", "t1"),
        known("m2", "s1", "t2"),
        known("m1", "s2", "t3"),
        known("m1", "s1", "t4"),
        known("m1", "s1", "t1"),
    ]);
    let (tests, release) = TestOptimization::get_known_tests(array);
    assert_eq!(release, Request::Release { array: ArrayKind::KnownTests });
    assert_eq!(tests.get("m1", "s1"), Some(&strings(&["t1", "t4", "t1"])));
    assert_eq!(tests.get("m1", "s2"), Some(&strings(&["t3"])));
    assert_eq!(tests.get("m2", "s1"), Some(&strings(&["t2"])));
    assert_eq!(tests.get("m2", "s2"), None);
    assert_eq!(tests.get("m3", "s1"), None);
    let groups = tests.groups();
    assert_eq!(groups.len(), 2);
    assert_eq!(groups.entry(0).unwrap().0, "m1");
    assert_eq!(groups.entry(1).unwrap().0, "m2");
    assert_eq!(groups.get("m1").unwrap().len(), 2);
    assert_eq!(groups.get("m2").unwrap().len(), 1);
}

#[test]
fn known_tests_with_null_names_read_as_empty_names() {
    let array = ForeignArray::of(vec![
        KnownTestRecord { module_name: None, suite_name: c("s"), test_name: None },
        KnownTestRecord { module_name: c(""), suite_name: c("s"), test_name: c("t") },
    ]);
    let (tests, _) = decode_known_tests(array);
    assert_eq!(tests.get("", "s"), Some(&strings(&["", "t"])));
    assert_eq!(tests.groups().len(), 1);
}

#[test]
fn session_reads_known_tests_like_the_facade() {
    let session = TestSession::created(1);
    let records = vec![known("m", "s", "a"), known("m", "s", "b")];
    let (from_session, release) = session.get_known_tests(ForeignArray::of(records.clone()));
    let (from_facade, _) = TestOptimization::get_known_tests(ForeignArray::of(records));
    assert_eq!(from_session, from_facade);
    assert_eq!(release, Request::Release { array: ArrayKind::KnownTests });
}

fn skippable(s: &str, t: &str, p: &str, j: &str) -> SkippableTestRecord {
    SkippableTestRecord { suite_name: c(s), test_name: c(t), parameters: c(p), custom_configurations_json: c(j) }
}

fn skip(s: &str, t: &str, p: &str, j: &str) -> SkippableTest {
    SkippableTest {
        suite_name: s.to_string(),
        test_name: t.to_string(),
        parameters: p.to_string(),
        custom_configurations_json: j.to_string(),
    }
}

#[test]
fn skippable_tests_are_grouped_by_suite_and_name() {
    let array = ForeignArray::of(vec![
        skippable("s1", "t1", "a=1", "{}"),
        skippable("s2", "t1", "", ""),
        skippable("s1", "t1", "a=2", "{\"a\":1}"),
        skippable("s1", "t2", "b=1", "{}"),
    ]);
    let (tests, release) = TestOptimization::get_skippable_tests(array);
    assert_eq!(release, Request::Release { array: ArrayKind::SkippableTests });
    assert_eq!(
        tests.get("s1", "t1"),
        Some(&vec![skip("s1", "t1", "a=1", "{}"), skip("s1", "t1", "a=2", "{\"a\":1}")])
    );
    assert_eq!(tests.get("s1", "t2"), Some(&vec![skip("s1", "t2", "b=1", "{}")]));
    assert_eq!(tests.get("s2", "t1"), Some(&vec![skip("s2", "t1", "", "")]));
    assert_eq!(tests.get("s2", "t2"), None);
    assert_eq!(tests.groups().len(), 2);
}

#[test]
fn skippable_tests_from_empty_arrays_are_empty() {
    let (a, ra) = decode_skippable_tests(ForeignArray::null());
    let (b, rb) = TestSession::created(1).get_skippable_tests(ForeignArray::of(vec![]));
    assert_eq!(a.groups().len(), 0);
    assert_eq!(a, b);
    assert_eq!(ra, rb);
    let nulls = SkippableTestRecord { suite_name: None, test_name: None, parameters: None, custom_configurations_json: None };
    let (c, _) = decode_skippable_tests(ForeignArray::of(vec![nulls]));
    assert_eq!(c.get("", ""), Some(&vec![skip("", "", "", "")]));
}

fn managed(m: &str, s: &str, t: &str, q: u8, d: u8, a: u8) -> TestManagementRecord {
    TestManagementRecord { module_name: c(m), suite_name: c(s), test_name: c(t), quarantined: q, disabled: d, attempt_to_fix: a }
}

fn management_test(m: &str, s: &str, t: &str, q: bool, d: bool, a: bool) -> TestManagementTest {
    TestManagementTest {
        module_name: m.to_string(),
        suite_name: s.to_string(),
        test_name: t.to_string(),
        quarantined: q,
        disabled: d,
        attempt_to_fix: a,
    }
}

#[test]
fn test_management_keeps_the_first_record_of_a_test() {
    let array = ForeignArray::of(vec![
        managed("m", "s", "t", 1, 0, 0),
        managed("m", "s", "u", 0, 2, 0),
        managed("m", "s", "t", 0, 1, 1),
        managed("m", "r", "t", 0, 0, 255),
        managed("n", "s", "t", 0, 0, 0),
    ]);
    let (tests, release) = TestOptimization::get_test_management_tests(array);
    assert_eq!(release, Request::Release { array: ArrayKind::TestManagementTests });
    assert_eq!(tests.get("m", "s", "t"), Some(&management_test("m", "s", "t", true, false, false)));
    assert_eq!(tests.get("m", "s", "u"), Some(&management_test("m", "s", "u", false, true, false)));
    assert_eq!(tests.get("m", "r", "t"), Some(&management_test("m", "r", "t", false, false, true)));
    assert_eq!(tests.get("n", "s", "t"), Some(&management_test("n", "s", "t", false, false, false)));
    assert_eq!(tests.get("n", "s", "u"), None);
    assert_eq!(tests.get("n", "r", "t"), None);
    assert_eq!(tests.get("o", "s", "t"), None);
    let modules = tests.modules();
    assert_eq!(modules.len(), 2);
    assert_eq!(modules.get("m").unwrap().len(), 2);
    assert_eq!(modules.get("m").unwrap().get("s").unwrap().len(), 2);
}

#[test]
fn test_management_from_empty_arrays_is_empty() {
    let (a, ra) = decode_test_management_tests(ForeignArray::null());
    let (b, rb) = TestSession::created(1).get_test_management_tests(ForeignArray::of(vec![]));
    assert_eq!(a.modules().len(), 0);
    assert_eq!(a, b);
    assert_eq!(ra, Request::Release { array: ArrayKind::TestManagementTests });
    assert_eq!(ra, rb);
}

fn response() -> SettingsResponse {
    SettingsResponse {
        code_coverage: 1,
        early_flake_detection: EfdResponse {
            enabled: 0,
            slow_test_retries: EfdSlowTestRetriesSettings { five_m: 1, thirty_s: 2, ten_s: 3, five_s: 4 },
            faulty_session_threshold: 30,
        },
        flaky_test_retries_enabled: 255,
        itr_enabled: 0,
        require_git: 2,
        tests_skipping: 0,
        known_tests_enabled: 1,
        test_management: TestManagementResponse { enabled: 7, attempt_to_fix_retries: -5 },
    }
}

#[test]
fn settings_are_read_field_by_field() {
    let expected = Settings {
        code_coverage: true,
        early_flake_detection: EfDSettings {
            enabled: false,
            slow_test_retries: EfdSlowTestRetriesSettings { five_m: 1, thirty_s: 2, ten_s: 3, five_s: 4 },
            faulty_session_threshold: 30,
        },
        flaky_test_retries_enabled: true,
        itr_enabled: false,
        require_git: true,
        tests_skipping: false,
        known_tests_enabled: true,
        test_management: TestManagementSettings { enabled: true, attempt_to_fix_retries: -5 },
    };
    assert_eq!(TestOptimization::get_settings(&response()), expected);
    assert_eq!(TestSession::created(1).get_settings(&response()), expected);
    assert_eq!(Settings::from_response(&response()), expected);
}

#[test]
fn settings_flags_flip_one_by_one() {
    let mut r = response();
    r.code_coverage = 0;
    r.itr_enabled = 1;
    r.tests_skipping = 9;
    r.early_flake_detection.enabled = 1;
    r.test_management.enabled = 0;
    let s = TestOptimization::get_settings(&r);
    assert!(!s.code_coverage);
    assert!(s.itr_enabled);
    assert!(s.tests_skipping);
    assert!(s.early_flake_detection.enabled);
    assert!(!s.test_management.enabled);
    assert!(s.flaky_test_retries_enabled);
    assert!(s.require_git);
    assert!(s.known_tests_enabled);
}

#[test]
fn flaky_retry_settings_are_copied() {
    let r = FlakyTestRetriesResponse { retry_count: 5, total_retry_count: 1000 };
    let expected = FlakyTestRetriesSettings { retry_count: 5, total_retry_count: 1000 };
    assert_eq!(TestOptimization::get_flaky_test_retries_settings(&r), expected);
    assert_eq!(TestSession::created(1).get_flaky_test_retries_settings(&r), expected);
    assert_eq!(FlakyTestRetriesSettings::from_response(&r), expected);
}
