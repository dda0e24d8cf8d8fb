//! The catalogs of tests that the native side hands out: known tests,
//! skippable tests and tests under test management.
//!
//! Each catalog comes as a flat array of records. Reading one copies every
//! record into host-owned maps and then gives the array back to the native
//! side, once: the function that reads takes the array by value and returns
//! the request that releases it.

use crate::boundary::{ArrayKind, ForeignArray, Request, RequestView};
use crate::grouped::{grouping_of, Grouped};
use crate::marshal::{decode_field, field_text};
use vstd::prelude::*;

verus! {

/// One known test as the native side lays it out; a null string is `None`.
#[derive(Clone, Debug, PartialEq, Eq)]
pub struct KnownTestRecord {
    pub module_name: Option<Vec<u8>>,
    pub suite_name: Option<Vec<u8>>,
    pub test_name: Option<Vec<u8>>,
}

/// One skippable test as the native side lays it out; a null string is
/// `None`.
#[derive(Clone, Debug, PartialEq, Eq)]
pub struct SkippableTestRecord {
    pub suite_name: Option<Vec<u8>>,
    pub test_name: Option<Vec<u8>>,
    pub parameters: Option<Vec<u8>>,
    pub custom_configurations_json: Option<Vec<u8>>,
}

/// One test under test management as the native side lays it out; a null
/// string is `None`, a boolean is one byte.
#[derive(Clone, Debug, PartialEq, Eq)]
pub struct TestManagementRecord {
    pub module_name: Option<Vec<u8>>,
    pub suite_name: Option<Vec<u8>>,
    pub test_name: Option<Vec<u8>>,
    pub quarantined: u8,
    pub disabled: u8,
    pub attempt_to_fix: u8,
}

/// A test that may be skipped.
#[derive(Clone, Debug, PartialEq, Eq)]
pub struct SkippableTest {
    /// Name of the suite.
    pub suite_name: String,
    /// Name of the test.
    pub test_name: String,
    /// Parameters of the test.
    pub parameters: String,
    /// Custom configurations, as JSON text.
    pub custom_configurations_json: String,
}

/// A skippable test with its strings taken as text.
pub struct SkippableTestView {
    pub suite_name: Seq<char>,
    pub test_name: Seq<char>,
    pub parameters: Seq<char>,
    pub custom_configurations_json: Seq<char>,
}

impl View for SkippableTest {
    type V = SkippableTestView;

    open spec fn view(&self) -> SkippableTestView {
        SkippableTestView {
            suite_name: self.suite_name@,
            test_name: self.test_name@,
            parameters: self.parameters@,
            custom_configurations_json: self.custom_configurations_json@,
        }
    }
}

/// A test under test management.
#[derive(Clone, Debug, PartialEq, Eq)]
pub struct TestManagementTest {
    /// Name of the module.
    pub module_name: String,
    /// Name of the suite.
    pub suite_name: String,
    /// Name of the test.
    pub test_name: String,
    /// Whether the test is quarantined.
    pub quarantined: bool,
    /// Whether the test is disabled.
    pub disabled: bool,
    /// Whether someone attempts to fix the test.
    pub attempt_to_fix: bool,
}

/// A test under test management with its strings taken as text.
pub struct TestManagementTestView {
    pub module_name: Seq<char>,
    pub suite_name: Seq<char>,
    pub test_name: Seq<char>,
    pub quarantined: bool,
    pub disabled: bool,
    pub attempt_to_fix: bool,
}

impl View for TestManagementTest {
    type V = TestManagementTestView;

    open spec fn view(&self) -> TestManagementTestView {
        TestManagementTestView {
            module_name: self.module_name@,
            suite_name: self.suite_name@,
            test_name: self.test_name@,
            quarantined: self.quarantined,
            disabled: self.disabled,
            attempt_to_fix: self.attempt_to_fix,
        }
    }
}

/// Known tests: module name, suite name, then the names of the tests.
pub type KnownTests = Grouped<String>;

/// Skippable tests: suite name, test name, then the tests of that name.
pub type SkippableTests = Grouped<SkippableTest>;

/// What one record of known tests reads as: module, suite and test name.
pub open spec fn known_entry(record: KnownTestRecord) -> (Seq<char>, Seq<char>, Seq<char>) {
    (field_text(record.module_name), field_text(record.suite_name), field_text(record.test_name))
}

/// What the records of known tests read as, in order.
pub open spec fn known_entries(records: Seq<KnownTestRecord>) -> Seq<
    (Seq<char>, Seq<char>, Seq<char>),
> {
    records.map_values(|r: KnownTestRecord| known_entry(r))
}

/// What one record of skippable tests reads as, under its suite and test
/// name.
pub open spec fn skippable_entry(record: SkippableTestRecord) -> (
    Seq<char>,
    Seq<char>,
    SkippableTestView,
) {
    (
        field_text(record.suite_name),
        field_text(record.test_name),
        SkippableTestView {
            suite_name: field_text(record.suite_name),
            test_name: field_text(record.test_name),
            parameters: field_text(record.parameters),
            custom_configurations_json: field_text(record.custom_configurations_json),
        },
    )
}

/// What the records of skippable tests read as, in order.
pub open spec fn skippable_entries(records: Seq<SkippableTestRecord>) -> Seq<
    (Seq<char>, Seq<char>, SkippableTestView),
> {
    records.map_values(|r: SkippableTestRecord| skippable_entry(r))
}

/// Reads the array of known tests into a map from module name to suite name
/// to the names of the tests, in the order of the array, and returns with it
/// the request that gives the array back. A null pointer and a length of
/// zero both read as the empty map.
pub fn decode_known_tests(array: ForeignArray<KnownTestRecord>) -> (r: (KnownTests, Request))
    ensures
        r.0.wf(),
        r.0@ == grouping_of(known_entries(array.items())),
        r.1@ == (RequestView::Release { array: ArrayKind::KnownTests }),
{
    let records = array.into_items();
    let mut tests: KnownTests = Grouped::new();
    let mut i: usize = 0;
    while i < records.len()
        invariant
            i <= records@.len(),
            tests.wf(),
            tests@ == grouping_of(known_entries(records@.take(i as int))),
        decreases records@.len() - i,
    {
        let record = &records[i];
        let module_name = decode_field(&record.module_name);
        let suite_name = decode_field(&record.suite_name);
        let test_name = decode_field(&record.test_name);
        proof {
            let next = known_entries(records@.take(i + 1));
            assert(next.drop_last() =~= known_entries(records@.take(i as int)));
            assert(next.last() == known_entry(records@[i as int]));
        }
        tests.add(module_name, suite_name, test_name);
        i += 1;
    }
    assert(records@.take(records@.len() as int) =~= records@);
    (tests, Request::Release { array: ArrayKind::KnownTests })
}

/// Reads the array of skippable tests into a map from suite name to test
/// name to the tests of that name, in the order of the array, and returns
/// with it the request that gives the array back. A null pointer and a
/// length of zero both read as the empty map.
pub fn decode_skippable_tests(array: ForeignArray<SkippableTestRecord>) -> (r: (
    SkippableTests,
    Request,
))
    ensures
        r.0.wf(),
        r.0@ == grouping_of(skippable_entries(array.items())),
        r.1@ == (RequestView::Release { array: ArrayKind::SkippableTests }),
{
    let records = array.into_items();
    let mut tests: SkippableTests = Grouped::new();
    let mut i: usize = 0;
    while i < records.len()
        invariant
            i <= records@.len(),
            tests.wf(),
            tests@ == grouping_of(skippable_entries(records@.take(i as int))),
        decreases records@.len() - i,
    {
        let record = &records[i];
        let suite_name = decode_field(&record.suite_name);
        let test_name = decode_field(&record.test_name);
        let test = SkippableTest {
            suite_name: suite_name.clone(),
            test_name: test_name.clone(),
            parameters: decode_field(&record.parameters),
            custom_configurations_json: decode_field(&record.custom_configurations_json),
        };
        proof {
            let next = skippable_entries(records@.take(i + 1));
            assert(next.drop_last() =~= skippable_entries(records@.take(i as int)));
            assert(next.last() == skippable_entry(records@[i as int]));
        }
        tests.add(suite_name, test_name, test);
        i += 1;
    }
    assert(records@.take(records@.len() as int) =~= records@);
    (tests, Request::Release { array: ArrayKind::SkippableTests })
}

/// An array of known tests behind a null pointer, or of length zero, reads
/// as the empty map.
pub proof fn lemma_no_known_tests(array: ForeignArray<KnownTestRecord>)
    requires
        array.records is None || array.items().len() == 0,
    ensures
        grouping_of(known_entries(array.items())) == Map::<
            Seq<char>,
            Map<Seq<char>, Seq<Seq<char>>>,
        >::empty(),
{
    assert(known_entries(array.items()).len() == 0);
}

/// An array of skippable tests behind a null pointer, or of length zero,
/// reads as the empty map.
pub proof fn lemma_no_skippable_tests(array: ForeignArray<SkippableTestRecord>)
    requires
        array.records is None || array.items().len() == 0,
    ensures
        grouping_of(skippable_entries(array.items())) == Map::<
            Seq<char>,
            Map<Seq<char>, Seq<SkippableTestView>>,
        >::empty(),
{
    assert(skippable_entries(array.items()).len() == 0);
}

} // verus!
