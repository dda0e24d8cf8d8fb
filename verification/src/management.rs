//! The catalog of tests under test management: module name, suite name,
//! test name, then the one record of that test. Where the native side lists
//! a test twice, the first record stays.

use crate::boundary::{ArrayKind, ForeignArray, Request, RequestView};
use crate::catalogs::{TestManagementRecord, TestManagementTest, TestManagementTestView};
use crate::codec::Bool_to_bool;
use crate::marshal::{decode_field, field_text};
use crate::name_map::NameMap;
use vstd::prelude::*;

verus! {

/// The catalog as a map of maps of maps.
pub type ManagementView = Map<Seq<char>, Map<Seq<char>, Map<Seq<char>, TestManagementTestView>>>;

/// The tests of one suite, each taken by its view.
pub open spec fn suite_view(tests: NameMap<TestManagementTest>) -> Map<
    Seq<char>,
    TestManagementTestView,
> {
    tests@.map_values(|t: TestManagementTest| t@)
}

/// The suites of one module, each taken by its view.
pub open spec fn module_view(suites: NameMap<NameMap<TestManagementTest>>) -> Map<
    Seq<char>,
    Map<Seq<char>, TestManagementTestView>,
> {
    suites@.map_values(|tests: NameMap<TestManagementTest>| suite_view(tests))
}

/// The modules, each taken by its view.
pub open spec fn modules_view(modules: NameMap<NameMap<NameMap<TestManagementTest>>>) -> ManagementView {
    modules@.map_values(|suites: NameMap<NameMap<TestManagementTest>>| module_view(suites))
}

/// The map of suites and each map of tests in it are well-formed.
pub open spec fn suites_wf(suites: NameMap<NameMap<TestManagementTest>>) -> bool {
    &&& suites.wf()
    &&& forall|i: int| 0 <= i < suites.values().len() ==> (#[trigger] suites.values()[i]).wf()
}

/// The map of modules and every map below it are well-formed.
pub open spec fn modules_wf(modules: NameMap<NameMap<NameMap<TestManagementTest>>>) -> bool {
    &&& modules.wf()
    &&& forall|i: int| 0 <= i < modules.values().len() ==> suites_wf(#[trigger] modules.values()[i])
}

/// A catalog after one more record came: its module and its suite are added
/// where they were not there yet; the record is added under its test name
/// unless that name already has one, which then stays.
pub open spec fn spec_add_first(
    catalog: ManagementView,
    module: Seq<char>,
    suite: Seq<char>,
    test: Seq<char>,
    record: TestManagementTestView,
) -> ManagementView {
    let suites = if catalog.contains_key(module) {
        catalog[module]
    } else {
        Map::<Seq<char>, Map<Seq<char>, TestManagementTestView>>::empty()
    };
    let tests = if suites.contains_key(suite) {
        suites[suite]
    } else {
        Map::<Seq<char>, TestManagementTestView>::empty()
    };
    let tests_after = if tests.contains_key(test) {
        tests
    } else {
        tests.insert(test, record)
    };
    catalog.insert(module, suites.insert(suite, tests_after))
}

/// What one record reads as.
pub open spec fn management_entry(record: TestManagementRecord) -> TestManagementTestView {
    TestManagementTestView {
        module_name: field_text(record.module_name),
        suite_name: field_text(record.suite_name),
        test_name: field_text(record.test_name),
        quarantined: record.quarantined != 0,
        disabled: record.disabled != 0,
        attempt_to_fix: record.attempt_to_fix != 0,
    }
}

/// What the records read as, in order.
pub open spec fn management_entries(records: Seq<TestManagementRecord>) -> Seq<
    TestManagementTestView,
> {
    records.map_values(|r: TestManagementRecord| management_entry(r))
}

/// The catalog of a sequence of records.
pub open spec fn management_of(entries: Seq<TestManagementTestView>) -> ManagementView
    decreases entries.len(),
{
    if entries.len() == 0 {
        Map::<Seq<char>, Map<Seq<char>, Map<Seq<char>, TestManagementTestView>>>::empty()
    } else {
        spec_add_first(
            management_of(entries.drop_last()),
            entries.last().module_name,
            entries.last().suite_name,
            entries.last().test_name,
            entries.last(),
        )
    }
}

/// The entry stands under the three names.
pub open spec fn named(
    entry: TestManagementTestView,
    module: Seq<char>,
    suite: Seq<char>,
    test: Seq<char>,
) -> bool {
    entry.module_name == module && entry.suite_name == suite && entry.test_name == test
}

/// The catalog holds a test under the three names.
pub open spec fn holds_test(
    catalog: ManagementView,
    module: Seq<char>,
    suite: Seq<char>,
    test: Seq<char>,
) -> bool {
    catalog.contains_key(module) && catalog[module].contains_key(suite)
        && catalog[module][suite].contains_key(test)
}

/// What the catalog of a sequence of records holds, said of the records at
/// once: a module is there exactly if a record names it, a suite is there
/// under it exactly if a record names both, a test is there under them
/// exactly if a record names all three, and the test that is there is the
/// first record of those names.
pub proof fn lemma_management_of(
    entries: Seq<TestManagementTestView>,
    module: Seq<char>,
    suite: Seq<char>,
    test: Seq<char>,
)
    ensures
        management_of(entries).contains_key(module) <==> exists|i: int|
            0 <= i < entries.len() && (#[trigger] entries[i]).module_name == module,
        management_of(entries).contains_key(module) && management_of(entries)[module].contains_key(
            suite,
        ) <==> exists|i: int|
            0 <= i < entries.len() && (#[trigger] entries[i]).module_name == module
                && entries[i].suite_name == suite,
        holds_test(management_of(entries), module, suite, test) <==> exists|i: int|
            0 <= i < entries.len() && named(#[trigger] entries[i], module, suite, test),
        forall|i: int|
            0 <= i < entries.len() && named(#[trigger] entries[i], module, suite, test) && (forall|
                j: int,
            |
                0 <= j < i ==> !named(#[trigger] entries[j], module, suite, test))
                ==> management_of(entries)[module][suite][test] == entries[i],
    decreases entries.len(),
{
    if entries.len() > 0 {
        let rest = entries.drop_last();
        let last = entries.last();
        lemma_management_of(rest, module, suite, test);
        lemma_management_of(rest, last.module_name, last.suite_name, last.test_name);
        let before = management_of(rest);
        let after = management_of(entries);
        assert(after == spec_add_first(
            before,
            last.module_name,
            last.suite_name,
            last.test_name,
            last,
        ));
        assert(entries[entries.len() - 1] == last);
        assert forall|i: int| 0 <= i < rest.len() implies rest[i] == entries[i] by {}
        if exists|i: int| 0 <= i < rest.len() && (#[trigger] rest[i]).module_name == module {
            let i = choose|i: int| 0 <= i < rest.len() && (#[trigger] rest[i]).module_name == module;
            assert(entries[i].module_name == module);
        }
        if exists|i: int|
            0 <= i < rest.len() && (#[trigger] rest[i]).module_name == module && rest[i].suite_name
                == suite {
            let i = choose|i: int|
                0 <= i < rest.len() && (#[trigger] rest[i]).module_name == module
                    && rest[i].suite_name == suite;
            assert(entries[i].module_name == module && entries[i].suite_name == suite);
        }
        if exists|i: int| 0 <= i < rest.len() && named(#[trigger] rest[i], module, suite, test) {
            let i = choose|i: int| 0 <= i < rest.len() && named(#[trigger] rest[i], module, suite, test);
            assert(named(entries[i], module, suite, test));
        }
        if exists|i: int| 0 <= i < entries.len() && (#[trigger] entries[i]).module_name == module {
            let i = choose|i: int|
                0 <= i < entries.len() && (#[trigger] entries[i]).module_name == module;
            if i < rest.len() {
                assert(rest[i].module_name == module);
            }
        }
        if exists|i: int|
            0 <= i < entries.len() && (#[trigger] entries[i]).module_name == module
                && entries[i].suite_name == suite {
            let i = choose|i: int|
                0 <= i < entries.len() && (#[trigger] entries[i]).module_name == module
                    && entries[i].suite_name == suite;
            if i < rest.len() {
                assert(rest[i].module_name == module && rest[i].suite_name == suite);
            }
        }
        if exists|i: int| 0 <= i < entries.len() && named(#[trigger] entries[i], module, suite, test) {
            let i = choose|i: int|
                0 <= i < entries.len() && named(#[trigger] entries[i], module, suite, test);
            if i < rest.len() {
                assert(named(rest[i], module, suite, test));
            }
        }
        assert forall|i: int|
            0 <= i < entries.len() && named(#[trigger] entries[i], module, suite, test) && (forall|
                j: int,
            |
                0 <= j < i ==> !named(#[trigger] entries[j], module, suite, test)) implies after[module][suite][test]
            == entries[i] by {
            if i < rest.len() {
                assert(named(rest[i], module, suite, test));
                assert forall|j: int| 0 <= j < i implies !named(
                    #[trigger] rest[j],
                    module,
                    suite,
                    test,
                ) by {
                    assert(rest[j] == entries[j]);
                }
                assert(before[module][suite][test] == rest[i]);
            } else {
                assert forall|j: int| 0 <= j < rest.len() implies !named(
                    #[trigger] rest[j],
                    module,
                    suite,
                    test,
                ) by {
                    assert(rest[j] == entries[j]);
                }
                assert(!holds_test(before, module, suite, test));
            }
        }
    }
}

/// Tests under test management, by module, suite and test name.
#[derive(Clone, Debug, PartialEq, Eq)]
pub struct TestManagementTests {
    modules: NameMap<NameMap<NameMap<TestManagementTest>>>,
}

impl View for TestManagementTests {
    type V = ManagementView;

    /// From module name to suite name to test name to the test.
    closed spec fn view(&self) -> ManagementView {
        modules_view(self.modules)
    }
}

impl TestManagementTests {
    /// The maps that hold the tests are well-formed.
    pub closed spec fn wf(&self) -> bool {
        modules_wf(self.modules)
    }

    /// A catalog without tests.
    pub fn new() -> (c: Self)
        ensures
            c.wf(),
            c@ == Map::<Seq<char>, Map<Seq<char>, Map<Seq<char>, TestManagementTestView>>>::empty(),
    {
        let c = TestManagementTests { modules: NameMap::new() };
        assert(c@ =~= Map::<
            Seq<char>,
            Map<Seq<char>, Map<Seq<char>, TestManagementTestView>>,
        >::empty());
        c
    }

    /// The modules under their names.
    pub fn modules(&self) -> (modules: &NameMap<NameMap<NameMap<TestManagementTest>>>)
        requires
            self.wf(),
        ensures
            modules_wf(*modules),
            modules_view(*modules) == self@,
    {
        &self.modules
    }

    /// The test under the three names, if the catalog holds one.
    pub fn get(&self, module: &str, suite: &str, test: &str) -> (r: Option<&TestManagementTest>)
        requires
            self.wf(),
        ensures
            match r {
                Some(found) => self@.contains_key(module@) && self@[module@].contains_key(suite@)
                    && self@[module@][suite@].contains_key(test@) && found@
                    == self@[module@][suite@][test@],
                None => !(self@.contains_key(module@) && self@[module@].contains_key(suite@)
                    && self@[module@][suite@].contains_key(test@)),
            },
    {
        match self.modules.find(module) {
            None => None,
            Some(i) => {
                proof {
                    self.modules.lemma_index_of(i as int);
                }
                match self.modules.entry(i) {
                    None => None,
                    Some((_, suites)) => {
                        match suites.find(suite) {
                            None => None,
                            Some(j) => {
                                proof {
                                    suites.lemma_index_of(j as int);
                                }
                                match suites.entry(j) {
                                    None => None,
                                    Some((_, tests)) => tests.get(test),
                                }
                            },
                        }
                    },
                }
            },
        }
    }

    /// Adds a test under its three names unless the catalog holds a test of
    /// those names already.
    pub fn add_first(&mut self, module: String, suite: String, name: String, test: TestManagementTest)
        requires
            old(self).wf(),
        ensures
            final(self).wf(),
            final(self)@ == spec_add_first(old(self)@, module@, suite@, name@, test@),
    {
        let ghost before = self.modules;
        let ghost module_name = module@;
        let ghost suite_name = suite@;
        let ghost test_name = name@;
        let ghost test_view = test@;
        let at = match self.modules.find(module.as_str()) {
            Some(i) => i,
            None => {
                self.modules.push_new(module, NameMap::new());
                self.modules.len() - 1
            },
        };
        let ghost with_module = self.modules;
        proof {
            with_module.lemma_index_of(at as int);
            assert(modules_wf(with_module)) by {
                assert forall|i: int| 0 <= i < with_module.values().len() implies suites_wf(
                    #[trigger] with_module.values()[i],
                ) by {
                    if i < before.values().len() {
                        assert(suites_wf(before.values()[i]));
                    }
                }
            }
            assert(suites_wf(with_module.values()[at as int]));
        }
        let mut suites = self.modules.replace(at, NameMap::new());
        let ghost suites_before = suites;
        let place = match suites.find(suite.as_str()) {
            Some(i) => i,
            None => {
                suites.push_new(suite, NameMap::new());
                suites.len() - 1
            },
        };
        let ghost with_suite = suites;
        proof {
            with_suite.lemma_index_of(place as int);
            assert(suites_wf(with_suite)) by {
                assert forall|i: int| 0 <= i < with_suite.values().len() implies (
                #[trigger] with_suite.values()[i]).wf() by {
                    if i < suites_before.values().len() {
                        assert(suites_before.values()[i].wf());
                    }
                }
            }
        }
        let mut tests = suites.replace(place, NameMap::new());
        let ghost tests_before = tests;
        let _ = tests.insert_if_absent(name, test);
        let _ = suites.replace(place, tests);
        let _ = self.modules.replace(at, suites);
        proof {
            assert(suites@ =~= with_suite@.insert(suite_name, tests));
            assert(self.modules@ =~= with_module@.insert(module_name, suites));
            assert(suites_wf(suites)) by {
                assert forall|i: int| 0 <= i < suites.values().len() implies (
                #[trigger] suites.values()[i]).wf() by {
                    if i != place {
                        assert(with_suite.values()[i].wf());
                    }
                }
            }
            assert(modules_wf(self.modules)) by {
                assert forall|i: int| 0 <= i < self.modules.values().len() implies suites_wf(
                    #[trigger] self.modules.values()[i],
                ) by {
                    if i != at {
                        assert(suites_wf(with_module.values()[i]));
                    }
                }
            }
            let old_view = modules_view(before);
            let old_suites = if old_view.contains_key(module_name) {
                old_view[module_name]
            } else {
                Map::<Seq<char>, Map<Seq<char>, TestManagementTestView>>::empty()
            };
            assert(module_view(suites_before) =~= old_suites);
            let old_tests = if old_suites.contains_key(suite_name) {
                old_suites[suite_name]
            } else {
                Map::<Seq<char>, TestManagementTestView>::empty()
            };
            assert(suite_view(tests_before) =~= old_tests);
            let new_tests = if old_tests.contains_key(test_name) {
                old_tests
            } else {
                old_tests.insert(test_name, test_view)
            };
            assert(suite_view(tests) =~= new_tests);
            assert(module_view(suites) =~= old_suites.insert(suite_name, new_tests));
            assert(modules_view(self.modules) =~= old_view.insert(module_name, module_view(suites)));
        }
    }
}

/// Reads the array of tests under test management into a map from module
/// name to suite name to test name to the test, and returns with it the
/// request that gives the array back. Of two records with the same three
/// names the first stays. A null pointer and a length of zero both read as
/// the empty map.
pub fn decode_test_management_tests(array: ForeignArray<TestManagementRecord>) -> (r: (
    TestManagementTests,
    Request,
))
    ensures
        r.0.wf(),
        r.0@ == management_of(management_entries(array.items())),
        r.1@ == (RequestView::Release { array: ArrayKind::TestManagementTests }),
{
    let records = array.into_items();
    let mut tests = TestManagementTests::new();
    let mut i: usize = 0;
    while i < records.len()
        invariant
            i <= records@.len(),
            tests.wf(),
            tests@ == management_of(management_entries(records@.take(i as int))),
        decreases records@.len() - i,
    {
        let record = &records[i];
        let module_name = decode_field(&record.module_name);
        let suite_name = decode_field(&record.suite_name);
        let test_name = decode_field(&record.test_name);
        let test = TestManagementTest {
            module_name: module_name.clone(),
            suite_name: suite_name.clone(),
            test_name: test_name.clone(),
            quarantined: Bool_to_bool(record.quarantined),
            disabled: Bool_to_bool(record.disabled),
            attempt_to_fix: Bool_to_bool(record.attempt_to_fix),
        };
        proof {
            let next = management_entries(records@.take(i + 1));
            assert(next.drop_last() =~= management_entries(records@.take(i as int)));
            assert(next.last() == management_entry(records@[i as int]));
        }
        tests.add_first(module_name, suite_name, test_name, test);
        i += 1;
    }
    assert(records@.take(records@.len() as int) =~= records@);
    (tests, Request::Release { array: ArrayKind::TestManagementTests })
}

/// An array of tests under test management behind a null pointer, or of
/// length zero, reads as the empty map.
pub proof fn lemma_no_test_management_tests(array: ForeignArray<TestManagementRecord>)
    requires
        array.records is None || array.items().len() == 0,
    ensures
        management_of(management_entries(array.items())) == Map::<
            Seq<char>,
            Map<Seq<char>, Map<Seq<char>, TestManagementTestView>>,
        >::empty(),
{
    assert(management_entries(array.items()).len() == 0);
}

} // verus!
