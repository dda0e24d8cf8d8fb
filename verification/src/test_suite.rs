//! Suites: groups of tests within a module.

use crate::boundary::{built, EntityKind, Number, Request, RequestView};
use crate::codec::{get_now, UnixTime};
use crate::marshal::{c_encoding, encode_str, encoding_failure, EncodingError};
use crate::requests::{
    close_at, error_info, number_tag, source, spec_error_info, spec_number_tag, spec_source,
    spec_string_tag, string_tag,
};
use crate::test::Test;
use crate::test_module::TestModule;
use vstd::prelude::*;

verus! {

/// Handle of a suite, with the identifiers of the module and session above
/// it.
#[derive(Clone, Copy, Debug, PartialEq, Eq, Structural)]
pub struct TestSuite {
    /// Identifier of the session the suite belongs to.
    pub session_id: u64,
    /// Identifier of the module the suite belongs to.
    pub module_id: u64,
    /// Identifier that the native side gave the suite.
    pub suite_id: u64,
}

impl TestSuite {
    /// The module that the suite was created under.
    pub open spec fn spec_get_module(&self) -> TestModule {
        TestModule { session_id: self.session_id, module_id: self.module_id }
    }

    /// The handle of the module that the suite was created under.
    pub fn get_module(&self) -> (module: TestModule)
        ensures
            module == self.spec_get_module(),
    {
        TestModule { session_id: self.session_id, module_id: self.module_id }
    }

    /// Builds the request that sets a string tag on this suite.
    pub fn set_string_tag(&self, key: &str, value: &str) -> (r: Result<Request, EncodingError>)
        ensures
            built(r) == spec_string_tag(EntityKind::Suite, self.suite_id, key@, value@),
    {
        string_tag(EntityKind::Suite, self.suite_id, key, value)
    }

    /// Builds the request that sets a numeric tag on this suite.
    pub fn set_number_tag(&self, key: &str, value: Number) -> (r: Result<Request, EncodingError>)
        ensures
            built(r) == spec_number_tag(EntityKind::Suite, self.suite_id, key@, value),
    {
        number_tag(EntityKind::Suite, self.suite_id, key, value)
    }

    /// Builds the request that attaches an error to this suite.
    pub fn set_error_info(&self, error_type: &str, error_message: &str, error_stacktrace: &str) -> (r:
        Result<Request, EncodingError>)
        ensures
            built(r) == spec_error_info(
                EntityKind::Suite,
                self.suite_id,
                error_type@,
                error_message@,
                error_stacktrace@,
            ),
    {
        error_info(EntityKind::Suite, self.suite_id, error_type, error_message, error_stacktrace)
    }

    /// Builds the request that sets the source location of this suite.
    /// Either line may be left out.
    pub fn set_test_source(&self, file: &str, start_line: Option<i32>, end_line: Option<i32>) -> (r:
        Result<Request, EncodingError>)
        ensures
            built(r) == spec_source(EntityKind::Suite, self.suite_id, file@, start_line, end_line),
    {
        source(EntityKind::Suite, self.suite_id, file, start_line, end_line)
    }

    /// Builds the request that closes this suite at `finish`.
    pub fn close_at(&self, finish: UnixTime) -> (r: Request)
        ensures
            r@ == (RequestView::Close { entity: EntityKind::Suite, id: self.suite_id, finish }),
    {
        close_at(EntityKind::Suite, self.suite_id, finish)
    }

    /// Builds the request that closes this suite now.
    pub fn close(&self) -> (r: Request)
        ensures
            exists|finish: UnixTime| #[trigger]
                finish.wf() && r@ == (RequestView::Close {
                    entity: EntityKind::Suite,
                    id: self.suite_id,
                    finish,
                }),
    {
        let finish = get_now();
        let r = self.close_at(finish);
        assert(finish.wf());
        r
    }

    /// The request that creates a test under the suite, or the failure of
    /// the name.
    pub open spec fn spec_create_test(&self, name: Seq<char>, start: UnixTime) -> Result<
        RequestView,
        EncodingError,
    > {
        match encoding_failure(name) {
            Some(e) => Err(e),
            None => Ok(
                RequestView::CreateTest { suite_id: self.suite_id, name: c_encoding(name), start },
            ),
        }
    }

    /// Builds the request that creates a test under this suite, starting at
    /// `start`.
    pub fn create_test_at(&self, name: &str, start: UnixTime) -> (r: Result<Request, EncodingError>)
        ensures
            built(r) == self.spec_create_test(name@, start),
    {
        let name = match encode_str(name) {
            Ok(buffer) => buffer,
            Err(e) => { return Err(e); },
        };
        Ok(Request::CreateTest { suite_id: self.suite_id, name, start })
    }

    /// Builds the request that creates a test under this suite, starting
    /// now.
    pub fn create_test(&self, name: &str) -> (r: Result<Request, EncodingError>)
        ensures
            exists|start: UnixTime| #[trigger]
                start.wf() && built(r) == self.spec_create_test(name@, start),
    {
        let start = get_now();
        let r = self.create_test_at(name, start);
        assert(start.wf());
        r
    }

    /// The test with identifier `test_id` under the suite.
    pub open spec fn spec_test_created(&self, test_id: u64) -> Test {
        Test {
            session_id: self.session_id,
            module_id: self.module_id,
            suite_id: self.suite_id,
            test_id,
        }
    }

    /// The handle of the test that the native side created under this suite
    /// with identifier `test_id`. The identifiers above it are copied from
    /// this handle.
    pub fn test_created(&self, test_id: u64) -> (test: Test)
        ensures
            test == self.spec_test_created(test_id),
    {
        Test {
            session_id: self.session_id,
            module_id: self.module_id,
            suite_id: self.suite_id,
            test_id,
        }
    }
}

} // verus!
