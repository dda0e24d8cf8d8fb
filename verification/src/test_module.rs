//! Modules: groups of suites within a session.

use crate::boundary::{built, EntityKind, Number, Request, RequestView};
use crate::codec::{get_now, UnixTime};
use crate::marshal::{c_encoding, encode_str, encoding_failure, EncodingError};
use crate::requests::{
    close_at, error_info, number_tag, spec_error_info, spec_number_tag, spec_string_tag,
    string_tag,
};
use crate::test_suite::TestSuite;
use vstd::prelude::*;

verus! {

/// Handle of a module, with the identifier of the session above it.
#[derive(Clone, Copy, Debug, PartialEq, Eq, Structural)]
pub struct TestModule {
    /// Identifier of the session the module belongs to.
    pub session_id: u64,
    /// Identifier that the native side gave the module.
    pub module_id: u64,
}

impl TestModule {
    /// Builds the request that sets a string tag on this module.
    pub fn set_string_tag(&self, key: &str, value: &str) -> (r: Result<Request, EncodingError>)
        ensures
            built(r) == spec_string_tag(EntityKind::Module, self.module_id, key@, value@),
    {
        string_tag(EntityKind::Module, self.module_id, key, value)
    }

    /// Builds the request that sets a numeric tag on this module.
    pub fn set_number_tag(&self, key: &str, value: Number) -> (r: Result<Request, EncodingError>)
        ensures
            built(r) == spec_number_tag(EntityKind::Module, self.module_id, key@, value),
    {
        number_tag(EntityKind::Module, self.module_id, key, value)
    }

    /// Builds the request that attaches an error to this module.
    pub fn set_error_info(&self, error_type: &str, error_message: &str, error_stacktrace: &str) -> (r:
        Result<Request, EncodingError>)
        ensures
            built(r) == spec_error_info(
                EntityKind::Module,
                self.module_id,
                error_type@,
                error_message@,
                error_stacktrace@,
            ),
    {
        error_info(EntityKind::Module, self.module_id, error_type, error_message, error_stacktrace)
    }

    /// Builds the request that closes this module at `finish`.
    pub fn close_at(&self, finish: UnixTime) -> (r: Request)
        ensures
            r@ == (RequestView::Close { entity: EntityKind::Module, id: self.module_id, finish }),
    {
        close_at(EntityKind::Module, self.module_id, finish)
    }

    /// Builds the request that closes this module now.
    pub fn close(&self) -> (r: Request)
        ensures
            exists|finish: UnixTime| #[trigger]
                finish.wf() && r@ == (RequestView::Close {
                    entity: EntityKind::Module,
                    id: self.module_id,
                    finish,
                }),
    {
        let finish = get_now();
        let r = self.close_at(finish);
        assert(finish.wf());
        r
    }

    /// The request that creates a suite under the module, or the failure of
    /// the name.
    pub open spec fn spec_create_test_suite(&self, name: Seq<char>, start: UnixTime) -> Result<
        RequestView,
        EncodingError,
    > {
        match encoding_failure(name) {
            Some(e) => Err(e),
            None => Ok(
                RequestView::CreateSuite {
                    module_id: self.module_id,
                    name: c_encoding(name),
                    start,
                },
            ),
        }
    }

    /// Builds the request that creates a suite under this module, starting
    /// at `start`.
    pub fn create_test_suite_at(&self, name: &str, start: UnixTime) -> (r: Result<
        Request,
        EncodingError,
    >)
        ensures
            built(r) == self.spec_create_test_suite(name@, start),
    {
        let name = match encode_str(name) {
            Ok(buffer) => buffer,
            Err(e) => { return Err(e); },
        };
        Ok(Request::CreateSuite { module_id: self.module_id, name, start })
    }

    /// Builds the request that creates a suite under this module, starting
    /// now.
    pub fn create_test_suite(&self, name: &str) -> (r: Result<Request, EncodingError>)
        ensures
            exists|start: UnixTime| #[trigger]
                start.wf() && built(r) == self.spec_create_test_suite(name@, start),
    {
        let start = get_now();
        let r = self.create_test_suite_at(name, start);
        assert(start.wf());
        r
    }

    /// The suite with identifier `suite_id` under the module.
    pub open spec fn spec_suite_created(&self, suite_id: u64) -> TestSuite {
        TestSuite { session_id: self.session_id, module_id: self.module_id, suite_id }
    }

    /// The handle of the suite that the native side created under this
    /// module with identifier `suite_id`. The identifiers above it are
    /// copied from this handle.
    pub fn suite_created(&self, suite_id: u64) -> (suite: TestSuite)
        ensures
            suite == self.spec_suite_created(suite_id),
    {
        TestSuite { session_id: self.session_id, module_id: self.module_id, suite_id }
    }
}

} // verus!
