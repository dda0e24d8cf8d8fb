//! Sessions: the root of the hierarchy, one for each run.

use crate::boundary::{built, ArrayKind, EntityKind, ForeignArray, Number, Request, RequestView};
use crate::catalogs::{
    known_entries, skippable_entries, KnownTestRecord, KnownTests, SkippableTestRecord,
    SkippableTests, TestManagementRecord,
};
use crate::codec::{get_now, Bool_to_bool, UnixTime};
use crate::grouped::grouping_of;
use crate::management::{management_entries, management_of, TestManagementTests};
use crate::marshal::{c_encoding, encodable, encode_str, encoding_failure, EncodingError};
use crate::requests::{
    encode_optional, error_info, first_failure, number_tag, optional_encoding, optional_failure,
    optional_text, spec_error_info, spec_number_tag, spec_string_tag, string_tag,
};
use crate::settings::{
    FlakyTestRetriesResponse, FlakyTestRetriesSettings, Settings, SettingsResponse,
};
use crate::test_module::TestModule;
use crate::test_optimization::{is_version_text, TestOptimization};
use vstd::prelude::*;

verus! {

/// The exit code that a session is closed with while the host unwinds from
/// a failure.
pub const FAILURE_EXIT_CODE: i32 = 1;

/// Handle of a session. The identifier zero stands for a session that was
/// not created.
#[derive(Clone, Copy, Debug, PartialEq, Eq, Structural)]
pub struct TestSession {
    /// Identifier that the native side gave the session.
    pub session_id: u64,
}

/// What follows the reply to an initialize request when a session is
/// started.
#[derive(Clone, Debug, PartialEq, Eq)]
pub enum SessionStart {
    /// The library is initialized: the session is created with this request.
    Create(Request),
    /// The library refused: no session is created, and the handle carries
    /// the identifier zero.
    NotCreated(TestSession),
}

impl TestSession {
    /// The version of the compiler that built the program, as text.
    pub fn runtime_version() -> (version: String)
        ensures
            is_version_text(version@),
    {
        TestOptimization::runtime_version()
    }

    /// Builds the request that initializes the native library with the
    /// given values, as the first step of starting a session.
    pub fn init_with_values(
        language_name: &str,
        runtime_name: &str,
        runtime_version: &str,
        working_directory: Option<&str>,
        use_mock_tracer: bool,
    ) -> (r: Result<Request, EncodingError>)
        ensures
            built(r) == TestOptimization::spec_init_with_values(
                language_name@,
                runtime_name@,
                runtime_version@,
                optional_text(working_directory),
                use_mock_tracer,
            ),
    {
        TestOptimization::init_with_values(
            language_name,
            runtime_name,
            runtime_version,
            working_directory,
            use_mock_tracer,
        )
    }

    /// Builds the request that initializes the native library for this
    /// host, as the first step of starting a session.
    pub fn init() -> (r: Result<Request, EncodingError>)
        ensures
            TestOptimization::spec_init(r, None, false),
            r is Ok,
    {
        TestOptimization::init()
    }

    /// As `init`, in the given working directory.
    pub fn init_with_working_dir(working_dir: &str) -> (r: Result<Request, EncodingError>)
        ensures
            TestOptimization::spec_init(r, Some(working_dir@), false),
            r is Ok <==> encodable(working_dir@),
            encoding_failure(working_dir@) matches Some(e) ==> r == Err::<Request, EncodingError>(e),
    {
        TestOptimization::init_with_working_dir(working_dir)
    }

    /// As `init`, with the mock tracer.
    pub fn init_mock() -> (r: Result<Request, EncodingError>)
        ensures
            TestOptimization::spec_init(r, None, true),
            r is Ok,
    {
        TestOptimization::init_mock()
    }

    /// As `init`, with the mock tracer, in the given working directory.
    pub fn init_mock_with_working_dir(working_dir: &str) -> (r: Result<Request, EncodingError>)
        ensures
            TestOptimization::spec_init(r, Some(working_dir@), true),
            r is Ok <==> encodable(working_dir@),
            encoding_failure(working_dir@) matches Some(e) ==> r == Err::<Request, EncodingError>(e),
    {
        TestOptimization::init_mock_with_working_dir(working_dir)
    }

    /// Decides what follows the reply `raw` to the initialize request, at
    /// the time `start`: an accepted initialize is followed by the creation
    /// of the session, without framework; a refused one by nothing.
    pub fn initialized_at(raw: u8, start: UnixTime) -> (next: SessionStart)
        ensures
            match next {
                SessionStart::Create(request) => raw != 0 && request@
                    == (RequestView::CreateSession {
                    framework: None,
                    framework_version: None,
                    start,
                }),
                SessionStart::NotCreated(session) => raw == 0 && session.session_id == 0,
            },
    {
        if Bool_to_bool(raw) {
            SessionStart::Create(
                Request::CreateSession { framework: None, framework_version: None, start },
            )
        } else {
            SessionStart::NotCreated(TestSession { session_id: 0 })
        }
    }

    /// Decides what follows the reply `raw` to the initialize request, now.
    pub fn initialized(raw: u8) -> (next: SessionStart)
        ensures
            match next {
                SessionStart::Create(request) => raw != 0 && exists|start: UnixTime| #[trigger]
                    start.wf() && request@ == (RequestView::CreateSession {
                        framework: None,
                        framework_version: None,
                        start,
                    }),
                SessionStart::NotCreated(session) => raw == 0 && session.session_id == 0,
            },
    {
        let start = get_now();
        let next = Self::initialized_at(raw, start);
        assert(start.wf());
        next
    }

    /// The request that creates a session, or the failure of the first
    /// string that cannot be sent.
    pub open spec fn spec_create(
        framework: Option<Seq<char>>,
        framework_version: Option<Seq<char>>,
        start: UnixTime,
    ) -> Result<RequestView, EncodingError> {
        match first_failure(optional_failure(framework), optional_failure(framework_version)) {
            Some(e) => Err(e),
            None => Ok(
                RequestView::CreateSession {
                    framework: optional_encoding(framework),
                    framework_version: optional_encoding(framework_version),
                    start,
                },
            ),
        }
    }

    /// Builds the request that creates a session for the given test
    /// framework, starting at `start`.
    pub fn create_at(framework: Option<&str>, framework_version: Option<&str>, start: UnixTime) -> (r:
        Result<Request, EncodingError>)
        ensures
            built(r) == Self::spec_create(
                optional_text(framework),
                optional_text(framework_version),
                start,
            ),
    {
        let framework = match encode_optional(framework) {
            Ok(buffer) => buffer,
            Err(e) => { return Err(e); },
        };
        let framework_version = match encode_optional(framework_version) {
            Ok(buffer) => buffer,
            Err(e) => { return Err(e); },
        };
        Ok(Request::CreateSession { framework, framework_version, start })
    }

    /// Builds the request that creates a session for the given test
    /// framework, starting now.
    pub fn create(framework: Option<&str>, framework_version: Option<&str>) -> (r: Result<
        Request,
        EncodingError,
    >)
        ensures
            exists|start: UnixTime| #[trigger]
                start.wf() && built(r) == Self::spec_create(
                    optional_text(framework),
                    optional_text(framework_version),
                    start,
                ),
    {
        let start = get_now();
        let r = Self::create_at(framework, framework_version, start);
        assert(start.wf());
        r
    }

    /// The handle of the session that the native side created with
    /// identifier `session_id`.
    pub fn created(session_id: u64) -> (session: TestSession)
        ensures
            session.session_id == session_id,
    {
        TestSession { session_id }
    }

    /// Builds the request that sets a string tag on this session.
    pub fn set_string_tag(&self, key: &str, value: &str) -> (r: Result<Request, EncodingError>)
        ensures
            built(r) == spec_string_tag(EntityKind::Session, self.session_id, key@, value@),
    {
        string_tag(EntityKind::Session, self.session_id, key, value)
    }

    /// Builds the request that sets a numeric tag on this session.
    pub fn set_number_tag(&self, key: &str, value: Number) -> (r: Result<Request, EncodingError>)
        ensures
            built(r) == spec_number_tag(EntityKind::Session, self.session_id, key@, value),
    {
        number_tag(EntityKind::Session, self.session_id, key, value)
    }

    /// Builds the request that attaches an error to this session.
    pub fn set_error_info(&self, error_type: &str, error_message: &str, error_stacktrace: &str) -> (r:
        Result<Request, EncodingError>)
        ensures
            built(r) == spec_error_info(
                EntityKind::Session,
                self.session_id,
                error_type@,
                error_message@,
                error_stacktrace@,
            ),
    {
        error_info(
            EntityKind::Session,
            self.session_id,
            error_type,
            error_message,
            error_stacktrace,
        )
    }

    /// The exit code that the session is closed with: the caller's, unless
    /// the host is unwinding from a failure, which forces the failure code.
    pub open spec fn spec_exit_code(exit_code: i32, unwinding: bool) -> i32 {
        if unwinding {
            FAILURE_EXIT_CODE
        } else {
            exit_code
        }
    }

    /// Builds the two requests that close this session at `finish`: the
    /// close itself and, after it, the shutdown of the native library.
    /// `unwinding` says whether the host is unwinding from a failure.
    pub fn close_at(&self, exit_code: i32, unwinding: bool, finish: UnixTime) -> (r: (
        Request,
        Request,
    ))
        ensures
            r.0@ == (RequestView::CloseSession {
                session_id: self.session_id,
                exit_code: Self::spec_exit_code(exit_code, unwinding),
                finish,
            }),
            r.1@ == RequestView::Shutdown,
    {
        let code = if unwinding {
            FAILURE_EXIT_CODE
        } else {
            exit_code
        };
        (
            Request::CloseSession { session_id: self.session_id, exit_code: code, finish },
            Request::Shutdown,
        )
    }

    /// Builds the two requests that close this session now.
    pub fn close(&self, exit_code: i32, unwinding: bool) -> (r: (Request, Request))
        ensures
            exists|finish: UnixTime| #[trigger]
                finish.wf() && r.0@ == (RequestView::CloseSession {
                    session_id: self.session_id,
                    exit_code: Self::spec_exit_code(exit_code, unwinding),
                    finish,
                }),
            r.1@ == RequestView::Shutdown,
    {
        let finish = get_now();
        let r = self.close_at(exit_code, unwinding, finish);
        assert(finish.wf());
        r
    }

    /// The request that creates a module under the session, or the failure
    /// of the first string that cannot be sent.
    pub open spec fn spec_create_module(
        &self,
        name: Seq<char>,
        framework_name: Seq<char>,
        framework_version: Seq<char>,
        start: UnixTime,
    ) -> Result<RequestView, EncodingError> {
        match first_failure(
            encoding_failure(name),
            first_failure(encoding_failure(framework_name), encoding_failure(framework_version)),
        ) {
            Some(e) => Err(e),
            None => Ok(
                RequestView::CreateModule {
                    session_id: self.session_id,
                    name: c_encoding(name),
                    framework_name: c_encoding(framework_name),
                    framework_version: c_encoding(framework_version),
                    start,
                },
            ),
        }
    }

    /// Builds the request that creates a module under this session,
    /// starting at `start`.
    pub fn create_module_at(
        &self,
        name: &str,
        framework_name: &str,
        framework_version: &str,
        start: UnixTime,
    ) -> (r: Result<Request, EncodingError>)
        ensures
            built(r) == self.spec_create_module(
                name@,
                framework_name@,
                framework_version@,
                start,
            ),
    {
        let name = match encode_str(name) {
            Ok(buffer) => buffer,
            Err(e) => { return Err(e); },
        };
        let framework_name = match encode_str(framework_name) {
            Ok(buffer) => buffer,
            Err(e) => { return Err(e); },
        };
        let framework_version = match encode_str(framework_version) {
            Ok(buffer) => buffer,
            Err(e) => { return Err(e); },
        };
        Ok(
            Request::CreateModule {
                session_id: self.session_id,
                name,
                framework_name,
                framework_version,
                start,
            },
        )
    }

    /// Builds the request that creates a module under this session,
    /// starting now.
    pub fn create_module(&self, name: &str, framework_name: &str, framework_version: &str) -> (r:
        Result<Request, EncodingError>)
        ensures
            exists|start: UnixTime| #[trigger]
                start.wf() && built(r) == self.spec_create_module(
                    name@,
                    framework_name@,
                    framework_version@,
                    start,
                ),
    {
        let start = get_now();
        let r = self.create_module_at(name, framework_name, framework_version, start);
        assert(start.wf());
        r
    }

    /// The module with identifier `module_id` under the session.
    pub open spec fn spec_module_created(&self, module_id: u64) -> TestModule {
        TestModule { session_id: self.session_id, module_id }
    }

    /// The handle of the module that the native side created under this
    /// session with identifier `module_id`.
    pub fn module_created(&self, module_id: u64) -> (module: TestModule)
        ensures
            module == self.spec_module_created(module_id),
    {
        TestModule { session_id: self.session_id, module_id }
    }

    /// Reads the settings of the run out of the reply to
    /// `Request::GetSettings`.
    pub fn get_settings(&self, response: &SettingsResponse) -> (settings: Settings)
        ensures
            settings == Settings::spec_from_response(*response),
    {
        TestOptimization::get_settings(response)
    }

    /// Reads the retry policy for flaky tests out of the reply to
    /// `Request::GetFlakyTestRetriesSettings`.
    pub fn get_flaky_test_retries_settings(&self, response: &FlakyTestRetriesResponse) -> (settings:
        FlakyTestRetriesSettings)
        ensures
            settings.retry_count == response.retry_count,
            settings.total_retry_count == response.total_retry_count,
    {
        TestOptimization::get_flaky_test_retries_settings(response)
    }

    /// Reads the reply to `Request::GetKnownTests` and returns the known
    /// tests with the request that gives the array back.
    pub fn get_known_tests(&self, array: ForeignArray<KnownTestRecord>) -> (r: (KnownTests, Request))
        ensures
            r.0.wf(),
            r.0@ == grouping_of(known_entries(array.items())),
            r.1@ == (RequestView::Release { array: ArrayKind::KnownTests }),
    {
        TestOptimization::get_known_tests(array)
    }

    /// Reads the reply to `Request::GetSkippableTests` and returns the
    /// skippable tests with the request that gives the array back.
    pub fn get_skippable_tests(&self, array: ForeignArray<SkippableTestRecord>) -> (r: (
        SkippableTests,
        Request,
    ))
        ensures
            r.0.wf(),
            r.0@ == grouping_of(skippable_entries(array.items())),
            r.1@ == (RequestView::Release { array: ArrayKind::SkippableTests }),
    {
        TestOptimization::get_skippable_tests(array)
    }

    /// Reads the reply to `Request::GetTestManagementTests` and returns the
    /// tests under test management with the request that gives the array
    /// back.
    pub fn get_test_management_tests(&self, array: ForeignArray<TestManagementRecord>) -> (r: (
        TestManagementTests,
        Request,
    ))
        ensures
            r.0.wf(),
            r.0@ == management_of(management_entries(array.items())),
            r.1@ == (RequestView::Release { array: ArrayKind::TestManagementTests }),
    {
        TestOptimization::get_test_management_tests(array)
    }
}

/// Every test created under a suite, under a module, under a session
/// carries the identifiers of all three, and the handles that it gives of
/// the entities above it are the handles it was created from.
pub proof fn lemma_ancestors_preserved(session: TestSession, module_id: u64, suite_id: u64, test_id: u64)
    ensures
        ({
            let module = session.spec_module_created(module_id);
            let suite = module.spec_suite_created(suite_id);
            let test = suite.spec_test_created(test_id);
            &&& module.session_id == session.session_id
            &&& suite.session_id == session.session_id
            &&& suite.module_id == module.module_id
            &&& test.session_id == session.session_id
            &&& test.module_id == module.module_id
            &&& test.suite_id == suite.suite_id
            &&& test.test_id == test_id
            &&& test.spec_get_suite() == suite
            &&& suite.spec_get_module() == module
        }),
{
}

} // verus!
