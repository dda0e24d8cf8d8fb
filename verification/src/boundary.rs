//! The vocabulary of the native boundary.
//!
//! An operation of the library does not call the native side itself. It
//! decides what is to be sent and returns that as a [`Request`]: the native
//! function to call and its arguments, strings already laid out as
//! zero-terminated buffers. The caller performs the request and hands the raw
//! reply to the function of the library that reads it.

use crate::codec::UnixTime;
use crate::marshal::{terminated, EncodingError};
use vstd::prelude::*;

verus! {

/// The five kinds of entity that the native side keeps.
#[derive(Clone, Copy, Debug, PartialEq, Eq, Structural)]
pub enum EntityKind {
    Session,
    Module,
    Suite,
    Test,
    Span,
}

/// The arrays that the native side hands out and wants back.
#[derive(Clone, Copy, Debug, PartialEq, Eq, Structural)]
pub enum ArrayKind {
    KnownTests,
    SkippableTests,
    TestManagementTests,
    MockSpans,
}

/// A numeric tag value, carried as the bit pattern of the double that the
/// native side receives. The library never computes with it.
#[derive(Clone, Copy, Debug, PartialEq, Eq, Structural)]
pub struct Number {
    /// The IEEE 754 bits of the value.
    pub bits: u64,
}

/// An array result of the native side: a pointer and a length, with the
/// records behind a non-null pointer copied out. A null pointer is `None`.
#[derive(Clone, Debug, PartialEq, Eq)]
pub struct ForeignArray<R> {
    /// The records behind the pointer, or `None` for a null pointer.
    pub records: Option<Vec<R>>,
}

impl<R> ForeignArray<R> {
    /// The records that the array holds; a null pointer and a length of zero
    /// both hold none.
    pub open spec fn items(&self) -> Seq<R> {
        match self.records {
            None => Seq::<R>::empty(),
            Some(records) => records@,
        }
    }

    /// The array behind a null pointer.
    pub fn null() -> (a: Self)
        ensures
            a.records is None,
            a.items() == Seq::<R>::empty(),
    {
        ForeignArray { records: None }
    }

    /// The array of the given records.
    pub fn of(records: Vec<R>) -> (a: Self)
        ensures
            a.records == Some(records),
            a.items() == records@,
    {
        ForeignArray { records: Some(records) }
    }

    /// Takes the records out of the array.
    pub fn into_items(self) -> (items: Vec<R>)
        ensures
            items@ == self.items(),
    {
        match self.records {
            None => Vec::new(),
            Some(records) => records,
        }
    }
}

/// The bytes of an optional buffer.
pub open spec fn buffer_view(buffer: Option<Vec<u8>>) -> Option<Seq<u8>> {
    match buffer {
        None => None,
        Some(b) => Some(b@),
    }
}

/// The bytes of each buffer of a list.
pub open spec fn buffers_view(buffers: Vec<Vec<u8>>) -> Seq<Seq<u8>> {
    buffers@.map_values(|b: Vec<u8>| b@)
}

/// The bytes of each pair of buffers of a list.
pub open spec fn text_pairs_view(pairs: Vec<(Vec<u8>, Vec<u8>)>) -> Seq<(Seq<u8>, Seq<u8>)> {
    pairs@.map_values(|p: (Vec<u8>, Vec<u8>)| (p.0@, p.1@))
}

/// The bytes and the number of each pair of a list.
pub open spec fn number_pairs_view(pairs: Vec<(Vec<u8>, Number)>) -> Seq<(Seq<u8>, Number)> {
    pairs@.map_values(|p: (Vec<u8>, Number)| (p.0@, p.1))
}

/// One call of the native function table, with its arguments.
#[derive(Clone, Debug, PartialEq, Eq)]
#[allow(inconsistent_fields)]
pub enum Request {
    /// Starts the native library. `working_directory` is null where it is `None`.
    Initialize {
        language: Vec<u8>,
        runtime_name: Vec<u8>,
        runtime_version: Vec<u8>,
        working_directory: Option<Vec<u8>>,
        use_mock_tracer: u8,
    },
    /// Releases everything the native library holds.
    Shutdown,
    /// Reads the settings of the run.
    GetSettings,
    /// Reads the retry policy for flaky tests.
    GetFlakyTestRetriesSettings,
    /// Reads the array of known tests.
    GetKnownTests,
    /// Reads the array of skippable tests.
    GetSkippableTests,
    /// Reads the array of tests under test management.
    GetTestManagementTests,
    /// Hands an array that was read back to the native side, which frees it.
    Release {
        array: ArrayKind,
    },
    /// Creates the session.
    CreateSession {
        framework: Option<Vec<u8>>,
        framework_version: Option<Vec<u8>>,
        start: UnixTime,
    },
    /// Creates a module under a session.
    CreateModule {
        session_id: u64,
        name: Vec<u8>,
        framework_name: Vec<u8>,
        framework_version: Vec<u8>,
        start: UnixTime,
    },
    /// Creates a suite under a module.
    CreateSuite {
        module_id: u64,
        name: Vec<u8>,
        start: UnixTime,
    },
    /// Creates a test under a suite.
    CreateTest {
        suite_id: u64,
        name: Vec<u8>,
        start: UnixTime,
    },
    /// Creates a span under any entity.
    CreateSpan {
        parent_id: u64,
        operation_name: Vec<u8>,
        service_name: Vec<u8>,
        resource_name: Vec<u8>,
        span_type: Vec<u8>,
        start: UnixTime,
    },
    /// Sets a string tag on an entity.
    SetStringTag {
        entity: EntityKind,
        id: u64,
        key: Vec<u8>,
        value: Vec<u8>,
    },
    /// Sets a numeric tag on an entity.
    SetNumberTag {
        entity: EntityKind,
        id: u64,
        key: Vec<u8>,
        value: Number,
    },
    /// Attaches an error to an entity.
    SetError {
        entity: EntityKind,
        id: u64,
        error_type: Vec<u8>,
        message: Vec<u8>,
        stacktrace: Vec<u8>,
    },
    /// Sets the source location of a suite or a test; a line that is `None` is sent as null.
    SetSource {
        entity: EntityKind,
        id: u64,
        file: Vec<u8>,
        start_line: Option<i32>,
        end_line: Option<i32>,
    },
    /// Closes a module, a suite or a span.
    Close {
        entity: EntityKind,
        id: u64,
        finish: UnixTime,
    },
    /// Closes the session with an exit code.
    CloseSession {
        session_id: u64,
        exit_code: i32,
        finish: UnixTime,
    },
    /// Closes a test with a status and, for a skipped test, an optional reason.
    CloseTest {
        test_id: u64,
        status: u8,
        finish: UnixTime,
        skip_reason: Option<Vec<u8>>,
    },
    /// Sends the files that a test covered, each with an empty bitmap.
    SendCoverage {
        session_id: u64,
        suite_id: u64,
        test_id: u64,
        files: Vec<Vec<u8>>,
    },
    /// Sets textual benchmark data on a test.
    SetBenchmarkStringData {
        test_id: u64,
        measure_type: Vec<u8>,
        pairs: Vec<(Vec<u8>, Vec<u8>)>,
    },
    /// Sets numeric benchmark data on a test.
    SetBenchmarkNumberData {
        test_id: u64,
        measure_type: Vec<u8>,
        pairs: Vec<(Vec<u8>, Number)>,
    },
    /// Clears what the mock tracer recorded.
    MockReset,
    /// Reads the spans that the mock tracer saw finish.
    MockFinishedSpans,
    /// Reads the spans that the mock tracer holds open.
    MockOpenSpans,
}

/// A request with every buffer taken as the bytes it holds.
#[allow(inconsistent_fields)]
pub enum RequestView {
    Initialize {
        language: Seq<u8>,
        runtime_name: Seq<u8>,
        runtime_version: Seq<u8>,
        working_directory: Option<Seq<u8>>,
        use_mock_tracer: u8,
    },
    Shutdown,
    GetSettings,
    GetFlakyTestRetriesSettings,
    GetKnownTests,
    GetSkippableTests,
    GetTestManagementTests,
    Release {
        array: ArrayKind,
    },
    CreateSession {
        framework: Option<Seq<u8>>,
        framework_version: Option<Seq<u8>>,
        start: UnixTime,
    },
    CreateModule {
        session_id: u64,
        name: Seq<u8>,
        framework_name: Seq<u8>,
        framework_version: Seq<u8>,
        start: UnixTime,
    },
    CreateSuite {
        module_id: u64,
        name: Seq<u8>,
        start: UnixTime,
    },
    CreateTest {
        suite_id: u64,
        name: Seq<u8>,
        start: UnixTime,
    },
    CreateSpan {
        parent_id: u64,
        operation_name: Seq<u8>,
        service_name: Seq<u8>,
        resource_name: Seq<u8>,
        span_type: Seq<u8>,
        start: UnixTime,
    },
    SetStringTag {
        entity: EntityKind,
        id: u64,
        key: Seq<u8>,
        value: Seq<u8>,
    },
    SetNumberTag {
        entity: EntityKind,
        id: u64,
        key: Seq<u8>,
        value: Number,
    },
    SetError {
        entity: EntityKind,
        id: u64,
        error_type: Seq<u8>,
        message: Seq<u8>,
        stacktrace: Seq<u8>,
    },
    SetSource {
        entity: EntityKind,
        id: u64,
        file: Seq<u8>,
        start_line: Option<i32>,
        end_line: Option<i32>,
    },
    Close {
        entity: EntityKind,
        id: u64,
        finish: UnixTime,
    },
    CloseSession {
        session_id: u64,
        exit_code: i32,
        finish: UnixTime,
    },
    CloseTest {
        test_id: u64,
        status: u8,
        finish: UnixTime,
        skip_reason: Option<Seq<u8>>,
    },
    SendCoverage {
        session_id: u64,
        suite_id: u64,
        test_id: u64,
        files: Seq<Seq<u8>>,
    },
    SetBenchmarkStringData {
        test_id: u64,
        measure_type: Seq<u8>,
        pairs: Seq<(Seq<u8>, Seq<u8>)>,
    },
    SetBenchmarkNumberData {
        test_id: u64,
        measure_type: Seq<u8>,
        pairs: Seq<(Seq<u8>, Number)>,
    },
    MockReset,
    MockFinishedSpans,
    MockOpenSpans,
}

impl View for Request {
    type V = RequestView;

    open spec fn view(&self) -> RequestView {
        match self {
            Request::Initialize { language, runtime_name, runtime_version, working_directory, use_mock_tracer } => RequestView::Initialize {
                language: language@,
                runtime_name: runtime_name@,
                runtime_version: runtime_version@,
                working_directory: buffer_view(*working_directory),
                use_mock_tracer: *use_mock_tracer,
            },
            Request::Shutdown => RequestView::Shutdown,
            Request::GetSettings => RequestView::GetSettings,
            Request::GetFlakyTestRetriesSettings => RequestView::GetFlakyTestRetriesSettings,
            Request::GetKnownTests => RequestView::GetKnownTests,
            Request::GetSkippableTests => RequestView::GetSkippableTests,
            Request::GetTestManagementTests => RequestView::GetTestManagementTests,
            Request::Release { array } => RequestView::Release {
                array: *array,
            },
            Request::CreateSession { framework, framework_version, start } => RequestView::CreateSession {
                framework: buffer_view(*framework),
                framework_version: buffer_view(*framework_version),
                start: *start,
            },
            Request::CreateModule { session_id, name, framework_name, framework_version, start } => RequestView::CreateModule {
                session_id: *session_id,
                name: name@,
                framework_name: framework_name@,
                framework_version: framework_version@,
                start: *start,
            },
            Request::CreateSuite { module_id, name, start } => RequestView::CreateSuite {
                module_id: *module_id,
                name: name@,
                start: *start,
            },
            Request::CreateTest { suite_id, name, start } => RequestView::CreateTest {
                suite_id: *suite_id,
                name: name@,
                start: *start,
            },
            Request::CreateSpan { parent_id, operation_name, service_name, resource_name, span_type, start } => RequestView::CreateSpan {
                parent_id: *parent_id,
                operation_name: operation_name@,
                service_name: service_name@,
                resource_name: resource_name@,
                span_type: span_type@,
                start: *start,
            },
            Request::SetStringTag { entity, id, key, value } => RequestView::SetStringTag {
                entity: *entity,
                id: *id,
                key: key@,
                value: value@,
            },
            Request::SetNumberTag { entity, id, key, value } => RequestView::SetNumberTag {
                entity: *entity,
                id: *id,
                key: key@,
                value: *value,
            },
            Request::SetError { entity, id, error_type, message, stacktrace } => RequestView::SetError {
                entity: *entity,
                id: *id,
                error_type: error_type@,
                message: message@,
                stacktrace: stacktrace@,
            },
            Request::SetSource { entity, id, file, start_line, end_line } => RequestView::SetSource {
                entity: *entity,
                id: *id,
                file: file@,
                start_line: *start_line,
                end_line: *end_line,
            },
            Request::Close { entity, id, finish } => RequestView::Close {
                entity: *entity,
                id: *id,
                finish: *finish,
            },
            Request::CloseSession { session_id, exit_code, finish } => RequestView::CloseSession {
                session_id: *session_id,
                exit_code: *exit_code,
                finish: *finish,
            },
            Request::CloseTest { test_id, status, finish, skip_reason } => RequestView::CloseTest {
                test_id: *test_id,
                status: *status,
                finish: *finish,
                skip_reason: buffer_view(*skip_reason),
            },
            Request::SendCoverage { session_id, suite_id, test_id, files } => RequestView::SendCoverage {
                session_id: *session_id,
                suite_id: *suite_id,
                test_id: *test_id,
                files: buffers_view(*files),
            },
            Request::SetBenchmarkStringData { test_id, measure_type, pairs } => RequestView::SetBenchmarkStringData {
                test_id: *test_id,
                measure_type: measure_type@,
                pairs: text_pairs_view(*pairs),
            },
            Request::SetBenchmarkNumberData { test_id, measure_type, pairs } => RequestView::SetBenchmarkNumberData {
                test_id: *test_id,
                measure_type: measure_type@,
                pairs: number_pairs_view(*pairs),
            },
            Request::MockReset => RequestView::MockReset,
            Request::MockFinishedSpans => RequestView::MockFinishedSpans,
            Request::MockOpenSpans => RequestView::MockOpenSpans,
        }
    }
}

/// An optional buffer is absent or a string that the native side can read.
pub open spec fn optional_terminated(buffer: Option<Seq<u8>>) -> bool {
    match buffer {
        None => true,
        Some(b) => terminated(b),
    }
}

impl RequestView {
    /// The request can be handed to the native side as it is: every buffer
    /// ends in its only zero byte, the entity is of a kind that the
    /// operation exists for, a status and a boolean are within their codes,
    /// and benchmark data is not empty.
    pub open spec fn wf(self) -> bool {
        match self {
            RequestView::Initialize {
                language,
                runtime_name,
                runtime_version,
                working_directory,
                use_mock_tracer,
            } => terminated(language) && terminated(runtime_name) && terminated(runtime_version)
                && optional_terminated(working_directory) && use_mock_tracer <= 1,
            RequestView::CreateSession { framework, framework_version, start } => optional_terminated(
                framework,
            ) && optional_terminated(framework_version),
            RequestView::CreateModule { session_id, name, framework_name, framework_version, start } => {
                terminated(name) && terminated(framework_name) && terminated(framework_version)
            },
            RequestView::CreateSuite { module_id, name, start } => terminated(name),
            RequestView::CreateTest { suite_id, name, start } => terminated(name),
            RequestView::CreateSpan {
                parent_id,
                operation_name,
                service_name,
                resource_name,
                span_type,
                start,
            } => terminated(operation_name) && terminated(service_name) && terminated(resource_name)
                && terminated(span_type),
            RequestView::SetStringTag { entity, id, key, value } => terminated(key) && terminated(
                value,
            ),
            RequestView::SetNumberTag { entity, id, key, value } => terminated(key),
            RequestView::SetError { entity, id, error_type, message, stacktrace } => terminated(
                error_type,
            ) && terminated(message) && terminated(stacktrace),
            RequestView::SetSource { entity, id, file, start_line, end_line } => terminated(file) && (
            entity == EntityKind::Suite || entity == EntityKind::Test),
            RequestView::Close { entity, id, finish } => entity == EntityKind::Module || entity
                == EntityKind::Suite || entity == EntityKind::Span,
            RequestView::CloseTest { test_id, status, finish, skip_reason } => status <= 2
                && optional_terminated(skip_reason) && (skip_reason is Some ==> status == 2),
            RequestView::SendCoverage { session_id, suite_id, test_id, files } => forall|i: int|
                0 <= i < files.len() ==> terminated(#[trigger] files[i]),
            RequestView::SetBenchmarkStringData { test_id, measure_type, pairs } => terminated(
                measure_type,
            ) && pairs.len() > 0 && forall|i: int|
                0 <= i < pairs.len() ==> terminated((#[trigger] pairs[i]).0) && terminated(
                    pairs[i].1,
                ),
            RequestView::SetBenchmarkNumberData { test_id, measure_type, pairs } => terminated(
                measure_type,
            ) && pairs.len() > 0 && forall|i: int|
                0 <= i < pairs.len() ==> terminated((#[trigger] pairs[i]).0),
            _ => true,
        }
    }
}

/// What was built is an error or a well-formed request.
pub open spec fn sound(r: Result<RequestView, EncodingError>) -> bool {
    match r {
        Ok(request) => request.wf(),
        Err(_) => true,
    }
}

/// What building a request gave, with the request taken by its view.
pub open spec fn built(r: Result<Request, EncodingError>) -> Result<RequestView, EncodingError> {
    match r {
        Ok(request) => Ok(request@),
        Err(e) => Err(e),
    }
}

/// What an operation asks its caller to do: nothing, because the outcome is
/// settled on the host side, or one request.
#[derive(Clone, Debug, PartialEq, Eq)]
pub enum Dispatch {
    /// Nothing is sent; the operation has the given result.
    Settled(bool),
    /// The request is sent, and its reply is the result.
    Send(Request),
}

/// A dispatch with its request taken by its view.
pub enum DispatchView {
    Settled(bool),
    Send(RequestView),
}

impl View for Dispatch {
    type V = DispatchView;

    open spec fn view(&self) -> DispatchView {
        match self {
            Dispatch::Settled(b) => DispatchView::Settled(*b),
            Dispatch::Send(request) => DispatchView::Send(request@),
        }
    }
}

/// What building a dispatch gave, with the dispatch taken by its view.
pub open spec fn dispatched(r: Result<Dispatch, EncodingError>) -> Result<
    DispatchView,
    EncodingError,
> {
    match r {
        Ok(dispatch) => Ok(dispatch@),
        Err(e) => Err(e),
    }
}

} // verus!
