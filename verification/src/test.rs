//! Tests: the leaves of the hierarchy.

use crate::boundary::{
    built, dispatched, Dispatch, DispatchView, EntityKind, Number, Request, RequestView,
};
use crate::codec::{get_now, UnixTime};
use crate::marshal::{c_encoding, encode_str, encoding_failure, EncodingError};
use crate::name_map::NameMap;
use crate::requests::{
    encode_list, encode_number_pairs, encode_text_pairs, error_info, first_failure, list_encoding,
    list_failure, number_pairs_encoding, number_tag, pairs_encoding, pairs_failure_from, source,
    spec_error_info, spec_number_tag, spec_source, spec_string_tag, string_tag, texts_of,
};
use crate::test_suite::TestSuite;
use vstd::prelude::*;

verus! {

/// How a test ended.
#[derive(Clone, Copy, Debug, PartialEq, Eq, Structural)]
pub enum TestStatus {
    /// The test passed.
    Pass,
    /// The test failed.
    Fail,
    /// The test was skipped.
    Skip,
}

impl TestStatus {
    /// The byte that stands for the status on the native side.
    pub open spec fn spec_code(self) -> u8 {
        match self {
            TestStatus::Pass => 0,
            TestStatus::Fail => 1,
            TestStatus::Skip => 2,
        }
    }

    /// The byte that stands for the status on the native side.
    pub fn code(self) -> (c: u8)
        ensures
            c == self.spec_code(),
    {
        match self {
            TestStatus::Pass => 0,
            TestStatus::Fail => 1,
            TestStatus::Skip => 2,
        }
    }
}

/// Handle of a test, with the identifiers of the suite, module and session
/// above it.
#[derive(Clone, Copy, Debug, PartialEq, Eq, Structural)]
pub struct Test {
    /// Identifier of the session the test belongs to.
    pub session_id: u64,
    /// Identifier of the module the test belongs to.
    pub module_id: u64,
    /// Identifier of the suite the test belongs to.
    pub suite_id: u64,
    /// Identifier that the native side gave the test.
    pub test_id: u64,
}

impl Test {
    /// The suite that the test was created under.
    pub open spec fn spec_get_suite(&self) -> TestSuite {
        TestSuite {
            session_id: self.session_id,
            module_id: self.module_id,
            suite_id: self.suite_id,
        }
    }

    /// The handle of the suite that the test was created under.
    pub fn get_suite(&self) -> (suite: TestSuite)
        ensures
            suite == self.spec_get_suite(),
    {
        TestSuite {
            session_id: self.session_id,
            module_id: self.module_id,
            suite_id: self.suite_id,
        }
    }

    /// Builds the request that sets a string tag on this test.
    pub fn set_string_tag(&self, key: &str, value: &str) -> (r: Result<Request, EncodingError>)
        ensures
            built(r) == spec_string_tag(EntityKind::Test, self.test_id, key@, value@),
    {
        string_tag(EntityKind::Test, self.test_id, key, value)
    }

    /// Builds the request that sets a numeric tag on this test.
    pub fn set_number_tag(&self, key: &str, value: Number) -> (r: Result<Request, EncodingError>)
        ensures
            built(r) == spec_number_tag(EntityKind::Test, self.test_id, key@, value),
    {
        number_tag(EntityKind::Test, self.test_id, key, value)
    }

    /// Builds the request that attaches an error to this test.
    pub fn set_error_info(&self, error_type: &str, error_message: &str, error_stacktrace: &str) -> (r:
        Result<Request, EncodingError>)
        ensures
            built(r) == spec_error_info(
                EntityKind::Test,
                self.test_id,
                error_type@,
                error_message@,
                error_stacktrace@,
            ),
    {
        error_info(EntityKind::Test, self.test_id, error_type, error_message, error_stacktrace)
    }

    /// Builds the request that sets the source location of this test. Either
    /// line may be left out.
    pub fn set_test_source(&self, file: &str, start_line: Option<i32>, end_line: Option<i32>) -> (r:
        Result<Request, EncodingError>)
        ensures
            built(r) == spec_source(EntityKind::Test, self.test_id, file@, start_line, end_line),
    {
        source(EntityKind::Test, self.test_id, file, start_line, end_line)
    }

    /// The request that closes the test with a status and no reason.
    pub open spec fn spec_close(&self, status: TestStatus, finish: UnixTime) -> RequestView {
        RequestView::CloseTest {
            test_id: self.test_id,
            status: status.spec_code(),
            finish,
            skip_reason: None,
        }
    }

    /// Builds the request that closes this test with `status` at `finish`.
    pub fn close_at(&self, status: TestStatus, finish: UnixTime) -> (r: Request)
        ensures
            r@ == self.spec_close(status, finish),
    {
        Request::CloseTest {
            test_id: self.test_id,
            status: status.code(),
            finish,
            skip_reason: None,
        }
    }

    /// Builds the request that closes this test with `status` now.
    pub fn close(&self, status: TestStatus) -> (r: Request)
        ensures
            exists|finish: UnixTime| #[trigger] finish.wf() && r@ == self.spec_close(status, finish),
    {
        let finish = get_now();
        let r = self.close_at(status, finish);
        assert(finish.wf());
        r
    }

    /// The request that closes the test as skipped: with the reason attached
    /// where there is one, and as a plain skip where the reason is empty.
    pub open spec fn spec_close_with_skip_reason(&self, skip_reason: Seq<char>, finish: UnixTime) -> Result<
        RequestView,
        EncodingError,
    > {
        if skip_reason.len() == 0 {
            Ok(self.spec_close(TestStatus::Skip, finish))
        } else {
            match encoding_failure(skip_reason) {
                Some(e) => Err(e),
                None => Ok(
                    RequestView::CloseTest {
                        test_id: self.test_id,
                        status: TestStatus::Skip.spec_code(),
                        finish,
                        skip_reason: Some(c_encoding(skip_reason)),
                    },
                ),
            }
        }
    }

    /// Builds the request that closes this test as skipped at `finish`, for
    /// the given reason.
    pub fn close_with_skip_reason_at(&self, skip_reason: &str, finish: UnixTime) -> (r: Result<
        Request,
        EncodingError,
    >)
        ensures
            built(r) == self.spec_close_with_skip_reason(skip_reason@, finish),
    {
        if !skip_reason.is_empty() {
            let reason = match encode_str(skip_reason) {
                Ok(buffer) => buffer,
                Err(e) => { return Err(e); },
            };
            Ok(
                Request::CloseTest {
                    test_id: self.test_id,
                    status: TestStatus::Skip.code(),
                    finish,
                    skip_reason: Some(reason),
                },
            )
        } else {
            Ok(self.close_at(TestStatus::Skip, finish))
        }
    }

    /// Builds the request that closes this test as skipped now, for the
    /// given reason.
    pub fn close_with_skip_reason(&self, skip_reason: &str) -> (r: Result<Request, EncodingError>)
        ensures
            exists|finish: UnixTime| #[trigger]
                finish.wf() && built(r) == self.spec_close_with_skip_reason(skip_reason@, finish),
    {
        let finish = get_now();
        let r = self.close_with_skip_reason_at(skip_reason, finish);
        assert(finish.wf());
        r
    }

    /// The request that reports the files a test covered, or the failure of
    /// the first file name that cannot be sent.
    pub open spec fn spec_set_coverage_data(&self, files: Seq<Seq<char>>) -> Result<
        RequestView,
        EncodingError,
    > {
        match list_failure(files) {
            Some(e) => Err(e),
            None => Ok(
                RequestView::SendCoverage {
                    session_id: self.session_id,
                    suite_id: self.suite_id,
                    test_id: self.test_id,
                    files: list_encoding(files),
                },
            ),
        }
    }

    /// Builds the request that reports the files this test covered. Each
    /// file goes with an empty bitmap, and the request has no reply.
    pub fn set_coverage_data(&self, files: &Vec<String>) -> (r: Result<Request, EncodingError>)
        ensures
            built(r) == self.spec_set_coverage_data(texts_of(files@)),
    {
        let files = match encode_list(files) {
            Ok(buffers) => buffers,
            Err(e) => { return Err(e); },
        };
        Ok(
            Request::SendCoverage {
                session_id: self.session_id,
                suite_id: self.suite_id,
                test_id: self.test_id,
                files,
            },
        )
    }

    /// What setting textual benchmark data asks for: nothing for an empty
    /// map, which counts as accepted; otherwise one request with a pair for
    /// each name, or the failure of the first string that cannot be sent,
    /// the measure type coming last.
    pub open spec fn spec_set_benchmark_string_data(
        &self,
        measure_type: Seq<char>,
        keys: Seq<Seq<char>>,
        values: Seq<Seq<char>>,
    ) -> Result<DispatchView, EncodingError> {
        if keys.len() == 0 {
            Ok(DispatchView::Settled(true))
        } else {
            match first_failure(pairs_failure_from(keys, values, 0), encoding_failure(measure_type)) {
                Some(e) => Err(e),
                None => Ok(
                    DispatchView::Send(
                        RequestView::SetBenchmarkStringData {
                            test_id: self.test_id,
                            measure_type: c_encoding(measure_type),
                            pairs: pairs_encoding(keys, values),
                        },
                    ),
                ),
            }
        }
    }

    /// Decides what setting textual benchmark data on this test sends.
    pub fn set_benchmark_string_data(&self, measure_type: &str, data: &NameMap<String>) -> (r: Result<
        Dispatch,
        EncodingError,
    >)
        requires
            data.wf(),
        ensures
            dispatched(r) == self.spec_set_benchmark_string_data(
                measure_type@,
                data.names(),
                texts_of(data.values()),
            ),
    {
        if data.len() == 0 {
            return Ok(Dispatch::Settled(true));
        }
        let pairs = match encode_text_pairs(data) {
            Ok(pairs) => pairs,
            Err(e) => { return Err(e); },
        };
        let measure_type = match encode_str(measure_type) {
            Ok(buffer) => buffer,
            Err(e) => { return Err(e); },
        };
        Ok(
            Dispatch::Send(
                Request::SetBenchmarkStringData { test_id: self.test_id, measure_type, pairs },
            ),
        )
    }

    /// What setting numeric benchmark data asks for: nothing for an empty
    /// map, which counts as accepted; otherwise one request with a pair for
    /// each name, or the failure of the first string that cannot be sent,
    /// the measure type coming last.
    pub open spec fn spec_set_benchmark_number_data(
        &self,
        measure_type: Seq<char>,
        keys: Seq<Seq<char>>,
        values: Seq<Number>,
    ) -> Result<DispatchView, EncodingError> {
        if keys.len() == 0 {
            Ok(DispatchView::Settled(true))
        } else {
            match first_failure(list_failure(keys), encoding_failure(measure_type)) {
                Some(e) => Err(e),
                None => Ok(
                    DispatchView::Send(
                        RequestView::SetBenchmarkNumberData {
                            test_id: self.test_id,
                            measure_type: c_encoding(measure_type),
                            pairs: number_pairs_encoding(keys, values),
                        },
                    ),
                ),
            }
        }
    }

    /// Decides what setting numeric benchmark data on this test sends.
    pub fn set_benchmark_number_data(&self, measure_type: &str, data: &NameMap<Number>) -> (r: Result<
        Dispatch,
        EncodingError,
    >)
        requires
            data.wf(),
        ensures
            dispatched(r) == self.spec_set_benchmark_number_data(
                measure_type@,
                data.names(),
                data.values(),
            ),
    {
        if data.len() == 0 {
            return Ok(Dispatch::Settled(true));
        }
        let pairs = match encode_number_pairs(data) {
            Ok(pairs) => pairs,
            Err(e) => { return Err(e); },
        };
        let measure_type = match encode_str(measure_type) {
            Ok(buffer) => buffer,
            Err(e) => { return Err(e); },
        };
        Ok(
            Dispatch::Send(
                Request::SetBenchmarkNumberData { test_id: self.test_id, measure_type, pairs },
            ),
        )
    }
}

/// Closing a test as skipped with an empty reason asks for exactly what
/// closing it with the status `Skip` asks for: no reason is attached.
pub proof fn lemma_empty_skip_reason_is_plain_skip(test: Test, finish: UnixTime)
    ensures
        test.spec_close_with_skip_reason(Seq::<char>::empty(), finish) == Ok::<
            RequestView,
            EncodingError,
        >(test.spec_close(TestStatus::Skip, finish)),
{
}

/// Benchmark data without entries is accepted on the host side: nothing is
/// sent, whatever the measure type.
pub proof fn lemma_empty_benchmark_data_is_settled(test: Test, measure_type: Seq<char>)
    ensures
        test.spec_set_benchmark_string_data(
            measure_type,
            Seq::<Seq<char>>::empty(),
            Seq::<Seq<char>>::empty(),
        ) == Ok::<DispatchView, EncodingError>(DispatchView::Settled(true)),
        test.spec_set_benchmark_number_data(
            measure_type,
            Seq::<Seq<char>>::empty(),
            Seq::<Number>::empty(),
        ) == Ok::<DispatchView, EncodingError>(DispatchView::Settled(true)),
{
}

} // verus!
