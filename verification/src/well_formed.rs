//! Every request that the library builds can be handed to the native side
//! as it is. The native side reads a string up to its first zero byte, so a
//! buffer without one would be read past its end, and one with a zero byte
//! inside would be cut short.

use crate::boundary::{sound, DispatchView, EntityKind, Number};
use crate::codec::UnixTime;
use crate::marshal::{c_encoding, encodable, lemma_encoding_terminated, terminated};
use crate::requests::{
    lemma_list_failure, lemma_pairs_failure, list_encoding, pairs_encoding, spec_error_info,
    spec_number_tag, spec_source, spec_string_tag,
};
use crate::span::Span;
use crate::test::{Test, TestStatus};
use crate::test_module::TestModule;
use crate::test_optimization::TestOptimization;
use crate::test_session::TestSession;
use crate::test_suite::TestSuite;
use vstd::prelude::*;

verus! {

/// The buffer of a string is terminated wherever the string can be sent.
proof fn lemma_terminated(text: Seq<char>)
    ensures
        encodable(text) ==> terminated(c_encoding(text)),
{
    if encodable(text) {
        lemma_encoding_terminated(text);
    }
}

/// The same for a string that may be absent.
proof fn lemma_optional_terminated(text: Option<Seq<char>>)
    ensures
        text matches Some(t) ==> (encodable(t) ==> terminated(
            c_encoding(t),
        )),
{
    if let Some(t) = text {
        lemma_terminated(t);
    }
}

/// Requests that set a tag or attach an error are well-formed, for every
/// kind of entity.
pub proof fn lemma_tag_requests_sound(
    entity: EntityKind,
    id: u64,
    key: Seq<char>,
    value: Seq<char>,
    number: Number,
    stacktrace: Seq<char>,
)
    ensures
        sound(spec_string_tag(entity, id, key, value)),
        sound(spec_number_tag(entity, id, key, number)),
        sound(spec_error_info(entity, id, key, value, stacktrace)),
{
    lemma_terminated(key);
    lemma_terminated(value);
    lemma_terminated(stacktrace);
}

/// Requests that set the source location of a suite or a test are
/// well-formed.
pub proof fn lemma_source_requests_sound(
    entity: EntityKind,
    id: u64,
    file: Seq<char>,
    start_line: Option<i32>,
    end_line: Option<i32>,
)
    requires
        entity == EntityKind::Suite || entity == EntityKind::Test,
    ensures
        sound(spec_source(entity, id, file, start_line, end_line)),
{
    lemma_terminated(file);
}

/// Requests that create an entity are well-formed.
pub proof fn lemma_create_requests_sound(
    session: TestSession,
    module: TestModule,
    suite: TestSuite,
    parent_id: u64,
    name: Seq<char>,
    second: Seq<char>,
    third: Seq<char>,
    fourth: Seq<char>,
    framework: Option<Seq<char>>,
    framework_version: Option<Seq<char>>,
    start: UnixTime,
)
    ensures
        sound(TestSession::spec_create(framework, framework_version, start)),
        sound(session.spec_create_module(name, second, third, start)),
        sound(module.spec_create_test_suite(name, start)),
        sound(suite.spec_create_test(name, start)),
        sound(Span::spec_create(parent_id, name, second, third, fourth, start)),
{
    lemma_terminated(name);
    lemma_terminated(second);
    lemma_terminated(third);
    lemma_terminated(fourth);
    lemma_optional_terminated(framework);
    lemma_optional_terminated(framework_version);
}

/// The initialize request is well-formed.
pub proof fn lemma_init_request_sound(
    language_name: Seq<char>,
    runtime_name: Seq<char>,
    runtime_version: Seq<char>,
    working_directory: Option<Seq<char>>,
    use_mock_tracer: bool,
)
    ensures
        sound(
            TestOptimization::spec_init_with_values(
                language_name,
                runtime_name,
                runtime_version,
                working_directory,
                use_mock_tracer,
            ),
        ),
{
    lemma_terminated(language_name);
    lemma_terminated(runtime_name);
    lemma_terminated(runtime_version);
    lemma_optional_terminated(working_directory);
}

/// Requests that close a test are well-formed, and only a skipped test
/// carries a reason.
pub proof fn lemma_close_test_requests_sound(
    test: Test,
    status: TestStatus,
    skip_reason: Seq<char>,
    finish: UnixTime,
)
    ensures
        test.spec_close(status, finish).wf(),
        sound(test.spec_close_with_skip_reason(skip_reason, finish)),
{
    lemma_terminated(skip_reason);
}

/// The request that reports coverage is well-formed.
pub proof fn lemma_coverage_request_sound(test: Test, files: Seq<Seq<char>>)
    ensures
        sound(test.spec_set_coverage_data(files)),
{
    lemma_list_failure(files, 0);
    assert forall|i: int| 0 <= i < files.len() && encodable(files[i]) implies terminated(
        #[trigger] list_encoding(files)[i],
    ) by {
        lemma_terminated(files[i]);
    }
}

/// A request that sets benchmark data is well-formed, and none is sent for
/// data without entries.
pub proof fn lemma_benchmark_requests_sound(
    test: Test,
    measure_type: Seq<char>,
    keys: Seq<Seq<char>>,
    texts: Seq<Seq<char>>,
    numbers: Seq<Number>,
)
    requires
        keys.len() == texts.len(),
        keys.len() == numbers.len(),
    ensures
        match test.spec_set_benchmark_string_data(measure_type, keys, texts) {
            Ok(DispatchView::Send(request)) => request.wf() && keys.len() > 0,
            Ok(DispatchView::Settled(accepted)) => accepted && keys.len() == 0,
            Err(_) => keys.len() > 0,
        },
        match test.spec_set_benchmark_number_data(measure_type, keys, numbers) {
            Ok(DispatchView::Send(request)) => request.wf() && keys.len() > 0,
            Ok(DispatchView::Settled(accepted)) => accepted && keys.len() == 0,
            Err(_) => keys.len() > 0,
        },
{
    lemma_terminated(measure_type);
    lemma_pairs_failure(keys, texts, 0);
    lemma_list_failure(keys, 0);
    assert forall|i: int| 0 <= i < keys.len() implies (encodable(keys[i])
        ==> terminated(c_encoding(#[trigger] keys[i]))) && (
    encodable(texts[i]) ==> terminated(c_encoding(texts[i]))) by {
        lemma_terminated(keys[i]);
        lemma_terminated(texts[i]);
    }
    assert forall|i: int| 0 <= i < keys.len() implies pairs_encoding(keys, texts)[i] == (
        c_encoding(keys[i]),
        c_encoding(texts[i]),
    ) by {}
}

} // verus!
