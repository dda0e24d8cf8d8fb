//! Starting and stopping the native library, and reading what it knows of
//! the run.

use crate::boundary::{built, ArrayKind, ForeignArray, Request, RequestView};
use crate::catalogs::{
    decode_known_tests, decode_skippable_tests, known_entries, skippable_entries, KnownTestRecord,
    KnownTests, SkippableTestRecord, SkippableTests, TestManagementRecord,
};
use crate::codec::bool_to_Bool;
use crate::grouped::grouping_of;
use crate::management::{
    decode_test_management_tests, management_entries, management_of, TestManagementTests,
};
use crate::marshal::{
    c_encoding, encodable, encode_str, encoding_failure, lemma_encodable_iff_no_nul_char,
    EncodingError,
};
use crate::requests::{
    encode_optional, first_failure, optional_encoding, optional_failure, optional_text,
};
use crate::settings::{
    FlakyTestRetriesResponse, FlakyTestRetriesSettings, Settings, SettingsResponse,
};
use vstd::prelude::*;

verus! {

/// Name of the language that the host reports.
pub const LANGUAGE_NAME: &'static str = "rust";

/// Name of the runtime that the host reports.
pub const RUNTIME_NAME: &'static str = "rustc";

/// A run of decimal digits that is not empty.
pub open spec fn is_digits(text: Seq<char>) -> bool {
    text.len() > 0 && forall|i: int| 0 <= i < text.len() ==> '0' <= #[trigger] text[i] <= '9'
}

/// A character that the pre-release and build parts of a version are made
/// of: an ASCII letter or digit, a hyphen, the dot between identifiers, or
/// the plus sign before the build part.
pub open spec fn is_version_char(c: char) -> bool {
    ('0' <= c <= '9') || ('A' <= c <= 'Z') || ('a' <= c <= 'z') || c == '-' || c == '.' || c == '+'
}

/// What may follow the patch number: nothing, or a pre-release part after a
/// hyphen, a build part after a plus sign, or both in that order.
pub open spec fn is_version_suffix(text: Seq<char>) -> bool {
    &&& text.len() > 0 ==> text[0] == '-' || text[0] == '+'
    &&& forall|i: int| 0 <= i < text.len() ==> is_version_char(#[trigger] text[i])
}

/// The text of a version with the given parts.
pub open spec fn version_text(
    major: Seq<char>,
    minor: Seq<char>,
    patch: Seq<char>,
    suffix: Seq<char>,
) -> Seq<char> {
    major + seq!['.'] + minor + seq!['.'] + patch + suffix
}

/// The text is a version as it is written out: `MAJOR.MINOR.PATCH` in
/// decimal digits, and after it the pre-release and build parts, if any.
pub open spec fn is_version_text(text: Seq<char>) -> bool {
    exists|major: Seq<char>, minor: Seq<char>, patch: Seq<char>, suffix: Seq<char>|
        is_digits(major) && is_digits(minor) && is_digits(patch) && is_version_suffix(suffix)
            && text == #[trigger] version_text(major, minor, patch, suffix)
}

/// A version text holds no null character, so it can always be sent.
pub proof fn lemma_version_text_encodable(text: Seq<char>)
    requires
        is_version_text(text),
    ensures
        encodable(text),
{
    let (major, minor, patch, suffix) = choose|
        major: Seq<char>,
        minor: Seq<char>,
        patch: Seq<char>,
        suffix: Seq<char>,
    |
        is_digits(major) && is_digits(minor) && is_digits(patch) && is_version_suffix(suffix)
            && text == #[trigger] version_text(major, minor, patch, suffix);
    let a = major.len() as int;
    let b = minor.len() as int;
    let c = patch.len() as int;
    assert forall|i: int| 0 <= i < text.len() implies text[i] != '\0' by {
        if i < a {
            assert(text[i] == major[i]);
        } else if i == a {
            assert(text[i] == '.');
        } else if i < a + 1 + b {
            assert(text[i] == minor[i - a - 1]);
        } else if i == a + 1 + b {
            assert(text[i] == '.');
        } else if i < a + b + c + 2 {
            assert(text[i] == patch[i - a - b - 2]);
        } else {
            assert(text[i] == suffix[i - a - b - c - 2]);
            assert(is_version_char(suffix[i - a - b - c - 2]));
        }
    }
    lemma_encodable_iff_no_nul_char(text);
}

/// The names that this host reports for its language and its runtime, and
/// that both can be sent.
pub proof fn lemma_host_names()
    ensures
        LANGUAGE_NAME@ == seq!['r', 'u', 's', 't'],
        RUNTIME_NAME@ == seq!['r', 'u', 's', 't', 'c'],
        encodable(LANGUAGE_NAME@),
        encodable(RUNTIME_NAME@),
{
    reveal_strlit("rust");
    reveal_strlit("rustc");
    assert(LANGUAGE_NAME@ =~= seq!['r', 'u', 's', 't']);
    assert(RUNTIME_NAME@ =~= seq!['r', 'u', 's', 't', 'c']);
    lemma_encodable_iff_no_nul_char(LANGUAGE_NAME@);
    lemma_encodable_iff_no_nul_char(RUNTIME_NAME@);
}

/// The facade of the native library as a whole.
#[derive(Clone, Copy, Debug)]
pub struct TestOptimization;

impl TestOptimization {
    /// `rustc_version_runtime::version`, written out as text: the version of
    /// the compiler that built the program. Which version that is depends on
    /// the build; claimed is only the shape in which `semver` writes every
    /// version: the three numbers in decimal with dots between them, then
    /// `-` and the pre-release part and `+` and the build part where they
    /// are not empty, both made of ASCII letters, digits, hyphens and dots.
    #[verifier::external_body]
    pub fn runtime_version() -> (version: String)
        ensures
            is_version_text(version@),
    {
        rustc_version_runtime::version().to_string()
    }

    /// The initialize request for the given values, or the failure of the
    /// first string that cannot be sent.
    pub open spec fn spec_init_with_values(
        language_name: Seq<char>,
        runtime_name: Seq<char>,
        runtime_version: Seq<char>,
        working_directory: Option<Seq<char>>,
        use_mock_tracer: bool,
    ) -> Result<RequestView, EncodingError> {
        match first_failure(
            encoding_failure(language_name),
            first_failure(
                encoding_failure(runtime_name),
                first_failure(
                    encoding_failure(runtime_version),
                    optional_failure(working_directory),
                ),
            ),
        ) {
            Some(e) => Err(e),
            None => Ok(
                RequestView::Initialize {
                    language: c_encoding(language_name),
                    runtime_name: c_encoding(runtime_name),
                    runtime_version: c_encoding(runtime_version),
                    working_directory: optional_encoding(working_directory),
                    use_mock_tracer: if use_mock_tracer {
                        1u8
                    } else {
                        0u8
                    },
                },
            ),
        }
    }

    /// Builds the request that initializes the native library with the
    /// given values. With `use_mock_tracer` the native side records spans in
    /// memory instead of sending them.
    pub fn init_with_values(
        language_name: &str,
        runtime_name: &str,
        runtime_version: &str,
        working_directory: Option<&str>,
        use_mock_tracer: bool,
    ) -> (r: Result<Request, EncodingError>)
        ensures
            built(r) == Self::spec_init_with_values(
                language_name@,
                runtime_name@,
                runtime_version@,
                optional_text(working_directory),
                use_mock_tracer,
            ),
    {
        let language = match encode_str(language_name) {
            Ok(buffer) => buffer,
            Err(e) => { return Err(e); },
        };
        let runtime_name = match encode_str(runtime_name) {
            Ok(buffer) => buffer,
            Err(e) => { return Err(e); },
        };
        let runtime_version = match encode_str(runtime_version) {
            Ok(buffer) => buffer,
            Err(e) => { return Err(e); },
        };
        let working_directory = match encode_optional(working_directory) {
            Ok(buffer) => buffer,
            Err(e) => { return Err(e); },
        };
        Ok(
            Request::Initialize {
                language,
                runtime_name,
                runtime_version,
                working_directory,
                use_mock_tracer: bool_to_Bool(use_mock_tracer),
            },
        )
    }

    /// `r` is the initialize request of this host for the text of some
    /// version, or the failure of the working directory: the language is
    /// `LANGUAGE_NAME`, the runtime is `RUNTIME_NAME`, and the runtime version
    /// has the shape of a version.
    pub open spec fn spec_init(
        r: Result<Request, EncodingError>,
        working_directory: Option<Seq<char>>,
        use_mock_tracer: bool,
    ) -> bool {
        exists|version: Seq<char>|
            is_version_text(version) && built(r) == #[trigger] Self::spec_init_with_values(
                LANGUAGE_NAME@,
                RUNTIME_NAME@,
                version,
                working_directory,
                use_mock_tracer,
            )
    }

    /// Builds the initialize request of this host with the version of the
    /// compiler that built the program. Only the working directory can keep
    /// the request from being built.
    fn init_host(working_directory: Option<&str>, use_mock_tracer: bool) -> (r: Result<
        Request,
        EncodingError,
    >)
        ensures
            Self::spec_init(r, optional_text(working_directory), use_mock_tracer),
            match optional_failure(optional_text(working_directory)) {
                Some(e) => r == Err::<Request, EncodingError>(e),
                None => r is Ok,
            },
    {
        let version = Self::runtime_version();
        proof {
            lemma_host_names();
            lemma_version_text_encodable(version@);
        }
        Self::init_with_values(
            LANGUAGE_NAME,
            RUNTIME_NAME,
            version.as_str(),
            working_directory,
            use_mock_tracer,
        )
    }

    /// Builds the request that initializes the native library for this
    /// host. The request is always built.
    pub fn init() -> (r: Result<Request, EncodingError>)
        ensures
            Self::spec_init(r, None, false),
            r is Ok,
    {
        Self::init_host(None, false)
    }

    /// Builds the request that initializes the native library for this
    /// host, in the given working directory. The request is built unless the
    /// directory cannot be sent.
    pub fn init_with_working_dir(working_dir: &str) -> (r: Result<Request, EncodingError>)
        ensures
            Self::spec_init(r, Some(working_dir@), false),
            r is Ok <==> encodable(working_dir@),
            encoding_failure(working_dir@) matches Some(e) ==> r == Err::<Request, EncodingError>(e),
    {
        Self::init_host(Some(working_dir), false)
    }

    /// Builds the request that initializes the native library for this
    /// host, with the mock tracer. The request is always built.
    pub fn init_mock() -> (r: Result<Request, EncodingError>)
        ensures
            Self::spec_init(r, None, true),
            r is Ok,
    {
        Self::init_host(None, true)
    }

    /// Builds the request that initializes the native library for this
    /// host, with the mock tracer, in the given working directory. The
    /// request is built unless the directory cannot be sent.
    pub fn init_mock_with_working_dir(working_dir: &str) -> (r: Result<Request, EncodingError>)
        ensures
            Self::spec_init(r, Some(working_dir@), true),
            r is Ok <==> encodable(working_dir@),
            encoding_failure(working_dir@) matches Some(e) ==> r == Err::<Request, EncodingError>(e),
    {
        Self::init_host(Some(working_dir), true)
    }

    /// Builds the request that shuts the native library down.
    pub fn shutdown() -> (r: Request)
        ensures
            r@ == RequestView::Shutdown,
    {
        Request::Shutdown
    }

    /// Reads the settings of the run out of the reply to
    /// `Request::GetSettings`.
    pub fn get_settings(response: &SettingsResponse) -> (settings: Settings)
        ensures
            settings == Settings::spec_from_response(*response),
    {
        Settings::from_response(response)
    }

    /// Reads the retry policy for flaky tests out of the reply to
    /// `Request::GetFlakyTestRetriesSettings`.
    pub fn get_flaky_test_retries_settings(response: &FlakyTestRetriesResponse) -> (settings:
        FlakyTestRetriesSettings)
        ensures
            settings.retry_count == response.retry_count,
            settings.total_retry_count == response.total_retry_count,
    {
        FlakyTestRetriesSettings::from_response(response)
    }

    /// Reads the reply to `Request::GetKnownTests` and returns the known
    /// tests with the request that gives the array back.
    pub fn get_known_tests(array: ForeignArray<KnownTestRecord>) -> (r: (KnownTests, Request))
        ensures
            r.0.wf(),
            r.0@ == grouping_of(known_entries(array.items())),
            r.1@ == (RequestView::Release { array: ArrayKind::KnownTests }),
    {
        decode_known_tests(array)
    }

    /// Reads the reply to `Request::GetSkippableTests` and returns the
    /// skippable tests with the request that gives the array back.
    pub fn get_skippable_tests(array: ForeignArray<SkippableTestRecord>) -> (r: (
        SkippableTests,
        Request,
    ))
        ensures
            r.0.wf(),
            r.0@ == grouping_of(skippable_entries(array.items())),
            r.1@ == (RequestView::Release { array: ArrayKind::SkippableTests }),
    {
        decode_skippable_tests(array)
    }

    /// Reads the reply to `Request::GetTestManagementTests` and returns the
    /// tests under test management with the request that gives the array
    /// back.
    pub fn get_test_management_tests(array: ForeignArray<TestManagementRecord>) -> (r: (
        TestManagementTests,
        Request,
    ))
        ensures
            r.0.wf(),
            r.0@ == management_of(management_entries(array.items())),
            r.1@ == (RequestView::Release { array: ArrayKind::TestManagementTests }),
    {
        decode_test_management_tests(array)
    }
}

} // verus!
