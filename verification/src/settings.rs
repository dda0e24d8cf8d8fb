//! Settings of a run, as the native side reports them and as the host reads
//! them.

use crate::codec::Bool_to_bool;
use vstd::prelude::*;

verus! {

/// Retries of slow tests under early flake detection, by test duration.
#[derive(Clone, Copy, Debug, PartialEq, Eq, Structural)]
pub struct EfdSlowTestRetriesSettings {
    /// Retries for tests that take up to five minutes.
    pub five_m: i32,
    /// Retries for tests that take up to thirty seconds.
    pub thirty_s: i32,
    /// Retries for tests that take up to ten seconds.
    pub ten_s: i32,
    /// Retries for tests that take up to five seconds.
    pub five_s: i32,
}

/// Early flake detection.
#[derive(Clone, Copy, Debug, PartialEq, Eq, Structural)]
pub struct EfDSettings {
    /// Whether early flake detection is on.
    pub enabled: bool,
    /// Retries of slow tests.
    pub slow_test_retries: EfdSlowTestRetriesSettings,
    /// Share of new tests above which a session counts as faulty.
    pub faulty_session_threshold: i32,
}

/// Retry policy for flaky tests.
#[derive(Clone, Copy, Debug, PartialEq, Eq, Structural)]
pub struct FlakyTestRetriesSettings {
    /// Retries of one test.
    pub retry_count: i32,
    /// Retries of the whole session.
    pub total_retry_count: i32,
}

/// Test management.
#[derive(Clone, Copy, Debug, PartialEq, Eq, Structural)]
pub struct TestManagementSettings {
    /// Whether test management is on.
    pub enabled: bool,
    /// Retries of a test that someone attempts to fix.
    pub attempt_to_fix_retries: i32,
}

/// Settings of a run.
#[derive(Clone, Copy, Debug, PartialEq, Eq, Structural)]
pub struct Settings {
    /// Whether code coverage is collected.
    pub code_coverage: bool,
    /// Early flake detection.
    pub early_flake_detection: EfDSettings,
    /// Whether flaky tests are retried.
    pub flaky_test_retries_enabled: bool,
    /// Whether intelligent test running is on.
    pub itr_enabled: bool,
    /// Whether git data is required.
    pub require_git: bool,
    /// Whether tests may be skipped.
    pub tests_skipping: bool,
    /// Whether known tests are tracked.
    pub known_tests_enabled: bool,
    /// Test management.
    pub test_management: TestManagementSettings,
}

/// Early flake detection as the native side reports it.
#[derive(Clone, Copy, Debug, PartialEq, Eq, Structural)]
pub struct EfdResponse {
    pub enabled: u8,
    pub slow_test_retries: EfdSlowTestRetriesSettings,
    pub faulty_session_threshold: i32,
}

/// Test management as the native side reports it.
#[derive(Clone, Copy, Debug, PartialEq, Eq, Structural)]
pub struct TestManagementResponse {
    pub enabled: u8,
    pub attempt_to_fix_retries: i32,
}

/// Settings as the native side reports them, each boolean as one byte.
#[derive(Clone, Copy, Debug, PartialEq, Eq, Structural)]
pub struct SettingsResponse {
    pub code_coverage: u8,
    pub early_flake_detection: EfdResponse,
    pub flaky_test_retries_enabled: u8,
    pub itr_enabled: u8,
    pub require_git: u8,
    pub tests_skipping: u8,
    pub known_tests_enabled: u8,
    pub test_management: TestManagementResponse,
}

/// The retry policy for flaky tests as the native side reports it.
#[derive(Clone, Copy, Debug, PartialEq, Eq, Structural)]
pub struct FlakyTestRetriesResponse {
    pub retry_count: i32,
    pub total_retry_count: i32,
}

impl Settings {
    /// The settings that a response stands for: every byte that is not zero
    /// reads as true, every number is taken as it is.
    pub open spec fn spec_from_response(response: SettingsResponse) -> Settings {
        Settings {
            code_coverage: response.code_coverage != 0,
            early_flake_detection: EfDSettings {
                enabled: response.early_flake_detection.enabled != 0,
                slow_test_retries: response.early_flake_detection.slow_test_retries,
                faulty_session_threshold: response.early_flake_detection.faulty_session_threshold,
            },
            flaky_test_retries_enabled: response.flaky_test_retries_enabled != 0,
            itr_enabled: response.itr_enabled != 0,
            require_git: response.require_git != 0,
            tests_skipping: response.tests_skipping != 0,
            known_tests_enabled: response.known_tests_enabled != 0,
            test_management: TestManagementSettings {
                enabled: response.test_management.enabled != 0,
                attempt_to_fix_retries: response.test_management.attempt_to_fix_retries,
            },
        }
    }

    /// Reads the settings out of a response of the native side.
    pub fn from_response(response: &SettingsResponse) -> (settings: Settings)
        ensures
            settings == Self::spec_from_response(*response),
    {
        Settings {
            code_coverage: Bool_to_bool(response.code_coverage),
            early_flake_detection: EfDSettings {
                enabled: Bool_to_bool(response.early_flake_detection.enabled),
                slow_test_retries: EfdSlowTestRetriesSettings {
                    five_m: response.early_flake_detection.slow_test_retries.five_m,
                    thirty_s: response.early_flake_detection.slow_test_retries.thirty_s,
                    ten_s: response.early_flake_detection.slow_test_retries.ten_s,
                    five_s: response.early_flake_detection.slow_test_retries.five_s,
                },
                faulty_session_threshold: response.early_flake_detection.faulty_session_threshold,
            },
            flaky_test_retries_enabled: Bool_to_bool(response.flaky_test_retries_enabled),
            itr_enabled: Bool_to_bool(response.itr_enabled),
            require_git: Bool_to_bool(response.require_git),
            tests_skipping: Bool_to_bool(response.tests_skipping),
            known_tests_enabled: Bool_to_bool(response.known_tests_enabled),
            test_management: TestManagementSettings {
                enabled: Bool_to_bool(response.test_management.enabled),
                attempt_to_fix_retries: response.test_management.attempt_to_fix_retries,
            },
        }
    }
}

impl FlakyTestRetriesSettings {
    /// Reads the retry policy out of a response of the native side.
    pub fn from_response(response: &FlakyTestRetriesResponse) -> (settings: FlakyTestRetriesSettings)
        ensures
            settings.retry_count == response.retry_count,
            settings.total_retry_count == response.total_retry_count,
    {
        FlakyTestRetriesSettings {
            retry_count: response.retry_count,
            total_retry_count: response.total_retry_count,
        }
    }
}

} // verus!
