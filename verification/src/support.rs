//! Small pieces shared by the services and their tests: the tracing error,
//! the test timeout, the stub HAR server's builder and optional values as text.

use crate::SDV_DEFAULT_TEST_TIMEOUT_SECONDS;
use std::time::Duration;
use vstd::prelude::*;

verus! {

/// Error of HAR tracing.
#[derive(Debug)]
pub enum HarTracingError {
    /// Tracing could not be initialized; the text says why.
    InitError(String),
}

impl HarTracingError {
    /// The error as text.
    pub fn message(&self) -> (s: String)
        ensures
            self matches HarTracingError::InitError(e) && s@ == "Tracing initialization failed: "@
                + e@,
    {
        match self {
            HarTracingError::InitError(err) => {
                let mut s = String::from_str("Tracing initialization failed: ");
                s.append(err.as_str());
                s
            },
        }
    }
}

/// The result of initializing HAR tracing, given what the tracing library
/// reported: a failure becomes an initialization error that quotes it.
pub fn init_har_tracing_result(outcome: Result<(), String>) -> (r: Result<(), HarTracingError>)
    ensures
        outcome is Ok ==> r is Ok,
        outcome matches Err(e) ==> (r matches Err(HarTracingError::InitError(m)) && m@
            == "Failed to init tracing: "@ + e@),
{
    match outcome {
        Ok(()) => Ok(()),
        Err(err) => {
            let mut m = String::from_str("Failed to init tracing: ");
            m.append(err.as_str());
            Err(HarTracingError::InitError(m))
        },
    }
}

/// The duration of `secs` whole seconds.
pub uninterp spec fn duration_of_secs(secs: u64) -> Duration;

/// `Duration::from_secs`: the duration of `secs` whole seconds.
#[verifier::external_body]
fn duration_from_secs(secs: u64) -> (d: Duration)
    ensures
        d == duration_of_secs(secs),
{
    Duration::from_secs(secs)
}

/// The default timeout of the service bundle tests: long enough for the SDV
/// services to start after boot.
pub fn default_sdv_test_timeout() -> (d: Duration)
    ensures
        d == duration_of_secs(SDV_DEFAULT_TEST_TIMEOUT_SECONDS),
{
    duration_from_secs(SDV_DEFAULT_TEST_TIMEOUT_SECONDS)
}

/// Builds the stub of HAR's vehicle data server at an address.
#[derive(Debug)]
pub struct StubHarryServerBuilder {
    pub server_address: String,
}

impl StubHarryServerBuilder {
    pub fn new(server_address: String) -> (b: Self)
        ensures
            b.server_address@ == server_address@,
    {
        Self { server_address }
    }
}

/// The debug text of a value.
#[verifier::external_body]
fn debug_text<T: std::fmt::Debug>(value: &T) -> (s: String) {
    format!("{:?}", value)
}

/// An optional value as text: its debug text, or `None`.
pub fn option_to_string<T: std::fmt::Debug>(val: &Option<T>) -> (s: String)
    ensures
        val is None ==> s@ == "None"@,
{
    match val {
        Some(x) => debug_text(x),
        None => String::from_str("None"),
    }
}

} // verus!
