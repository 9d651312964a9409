//! The failure taxonomy of a test run, and the human-readable message of
//! each failure.

use vstd::prelude::*;

use crate::speed_test::Phase;
use crate::text::spec_dec;
use crate::text::u64_to_string;

verus! {

/// Everything that can go wrong between asking for a test and reporting a
/// result.
#[derive(Debug)]
pub enum TestError {
    /// The server directory or configuration could not be fetched.
    CatalogUnavailable { cause: String },
    /// The user-supplied server id is not a parseable non-negative integer.
    InvalidServerId,
    /// The explicitly requested id has no match among the nearest servers.
    ServerNotFound { id: u32 },
    /// Candidate selection succeeded but yielded no server at all.
    NoServersAvailable,
    /// One direction's transfer failed, which aborts that candidate's
    /// session.
    MeasurementFailed { phase: Phase, cause: String },
    /// Every candidate was tried and every session failed.
    AllAttemptsFailed,
}

/// The message that `TestError::message` renders for each failure.
pub open spec fn spec_message(e: TestError) -> Seq<char> {
    match e {
        TestError::CatalogUnavailable { cause } => "Failed to retrieve the server catalog: "@
            + cause@,
        TestError::InvalidServerId => "Server ID must be a valid number"@,
        TestError::ServerNotFound { id } => "Server with ID=\""@ + spec_dec(id as int)
            + "\" not found in available servers."@,
        TestError::NoServersAvailable => "No servers available for testing"@,
        TestError::MeasurementFailed { phase: Phase::Download, cause } => "Download speed test failed: "@
            + cause@,
        TestError::MeasurementFailed { phase: Phase::Upload, cause } => "Upload speed test failed: "@
            + cause@,
        TestError::AllAttemptsFailed => "All attempts failed. Please check your connection."@,
    }
}

impl TestError {
    /// One human-readable line per failure category.
    pub fn message(&self) -> (r: String)
        ensures
            r@ == spec_message(*self),
    {
        match self {
            TestError::CatalogUnavailable { cause } => {
                let mut r = "Failed to retrieve the server catalog: ".to_owned();
                r.append(cause.as_str());
                r
            },
            TestError::InvalidServerId => "Server ID must be a valid number".to_owned(),
            TestError::ServerNotFound { id } => {
                let mut r = "Server with ID=\"".to_owned();
                let digits = u64_to_string(*id as u64);
                r.append(digits.as_str());
                r.append("\" not found in available servers.");
                proof {
                    assert(r@ =~= spec_message(*self));
                }
                r
            },
            TestError::NoServersAvailable => "No servers available for testing".to_owned(),
            TestError::MeasurementFailed { phase, cause } => {
                let mut r = if *phase == Phase::Download {
                    "Download speed test failed: ".to_owned()
                } else {
                    "Upload speed test failed: ".to_owned()
                };
                r.append(cause.as_str());
                r
            },
            TestError::AllAttemptsFailed => {
                "All attempts failed. Please check your connection.".to_owned()
            },
        }
    }
}

} // verus!
