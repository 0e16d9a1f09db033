//! Error taxonomy of the pipeline: one variant per way a stage can fail.

use vstd::prelude::*;
use vstd::string::*;

use crate::num::dec_digits;
use crate::num::u32_dec;

verus! {

/// Failure of the time fetcher: the remote endpoint could not be reached.
#[derive(Clone, Copy, Debug, PartialEq, Eq, Structural)]
pub enum FetchError {
    Unreachable,
}

/// Failure of the time parser.
#[derive(Clone, Copy, Debug, PartialEq, Eq, Structural)]
pub enum ParseError {
    /// The body was not a JSON object with the required, correctly typed fields.
    MalformedJson,
    /// The `datetime` string did not decompose into the expected segments.
    MalformedDateTime,
    /// A calendar or clock segment was not an unsigned 16-bit decimal number.
    InvalidNumericField,
    /// The UTC offset began with `+`; only `-` offsets are supported.
    UnsupportedOffsetSign,
}

/// Failure of the clock setter, carrying the platform's last-error code.
#[derive(Clone, Copy, Debug, PartialEq, Eq, Structural)]
pub enum OsError {
    ClockSetFailed(u32),
}

impl FetchError {
    /// The message logged for a fetch failure.
    pub fn message(&self) -> (r: String)
        ensures
            r@ == "Error in request endpoint."@,
    {
        "Error in request endpoint.".to_owned()
    }
}

impl ParseError {
    /// The message logged for this parse failure.
    pub open spec fn message_spec(&self) -> Seq<char> {
        match self {
            ParseError::MalformedJson => "Malformed JSON in response body."@,
            ParseError::MalformedDateTime => "Malformed datetime in response body."@,
            ParseError::InvalidNumericField => "Invalid numeric field in datetime."@,
            ParseError::UnsupportedOffsetSign => "Unsupported UTC offset sign in datetime."@,
        }
    }

    /// The message logged for this parse failure.
    pub fn message(&self) -> (r: String)
        ensures
            r@ == self.message_spec(),
    {
        match self {
            ParseError::MalformedJson => "Malformed JSON in response body.".to_owned(),
            ParseError::MalformedDateTime => "Malformed datetime in response body.".to_owned(),
            ParseError::InvalidNumericField => "Invalid numeric field in datetime.".to_owned(),
            ParseError::UnsupportedOffsetSign => "Unsupported UTC offset sign in datetime."
                .to_owned(),
        }
    }
}

/// The message logged for a clock-set failure with the given last-error code,
/// the code rendered in decimal, unmodified.
pub open spec fn os_message_spec(code: u32) -> Seq<char> {
    "Error in execution: os error "@ + dec_digits(code as nat)
}

impl OsError {
    /// The message logged for this clock-set failure.
    pub fn message(&self) -> (r: String)
        ensures
            self matches OsError::ClockSetFailed(code) ==> r@ == os_message_spec(*code),
    {
        match self {
            OsError::ClockSetFailed(code) => {
                let mut m = "Error in execution: os error ".to_owned();
                let digits = u32_dec(*code);
                m.append(digits.as_str());
                m
            },
        }
    }
}

} // verus!
