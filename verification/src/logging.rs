//! Construction of the failure log's content.
//!
//! A failure is recorded as one line, `"<message> - [<seconds>]"`, where
//! `<seconds>` is the clock's second-of-minute at log time. The log file is
//! rewritten whole: its prior content, the new line appended. The clock is
//! read here through total, non-aborting calls; touching the file system
//! happens outside this crate, and the content handed back here is exact.

use vstd::prelude::*;
use vstd::string::*;

use chrono::Timelike;

use crate::num::dec_digits;
use crate::num::u32_dec;

verus! {

/// The log line recorded for `message` at second `seconds` of the minute.
pub open spec fn log_line_spec(message: Seq<char>, seconds: nat) -> Seq<char> {
    message + " - ["@ + dec_digits(seconds) + "]\n"@
}

/// Builds the log line for `message` at second `seconds`.
pub fn render_log_line(message: &str, seconds: u32) -> (r: String)
    ensures
        r@ == log_line_spec(message@, seconds as nat),
{
    let mut line = message.to_owned();
    line.append(" - [");
    let digits = u32_dec(seconds);
    line.append(digits.as_str());
    line.append("]\n");
    proof {
        assert(line@ =~= log_line_spec(message@, seconds as nat));
    }
    line
}

/// Appends the log line for `message` at second `seconds` to the log's prior
/// content, which is kept verbatim.
pub fn append_log_line(content: &str, message: &str, seconds: u32) -> (r: String)
    ensures
        r@ == content@ + log_line_spec(message@, seconds as nat),
{
    let mut out = content.to_owned();
    let line = render_log_line(message, seconds);
    out.append(line.as_str());
    out
}

/// Relies on std's `SystemTime`: the seconds since the Unix epoch, or `None`
/// for a clock set before the epoch. Every branch of `duration_since` is
/// handled, so the call always returns.
#[verifier::external_body]
fn epoch_seconds_now() -> (r: Option<u64>)
{
    std::time::SystemTime::now().duration_since(std::time::UNIX_EPOCH).ok().map(|d| d.as_secs())
}

/// Relies on chrono's `DateTime::from_timestamp` and `Timelike::second`: the
/// second-of-minute at the given epoch second. An epoch outside chrono's
/// range comes back as `None` rather than aborting, and chrono documents
/// `second` as a number from 0 to 59. Real timezone offsets are whole
/// minutes, so the value equals the local second-of-minute.
#[verifier::external_body]
fn second_of_epoch(epoch_seconds: u64) -> (r: Option<u32>)
    ensures
        r matches Some(s) ==> s < 60,
{
    chrono::DateTime::from_timestamp(epoch_seconds as i64, 0).map(|m| m.second())
}

/// Appends the log line for `message` at the clock's current second of the
/// minute. Whatever the clock reports — even one that cannot be read, for
/// which second 0 stands in — the recorded second lies in `[0, 59]` and
/// exactly one line is appended after the unchanged prior content. Every
/// branch of the clock read is handled as a value, so the call never aborts.
pub fn append_log_line_now(content: &str, message: &str) -> (r: String)
    ensures
        exists|s: nat| s < 60 && r@ == content@ + log_line_spec(message@, s),
{
    let seconds: u32 = match epoch_seconds_now() {
        Some(epoch) => match second_of_epoch(epoch) {
            Some(s) => s,
            None => 0,
        },
        None => 0,
    };
    let r = append_log_line(content, message, seconds);
    proof {
        assert((seconds as nat) < 60 && r@ == content@ + log_line_spec(message@, seconds as nat));
    }
    r
}

/// Logging twice accumulates both lines in call order: the content after the
/// second append begins with the content after the first — the prior content
/// and the whole first line, lost nowhere — and ends with the second line.
pub proof fn lemma_log_accumulates(
    content: Seq<char>,
    message1: Seq<char>,
    seconds1: nat,
    message2: Seq<char>,
    seconds2: nat,
)
    ensures
        ((content + log_line_spec(message1, seconds1)) + log_line_spec(message2, seconds2)).take(
            (content + log_line_spec(message1, seconds1)).len() as int,
        ) == content + log_line_spec(message1, seconds1),
        ((content + log_line_spec(message1, seconds1)) + log_line_spec(message2, seconds2)).skip(
            (content + log_line_spec(message1, seconds1)).len() as int,
        ) == log_line_spec(message2, seconds2),
{
    let after1 = content + log_line_spec(message1, seconds1);
    let after2 = after1 + log_line_spec(message2, seconds2);
    assert(after2.take(after1.len() as int) =~= after1);
    assert(after2.skip(after1.len() as int) =~= log_line_spec(message2, seconds2));
}

} // verus!
