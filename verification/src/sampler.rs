//! Turning probe output into a `Sample`: decoding and trimming captured
//! bytes, parsing the numeric fields, the screensaver rule, and the idle
//! rule.

use vstd::prelude::*;
use vstd::utf8::{decode_utf8, valid_utf8};

use crate::num::{
    dec_val, digits_part, parse_decimal_u128, parse_decimal_u32, parses_as_u128, parses_as_u32,
};
use crate::sample::{Sample, SampleError};
use crate::text::{has_substring, str_contains, trim, trim_spec};

verus! {

/// The probes a sampling attempt runs, in order.
#[derive(Clone, Copy, Debug, PartialEq, Eq, Structural)]
pub enum Probe {
    /// The active window's title.
    WindowTitle,
    /// The active window's owning process id, as text.
    WindowPid,
    /// The command name of a process, looked up by its textual id.
    ProcessName,
    /// The screensaver's status line.
    Screensaver,
    /// The idle duration in milliseconds, as text.
    IdleTime,
}

/// The external command and arguments that carry out a probe. The
/// process-name probe passes the textual id exactly as the pid probe
/// returned it, not a re-rendered number.
pub fn probe_invocation(probe: Probe, pid_text: &str) -> (r: (String, Vec<String>))
    ensures
        match probe {
            Probe::WindowTitle => r.0@ == "xdotool"@ && r.1@.len() == 2
                && r.1@[0]@ == "getactivewindow"@ && r.1@[1]@ == "getwindowname"@,
            Probe::WindowPid => r.0@ == "xdotool"@ && r.1@.len() == 2
                && r.1@[0]@ == "getactivewindow"@ && r.1@[1]@ == "getwindowpid"@,
            Probe::ProcessName => r.0@ == "ps"@ && r.1@.len() == 4 && r.1@[0]@ == "-p"@
                && r.1@[1]@ == pid_text@ && r.1@[2]@ == "-o"@ && r.1@[3]@ == "comm="@,
            Probe::Screensaver => r.0@ == "gnome-screensaver-command"@ && r.1@.len() == 1
                && r.1@[0]@ == "-q"@,
            Probe::IdleTime => r.0@ == "xprintidle"@ && r.1@.len() == 0,
        },
{
    match probe {
        Probe::WindowTitle => (
            "xdotool".to_owned(),
            vec!["getactivewindow".to_owned(), "getwindowname".to_owned()],
        ),
        Probe::WindowPid => (
            "xdotool".to_owned(),
            vec!["getactivewindow".to_owned(), "getwindowpid".to_owned()],
        ),
        Probe::ProcessName => (
            "ps".to_owned(),
            vec!["-p".to_owned(), pid_text.to_owned(), "-o".to_owned(), "comm=".to_owned()],
        ),
        Probe::Screensaver => ("gnome-screensaver-command".to_owned(), vec!["-q".to_owned()]),
        Probe::IdleTime => ("xprintidle".to_owned(), Vec::new()),
    }
}

/// The environment override forced onto every probe child process, so
/// that textual markers such as "inactive" are stable whatever the host
/// locale is.
pub fn probe_locale() -> (r: (String, String))
    ensures
        r.0@ == "LC_ALL"@,
        r.1@ == "C"@,
{
    ("LC_ALL".to_owned(), "C".to_owned())
}

/// Relies on std's `str::from_utf8`: it returns `Ok` exactly when the
/// bytes are valid UTF-8, and then decodes them; the result is copied
/// into an owned `String`.
#[verifier::external_body]
fn utf8_string(bytes: &[u8]) -> (r: Option<String>)
    ensures
        match r {
            Some(s) => valid_utf8(bytes@) && s@ == decode_utf8(bytes@),
            None => !valid_utf8(bytes@),
        },
{
    std::str::from_utf8(bytes).ok().map(|s| s.to_string())
}

/// Decode a probe's captured standard output and strip surrounding
/// whitespace; bytes that are not valid text are the text-decoding
/// failure and come back unchanged inside the error.
pub fn probe_text(raw: Vec<u8>) -> (r: Result<String, SampleError>)
    ensures
        valid_utf8(raw@) ==> (r matches Ok(s) && s@ == trim_spec(decode_utf8(raw@))),
        !valid_utf8(raw@) ==> (r matches Err(e) && e matches SampleError::FromUtf8(b) && b@
            == raw@),
{
    match utf8_string(raw.as_slice()) {
        Some(s) => Ok(trim(s.as_str())),
        None => Err(SampleError::FromUtf8(raw)),
    }
}

/// The screensaver counts as active unless its status text contains the
/// substring "inactive"; empty or malformed output therefore counts as
/// active.
pub open spec fn screensaver_active_spec(text: Seq<char>) -> bool {
    !has_substring(text, "inactive"@)
}

/// Decide screensaver state from the status probe's text.
pub fn screensaver_active_from(text: &str) -> (r: bool)
    ensures
        r == screensaver_active_spec(text@),
{
    !str_contains(text, "inactive")
}

/// The desktop counts as idle when the measured idle duration strictly
/// exceeds the sampling interval; an idle time exactly equal to the
/// interval is not idle.
pub open spec fn idle_spec(idle_ms: int, interval_secs: int) -> bool {
    idle_ms > interval_secs * 1000
}

/// Decide idleness from the measured idle milliseconds and the
/// configured interval in seconds.
pub fn is_idle(idle_ms: u128, sample_interval: u64) -> (r: bool)
    ensures
        r == idle_spec(idle_ms as int, sample_interval as int),
{
    idle_ms > (sample_interval as u128) * 1000
}

/// Parse a process id; text that is not an unsigned decimal integer in
/// range is the numeric-parse failure and comes back inside the error.
pub fn parse_pid(text: &str) -> (r: Result<u32, SampleError>)
    ensures
        parses_as_u32(text@) ==> (r matches Ok(v) && v == dec_val(digits_part(text@))),
        !parses_as_u32(text@) ==> (r matches Err(e) && e matches SampleError::ParseInt(t) && t@
            == text@),
{
    match parse_decimal_u32(text) {
        Some(v) => Ok(v),
        None => Err(SampleError::ParseInt(text.to_owned())),
    }
}

/// Parse an idle duration in milliseconds, in the same way.
pub fn parse_idle_ms(text: &str) -> (r: Result<u128, SampleError>)
    ensures
        parses_as_u128(text@) ==> (r matches Ok(v) && v == dec_val(digits_part(text@))),
        !parses_as_u128(text@) ==> (r matches Err(e) && e matches SampleError::ParseInt(t) && t@
            == text@),
{
    match parse_decimal_u128(text) {
        Some(v) => Ok(v),
        None => Err(SampleError::ParseInt(text.to_owned())),
    }
}

/// Assemble one `Sample` from the five probes' trimmed output texts and
/// the configured sampling interval in seconds.
///
/// The pid text is judged first and the idle text second, as the probes
/// run in that order; the first failure aborts the whole sample, and no
/// partial sample is ever produced.
pub fn get_sample(
    window_title: String,
    pid_text: &str,
    process_name: String,
    screensaver_text: &str,
    idle_text: &str,
    sample_interval: u64,
) -> (r: Result<Sample, SampleError>)
    ensures
        !parses_as_u32(pid_text@) ==> (r matches Err(e) && e matches SampleError::ParseInt(t)
            && t@ == pid_text@),
        parses_as_u32(pid_text@) && !parses_as_u128(idle_text@) ==> (r matches Err(e)
            && e matches SampleError::ParseInt(t) && t@ == idle_text@),
        parses_as_u32(pid_text@) && parses_as_u128(idle_text@) ==> (r matches Ok(s) && {
            &&& s.window_title@ == window_title@
            &&& s.pid == dec_val(digits_part(pid_text@))
            &&& s.process_name@ == process_name@
            &&& s.screensaver_active == screensaver_active_spec(screensaver_text@)
            &&& s.idle == idle_spec(dec_val(digits_part(idle_text@)), sample_interval as int)
        }),
{
    let pid = match parse_pid(pid_text) {
        Ok(v) => v,
        Err(e) => {
            return Err(e);
        },
    };
    let screensaver_active = screensaver_active_from(screensaver_text);
    let idle_time = match parse_idle_ms(idle_text) {
        Ok(v) => v,
        Err(e) => {
            return Err(e);
        },
    };
    let idle = is_idle(idle_time, sample_interval);
    Ok(
        Sample {
            window_title,
            pid,
            process_name,
            screensaver_active,
            idle,
        },
    )
}

} // verus!
