//! Change detection: the single "last observed sample" slot, the
//! decision of what one tick emits, and the rendering of the emitted
//! line.

use vstd::prelude::*;

use crate::num::{dec_str, u32_dec_string};
use crate::sample::{describe_spec, sample_eq, Sample, SampleError};

verus! {

/// The line reported for a sample. While the screensaver is active the
/// line is exactly `screensaver`, whatever the other fields hold, since
/// window identity is not meaningful behind a lock screen; otherwise it
/// is `'<title>' ([<pid>] <name>)`, with ` (idle)` appended exactly when
/// the sample is idle.
pub open spec fn line_spec(s: Sample) -> Seq<char> {
    if s.screensaver_active {
        "screensaver"@
    } else {
        "'"@ + s.window_title@ + "' (["@ + dec_str(s.pid as int) + "] "@ + s.process_name@ + ")"@
            + (if s.idle {
                " (idle)"@
            } else {
                Seq::<char>::empty()
            })
    }
}

/// Render the reported line for a sample.
pub fn render_line(s: &Sample) -> (r: String)
    ensures
        r@ == line_spec(*s),
        s.screensaver_active ==> r@ == "screensaver"@,
        !s.screensaver_active && s.idle ==> r@ == "'"@ + s.window_title@ + "' (["@ + dec_str(
            s.pid as int,
        ) + "] "@ + s.process_name@ + ")"@ + " (idle)"@,
        !s.screensaver_active && !s.idle ==> r@ == "'"@ + s.window_title@ + "' (["@ + dec_str(
            s.pid as int,
        ) + "] "@ + s.process_name@ + ")"@,
{
    if s.screensaver_active {
        "screensaver".to_owned()
    } else {
        let mut r = "'".to_owned();
        r.append(s.window_title.as_str());
        r.append("' ([");
        let pid = u32_dec_string(s.pid);
        r.append(pid.as_str());
        r.append("] ");
        r.append(s.process_name.as_str());
        r.append(")");
        if s.idle {
            r.append(" (idle)");
        }
        proof {
            assert(r@ =~= line_spec(*s));
        }
        r
    }
}

/// What the slot holds after a tick: the new sample on success, empty
/// on failure.
pub open spec fn slot_after(outcome: Result<Sample, SampleError>) -> Option<Sample> {
    match outcome {
        Ok(s) => Some(s),
        Err(_) => None,
    }
}

/// Whether a successful sample is reported: always when the slot is
/// empty, otherwise exactly when it differs from the slot's sample.
pub open spec fn emits(last: Option<Sample>, s: Sample) -> bool {
    match last {
        None => true,
        Some(p) => !sample_eq(p, s),
    }
}

/// What one tick hands back to be written out.
#[derive(Debug)]
pub enum TickOutput {
    /// A state change: this line goes to the output stream.
    Report(String),
    /// No change: nothing is written.
    Quiet,
    /// The sampling attempt failed: this diagnostic goes to the
    /// error-reporting stream.
    Failure(String),
}

/// The change detector: owns the single "last observed sample" slot,
/// initially empty.
pub struct Tracker {
    last: Option<Sample>,
}

impl Tracker {
    /// The slot's content.
    pub closed spec fn last_sample(&self) -> Option<Sample> {
        self.last
    }

    /// A fresh detector with an empty slot, so the first successful
    /// sample is always reported.
    pub fn new() -> (r: Tracker)
        ensures
            r.last_sample() is None,
    {
        Tracker { last: None }
    }

    /// Process one tick's sampling outcome.
    ///
    /// On success the slot always takes the new sample, and a line is
    /// rendered exactly when the sample differs from the slot's previous
    /// content (or the slot was empty). On failure the slot is cleared,
    /// so the next successful sample is always reported, and the
    /// diagnostic for the failure is handed back.
    pub fn tick(&mut self, outcome: Result<Sample, SampleError>) -> (r: TickOutput)
        ensures
            final(self).last_sample() == slot_after(outcome),
            match outcome {
                Ok(s) => if emits(old(self).last_sample(), s) {
                    r matches TickOutput::Report(line) && line@ == line_spec(s)
                } else {
                    r is Quiet
                },
                Err(e) => r matches TickOutput::Failure(d) && d@ == describe_spec(e),
            },
    {
        match outcome {
            Ok(s) => {
                let changed = match &self.last {
                    None => true,
                    Some(p) => !(*p == s),
                };
                let out = if changed {
                    TickOutput::Report(render_line(&s))
                } else {
                    TickOutput::Quiet
                };
                self.last = Some(s);
                out
            },
            Err(e) => {
                self.last = None;
                TickOutput::Failure(e.describe())
            },
        }
    }
}

/// Feeding a fresh detector one sample and then another reports the
/// first always, and the second exactly when some field differs; a
/// repeated equal sample is reported only once.
pub proof fn lemma_change_detection(a: Sample, b: Sample)
    ensures
        emits(None, a),
        !sample_eq(a, b) ==> emits(slot_after(Ok(a)), b),
        sample_eq(a, b) ==> !emits(slot_after(Ok(a)), b),
{
}

/// A failed tick clears the slot, so the next successful sample is
/// reported even when it is identical to the last one observed before
/// the failure.
pub proof fn lemma_failure_resets_memory(e: SampleError, s: Sample)
    ensures
        emits(slot_after(Err(e)), s),
{
}

} // verus!
