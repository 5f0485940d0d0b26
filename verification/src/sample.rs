//! The `Sample` snapshot of desktop activity and the errors a sampling
//! attempt can end in.

use vstd::prelude::*;

verus! {

/// One snapshot of desktop activity: the active window, its owning
/// process, whether the screensaver is up, and whether the desktop
/// counts as idle. All fields are filled together or the sample does
/// not exist; a sample is never changed after construction.
#[derive(Clone, Debug)]
pub struct Sample {
    pub window_title: String,
    pub pid: u32,
    pub process_name: String,
    pub screensaver_active: bool,
    pub idle: bool,
}

/// Structural equality over all five fields: any field change, including
/// a flip of `idle` alone, counts as a state change worth reporting.
pub open spec fn sample_eq(a: Sample, b: Sample) -> bool {
    &&& a.window_title@ == b.window_title@
    &&& a.pid == b.pid
    &&& a.process_name@ == b.process_name@
    &&& a.screensaver_active == b.screensaver_active
    &&& a.idle == b.idle
}

impl PartialEq for Sample {
    fn eq(&self, other: &Sample) -> (r: bool) {
        self.window_title == other.window_title && self.pid == other.pid
            && self.process_name == other.process_name
            && self.screensaver_active == other.screensaver_active && self.idle == other.idle
    }
}

impl vstd::std_specs::cmp::PartialEqSpecImpl for Sample {
    open spec fn obeys_eq_spec() -> bool {
        true
    }

    open spec fn eq_spec(&self, other: &Sample) -> bool {
        sample_eq(*self, *other)
    }
}

/// Why a sampling attempt failed. Each probe or parse failure class is
/// one variant, so a caller can decide by category; none is fatal to a
/// running watcher.
#[derive(Clone, Debug)]
pub enum SampleError {
    /// An external probe command could not be run or its output could
    /// not be captured; the detail text says what went wrong.
    Io(String),
    /// A probe's output bytes were not valid UTF-8; the variant keeps
    /// the offending bytes.
    FromUtf8(Vec<u8>),
    /// A field that should have been a decimal integer was not; the
    /// variant keeps the offending text.
    ParseInt(String),
}

/// The diagnostic line that a failed sampling attempt produces: the
/// failure kind and its detail.
pub open spec fn describe_spec(e: SampleError) -> Seq<char> {
    match e {
        SampleError::Io(detail) => "probe failed: "@ + detail@,
        SampleError::FromUtf8(_) => "probe output was not valid text"@,
        SampleError::ParseInt(text) => "not a decimal integer: '"@ + text@ + "'"@,
    }
}

impl SampleError {
    /// Render the diagnostic for this failure.
    pub fn describe(&self) -> (r: String)
        ensures
            r@ == describe_spec(*self),
    {
        match self {
            SampleError::Io(detail) => {
                let mut r = "probe failed: ".to_owned();
                r.append(detail.as_str());
                r
            },
            SampleError::FromUtf8(_) => "probe output was not valid text".to_owned(),
            SampleError::ParseInt(text) => {
                let mut r = "not a decimal integer: '".to_owned();
                r.append(text.as_str());
                r.append("'");
                proof {
                    assert(("not a decimal integer: '"@ + text@) + "'"@
                        =~= "not a decimal integer: '"@ + text@ + "'"@);
                }
                r
            },
        }
    }
}

} // verus!
