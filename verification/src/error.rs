//! The error the export engine itself can raise.

use vstd::prelude::*;

verus! {

/// Export failure.  The engine aborts the whole export on the first
/// programme whose start or stop time matches neither the configured
/// datetime format nor the UTC fallback format; the offending input
/// string is carried along.
#[derive(Debug, Clone, PartialEq, Eq)]
pub enum Error {
    Parse(String),
}

impl Error {
    /// A short, printable account of the failure.
    pub fn message(&self) -> (r: String)
        ensures
            self matches Error::Parse(s) ==> r@ == "cannot parse datetime: "@ + s@,
    {
        match self {
            Error::Parse(s) => {
                let mut r = String::new();
                r.append("cannot parse datetime: ");
                r.append(s.as_str());
                r
            },
        }
    }
}

} // verus!
