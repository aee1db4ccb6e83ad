//! Compiler diagnostics found between the lines of a block.

use vstd::prelude::*;
use crate::registry::capture::CaptureSet;

verus! {

/// A compiler message about a place in a source file.
#[derive(Debug)]
pub struct Diagnostic {
    /// File, line and column, as printed: `path:line:column`.
    pub location: String,
    /// The file alone.
    pub filepath: String,
    /// The text of the message.
    pub message: String,
}

/// What a `Diagnostic` stands for.
pub struct DiagnosticView {
    pub location: Seq<char>,
    pub filepath: Seq<char>,
    pub message: Seq<char>,
}

impl View for Diagnostic {
    type V = DiagnosticView;

    open spec fn view(&self) -> DiagnosticView {
        DiagnosticView {
            location: self.location@,
            filepath: self.filepath@,
            message: self.message@,
        }
    }
}

/// The view of a diagnostic that may be absent.
pub open spec fn diagnostic_view(diagnostic: Option<Diagnostic>) -> Option<DiagnosticView> {
    match diagnostic {
        Some(d) => Some(d@),
        None => None,
    }
}

/// The diagnostic that a capture set holds: its `location`, `filepath` and
/// `message`, where all three are there.
pub open spec fn diagnostic_of(captures: Option<Map<Seq<char>, Seq<char>>>) -> Option<
    DiagnosticView,
> {
    match captures {
        Some(map) => if map.contains_key("location"@) && map.contains_key("filepath"@)
            && map.contains_key("message"@) {
            Some(
                DiagnosticView {
                    location: map["location"@],
                    filepath: map["filepath"@],
                    message: map["message"@],
                },
            )
        } else {
            None
        },
        None => None,
    }
}

impl Diagnostic {
    /// The diagnostic that `captures` holds, if it holds one.
    pub fn from_captures(captures: &CaptureSet) -> (r: Option<Diagnostic>)
        ensures
            diagnostic_view(r) == diagnostic_of(Some(captures@)),
    {
        match captures.get("location") {
            Some(location) => match captures.get("filepath") {
                Some(filepath) => match captures.get("message") {
                    Some(message) => Some(Diagnostic { location, filepath, message }),
                    None => None,
                },
                None => None,
            },
            None => None,
        }
    }
}

} // verus!
