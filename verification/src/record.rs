use vstd::prelude::*;
use crate::severity::Severity;

verus! {

/// Where in the source a record was made.
#[derive(Clone, Debug)]
pub struct Location {
    pub file: String,
    pub line: u32,
}

/// One log record, as the caller hands it in. The formatter only reads it.
#[derive(Clone, Debug)]
pub struct LogRecord {
    pub level: Severity,
    pub target: String,
    pub location: Location,
    pub args: String,
}

} // verus!
