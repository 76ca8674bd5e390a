use vstd::prelude::*;
use crate::severity::Severity;

verus! {

/// The pattern by which the clock is rendered where the configuration names none.
pub const DEFAULT_TIME_FORMAT: &'static str = "%H:%M:%S";

/// Which fields a line holds. Each threshold, when present, admits the field on
/// records that are at least that serious; an absent threshold never admits it.
#[derive(Clone, Copy, Debug)]
pub struct Config {
    pub time: Option<Severity>,
    pub level: Option<Severity>,
    pub target: Option<Severity>,
    pub location: Option<Severity>,
    pub time_format: Option<&'static str>,
}

/// A threshold admits a record's level when it is present and not above it.
pub open spec fn admits(threshold: Option<Severity>, level: Severity) -> bool {
    match threshold {
        Some(t) => t.rank() <= level.rank(),
        None => false,
    }
}

/// Decides `admits`.
pub fn is_shown(threshold: &Option<Severity>, level: &Severity) -> (r: bool)
    ensures
        r == admits(*threshold, *level),
{
    match threshold {
        Some(t) => t.at_most(level),
        None => false,
    }
}

impl Config {
    /// The pattern in force: the configured one, or the default.
    pub open spec fn pattern(&self) -> Seq<char> {
        match self.time_format {
            Some(p) => p@,
            None => DEFAULT_TIME_FORMAT@,
        }
    }

    /// The text of `pattern`.
    pub fn time_pattern(&self) -> (r: &'static str)
        ensures
            r@ == self.pattern(),
    {
        match self.time_format {
            Some(p) => p,
            None => DEFAULT_TIME_FORMAT,
        }
    }
}

} // verus!
