use vstd::prelude::*;

verus! {

/// How serious a record is. The variants are declared from the most verbose to
/// the most serious, so that `Trace < Debug < Info < Warn < Error`.
#[derive(Clone, Copy, Debug, PartialEq, Eq, Structural, PartialOrd, Ord, Hash)]
pub enum Severity {
    Trace,
    Debug,
    Info,
    Warn,
    Error,
}

impl Severity {
    /// Position in the total order: a lower rank is more verbose.
    pub open spec fn rank(self) -> nat {
        match self {
            Severity::Trace => 0,
            Severity::Debug => 1,
            Severity::Info => 2,
            Severity::Warn => 3,
            Severity::Error => 4,
        }
    }

    /// The upper-case name that stands for the severity in a line.
    pub open spec fn name(self) -> Seq<char> {
        match self {
            Severity::Trace => "TRACE"@,
            Severity::Debug => "DEBUG"@,
            Severity::Info => "INFO"@,
            Severity::Warn => "WARN"@,
            Severity::Error => "ERROR"@,
        }
    }

    /// The rank as a machine integer.
    pub fn ordinal(&self) -> (r: u8)
        ensures
            r == self.rank(),
    {
        match self {
            Severity::Trace => 0,
            Severity::Debug => 1,
            Severity::Info => 2,
            Severity::Warn => 3,
            Severity::Error => 4,
        }
    }

    /// Whether `self` is at most as serious as `other`.
    pub fn at_most(&self, other: &Severity) -> (r: bool)
        ensures
            r == (self.rank() <= other.rank()),
    {
        self.ordinal() <= other.ordinal()
    }

    /// The text of `name`.
    pub fn as_str(&self) -> (r: &'static str)
        ensures
            r@ == self.name(),
    {
        match self {
            Severity::Trace => "TRACE",
            Severity::Debug => "DEBUG",
            Severity::Info => "INFO",
            Severity::Warn => "WARN",
            Severity::Error => "ERROR",
        }
    }
}

/// The ranks order the severities totally: any two compare, two of one rank
/// are the same, and `Trace` is the least and `Error` the greatest.
pub proof fn lemma_severity_order(a: Severity, b: Severity)
    ensures
        a.rank() <= b.rank() || b.rank() <= a.rank(),
        a.rank() == b.rank() <==> a == b,
        Severity::Trace.rank() <= a.rank() <= Severity::Error.rank(),
{
}

/// The names character by character.
pub proof fn lemma_severity_names()
    ensures
        Severity::Trace.name() == seq!['T', 'R', 'A', 'C', 'E'],
        Severity::Debug.name() == seq!['D', 'E', 'B', 'U', 'G'],
        Severity::Info.name() == seq!['I', 'N', 'F', 'O'],
        Severity::Warn.name() == seq!['W', 'A', 'R', 'N'],
        Severity::Error.name() == seq!['E', 'R', 'R', 'O', 'R'],
{
    reveal_strlit("TRACE");
    reveal_strlit("DEBUG");
    reveal_strlit("INFO");
    reveal_strlit("WARN");
    reveal_strlit("ERROR");
    assert(Severity::Trace.name() =~= seq!['T', 'R', 'A', 'C', 'E']);
    assert(Severity::Debug.name() =~= seq!['D', 'E', 'B', 'U', 'G']);
    assert(Severity::Info.name() =~= seq!['I', 'N', 'F', 'O']);
    assert(Severity::Warn.name() =~= seq!['W', 'A', 'R', 'N']);
    assert(Severity::Error.name() =~= seq!['E', 'R', 'R', 'O', 'R']);
}

} // verus!
