//! The status signal, the verdict, and the restore that follows a reading.
//!
//! The agent inside the target reports how an execution ended by writing one
//! small integer, the status signal. After each execution the harness reads
//! that integer once and classifies it: which verdict the fuzz loop gets, which
//! restore brings the target back to its baseline, and which diagnostic, if
//! any, has to be reported. The mapping is total: every value of the integer
//! has a classification.

use vstd::prelude::*;

verus! {

/// How an execution ended, as the agent inside the target reports it.
#[derive(Clone, Copy, Debug, PartialEq, Eq, Structural)]
pub enum StatusSignal {
    /// Nothing was reported. The harness writes this before each execution.
    Unknown,
    /// The tested code ran to its end: the protocol's "ok".
    Completed,
    /// The tested code did not finish in time.
    Timeout,
    /// The tested code crashed.
    Crash,
    /// The guest failed in a way that the input does not explain.
    GuestFault,
}

/// What the fuzz loop learns of one iteration.
#[derive(Clone, Copy, Debug, PartialEq, Eq, Structural)]
pub enum Verdict {
    /// Nothing to hold against the input.
    Normal,
    /// The input made the target run out of time.
    Timeout,
    /// The input made the target crash.
    Crash,
}

/// What the harness read from the status signal after an execution.
#[derive(Clone, Copy, Debug, PartialEq, Eq, Structural)]
pub enum Reading {
    /// One of the five values of the protocol.
    Reported(StatusSignal),
    /// A value that the protocol does not define.
    Undefined(u32),
}

/// Which restore brings the target back to the baseline snapshot.
///
/// Both tiers reload the whole baseline snapshot. They differ in when they are
/// used and in how they are logged.
#[derive(Clone, Copy, Debug, PartialEq, Eq, Structural)]
pub enum RestoreTier {
    /// The restore after an iteration whose guest stayed sane.
    Standard,
    /// The restore after a guest fault, when nothing inside the guest can be
    /// trusted any more.
    Corrective,
}

/// A condition that must reach the operator, never be dropped in silence.
#[derive(Clone, Copy, Debug, PartialEq, Eq, Structural)]
pub enum Diagnostic {
    /// The agent reported nothing: a defect of the harness or of the agent,
    /// not of the target.
    StatusNotSet,
    /// The guest failed; the corrective restore follows.
    GuestFault,
    /// The status signal held a value outside the protocol.
    UndefinedStatus(u32),
}

/// Everything that the harness decides from one reading of the status signal.
#[derive(Clone, Copy, Debug, PartialEq, Eq, Structural)]
pub struct Classification {
    /// The verdict for the fuzz loop.
    pub verdict: Verdict,
    /// The restore to perform before the next iteration.
    pub restore: RestoreTier,
    /// The diagnostic to report, if there is one.
    pub diagnostic: Option<Diagnostic>,
}

impl StatusSignal {
    /// The integer that stands for the signal in the shared status field.
    pub open spec fn spec_code(self) -> u32 {
        match self {
            StatusSignal::Unknown => 0,
            StatusSignal::Completed => 1,
            StatusSignal::Timeout => 2,
            StatusSignal::Crash => 3,
            StatusSignal::GuestFault => 4,
        }
    }

    /// The signal that `raw` stands for, if the protocol defines `raw`.
    pub open spec fn spec_from_code(raw: u32) -> Option<StatusSignal> {
        if raw == 0 {
            Some(StatusSignal::Unknown)
        } else if raw == 1 {
            Some(StatusSignal::Completed)
        } else if raw == 2 {
            Some(StatusSignal::Timeout)
        } else if raw == 3 {
            Some(StatusSignal::Crash)
        } else if raw == 4 {
            Some(StatusSignal::GuestFault)
        } else {
            None
        }
    }

    /// The integer that stands for the signal in the shared status field.
    #[verifier::when_used_as_spec(spec_code)]
    pub fn code(self) -> (raw: u32)
        ensures
            raw == self.spec_code(),
            raw <= 4,
            StatusSignal::spec_from_code(raw) == Some(self),
    {
        match self {
            StatusSignal::Unknown => 0,
            StatusSignal::Completed => 1,
            StatusSignal::Timeout => 2,
            StatusSignal::Crash => 3,
            StatusSignal::GuestFault => 4,
        }
    }

    /// The signal that `raw` stands for. `None` exactly for the integers above
    /// 4, which the protocol does not define.
    #[verifier::when_used_as_spec(spec_from_code)]
    pub fn from_code(raw: u32) -> (signal: Option<StatusSignal>)
        ensures
            signal == StatusSignal::spec_from_code(raw),
            signal is None <==> raw > 4,
            signal matches Some(s) ==> s.spec_code() == raw,
    {
        match raw {
            0 => Some(StatusSignal::Unknown),
            1 => Some(StatusSignal::Completed),
            2 => Some(StatusSignal::Timeout),
            3 => Some(StatusSignal::Crash),
            4 => Some(StatusSignal::GuestFault),
            _ => None,
        }
    }
}

impl Reading {
    /// The reading that the integer `raw` amounts to.
    pub open spec fn spec_of_raw(raw: u32) -> Reading {
        match StatusSignal::spec_from_code(raw) {
            Some(signal) => Reading::Reported(signal),
            None => Reading::Undefined(raw),
        }
    }

    /// The reading that the integer `raw` amounts to: the signal it stands
    /// for, or `Undefined(raw)` where the protocol has no such value.
    #[verifier::when_used_as_spec(spec_of_raw)]
    pub fn of_raw(raw: u32) -> (reading: Reading)
        ensures
            reading == Reading::spec_of_raw(raw),
    {
        match StatusSignal::from_code(raw) {
            Some(signal) => Reading::Reported(signal),
            None => Reading::Undefined(raw),
        }
    }

    /// The verdict that the fuzz loop gets for this reading.
    ///
    /// Only a reported timeout or crash is held against the input. A guest
    /// fault is not attributable to the input, and neither a missing report
    /// nor an undefined value may stop the campaign: all three are `Normal`.
    pub open spec fn spec_verdict(self) -> Verdict {
        match self {
            Reading::Reported(StatusSignal::Timeout) => Verdict::Timeout,
            Reading::Reported(StatusSignal::Crash) => Verdict::Crash,
            _ => Verdict::Normal,
        }
    }

    /// The restore that this reading calls for: the corrective one after a
    /// guest fault, the standard one after everything else.
    pub open spec fn spec_restore(self) -> RestoreTier {
        match self {
            Reading::Reported(StatusSignal::GuestFault) => RestoreTier::Corrective,
            _ => RestoreTier::Standard,
        }
    }

    /// The diagnostic that this reading calls for. A report of `Completed`,
    /// `Timeout` or `Crash` is an expected outcome and has none.
    pub open spec fn spec_diagnostic(self) -> Option<Diagnostic> {
        match self {
            Reading::Reported(StatusSignal::Unknown) => Some(Diagnostic::StatusNotSet),
            Reading::Reported(StatusSignal::GuestFault) => Some(Diagnostic::GuestFault),
            Reading::Reported(_) => None,
            Reading::Undefined(raw) => Some(Diagnostic::UndefinedStatus(raw)),
        }
    }

    /// The verdict that the fuzz loop gets for this reading.
    #[verifier::when_used_as_spec(spec_verdict)]
    pub fn verdict(self) -> (verdict: Verdict)
        ensures
            verdict == self.spec_verdict(),
    {
        match self {
            Reading::Reported(StatusSignal::Timeout) => Verdict::Timeout,
            Reading::Reported(StatusSignal::Crash) => Verdict::Crash,
            _ => Verdict::Normal,
        }
    }

    /// The diagnostic that this reading calls for.
    #[verifier::when_used_as_spec(spec_diagnostic)]
    pub fn diagnostic(self) -> (diagnostic: Option<Diagnostic>)
        ensures
            diagnostic == self.spec_diagnostic(),
    {
        match self {
            Reading::Reported(StatusSignal::Unknown) => Some(Diagnostic::StatusNotSet),
            Reading::Reported(StatusSignal::GuestFault) => Some(Diagnostic::GuestFault),
            Reading::Reported(_) => None,
            Reading::Undefined(raw) => Some(Diagnostic::UndefinedStatus(raw)),
        }
    }
}

/// The reset policy: which restore has to follow `prior`.
///
/// A guest fault calls for the corrective restore; every other reading, also a
/// missing report and an undefined value, for the standard one.
pub fn reset(prior: Reading) -> (tier: RestoreTier)
    ensures
        tier == prior.spec_restore(),
        tier == RestoreTier::Corrective <==> prior == Reading::Reported(StatusSignal::GuestFault),
{
    match prior {
        Reading::Reported(StatusSignal::GuestFault) => RestoreTier::Corrective,
        _ => RestoreTier::Standard,
    }
}

impl Classification {
    /// The classification of a reading.
    pub open spec fn of(reading: Reading) -> Classification {
        Classification {
            verdict: reading.spec_verdict(),
            restore: reading.spec_restore(),
            diagnostic: reading.spec_diagnostic(),
        }
    }

    /// The classification of the integer `raw`, read from the status signal.
    pub open spec fn of_raw(raw: u32) -> Classification {
        Classification::of(Reading::spec_of_raw(raw))
    }

    /// The classification that the caller's timeout forces when the engine did
    /// not return in time: a timeout, followed by the standard restore.
    pub open spec fn spec_forced_timeout() -> Classification {
        Classification {
            verdict: Verdict::Timeout,
            restore: RestoreTier::Standard,
            diagnostic: None,
        }
    }

    /// The classification that the caller's timeout forces when the engine did
    /// not return in time: a timeout, followed by the standard restore.
    #[verifier::when_used_as_spec(spec_forced_timeout)]
    pub fn forced_timeout() -> (classification: Classification)
        ensures
            classification == Classification::spec_forced_timeout(),
    {
        Classification {
            verdict: Verdict::Timeout,
            restore: RestoreTier::Standard,
            diagnostic: None,
        }
    }
}

/// Classifies the integer read from the status signal after an execution.
///
/// `Completed` gives `Normal`; `Timeout` and `Crash` give the verdict of the
/// same name. `Unknown`, `GuestFault` and every undefined value give `Normal`,
/// each with a diagnostic of its own. Only `GuestFault` asks for the corrective
/// restore.
pub fn classify(raw: u32) -> (classification: Classification)
    ensures
        classification == Classification::of_raw(raw),
{
    let reading = Reading::of_raw(raw);
    Classification {
        verdict: reading.verdict(),
        restore: reset(reading),
        diagnostic: reading.diagnostic(),
    }
}

impl Diagnostic {
    /// The line that reports the diagnostic.
    pub open spec fn spec_message(self) -> Seq<char> {
        match self {
            Diagnostic::StatusNotSet => "status not set"@,
            Diagnostic::GuestFault => "guest fault: corrective restore"@,
            Diagnostic::UndefinedStatus(_) => "undefined status value"@,
        }
    }

    /// The line that reports the diagnostic.
    pub fn message(self) -> (text: &'static str)
        ensures
            text@ == self.spec_message(),
    {
        match self {
            Diagnostic::StatusNotSet => "status not set",
            Diagnostic::GuestFault => "guest fault: corrective restore",
            Diagnostic::UndefinedStatus(_) => "undefined status value",
        }
    }
}

/// Encoding a signal and decoding the result gives the signal back, and the
/// five codes are the integers 0 to 4.
pub proof fn law_code_round_trip(signal: StatusSignal)
    ensures
        StatusSignal::spec_from_code(signal.spec_code()) == Some(signal),
        signal.spec_code() <= 4,
{
}

/// Two signals with the same code are the same signal.
pub proof fn law_code_injective(a: StatusSignal, b: StatusSignal)
    requires
        a.spec_code() == b.spec_code(),
    ensures
        a == b,
{
}

/// The classification of each reported signal: `Completed`, `Timeout` and
/// `Crash` map to `Normal`, `Timeout` and `Crash`; `Unknown` and `GuestFault`
/// map to `Normal` and carry two different diagnostics, which no other signal
/// carries.
pub proof fn law_verdict_of_signal(signal: StatusSignal)
    ensures
        signal == StatusSignal::Completed ==> Classification::of_raw(signal.spec_code()) == (Classification {
            verdict: Verdict::Normal,
            restore: RestoreTier::Standard,
            diagnostic: None,
        }),
        signal == StatusSignal::Timeout ==> Classification::of_raw(signal.spec_code()) == (Classification {
            verdict: Verdict::Timeout,
            restore: RestoreTier::Standard,
            diagnostic: None,
        }),
        signal == StatusSignal::Crash ==> Classification::of_raw(signal.spec_code()) == (Classification {
            verdict: Verdict::Crash,
            restore: RestoreTier::Standard,
            diagnostic: None,
        }),
        signal == StatusSignal::Unknown ==> Classification::of_raw(signal.spec_code()) == (Classification {
            verdict: Verdict::Normal,
            restore: RestoreTier::Standard,
            diagnostic: Some(Diagnostic::StatusNotSet),
        }),
        signal == StatusSignal::GuestFault ==> Classification::of_raw(signal.spec_code()) == (Classification {
            verdict: Verdict::Normal,
            restore: RestoreTier::Corrective,
            diagnostic: Some(Diagnostic::GuestFault),
        }),
{
}

/// A value outside the protocol keeps the campaign alive: it is classified as
/// `Normal` with the standard restore, and the value itself is reported.
pub proof fn law_undefined_status_is_reported(raw: u32)
    requires
        raw > 4,
    ensures
        Classification::of_raw(raw) == (Classification {
            verdict: Verdict::Normal,
            restore: RestoreTier::Standard,
            diagnostic: Some(Diagnostic::UndefinedStatus(raw)),
        }),
{
}

} // verus!
