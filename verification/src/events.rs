//! The telemetry that workers emit.
//!
//! An event is immutable once made. The worker that made it owns it until it
//! hands it to the aggregator, which consumes it.

use vstd::prelude::*;

verus! {

/// Identity of a worker, as the transport reports it with each event.
pub type WorkerId = u32;

/// How grave a log message is.
#[derive(Clone, Copy, Debug, PartialEq, Eq, Structural)]
pub enum LogSeverity {
    /// For those who debug the fuzzer.
    Debug,
    /// Worth knowing.
    Info,
    /// Something may be wrong.
    Warn,
    /// Something is wrong.
    Failure,
}

/// The kind of an event: its tag without its payload.
#[derive(Clone, Copy, Debug, PartialEq, Eq, Structural)]
pub enum EventKind {
    /// A new entry of the corpus.
    NewTestcase,
    /// Periodic statistics.
    StatsUpdate,
    /// A new objective: an input that triggered a crash or a timeout.
    NewObjective,
    /// A log message.
    LogMessage,
}

/// One piece of telemetry from a worker.
#[derive(Clone, Debug, PartialEq, Eq)]
pub enum Event {
    /// The worker added an input to its corpus.
    NewTestcase {
        /// Size of the worker's corpus, the new entry included.
        corpus_size: usize,
        /// Executions that the worker has made so far.
        exec_count: usize,
        /// When the worker made the event, on the worker's clock.
        timestamp: u64,
    },
    /// The worker reports how far it has come.
    StatsUpdate {
        /// Executions that the worker has made so far.
        exec_count: usize,
        /// When the worker made the event, on the worker's clock.
        timestamp: u64,
    },
    /// The worker found an objective.
    NewObjective {
        /// Number of objectives that the worker has found so far.
        objective_count: usize,
    },
    /// The worker has something to say.
    LogMessage {
        /// How grave it is.
        severity: LogSeverity,
        /// What it says.
        text: String,
    },
}

/// What the transport delivered from a worker: an event, or something whose
/// kind the protocol does not know.
#[derive(Clone, Debug, PartialEq, Eq)]
pub enum Delivery {
    /// An event of one of the four kinds.
    Known(Event),
    /// Something with a tag that stands for no kind. To receive it is a
    /// violation of the protocol.
    Unrecognized(u32),
}

impl LogSeverity {
    /// The tag under which a message of this severity is logged.
    pub open spec fn spec_label(self) -> Seq<char> {
        match self {
            LogSeverity::Debug => "Debug"@,
            LogSeverity::Info => "Info"@,
            LogSeverity::Warn => "Warn"@,
            LogSeverity::Failure => "Error"@,
        }
    }

    /// The tag under which a message of this severity is logged.
    pub fn label(self) -> (label: &'static str)
        ensures
            label@ == self.spec_label(),
    {
        match self {
            LogSeverity::Debug => "Debug",
            LogSeverity::Info => "Info",
            LogSeverity::Warn => "Warn",
            LogSeverity::Failure => "Error",
        }
    }
}

impl EventKind {
    /// The kind's name on a display line.
    pub open spec fn spec_name(self) -> Seq<char> {
        match self {
            EventKind::NewTestcase => "Testcase"@,
            EventKind::StatsUpdate => "Stats"@,
            EventKind::NewObjective => "Objective"@,
            EventKind::LogMessage => "Log"@,
        }
    }

    /// The kind's name on a display line.
    pub fn name(self) -> (name: &'static str)
        ensures
            name@ == self.spec_name(),
    {
        match self {
            EventKind::NewTestcase => "Testcase",
            EventKind::StatsUpdate => "Stats",
            EventKind::NewObjective => "Objective",
            EventKind::LogMessage => "Log",
        }
    }
}

impl Event {
    /// The event's kind.
    pub open spec fn spec_kind(self) -> EventKind {
        match self {
            Event::NewTestcase { .. } => EventKind::NewTestcase,
            Event::StatsUpdate { .. } => EventKind::StatsUpdate,
            Event::NewObjective { .. } => EventKind::NewObjective,
            Event::LogMessage { .. } => EventKind::LogMessage,
        }
    }

    /// The event's kind.
    pub fn kind(&self) -> (kind: EventKind)
        ensures
            kind == self.spec_kind(),
    {
        match self {
            Event::NewTestcase { .. } => EventKind::NewTestcase,
            Event::StatsUpdate { .. } => EventKind::StatsUpdate,
            Event::NewObjective { .. } => EventKind::NewObjective,
            Event::LogMessage { .. } => EventKind::LogMessage,
        }
    }

    /// The event's name on a display line.
    pub fn name(&self) -> (name: &'static str)
        ensures
            name@ == self.spec_kind().spec_name(),
    {
        self.kind().name()
    }
}

} // verus!
