//! The broker's view of the workers, and how events change it.
//!
//! The view maps each worker to what is latest known of it. Only the broker
//! writes it, one event at a time; the monitor reads it. An event changes the
//! entry of the worker that sent it and no other entry.

use std::collections::HashMap;
use vstd::prelude::*;
use crate::events::{Delivery, Event, EventKind, LogSeverity, WorkerId};

verus! {

/// What is latest known of one worker.
#[derive(Clone, Copy, Debug, PartialEq, Eq, Structural)]
pub struct ClientStats {
    /// Size of the worker's corpus.
    pub corpus_size: u64,
    /// Executions that the worker has made.
    pub exec_count: u64,
    /// Objectives that the worker has found.
    pub objective_count: u64,
    /// Timestamp of the last event that reported executions.
    pub last_update_time: u64,
}

/// What the broker did with an event.
#[derive(Clone, Copy, Debug, PartialEq, Eq, Structural)]
pub enum BrokerEventResult {
    /// The broker consumed the event.
    Handled,
    /// The event has to go on to the workers.
    Forward,
}

/// A line for the monitor: what changed, and where the sender stands now.
#[derive(Clone, Copy, Debug, PartialEq, Eq, Structural)]
pub struct DisplayLine {
    /// Kind of the event that caused the line.
    pub event: EventKind,
    /// The worker that sent the event.
    pub sender: WorkerId,
    /// Number of workers that the view knows.
    pub clients: usize,
    /// The sender's entry after the event.
    pub stats: ClientStats,
}

/// A line for the diagnostic sink.
#[derive(Clone, Debug, PartialEq, Eq)]
pub struct LogLine {
    /// How grave the message is.
    pub severity: LogSeverity,
    /// The message.
    pub text: String,
}

/// A violation of the protocol, to be logged loudly.
#[derive(Clone, Copy, Debug, PartialEq, Eq, Structural)]
pub struct ProtocolViolation {
    /// The worker from which the delivery came.
    pub sender: WorkerId,
    /// The tag that stands for no kind of event.
    pub tag: u32,
}

/// What the broker has to put out for a delivery.
#[derive(Clone, Debug, PartialEq, Eq)]
pub enum BrokerOutput {
    /// A line for the monitor.
    Display(DisplayLine),
    /// A line for the diagnostic sink.
    Log(LogLine),
    /// A violation of the protocol, for the diagnostic sink.
    Violation(ProtocolViolation),
}

/// The broker's answer to one event.
#[derive(Clone, Debug, PartialEq, Eq)]
pub struct BrokerReply {
    /// Whether the event is consumed or has to be forwarded.
    pub result: BrokerEventResult,
    /// What has to be put out.
    pub output: BrokerOutput,
}

/// The entry of `worker` in `view`. A worker that the view does not know yet
/// stands at zero.
pub open spec fn entry(view: Map<WorkerId, ClientStats>, worker: WorkerId) -> ClientStats {
    if view.contains_key(worker) {
        view[worker]
    } else {
        ClientStats::spec_zero()
    }
}

/// The view after the broker handled `event` from `sender`. A log message
/// leaves the view as it is; every other event replaces the sender's entry.
pub open spec fn handled(view: Map<WorkerId, ClientStats>, sender: WorkerId, event: Event) -> Map<
    WorkerId,
    ClientStats,
> {
    match event {
        Event::LogMessage { .. } => view,
        _ => view.insert(sender, entry(view, sender).after(event)),
    }
}

/// What the broker puts out for `event` from `sender`, where `after` is the
/// view after the event.
pub open spec fn output_for(after: Map<WorkerId, ClientStats>, sender: WorkerId, event: Event) -> BrokerOutput {
    match event {
        Event::LogMessage { severity, text } => BrokerOutput::Log(LogLine { severity, text }),
        _ => BrokerOutput::Display(
            DisplayLine {
                event: event.spec_kind(),
                sender,
                clients: after.len() as usize,
                stats: entry(after, sender),
            },
        ),
    }
}

/// The view after the broker received `delivery` from `sender`: an event is
/// handled, anything else leaves the view as it is.
pub open spec fn received(view: Map<WorkerId, ClientStats>, sender: WorkerId, delivery: Delivery) -> Map<
    WorkerId,
    ClientStats,
> {
    match delivery {
        Delivery::Known(event) => handled(view, sender, event),
        Delivery::Unrecognized(_) => view,
    }
}

/// What the broker puts out for `delivery` from `sender`, where `after` is
/// the view after it: the event's output, or the violation.
pub open spec fn output_for_delivery(
    after: Map<WorkerId, ClientStats>,
    sender: WorkerId,
    delivery: Delivery,
) -> BrokerOutput {
    match delivery {
        Delivery::Known(event) => output_for(after, sender, event),
        Delivery::Unrecognized(tag) => BrokerOutput::Violation(ProtocolViolation { sender, tag }),
    }
}

impl ClientStats {
    /// The entry of a worker of which nothing is known yet.
    pub open spec fn spec_zero() -> ClientStats {
        ClientStats { corpus_size: 0, exec_count: 0, objective_count: 0, last_update_time: 0 }
    }

    /// The entry after `event` from its worker: a new test case sets corpus
    /// size, executions and time; a statistics update sets executions and
    /// time; a new objective sets the objective count; a log message sets
    /// nothing.
    pub open spec fn after(self, event: Event) -> ClientStats {
        match event {
            Event::NewTestcase { corpus_size, exec_count, timestamp } => ClientStats {
                corpus_size: corpus_size as u64,
                exec_count: exec_count as u64,
                last_update_time: timestamp,
                ..self
            },
            Event::StatsUpdate { exec_count, timestamp } => ClientStats {
                exec_count: exec_count as u64,
                last_update_time: timestamp,
                ..self
            },
            Event::NewObjective { objective_count } => ClientStats {
                objective_count: objective_count as u64,
                ..self
            },
            Event::LogMessage { .. } => self,
        }
    }

    /// The entry of a worker of which nothing is known yet.
    #[verifier::when_used_as_spec(spec_zero)]
    pub fn zero() -> (stats: ClientStats)
        ensures
            stats == ClientStats::spec_zero(),
    {
        ClientStats { corpus_size: 0, exec_count: 0, objective_count: 0, last_update_time: 0 }
    }

    /// Sets the size of the corpus.
    pub fn update_corpus_size(&mut self, corpus_size: u64)
        ensures
            *final(self) == (ClientStats { corpus_size, ..*old(self) }),
    {
        self.corpus_size = corpus_size;
    }

    /// Sets the number of executions and the time at which it was reported.
    pub fn update_executions(&mut self, exec_count: u64, time: u64)
        ensures
            *final(self) == (ClientStats { exec_count, last_update_time: time, ..*old(self) }),
    {
        self.exec_count = exec_count;
        self.last_update_time = time;
    }

    /// Sets the number of objectives.
    pub fn update_objective_size(&mut self, objective_count: u64)
        ensures
            *final(self) == (ClientStats { objective_count, ..*old(self) }),
    {
        self.objective_count = objective_count;
    }
}

/// The broker's statistics: for each worker that has reported, its entry.
#[derive(Clone, Debug)]
pub struct ClientStatsView {
    clients: HashMap<WorkerId, ClientStats>,
}

impl View for ClientStatsView {
    type V = Map<WorkerId, ClientStats>;

    closed spec fn view(&self) -> Map<WorkerId, ClientStats> {
        self.clients@
    }
}

impl ClientStatsView {
    /// A view that knows no worker.
    pub fn new() -> (view: ClientStatsView)
        ensures
            view@ == Map::<WorkerId, ClientStats>::empty(),
    {
        ClientStatsView { clients: HashMap::new() }
    }

    /// Number of workers that the view knows.
    pub fn client_count(&self) -> (count: usize)
        ensures
            count == self@.len(),
            self@.dom().finite(),
    {
        self.clients.len()
    }

    /// The entry of `worker`, if the view knows the worker.
    pub fn get(&self, worker: WorkerId) -> (stats: Option<ClientStats>)
        ensures
            stats == (if self@.contains_key(worker) {
                Some(self@[worker])
            } else {
                None
            }),
    {
        match self.clients.get(&worker) {
            Some(stats) => Some(*stats),
            None => None,
        }
    }

    /// The entry of `worker`; zero where the view does not know the worker.
    pub fn stats_of(&self, worker: WorkerId) -> (stats: ClientStats)
        ensures
            stats == entry(self@, worker),
    {
        match self.clients.get(&worker) {
            Some(stats) => *stats,
            None => ClientStats::zero(),
        }
    }

    /// The broker's handling of one event from `sender`.
    ///
    /// A new test case, a statistics update and a new objective update the
    /// sender's entry, which is created at zero where the view did not know
    /// the sender, and give a display line. A log message changes nothing and
    /// gives a line for the diagnostic sink. No other entry changes. Every
    /// event is consumed here: the result is always `Handled`.
    pub fn handle(&mut self, sender: WorkerId, event: &Event) -> (reply: BrokerReply)
        ensures
            final(self)@ == handled(old(self)@, sender, *event),
            reply.result == BrokerEventResult::Handled,
            reply.output == output_for(final(self)@, sender, *event),
            forall|other: WorkerId|
                other != sender ==> final(self)@.contains_key(other) == old(self)@.contains_key(
                    other,
                ) && entry(final(self)@, other) == entry(old(self)@, other),
    {
        let mut stats = self.stats_of(sender);
        match event {
            Event::NewTestcase { corpus_size, exec_count, timestamp } => {
                stats.update_corpus_size(*corpus_size as u64);
                stats.update_executions(*exec_count as u64, *timestamp);
            },
            Event::StatsUpdate { exec_count, timestamp } => {
                stats.update_executions(*exec_count as u64, *timestamp);
            },
            Event::NewObjective { objective_count } => {
                stats.update_objective_size(*objective_count as u64);
            },
            Event::LogMessage { severity, text } => {
                return BrokerReply {
                    result: BrokerEventResult::Handled,
                    output: BrokerOutput::Log(LogLine { severity: *severity, text: text.clone() }),
                };
            },
        }
        self.clients.insert(sender, stats);
        BrokerReply {
            result: BrokerEventResult::Handled,
            output: BrokerOutput::Display(
                DisplayLine {
                    event: event.kind(),
                    sender,
                    clients: self.clients.len(),
                    stats,
                },
            ),
        }
    }

    /// The broker's reception of one delivery from `sender`.
    ///
    /// An event is handled as [`ClientStatsView::handle`] says. A delivery of
    /// an unrecognized kind is a violation of the protocol: it must not stop
    /// the campaign and must not pass in silence, so the view stays as it is,
    /// the result is `Handled`, and the output is the violation.
    pub fn receive(&mut self, sender: WorkerId, delivery: &Delivery) -> (reply: BrokerReply)
        ensures
            final(self)@ == received(old(self)@, sender, *delivery),
            reply.result == BrokerEventResult::Handled,
            reply.output == output_for_delivery(final(self)@, sender, *delivery),
            *delivery is Unrecognized ==> final(self)@ == old(self)@,
    {
        match delivery {
            Delivery::Known(event) => self.handle(sender, event),
            Delivery::Unrecognized(tag) => BrokerReply {
                result: BrokerEventResult::Handled,
                output: BrokerOutput::Violation(ProtocolViolation { sender, tag: *tag }),
            },
        }
    }
}

/// The view after the broker handled `messages` in their order, each a pair
/// of the sender and the event.
pub open spec fn handled_all(
    view: Map<WorkerId, ClientStats>,
    messages: Seq<(WorkerId, Event)>,
) -> Map<WorkerId, ClientStats>
    decreases messages.len(),
{
    if messages.len() == 0 {
        view
    } else {
        handled(handled_all(view, messages.drop_last()), messages.last().0, messages.last().1)
    }
}

/// The entry of `worker` after those of `messages` that `worker` sent, in
/// their order, starting from `start`. The messages of other workers are
/// passed over.
pub open spec fn after_own(start: ClientStats, messages: Seq<(WorkerId, Event)>, worker: WorkerId) -> ClientStats
    decreases messages.len(),
{
    if messages.len() == 0 {
        start
    } else {
        let before = after_own(start, messages.drop_last(), worker);
        if messages.last().0 == worker {
            before.after(messages.last().1)
        } else {
            before
        }
    }
}

/// Whether `worker` sent one of `messages` that is no log message.
pub open spec fn reported(messages: Seq<(WorkerId, Event)>, worker: WorkerId) -> bool {
    exists|i: int|
        0 <= i < messages.len() && (#[trigger] messages[i]).0 == worker && !(messages[i].1
            is LogMessage)
}

/// An event changes the entry of its sender and nothing else.
pub proof fn law_handle_touches_sender_only(
    view: Map<WorkerId, ClientStats>,
    sender: WorkerId,
    event: Event,
    other: WorkerId,
)
    requires
        other != sender,
    ensures
        handled(view, sender, event).contains_key(other) == view.contains_key(other),
        entry(handled(view, sender, event), other) == entry(view, other),
        entry(handled(view, sender, event), sender) == entry(view, sender).after(event),
{
}

/// Workers do not disturb each other: after any sequence of messages, the
/// entry of a worker is what that worker's own messages make of its entry
/// before. What the other workers sent in between plays no part. The worker
/// has an entry if it had one before or has reported since.
pub proof fn law_workers_are_independent(
    view: Map<WorkerId, ClientStats>,
    messages: Seq<(WorkerId, Event)>,
    worker: WorkerId,
)
    ensures
        entry(handled_all(view, messages), worker) == after_own(
            entry(view, worker),
            messages,
            worker,
        ),
        handled_all(view, messages).contains_key(worker) <==> view.contains_key(worker)
            || reported(messages, worker),
    decreases messages.len(),
{
    if messages.len() > 0 {
        let earlier = messages.drop_last();
        law_workers_are_independent(view, earlier, worker);
        let last = messages.last();
        if reported(earlier, worker) {
            let i = choose|i: int|
                0 <= i < earlier.len() && (#[trigger] earlier[i]).0 == worker && !(earlier[i].1
                    is LogMessage);
            assert(messages[i] == earlier[i]);
        }
        if last.0 == worker && !(last.1 is LogMessage) {
            assert(messages[messages.len() - 1] == last);
        }
        if reported(messages, worker) {
            let i = choose|i: int|
                0 <= i < messages.len() && (#[trigger] messages[i]).0 == worker && !(messages[i].1
                    is LogMessage);
            if i < earlier.len() {
                assert(earlier[i] == messages[i]);
            }
        }
    }
}

/// The latest test case of a worker wins: if `messages[at]` is a new test
/// case from `worker` and `worker` sent nothing after it, then the worker's
/// entry shows the corpus size, the executions and the time of that event,
/// whatever other workers sent before, in between or after.
pub proof fn law_latest_testcase_wins(
    view: Map<WorkerId, ClientStats>,
    messages: Seq<(WorkerId, Event)>,
    worker: WorkerId,
    at: int,
)
    requires
        0 <= at < messages.len(),
        messages[at].0 == worker,
        messages[at].1 is NewTestcase,
        forall|j: int| at < j < messages.len() ==> (#[trigger] messages[j]).0 != worker,
    ensures
        handled_all(view, messages).contains_key(worker),
        handled_all(view, messages)[worker].corpus_size == messages[at].1->corpus_size as u64,
        handled_all(view, messages)[worker].exec_count
            == messages[at].1->NewTestcase_exec_count as u64,
        handled_all(view, messages)[worker].last_update_time
            == messages[at].1->NewTestcase_timestamp,
    decreases messages.len(),
{
    let earlier = messages.drop_last();
    if at == messages.len() - 1 {
    } else {
        assert(messages[messages.len() - 1].0 != worker);
        assert(earlier[at] == messages[at]);
        assert forall|j: int| at < j < earlier.len() implies (#[trigger] earlier[j]).0
            != worker by {
            assert(earlier[j] == messages[j]);
        }
        law_latest_testcase_wins(view, earlier, worker, at);
    }
}

} // verus!
