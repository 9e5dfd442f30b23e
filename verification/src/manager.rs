//! The event manager of a single worker that is its own broker.
//!
//! The manager plays both roles of the aggregation protocol. As the broker it
//! handles each event that the worker fires, on the spot. As the client it
//! keeps the events that the broker forwards and processes them later, the
//! newest first. The broker of this design consumes every event, so nothing
//! that a client could process ever comes back: an event that reaches the
//! client's side is an error, and is reported as one.

use vstd::prelude::*;
use crate::events::{Event, WorkerId};
use crate::stats::{handled, output_for, BrokerEventResult, BrokerOutput, BrokerReply, ClientStats, ClientStatsView};

verus! {

/// The identity under which a manager books the events of its own worker.
pub const LOCAL_WORKER: WorkerId = 0;

/// What went wrong on the client's side.
#[derive(Clone, Debug, PartialEq, Eq)]
pub enum EventError {
    /// An event arrived that no client may receive. It is handed back.
    IllegalMessage(Event),
}

/// The state of a manager.
pub struct ManagerView {
    /// The broker's statistics.
    pub stats: Map<WorkerId, ClientStats>,
    /// The client's pending events, the oldest first.
    pub events: Seq<Event>,
}

/// A single-worker event manager that hands back what is to be logged.
#[derive(Clone, Debug)]
pub struct LoggerEventManager {
    stats: ClientStatsView,
    events: Vec<Event>,
}

impl View for LoggerEventManager {
    type V = ManagerView;

    closed spec fn view(&self) -> ManagerView {
        ManagerView { stats: self.stats@, events: self.events@ }
    }
}

impl LoggerEventManager {
    /// A manager that books into `stats` and has no pending event.
    pub fn new(stats: ClientStatsView) -> (manager: LoggerEventManager)
        ensures
            manager@.stats == stats@,
            manager@.events == Seq::<Event>::empty(),
    {
        LoggerEventManager { stats, events: Vec::new() }
    }

    /// The broker's statistics.
    pub fn stats(&self) -> (stats: &ClientStatsView)
        ensures
            stats@ == self@.stats,
    {
        &self.stats
    }

    /// Number of pending events.
    pub fn pending(&self) -> (count: usize)
        ensures
            count == self@.events.len(),
    {
        self.events.len()
    }

    /// The client's `emit`: appends `event` to the pending events.
    pub fn emit(&mut self, event: Event)
        ensures
            final(self)@.events == old(self)@.events.push(event),
            final(self)@.stats == old(self)@.stats,
    {
        self.events.push(event);
    }

    /// Fires an event of the manager's own worker: the broker handles it, and
    /// it is kept for the client only where the broker asks to forward it.
    ///
    /// The broker consumes every event, so the statistics change as
    /// [`handled`] says for [`LOCAL_WORKER`], the pending events stay as they
    /// are, and the result is the line to put out.
    pub fn fire(&mut self, event: Event) -> (fired: Result<BrokerOutput, EventError>)
        ensures
            final(self)@.stats == handled(old(self)@.stats, LOCAL_WORKER, event),
            final(self)@.events == old(self)@.events,
            fired == Ok::<BrokerOutput, EventError>(
                output_for(final(self)@.stats, LOCAL_WORKER, event),
            ),
    {
        let reply = Self::handle_in_broker(&mut self.stats, &event);
        match reply.result {
            BrokerEventResult::Forward => self.events.push(event),
            BrokerEventResult::Handled => (),
        }
        Ok(reply.output)
    }

    /// The client's drain: takes the pending events, the most recent first,
    /// and processes each. Processing stops at the first event that fails.
    ///
    /// With nothing pending the result is `Ok(0)`. Else the newest event is
    /// taken off, and since no client may receive an event, the result is the
    /// error that hands it back; the older events stay pending.
    pub fn process(&mut self) -> (processed: Result<usize, EventError>)
        ensures
            final(self)@.stats == old(self)@.stats,
            old(self)@.events.len() == 0 ==> processed == Ok::<usize, EventError>(0)
                && final(self)@.events == old(self)@.events,
            old(self)@.events.len() > 0 ==> processed == Err::<usize, EventError>(
                EventError::IllegalMessage(old(self)@.events.last()),
            ) && final(self)@.events == old(self)@.events.drop_last(),
    {
        let count = self.events.len();
        while self.events.len() > 0
            invariant
                self.events@ == old(self).events@,
                self.stats@ == old(self).stats@,
                count == old(self).events@.len(),
            decreases self.events.len(),
        {
            let event = self.events.pop().unwrap();
            self.handle_in_client(event)?;
        }
        Ok(count)
    }

    /// The broker's handling of one event of the manager's own worker: see
    /// [`ClientStatsView::handle`].
    pub fn handle_in_broker(stats: &mut ClientStatsView, event: &Event) -> (reply: BrokerReply)
        ensures
            final(stats)@ == handled(old(stats)@, LOCAL_WORKER, *event),
            reply.result == BrokerEventResult::Handled,
            reply.output == output_for(final(stats)@, LOCAL_WORKER, *event),
    {
        stats.handle(LOCAL_WORKER, event)
    }

    /// The client's handling of one event that came back from the broker.
    ///
    /// The broker forwards nothing, so whatever arrives here should not have:
    /// the result is always the error that hands the event back, and the
    /// manager is left as it is.
    pub fn handle_in_client(&mut self, event: Event) -> (handled: Result<(), EventError>)
        ensures
            handled == Err::<(), EventError>(EventError::IllegalMessage(event)),
            final(self)@ == old(self)@,
    {
        match event {
            _ => Err(EventError::IllegalMessage(event)),
        }
    }
}

} // verus!
