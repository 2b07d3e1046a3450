//! The dashboard's telemetry: a bounded history of traffic samples, the
//! latest memory reading and the connection count.
use vstd::prelude::*;

use crate::domain::{MemoryEvent, RealtimeEvent, TrafficEvent};
use crate::mihomo::bounded_push;

verus! {

/// How many traffic samples the history keeps.
pub const HISTORY_SAMPLES: usize = 40;

pub struct Telemetry {
    pub history: Vec<TrafficEvent>,
    pub memory: Option<MemoryEvent>,
    pub connections: Option<usize>,
}

pub struct TelemetryView {
    pub history: Seq<TrafficEvent>,
    pub memory: Option<MemoryEvent>,
    pub connections: Option<usize>,
}

pub open spec fn telemetry_view(t: Telemetry) -> TelemetryView {
    TelemetryView { history: t.history@, memory: t.memory, connections: t.connections }
}

/// One event folded in, and whether anything shown changed.
pub open spec fn fold_event(t: TelemetryView, e: RealtimeEvent) -> (TelemetryView, bool) {
    match e {
        RealtimeEvent::Traffic(traffic) => (
            TelemetryView { history: bounded_push(t.history, HISTORY_SAMPLES as nat, traffic), ..t },
            true,
        ),
        RealtimeEvent::Memory(m) => (TelemetryView { memory: Some(m), ..t }, t.memory != Some(m)),
        RealtimeEvent::Connections(s) => (
            TelemetryView { connections: Some(s.connection_count), ..t },
            t.connections != Some(s.connection_count),
        ),
        _ => (t, false),
    }
}

/// The events folded in order; the flag tells whether any of them changed
/// what is shown.
pub open spec fn fold_events(t: TelemetryView, events: Seq<RealtimeEvent>) -> (TelemetryView, bool)
    decreases events.len(),
{
    if events.len() == 0 {
        (t, false)
    } else {
        let (before, changed) = fold_events(t, events.drop_last());
        let (after, now) = fold_event(before, events.last());
        (after, changed || now)
    }
}

/// The traffic samples among `events`, in order.
pub open spec fn traffic_samples(events: Seq<RealtimeEvent>) -> Seq<TrafficEvent>
    decreases events.len(),
{
    if events.len() == 0 {
        seq![]
    } else {
        let rest = traffic_samples(events.drop_last());
        match events.last() {
            RealtimeEvent::Traffic(t) => rest.push(t),
            _ => rest,
        }
    }
}

/// The newest `n` items of `s`, oldest first.
pub open spec fn latest<T>(s: Seq<T>, n: nat) -> Seq<T> {
    if s.len() <= n {
        s
    } else {
        s.skip(s.len() - n)
    }
}

proof fn lemma_latest_push<T>(s: Seq<T>, n: nat, x: T)
    requires
        n > 0,
    ensures
        latest(s.push(x), n) == bounded_push(latest(s, n), n, x),
{
    if s.len() >= n {
        assert(latest(s.push(x), n) =~= latest(s, n).drop_first().push(x));
    }
}

/// However long the dashboard runs, its history is the newest
/// `HISTORY_SAMPLES` traffic samples, oldest first: those it held, then
/// those of the events folded in.
pub proof fn law_history_keeps_latest_samples(t: TelemetryView, events: Seq<RealtimeEvent>)
    requires
        t.history.len() <= HISTORY_SAMPLES,
    ensures
        fold_events(t, events).0.history == latest(t.history + traffic_samples(events), HISTORY_SAMPLES as nat),
    decreases events.len(),
{
    if events.len() == 0 {
        assert(t.history + traffic_samples(events) =~= t.history);
    } else {
        law_history_keeps_latest_samples(t, events.drop_last());
        let all = t.history + traffic_samples(events.drop_last());
        if let RealtimeEvent::Traffic(x) = events.last() {
            lemma_latest_push(all, HISTORY_SAMPLES as nat, x);
            assert(t.history + traffic_samples(events) =~= all.push(x));
        }
    }
}

impl Telemetry {
    pub fn new() -> (r: Self)
        ensures
            r.history@.len() == 0,
            r.memory is None,
            r.connections is None,
    {
        Telemetry { history: Vec::new(), memory: None, connections: None }
    }

    /// Folds realtime events in; returns whether the view must be redrawn.
    pub fn apply(&mut self, events: &Vec<RealtimeEvent>) -> (changed: bool)
        ensures
            (telemetry_view(*final(self)), changed) == fold_events(telemetry_view(*old(self)), events@),
            old(self).history@.len() <= HISTORY_SAMPLES ==> final(self).history@.len() <= HISTORY_SAMPLES,
    {
        let mut changed = false;
        let mut i: usize = 0;
        let ghost start = telemetry_view(*self);
        while i < events.len()
            invariant
                i <= events@.len(),
                start.history.len() <= HISTORY_SAMPLES ==> self.history@.len() <= HISTORY_SAMPLES,
                (telemetry_view(*self), changed) == fold_events(start, events@.take(i as int)),
            decreases events.len() - i,
        {
            assert(events@.take(i + 1).drop_last() =~= events@.take(i as int));
            match &events[i] {
                RealtimeEvent::Traffic(traffic) => {
                    if self.history.len() == HISTORY_SAMPLES {
                        self.history.remove(0);
                    }
                    self.history.push(*traffic);
                    changed = true;
                },
                RealtimeEvent::Memory(memory) => {
                    let same = match &self.memory {
                        Some(m) => m.inuse == memory.inuse && m.oslimit == memory.oslimit,
                        None => false,
                    };
                    changed = changed || !same;
                    self.memory = Some(*memory);
                },
                RealtimeEvent::Connections(snapshot) => {
                    let same = match self.connections {
                        Some(c) => c == snapshot.connection_count,
                        None => false,
                    };
                    changed = changed || !same;
                    self.connections = Some(snapshot.connection_count);
                },
                _ => {},
            }
            i = i + 1;
        }
        assert(events@.take(events@.len() as int) =~= events@);
        changed
    }
}

} // verus!
