//! Realtime subscriptions to the core: stream paths, options, the bounded
//! event buffer, the reconnect policy, and the mapping of connection records.
use vstd::prelude::*;

use crate::domain::{AppError, Connection, ConnectionSnapshot, ErrorCode, RealtimeEvent, RealtimeTopic};
use crate::mihomo::{backoff, backoff_delay, bounded_push, is_loopback, loopback, min_nat, IpAddress};
use crate::text::{contains_char, contains_control, decimal, decimal_string, has_char, has_control};

verus! {

pub open spec fn topic_path_of(topic: RealtimeTopic) -> Seq<char> {
    match topic {
        RealtimeTopic::Traffic => "/traffic"@,
        RealtimeTopic::Memory => "/memory"@,
        RealtimeTopic::Connections => "/connections?interval=1000"@,
        RealtimeTopic::Logs => "/logs?level=debug"@,
    }
}

/// The controller path that streams a topic.
pub fn topic_path(topic: RealtimeTopic) -> (p: &'static str)
    ensures
        p@ == topic_path_of(topic),
{
    match topic {
        RealtimeTopic::Traffic => "/traffic",
        RealtimeTopic::Memory => "/memory",
        RealtimeTopic::Connections => "/connections?interval=1000",
        RealtimeTopic::Logs => "/logs?level=debug",
    }
}

/// Timeouts and backoff in milliseconds, and the number of buffered events.
#[derive(Clone, Debug, PartialEq, Eq)]
pub struct RealtimeOptions {
    pub connect_timeout_ms: u64,
    pub read_timeout_ms: u64,
    pub initial_backoff_ms: u64,
    pub max_backoff_ms: u64,
    pub buffer_capacity: usize,
}

impl Default for RealtimeOptions {
    fn default() -> (o: Self)
        ensures
            o.connect_timeout_ms == 2000,
            o.read_timeout_ms == 200,
            o.initial_backoff_ms == 100,
            o.max_backoff_ms == 5000,
            o.buffer_capacity == 128,
    {
        RealtimeOptions {
            connect_timeout_ms: 2000,
            read_timeout_ms: 200,
            initial_backoff_ms: 100,
            max_backoff_ms: 5000,
            buffer_capacity: 128,
        }
    }
}

impl RealtimeOptions {
    pub open spec fn valid(&self) -> bool {
        self.buffer_capacity != 0 && self.initial_backoff_ms != 0 && self.max_backoff_ms
            >= self.initial_backoff_ms && self.read_timeout_ms != 0
    }

    pub fn validate(&self) -> (r: Result<(), AppError>)
        ensures
            r is Ok <==> self.valid(),
            r matches Err(e) ==> e.code == ErrorCode::InvalidInput && e.message@
                == "invalid Mihomo realtime options"@,
    {
        if self.buffer_capacity == 0 || self.initial_backoff_ms == 0 || self.max_backoff_ms
            < self.initial_backoff_ms || self.read_timeout_ms == 0 {
            return Err(AppError::new(ErrorCode::InvalidInput, "invalid Mihomo realtime options"));
        }
        Ok(())
    }
}

/// The newest realtime events, at most `capacity` of them.
#[derive(Debug)]
pub struct EventBuffer {
    capacity: usize,
    events: Vec<RealtimeEvent>,
}

impl EventBuffer {
    pub closed spec fn capacity(&self) -> nat {
        self.capacity as nat
    }

    pub closed spec fn events(&self) -> Seq<RealtimeEvent> {
        self.events@
    }

    pub fn new(capacity: usize) -> (b: EventBuffer)
        ensures
            b.capacity() == capacity,
            b.events() == Seq::<RealtimeEvent>::empty(),
    {
        EventBuffer { capacity, events: Vec::new() }
    }

    pub fn push(&mut self, event: RealtimeEvent)
        ensures
            final(self).capacity() == old(self).capacity(),
            final(self).events() == bounded_push(old(self).events(), old(self).capacity(), event),
    {
        if self.events.len() == self.capacity && self.events.len() > 0 {
            self.events.remove(0);
        }
        self.events.push(event);
        assert(self.events@ =~= bounded_push(old(self).events(), old(self).capacity(), event));
    }

    /// Hands out the buffered events, oldest first, and empties the buffer.
    pub fn drain(&mut self) -> (r: Vec<RealtimeEvent>)
        ensures
            r@ == old(self).events(),
            final(self).events() == Seq::<RealtimeEvent>::empty(),
            final(self).capacity() == old(self).capacity(),
    {
        let mut out = Vec::new();
        std::mem::swap(&mut out, &mut self.events);
        out
    }
}

/// A subscription is refused for invalid options, a controller that is not a
/// loopback address, or a secret with control characters.
pub fn check_subscription(ip: IpAddress, secret: &str, options: &RealtimeOptions) -> (r: Result<(), AppError>)
    ensures
        r is Ok <==> (options.valid() && loopback(ip) && !has_control(secret@)),
        r matches Err(e) ==> e.code == ErrorCode::InvalidInput,
{
    options.validate()?;
    if !is_loopback(ip) {
        return Err(AppError::new(ErrorCode::InvalidInput, "Mihomo realtime controller must use a loopback address"));
    }
    if contains_control(secret) {
        return Err(AppError::new(ErrorCode::InvalidInput, "Mihomo controller secret contains control characters"));
    }
    Ok(())
}

/// The delay before reconnect attempt `attempt`: the initial backoff doubled
/// per earlier attempt (at most 8 times), capped at the maximum backoff.
pub open spec fn reconnect_delay(options: RealtimeOptions, attempt: nat) -> nat {
    min_nat(backoff_delay(options.initial_backoff_ms, attempt), options.max_backoff_ms as nat)
}

/// After a stream ends: the next attempt number (counting starts over when
/// the stream delivered an event) and the event that announces the retry.
pub fn next_reconnect(attempt: u32, received_event: bool, options: &RealtimeOptions) -> (r: (
    u32,
    RealtimeEvent,
))
    ensures
        r.0 == (if received_event { 1 } else { min_nat(attempt as nat + 1, u32::MAX as nat) }),
        r.1 == (RealtimeEvent::Reconnecting {
            attempt: r.0,
            delay_ms: reconnect_delay(*options, r.0 as nat) as u64,
        }),
{
    let base = if received_event { 0 } else { attempt };
    let next = if base == u32::MAX { u32::MAX } else { base + 1 };
    let d = backoff(options.initial_backoff_ms, next);
    let delay = if d < options.max_backoff_ms { d } else { options.max_backoff_ms };
    (next, RealtimeEvent::Reconnecting { attempt: next, delay_ms: delay })
}

/// How a connection endpoint is shown: empty without a host, the bare host
/// without a port, brackets around an IPv6 host.
pub open spec fn endpoint_text(host: Seq<char>, port: u16) -> Seq<char> {
    if host.len() == 0 {
        seq![]
    } else if port == 0 {
        host
    } else if has_char(host, ':') {
        seq!['['] + host + "]:"@ + decimal(port as nat)
    } else {
        host + seq![':'] + decimal(port as nat)
    }
}

pub fn format_endpoint(host: &str, port: u16) -> (r: String)
    ensures
        r@ == endpoint_text(host@, port),
{
    if host.unicode_len() == 0 {
        String::new()
    } else if port == 0 {
        String::from_str(host)
    } else if contains_char(host, ':') {
        let r = String::from_str("[").concat(host).concat("]:").concat(decimal_string(port as u64).as_str());
        proof {
            reveal_strlit("[");
        }
        assert(r@ =~= endpoint_text(host@, port));
        r
    } else {
        let r = String::from_str(host).concat(":").concat(decimal_string(port as u64).as_str());
        proof {
            reveal_strlit(":");
        }
        assert(r@ =~= endpoint_text(host@, port));
        r
    }
}

/// Connection metadata as the controller reports it.
#[derive(Clone, Debug, Default, PartialEq, Eq)]
pub struct RawMetadata {
    pub network: String,
    pub source_ip: String,
    pub source_port: u16,
    pub destination_ip: String,
    pub destination_port: u16,
    pub host: String,
    pub process: String,
    pub process_path: String,
}

/// A connection record as the controller reports it.
#[derive(Clone, Debug, Default, PartialEq, Eq)]
pub struct RawConnection {
    pub id: String,
    pub metadata: RawMetadata,
    pub upload: u64,
    pub download: u64,
    pub start: String,
    pub chains: Vec<String>,
    pub rule: String,
    pub rule_payload: String,
}

/// The connection shown for a raw record: endpoints formatted, and the
/// process path standing in for an empty process name.
pub open spec fn connection_of(raw: RawConnection, c: Connection) -> bool {
    &&& c.id == raw.id
    &&& c.network == raw.metadata.network
    &&& c.source@ == endpoint_text(raw.metadata.source_ip@, raw.metadata.source_port)
    &&& c.destination@ == endpoint_text(raw.metadata.destination_ip@, raw.metadata.destination_port)
    &&& c.host == raw.metadata.host
    &&& c.process == (if raw.metadata.process@.len() == 0 {
        raw.metadata.process_path
    } else {
        raw.metadata.process
    })
    &&& c.upload == raw.upload
    &&& c.download == raw.download
    &&& c.start == raw.start
    &&& c.rule == raw.rule
    &&& c.rule_payload == raw.rule_payload
    &&& c.chains == raw.chains
}

pub fn connection_from_raw(raw: RawConnection) -> (c: Connection)
    ensures
        connection_of(raw, c),
{
    let source = format_endpoint(raw.metadata.source_ip.as_str(), raw.metadata.source_port);
    let destination = format_endpoint(raw.metadata.destination_ip.as_str(), raw.metadata.destination_port);
    let process = if raw.metadata.process.as_str().unicode_len() == 0 {
        raw.metadata.process_path
    } else {
        raw.metadata.process
    };
    Connection {
        id: raw.id,
        network: raw.metadata.network,
        source,
        destination,
        host: raw.metadata.host,
        process,
        upload: raw.upload,
        download: raw.download,
        start: raw.start,
        rule: raw.rule,
        rule_payload: raw.rule_payload,
        chains: raw.chains,
    }
}

/// The snapshot for a connections message: totals as reported, one connection
/// per raw record (none when the list is absent), and their count.
pub fn connections_snapshot(upload_total: u64, download_total: u64, raw: Option<Vec<RawConnection>>) -> (s: ConnectionSnapshot)
    ensures
        s.upload_total == upload_total,
        s.download_total == download_total,
        s.connection_count == s.connections@.len(),
        s.connections@.len() == (match raw {
            Some(v) => v@.len(),
            None => 0,
        }),
        raw matches Some(v) ==> forall|i: int| 0 <= i < v@.len() ==> connection_of(v@[i], #[trigger] s.connections@[i]),
{
    let mut connections: Vec<Connection> = Vec::new();
    match raw {
        None => {},
        Some(records) => {
            let ghost all = records@;
            let mut rest = records;
            let mut k: usize = 0;
            let n = rest.len();
            while rest.len() > 0
                invariant
                    all.len() == n,
                    k <= n,
                    rest@ == all.skip(k as int),
                    rest@.len() == n - k,
                    connections@.len() == k,
                    forall|i: int| 0 <= i < k ==> connection_of(all[i], #[trigger] connections@[i]),
                decreases rest.len(),
            {
                let record = rest.remove(0);
                assert(record == all[k as int]);
                connections.push(connection_from_raw(record));
                k = k + 1;
                assert(rest@ =~= all.skip(k as int));
            }
        },
    }
    let count = connections.len();
    ConnectionSnapshot { upload_total, download_total, connection_count: count, connections }
}

} // verus!
