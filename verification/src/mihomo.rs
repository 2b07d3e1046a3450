//! The Mihomo core: configuration checks, the restart policy of its
//! supervisor, and the bounded buffer of its output lines.
use vstd::prelude::*;

use crate::domain::{AppError, ErrorCode};
use crate::text::{contains_control, has_control};

pub mod realtime;
pub mod sidecar;
pub mod laws;

verus! {

#[derive(Clone, Debug, PartialEq, Eq)]
pub struct CoreHealth {
    pub version: String,
}

#[derive(Clone, Debug, PartialEq, Eq)]
pub enum SupervisorState {
    Stopped,
    Running { pid: u32 },
    /// Waiting to restart; `retry_at_ms` is on the supervisor's monotonic clock.
    Backoff { attempt: u32, retry_at_ms: u64 },
    Failed { attempts: u32, last_code: Option<i32> },
}

#[derive(Clone, Debug, PartialEq, Eq)]
pub enum SupervisorEvent {
    Started { pid: u32 },
    Exited { code: Option<i32> },
    RestartScheduled { attempt: u32, delay_ms: u64 },
    Stopped,
    Failed { attempts: u32, last_code: Option<i32> },
}

#[derive(Clone, Copy, Debug, PartialEq, Eq)]
pub enum LogStream {
    Stdout,
    Stderr,
}

#[derive(Debug, PartialEq, Eq)]
pub struct CoreLogLine {
    pub stream: LogStream,
    pub message: String,
}

impl Clone for CoreLogLine {
    fn clone(&self) -> (r: Self)
        ensures
            r == *self,
    {
        CoreLogLine { stream: self.stream, message: self.message.clone() }
    }
}

/// What a bounded FIFO holds after `x` is pushed: when full, the oldest item
/// gives way.
pub open spec fn bounded_push<T>(items: Seq<T>, capacity: nat, x: T) -> Seq<T> {
    if items.len() == capacity && items.len() > 0 {
        items.drop_first().push(x)
    } else {
        items.push(x)
    }
}

/// The most recent output lines of the core, at most `capacity` of them.
#[derive(Debug)]
pub struct LogBuffer {
    capacity: usize,
    lines: Vec<CoreLogLine>,
}

impl LogBuffer {
    pub closed spec fn capacity(&self) -> nat {
        self.capacity as nat
    }

    pub closed spec fn lines(&self) -> Seq<CoreLogLine> {
        self.lines@
    }

    pub fn new(capacity: usize) -> (b: LogBuffer)
        ensures
            b.capacity() == capacity,
            b.lines() == Seq::<CoreLogLine>::empty(),
    {
        LogBuffer { capacity, lines: Vec::new() }
    }

    pub fn push(&mut self, line: CoreLogLine)
        ensures
            final(self).capacity() == old(self).capacity(),
            final(self).lines() == bounded_push(old(self).lines(), old(self).capacity(), line),
    {
        if self.lines.len() == self.capacity && self.lines.len() > 0 {
            self.lines.remove(0);
        }
        self.lines.push(line);
        assert(self.lines@ =~= bounded_push(old(self).lines(), old(self).capacity(), line));
    }

    pub fn snapshot(&self) -> (r: Vec<CoreLogLine>)
        ensures
            r@ == self.lines(),
    {
        let mut out = Vec::new();
        let mut i: usize = 0;
        while i < self.lines.len()
            invariant
                i <= self.lines@.len(),
                out@ == self.lines@.take(i as int),
            decreases self.lines.len() - i,
        {
            out.push(self.lines[i].clone());
            assert(out@ =~= self.lines@.take(i + 1));
            i = i + 1;
        }
        assert(self.lines@.take(self.lines@.len() as int) =~= self.lines@);
        out
    }
}

/// An IP address as a number: IPv4 in network byte order, IPv6 likewise.
#[derive(Clone, Copy, Debug, PartialEq, Eq)]
pub enum IpAddress {
    V4(u32),
    V6(u128),
}

/// 127.0.0.0/8 for IPv4 and ::1 for IPv6.
pub open spec fn loopback(ip: IpAddress) -> bool {
    match ip {
        IpAddress::V4(a) => 0x7f00_0000 <= a && a <= 0x7fff_ffff,
        IpAddress::V6(a) => a == 1,
    }
}

pub fn is_loopback(ip: IpAddress) -> (r: bool)
    ensures
        r == loopback(ip),
{
    match ip {
        IpAddress::V4(a) => 0x7f00_0000 <= a && a <= 0x7fff_ffff,
        IpAddress::V6(a) => a == 1,
    }
}

/// The controller address of the core.
#[derive(Clone, Copy, Debug, PartialEq, Eq)]
pub struct ControllerAddress {
    pub ip: IpAddress,
    pub port: u16,
}

#[derive(Clone, Debug, PartialEq, Eq)]
pub struct MihomoConfig {
    pub binary: String,
    pub working_dir: String,
    pub controller: ControllerAddress,
    pub secret: String,
    pub max_restarts: u32,
    pub restart_backoff_ms: u64,
    pub stop_timeout_ms: u64,
    pub log_capacity: usize,
}

/// An error of the core with a message made of `prefix` and `detail`.
pub open spec fn core_message(e: AppError, prefix: Seq<char>, detail: Seq<char>) -> bool {
    e.code == ErrorCode::CoreUnavailable && e.message@ == prefix + detail
}

fn core_error_with(prefix: &str, detail: &str) -> (e: AppError)
    ensures
        core_message(e, prefix@, detail@),
{
    let message = String::from_str(prefix).concat(detail);
    AppError::with_message(ErrorCode::CoreUnavailable, message)
}

/// An error that the core is unavailable.
pub fn core_error(message: &str) -> (e: AppError)
    ensures
        e.code == ErrorCode::CoreUnavailable,
        e.message@ == message@,
{
    AppError::new(ErrorCode::CoreUnavailable, message)
}

impl MihomoConfig {
    /// Checks the configuration; the two flags report whether the binary is a
    /// file and the working directory is a directory.
    pub fn validate(&self, binary_is_file: bool, working_dir_is_dir: bool) -> (r: Result<(), AppError>)
        ensures
            r is Ok <==> (binary_is_file && working_dir_is_dir && loopback(self.controller.ip)
                && self.secret@.len() > 0 && !has_control(self.secret@) && self.log_capacity > 0),
            !binary_is_file ==> (r matches Err(e) && core_message(
                e,
                "Mihomo binary does not exist: "@,
                self.binary@,
            )),
            binary_is_file && !working_dir_is_dir ==> (r matches Err(e) && core_message(
                e,
                "Mihomo working directory does not exist: "@,
                self.working_dir@,
            )),
            binary_is_file && working_dir_is_dir && r is Err ==> (r matches Err(e) && e.code
                == ErrorCode::InvalidInput),
    {
        if !binary_is_file {
            return Err(core_error_with("Mihomo binary does not exist: ", self.binary.as_str()));
        }
        if !working_dir_is_dir {
            return Err(core_error_with("Mihomo working directory does not exist: ", self.working_dir.as_str()));
        }
        if !is_loopback(self.controller.ip) {
            return Err(AppError::new(ErrorCode::InvalidInput, "Mihomo controller must bind to a loopback address"));
        }
        if self.secret.as_str().unicode_len() == 0 || contains_control(self.secret.as_str()) {
            return Err(AppError::new(ErrorCode::InvalidInput, "Mihomo controller secret is empty or contains control characters"));
        }
        if self.log_capacity == 0 {
            return Err(AppError::new(ErrorCode::InvalidInput, "Mihomo log capacity must be greater than zero"));
        }
        Ok(())
    }
}

/// 2 to the power `n`.
pub open spec fn pow2(n: nat) -> nat
    decreases n,
{
    if n == 0 { 1 } else { 2 * pow2((n - 1) as nat) }
}

pub open spec fn min_nat(a: nat, b: nat) -> nat {
    if a <= b { a } else { b }
}

/// `base` doubled for each earlier attempt, at most 8 times, saturating at `u64::MAX`.
pub open spec fn backoff_delay(base: u64, attempt: nat) -> nat {
    let exponent = if attempt == 0 { 0 } else { min_nat((attempt - 1) as nat, 8) };
    min_nat(base as nat * pow2(exponent), u64::MAX as nat)
}

pub fn backoff_multiplier(attempt: u32) -> (m: u64)
    ensures
        m == pow2(if attempt == 0 { 0 } else { min_nat((attempt - 1) as nat, 8) }),
        1 <= m <= 256,
{
    let exponent: u32 = if attempt == 0 { 0 } else if attempt - 1 < 8 { attempt - 1 } else { 8 };
    let mut m: u64 = 1;
    let mut k: u32 = 0;
    while k < exponent
        invariant
            k <= exponent <= 8,
            m == pow2(k as nat),
        decreases exponent - k,
    {
        proof {
            lemma_pow2_bound(k as nat);
        }
        m = m * 2;
        k = k + 1;
    }
    proof {
        lemma_pow2_bound(k as nat);
    }
    m
}

proof fn lemma_pow2_bound(k: nat)
    requires
        k <= 8,
    ensures
        pow2(k) <= 256,
        k < 8 ==> pow2(k) * 2 <= 256,
        pow2(k) >= 1,
    decreases k,
{
    reveal_with_fuel(pow2, 9);
    if k > 0 {
        lemma_pow2_bound((k - 1) as nat);
    }
    assert(pow2(0) == 1);
    assert(pow2(1) == 2);
    assert(pow2(2) == 4);
    assert(pow2(3) == 8);
    assert(pow2(4) == 16);
    assert(pow2(5) == 32);
    assert(pow2(6) == 64);
    assert(pow2(7) == 128);
    assert(pow2(8) == 256);
}

/// The restart delay before attempt `attempt`.
pub fn backoff(base_ms: u64, attempt: u32) -> (d: u64)
    ensures
        d == backoff_delay(base_ms, attempt as nat),
{
    let m = backoff_multiplier(attempt);
    if base_ms > u64::MAX / m {
        assert(base_ms as nat * m as nat > u64::MAX as nat) by (nonlinear_arith)
            requires
                base_ms > u64::MAX / m,
                m >= 1,
        ;
        u64::MAX
    } else {
        assert(base_ms as nat * m as nat <= u64::MAX as nat) by (nonlinear_arith)
            requires
                base_ms <= u64::MAX / m,
                m >= 1,
        ;
        base_ms * m
    }
}

/// The decisions of the core supervisor: its state, the restart policy and
/// the events it reports. Starting and stopping the process is done by the
/// caller, which reports what happened.
#[derive(Debug)]
pub struct SupervisorMachine {
    max_restarts: u32,
    restart_backoff_ms: u64,
    state: SupervisorState,
    restart_attempts: u32,
    events: Vec<SupervisorEvent>,
}

impl SupervisorMachine {
    pub closed spec fn state_of(&self) -> SupervisorState {
        self.state
    }

    pub closed spec fn restart_limit(&self) -> u32 {
        self.max_restarts
    }

    pub closed spec fn base_delay_ms(&self) -> u64 {
        self.restart_backoff_ms
    }

    pub closed spec fn attempts(&self) -> u32 {
        self.restart_attempts
    }

    /// Events reported and not yet drained, oldest first.
    pub closed spec fn pending_events(&self) -> Seq<SupervisorEvent> {
        self.events@
    }

    pub fn new(max_restarts: u32, restart_backoff_ms: u64) -> (s: SupervisorMachine)
        ensures
            s.state_of() == SupervisorState::Stopped,
            s.attempts() == 0,
            s.pending_events() == Seq::<SupervisorEvent>::empty(),
            s.restart_limit() == max_restarts,
            s.base_delay_ms() == restart_backoff_ms,
    {
        SupervisorMachine {
            max_restarts,
            restart_backoff_ms,
            state: SupervisorState::Stopped,
            restart_attempts: 0,
            events: Vec::new(),
        }
    }

    pub fn state(&self) -> (r: &SupervisorState)
        ensures
            *r == self.state_of(),
    {
        &self.state
    }

    /// The process was started with `pid`.
    pub fn started(&mut self, pid: u32)
        ensures
            final(self).state_of() == (SupervisorState::Running { pid }),
            final(self).attempts() == old(self).attempts(),
            final(self).pending_events() == old(self).pending_events().push(
                SupervisorEvent::Started { pid },
            ),
            final(self).restart_limit() == old(self).restart_limit(),
            final(self).base_delay_ms() == old(self).base_delay_ms(),
    {
        self.state = SupervisorState::Running { pid };
        self.events.push(SupervisorEvent::Started { pid });
    }

    /// Whether a scheduled restart is due at `now_ms`.
    pub fn restart_due(&self, now_ms: u64) -> (r: bool)
        ensures
            r == (self.state_of() matches SupervisorState::Backoff { retry_at_ms, .. }
                && now_ms >= retry_at_ms),
    {
        match self.state {
            SupervisorState::Backoff { retry_at_ms, .. } => now_ms >= retry_at_ms,
            _ => false,
        }
    }

    /// Whether an exit at `now_ms` can be recorded: the restart count and
    /// the retry time stay within their integer types.
    pub fn can_record_exit(&self, now_ms: u64) -> (r: bool)
        ensures
            r == (self.attempts() < u32::MAX && (self.attempts() + 1 <= self.restart_limit() ==> now_ms
                + backoff_delay(self.base_delay_ms(), (self.attempts() + 1) as nat) <= u64::MAX)),
    {
        if self.restart_attempts == u32::MAX {
            return false;
        }
        let next = self.restart_attempts + 1;
        if next > self.max_restarts {
            return true;
        }
        let delay = backoff(self.restart_backoff_ms, next);
        delay <= u64::MAX - now_ms
    }

    /// The process exited with `code` at `now_ms`: schedule a restart with
    /// exponential backoff, or give up after `max_restarts` restarts.
    pub fn exited(&mut self, code: Option<i32>, now_ms: u64)
        requires
            old(self).attempts() < u32::MAX,
            old(self).attempts() + 1 <= old(self).restart_limit() ==> now_ms + backoff_delay(
                old(self).base_delay_ms(),
                (old(self).attempts() + 1) as nat,
            ) <= u64::MAX,
        ensures
            final(self).attempts() == old(self).attempts() + 1,
            final(self).restart_limit() == old(self).restart_limit(),
            final(self).base_delay_ms() == old(self).base_delay_ms(),
            ({
                let a = (old(self).attempts() + 1) as u32;
                if a > old(self).restart_limit() {
                    &&& final(self).state_of() == (SupervisorState::Failed { attempts: a, last_code: code })
                    &&& final(self).pending_events() == old(self).pending_events().push(
                        SupervisorEvent::Exited { code },
                    ).push(SupervisorEvent::Failed { attempts: a, last_code: code })
                } else {
                    let d = backoff_delay(old(self).base_delay_ms(), a as nat);
                    &&& final(self).state_of() == (SupervisorState::Backoff {
                        attempt: a,
                        retry_at_ms: (now_ms + d) as u64,
                    })
                    &&& final(self).pending_events() == old(self).pending_events().push(
                        SupervisorEvent::Exited { code },
                    ).push(SupervisorEvent::RestartScheduled { attempt: a, delay_ms: d as u64 })
                }
            }),
    {
        self.events.push(SupervisorEvent::Exited { code });
        self.restart_attempts = self.restart_attempts + 1;
        if self.restart_attempts > self.max_restarts {
            self.state = SupervisorState::Failed { attempts: self.restart_attempts, last_code: code };
            self.events.push(SupervisorEvent::Failed { attempts: self.restart_attempts, last_code: code });
            return;
        }
        let delay = backoff(self.restart_backoff_ms, self.restart_attempts);
        self.state = SupervisorState::Backoff { attempt: self.restart_attempts, retry_at_ms: now_ms + delay };
        self.events.push(SupervisorEvent::RestartScheduled { attempt: self.restart_attempts, delay_ms: delay });
    }

    /// The process was stopped on request: the restart count starts over.
    pub fn stopped(&mut self)
        ensures
            final(self).state_of() == SupervisorState::Stopped,
            final(self).attempts() == 0,
            final(self).pending_events() == old(self).pending_events().push(SupervisorEvent::Stopped),
            final(self).restart_limit() == old(self).restart_limit(),
            final(self).base_delay_ms() == old(self).base_delay_ms(),
    {
        self.restart_attempts = 0;
        self.state = SupervisorState::Stopped;
        self.events.push(SupervisorEvent::Stopped);
    }

    /// Hands out the reported events, oldest first.
    pub fn drain_events(&mut self) -> (r: Vec<SupervisorEvent>)
        ensures
            r@ == old(self).pending_events(),
            final(self).pending_events() == Seq::<SupervisorEvent>::empty(),
            final(self).state_of() == old(self).state_of(),
            final(self).attempts() == old(self).attempts(),
            final(self).restart_limit() == old(self).restart_limit(),
            final(self).base_delay_ms() == old(self).base_delay_ms(),
    {
        let mut out = Vec::new();
        std::mem::swap(&mut out, &mut self.events);
        out
    }
}

/// A start is refused while the process runs.
pub fn check_can_start(running: bool) -> (r: Result<(), AppError>)
    ensures
        r is Ok <==> !running,
        r matches Err(e) ==> e.code == ErrorCode::Conflict && e.message@ == "Mihomo is already running"@,
{
    if running {
        return Err(AppError::new(ErrorCode::Conflict, "Mihomo is already running"));
    }
    Ok(())
}

} // verus!
