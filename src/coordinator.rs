//! The coordinator: it counts communication phases in flight across the
//! cluster, and on every poll decides whether to suspend or resume the job.

use vstd::prelude::*;
use vstd::multiset::Multiset;

use crate::codec::{decode, decoding, DecodeError};
use crate::req::{ReqType, Request};

verus! {

/// Default guaranteed bound: the longest run before a forced suspension.
pub const DEFAULT_GUARANTEED_MS: i64 = 400;
/// Default in-communication bound: the suspend dwell time, and the shortest
/// run once communication has quiesced.
pub const DEFAULT_IN_COMM_MS: u64 = 100;
/// Default interval between two polls of the control loop.
pub const DEFAULT_POLL_MS: u64 = 1;

/// The coordinator's configuration.
#[derive(Debug)]
pub struct Args {
    /// Guaranteed bound in milliseconds; negative turns job switching off.
    pub _timeslice: i64,
    /// Port that the coordinator binds.
    pub port: u16,
    /// Addresses of every node agent.
    pub rapid_addrs: Vec<String>,
    /// Port on which every node agent listens.
    pub rapid_port: u16,
    /// Log level, one of Error, Warn, Info, Debug, Trace, Off.
    pub debug: String,
}

/// The bounds that drive the control loop, in milliseconds.
#[derive(Clone, Copy, Debug, PartialEq, Eq, Structural)]
pub struct Timing {
    /// Longest run before a forced suspension; negative: never switch.
    pub guaranteed_ms: i64,
    /// Suspend dwell time, and shortest run once communication is quiet.
    pub in_comm_ms: u64,
    /// Interval between two polls.
    pub poll_ms: u64,
}

impl Timing {
    /// The default bounds.
    pub fn standard() -> (r: Timing)
        ensures
            r.guaranteed_ms == DEFAULT_GUARANTEED_MS,
            r.in_comm_ms == DEFAULT_IN_COMM_MS,
            r.poll_ms == DEFAULT_POLL_MS,
    {
        Timing {
            guaranteed_ms: DEFAULT_GUARANTEED_MS,
            in_comm_ms: DEFAULT_IN_COMM_MS,
            poll_ms: DEFAULT_POLL_MS,
        }
    }

    /// Whether the job is switched at all.
    pub open spec fn switching(self) -> bool {
        self.guaranteed_ms >= 0
    }
}

impl Args {
    /// The bounds that this configuration asks for: the timeslice is the
    /// guaranteed bound, the others are the defaults.
    pub fn timing(&self) -> (r: Timing)
        ensures
            r.guaranteed_ms == self._timeslice,
            r.in_comm_ms == DEFAULT_IN_COMM_MS,
            r.poll_ms == DEFAULT_POLL_MS,
    {
        Timing { guaranteed_ms: self._timeslice, in_comm_ms: DEFAULT_IN_COMM_MS, poll_ms: DEFAULT_POLL_MS }
    }
}

/// Whether the job runs or is suspended.
#[derive(Clone, Copy, Debug, PartialEq, Eq, Structural)]
pub enum Phase {
    Running,
    Suspended,
}

/// The control loop's state: the bounds, the phase, and when it began.
#[derive(Clone, Copy, Debug, PartialEq, Eq, Structural)]
pub struct Controller {
    pub timing: Timing,
    pub phase: Phase,
    pub since_ms: u64,
}

/// Time since the last phase change; a clock read before it counts as none.
pub open spec fn elapsed(since_ms: u64, now_ms: u64) -> int {
    if now_ms >= since_ms {
        now_ms - since_ms
    } else {
        0
    }
}

/// Whether a running job is suspended: past the guaranteed bound, or past
/// the in-communication bound with no communication in flight.
pub open spec fn stop_due(t: Timing, elapsed: int, counter: int) -> bool {
    elapsed >= t.guaranteed_ms || (counter == 0 && elapsed >= t.in_comm_ms)
}

/// The request that the coordinator broadcasts for a kind.
pub open spec fn broadcast_of(k: ReqType) -> Request {
    Request { req: k, pid: 0 }
}

/// One poll at `now_ms` with `counter` phases in flight: the next state and
/// what is broadcast, if anything.
pub open spec fn next(c: Controller, now_ms: u64, counter: i64) -> (Controller, Option<Request>) {
    let e = elapsed(c.since_ms, now_ms);
    if !c.timing.switching() {
        (c, None)
    } else {
        match c.phase {
            Phase::Running => if stop_due(c.timing, e, counter as int) {
                (
                    Controller { timing: c.timing, phase: Phase::Suspended, since_ms: now_ms },
                    Some(broadcast_of(ReqType::Stop)),
                )
            } else {
                (c, None)
            },
            Phase::Suspended => if e >= c.timing.in_comm_ms {
                (
                    Controller { timing: c.timing, phase: Phase::Running, since_ms: now_ms },
                    Some(broadcast_of(ReqType::Cont)),
                )
            } else {
                (c, None)
            },
        }
    }
}

/// A run of polls, each a time and a counter value: the final state and
/// everything broadcast, in order.
pub open spec fn run(c: Controller, polls: Seq<(u64, i64)>) -> (Controller, Seq<Request>)
    decreases polls.len(),
{
    if polls.len() == 0 {
        (c, Seq::empty())
    } else {
        let (mid, sent) = run(c, polls.drop_last());
        let (last, out) = next(mid, polls.last().0, polls.last().1);
        match out {
            Some(r) => (last, sent.push(r)),
            None => (last, sent),
        }
    }
}

impl Controller {
    /// A running job, as of `now_ms`.
    pub fn new(timing: Timing, now_ms: u64) -> (r: Controller)
        ensures
            r == (Controller { timing, phase: Phase::Running, since_ms: now_ms }),
    {
        Controller { timing, phase: Phase::Running, since_ms: now_ms }
    }

    /// One poll of the control loop at `now_ms`, with `counter` phases in
    /// flight. Returns the request to broadcast to every agent, if any.
    pub fn tick(&mut self, now_ms: u64, counter: i64) -> (r: Option<Request>)
        ensures
            (*final(self), r) == next(*old(self), now_ms, counter),
    {
        if self.timing.guaranteed_ms < 0 {
            return None;
        }
        let e: u64 = if now_ms >= self.since_ms {
            now_ms - self.since_ms
        } else {
            0
        };
        match self.phase {
            Phase::Running => {
                if e >= self.timing.guaranteed_ms as u64 || (counter == 0 && e
                    >= self.timing.in_comm_ms) {
                    self.phase = Phase::Suspended;
                    self.since_ms = now_ms;
                    Some(Request { req: ReqType::Stop, pid: 0 })
                } else {
                    None
                }
            },
            Phase::Suspended => {
                if e >= self.timing.in_comm_ms {
                    self.phase = Phase::Running;
                    self.since_ms = now_ms;
                    Some(Request { req: ReqType::Cont, pid: 0 })
                } else {
                    None
                }
            },
        }
    }
}

/// A running job with no communication in flight is suspended, with a
/// `Stop` broadcast, once the in-communication bound has passed.
pub proof fn lemma_quiet_job_suspends(c: Controller, now_ms: u64)
    requires
        c.timing.switching(),
        c.phase == Phase::Running,
        elapsed(c.since_ms, now_ms) >= c.timing.in_comm_ms,
    ensures
        next(c, now_ms, 0).0.phase == Phase::Suspended,
        next(c, now_ms, 0).0.since_ms == now_ms,
        next(c, now_ms, 0).1 == Some(broadcast_of(ReqType::Stop)),
{
}

/// A running job with communication in flight keeps running, and nothing
/// is broadcast, until the guaranteed bound; at that bound it is suspended
/// whatever the counter holds.
pub proof fn lemma_busy_job_runs_to_guaranteed(c: Controller, now_ms: u64, counter: i64)
    requires
        c.timing.switching(),
        c.phase == Phase::Running,
    ensures
        counter != 0 && elapsed(c.since_ms, now_ms) < c.timing.guaranteed_ms ==> next(
            c,
            now_ms,
            counter,
        ) == (c, None::<Request>),
        elapsed(c.since_ms, now_ms) >= c.timing.guaranteed_ms ==> next(c, now_ms, counter).0.phase
            == Phase::Suspended && next(c, now_ms, counter).1 == Some(broadcast_of(ReqType::Stop)),
{
}

/// A job suspended at `since_ms` is resumed, with a `Cont` broadcast,
/// exactly once the in-communication bound has passed, whatever the counter
/// holds.
pub proof fn lemma_suspended_resumes(c: Controller, now_ms: u64, counter: i64)
    requires
        c.timing.switching(),
        c.phase == Phase::Suspended,
    ensures
        next(c, now_ms, counter).0.phase == Phase::Running <==> elapsed(c.since_ms, now_ms)
            >= c.timing.in_comm_ms,
        elapsed(c.since_ms, now_ms) >= c.timing.in_comm_ms ==> next(c, now_ms, counter).1 == Some(
            broadcast_of(ReqType::Cont),
        ) && next(c, now_ms, counter).0.since_ms == now_ms,
        elapsed(c.since_ms, now_ms) < c.timing.in_comm_ms ==> next(c, now_ms, counter) == (
            c,
            None::<Request>,
        ),
{
}

/// With a negative guaranteed bound nothing is ever broadcast, over any run
/// of polls and any counter values.
pub proof fn lemma_disabled_never_broadcasts(c: Controller, polls: Seq<(u64, i64)>)
    requires
        !c.timing.switching(),
    ensures
        run(c, polls).1 == Seq::<Request>::empty(),
        run(c, polls).0 == c,
    decreases polls.len(),
{
    if polls.len() > 0 {
        lemma_disabled_never_broadcasts(c, polls.drop_last());
    }
}

/// How a request moves the communication counter.
pub open spec fn delta_of(k: ReqType) -> int {
    match k {
        ReqType::CommBegin => 1,
        ReqType::CommEnd => -1,
        _ => 0,
    }
}

/// The counter after the events `s`, from zero.
pub open spec fn comm_count(s: Seq<ReqType>) -> int
    decreases s.len(),
{
    if s.len() == 0 {
        0
    } else {
        comm_count(s.drop_last()) + delta_of(s.last())
    }
}

/// The counter's move for one request: up one for `CommBegin`, down one for
/// `CommEnd`, none for the other kinds.
pub fn comm_delta(req: &Request) -> (r: i64)
    ensures
        r == delta_of(req.req),
{
    match req.req {
        ReqType::CommBegin => 1,
        ReqType::CommEnd => -1,
        _ => 0,
    }
}

/// The receiver's work on one datagram: the counter's move, or the decode
/// error for a datagram that is dropped.
pub fn receive(buf: &[u8]) -> (r: Result<i64, DecodeError>)
    ensures
        match decoding(buf@) {
            Ok(req) => r == Ok::<i64, DecodeError>(delta_of(req.req) as i64),
            Err(e) => r == Err::<i64, DecodeError>(e),
        },
{
    match decode(buf) {
        Ok(req) => Ok(comm_delta(&req)),
        Err(e) => Err(e),
    }
}

/// The counter after any events is the number of `CommBegin` less the
/// number of `CommEnd` among them.
pub proof fn lemma_comm_count_by_kind(s: Seq<ReqType>)
    ensures
        comm_count(s) == s.to_multiset().count(ReqType::CommBegin) - s.to_multiset().count(
            ReqType::CommEnd,
        ),
    decreases s.len(),
{
    broadcast use vstd::seq_lib::group_to_multiset_ensures;
    broadcast use vstd::multiset::group_multiset_axioms;
    if s.len() == 0 {
        vstd::multiset::lemma_multiset_empty_len(s.to_multiset());
    } else {
        let init = s.drop_last();
        lemma_comm_count_by_kind(init);
        assert(s =~= init.push(s.last()));
        assert(init.push(s.last()).to_multiset() =~= init.to_multiset().insert(s.last()));
    }
}

/// The counter settles on the same value under every interleaving of the
/// same events.
pub proof fn lemma_comm_count_interleaving(a: Seq<ReqType>, b: Seq<ReqType>)
    requires
        a.to_multiset() == b.to_multiset(),
    ensures
        comm_count(a) == comm_count(b),
{
    lemma_comm_count_by_kind(a);
    lemma_comm_count_by_kind(b);
}

/// Swaps `Stop` and `Cont`; any other kind is refused and left as it is.
pub fn reverse_request(data: &mut Request) -> (r: Result<(), ()>)
    ensures
        old(data).req == ReqType::Stop ==> r is Ok && final(data).req == ReqType::Cont,
        old(data).req == ReqType::Cont ==> r is Ok && final(data).req == ReqType::Stop,
        old(data).req != ReqType::Stop && old(data).req != ReqType::Cont ==> r is Err
            && *final(data) == *old(data),
        final(data).pid == old(data).pid,
{
    match data.req {
        ReqType::Stop => data.req = ReqType::Cont,
        ReqType::Cont => data.req = ReqType::Stop,
        _ => return Err(()),
    }
    Ok(())
}

} // verus!
