//! Port discovery: polling the port file until it names a port or the time
//! budget is spent.

use vstd::prelude::*;
use crate::text::{port_of, parse_port};

verus! {

/// What the poller asks its driver to do after one look at the port file.
#[derive(Debug, Clone, Copy, PartialEq, Eq, Structural)]
pub enum PollStep {
    /// The file named this port: discovery is over.
    Found(u16),
    /// Nothing usable yet: sleep this many milliseconds, then look again.
    Sleep(u64),
    /// The budget is spent; carries the elapsed milliseconds.
    TimedOut(u64),
}

/// Timing of a port discovery, in milliseconds.
#[derive(Debug, Clone, Copy, PartialEq, Eq, Structural)]
pub struct PortPoller {
    pub timeout_ms: u64,
    pub poll_ms: u64,
}

pub open spec fn min_u64(a: u64, b: u64) -> u64 {
    if a <= b { a } else { b }
}

impl PortPoller {
    pub open spec fn wf(&self) -> bool {
        0 < self.poll_ms && self.poll_ms < self.timeout_ms
    }

    pub fn new(timeout_ms: u64, poll_ms: u64) -> (r: PortPoller)
        requires
            0 < poll_ms < timeout_ms,
        ensures
            r.wf(),
            r.timeout_ms == timeout_ms,
            r.poll_ms == poll_ms,
    {
        PortPoller { timeout_ms, poll_ms }
    }

    /// How long to sleep after an empty read at `elapsed`, before the
    /// deadline: at most one poll interval, and never past the last
    /// millisecond before the deadline, so that one more read always falls
    /// just before it.
    pub open spec fn sleep_spec(&self, elapsed: u64) -> u64 {
        let left = (self.timeout_ms - elapsed) as u64;
        if left > 1 {
            min_u64(self.poll_ms, (left - 1) as u64)
        } else {
            1
        }
    }

    /// One decision, given the elapsed time (taken before the file was read)
    /// and the port read from the file, if any. Once the deadline is reached
    /// the budget is spent, whatever was read; before it, a port ends the
    /// search.
    pub open spec fn step_spec(&self, elapsed: u64, seen: Option<u16>) -> PollStep {
        if elapsed >= self.timeout_ms {
            PollStep::TimedOut(elapsed)
        } else {
            match seen {
                Some(p) => PollStep::Found(p),
                None => PollStep::Sleep(self.sleep_spec(elapsed)),
            }
        }
    }

    /// Decides what follows one read of the port file; `file_text` is its
    /// content, or `None` where it could not be read. Malformed content
    /// counts as no file.
    pub fn observe(&self, elapsed_ms: u64, file_text: Option<&str>) -> (r: PollStep)
        requires
            self.wf(),
        ensures
            r == self.step_spec(
                elapsed_ms,
                match file_text {
                    Some(t) => port_of(t@),
                    None => None,
                },
            ),
            r matches PollStep::TimedOut(e) ==> e == elapsed_ms && e >= self.timeout_ms,
            r matches PollStep::Sleep(d) ==> 0 < d <= self.poll_ms && elapsed_ms + d
                <= self.timeout_ms,
            r matches PollStep::Found(p) ==> 1 <= p && elapsed_ms < self.timeout_ms,
    {
        if elapsed_ms >= self.timeout_ms {
            return PollStep::TimedOut(elapsed_ms);
        }
        let seen = match file_text {
            Some(t) => parse_port(t),
            None => None,
        };
        match seen {
            Some(p) => PollStep::Found(p),
            None => {
                let left = self.timeout_ms - elapsed_ms;
                if left > 1 {
                    PollStep::Sleep(if self.poll_ms <= left - 1 { self.poll_ms } else { left - 1 })
                } else {
                    PollStep::Sleep(1)
                }
            },
        }
    }
}

/// The outcome of a discovery run from time `now` on, where every read takes
/// no time, each requested sleep lasts exactly as asked, and a file naming
/// `port` is present from time `appear_at` on.
pub open spec fn run_discovery(p: PortPoller, now: u64, appear_at: nat, port: u16) -> PollStep
    decreases p.timeout_ms - now,
{
    let seen = if appear_at <= now { Some(port) } else { None };
    match p.step_spec(now, seen) {
        PollStep::Sleep(d) => if 0 < d && now + d <= p.timeout_ms {
            run_discovery(p, (now + d) as u64, appear_at, port)
        } else {
            PollStep::Sleep(d)
        },
        other => other,
    }
}

proof fn lemma_run_from(p: PortPoller, now: u64, appear_at: nat, port: u16)
    requires
        p.wf(),
        now <= p.timeout_ms,
    ensures
        run_discovery(p, now, appear_at, port) == if now < p.timeout_ms && appear_at
            < p.timeout_ms {
            PollStep::Found(port)
        } else {
            PollStep::TimedOut(p.timeout_ms)
        },
    decreases p.timeout_ms - now,
{
    if now < p.timeout_ms && appear_at > now {
        lemma_run_from(p, (now + p.sleep_spec(now)) as u64, appear_at, port);
    }
}

/// A port file that appears before the deadline is found, with the port it
/// names; one that does not appear before the deadline ends in a timeout,
/// declared at the deadline itself.
pub proof fn lemma_discovery_meets_deadline(p: PortPoller, appear_at: nat, port: u16)
    requires
        p.wf(),
    ensures
        appear_at < p.timeout_ms ==> run_discovery(p, 0, appear_at, port) == PollStep::Found(port),
        appear_at >= p.timeout_ms ==> run_discovery(p, 0, appear_at, port) == PollStep::TimedOut(
            p.timeout_ms,
        ),
{
    lemma_run_from(p, 0, appear_at, port);
}

/// A port file that was deleted and does not come back before the deadline
/// ends discovery in a timeout less than one poll interval past the budget.
pub proof fn lemma_absent_file_times_out(p: PortPoller, appear_at: nat, port: u16)
    requires
        p.wf(),
        appear_at >= p.timeout_ms,
    ensures
        run_discovery(p, 0, appear_at, port) matches PollStep::TimedOut(e) && p.timeout_ms <= e
            < p.timeout_ms + p.poll_ms,
{
    lemma_run_from(p, 0, appear_at, port);
}

} // verus!
