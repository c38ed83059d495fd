//! Shutdown coordination: the two-phase termination of a worker and its
//! descendants, as a sequence of actions for the host to carry out.

use vstd::prelude::*;
use crate::text::{decimal, decimal_string, texts};

verus! {

/// How descendants of a worker are terminated on this platform.
#[derive(Debug, Clone, Copy, PartialEq, Eq, Structural)]
pub enum TerminationStrategy {
    /// Signal the process group the worker leads, and its children by
    /// parent id: an interrupt first, then, after the grace window, a hard
    /// kill.
    ProcessGroup,
    /// One forced kill of the whole process tree.
    TreeKill,
}

impl TerminationStrategy {
    /// Picks the strategy from what the platform offers: the tree-kill
    /// primitive where it exists, process-group signalling otherwise.
    pub fn select(tree_kill_available: bool) -> (r: TerminationStrategy)
        ensures
            r == (if tree_kill_available {
                TerminationStrategy::TreeKill
            } else {
                TerminationStrategy::ProcessGroup
            }),
    {
        if tree_kill_available {
            TerminationStrategy::TreeKill
        } else {
            TerminationStrategy::ProcessGroup
        }
    }
}

#[derive(Debug, Clone, Copy, PartialEq, Eq, Structural)]
pub enum Signal {
    Interrupt,
    Kill,
}

/// One step of a shutdown, carried out by the host.
#[derive(Debug, Clone, Copy, PartialEq, Eq, Structural)]
pub enum ShutdownAction {
    /// Write the exit command to the worker's input.
    SendExitCommand(u32),
    /// Wait this many milliseconds.
    Wait(u64),
    /// Send a signal to every member of the process group with this id.
    SignalGroup(u32, Signal),
    /// Send a signal to every child of the process.
    SignalChildren(u32, Signal),
    /// Force-kill the process and all of its descendants.
    KillTree(u32),
    /// Force-kill the process itself.
    Kill(u32),
}

/// The bytes `__EXIT__\n` that ask a worker to shut down.
pub open spec fn exit_command_bytes() -> Seq<u8> {
    seq![95u8, 95u8, 69u8, 88u8, 73u8, 84u8, 95u8, 95u8, 10u8]
}

/// The exit command written to a worker's input.
pub fn exit_command() -> (r: Vec<u8>)
    ensures
        r@ == exit_command_bytes(),
{
    let r: Vec<u8> = vec![95u8, 95u8, 69u8, 88u8, 73u8, 84u8, 95u8, 95u8, 10u8];
    assert(r@ =~= exit_command_bytes());
    r
}

/// The termination of one worker: the exit command, the grace window, then
/// (for process groups, after an interrupt and a second grace window) the
/// forced kill of its descendants and of the worker itself.
pub open spec fn termination_plan_spec(
    pid: u32,
    strategy: TerminationStrategy,
    grace_ms: u64,
) -> Seq<ShutdownAction> {
    match strategy {
        TerminationStrategy::ProcessGroup => seq![
            ShutdownAction::SendExitCommand(pid),
            ShutdownAction::Wait(grace_ms),
            ShutdownAction::SignalGroup(pid, Signal::Interrupt),
            ShutdownAction::SignalChildren(pid, Signal::Interrupt),
            ShutdownAction::Wait(grace_ms),
            ShutdownAction::SignalGroup(pid, Signal::Kill),
            ShutdownAction::SignalChildren(pid, Signal::Kill),
            ShutdownAction::Kill(pid),
        ],
        TerminationStrategy::TreeKill => seq![
            ShutdownAction::SendExitCommand(pid),
            ShutdownAction::Wait(grace_ms),
            ShutdownAction::KillTree(pid),
            ShutdownAction::Kill(pid),
        ],
    }
}

/// The command line (program, then arguments) that carries out `a`, for
/// the actions that run a system tool.
pub open spec fn command_line_spec(a: ShutdownAction) -> Option<Seq<Seq<char>>> {
    match a {
        ShutdownAction::SignalGroup(pid, Signal::Interrupt) => Some(
            seq!["pkill"@, "-INT"@, "-g"@, decimal(pid as nat)],
        ),
        ShutdownAction::SignalGroup(pid, Signal::Kill) => Some(
            seq!["pkill"@, "-KILL"@, "-g"@, decimal(pid as nat)],
        ),
        ShutdownAction::SignalChildren(pid, Signal::Interrupt) => Some(
            seq!["pkill"@, "-INT"@, "-P"@, decimal(pid as nat)],
        ),
        ShutdownAction::SignalChildren(pid, Signal::Kill) => Some(
            seq!["pkill"@, "-KILL"@, "-P"@, decimal(pid as nat)],
        ),
        ShutdownAction::KillTree(pid) => Some(
            seq!["taskkill"@, "/F"@, "/T"@, "/PID"@, decimal(pid as nat)],
        ),
        _ => None,
    }
}

/// The command line that carries out `a`, where it runs a system tool.
pub fn command_line(a: ShutdownAction) -> (r: Option<Vec<String>>)
    ensures
        r matches Some(v) ==> command_line_spec(a) == Some(texts(v@)),
        r is None ==> command_line_spec(a) is None,
{
    let r = match a {
        ShutdownAction::SignalGroup(pid, signal) => {
            let flag = match signal {
                Signal::Interrupt => String::from_str("-INT"),
                Signal::Kill => String::from_str("-KILL"),
            };
            vec![String::from_str("pkill"), flag, String::from_str("-g"), decimal_string(pid)]
        },
        ShutdownAction::SignalChildren(pid, signal) => {
            let flag = match signal {
                Signal::Interrupt => String::from_str("-INT"),
                Signal::Kill => String::from_str("-KILL"),
            };
            vec![String::from_str("pkill"), flag, String::from_str("-P"), decimal_string(pid)]
        },
        ShutdownAction::KillTree(pid) => vec![
            String::from_str("taskkill"),
            String::from_str("/F"),
            String::from_str("/T"),
            String::from_str("/PID"),
            decimal_string(pid),
        ],
        _ => {
            return None;
        },
    };
    assert(command_line_spec(a) == Some(texts(r@))) by {
        assert(texts(r@) =~= command_line_spec(a)->0);
    }
    Some(r)
}

/// `a` belongs to the forceful phase: a hard kill of something.
pub open spec fn is_forceful(a: ShutdownAction) -> bool {
    match a {
        ShutdownAction::SignalGroup(_, sig) => sig == Signal::Kill,
        ShutdownAction::SignalChildren(_, sig) => sig == Signal::Kill,
        ShutdownAction::KillTree(_) => true,
        ShutdownAction::Kill(_) => true,
        _ => false,
    }
}

/// Whether `a` belongs to the forceful phase.
pub fn action_is_forceful(a: ShutdownAction) -> (r: bool)
    ensures
        r == is_forceful(a),
{
    match a {
        ShutdownAction::SignalGroup(_, sig) => sig == Signal::Kill,
        ShutdownAction::SignalChildren(_, sig) => sig == Signal::Kill,
        ShutdownAction::KillTree(_) => true,
        ShutdownAction::Kill(_) => true,
        _ => false,
    }
}

/// The index of the action to carry out after the one at `i`. Where the
/// exit command at `i` could not be delivered (the worker's input is closed
/// or missing) the graceful phase is skipped: the next action is the first
/// forceful one after `i`, or the end of the plan.
pub fn next_step(plan: &Vec<ShutdownAction>, i: usize, exit_delivered: bool) -> (r: usize)
    requires
        i < plan@.len(),
    ensures
        plan@[i as int] is SendExitCommand && !exit_delivered ==> {
            &&& i < r <= plan@.len()
            &&& forall|k: int| i < k < r ==> !is_forceful(#[trigger] plan@[k])
            &&& r < plan@.len() ==> is_forceful(plan@[r as int])
        },
        !(plan@[i as int] is SendExitCommand && !exit_delivered) ==> r == i + 1,
{
    let n = plan.len();
    let skip = match plan[i] {
        ShutdownAction::SendExitCommand(_) => !exit_delivered,
        _ => false,
    };
    if !skip {
        return i + 1;
    }
    let mut j: usize = i + 1;
    while j < n && !action_is_forceful(plan[j])
        invariant
            n == plan@.len(),
            i < j <= plan@.len(),
            forall|k: int| i < k < j ==> !is_forceful(#[trigger] plan@[k]),
        decreases plan@.len() - j,
    {
        j = j + 1;
    }
    j
}

/// The terminations of the workers `pids`, one after the other, in order.
pub open spec fn shutdown_plan_spec(
    pids: Seq<u32>,
    strategy: TerminationStrategy,
    grace_ms: u64,
) -> Seq<ShutdownAction>
    decreases pids.len(),
{
    if pids.len() == 0 {
        Seq::empty()
    } else {
        shutdown_plan_spec(pids.drop_last(), strategy, grace_ms) + termination_plan_spec(
            pids.last(),
            strategy,
            grace_ms,
        )
    }
}

/// The actions that terminate one worker.
pub fn termination_plan(pid: u32, strategy: TerminationStrategy, grace_ms: u64) -> (r: Vec<
    ShutdownAction,
>)
    ensures
        r@ == termination_plan_spec(pid, strategy, grace_ms),
{
    let r = match strategy {
        TerminationStrategy::ProcessGroup => vec![
            ShutdownAction::SendExitCommand(pid),
            ShutdownAction::Wait(grace_ms),
            ShutdownAction::SignalGroup(pid, Signal::Interrupt),
            ShutdownAction::SignalChildren(pid, Signal::Interrupt),
            ShutdownAction::Wait(grace_ms),
            ShutdownAction::SignalGroup(pid, Signal::Kill),
            ShutdownAction::SignalChildren(pid, Signal::Kill),
            ShutdownAction::Kill(pid),
        ],
        TerminationStrategy::TreeKill => vec![
            ShutdownAction::SendExitCommand(pid),
            ShutdownAction::Wait(grace_ms),
            ShutdownAction::KillTree(pid),
            ShutdownAction::Kill(pid),
        ],
    };
    assert(r@ =~= termination_plan_spec(pid, strategy, grace_ms));
    r
}

/// The actions that terminate every worker of `pids`, in order.
pub fn shutdown_plan(pids: &Vec<u32>, strategy: TerminationStrategy, grace_ms: u64) -> (r: Vec<
    ShutdownAction,
>)
    ensures
        r@ == shutdown_plan_spec(pids@, strategy, grace_ms),
{
    let mut r: Vec<ShutdownAction> = Vec::new();
    let mut i: usize = 0;
    assert(pids@.subrange(0, 0) =~= Seq::<u32>::empty());
    while i < pids.len()
        invariant
            i <= pids@.len(),
            r@ == shutdown_plan_spec(pids@.subrange(0, i as int), strategy, grace_ms),
        decreases pids@.len() - i,
    {
        let mut one = termination_plan(pids[i], strategy, grace_ms);
        r.append(&mut one);
        proof {
            let next = pids@.subrange(0, i + 1);
            assert(next.drop_last() =~= pids@.subrange(0, i as int));
            assert(next.last() == pids@[i as int]);
        }
        i = i + 1;
    }
    assert(pids@.subrange(0, i as int) =~= pids@);
    r
}

/// `a` force-kills the descendants of `pid`: the whole process group it
/// leads, or its whole process tree.
pub open spec fn kills_descendants(a: ShutdownAction, pid: u32) -> bool {
    a == ShutdownAction::SignalGroup(pid, Signal::Kill) || a == ShutdownAction::KillTree(pid)
}

/// Some action of `plan` force-kills the descendants of `pid`.
pub open spec fn descendants_killed_in(plan: Seq<ShutdownAction>, pid: u32) -> bool {
    exists|a: ShutdownAction| plan.contains(a) && #[trigger] kills_descendants(a, pid)
}

proof fn lemma_plan_kills(pids: Seq<u32>, strategy: TerminationStrategy, grace_ms: u64, k: int)
    requires
        0 <= k < pids.len(),
    ensures
        shutdown_plan_spec(pids, strategy, grace_ms).contains(ShutdownAction::Kill(pids[k])),
        descendants_killed_in(shutdown_plan_spec(pids, strategy, grace_ms), pids[k]),
    decreases pids.len(),
{
    let all = shutdown_plan_spec(pids, strategy, grace_ms);
    let front = shutdown_plan_spec(pids.drop_last(), strategy, grace_ms);
    let last = termination_plan_spec(pids.last(), strategy, grace_ms);
    if k == pids.len() - 1 {
        let n = front.len();
        let (j, a) = match strategy {
            TerminationStrategy::ProcessGroup => (7int, ShutdownAction::SignalGroup(
                pids[k],
                Signal::Kill,
            )),
            TerminationStrategy::TreeKill => (3int, ShutdownAction::KillTree(pids[k])),
        };
        let d = match strategy {
            TerminationStrategy::ProcessGroup => 5int,
            TerminationStrategy::TreeKill => 2int,
        };
        assert(all[n + j] == ShutdownAction::Kill(pids[k]));
        assert(all[n + d] == a);
        assert(kills_descendants(a, pids[k]));
    } else {
        lemma_plan_kills(pids.drop_last(), strategy, grace_ms, k);
        let a = choose|a: ShutdownAction|
            front.contains(a) && #[trigger] kills_descendants(a, pids[k]);
        let i = choose|i: int| 0 <= i < front.len() && front[i] == a;
        assert(all[i] == a);
        let i2 = choose|i: int| 0 <= i < front.len() && front[i] == ShutdownAction::Kill(pids[k]);
        assert(all[i2] == ShutdownAction::Kill(pids[k]));
    }
}

/// Every worker handed to a shutdown is force-killed, and so is the process
/// group or tree it heads, whatever happened in the graceful phase.
pub proof fn lemma_shutdown_kills_every_worker(
    pids: Seq<u32>,
    strategy: TerminationStrategy,
    grace_ms: u64,
)
    ensures
        forall|k: int|
            0 <= k < pids.len() ==> shutdown_plan_spec(pids, strategy, grace_ms).contains(
                ShutdownAction::Kill(#[trigger] pids[k]),
            ),
        forall|k: int|
            0 <= k < pids.len() ==> descendants_killed_in(
                shutdown_plan_spec(pids, strategy, grace_ms),
                #[trigger] pids[k],
            ),
{
    assert forall|k: int| 0 <= k < pids.len() implies shutdown_plan_spec(
        pids,
        strategy,
        grace_ms,
    ).contains(ShutdownAction::Kill(#[trigger] pids[k])) by {
        lemma_plan_kills(pids, strategy, grace_ms, k);
    }
    assert forall|k: int| 0 <= k < pids.len() implies descendants_killed_in(
        shutdown_plan_spec(pids, strategy, grace_ms),
        #[trigger] pids[k],
    ) by {
        lemma_plan_kills(pids, strategy, grace_ms, k);
    }
}

} // verus!
