//! How processes and what they started are ended: politely first, then by force.

use vstd::prelude::*;

use crate::process::{
    make_command, no_words, plain_command, put_word, CommandLine, CommandView,
};
use crate::text::{decimal, num, views};

verus! {

/// One step towards the end of processes.
#[derive(Debug)]
pub enum KillStep {
    /// Ask a process to end, or, with a negative number, a group of processes.
    Terminate(i32),
    /// End a process, or, with a negative number, a group of processes.
    Kill(i32),
    Pause { millis: u64 },
    Run { command: CommandLine },
}

/// The mathematical counterpart of [`KillStep`].
pub enum KillStepView {
    Terminate(i32),
    Kill(i32),
    Pause(u64),
    Run(CommandView),
}

impl View for KillStep {
    type V = KillStepView;

    open spec fn view(&self) -> KillStepView {
        match self {
            KillStep::Terminate(pid) => KillStepView::Terminate(*pid),
            KillStep::Kill(pid) => KillStepView::Kill(*pid),
            KillStep::Pause { millis } => KillStepView::Pause(*millis),
            KillStep::Run { command } => KillStepView::Run(command@),
        }
    }
}

/// The views of several steps.
pub open spec fn kill_views(steps: Seq<KillStep>) -> Seq<KillStepView> {
    steps.map_values(|s: KillStep| s@)
}

/// The number of a process as the system takes it, with a sign.
pub open spec fn signed_pid(pid: u32) -> int {
    if pid <= i32::MAX {
        pid as int
    } else {
        pid - 0x1_0000_0000
    }
}

/// The arguments of the command that sends a signal to the children of a process.
pub open spec fn pkill_args(signal: Seq<char>, pid: u32) -> Seq<Seq<char>> {
    seq![signal, "-P"@, decimal(pid as nat)]
}

/// The steps that end a process and what it started. The process group is asked to end, then the
/// children are, and then both are ended.
pub open spec fn tree_kill(pid: u32, poll_interval: u64) -> Seq<KillStepView> {
    let group = (-signed_pid(pid)) as i32;
    seq![
        KillStepView::Terminate(group),
        KillStepView::Pause(poll_interval),
        KillStepView::Run(plain_command("pkill"@, pkill_args("-TERM"@, pid), None, None)),
        KillStepView::Pause(poll_interval),
        KillStepView::Kill(group),
        KillStepView::Run(plain_command("pkill"@, pkill_args("-KILL"@, pid), None, None)),
    ]
}

fn to_signed(pid: u32) -> (r: i32)
    ensures
        r == signed_pid(pid),
{
    if pid <= i32::MAX as u32 {
        pid as i32
    } else {
        (pid as i64 - 0x1_0000_0000) as i32
    }
}

fn pkill(signal: &str, pid: u32) -> (r: CommandLine)
    ensures
        r@ == plain_command("pkill"@, pkill_args(signal@, pid), None, None),
{
    let mut args: Vec<String> = no_words();
    put_word(&mut args, signal);
    put_word(&mut args, "-P");
    put_word(&mut args, num(pid as u64).as_str());
    assert(views(args@) =~= pkill_args(signal@, pid));
    make_command("pkill", args, None, None)
}

/// The steps that end a process and what it started; a while passes between them.
pub fn kill_process_tree(pid: u32, poll_interval: u64) -> (r: Vec<KillStep>)
    requires
        pid != 0x8000_0000,
    ensures
        kill_views(r@) == tree_kill(pid, poll_interval),
{
    let group: i32 = -to_signed(pid);
    let mut steps: Vec<KillStep> = Vec::new();
    steps.push(KillStep::Terminate(group));
    steps.push(KillStep::Pause { millis: poll_interval });
    steps.push(KillStep::Run { command: pkill("-TERM", pid) });
    steps.push(KillStep::Pause { millis: poll_interval });
    steps.push(KillStep::Kill(group));
    steps.push(KillStep::Run { command: pkill("-KILL", pid) });
    assert(kill_views(steps@) =~= tree_kill(pid, poll_interval));
    steps
}

/// The steps that ask every process to end.
pub open spec fn terminations(pids: Seq<u32>) -> Seq<KillStepView> {
    pids.map_values(|p: u32| KillStepView::Terminate(signed_pid(p) as i32))
}

/// The steps that end every process.
pub open spec fn kills(pids: Seq<u32>) -> Seq<KillStepView> {
    pids.map_values(|p: u32| KillStepView::Kill(signed_pid(p) as i32))
}

/// The steps that end processes: all are asked to end, and after a while all are ended.
pub fn kill_tracked_children(pids: &Vec<u32>, poll_interval: u64) -> (r: Vec<KillStep>)
    ensures
        kill_views(r@) == terminations(pids@).push(KillStepView::Pause(poll_interval)) + kills(
            pids@,
        ),
{
    let mut steps: Vec<KillStep> = Vec::new();
    let mut i: usize = 0;
    assert(kill_views(steps@) =~= terminations(pids@.take(0)));
    while i < pids.len()
        invariant
            i <= pids.len(),
            kill_views(steps@) == terminations(pids@.take(i as int)),
        decreases pids.len() - i,
    {
        let ghost before = steps@;
        steps.push(KillStep::Terminate(to_signed(pids[i])));
        i = i + 1;
        assert(kill_views(steps@) =~= kill_views(before).push(
            KillStepView::Terminate(signed_pid(pids@[i - 1]) as i32),
        ));
        assert(kill_views(steps@) =~= terminations(pids@.take(i as int)));
    }
    assert(pids@.take(i as int) =~= pids@);
    steps.push(KillStep::Pause { millis: poll_interval });
    let ghost first = terminations(pids@).push(KillStepView::Pause(poll_interval));
    assert(kill_views(steps@) =~= first);
    let mut k: usize = 0;
    assert(first + kills(pids@.take(0)) =~= first);
    while k < pids.len()
        invariant
            k <= pids.len(),
            kill_views(steps@) == first + kills(pids@.take(k as int)),
        decreases pids.len() - k,
    {
        let ghost before = steps@;
        steps.push(KillStep::Kill(to_signed(pids[k])));
        k = k + 1;
        assert(kill_views(steps@) =~= kill_views(before).push(
            KillStepView::Kill(signed_pid(pids@[k - 1]) as i32),
        ));
        assert(kills(pids@.take(k as int)) =~= kills(pids@.take(k - 1)).push(
            KillStepView::Kill(signed_pid(pids@[k - 1]) as i32),
        ));
        assert(kill_views(steps@) =~= first + kills(pids@.take(k as int)));
    }
    assert(pids@.take(k as int) =~= pids@);
    steps
}

/// Every process that was tracked is ended, and before that it is asked to end and given a while.
pub proof fn law_children_are_asked_first(pids: Seq<u32>, poll_interval: u64, i: int)
    requires
        0 <= i < pids.len(),
    ensures
        ({
            let steps = terminations(pids).push(KillStepView::Pause(poll_interval)) + kills(pids);
            let pid = signed_pid(pids[i]) as i32;
            &&& steps[i] == KillStepView::Terminate(pid)
            &&& steps[pids.len() as int] == KillStepView::Pause(poll_interval)
            &&& steps[pids.len() + 1 + i] == KillStepView::Kill(pid)
        }),
{
}

} // verus!
