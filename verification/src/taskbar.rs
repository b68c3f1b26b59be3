//! The taskbar app-bar driver: finds the native taskbar windows by class
//! and plans their app-bar registration and visibility changes.
//!
//! Hiding runs as a bounded retry loop because the host shell's own
//! taskbar-management thread periodically reasserts "always on top /
//! visible": the embedder performs one planned cycle, sleeps, re-reads the
//! "dock enabled" flag and asks [`TaskbarHideLoop::next_cycle`] whether to
//! go on.  Showing is a single pass, fired on explicit shutdown.

use vstd::prelude::*;
use crate::strutil::str_eq;
use crate::window::{ClassedWindow, Window};

verus! {

/// Window class of the shell's primary taskbar.
pub const TASKBAR_PRIMARY_CLASS: &'static str = "Shell_TrayWnd";

/// Window class of the shell's per-monitor secondary taskbars.
pub const TASKBAR_SECONDARY_CLASS: &'static str = "Shell_SecondaryTrayWnd";

/// The retry loop issues at most this many enumeration/apply cycles.
pub const MAX_HIDE_ATTEMPTS: u8 = 10;

/// Whether a window class names a native taskbar window.
pub open spec fn taskbar_class(c: Seq<char>) -> bool {
    c == TASKBAR_PRIMARY_CLASS@ || c == TASKBAR_SECONDARY_CLASS@
}

/// Whether a window class names a native taskbar window.
pub fn is_taskbar_class(class: &str) -> (r: bool)
    ensures
        r == taskbar_class(class@),
{
    str_eq(class, TASKBAR_PRIMARY_CLASS) || str_eq(class, TASKBAR_SECONDARY_CLASS)
}

/// The taskbar windows among one full top-level enumeration, in
/// enumeration order.
pub open spec fn taskbar_handles_of(entries: Seq<ClassedWindow>) -> Seq<Window>
    decreases entries.len(),
{
    if entries.len() == 0 {
        Seq::empty()
    } else if taskbar_class(entries[0].class@) {
        seq![entries[0].window] + taskbar_handles_of(entries.skip(1))
    } else {
        taskbar_handles_of(entries.skip(1))
    }
}

/// Filters a full top-level window enumeration down to the native taskbar
/// windows.  The result is rebuilt from scratch on every call, so stale
/// handles from an earlier enumeration never accumulate.
pub fn get_taskbars_handles(entries: &Vec<ClassedWindow>) -> (handles: Vec<Window>)
    ensures
        handles@ == taskbar_handles_of(entries@),
{
    let n = entries.len();
    let mut handles: Vec<Window> = Vec::new();
    let mut i: usize = 0;
    proof {
        assert(entries@.skip(0) =~= entries@);
    }
    while i < n
        invariant
            0 <= i <= n,
            n == entries@.len(),
            taskbar_handles_of(entries@) == handles@ + taskbar_handles_of(
                entries@.skip(i as int),
            ),
        decreases n - i,
    {
        proof {
            assert(entries@.skip(i as int)[0] == entries@[i as int]);
            assert(entries@.skip(i as int).skip(1) =~= entries@.skip(i + 1));
        }
        if is_taskbar_class(entries[i].class.as_str()) {
            let ghost pre = handles@;
            handles.push(entries[i].window);
            proof {
                let w = entries@[i as int].window;
                let rest = taskbar_handles_of(entries@.skip(i + 1));
                assert(pre + (seq![w] + rest) =~= pre.push(w) + rest);
            }
        }
        i += 1;
    }
    proof {
        assert(entries@.skip(n as int) =~= Seq::<ClassedWindow>::empty());
        assert(handles@ + taskbar_handles_of(entries@.skip(n as int)) =~= handles@);
    }
    handles
}

/// The app-bar registration state set on a taskbar window.
#[derive(Clone, Copy, PartialEq, Eq, Structural, Debug)]
pub enum AppBarState {
    /// The taskbar auto-hides and yields its reserved edge.
    AutoHide,
    /// The taskbar keeps its reserved edge and stays on top.
    AlwaysOnTop,
}

/// The visibility command issued to a taskbar window alongside its
/// app-bar state.
#[derive(Clone, Copy, PartialEq, Eq, Structural, Debug)]
pub enum ShowCommand {
    /// Hide the window.
    Hide,
    /// Show the window activated in its normal position.
    ShowNormal,
}

/// One planned operation on one taskbar window.
#[derive(Clone, Copy, PartialEq, Eq, Structural, Debug)]
pub struct TaskbarCommand {
    pub target: Window,
    pub state: AppBarState,
    pub show: ShowCommand,
}

/// The command hiding plans for one taskbar window.
pub open spec fn hide_command(w: Window) -> TaskbarCommand {
    TaskbarCommand { target: w, state: AppBarState::AutoHide, show: ShowCommand::Hide }
}

/// The command showing plans for one taskbar window.
pub open spec fn show_command(w: Window) -> TaskbarCommand {
    TaskbarCommand { target: w, state: AppBarState::AlwaysOnTop, show: ShowCommand::ShowNormal }
}

/// One hide cycle: for every taskbar window in the enumeration, set its
/// app-bar registration to auto-hide and force it hidden.
pub fn hide_taskbar_cycle(entries: &Vec<ClassedWindow>) -> (cmds: Vec<TaskbarCommand>)
    ensures
        cmds@ == taskbar_handles_of(entries@).map_values(|w: Window| hide_command(w)),
{
    let handles = get_taskbars_handles(entries);
    let n = handles.len();
    let mut cmds: Vec<TaskbarCommand> = Vec::new();
    let mut i: usize = 0;
    while i < n
        invariant
            0 <= i <= n,
            n == handles@.len(),
            cmds@ == handles@.take(i as int).map_values(|w: Window| hide_command(w)),
        decreases n - i,
    {
        cmds.push(
            TaskbarCommand {
                target: handles[i],
                state: AppBarState::AutoHide,
                show: ShowCommand::Hide,
            },
        );
        proof {
            assert(handles@.take(i + 1) =~= handles@.take(i as int).push(handles@[i as int]));
            assert(handles@.take(i + 1).map_values(|w: Window| hide_command(w)) =~= handles@.take(
                i as int,
            ).map_values(|w: Window| hide_command(w)).push(hide_command(handles@[i as int])));
        }
        i += 1;
    }
    proof {
        assert(handles@.take(n as int) =~= handles@);
    }
    cmds
}

/// The single show pass: for every taskbar window in the enumeration, set
/// its app-bar registration back to always-on-top and show it normally.
/// No retry: this path fires on explicit shutdown and competes with
/// nothing.
pub fn show_taskbar(entries: &Vec<ClassedWindow>) -> (cmds: Vec<TaskbarCommand>)
    ensures
        cmds@ == taskbar_handles_of(entries@).map_values(|w: Window| show_command(w)),
{
    let handles = get_taskbars_handles(entries);
    let n = handles.len();
    let mut cmds: Vec<TaskbarCommand> = Vec::new();
    let mut i: usize = 0;
    while i < n
        invariant
            0 <= i <= n,
            n == handles@.len(),
            cmds@ == handles@.take(i as int).map_values(|w: Window| show_command(w)),
        decreases n - i,
    {
        cmds.push(
            TaskbarCommand {
                target: handles[i],
                state: AppBarState::AlwaysOnTop,
                show: ShowCommand::ShowNormal,
            },
        );
        proof {
            assert(handles@.take(i + 1) =~= handles@.take(i as int).push(handles@[i as int]));
            assert(handles@.take(i + 1).map_values(|w: Window| show_command(w)) =~= handles@.take(
                i as int,
            ).map_values(|w: Window| show_command(w)).push(show_command(handles@[i as int])));
        }
        i += 1;
    }
    proof {
        assert(handles@.take(n as int) =~= handles@);
    }
    cmds
}

/// How many cycles the retry loop runs for a given trace of "dock
/// enabled" readings: it stops at the first reading that is false, and
/// after ten cycles in any case.
pub open spec fn hide_cycles_spec(readings: Seq<bool>, budget: nat) -> nat
    decreases readings.len(),
{
    if budget == 0 || readings.len() == 0 || !readings[0] {
        0
    } else {
        1 + hide_cycles_spec(readings.skip(1), (budget - 1) as nat)
    }
}

/// The retry loop never runs more cycles than its budget allows.
pub proof fn lemma_hide_cycles_bounded(readings: Seq<bool>, budget: nat)
    ensures
        hide_cycles_spec(readings, budget) <= budget,
    decreases readings.len(),
{
    if budget > 0 && readings.len() > 0 && readings[0] {
        lemma_hide_cycles_bounded(readings.skip(1), (budget - 1) as nat);
    }
}

/// The retry loop stops immediately once the dock is disabled: with a
/// false reading before cycle `i`, at most `i` cycles run.
pub proof fn lemma_hide_cycles_stop(readings: Seq<bool>, budget: nat, i: int)
    requires
        0 <= i < readings.len(),
        !readings[i],
    ensures
        hide_cycles_spec(readings, budget) <= i,
    decreases i,
{
    if budget > 0 && readings.len() > 0 && readings[0] {
        lemma_hide_cycles_stop(readings.skip(1), (budget - 1) as nat, i - 1);
    }
}

/// The control state of the hide-taskbar retry loop.
pub struct TaskbarHideLoop {
    /// Cycles issued so far.
    pub attempts: u8,
}

impl TaskbarHideLoop {
    /// A fresh loop that has issued no cycle yet.
    pub fn new() -> (l: TaskbarHideLoop)
        ensures
            l.attempts == 0,
    {
        TaskbarHideLoop { attempts: 0 }
    }

    /// Decides one iteration: `true` grants another enumeration/apply
    /// cycle and counts it; `false` ends the loop, either because the
    /// dock was disabled (`weg_enabled` read false) or because the ten
    /// granted cycles are spent.
    pub fn next_cycle(&mut self, weg_enabled: bool) -> (go: bool)
        ensures
            go == (old(self).attempts < MAX_HIDE_ATTEMPTS && weg_enabled),
            go ==> final(self).attempts == old(self).attempts + 1,
            !go ==> final(self).attempts == old(self).attempts,
    {
        if self.attempts < MAX_HIDE_ATTEMPTS && weg_enabled {
            self.attempts = self.attempts + 1;
            true
        } else {
            false
        }
    }
}

/// Runs the loop-control decisions over a whole trace of "dock enabled"
/// readings (reading `i` is what the flag held before iteration `i`) and
/// returns how many cycles were granted: never more than ten, and none
/// from the first false reading on.
pub fn run_hide_cycles(readings: &Vec<bool>) -> (cycles: usize)
    ensures
        cycles == hide_cycles_spec(readings@, MAX_HIDE_ATTEMPTS as nat),
        cycles <= MAX_HIDE_ATTEMPTS,
{
    let n = readings.len();
    let mut l = TaskbarHideLoop::new();
    let mut cycles: usize = 0;
    let mut i: usize = 0;
    proof {
        assert(readings@.skip(0) =~= readings@);
    }
    while i < n
        invariant
            0 <= i <= n,
            n == readings@.len(),
            cycles == l.attempts,
            cycles <= i,
            cycles <= MAX_HIDE_ATTEMPTS,
            hide_cycles_spec(readings@, MAX_HIDE_ATTEMPTS as nat) == cycles + hide_cycles_spec(
                readings@.skip(i as int),
                (MAX_HIDE_ATTEMPTS - l.attempts) as nat,
            ),
            l.attempts == MAX_HIDE_ATTEMPTS || i == cycles,
        decreases n - i,
    {
        proof {
            assert(readings@.skip(i as int)[0] == readings@[i as int]);
            assert(readings@.skip(i as int).skip(1) =~= readings@.skip(i + 1));
        }
        let go = l.next_cycle(readings[i]);
        if !go {
            proof {
                if l.attempts == MAX_HIDE_ATTEMPTS {
                    assert(hide_cycles_spec(
                        readings@.skip(i as int),
                        (MAX_HIDE_ATTEMPTS - l.attempts) as nat,
                    ) == 0);
                }
            }
            return cycles;
        }
        cycles = cycles + 1;
        i += 1;
    }
    proof {
        assert(readings@.skip(n as int) =~= Seq::<bool>::empty());
    }
    cycles
}

} // verus!
