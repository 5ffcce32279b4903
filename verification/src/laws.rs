//! What holds of the supervisor in every state that it can reach, and of
//! every step that it can take.

use crate::ansi::SegmentView;
use crate::log::log_valid;
use crate::model::{text_exited, text_kill_outcome, Effect, Event, Lifecycle, Step, Supervisor};
use vstd::prelude::*;

verus! {

impl Event {
    /// The generation that an event of the child is tagged with; `None` for
    /// an event that does not come from the child.
    pub open spec fn generation(self) -> Option<u64> {
        match self {
            Event::ProcessActualPid(generation, _) => Some(generation),
            Event::ProcessOutput(generation, _) => Some(generation),
            Event::ProcessTerminated(generation, _) => Some(generation),
            Event::ProcessError(generation, _) => Some(generation),
            _ => None,
        }
    }
}

impl Supervisor {
    /// What holds of every state that the supervisor can reach:
    /// a process id is held exactly while a child runs or is being stopped;
    /// path and key are set while a launch waits, is made or runs; the
    /// persisted process id is that of the running child, and is cleared
    /// while the child is being stopped; the log is within its capacity.
    pub open spec fn inv(self) -> bool {
        &&& self.current_pid is Some <==> (self.lifecycle == Lifecycle::Running || self.lifecycle
            == Lifecycle::Stopping)
        &&& (self.lifecycle == Lifecycle::AwaitingStaleKill || self.lifecycle
            == Lifecycle::Launching || self.lifecycle == Lifecycle::Running)
            ==> self.settings.launch_ready()
        &&& self.lifecycle == Lifecycle::Running ==> self.settings.last_pid == self.current_pid
        &&& self.lifecycle == Lifecycle::Stopping ==> self.settings.last_pid is None
        &&& log_valid(self.logs)
    }

    /// Whether `event` makes the supervisor begin a new run.
    pub open spec fn launches(self, event: Event) -> bool {
        self.lifecycle != Lifecycle::Launching && self.step(event).next.lifecycle
            == Lifecycle::Launching
    }

    /// Logging several lines keeps the log within its capacity and touches
    /// nothing but the log.
    proof fn log_all_keeps(self, texts: Seq<Seq<char>>)
        ensures
            log_valid(self.logs) ==> log_valid(self.log_all(texts).logs),
            self.log_all(texts) == (Supervisor { logs: self.log_all(texts).logs, ..self }),
        decreases texts.len(),
    {
        if texts.len() > 0 {
            self.log_all_keeps(texts.drop_last());
        }
    }

    /// The log after several lines depends on the log before them only.
    proof fn log_all_reads_log_only(self, other: Supervisor, texts: Seq<Seq<char>>)
        requires
            self.logs == other.logs,
        ensures
            self.log_all(texts).logs == other.log_all(texts).logs,
        decreases texts.len(),
    {
        if texts.len() > 0 {
            self.log_all_reads_log_only(other, texts.drop_last());
        }
    }
}

/// The state at application start satisfies the invariant.
pub proof fn initial_state_is_valid()
    ensures
        Supervisor::initial().inv(),
{
}

/// Every step keeps the invariant, whatever the event.
pub proof fn step_keeps_invariant(pre: Supervisor, event: Event)
    requires
        pre.inv(),
    ensures
        pre.step(event).next.inv(),
{
    match event {
        Event::StartButtonPressed => {
            if pre.lifecycle == Lifecycle::Idle && pre.settings.launch_ready()
                && pre.settings.last_pid is None {
                launch_keeps_invariant(pre, Seq::empty());
            }
        },
        Event::ProcessKillResult(outcome) => {
            if pre.lifecycle == Lifecycle::AwaitingStaleKill {
                launch_keeps_invariant(pre, seq![text_kill_outcome(outcome)]);
            }
        },
        _ => {},
    }
}

proof fn launch_keeps_invariant(pre: Supervisor, notes: Seq<Seq<char>>)
    requires
        pre.inv(),
        pre.lifecycle == Lifecycle::Idle || pre.lifecycle == Lifecycle::AwaitingStaleKill,
        pre.settings.launch_ready(),
    ensures
        pre.launch(notes).next.inv(),
{
    if pre.generation == u64::MAX {
        let idle = Supervisor { lifecycle: Lifecycle::Idle, ..pre };
        idle.log_all_keeps(notes);
    } else {
        let fresh = Supervisor {
            lifecycle: Lifecycle::Launching,
            logs: Seq::<Seq<SegmentView>>::empty(),
            generation: (pre.generation + 1) as u64,
            current_pid: None,
            ..pre
        };
        fresh.log_all_keeps(notes);
    }
}

/// Outside the short time in which a child is being started and has not
/// reported its process id yet, a process id is held if and only if the
/// lifecycle is Launching, Running or Stopping.
pub proof fn pid_held_iff_child_tracked(state: Supervisor)
    requires
        state.inv(),
        state.lifecycle != Lifecycle::Launching,
    ensures
        state.current_pid is Some <==> (state.lifecycle == Lifecycle::Launching || state.lifecycle
            == Lifecycle::Running || state.lifecycle == Lifecycle::Stopping),
{
}

/// While a child is being started, no process id is held yet.
pub proof fn no_pid_while_launching(state: Supervisor)
    requires
        state.inv(),
        state.lifecycle == Lifecycle::Launching,
    ensures
        state.current_pid is None,
{
}

/// A request to start changes nothing and asks for nothing unless the
/// supervisor is idle: in particular no second child and no new generation
/// while one runs.
pub proof fn start_while_busy_is_ignored(pre: Supervisor)
    requires
        pre.lifecycle != Lifecycle::Idle,
    ensures
        pre.step(Event::StartButtonPressed) == pre.stay(),
{
}

/// An event of the child whose tag is not the supervisor's generation is
/// discarded: the state stays as it is and nothing is asked for.
pub proof fn stale_generation_is_discarded(pre: Supervisor, event: Event)
    requires
        event.generation() matches Some(generation) && generation != pre.generation,
    ensures
        pre.step(event) == pre.stay(),
{
}

/// An event of the child is discarded as well while no child is being
/// started or runs, whatever its tag.
pub proof fn child_event_without_child_is_discarded(pre: Supervisor, event: Event)
    requires
        event.generation() is Some,
        pre.lifecycle != Lifecycle::Launching,
        pre.lifecycle != Lifecycle::Running,
    ensures
        pre.step(event) == pre.stay(),
{
}

/// The generation never goes back, changes only when a run begins, and is
/// then greater by exactly one.
pub proof fn generation_grows_with_each_launch(pre: Supervisor, event: Event)
    ensures
        pre.step(event).next.generation >= pre.generation,
        pre.launches(event) ==> pre.step(event).next.generation == pre.generation + 1,
        !pre.launches(event) ==> pre.step(event).next.generation == pre.generation,
{
    match event {
        Event::StartButtonPressed => {
            launch_generation(pre, Seq::empty());
        },
        Event::ProcessKillResult(outcome) => {
            launch_generation(pre, seq![text_kill_outcome(outcome)]);
        },
        _ => {},
    }
}

proof fn launch_generation(pre: Supervisor, notes: Seq<Seq<char>>)
    ensures
        pre.generation == u64::MAX ==> pre.launch(notes).next.generation == pre.generation
            && pre.launch(notes).next.lifecycle == Lifecycle::Idle,
        pre.generation < u64::MAX ==> pre.launch(notes).next.generation == pre.generation + 1
            && pre.launch(notes).next.lifecycle == Lifecycle::Launching,
{
    let idle = Supervisor { lifecycle: Lifecycle::Idle, ..pre };
    if pre.generation == u64::MAX {
        idle.log_all_keeps(notes);
    } else {
        let fresh = Supervisor {
            lifecycle: Lifecycle::Launching,
            logs: Seq::<Seq<SegmentView>>::empty(),
            generation: (pre.generation + 1) as u64,
            current_pid: None,
            ..pre
        };
        fresh.log_all_keeps(notes);
    }
}

proof fn launch_log_is_new(pre: Supervisor, other: Supervisor, notes: Seq<Seq<char>>)
    requires
        pre.generation < u64::MAX,
        other.generation < u64::MAX,
    ensures
        pre.launch(notes).next.logs == other.launch(notes).next.logs,
{
    let fresh = Supervisor {
        lifecycle: Lifecycle::Launching,
        logs: Seq::<Seq<SegmentView>>::empty(),
        generation: (pre.generation + 1) as u64,
        current_pid: None,
        ..pre
    };
    let other_fresh = Supervisor {
        lifecycle: Lifecycle::Launching,
        logs: Seq::<Seq<SegmentView>>::empty(),
        generation: (other.generation + 1) as u64,
        current_pid: None,
        ..other
    };
    fresh.log_all_reads_log_only(other_fresh, notes);
}

/// A new run starts from an empty log: whatever the log held before the
/// step that begins the run, the log after it is the same, so no line of an
/// earlier run stands before the first line of the new one.
pub proof fn launch_forgets_earlier_log(
    pre: Supervisor,
    event: Event,
    earlier: Seq<Seq<SegmentView>>,
)
    requires
        pre.launches(event),
    ensures
        (Supervisor { logs: earlier, ..pre }).launches(event),
        (Supervisor { logs: earlier, ..pre }).step(event).next.logs == pre.step(event).next.logs,
{
    let other = Supervisor { logs: earlier, ..pre };
    match event {
        Event::StartButtonPressed => {
            launch_generation(pre, Seq::empty());
            launch_generation(other, Seq::empty());
            if pre.generation < u64::MAX {
                launch_log_is_new(pre, other, Seq::empty());
            }
        },
        Event::ProcessKillResult(outcome) => {
            let notes = seq![text_kill_outcome(outcome)];
            launch_generation(pre, notes);
            launch_generation(other, notes);
            if pre.generation < u64::MAX {
                launch_log_is_new(pre, other, notes);
            }
        },
        _ => {},
    }
}

/// Every request to persist the settings carries the settings as they
/// stand after the step that asked for it.
pub proof fn saves_carry_the_new_settings(pre: Supervisor, event: Event, i: int)
    requires
        0 <= i < pre.step(event).effects.len(),
        pre.step(event).effects[i] is SaveSettings,
    ensures
        pre.step(event).effects[i] == Effect::SaveSettings(pre.step(event).next.settings),
{
    match event {
        Event::StartButtonPressed => {
            launch_effects(pre, Seq::empty());
        },
        Event::ProcessKillResult(outcome) => {
            launch_effects(pre, seq![text_kill_outcome(outcome)]);
        },
        _ => {},
    }
}

proof fn launch_effects(pre: Supervisor, notes: Seq<Seq<char>>)
    ensures
        forall|i: int|
            0 <= i < pre.launch(notes).effects.len() ==> (#[trigger] pre.launch(notes).effects[i])
                == Effect::CloseWindow,
{
}

/// With a process id left over from an earlier session in the settings, a
/// request to start first asks to kill that process and begins no run; when
/// that request has ended, however it ended, the run begins.
pub proof fn stale_child_is_killed_before_launch(
    pre: Supervisor,
    stale: u32,
    outcome: Result<(), Seq<char>>,
)
    requires
        pre.lifecycle == Lifecycle::Idle,
        pre.settings.launch_ready(),
        pre.settings.last_pid == Some(stale),
        pre.generation < u64::MAX,
    ensures
        pre.step(Event::StartButtonPressed).effects == seq![Effect::KillProcess(stale)],
        pre.step(Event::StartButtonPressed).next.lifecycle == Lifecycle::AwaitingStaleKill,
        pre.step(Event::StartButtonPressed).next.generation == pre.generation,
        pre.step(Event::StartButtonPressed).next.step(
            Event::ProcessKillResult(outcome),
        ).next.lifecycle == Lifecycle::Launching,
        pre.step(Event::StartButtonPressed).next.step(
            Event::ProcessKillResult(outcome),
        ).next.generation == pre.generation + 1,
{
    let waiting = pre.step(Event::StartButtonPressed).next;
    launch_generation(waiting, seq![text_kill_outcome(outcome)]);
}

/// When the child that runs exits by itself, it is no longer tracked: the
/// supervisor is idle, holds no process id, has cleared the persisted one
/// and asks to persist that, and the log has a line with the exit code.
pub proof fn exit_releases_the_child(pre: Supervisor, code: i32)
    requires
        pre.lifecycle == Lifecycle::Running,
        !pre.shutdown_requested,
    ensures
        pre.step(Event::ProcessTerminated(pre.generation, code)) == (Step {
            next: pre.released().log(text_exited(code)),
            effects: seq![Effect::SaveSettings(pre.settings.with_pid(None))],
        }),
{
}

/// A request to close while a child runs does not close the window: it
/// asks to kill the child, and the window is closed by the step that
/// learns how that request ended, whatever the outcome.
pub proof fn close_waits_for_the_kill(pre: Supervisor, pid: u32, outcome: Result<(), Seq<char>>)
    requires
        pre.lifecycle == Lifecycle::Running,
        pre.current_pid == Some(pid),
    ensures
        pre.step(Event::CloseRequested).effects == seq![
            Effect::SaveSettings(pre.settings.with_pid(None)),
            Effect::KillProcess(pid),
        ],
        pre.step(Event::CloseRequested).next.lifecycle == Lifecycle::Stopping,
        pre.step(Event::CloseRequested).next.shutdown_requested,
        pre.step(Event::CloseRequested).next.step(Event::ProcessKillResult(outcome)).effects
            == seq![Effect::CloseWindow],
        pre.step(Event::CloseRequested).next.step(
            Event::ProcessKillResult(outcome),
        ).next.lifecycle == Lifecycle::Idle,
        pre.step(Event::CloseRequested).next.step(
            Event::ProcessKillResult(outcome),
        ).next.current_pid is None,
{
}

/// Whenever a step brings the supervisor back to Idle after a shutdown was
/// requested, that step asks to close the window.
pub proof fn idle_after_shutdown_request_closes(pre: Supervisor, event: Event)
    requires
        pre.lifecycle != Lifecycle::Idle,
        pre.step(event).next.lifecycle == Lifecycle::Idle,
        pre.step(event).next.shutdown_requested,
    ensures
        pre.step(event).effects.contains(Effect::CloseWindow),
{
    let step = pre.step(event);
    match event {
        Event::ProcessKillResult(outcome) => {
            if pre.lifecycle == Lifecycle::AwaitingStaleKill {
                launch_generation(pre, seq![text_kill_outcome(outcome)]);
            }
        },
        _ => {},
    }
    assert(step.effects[step.effects.len() - 1] == Effect::CloseWindow);
}

} // verus!
