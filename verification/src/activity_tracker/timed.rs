//! When the watchdog shuts the server down: the steps of the connections and the
//! watchdog, with a clock.
//!
//! How soon the watchdog takes its steps is left open, except where a law speaks
//! of a prompt one.
use vstd::prelude::*;

use crate::activity_tracker;
use crate::activity_tracker::protocol::{Step, Watched, WatchdogMode};

verus! {

/// The server and its watchdog at some time, in nanoseconds from the start of the
/// tracker.
pub struct Timed {
    pub now: int,
    pub world: Watched,
}

/// What can happen next.
pub enum TimedStep {
    /// The clock goes on.
    Pass { to: int },
    /// A step is taken, at the time that the clock shows.
    Take { step: Step },
}

impl Timed {
    /// A server that has just started, and its watchdog.
    pub open spec fn started(idle_timeout: int) -> Timed {
        Timed { now: 0, world: Watched::started(idle_timeout) }
    }

    /// When the idle time that is running reaches the timeout.
    pub open spec fn timeout_end(self) -> int {
        self.world.server->since + self.world.idle_timeout
    }

    /// A connection closes at the time that the clock shows, and a deadline does
    /// not pass before its time.
    pub open spec fn enabled(self, step: TimedStep) -> bool {
        match step {
            TimedStep::Pass { to } => self.now <= to,
            TimedStep::Take { step } => {
                &&& self.world.enabled(step)
                &&& step is Close ==> step->at == self.now
                &&& step is Expire ==> self.world.watchdog->WaitingUntil_deadline <= self.now
            },
        }
    }

    /// Whether the watchdog leaves nothing undone: the clock does not go on while
    /// it has a step to take, nor beyond its deadline; a notification comes before
    /// a deadline; and between a deadline and what is done about it nothing else
    /// happens.
    pub open spec fn prompt(self, step: TimedStep) -> bool {
        let watchdog = self.world.watchdog;
        &&& watchdog is TimedOut ==> step == (TimedStep::Take { step: Step::Act })
        &&& match step {
            TimedStep::Pass { to } => {
                &&& !self.world.enabled(Step::Act)
                &&& !self.world.enabled(Step::Wake)
                &&& watchdog is WaitingUntil ==> to <= watchdog->WaitingUntil_deadline
            },
            TimedStep::Take { step } => step is Expire ==> !self.world.notified,
        }
    }

    pub open spec fn next(self, step: TimedStep) -> Timed {
        match step {
            TimedStep::Pass { to } => Timed { now: to, ..self },
            TimedStep::Take { step } => Timed { world: self.world.next(step), ..self },
        }
    }

    /// The world after a run of steps.
    pub open spec fn after(self, run: Seq<TimedStep>) -> Timed
        decreases run.len(),
    {
        if run.len() == 0 {
            self
        } else {
            self.after(run.drop_last()).next(run.last())
        }
    }

    /// Whether each step of a run could happen when its turn came.
    pub open spec fn allows(self, run: Seq<TimedStep>) -> bool
        decreases run.len(),
    {
        run.len() == 0 || {
            &&& self.allows(run.drop_last())
            &&& self.after(run.drop_last()).enabled(run.last())
        }
    }

    /// Whether the watchdog was prompt all along a run.
    pub open spec fn prompt_along(self, run: Seq<TimedStep>) -> bool
        decreases run.len(),
    {
        run.len() == 0 || {
            &&& self.prompt_along(run.drop_last())
            &&& self.after(run.drop_last()).prompt(run.last())
        }
    }

    pub open spec fn well_formed(self) -> bool {
        &&& self.world.well_formed()
        &&& self.world.server is Idle ==> self.world.server->since <= self.now
        &&& self.world.watchdog is TimedOut ==> self.world.watchdog->TimedOut_deadline <= self.now
    }

    /// What a prompt watchdog keeps up besides: no idle time outlasts the timeout.
    pub open spec fn on_time(self) -> bool {
        &&& self.well_formed()
        &&& self.world.watchdog is TimedOut ==> !self.world.notified
        &&& self.world.server is Idle && self.world.watchdog !is Stopped ==> self.now
            <= self.timeout_end()
    }

    /// The steps of the watchdog that are left when the timeout has run out.
    pub open spec fn last_steps(self) -> Seq<TimedStep> {
        let act = TimedStep::Take { step: Step::Act };
        let wake = TimedStep::Take { step: Step::Wake };
        let expire = TimedStep::Take { step: Step::Expire };
        match (self.world.watchdog, self.world.notified) {
            (WatchdogMode::Looking, false) => seq![act, expire, act],
            (WatchdogMode::Looking, true) => seq![act, wake, act, expire, act],
            (WatchdogMode::WaitingUntil { .. }, false) => seq![expire, act],
            (WatchdogMode::TimedOut { .. }, _) => seq![act],
            (WatchdogMode::Stopped, _) => seq![],
            _ => seq![wake, act, expire, act],
        }
    }

    /// Whether a step is the one that shuts the server down.
    pub open spec fn stops_at(self, step: TimedStep) -> bool {
        self.world.watchdog !is Stopped && self.next(step).world.watchdog is Stopped
    }
}

/// Whatever happens to a server from its start, the world stays well formed, and
/// the timeout stays what it was.
pub proof fn law_every_timed_run_is_well_formed(idle_timeout: int, run: Seq<TimedStep>)
    requires
        0 <= idle_timeout <= activity_tracker::TIME_MAX_NANOSECONDS,
        Timed::started(idle_timeout).allows(run),
    ensures
        Timed::started(idle_timeout).after(run).well_formed(),
        Timed::started(idle_timeout).after(run).world.idle_timeout == idle_timeout,
    decreases run.len(),
{
    if run.len() > 0 {
        law_every_timed_run_is_well_formed(idle_timeout, run.drop_last());
    }
}

/// The watchdog shuts the server down only when no connection is open; and unless
/// a notification came up in the meantime, only when this very idle time has
/// lasted for the whole timeout.
pub proof fn law_no_shutdown_before_the_timeout(
    idle_timeout: int,
    run: Seq<TimedStep>,
    step: TimedStep,
)
    requires
        0 <= idle_timeout <= activity_tracker::TIME_MAX_NANOSECONDS,
        Timed::started(idle_timeout).allows(run),
        Timed::started(idle_timeout).after(run).enabled(step),
        Timed::started(idle_timeout).after(run).stops_at(step),
    ensures
        ({
            let state = Timed::started(idle_timeout).after(run);
            &&& state.world.server is Idle
            &&& !state.world.notified ==> state.now >= state.world.server->since + idle_timeout
        }),
{
    law_every_timed_run_is_well_formed(idle_timeout, run);
}

/// Whatever happens under a prompt watchdog, no idle time outlasts the timeout: once
/// the clock has gone beyond its end, the server has been shut down.
pub proof fn law_no_idle_time_outlasts_the_timeout(idle_timeout: int, run: Seq<TimedStep>)
    requires
        0 <= idle_timeout <= activity_tracker::TIME_MAX_NANOSECONDS,
        Timed::started(idle_timeout).allows(run),
        Timed::started(idle_timeout).prompt_along(run),
    ensures
        Timed::started(idle_timeout).after(run).on_time(),
        Timed::started(idle_timeout).after(run).world.idle_timeout == idle_timeout,
    decreases run.len(),
{
    if run.len() > 0 {
        law_no_idle_time_outlasts_the_timeout(idle_timeout, run.drop_last());
    }
}

/// A prompt watchdog shuts the server down at the very end of the timeout, counted
/// from the moment at which the last connection closed.
pub proof fn law_shutdown_is_on_time(idle_timeout: int, run: Seq<TimedStep>, step: TimedStep)
    requires
        0 <= idle_timeout <= activity_tracker::TIME_MAX_NANOSECONDS,
        Timed::started(idle_timeout).allows(run),
        Timed::started(idle_timeout).prompt_along(run),
        Timed::started(idle_timeout).after(run).enabled(step),
        Timed::started(idle_timeout).after(run).stops_at(step),
    ensures
        ({
            let state = Timed::started(idle_timeout).after(run);
            &&& state.world.server is Idle
            &&& state.now == state.world.server->since + idle_timeout
        }),
{
    law_no_idle_time_outlasts_the_timeout(idle_timeout, run);
}

/// Whether the server had been idle for just the timeout when the given step of a
/// run was taken.
pub open spec fn timeout_had_run(idle_timeout: int, run: Seq<TimedStep>, step: int) -> bool {
    let state = Timed::started(idle_timeout).after(run.take(step));
    &&& state.world.server is Idle
    &&& state.now == state.world.server->since + idle_timeout
}

/// Under a prompt watchdog a server is not shut down as long as every idle time was
/// shorter than the timeout: if it has been shut down, one of them lasted that long.
pub proof fn law_shutdown_needs_a_whole_timeout(idle_timeout: int, run: Seq<TimedStep>)
    requires
        0 <= idle_timeout <= activity_tracker::TIME_MAX_NANOSECONDS,
        Timed::started(idle_timeout).allows(run),
        Timed::started(idle_timeout).prompt_along(run),
        Timed::started(idle_timeout).after(run).world.watchdog is Stopped,
    ensures
        exists|step: int|
            0 <= step < run.len() && #[trigger] timeout_had_run(idle_timeout, run, step),
    decreases run.len(),
{
    let earlier = run.drop_last();
    if Timed::started(idle_timeout).after(earlier).world.watchdog is Stopped {
        law_shutdown_needs_a_whole_timeout(idle_timeout, earlier);
        let step = choose|step: int|
            0 <= step < earlier.len() && #[trigger] timeout_had_run(idle_timeout, earlier, step);
        assert(earlier.take(step) =~= run.take(step));
        assert(timeout_had_run(idle_timeout, run, step));
    } else {
        law_shutdown_is_on_time(idle_timeout, earlier, run.last());
        assert(run.take(run.len() - 1) =~= earlier);
        assert(timeout_had_run(idle_timeout, run, run.len() - 1));
    }
}

/// A server that became idle, and to which no connection was opened since, is shut
/// down by a prompt watchdog when it has been idle for the whole timeout, and not
/// before. What happened earlier does not matter, as long as it was not shut down
/// then: each return to idleness starts the whole timeout anew.
pub proof fn law_idle_server_is_shut_down_on_time(
    idle_timeout: int,
    earlier: Seq<TimedStep>,
    idle: Seq<TimedStep>,
)
    requires
        0 <= idle_timeout <= activity_tracker::TIME_MAX_NANOSECONDS,
        Timed::started(idle_timeout).allows(earlier + idle),
        Timed::started(idle_timeout).prompt_along(earlier + idle),
        Timed::started(idle_timeout).after(earlier).world.server is Idle,
        Timed::started(idle_timeout).after(earlier).world.watchdog !is Stopped,
        forall|i: int|
            0 <= i < idle.len() ==> #[trigger] idle[i] != (TimedStep::Take { step: Step::Open }),
    ensures
        ({
            let since = Timed::started(idle_timeout).after(earlier).world.server->since;
            let state = Timed::started(idle_timeout).after(earlier + idle);
            &&& state.world.server == Timed::started(idle_timeout).after(earlier).world.server
            &&& state.now < since + idle_timeout ==> state.world.watchdog !is Stopped
            &&& state.now > since + idle_timeout ==> state.world.watchdog is Stopped
        }),
    decreases idle.len(),
{
    let run = earlier + idle;
    if idle.len() == 0 {
        assert(run =~= earlier);
        law_no_idle_time_outlasts_the_timeout(idle_timeout, run);
    } else {
        assert(run.drop_last() =~= earlier + idle.drop_last());
        assert(run.last() == idle.last());
        assert forall|i: int| 0 <= i < idle.drop_last().len() implies #[trigger] idle.drop_last()[i]
            != (TimedStep::Take { step: Step::Open }) by {
            assert(idle.drop_last()[i] == idle[i]);
        }
        law_idle_server_is_shut_down_on_time(idle_timeout, earlier, idle.drop_last());
        law_no_idle_time_outlasts_the_timeout(idle_timeout, run.drop_last());
        law_no_idle_time_outlasts_the_timeout(idle_timeout, run);
    }
}

/// A run that is longer by a step.
proof fn lemma_one_step_more(state: Timed, run: Seq<TimedStep>, step: TimedStep)
    ensures
        state.after(run.push(step)) == state.after(run).next(step),
        state.allows(run.push(step)) == (state.allows(run) && state.after(run).enabled(step)),
        state.prompt_along(run.push(step)) == (state.prompt_along(run) && state.after(run).prompt(
            step,
        )),
{
    assert(run.push(step).drop_last() =~= run);
}

/// When the timeout has run out the watchdog shuts the server down at once: a few
/// steps of its own, in which no time passes, are enough.
pub proof fn law_timeout_is_acted_on_at_once(state: Timed)
    requires
        state.on_time(),
        state.world.server is Idle,
        state.now == state.timeout_end(),
    ensures
        state.allows(state.last_steps()),
        state.prompt_along(state.last_steps()),
        state.after(state.last_steps()).world.watchdog is Stopped,
        state.after(state.last_steps()).now == state.now,
        state.after(state.last_steps()).world.server == state.world.server,
{
    let steps = state.last_steps();
    assert forall|i: int| 0 <= i < steps.len() implies {
        &&& #[trigger] steps.take(i).push(steps[i]) == steps.take(i + 1)
    } by {
        assert(steps.take(i).push(steps[i]) =~= steps.take(i + 1));
    }
    assert(steps.take(0) =~= Seq::<TimedStep>::empty());
    assert(steps.take(steps.len() as int) =~= steps);
    if steps.len() > 0 {
        lemma_one_step_more(state, steps.take(0), steps[0]);
    }
    if steps.len() > 1 {
        lemma_one_step_more(state, steps.take(1), steps[1]);
    }
    if steps.len() > 2 {
        lemma_one_step_more(state, steps.take(2), steps[2]);
    }
    if steps.len() > 3 {
        lemma_one_step_more(state, steps.take(3), steps[3]);
    }
    if steps.len() > 4 {
        lemma_one_step_more(state, steps.take(4), steps[4]);
    }
}

}
