//! How the connections and the watchdog play together, step by step.
//!
//! A notification is remembered until the watchdog waits for one, and at most one
//! is remembered.
use vstd::prelude::*;

use crate::activity_tracker;
use crate::activity_tracker::{ServerState, WatchdogAction, WatchdogEvent};

verus! {

/// What the watchdog is doing.
pub enum WatchdogMode {
    /// It is about to look at the state.
    Looking,
    /// It waits for a notification.
    Waiting,
    /// It waits for a notification, but not beyond the deadline.
    WaitingUntil { deadline: int },
    /// The deadline has passed, and it is about to act on that.
    TimedOut { deadline: int },
    /// It has shut the server down.
    Stopped,
}

/// The server, its watchdog, and whether a notification is pending.
pub struct Watched {
    pub server: ServerState,
    pub idle_timeout: int,
    pub watchdog: WatchdogMode,
    pub notified: bool,
}

/// What can happen next. Connections and the watchdog take turns in any order.
pub enum Step {
    Open,
    Close { at: u128 },
    /// The watchdog looks at the state and decides.
    Act,
    /// The watchdog takes up a notification.
    Wake,
    /// The deadline passes.
    Expire,
}

impl Watched {
    /// A server that has just started, and its watchdog.
    pub open spec fn started(idle_timeout: int) -> Watched {
        Watched {
            server: ServerState::Idle { since: 0 },
            idle_timeout,
            watchdog: WatchdogMode::Looking,
            notified: false,
        }
    }

    pub open spec fn enabled(self, step: Step) -> bool {
        match step {
            Step::Open => activity_tracker::possible(
                self.server,
                activity_tracker::Activity::Opened,
            ),
            Step::Close { at } => activity_tracker::possible(
                self.server,
                activity_tracker::Activity::Closed { at },
            ),
            Step::Act => self.watchdog is Looking || self.watchdog is TimedOut,
            Step::Wake => self.notified && (self.watchdog is Waiting
                || self.watchdog is WaitingUntil),
            Step::Expire => self.watchdog is WaitingUntil,
        }
    }

    /// What the watchdog has seen when it acts.
    pub open spec fn event(self) -> WatchdogEvent {
        if self.watchdog is TimedOut {
            WatchdogEvent::TimedOut
        } else {
            WatchdogEvent::Look
        }
    }

    pub open spec fn next(self, step: Step) -> Watched {
        match step {
            Step::Open => Watched { server: self.server.opened(), ..self },
            Step::Close { at } => Watched {
                server: self.server.closed(at),
                notified: self.notified || self.server.closed(at) is Idle,
                ..self
            },
            Step::Act => Watched {
                watchdog: match activity_tracker::watchdog_action(
                    self.server,
                    self.idle_timeout,
                    self.event(),
                ) {
                    WatchdogAction::WaitUntil { deadline } => WatchdogMode::WaitingUntil {
                        deadline: deadline as int,
                    },
                    WatchdogAction::Wait => WatchdogMode::Waiting,
                    WatchdogAction::LookAgain => WatchdogMode::Looking,
                    WatchdogAction::Shutdown => WatchdogMode::Stopped,
                },
                ..self
            },
            Step::Wake => Watched { watchdog: WatchdogMode::Looking, notified: false, ..self },
            Step::Expire => Watched {
                watchdog: WatchdogMode::TimedOut { deadline: self.watchdog->WaitingUntil_deadline },
                ..self
            },
        }
    }

    /// The world after a run of steps.
    pub open spec fn after(self, run: Seq<Step>) -> Watched
        decreases run.len(),
    {
        if run.len() == 0 {
            self
        } else {
            self.after(run.drop_last()).next(run.last())
        }
    }

    /// Whether each step of a run could happen when its turn came.
    pub open spec fn allows(self, run: Seq<Step>) -> bool
        decreases run.len(),
    {
        run.len() == 0 || {
            &&& self.allows(run.drop_last())
            &&& self.after(run.drop_last()).enabled(run.last())
        }
    }

    /// A deadline belongs to the idle time that is running, unless the server is
    /// busy or a notification is pending.
    pub open spec fn deadline_current(self, deadline: int) -> bool {
        ||| self.notified
        ||| self.server is Active
        ||| deadline == self.server->since + self.idle_timeout
    }

    pub open spec fn well_formed(self) -> bool {
        &&& self.server.well_formed()
        &&& 0 <= self.idle_timeout <= activity_tracker::TIME_MAX_NANOSECONDS
        &&& match self.watchdog {
            WatchdogMode::Looking => true,
            WatchdogMode::Waiting => self.notified || self.server is Active,
            WatchdogMode::WaitingUntil { deadline } => self.deadline_current(deadline),
            WatchdogMode::TimedOut { deadline } => self.deadline_current(deadline),
            WatchdogMode::Stopped => true,
        }
    }
}

/// Every step keeps the world well formed.
proof fn lemma_step_keeps_well_formed(world: Watched, step: Step)
    requires
        world.well_formed(),
        world.enabled(step),
    ensures
        world.next(step).well_formed(),
        world.next(step).idle_timeout == world.idle_timeout,
{
}

/// Whatever happens to a server from its start, the world stays well formed.
pub proof fn law_every_run_is_well_formed(idle_timeout: int, run: Seq<Step>)
    requires
        0 <= idle_timeout <= activity_tracker::TIME_MAX_NANOSECONDS,
        Watched::started(idle_timeout).allows(run),
    ensures
        Watched::started(idle_timeout).after(run).well_formed(),
        Watched::started(idle_timeout).after(run).idle_timeout == idle_timeout,
    decreases run.len(),
{
    if run.len() > 0 {
        law_every_run_is_well_formed(idle_timeout, run.drop_last());
        lemma_step_keeps_well_formed(
            Watched::started(idle_timeout).after(run.drop_last()),
            run.last(),
        );
    }
}

/// No wake-up is lost: while the server is idle and has not been shut down, its
/// watchdog is about to act, has a notification to take up, or waits for the end
/// of this very idle time.
pub proof fn law_idle_server_is_watched(idle_timeout: int, run: Seq<Step>)
    requires
        0 <= idle_timeout <= activity_tracker::TIME_MAX_NANOSECONDS,
        Watched::started(idle_timeout).allows(run),
        Watched::started(idle_timeout).after(run).server is Idle,
    ensures
        ({
            let world = Watched::started(idle_timeout).after(run);
            ||| world.watchdog is Stopped
            ||| world.enabled(Step::Act)
            ||| world.enabled(Step::Wake)
            ||| world.watchdog == (WatchdogMode::WaitingUntil {
                deadline: world.server->since + idle_timeout,
            })
        }),
{
    law_every_run_is_well_formed(idle_timeout, run);
}

/// The watchdog shuts the server down only when no connection is open and a
/// deadline has passed; unless a notification came up in the meantime, that
/// deadline is the end of this very idle time.
pub proof fn law_shutdown_is_due(idle_timeout: int, run: Seq<Step>, step: Step)
    requires
        0 <= idle_timeout <= activity_tracker::TIME_MAX_NANOSECONDS,
        Watched::started(idle_timeout).allows(run),
        Watched::started(idle_timeout).after(run).enabled(step),
        Watched::started(idle_timeout).after(run).watchdog !is Stopped,
        Watched::started(idle_timeout).after(run).next(step).watchdog is Stopped,
    ensures
        ({
            let world = Watched::started(idle_timeout).after(run);
            &&& world.server is Idle
            &&& world.watchdog is TimedOut
            &&& !world.notified ==> world.watchdog->TimedOut_deadline == world.server->since
                + idle_timeout
        }),
{
    law_every_run_is_well_formed(idle_timeout, run);
}

/// A server that stays idle is shut down: three turns of the watchdog are enough
/// once it looks at the state.
pub proof fn law_undisturbed_idle_server_stops(world: Watched)
    requires
        world.well_formed(),
        world.server is Idle,
        world.watchdog is Looking,
    ensures
        world.allows(seq![Step::Act, Step::Expire, Step::Act]),
        world.after(seq![Step::Act, Step::Expire, Step::Act]).watchdog is Stopped,
{
    let one = seq![Step::Act];
    let two = seq![Step::Act, Step::Expire];
    let three = seq![Step::Act, Step::Expire, Step::Act];
    assert(one.drop_last() =~= Seq::<Step>::empty());
    assert(two.drop_last() =~= one);
    assert(three.drop_last() =~= two);
    reveal_with_fuel(Watched::after, 4);
    reveal_with_fuel(Watched::allows, 4);
}

}
