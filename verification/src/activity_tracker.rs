//! When the server is idle, and when it has been idle for long enough to stop.
use tokio::time::Instant;
use vstd::prelude::*;

pub mod protocol;
pub mod timed;

verus! {

/// The longest time that the clock can tell, in nanoseconds.
pub const TIME_MAX_NANOSECONDS: u128 = 18_446_744_073_709_551_615_999_999_999;

/// Whether any connection is open. Times are nanoseconds from the start of the
/// tracker.
#[derive(Clone, Copy, Debug, PartialEq, Eq, Structural)]
pub enum ServerState {
    /// Zero active connections. Holds the exact time the last connection closed.
    Idle { since: u128 },
    /// At least one active connection. The timestamp ceases to exist.
    Active { connections: usize },
}

impl ServerState {
    pub open spec fn well_formed(self) -> bool {
        match self {
            ServerState::Idle { since } => since <= TIME_MAX_NANOSECONDS,
            ServerState::Active { connections } => connections > 0,
        }
    }

    /// The number of open connections.
    pub open spec fn connections(self) -> nat {
        match self {
            ServerState::Idle { .. } => 0,
            ServerState::Active { connections } => connections as nat,
        }
    }

    /// The state after a connection has opened.
    pub open spec fn opened(self) -> ServerState {
        ServerState::Active { connections: (self.connections() + 1) as usize }
    }

    /// The state after a connection has closed at the given time.
    pub open spec fn closed(self, now: u128) -> ServerState {
        if self.connections() == 1 {
            ServerState::Idle { since: now }
        } else {
            ServerState::Active { connections: (self.connections() - 1) as usize }
        }
    }
}

/// `tokio::time::Instant`, a reading of the clock.
#[verifier::external_type_specification]
#[verifier::external_body]
pub struct ExInstant(Instant);

/// `tokio::time::Instant::now`. Nothing can be said of the time that it shows.
#[verifier::external_body]
fn clock_now() -> Instant {
    Instant::now()
}

/// `tokio::time::Instant::elapsed`, in nanoseconds. Nothing is said of the clock
/// but that it shows a time that it can tell.
#[verifier::external_body]
pub(crate) fn elapsed_nanoseconds(start: &Instant) -> (nanoseconds: u128)
    ensures
        nanoseconds <= TIME_MAX_NANOSECONDS,
{
    start.elapsed().as_nanos()
}

/// Whether a reading of the clock, counted from a start, gives a time. Nothing but
/// a reading shows that it does.
pub closed spec fn clock_shows(start: Instant, time: u128) -> bool {
    call_ensures(elapsed_nanoseconds, (&start,), time)
}

/// Counts the open connections, and knows since when there are none.
pub struct ActivityTracker {
    start: Instant,
    state: ServerState,
    idle_timeout: u128,
}

/// What the watchdog has seen.
#[derive(Clone, Copy, Debug, PartialEq, Eq, Structural)]
pub enum WatchdogEvent {
    /// It is about to look at the state: it has just started, was notified, or
    /// found the server busy when a deadline passed.
    Look,
    /// The deadline passed without a notification.
    TimedOut,
}

/// What the watchdog does next.
#[derive(Clone, Copy, Debug, PartialEq, Eq, Structural)]
pub enum WatchdogAction {
    /// Wait for a notification, but not beyond the deadline.
    WaitUntil { deadline: u128 },
    /// Wait for a notification.
    Wait,
    /// Look at the state again.
    LookAgain,
    /// Shut the server down and stop watching.
    Shutdown,
}

/// What the watchdog does on an event, in a given state.
pub open spec fn watchdog_action(
    state: ServerState,
    idle_timeout: int,
    event: WatchdogEvent,
) -> WatchdogAction {
    match (event, state) {
        (WatchdogEvent::Look, ServerState::Idle { since }) => WatchdogAction::WaitUntil {
            deadline: (since + idle_timeout) as u128,
        },
        (WatchdogEvent::Look, ServerState::Active { .. }) => WatchdogAction::Wait,
        (WatchdogEvent::TimedOut, ServerState::Idle { .. }) => WatchdogAction::Shutdown,
        (WatchdogEvent::TimedOut, ServerState::Active { .. }) => WatchdogAction::LookAgain,
    }
}

impl ActivityTracker {
    #[verifier::type_invariant]
    closed spec fn well_formed(self) -> bool {
        &&& self.state.well_formed()
        &&& self.idle_timeout <= TIME_MAX_NANOSECONDS
    }

    /// The state that is tracked.
    pub closed spec fn spec_state(&self) -> ServerState {
        self.state
    }

    /// How long the server may be idle, in nanoseconds.
    pub closed spec fn spec_idle_timeout(&self) -> u128 {
        self.idle_timeout
    }

    /// The clock reading that times are counted from.
    pub closed spec fn spec_start(&self) -> Instant {
        self.start
    }

    /// A tracker of a server without connections, which is idle from now on.
    pub fn new(idle_timeout: u128) -> (tracker: ActivityTracker)
        requires
            idle_timeout <= TIME_MAX_NANOSECONDS,
        ensures
            tracker.spec_state() == (ServerState::Idle { since: 0 }),
            tracker.spec_idle_timeout() == idle_timeout,
    {
        ActivityTracker { start: clock_now(), state: ServerState::Idle { since: 0 }, idle_timeout }
    }

    /// The state that is tracked.
    pub fn state(&self) -> (state: ServerState)
        ensures
            state == self.spec_state(),
            state.well_formed(),
    {
        proof {
            use_type_invariant(self);
        }
        self.state
    }

    /// The clock reading that times are counted from.
    pub fn start(&self) -> (start: Instant)
        ensures
            start == self.spec_start(),
    {
        self.start
    }

    /// A connection has opened.
    pub fn increment(&mut self)
        requires
            old(self).spec_state().connections() < usize::MAX,
        ensures
            final(self).spec_state() == old(self).spec_state().opened(),
            final(self).spec_idle_timeout() == old(self).spec_idle_timeout(),
            final(self).spec_start() == old(self).spec_start(),
    {
        proof {
            use_type_invariant(&*self);
        }
        self.state = match self.state {
            // If idle, transition to Active with exactly 1 connection
            ServerState::Idle { .. } => ServerState::Active { connections: 1 },
            // If already active, increment the counter
            ServerState::Active { connections } => ServerState::Active {
                connections: connections + 1,
            },
        };
    }

    /// A connection has closed at the given time. Tells whether the watchdog has
    /// to be notified.
    pub fn decrement_at(&mut self, now: u128) -> (notify: bool)
        requires
            old(self).spec_state() is Active,
            now <= TIME_MAX_NANOSECONDS,
        ensures
            final(self).spec_state() == old(self).spec_state().closed(now),
            final(self).spec_idle_timeout() == old(self).spec_idle_timeout(),
            final(self).spec_start() == old(self).spec_start(),
            notify == final(self).spec_state() is Idle,
    {
        proof {
            use_type_invariant(&*self);
        }
        match self.state {
            ServerState::Idle { .. } => false,
            ServerState::Active { connections } => {
                if connections == 1 {
                    // The last connection just closed. Transition back to Idle.
                    self.state = ServerState::Idle { since: now };
                    true
                } else {
                    self.state = ServerState::Active { connections: connections - 1 };
                    false
                }
            },
        }
    }

    /// A connection has closed. Tells whether the watchdog has to be notified.
    pub fn decrement(&mut self) -> (notify: bool)
        requires
            old(self).spec_state() is Active,
        ensures
            exists|now: u128|
                {
                    &&& now <= TIME_MAX_NANOSECONDS
                    &&& clock_shows(old(self).spec_start(), now)
                    &&& final(self).spec_state() == #[trigger] old(self).spec_state().closed(now)
                },
            final(self).spec_state() is Idle ==> clock_shows(
                old(self).spec_start(),
                final(self).spec_state()->since,
            ),
            final(self).spec_idle_timeout() == old(self).spec_idle_timeout(),
            final(self).spec_start() == old(self).spec_start(),
            notify == final(self).spec_state() is Idle,
    {
        proof {
            use_type_invariant(&*self);
        }
        let now = elapsed_nanoseconds(&self.start);
        self.decrement_at(now)
    }
}

/// What the watchdog does next.
pub fn watchdog(tracker: &ActivityTracker, event: WatchdogEvent) -> (action: WatchdogAction)
    ensures
        action == watchdog_action(
            tracker.spec_state(),
            tracker.spec_idle_timeout() as int,
            event,
        ),
        action is WaitUntil ==> action->deadline == tracker.spec_state()->since
            + tracker.spec_idle_timeout(),
{
    proof {
        use_type_invariant(tracker);
    }
    match event {
        WatchdogEvent::Look => match tracker.state {
            ServerState::Idle { since } => WatchdogAction::WaitUntil {
                deadline: since + tracker.idle_timeout,
            },
            ServerState::Active { .. } => WatchdogAction::Wait,
        },
        WatchdogEvent::TimedOut => match tracker.state {
            ServerState::Idle { .. } => WatchdogAction::Shutdown,
            ServerState::Active { .. } => WatchdogAction::LookAgain,
        },
    }
}

/// A connection opens, or closes at some time.
pub enum Activity {
    Opened,
    Closed { at: u128 },
}

/// Whether an activity can happen in a state: only an open connection closes, and
/// they are counted in a machine word.
pub open spec fn possible(state: ServerState, activity: Activity) -> bool {
    match activity {
        Activity::Opened => state.connections() < usize::MAX,
        Activity::Closed { at } => state is Active && at <= TIME_MAX_NANOSECONDS,
    }
}

/// The state after an activity.
pub open spec fn after(state: ServerState, activity: Activity) -> ServerState {
    match activity {
        Activity::Opened => state.opened(),
        Activity::Closed { at } => state.closed(at),
    }
}

/// The state after a whole history.
pub open spec fn after_all(state: ServerState, history: Seq<Activity>) -> ServerState
    decreases history.len(),
{
    if history.len() == 0 {
        state
    } else {
        after(after_all(state, history.drop_last()), history.last())
    }
}

/// Whether a whole history can happen.
pub open spec fn all_possible(state: ServerState, history: Seq<Activity>) -> bool
    decreases history.len(),
{
    history.len() == 0 || {
        &&& all_possible(state, history.drop_last())
        &&& possible(after_all(state, history.drop_last()), history.last())
    }
}

/// How many more connections a history opens than it closes.
pub open spec fn balance(history: Seq<Activity>) -> int
    decreases history.len(),
{
    if history.len() == 0 {
        0
    } else {
        balance(history.drop_last()) + match history.last() {
            Activity::Opened => 1int,
            Activity::Closed { .. } => -1int,
        }
    }
}

/// Whatever happens, the number of open connections is what was opened less what
/// was closed, and the server is idle exactly when that is nothing.
pub proof fn law_connections_are_counted(state: ServerState, history: Seq<Activity>)
    requires
        state.well_formed(),
        all_possible(state, history),
    ensures
        after_all(state, history).well_formed(),
        after_all(state, history).connections() == state.connections() + balance(history),
        after_all(state, history) is Idle <==> state.connections() + balance(history) == 0,
    decreases history.len(),
{
    if history.len() > 0 {
        law_connections_are_counted(state, history.drop_last());
    }
}

/// A server that is idle after something has happened is idle since the last
/// connection closed, and closing it was the last thing that happened.
pub proof fn law_idle_since_last_close(state: ServerState, history: Seq<Activity>)
    requires
        state.well_formed(),
        all_possible(state, history),
        history.len() > 0,
        after_all(state, history) is Idle,
    ensures
        history.last() is Closed,
        after_all(state, history)->since == history.last()->at,
{
    law_connections_are_counted(state, history.drop_last());
}

/// A request that is served takes nothing away from the count: a busy server is
/// left as it was, and an idle one is idle again, from the end of the request on.
pub proof fn law_served_request_is_balanced(state: ServerState, end: u128)
    requires
        state.well_formed(),
        state.connections() < usize::MAX,
    ensures
        state is Active ==> state.opened().closed(end) == state,
        state is Idle ==> state.opened().closed(end) == (ServerState::Idle { since: end }),
{
}

/// While a connection is open the watchdog neither shuts the server down nor sets
/// a deadline.
pub proof fn law_busy_server_is_left_alone(
    state: ServerState,
    idle_timeout: int,
    event: WatchdogEvent,
)
    requires
        state.well_formed(),
        state.connections() > 0,
    ensures
        watchdog_action(state, idle_timeout, event) !is Shutdown,
        watchdog_action(state, idle_timeout, event) !is WaitUntil,
{
}

/// A server that stays idle is shut down: the watchdog waits until the timeout
/// has run from the moment at which the last connection closed, and then acts.
pub proof fn law_idle_server_is_shut_down(state: ServerState, idle_timeout: int)
    requires
        state.well_formed(),
        state.connections() == 0,
        0 <= idle_timeout <= TIME_MAX_NANOSECONDS,
    ensures
        watchdog_action(state, idle_timeout, WatchdogEvent::Look) is WaitUntil,
        watchdog_action(state, idle_timeout, WatchdogEvent::Look)->deadline == state->since
            + idle_timeout,
        watchdog_action(state, idle_timeout, WatchdogEvent::TimedOut) is Shutdown,
{
}

/// A connection that opens is counted as one, and so is one that closes; the last
/// one to close leaves the server idle since the very time at which it closed.
pub proof fn law_one_connection_at_a_time(
    idle_since: u128,
    now: u128,
    connections: usize,
)
    requires
        0 < connections < usize::MAX,
    ensures
        (ServerState::Idle { since: idle_since }).connections() == 0,
        (ServerState::Active { connections }).connections() == connections,
        (ServerState::Idle { since: idle_since }).opened() == (ServerState::Active {
            connections: 1,
        }),
        (ServerState::Active { connections: 1 }).closed(now) == (ServerState::Idle { since: now }),
        ({
            let more = ServerState::Active { connections: (connections + 1) as usize };
            &&& (ServerState::Active { connections }).opened() == more
            &&& more.closed(now) == (ServerState::Active { connections })
        }),
{
}

/// When the last connection closes, the idle time starts at the reading of the
/// clock that was taken for it, and the watchdog lets the whole timeout go by from
/// there.
pub(crate) proof fn law_idle_time_starts_at_a_clock_reading(
    start: Instant,
    now: u128,
    idle_timeout: int,
)
    requires
        clock_shows(start, now),
        0 <= idle_timeout <= TIME_MAX_NANOSECONDS,
    ensures
        ({
            let idle = (ServerState::Active { connections: 1 }).closed(now);
            let look = watchdog_action(idle, idle_timeout, WatchdogEvent::Look);
            &&& idle is Idle
            &&& call_ensures(elapsed_nanoseconds, (&start,), idle->since)
            &&& look is WaitUntil
            &&& call_ensures(
                elapsed_nanoseconds,
                (&start,),
                (look->deadline - idle_timeout) as u128,
            )
            &&& look->deadline - idle_timeout == idle->since
        }),
{
}

/// Two closings of the last connection that lie some time apart have deadlines
/// that lie as far apart: no idle time is cut short by when it starts.
pub proof fn law_deadline_moves_with_the_close(first: u128, second: u128, idle_timeout: int)
    requires
        first <= second <= TIME_MAX_NANOSECONDS,
        0 <= idle_timeout <= TIME_MAX_NANOSECONDS,
    ensures
        ({
            let busy = ServerState::Active { connections: 1 };
            let early = watchdog_action(busy.closed(first), idle_timeout, WatchdogEvent::Look);
            let late = watchdog_action(busy.closed(second), idle_timeout, WatchdogEvent::Look);
            &&& early is WaitUntil
            &&& late is WaitUntil
            &&& late->deadline - early->deadline == second - first
            &&& late->deadline - second == idle_timeout
        }),
{
}

/// The watchdog of a busy server waits to be notified; if its deadline passed, it
/// looks again before that.
pub proof fn law_busy_server_is_waited_for(connections: usize, idle_timeout: int)
    ensures
        watchdog_action(
            ServerState::Active { connections },
            idle_timeout,
            WatchdogEvent::Look,
        ) is Wait,
        watchdog_action(
            ServerState::Active { connections },
            idle_timeout,
            WatchdogEvent::TimedOut,
        ) is LookAgain,
{
}

/// A tracker remembers its start, its state and its timeout, and nothing else: what
/// it does next depends on no more than these and the clock.
pub proof fn law_tracker_remembers_nothing_else(tracker: ActivityTracker, other: ActivityTracker)
    requires
        tracker.spec_start() == other.spec_start(),
        tracker.spec_state() == other.spec_state(),
        tracker.spec_idle_timeout() == other.spec_idle_timeout(),
    ensures
        tracker == other,
{
}

}
