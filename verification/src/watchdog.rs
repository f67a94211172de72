//! The arming interlock, and the watchdog on the control link that drives
//! it. The robot is armed while the link is alive and at no other time.

use vstd::prelude::*;
use crate::clock::{micros_between, period_micros};
use crate::logging::LogEvent;
use crate::motor::{commanded, Drive};

verus! {

/// Times per second at which the link is looked at while no feed is due.
pub const WATCHDOG_POLL_HZ: u64 = 50;

/// Microseconds from one such look to the next.
pub const WATCHDOG_POLL_MICROS: u64 = 20_000;

/// Microseconds for which one feed keeps the link alive on the robot as
/// built.
pub const LINK_TIMEOUT_MICROS: u64 = 2_000_000;

/// A watchdog as a mathematical value.
pub struct WatchdogModel {
    /// Microseconds for which one feed keeps the link alive.
    pub window: nat,
    /// Time of the last feed, if there was one.
    pub last_feed: Option<nat>,
}

impl WatchdogModel {
    /// Whether a feed has arrived yet.
    pub open spec fn started(self) -> bool {
        self.last_feed.is_some()
    }

    /// Whether the link is alive at `now`: a feed has arrived, and fewer
    /// microseconds than the window have gone by since the last one.
    pub open spec fn fed_at(self, now: nat) -> bool {
        match self.last_feed {
            Some(last) => now < last + self.window,
            None => false,
        }
    }

    /// The first time at which the link is no longer alive unless it is fed
    /// again, where the clock can show that time.
    pub open spec fn deadline(self) -> Option<u64> {
        match self.last_feed {
            Some(last) => if last + self.window <= u64::MAX {
                Some((last + self.window) as u64)
            } else {
                None
            },
            None => None,
        }
    }

    /// The watchdog after a feed at `now`.
    pub open spec fn fed(self, now: nat) -> WatchdogModel {
        WatchdogModel { last_feed: Some(now), ..self }
    }
}

/// Watches the control link: remembers when it was last fed and tells
/// whether that is too long ago.
#[derive(Clone, Copy, Debug, PartialEq, Eq)]
pub struct Watchdog {
    window: u64,
    last_feed: Option<u64>,
}

impl View for Watchdog {
    type V = WatchdogModel;

    closed spec fn view(&self) -> WatchdogModel {
        WatchdogModel {
            window: self.window as nat,
            last_feed: match self.last_feed {
                Some(last) => Some(last as nat),
                None => None,
            },
        }
    }
}

impl Watchdog {
    /// A watchdog that was never fed, with a window of `window`
    /// microseconds.
    pub fn new(window: u64) -> (watchdog: Watchdog)
        ensures
            watchdog@ == (WatchdogModel { window: window as nat, last_feed: None }),
    {
        Watchdog { window, last_feed: None }
    }

    /// Notes a feed at `now`: the window starts anew.
    pub fn feed(&mut self, now: u64)
        ensures
            final(self)@ == old(self)@.fed(now as nat),
    {
        self.last_feed = Some(now);
    }

    /// Whether a feed has arrived yet.
    pub fn has_started(&self) -> (started: bool)
        ensures
            started == self@.started(),
    {
        self.last_feed.is_some()
    }

    /// Whether the link is alive at `now`.
    pub fn is_fed(&self, now: u64) -> (fed: bool)
        ensures
            fed == self@.fed_at(now as nat),
    {
        match self.last_feed {
            Some(last) => {
                if now < last {
                    true
                } else {
                    micros_between(last, now) < self.window
                }
            },
            None => false,
        }
    }

    /// The first time at which the link is no longer alive unless it is fed
    /// again: `None` before the first feed, and where that time is beyond
    /// what the clock can show.
    pub fn deadline(&self) -> (deadline: Option<u64>)
        ensures
            deadline == self@.deadline(),
    {
        match self.last_feed {
            Some(last) => last.checked_add(self.window),
            None => None,
        }
    }
}

/// Where the interlock stands.
#[derive(Clone, Copy, Debug, PartialEq, Eq, Structural)]
pub enum LinkState {
    /// No feed has arrived since start-up.
    AwaitingFeed,
    /// The link is alive.
    Armed,
    /// The link fell silent and has not come back.
    Disarmed,
}

/// What the watchdog reported.
#[derive(Clone, Copy, Debug, PartialEq, Eq, Structural)]
pub enum LinkEvent {
    /// The first feed has arrived.
    Started,
    /// The window went by without a feed.
    TimedOut,
    /// The watchdog was asked whether the link is alive.
    Polled { fed: bool },
}

/// What to wait for next.
#[derive(Clone, Copy, Debug, PartialEq, Eq, Structural)]
pub enum LinkWait {
    /// The first feed, looking every `poll` microseconds.
    Start { poll: u64 },
    /// The window going by without a feed.
    Timeout,
    /// `delay` microseconds, and then the answer to whether the link is
    /// alive.
    Poll { delay: u64 },
}

/// The outcome of one step of the interlock.
#[derive(Clone, Copy, Debug, PartialEq, Eq, Structural)]
pub struct LinkStep {
    /// Where the interlock stands now.
    pub state: LinkState,
    /// The value of the arming flag from now on.
    pub armed: bool,
    /// What to report to the log.
    pub log: Option<LogEvent>,
    /// What to wait for next.
    pub wait: LinkWait,
}

impl LinkState {
    /// Whether the motors may move.
    pub open spec fn armed(self) -> bool {
        self == LinkState::Armed
    }

    /// Where the interlock stands after `event`. The first feed arms.
    /// A timeout disarms. While disarmed, the answer that the link is
    /// alive arms again. Nothing else changes anything.
    pub open spec fn next(self, event: LinkEvent) -> LinkState {
        match (self, event) {
            (LinkState::AwaitingFeed, LinkEvent::Started) => LinkState::Armed,
            (LinkState::Armed, LinkEvent::TimedOut) => LinkState::Disarmed,
            (LinkState::Disarmed, LinkEvent::Polled { fed: true }) => LinkState::Armed,
            _ => self,
        }
    }

    /// Where the interlock stands after the events `events`.
    pub open spec fn next_all(self, events: Seq<LinkEvent>) -> LinkState
        decreases events.len(),
    {
        if events.len() == 0 {
            self
        } else {
            self.next_all(events.drop_last()).next(events.last())
        }
    }

    /// What to wait for after `event`, looking at the link every `poll`
    /// microseconds. Right after a timeout the link is asked at once.
    pub open spec fn wait_after(self, event: LinkEvent, poll: u64) -> LinkWait {
        match self.next(event) {
            LinkState::AwaitingFeed => LinkWait::Start { poll },
            LinkState::Armed => LinkWait::Timeout,
            LinkState::Disarmed => LinkWait::Poll {
                delay: if event is Polled {
                    poll
                } else {
                    0
                },
            },
        }
    }

    /// A timeout that disarms is reported to the log.
    pub open spec fn log_after(self, event: LinkEvent) -> Option<LogEvent> {
        if self == LinkState::Armed && event == LinkEvent::TimedOut {
            Some(LogEvent::WatchdogTimeout)
        } else {
            None
        }
    }

    /// The interlock at start-up: not armed.
    pub fn initial() -> (state: LinkState)
        ensures
            state == LinkState::AwaitingFeed,
            !state.armed(),
    {
        LinkState::AwaitingFeed
    }

    /// Whether the motors may move.
    pub fn is_armed(self) -> (armed: bool)
        ensures
            armed == self.armed(),
    {
        match self {
            LinkState::Armed => true,
            _ => false,
        }
    }
}

/// What the watchdog has to report at `now` to an interlock in `state`:
/// the first feed while one is awaited, the timeout once an armed link is
/// no longer alive, and while disarmed whether the link is alive.
pub open spec fn link_event(state: LinkState, watchdog: WatchdogModel, now: nat) -> Option<
    LinkEvent,
> {
    match state {
        LinkState::AwaitingFeed => if watchdog.started() {
            Some(LinkEvent::Started)
        } else {
            None
        },
        LinkState::Armed => if watchdog.fed_at(now) {
            None
        } else {
            Some(LinkEvent::TimedOut)
        },
        LinkState::Disarmed => Some(LinkEvent::Polled { fed: watchdog.fed_at(now) }),
    }
}

/// Looks at the watchdog at `now` for an interlock in `state`.
pub fn observe_link(state: LinkState, watchdog: &Watchdog, now: u64) -> (event: Option<LinkEvent>)
    ensures
        event == link_event(state, watchdog@, now as nat),
{
    match state {
        LinkState::AwaitingFeed => {
            if watchdog.has_started() {
                Some(LinkEvent::Started)
            } else {
                None
            }
        },
        LinkState::Armed => {
            if watchdog.is_fed(now) {
                None
            } else {
                Some(LinkEvent::TimedOut)
            }
        },
        LinkState::Disarmed => Some(LinkEvent::Polled { fed: watchdog.is_fed(now) }),
    }
}

/// One step of the interlock: takes what the watchdog reported and says
/// where the interlock stands, what the arming flag is from now on, what to
/// report to the log and what to wait for next.
pub fn watchdog_task(state: LinkState, event: LinkEvent) -> (step: LinkStep)
    ensures
        step.state == state.next(event),
        step.armed == state.next(event).armed(),
        step.log == state.log_after(event),
        step.wait == state.wait_after(event, WATCHDOG_POLL_MICROS),
{
    let poll: u64 = period_micros(WATCHDOG_POLL_HZ);
    assert(poll == WATCHDOG_POLL_MICROS);
    let polled: bool = match event {
        LinkEvent::Polled { fed: _ } => true,
        _ => false,
    };
    let next: LinkState = match (state, event) {
        (LinkState::AwaitingFeed, LinkEvent::Started) => LinkState::Armed,
        (LinkState::Armed, LinkEvent::TimedOut) => LinkState::Disarmed,
        (LinkState::Disarmed, LinkEvent::Polled { fed: true }) => LinkState::Armed,
        _ => state,
    };
    let log: Option<LogEvent> = match (state, event) {
        (LinkState::Armed, LinkEvent::TimedOut) => Some(LogEvent::WatchdogTimeout),
        _ => None,
    };
    let wait: LinkWait = match next {
        LinkState::AwaitingFeed => LinkWait::Start { poll },
        LinkState::Armed => LinkWait::Timeout,
        LinkState::Disarmed => LinkWait::Poll { delay: if polled { poll } else { 0 } },
    };
    LinkStep { state: next, armed: next.is_armed(), log, wait }
}

/// What to wait for at start-up: the first feed.
pub fn watchdog_start() -> (wait: LinkWait)
    ensures
        wait == (LinkWait::Start { poll: WATCHDOG_POLL_MICROS }),
{
    let poll: u64 = period_micros(WATCHDOG_POLL_HZ);
    assert(poll == WATCHDOG_POLL_MICROS);
    LinkWait::Start { poll }
}

/// Whether an event tells that the link is alive.
pub open spec fn is_feed(event: LinkEvent) -> bool {
    event == LinkEvent::Started || event == (LinkEvent::Polled { fed: true })
}

/// A timeout leaves the interlock disarmed, wherever it stood.
pub proof fn lemma_timeout_disarms(state: LinkState)
    ensures
        !state.next(LinkEvent::TimedOut).armed(),
{
}

/// The tick after a timeout is neutral, whatever the operator does.
pub proof fn lemma_neutral_after_timeout(state: LinkState, spin: int, movement: int)
    ensures
        commanded(state.next(LinkEvent::TimedOut).armed(), spin, movement) == Drive::Neutral,
{
}

/// Only news that the link is alive arms the interlock.
pub proof fn lemma_arms_only_on_feed(state: LinkState, event: LinkEvent)
    requires
        !state.armed(),
        state.next(event).armed(),
    ensures
        is_feed(event),
{
}

/// Without news that the link is alive, an interlock that is not armed is
/// not armed after any events.
pub proof fn lemma_stays_disarmed(state: LinkState, events: Seq<LinkEvent>)
    requires
        !state.armed(),
        forall|i: int| 0 <= i < events.len() ==> !is_feed(#[trigger] events[i]),
    ensures
        !state.next_all(events).armed(),
    decreases events.len(),
{
    if events.len() > 0 {
        let earlier = events.drop_last();
        assert forall|i: int| 0 <= i < earlier.len() implies !is_feed(#[trigger] earlier[i]) by {
            assert(earlier[i] == events[i]);
        }
        lemma_stays_disarmed(state, earlier);
        assert(!is_feed(events[events.len() - 1]));
    }
}

/// An armed interlock whose watchdog was last fed at `last` stays armed at
/// every time before the window has gone by, and is disarmed at the first
/// look from then on.
pub proof fn lemma_disarms_when_window_ends(watchdog: WatchdogModel, last: nat, now: nat)
    requires
        watchdog.last_feed == Some(last),
    ensures
        now < last + watchdog.window ==> link_event(LinkState::Armed, watchdog, now).is_none(),
        now >= last + watchdog.window ==> link_event(LinkState::Armed, watchdog, now) == Some(
            LinkEvent::TimedOut,
        ) && LinkState::Armed.next(LinkEvent::TimedOut) == LinkState::Disarmed,
{
}

/// A disarmed interlock is armed again at the first look after a feed,
/// while that feed's window lasts, and at no look before a feed.
pub proof fn lemma_rearms_on_feed(watchdog: WatchdogModel, fed_at: nat, now: nat)
    requires
        fed_at <= now < fed_at + watchdog.window,
    ensures
        link_event(LinkState::Disarmed, watchdog.fed(fed_at), now) matches Some(event)
            && LinkState::Disarmed.next(event) == LinkState::Armed,
        !watchdog.fed_at(now) ==> (link_event(LinkState::Disarmed, watchdog, now) matches Some(
            event,
        ) && LinkState::Disarmed.next(event) == LinkState::Disarmed),
{
}

} // verus!
