use vstd::prelude::*;
use vstd::string::*;
use crate::server::upstream::GatewayResponse;

verus! {

/// Where the gateway stands in its life: serving, finishing what it has admitted, or done.
#[derive(Clone, Copy, Debug, PartialEq, Eq, Structural)]
pub enum ShutdownState {
    Running,
    Draining,
    Stopped,
}

/// What can happen to the coordinator.
#[derive(Clone, Copy, Debug, PartialEq, Eq, Structural)]
pub enum Event {
    /// A request arrives and asks to be admitted.
    Arrival,
    /// A request that was admitted has produced its response or its error.
    Completion,
    /// An interrupt or a termination signal was received.
    Signal,
}

/// What the caller is to do after an event.
#[derive(Clone, Copy, Debug, PartialEq, Eq, Structural)]
pub enum Directive {
    /// Process the request that arrived.
    Admit,
    /// Turn the request that arrived away.
    Refuse,
    /// Go on.
    Proceed,
    /// Nothing is in flight and nothing more will be admitted: leave.
    Exit,
}

/// The coordinator as a value: its state and the number of requests in flight.
pub struct Status {
    pub state: ShutdownState,
    pub in_flight: nat,
}

/// Tracks the requests in flight and drives the drain after a signal.
#[derive(Debug)]
pub struct Coordinator {
    state: ShutdownState,
    in_flight: u64,
}

/// The place of a state in the order in which states are passed through.
pub open spec fn rank(s: ShutdownState) -> nat {
    match s {
        ShutdownState::Running => 0,
        ShutdownState::Draining => 1,
        ShutdownState::Stopped => 2,
    }
}

/// A status is consistent when a stopped coordinator has nothing in flight and a
/// draining one has something.
pub open spec fn consistent(s: Status) -> bool {
    &&& s.state == ShutdownState::Stopped ==> s.in_flight == 0
    &&& s.state == ShutdownState::Draining ==> s.in_flight > 0
}

/// The status after an event.
pub open spec fn step(s: Status, e: Event) -> Status {
    match e {
        Event::Arrival => if s.state == ShutdownState::Running {
            Status { state: s.state, in_flight: s.in_flight + 1 }
        } else {
            s
        },
        Event::Completion => if s.in_flight == 0 {
            s
        } else if s.in_flight == 1 && s.state == ShutdownState::Draining {
            Status { state: ShutdownState::Stopped, in_flight: 0 }
        } else {
            Status { state: s.state, in_flight: (s.in_flight - 1) as nat }
        },
        Event::Signal => if s.state == ShutdownState::Running {
            if s.in_flight == 0 {
                Status { state: ShutdownState::Stopped, in_flight: 0 }
            } else {
                Status { state: ShutdownState::Draining, in_flight: s.in_flight }
            }
        } else {
            s
        },
    }
}

/// What the caller is told after an event, given the status before it.
pub open spec fn directive(s: Status, e: Event) -> Directive {
    match e {
        Event::Arrival => if s.state == ShutdownState::Running {
            Directive::Admit
        } else {
            Directive::Refuse
        },
        _ => if step(s, e).state == ShutdownState::Stopped {
            Directive::Exit
        } else {
            Directive::Proceed
        },
    }
}

/// The status after a run of events, taken in order.
pub open spec fn run(s: Status, events: Seq<Event>) -> Status
    decreases events.len(),
{
    if events.len() == 0 {
        s
    } else {
        step(run(s, events.drop_last()), events.last())
    }
}

/// How many requests a run of events admits.
pub open spec fn admitted(s: Status, events: Seq<Event>) -> nat
    decreases events.len(),
{
    if events.len() == 0 {
        0
    } else {
        let before = admitted(s, events.drop_last());
        if directive(run(s, events.drop_last()), events.last()) == Directive::Admit {
            before + 1
        } else {
            before
        }
    }
}

impl View for Coordinator {
    type V = Status;

    closed spec fn view(&self) -> Status {
        Status { state: self.state, in_flight: self.in_flight as nat }
    }
}

impl Coordinator {
    /// The coordinator is well formed when its status is consistent.
    pub open spec fn wf(&self) -> bool {
        consistent(self@)
    }

    /// A coordinator that is running, with nothing in flight.
    pub fn new() -> (r: Coordinator)
        ensures
            r.wf(),
            r@ == (Status { state: ShutdownState::Running, in_flight: 0 }),
    {
        Coordinator { state: ShutdownState::Running, in_flight: 0 }
    }

    /// The state the coordinator is in.
    pub fn state(&self) -> (r: ShutdownState)
        ensures
            r == self@.state,
    {
        self.state
    }

    /// The number of requests that were admitted and have not completed.
    pub fn in_flight(&self) -> (r: u64)
        ensures
            r as nat == self@.in_flight,
    {
        self.in_flight
    }

    /// Whether the process may leave: the coordinator has stopped, so nothing is in
    /// flight.
    pub fn may_exit(&self) -> (r: bool)
        requires
            self.wf(),
        ensures
            r == (self@.state == ShutdownState::Stopped),
            r ==> self@.in_flight == 0,
    {
        self.state == ShutdownState::Stopped
    }

    /// Whether `handle` can take the event: the counter has room for an arrival.
    pub open spec fn can_take(&self, e: Event) -> bool {
        e == Event::Arrival && self@.state == ShutdownState::Running ==> self@.in_flight < u64::MAX
    }

    /// Takes one event, moves to the status that follows it and says what to do.
    pub fn handle(&mut self, e: Event) -> (r: Directive)
        requires
            old(self).wf(),
            old(self).can_take(e),
        ensures
            final(self).wf(),
            final(self)@ == step(old(self)@, e),
            r == directive(old(self)@, e),
    {
        match e {
            Event::Arrival => {
                if self.state == ShutdownState::Running {
                    self.in_flight = self.in_flight + 1;
                    Directive::Admit
                } else {
                    Directive::Refuse
                }
            },
            Event::Completion => {
                if self.in_flight > 0 {
                    self.in_flight = self.in_flight - 1;
                    if self.in_flight == 0 && self.state == ShutdownState::Draining {
                        self.state = ShutdownState::Stopped;
                    }
                }
                if self.state == ShutdownState::Stopped {
                    Directive::Exit
                } else {
                    Directive::Proceed
                }
            },
            Event::Signal => {
                if self.state == ShutdownState::Running {
                    if self.in_flight == 0 {
                        self.state = ShutdownState::Stopped;
                    } else {
                        self.state = ShutdownState::Draining;
                    }
                }
                if self.state == ShutdownState::Stopped {
                    Directive::Exit
                } else {
                    Directive::Proceed
                }
            },
        }
    }
}

/// No event takes a consistent status to an inconsistent one, moves the state
/// backwards, or lets the coordinator stop while a request is in flight.
pub proof fn step_keeps_order(s: Status, e: Event)
    requires
        consistent(s),
    ensures
        consistent(step(s, e)),
        rank(step(s, e).state) >= rank(s.state),
        directive(s, e) == Directive::Exit ==> step(s, e).in_flight == 0,
{
}

/// Once a signal was received the coordinator is never running again, whatever
/// follows: the state never goes back.
pub proof fn run_never_resumes(s: Status, events: Seq<Event>)
    requires
        consistent(s),
        s.state != ShutdownState::Running,
    ensures
        consistent(run(s, events)),
        run(s, events).state != ShutdownState::Running,
        rank(run(s, events).state) >= rank(s.state),
    decreases events.len(),
{
    if events.len() > 0 {
        run_never_resumes(s, events.drop_last());
        step_keeps_order(run(s, events.drop_last()), events.last());
    }
}

/// After a signal nothing is admitted any more, the requests in flight can only
/// become fewer, and the coordinator is stopped exactly when none is left.
pub proof fn drain_after_signal(s: Status, events: Seq<Event>)
    requires
        consistent(s),
    ensures
        admitted(step(s, Event::Signal), events) == 0,
        run(step(s, Event::Signal), events).in_flight <= s.in_flight,
        run(step(s, Event::Signal), events).state == ShutdownState::Stopped <==> run(
            step(s, Event::Signal),
            events,
        ).in_flight == 0,
    decreases events.len(),
{
    let d = step(s, Event::Signal);
    if events.len() > 0 {
        drain_after_signal(s, events.drop_last());
        run_never_resumes(d, events.drop_last());
    }
}

/// While the coordinator is running, the counter is the number of arrivals less the
/// number of completions that found a request in flight: it rises by one with each
/// arrival and never falls below zero.
pub proof fn counter_follows_requests(s: Status)
    requires
        s.state == ShutdownState::Running,
    ensures
        step(s, Event::Arrival).in_flight == s.in_flight + 1,
        s.in_flight > 0 ==> step(s, Event::Completion).in_flight == s.in_flight - 1,
        s.in_flight == 0 ==> step(s, Event::Completion) == s,
{
}

/// The answer to a request that arrives while the gateway drains or has stopped.
pub open spec fn is_refusal(g: GatewayResponse) -> bool {
    g.status == 503 && g.body@ == "Shutting down"@
}

/// The answer that the gateway itself gives to a request that has arrived: none where
/// the request is admitted, and a refusal where it is turned away.
pub fn answer_to_arrival(d: Directive) -> (r: Option<GatewayResponse>)
    ensures
        r is Some <==> d == Directive::Refuse,
        r matches Some(g) ==> is_refusal(g),
{
    match d {
        Directive::Refuse => Some(
            GatewayResponse { status: 503, body: String::from_str("Shutting down") },
        ),
        _ => None,
    }
}

} // verus!
