//! The endpoint monitor: one endless cycle of probe, alert and sleep per
//! configured URL.
//!
//! The monitor is a state machine. The program that drives it performs each
//! action, waits for it to finish, and hands back the matching event.

use crate::check_health::{ProbeOutcome, Verdict};
use vstd::prelude::*;

verus! {

/// The pause between two probes of one endpoint, in seconds.
pub const PROBE_INTERVAL_SECONDS: u64 = 300;

/// `text` as `std` writes a string slice with `{:?}`: quoted and escaped.
pub uninterp spec fn debug_text(text: Seq<char>) -> Seq<char>;

/// Trusted: `format!("{:?}", text)`, which is `<str as std::fmt::Debug>::fmt`.
/// The contract only names the result.
#[verifier::external_body]
fn debug_string(text: &str) -> (quoted: String)
    ensures
        quoted@ == debug_text(text@),
{
    format!("{:?}", text)
}

/// The alert for an unhealthy endpoint: its URL, the word `unhealthy`, and the
/// reason as it is given.
pub open spec fn alert_text(url: Seq<char>, reason: Seq<char>) -> Seq<char> {
    url + " unhealthy "@ + reason
}

/// The alert for an unhealthy endpoint, with the reason quoted and escaped.
pub open spec fn unhealthy_message(url: Seq<char>, reason: Seq<char>) -> Seq<char> {
    alert_text(url, debug_text(reason))
}

/// Joins a URL and a reason, already quoted, into the alert.
pub fn join_alert(url: &str, quoted_reason: &str) -> (message: String)
    ensures
        message@ == alert_text(url@, quoted_reason@),
{
    let mut message = String::from_str(url);
    message.append(" unhealthy ");
    message.append(quoted_reason);
    message
}

/// Writes the alert for an unhealthy endpoint.
pub fn compose_unhealthy_message(url: &str, reason: &str) -> (message: String)
    ensures
        message@ == unhealthy_message(url@, reason@),
{
    let quoted = debug_string(reason);
    join_alert(url, quoted.as_str())
}

/// Where in its cycle a monitor stands: what it is waiting for.
#[derive(Clone, Copy, Debug, PartialEq, Eq, Structural)]
pub enum EndpointPhase {
    /// A probe is under way.
    Probing,
    /// An alert is being delivered.
    Notifying,
    /// The pause before the next probe.
    Sleeping,
}

/// What the driver reports back.
#[derive(Debug, PartialEq, Eq)]
pub enum EndpointEvent {
    /// The probe finished with this outcome.
    Probed(ProbeOutcome),
    /// The delivery of the alert ended, well or not.
    Notified { delivered: bool },
    /// The pause is over.
    Woke,
}

/// What the driver is to do next.
#[derive(Debug, PartialEq, Eq)]
pub enum EndpointAction {
    /// Probe the endpoint.
    Probe,
    /// Deliver this alert.
    Notify(String),
    /// Pause for this many seconds.
    Sleep { seconds: u64 },
}

/// An event, with text as sequences of characters.
pub enum EventView {
    Probed(Verdict),
    Notified { delivered: bool },
    Woke,
}

/// An action, with text as a sequence of characters.
pub enum ActionView {
    Probe,
    Notify(Seq<char>),
    Sleep { seconds: u64 },
}

impl View for EndpointEvent {
    type V = EventView;

    open spec fn view(&self) -> EventView {
        match self {
            EndpointEvent::Probed(outcome) => EventView::Probed(outcome@),
            EndpointEvent::Notified { delivered } => EventView::Notified { delivered: *delivered },
            EndpointEvent::Woke => EventView::Woke,
        }
    }
}

impl View for EndpointAction {
    type V = ActionView;

    open spec fn view(&self) -> ActionView {
        match self {
            EndpointAction::Probe => ActionView::Probe,
            EndpointAction::Notify(message) => ActionView::Notify(message@),
            EndpointAction::Sleep { seconds } => ActionView::Sleep { seconds: *seconds },
        }
    }
}

/// The cycle: a healthy probe leads straight to the pause, an unhealthy one
/// to an alert first; the pause always lasts one interval, and after it comes
/// the next probe. An event that the phase is not waiting for has no
/// transition.
pub open spec fn transition(url: Seq<char>, phase: EndpointPhase, event: EventView) -> Option<
    (EndpointPhase, ActionView),
> {
    match (phase, event) {
        (EndpointPhase::Probing, EventView::Probed(Verdict::Healthy)) => Some(
            (EndpointPhase::Sleeping, ActionView::Sleep { seconds: PROBE_INTERVAL_SECONDS }),
        ),
        (EndpointPhase::Probing, EventView::Probed(Verdict::Unhealthy { reason })) => Some(
            (EndpointPhase::Notifying, ActionView::Notify(unhealthy_message(url, reason))),
        ),
        (EndpointPhase::Notifying, EventView::Notified { .. }) => Some(
            (EndpointPhase::Sleeping, ActionView::Sleep { seconds: PROBE_INTERVAL_SECONDS }),
        ),
        (EndpointPhase::Sleeping, EventView::Woke) => Some(
            (EndpointPhase::Probing, ActionView::Probe),
        ),
        _ => None,
    }
}

/// The monitor of one endpoint.
#[derive(Debug, PartialEq, Eq)]
pub struct EndpointMonitor {
    url: String,
    phase: EndpointPhase,
}

/// A monitor as its URL and its phase.
pub struct MonitorState {
    pub url: Seq<char>,
    pub phase: EndpointPhase,
}

impl View for EndpointMonitor {
    type V = MonitorState;

    closed spec fn view(&self) -> MonitorState {
        MonitorState { url: self.url@, phase: self.phase }
    }
}

impl EndpointMonitor {
    /// A monitor for `url`, together with its first action: it probes at
    /// once, without an initial pause.
    pub fn start(url: String) -> (started: (EndpointMonitor, EndpointAction))
        ensures
            started.0@ == (MonitorState { url: url@, phase: EndpointPhase::Probing }),
            started.1@ == ActionView::Probe,
    {
        (EndpointMonitor { url, phase: EndpointPhase::Probing }, EndpointAction::Probe)
    }

    /// The endpoint that is watched.
    pub fn url(&self) -> (url: &str)
        ensures
            url@ == self@.url,
    {
        self.url.as_str()
    }

    /// What the monitor is waiting for.
    pub fn phase(&self) -> (phase: EndpointPhase)
        ensures
            phase == self@.phase,
    {
        self.phase
    }

    /// Takes the event that ends the current phase and gives the next
    /// action. An event that the phase is not waiting for is refused with
    /// `None` and changes nothing.
    pub fn step(&mut self, event: EndpointEvent) -> (action: Option<EndpointAction>)
        ensures
            final(self)@.url == old(self)@.url,
            match transition(old(self)@.url, old(self)@.phase, event@) {
                Some((phase, expected)) => {
                    &&& final(self)@.phase == phase
                    &&& action matches Some(a)
                    &&& a@ == expected
                },
                None => final(self)@.phase == old(self)@.phase && action is None,
            },
    {
        match self.phase {
            EndpointPhase::Probing => match event {
                EndpointEvent::Probed(ProbeOutcome::Healthy) => {
                    self.phase = EndpointPhase::Sleeping;
                    Some(EndpointAction::Sleep { seconds: PROBE_INTERVAL_SECONDS })
                },
                EndpointEvent::Probed(ProbeOutcome::Unhealthy { reason }) => {
                    let message = compose_unhealthy_message(self.url.as_str(), reason.as_str());
                    self.phase = EndpointPhase::Notifying;
                    Some(EndpointAction::Notify(message))
                },
                _ => None,
            },
            EndpointPhase::Notifying => match event {
                EndpointEvent::Notified { .. } => {
                    self.phase = EndpointPhase::Sleeping;
                    Some(EndpointAction::Sleep { seconds: PROBE_INTERVAL_SECONDS })
                },
                _ => None,
            },
            EndpointPhase::Sleeping => match event {
                EndpointEvent::Woke => {
                    self.phase = EndpointPhase::Probing;
                    Some(EndpointAction::Probe)
                },
                _ => None,
            },
        }
    }
}

/// A simulated run of one monitor: its phase, its own clock in seconds, and
/// how many probes and alerts it has asked for.
pub struct Trace {
    pub phase: EndpointPhase,
    pub clock: nat,
    pub probes: nat,
    pub alerts: nat,
}

/// The trace after one more event. A refused event leaves it as it was; a
/// pause moves the clock on, a probe or an alert is counted.
pub open spec fn after(url: Seq<char>, trace: Trace, event: EventView) -> Trace {
    match transition(url, trace.phase, event) {
        None => trace,
        Some((phase, ActionView::Probe)) => Trace { phase, probes: trace.probes + 1, ..trace },
        Some((phase, ActionView::Notify(_))) => Trace { phase, alerts: trace.alerts + 1, ..trace },
        Some((phase, ActionView::Sleep { seconds })) => Trace {
            phase,
            clock: trace.clock + seconds as nat,
            ..trace
        },
    }
}

/// The trace after a sequence of events, taken in order.
pub open spec fn run(url: Seq<char>, trace: Trace, events: Seq<EventView>) -> Trace
    decreases events.len(),
{
    if events.len() == 0 {
        trace
    } else {
        after(url, run(url, trace, events.drop_last()), events.last())
    }
}

/// The events of one full round that starts with a probe: its outcome, the
/// end of the delivery where the outcome called for an alert, and the end of
/// the pause.
pub open spec fn round(verdict: Verdict, delivered: bool) -> Seq<EventView> {
    match verdict {
        Verdict::Healthy => seq![EventView::Probed(verdict), EventView::Woke],
        Verdict::Unhealthy { .. } => seq![
            EventView::Probed(verdict),
            EventView::Notified { delivered },
            EventView::Woke,
        ],
    }
}

/// The events of several rounds in a row, one per probe result.
pub open spec fn rounds(results: Seq<(Verdict, bool)>) -> Seq<EventView>
    decreases results.len(),
{
    if results.len() == 0 {
        Seq::empty()
    } else {
        rounds(results.drop_last()) + round(results.last().0, results.last().1)
    }
}

/// The events of a schedule that go to one of two monitors, in order.
pub open spec fn events_for(schedule: Seq<(bool, EventView)>, first: bool) -> Seq<EventView>
    decreases schedule.len(),
{
    if schedule.len() == 0 {
        Seq::empty()
    } else if schedule.last().0 == first {
        events_for(schedule.drop_last(), first).push(schedule.last().1)
    } else {
        events_for(schedule.drop_last(), first)
    }
}

/// Two monitors run side by side: each entry of the schedule hands one event
/// to the first monitor (`true`) or to the second (`false`).
pub open spec fn run_pair(
    first_url: Seq<char>,
    second_url: Seq<char>,
    traces: (Trace, Trace),
    schedule: Seq<(bool, EventView)>,
) -> (Trace, Trace)
    decreases schedule.len(),
{
    if schedule.len() == 0 {
        traces
    } else {
        let before = run_pair(first_url, second_url, traces, schedule.drop_last());
        if schedule.last().0 {
            (after(first_url, before.0, schedule.last().1), before.1)
        } else {
            (before.0, after(second_url, before.1, schedule.last().1))
        }
    }
}

/// No phase is final: in each one the monitor waits for an event that it
/// accepts.
pub proof fn no_phase_is_final(url: Seq<char>, phase: EndpointPhase)
    ensures
        exists|event: EventView| transition(url, phase, event) is Some,
{
    match phase {
        EndpointPhase::Probing => {
            assert(transition(url, phase, EventView::Probed(Verdict::Healthy)) is Some);
        },
        EndpointPhase::Notifying => {
            assert(transition(url, phase, EventView::Notified { delivered: true }) is Some);
        },
        EndpointPhase::Sleeping => {
            assert(transition(url, phase, EventView::Woke) is Some);
        },
    }
}

/// Running over two sequences of events in a row is running over the first
/// and then, from where that ended, over the second.
pub proof fn run_in_two_parts(
    url: Seq<char>,
    trace: Trace,
    head: Seq<EventView>,
    tail: Seq<EventView>,
)
    ensures
        run(url, trace, head + tail) == run(url, run(url, trace, head), tail),
    decreases tail.len(),
{
    if tail.len() == 0 {
        assert(head + tail =~= head);
    } else {
        assert((head + tail).drop_last() =~= head + tail.drop_last());
        assert((head + tail).last() == tail.last());
        run_in_two_parts(url, trace, head, tail.drop_last());
    }
}

/// Whatever a probe finds, and whether or not the alert gets through, the
/// round ends with one pause of one interval and the next probe.
pub proof fn every_round_keeps_the_cadence(
    url: Seq<char>,
    trace: Trace,
    verdict: Verdict,
    delivered: bool,
)
    requires
        trace.phase == EndpointPhase::Probing,
    ensures
        run(url, trace, round(verdict, delivered)) == (Trace {
            phase: EndpointPhase::Probing,
            clock: trace.clock + PROBE_INTERVAL_SECONDS as nat,
            probes: trace.probes + 1,
            alerts: trace.alerts + if verdict is Unhealthy {
                1nat
            } else {
                0nat
            },
        }),
{
    let events = round(verdict, delivered);
    match verdict {
        Verdict::Healthy => {
            let one = events.drop_last();
            assert(one.len() == 1 && one.last() == EventView::Probed(verdict));
            assert(one.drop_last().len() == 0);
            assert(run(url, trace, one.drop_last()) == trace);
            assert(run(url, trace, one) == after(url, trace, EventView::Probed(verdict)));
            assert(events.last() == EventView::Woke);
        },
        Verdict::Unhealthy { .. } => {
            let two = events.drop_last();
            let one = two.drop_last();
            assert(one.len() == 1 && one.last() == EventView::Probed(verdict));
            assert(one.drop_last().len() == 0);
            assert(run(url, trace, one.drop_last()) == trace);
            assert(run(url, trace, one) == after(url, trace, EventView::Probed(verdict)));
            assert(two.len() == 2 && two.last() == EventView::Notified { delivered });
            assert(run(url, trace, two) == after(
                url,
                run(url, trace, one),
                EventView::Notified { delivered },
            ));
            assert(events.last() == EventView::Woke);
        },
    }
}

/// A monitor never stalls: after any number of rounds, failing or not, it is
/// about to probe again, has asked for one probe per round, and has paused
/// one interval per round, no more and no less.
pub proof fn cadence_does_not_depend_on_outcomes(
    url: Seq<char>,
    trace: Trace,
    results: Seq<(Verdict, bool)>,
)
    requires
        trace.phase == EndpointPhase::Probing,
    ensures
        run(url, trace, rounds(results)).phase == EndpointPhase::Probing,
        run(url, trace, rounds(results)).clock == trace.clock + results.len()
            * PROBE_INTERVAL_SECONDS as nat,
        run(url, trace, rounds(results)).probes == trace.probes + results.len(),
    decreases results.len(),
{
    if results.len() > 0 {
        let earlier = results.drop_last();
        let last = results.last();
        cadence_does_not_depend_on_outcomes(url, trace, earlier);
        run_in_two_parts(url, trace, rounds(earlier), round(last.0, last.1));
        every_round_keeps_the_cadence(url, run(url, trace, rounds(earlier)), last.0, last.1);
        assert(results.len() * PROBE_INTERVAL_SECONDS as nat == earlier.len()
            * PROBE_INTERVAL_SECONDS as nat + PROBE_INTERVAL_SECONDS as nat) by (nonlinear_arith)
            requires
                results.len() == earlier.len() + 1,
        ;
    }
}

/// Two monitors do not touch each other: however their events interleave,
/// each ends where it would have ended alone with its own events. A failure
/// of one endpoint neither halts nor delays the probes of another.
pub proof fn monitors_run_independently(
    first_url: Seq<char>,
    second_url: Seq<char>,
    traces: (Trace, Trace),
    schedule: Seq<(bool, EventView)>,
)
    ensures
        run_pair(first_url, second_url, traces, schedule) == (
            run(first_url, traces.0, events_for(schedule, true)),
            run(second_url, traces.1, events_for(schedule, false)),
        ),
    decreases schedule.len(),
{
    if schedule.len() > 0 {
        let earlier = schedule.drop_last();
        let event = schedule.last().1;
        monitors_run_independently(first_url, second_url, traces, earlier);
        if schedule.last().0 {
            let own = events_for(earlier, true);
            assert(own.push(event).drop_last() =~= own);
            assert(own.push(event).last() == event);
        } else {
            let own = events_for(earlier, false);
            assert(own.push(event).drop_last() =~= own);
            assert(own.push(event).last() == event);
        }
    }
}

} // verus!
