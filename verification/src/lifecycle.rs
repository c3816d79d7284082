//! Startup and shutdown: which monitors are started, and what a termination
//! signal does.

use crate::endpoint_monitor::{
    ActionView, EndpointAction, EndpointMonitor, EndpointPhase, MonitorState,
};
use vstd::prelude::*;

verus! {

/// A request to terminate the process.
#[derive(Clone, Copy, Debug, PartialEq, Eq, Structural)]
pub enum Signal {
    /// An interrupt from the terminal.
    Interrupt,
    /// A request to terminate.
    Terminate,
}

/// Whether the process is still wanted.
#[derive(Clone, Copy, Debug, PartialEq, Eq, Structural)]
pub enum Lifecycle {
    /// The monitors run.
    Running,
    /// This signal has ended the run.
    Stopped { by: Signal },
}

/// One monitor per URL, in the order of the URLs, each about to make its
/// first probe. No monitor holds anything of another.
pub fn launch_endpoint_monitors(urls: &Vec<String>) -> (monitors: Vec<
    (EndpointMonitor, EndpointAction),
>)
    ensures
        monitors@.len() == urls@.len(),
        forall|i: int|
            0 <= i < urls@.len() ==> {
                &&& (#[trigger] monitors@[i]).0@ == (MonitorState {
                    url: urls@[i]@,
                    phase: EndpointPhase::Probing,
                })
                &&& monitors@[i].1@ == ActionView::Probe
            },
{
    let mut monitors: Vec<(EndpointMonitor, EndpointAction)> = Vec::new();
    let mut i: usize = 0;
    while i < urls.len()
        invariant
            i <= urls.len(),
            monitors@.len() == i,
            forall|j: int|
                0 <= j < i ==> {
                    &&& (#[trigger] monitors@[j]).0@ == (MonitorState {
                        url: urls@[j]@,
                        phase: EndpointPhase::Probing,
                    })
                    &&& monitors@[j].1@ == ActionView::Probe
                },
        decreases urls.len() - i,
    {
        monitors.push(EndpointMonitor::start(urls[i].clone()));
        i += 1;
    }
    monitors
}

impl Lifecycle {
    /// Takes a termination signal. The first one ends the run and is handed
    /// back as the reason; any later one changes nothing.
    pub fn handle_termination(&mut self, signal: Signal) -> (reason: Option<Signal>)
        ensures
            *old(self) is Running ==> *final(self) == (Lifecycle::Stopped { by: signal }) && reason
                == Some(signal),
            *old(self) is Stopped ==> *final(self) == *old(self) && reason is None,
    {
        match self {
            Lifecycle::Running => {
                *self = Lifecycle::Stopped { by: signal };
                Some(signal)
            },
            Lifecycle::Stopped { .. } => None,
        }
    }
}

} // verus!
