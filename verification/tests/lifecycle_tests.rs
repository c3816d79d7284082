use watchdog::endpoint_monitor::{EndpointAction, EndpointPhase};
use watchdog::lifecycle::{launch_endpoint_monitors, Lifecycle, Signal};

#[test]
fn one_monitor_per_url_in_order() {
    let urls = vec![
        String::from("https://a.example.org"),
        String::from("https://b.example.org"),
        String::from("https://a.example.org"),
    ];
    let monitors = launch_endpoint_monitors(&urls);
    assert_eq!(monitors.len(), 3);
    let mut i = 0;
    while i < urls.len() {
        assert_eq!(monitors[i].0.url(), urls[i]);
        assert_eq!(monitors[i].0.phase(), EndpointPhase::Probing);
        assert_eq!(monitors[i].1, EndpointAction::Probe);
        i += 1;
    }
}

#[test]
fn no_url_no_monitor() {
    assert!(launch_endpoint_monitors(&Vec::new()).is_empty());
}

#[test]
fn the_first_signal_ends_the_run() {
    let mut lifecycle = Lifecycle::Running;
    assert_eq!(lifecycle.handle_termination(Signal::Terminate), Some(Signal::Terminate));
    assert_eq!(lifecycle, Lifecycle::Stopped { by: Signal::Terminate });
}

#[test]
fn a_later_signal_changes_nothing() {
    let mut lifecycle = Lifecycle::Running;
    assert_eq!(lifecycle.handle_termination(Signal::Interrupt), Some(Signal::Interrupt));
    assert_eq!(lifecycle.handle_termination(Signal::Terminate), None);
    assert_eq!(lifecycle.handle_termination(Signal::Interrupt), None);
    assert_eq!(lifecycle, Lifecycle::Stopped { by: Signal::Interrupt });
}
