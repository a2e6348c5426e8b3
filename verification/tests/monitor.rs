use price_monitor::error::{ExtractError, FetchError, PriceError};
use price_monitor::monitor::{Action, Monitor, Phase, Report};

fn price(s: &str) -> Result<String, PriceError> {
    Ok(s.to_string())
}

fn stored(monitor: &Monitor) -> Option<&str> {
    monitor.previous_price().map(|p| p.as_str())
}

const TRANSPORT: PriceError = PriceError::Fetch(FetchError::Transport);
const BAD_STATUS: PriceError = PriceError::Fetch(FetchError::BadStatus);
const MISSING: PriceError = PriceError::Extract(ExtractError::MissingField);
const INVALID: PriceError = PriceError::Extract(ExtractError::InvalidPayload);

#[test]
fn new_monitor_is_idle_and_stores_nothing() {
    let monitor = Monitor::new(5, true);
    assert_eq!(monitor.phase(), Phase::Idle);
    assert_eq!(monitor.interval(), 5);
    assert!(monitor.stop_on_change());
    assert_eq!(stored(&monitor), None);
    assert_eq!(monitor.pending(), Action::Halt);
}

#[test]
fn start_asks_for_the_baseline_at_once() {
    let mut monitor = Monitor::new(5, false);
    assert_eq!(monitor.start(), Action::Fetch { delay: 0 });
    assert_eq!(monitor.phase(), Phase::Polling);
    assert_eq!(stored(&monitor), None);
    assert_eq!(monitor.start(), Action::Fetch { delay: 0 });
    assert_eq!(monitor.phase(), Phase::Polling);
}

#[test]
fn baseline_is_stored_and_the_interval_applies_from_then_on() {
    let mut monitor = Monitor::new(7, false);
    monitor.start();
    assert_eq!(monitor.observe(price("1.0")), Report::Baseline { price: "1.0".to_string() });
    assert_eq!(stored(&monitor), Some("1.0"));
    assert_eq!(monitor.phase(), Phase::Polling);
    assert_eq!(monitor.pending(), Action::Fetch { delay: 7 });
    assert_eq!(monitor.start(), Action::Fetch { delay: 7 });
}

#[test]
fn failed_baseline_ends_the_run() {
    for error in [TRANSPORT, BAD_STATUS, MISSING, INVALID] {
        for stop in [false, true] {
            let mut monitor = Monitor::new(5, stop);
            monitor.start();
            assert_eq!(monitor.observe(Err(error)), Report::Aborted { error });
            assert_eq!(monitor.phase(), Phase::Terminated);
            assert_eq!(stored(&monitor), None);
            assert_eq!(monitor.pending(), Action::Halt);
            assert_eq!(monitor.observe(price("1.0")), Report::Ignored);
            assert_eq!(stored(&monitor), None);
        }
    }
}

#[test]
fn change_is_found_at_the_second_tick_and_stops_the_run() {
    let mut monitor = Monitor::new(5, true);
    monitor.start();
    assert_eq!(monitor.observe(price("1.0")), Report::Baseline { price: "1.0".to_string() });
    assert_eq!(monitor.observe(price("1.0")), Report::Unchanged);
    assert_eq!(monitor.phase(), Phase::Polling);
    assert_eq!(stored(&monitor), Some("1.0"));
    assert_eq!(
        monitor.observe(price("1.1")),
        Report::Changed { from: "1.0".to_string(), to: "1.1".to_string() }
    );
    assert_eq!(monitor.phase(), Phase::Terminated);
    assert_eq!(monitor.pending(), Action::Halt);
    assert_eq!(stored(&monitor), Some("1.1"));
}

#[test]
fn change_is_found_at_the_second_tick_and_polling_goes_on() {
    let mut monitor = Monitor::new(5, false);
    monitor.start();
    assert_eq!(monitor.observe(price("1.0")), Report::Baseline { price: "1.0".to_string() });
    assert_eq!(monitor.observe(price("1.0")), Report::Unchanged);
    assert_eq!(
        monitor.observe(price("1.1")),
        Report::Changed { from: "1.0".to_string(), to: "1.1".to_string() }
    );
    assert_eq!(monitor.phase(), Phase::Polling);
    assert_eq!(monitor.pending(), Action::Fetch { delay: 5 });
    assert_eq!(stored(&monitor), Some("1.1"));
    assert_eq!(monitor.observe(price("1.1")), Report::Unchanged);
    assert_eq!(
        monitor.observe(price("1.0")),
        Report::Changed { from: "1.1".to_string(), to: "1.0".to_string() }
    );
    assert_eq!(stored(&monitor), Some("1.0"));
}

#[test]
fn failed_tick_keeps_the_stored_price_and_the_run() {
    for stop in [false, true] {
        let mut monitor = Monitor::new(5, stop);
        monitor.start();
        monitor.observe(price("1.0"));
        for error in [TRANSPORT, BAD_STATUS, MISSING, INVALID] {
            assert_eq!(monitor.observe(Err(error)), Report::Failed { error });
            assert_eq!(monitor.phase(), Phase::Polling);
            assert_eq!(stored(&monitor), Some("1.0"));
            assert_eq!(monitor.pending(), Action::Fetch { delay: 5 });
        }
        assert_eq!(monitor.observe(price("1.0")), Report::Unchanged);
        assert_eq!(monitor.observe(Err(TRANSPORT)), Report::Failed { error: TRANSPORT });
        assert_eq!(
            monitor.observe(price("2.0")),
            Report::Changed { from: "1.0".to_string(), to: "2.0".to_string() }
        );
    }
}

#[test]
fn same_price_is_never_reported_as_a_change() {
    for stop in [false, true] {
        let mut monitor = Monitor::new(1, stop);
        monitor.start();
        monitor.observe(price("0.5"));
        for _ in 0..100 {
            assert_eq!(monitor.observe(price("0.5")), Report::Unchanged);
            assert_eq!(monitor.phase(), Phase::Polling);
            assert_eq!(stored(&monitor), Some("0.5"));
        }
    }
}

#[test]
fn prices_are_compared_as_text() {
    let mut monitor = Monitor::new(1, false);
    monitor.start();
    monitor.observe(price("1.0"));
    assert_eq!(
        monitor.observe(price("1.00")),
        Report::Changed { from: "1.0".to_string(), to: "1.00".to_string() }
    );
    assert_eq!(
        monitor.observe(price("1.00 ")),
        Report::Changed { from: "1.00".to_string(), to: "1.00 ".to_string() }
    );
    assert_eq!(
        monitor.observe(price("")),
        Report::Changed { from: "1.00 ".to_string(), to: String::new() }
    );
    assert_eq!(monitor.observe(price("")), Report::Unchanged);
}

#[test]
fn outcome_before_the_start_is_ignored() {
    let mut monitor = Monitor::new(5, false);
    assert_eq!(monitor.observe(price("1.0")), Report::Ignored);
    assert_eq!(monitor.observe(Err(TRANSPORT)), Report::Ignored);
    assert_eq!(monitor.phase(), Phase::Idle);
    assert_eq!(stored(&monitor), None);
}

#[test]
fn cancelled_monitor_is_finished_for_good() {
    let mut monitor = Monitor::new(5, false);
    monitor.start();
    monitor.observe(price("1.0"));
    monitor.cancel();
    assert_eq!(monitor.phase(), Phase::Terminated);
    assert_eq!(stored(&monitor), Some("1.0"));
    assert_eq!(monitor.pending(), Action::Halt);
    assert_eq!(monitor.observe(price("2.0")), Report::Ignored);
    assert_eq!(stored(&monitor), Some("1.0"));
    assert_eq!(monitor.start(), Action::Halt);
    assert_eq!(monitor.phase(), Phase::Terminated);

    let mut idle = Monitor::new(5, false);
    idle.cancel();
    assert_eq!(idle.phase(), Phase::Terminated);
    assert_eq!(idle.start(), Action::Halt);
}

#[test]
fn zero_interval_is_a_valid_configuration() {
    let mut monitor = Monitor::new(0, false);
    monitor.start();
    monitor.observe(price("1"));
    assert_eq!(monitor.pending(), Action::Fetch { delay: 0 });
    let mut monitor = Monitor::new(u64::MAX, false);
    monitor.start();
    monitor.observe(price("1"));
    assert_eq!(monitor.pending(), Action::Fetch { delay: u64::MAX });
}

#[test]
fn recorded_run_is_replayed_outcome_by_outcome() {
    let run = vec![
        price("1.0"),
        price("1.0"),
        Err(TRANSPORT),
        price("1.2"),
        Err(MISSING),
        price("1.2"),
    ];
    let mut monitor = Monitor::new(3, false);
    monitor.start();
    let reports = monitor.observe_all(&run);
    assert_eq!(
        reports,
        vec![
            Report::Baseline { price: "1.0".to_string() },
            Report::Unchanged,
            Report::Failed { error: TRANSPORT },
            Report::Changed { from: "1.0".to_string(), to: "1.2".to_string() },
            Report::Failed { error: MISSING },
            Report::Unchanged,
        ]
    );
    assert_eq!(monitor.phase(), Phase::Polling);
    assert_eq!(stored(&monitor), Some("1.2"));

    let mut stopping = Monitor::new(3, true);
    stopping.start();
    let reports = stopping.observe_all(&run);
    assert_eq!(
        reports,
        vec![
            Report::Baseline { price: "1.0".to_string() },
            Report::Unchanged,
            Report::Failed { error: TRANSPORT },
            Report::Changed { from: "1.0".to_string(), to: "1.2".to_string() },
            Report::Ignored,
            Report::Ignored,
        ]
    );
    assert_eq!(stopping.phase(), Phase::Terminated);
    assert_eq!(stored(&stopping), Some("1.2"));

    let mut idle = Monitor::new(3, true);
    assert_eq!(idle.observe_all(&vec![]), vec![]);
    assert_eq!(idle.observe_all(&run).len(), run.len());
    assert_eq!(idle.phase(), Phase::Idle);
}
