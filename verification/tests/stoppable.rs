use hetu::base::stoppable::{
    stop_mode, ForceSignal, Lifecycle, ServiceState, StopMode, Stoppable,
};
use hetu::error::HetuError;

#[test]
fn service_starts_once() {
    let mut life = Lifecycle::new();
    assert_eq!(life.current(), ServiceState::Created);
    assert_eq!(life.start(), Ok(()));
    assert_eq!(life.current(), ServiceState::Started);
    assert_eq!(
        life.start(),
        Err(HetuError::Internal("service already started".to_string()))
    );
    assert_eq!(life.current(), ServiceState::Started);
}

#[test]
fn service_stops_once() {
    let mut life = Lifecycle::new();
    life.start().unwrap();
    assert_eq!(life.stop(None), Ok(()));
    assert_eq!(life.current(), ServiceState::Stopped);
    assert_eq!(
        life.stop(None),
        Err(HetuError::Internal("service already stopped".to_string()))
    );
    assert_eq!(life.current(), ServiceState::Stopped);
}

#[test]
fn stop_before_start_is_refused() {
    let mut life = Lifecycle::new();
    assert_eq!(
        life.stop(None),
        Err(HetuError::Internal("service not started".to_string()))
    );
    assert_eq!(life.current(), ServiceState::Created);
    assert_eq!(life.start(), Ok(()));
}

#[test]
fn start_after_stop_is_refused() {
    let mut life = Lifecycle::new();
    life.start().unwrap();
    life.stop(Some(ForceSignal::new())).unwrap();
    assert_eq!(
        life.start(),
        Err(HetuError::Internal("service already stopped".to_string()))
    );
    assert_eq!(life.current(), ServiceState::Stopped);
}

#[test]
fn force_signal_can_be_sent_twice() {
    let mut signal = ForceSignal::new();
    assert!(!signal.sent());
    signal.send();
    assert!(signal.sent());
    let once = signal;
    signal.send();
    assert!(signal.sent());
    assert_eq!(signal, once);
}

#[test]
fn stop_drains_until_force_is_sent() {
    assert_eq!(stop_mode(None), StopMode::Drain);
    let mut signal = ForceSignal::new();
    assert_eq!(stop_mode(Some(signal)), StopMode::Drain);
    signal.send();
    assert_eq!(stop_mode(Some(signal)), StopMode::Abandon);
}
