use machine_core::service::{ServiceError, ServiceState, ServiceStateTransition};

#[derive(Debug, Default)]
struct Notifier {
    started: bool,
    running: bool,
    draining: bool,
    stopped: bool,
}

impl ServiceStateTransition for Notifier {
    fn will_start(&mut self, state: &ServiceState) {
        assert_eq!(true, state.can_start());
        self.started = true;
    }
    fn will_run(&mut self, state: &ServiceState) {
        assert_eq!(true, state.can_run());
        self.running = true;
    }
    fn will_drain(&mut self, state: &ServiceState) {
        assert_eq!(true, state.can_drain());
        self.draining = true;
    }
    fn will_stop(&mut self, state: &ServiceState) {
        assert_eq!(true, state.can_stop());
        self.stopped = true;
    }
}

#[test]
fn it_works() {
    assert_eq!(2 + 2, 4);
}

#[test]
fn service_state_advance() {
    let mut state = ServiceState::default();
    assert_eq!(state, ServiceState::Init);
    assert_eq!(false, state.is_running());

    assert_eq!(true, state.start().is_ok());
    assert_eq!(state, ServiceState::Started);
    assert_eq!(false, state.is_running());

    assert_eq!(true, state.run().is_ok());
    assert_eq!(state, ServiceState::Running);
    assert_eq!(true, state.is_running());

    assert_eq!(true, state.drain().is_ok());
    assert_eq!(state, ServiceState::Draining);
    assert_eq!(false, state.is_running());

    assert_eq!(true, state.stop().is_ok());
    assert_eq!(state, ServiceState::Stopped);
    assert_eq!(false, state.is_running());
}

#[test]
fn service_state_advance_init() {
    let mut notifier = Notifier::default();
    let mut state = ServiceState::default();
    assert_eq!(state, ServiceState::Init);

    let test_state = ServiceState::Init;
    state = test_state;
    assert_eq!(true, state.can_start());
    assert_eq!(true, state.can_stop());
    assert_eq!(false, state.can_drain());
    assert_eq!(false, state.can_run());

    state = test_state;
    assert_eq!(true, state.start_with_notification(Some(&mut notifier)).is_ok());
    assert_eq!(true, notifier.started);
    assert_eq!(state, ServiceState::Started);

    state = test_state;
    assert_eq!(false, state.run_with_notification(Some(&mut notifier)).is_ok());
    assert_eq!(false, notifier.running);
    assert_eq!(state, test_state);

    state = test_state;
    assert_eq!(false, state.drain_with_notification(Some(&mut notifier)).is_ok());
    assert_eq!(false, notifier.draining);
    assert_eq!(state, test_state);

    state = test_state;
    assert_eq!(true, state.stop_with_notification(Some(&mut notifier)).is_ok());
    assert_eq!(true, notifier.stopped);
    assert_eq!(state, ServiceState::Stopped);
}

#[test]
fn service_state_advance_started() {
    let mut notifier = Notifier::default();
    let test_state = ServiceState::Started;
    let mut state = test_state;
    assert_eq!(false, state.can_start());
    assert_eq!(true, state.can_stop());
    assert_eq!(false, state.can_drain());
    assert_eq!(true, state.can_run());

    state = test_state;
    assert_eq!(false, state.start_with_notification(Some(&mut notifier)).is_ok());
    assert_eq!(false, notifier.started);
    assert_eq!(state, test_state);

    state = test_state;
    assert_eq!(true, state.run_with_notification(Some(&mut notifier)).is_ok());
    assert_eq!(true, notifier.running);
    assert_eq!(state, ServiceState::Running);

    state = test_state;
    assert_eq!(false, state.drain_with_notification(Some(&mut notifier)).is_ok());
    assert_eq!(false, notifier.draining);
    assert_eq!(state, test_state);

    state = test_state;
    assert_eq!(true, state.stop_with_notification(Some(&mut notifier)).is_ok());
    assert_eq!(true, notifier.stopped);
    assert_eq!(state, ServiceState::Stopped);
}

#[test]
fn service_state_advance_running() {
    let mut notifier = Notifier::default();
    let test_state = ServiceState::Running;
    let mut state = test_state;
    assert_eq!(false, state.can_start());
    assert_eq!(true, state.can_stop());
    assert_eq!(true, state.can_drain());
    assert_eq!(false, state.can_run());

    state = test_state;
    assert_eq!(false, state.start_with_notification(Some(&mut notifier)).is_ok());
    assert_eq!(false, notifier.started);
    assert_eq!(state, test_state);

    state = test_state;
    assert_eq!(false, state.run_with_notification(Some(&mut notifier)).is_ok());
    assert_eq!(false, notifier.running);
    assert_eq!(state, test_state);

    state = test_state;
    assert_eq!(true, state.drain_with_notification(Some(&mut notifier)).is_ok());
    assert_eq!(true, notifier.draining);
    assert_eq!(state, ServiceState::Draining);

    state = test_state;
    assert_eq!(true, state.stop_with_notification(Some(&mut notifier)).is_ok());
    assert_eq!(true, notifier.stopped);
    assert_eq!(state, ServiceState::Stopped);
}

#[test]
fn service_state_advance_draining() {
    let mut notifier = Notifier::default();
    let test_state = ServiceState::Draining;
    let mut state = test_state;
    assert_eq!(false, state.can_start());
    assert_eq!(true, state.can_stop());
    assert_eq!(false, state.can_drain());
    assert_eq!(false, state.can_run());

    state = test_state;
    assert_eq!(false, state.start_with_notification(Some(&mut notifier)).is_ok());
    assert_eq!(false, notifier.started);
    assert_eq!(state, test_state);

    state = test_state;
    assert_eq!(false, state.run_with_notification(Some(&mut notifier)).is_ok());
    assert_eq!(false, notifier.running);
    assert_eq!(state, test_state);

    state = test_state;
    assert_eq!(false, state.drain_with_notification(Some(&mut notifier)).is_ok());
    assert_eq!(false, notifier.draining);
    assert_eq!(state, test_state);

    state = test_state;
    assert_eq!(true, state.stop_with_notification(Some(&mut notifier)).is_ok());
    assert_eq!(true, notifier.stopped);
    assert_eq!(state, ServiceState::Stopped);
}

#[test]
fn service_state_advance_stopped() {
    let mut notifier = Notifier::default();
    let test_state = ServiceState::Stopped;
    let mut state = test_state;
    assert_eq!(false, state.can_start());
    assert_eq!(false, state.can_stop());
    assert_eq!(false, state.can_drain());
    assert_eq!(false, state.can_run());

    state = test_state;
    assert_eq!(false, state.start_with_notification(Some(&mut notifier)).is_ok());
    assert_eq!(false, notifier.started);
    assert_eq!(state, test_state);

    state = test_state;
    assert_eq!(false, state.run_with_notification(Some(&mut notifier)).is_ok());
    assert_eq!(false, notifier.running);
    assert_eq!(state, test_state);

    state = test_state;
    assert_eq!(false, state.drain_with_notification(Some(&mut notifier)).is_ok());
    assert_eq!(false, notifier.draining);
    assert_eq!(state, test_state);

    state = test_state;
    assert_eq!(false, state.stop_with_notification(Some(&mut notifier)).is_ok());
    assert_eq!(false, notifier.stopped);
    assert_eq!(state, test_state);
}

#[test]
fn invalid_transition_reports_current_and_attempted() {
    let mut state = ServiceState::Stopped;
    match state.start() {
        Err(ServiceError::InvalidStateTransition(current, attempted)) => {
            assert_eq!(current, ServiceState::Stopped);
            assert_eq!(attempted, ServiceState::Started);
        }
        _ => panic!("expected an invalid-transition error"),
    }
    let mut state = ServiceState::Draining;
    match state.run() {
        Err(ServiceError::InvalidStateTransition(current, attempted)) => {
            assert_eq!(current, ServiceState::Draining);
            assert_eq!(attempted, ServiceState::Running);
        }
        _ => panic!("expected an invalid-transition error"),
    }
}
