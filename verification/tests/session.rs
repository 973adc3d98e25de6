use triangle_renderer::session::{
    AdapterRequest, DeviceRequest, GpuSession, InitError, LimitsProfile, PowerPreference,
    SessionAction, SessionEvent, SessionOptions, SessionPhase,
};

#[test]
fn default_options_prefer_fast_hardware() {
    assert_eq!(
        SessionOptions::default(),
        SessionOptions {
            power_preference: PowerPreference::HighPerformance,
            force_fallback_adapter: false,
        }
    );
}

#[test]
fn new_session_has_requested_nothing() {
    let session = GpuSession::initialize(SessionOptions::default());
    assert_eq!(session.phase(), SessionPhase::Created);
    assert_eq!(session.options(), SessionOptions::default());
    assert_eq!(session.result(), None);
}

#[test]
fn startup_succeeds_with_adapter_and_device() {
    let mut session = GpuSession::initialize(SessionOptions::default());
    assert_eq!(
        session.step(SessionEvent::Begin),
        SessionAction::RequestAdapter(AdapterRequest {
            power_preference: PowerPreference::HighPerformance,
            force_fallback_adapter: false,
            compatible_surface: true,
        })
    );
    assert_eq!(session.phase(), SessionPhase::RequestingAdapter);
    assert_eq!(session.result(), None);
    assert_eq!(
        session.step(SessionEvent::AdapterFound),
        SessionAction::RequestDevice(DeviceRequest { features: 0, limits: LimitsProfile::Default })
    );
    assert_eq!(session.phase(), SessionPhase::RequestingDevice);
    assert_eq!(session.result(), None);
    assert_eq!(session.step(SessionEvent::DeviceGranted), SessionAction::Proceed);
    assert_eq!(session.phase(), SessionPhase::Ready);
    assert_eq!(session.result(), Some(Ok(())));
}

#[test]
fn adapter_request_follows_the_options() {
    let options = SessionOptions {
        power_preference: PowerPreference::LowPower,
        force_fallback_adapter: true,
    };
    let mut session = GpuSession::initialize(options);
    assert_eq!(
        session.step(SessionEvent::Begin),
        SessionAction::RequestAdapter(AdapterRequest {
            power_preference: PowerPreference::LowPower,
            force_fallback_adapter: true,
            compatible_surface: true,
        })
    );
    assert_eq!(session.options(), options);
}

#[test]
fn startup_fails_without_adapter() {
    let mut session = GpuSession::initialize(SessionOptions::default());
    session.step(SessionEvent::Begin);
    assert_eq!(
        session.step(SessionEvent::AdapterMissing),
        SessionAction::Abort(InitError::NoAdapter)
    );
    assert_eq!(session.phase(), SessionPhase::Failed(InitError::NoAdapter));
    assert_eq!(session.result(), Some(Err(InitError::NoAdapter)));
}

#[test]
fn startup_fails_when_device_is_refused() {
    let mut session = GpuSession::initialize(SessionOptions::default());
    session.step(SessionEvent::Begin);
    session.step(SessionEvent::AdapterFound);
    assert_eq!(
        session.step(SessionEvent::DeviceRejected),
        SessionAction::Abort(InitError::DeviceRequestFailed)
    );
    assert_eq!(session.phase(), SessionPhase::Failed(InitError::DeviceRequestFailed));
    assert_eq!(session.result(), Some(Err(InitError::DeviceRequestFailed)));
}

#[test]
fn failure_is_final() {
    let mut session = GpuSession::initialize(SessionOptions::default());
    session.step(SessionEvent::Begin);
    session.step(SessionEvent::AdapterMissing);
    for event in [
        SessionEvent::Begin,
        SessionEvent::AdapterFound,
        SessionEvent::AdapterMissing,
        SessionEvent::DeviceGranted,
        SessionEvent::DeviceRejected,
    ] {
        assert_eq!(session.step(event), SessionAction::Ignore);
        assert_eq!(session.result(), Some(Err(InitError::NoAdapter)));
    }
}

#[test]
fn success_is_final() {
    let mut session = GpuSession::initialize(SessionOptions::default());
    session.step(SessionEvent::Begin);
    session.step(SessionEvent::AdapterFound);
    session.step(SessionEvent::DeviceGranted);
    for event in [
        SessionEvent::Begin,
        SessionEvent::AdapterFound,
        SessionEvent::AdapterMissing,
        SessionEvent::DeviceGranted,
        SessionEvent::DeviceRejected,
    ] {
        assert_eq!(session.step(event), SessionAction::Ignore);
        assert_eq!(session.result(), Some(Ok(())));
    }
}

#[test]
fn events_out_of_turn_are_ignored() {
    let mut session = GpuSession::initialize(SessionOptions::default());
    assert_eq!(session.step(SessionEvent::AdapterFound), SessionAction::Ignore);
    assert_eq!(session.step(SessionEvent::DeviceGranted), SessionAction::Ignore);
    assert_eq!(session.phase(), SessionPhase::Created);
    session.step(SessionEvent::Begin);
    assert_eq!(session.step(SessionEvent::Begin), SessionAction::Ignore);
    assert_eq!(session.step(SessionEvent::DeviceGranted), SessionAction::Ignore);
    assert_eq!(session.step(SessionEvent::DeviceRejected), SessionAction::Ignore);
    assert_eq!(session.phase(), SessionPhase::RequestingAdapter);
    session.step(SessionEvent::AdapterFound);
    assert_eq!(session.step(SessionEvent::AdapterMissing), SessionAction::Ignore);
    assert_eq!(session.step(SessionEvent::AdapterFound), SessionAction::Ignore);
    assert_eq!(session.phase(), SessionPhase::RequestingDevice);
}
