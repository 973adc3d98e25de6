//! Start-up of the GPU session: an adapter that can present to the window's
//! surface is asked for, then a device with one queue. Either request can
//! fail, and a failure is final.

use vstd::prelude::*;

verus! {

/// The kind of adapter that is preferred where several are available.
#[derive(Clone, Copy, Debug, PartialEq, Eq, Structural)]
pub enum PowerPreference {
    LowPower,
    HighPerformance,
}

/// What the caller may choose about the session.
#[derive(Clone, Copy, Debug, PartialEq, Eq, Structural)]
pub struct SessionOptions {
    pub power_preference: PowerPreference,
    /// Whether a software adapter is asked for in place of a hardware one.
    pub force_fallback_adapter: bool,
}

impl Default for SessionOptions {
    /// A high-performance hardware adapter.
    fn default() -> (options: SessionOptions)
        ensures
            options == (SessionOptions {
                power_preference: PowerPreference::HighPerformance,
                force_fallback_adapter: false,
            }),
    {
        SessionOptions {
            power_preference: PowerPreference::HighPerformance,
            force_fallback_adapter: false,
        }
    }
}

/// The request for an adapter.
#[derive(Clone, Copy, Debug, PartialEq, Eq, Structural)]
pub struct AdapterRequest {
    pub power_preference: PowerPreference,
    pub force_fallback_adapter: bool,
    /// Whether the adapter must be able to present to the window's surface.
    pub compatible_surface: bool,
}

/// A named set of device limits.
#[derive(Clone, Copy, Debug, PartialEq, Eq, Structural)]
pub enum LimitsProfile {
    Default,
    DownlevelDefaults,
    DownlevelWebGl2Defaults,
}

/// The request for a device and its queue.
#[derive(Clone, Copy, Debug, PartialEq, Eq, Structural)]
pub struct DeviceRequest {
    /// The optional features asked for, one bit each.
    pub features: u64,
    pub limits: LimitsProfile,
}

/// Why no session came about.
#[derive(Clone, Copy, Debug, PartialEq, Eq, Structural)]
pub enum InitError {
    /// No adapter can present to the surface.
    NoAdapter,
    /// The adapter refused the device.
    DeviceRequestFailed,
}

/// How far start-up has come.
#[derive(Clone, Copy, Debug, PartialEq, Eq, Structural)]
pub enum SessionPhase {
    Created,
    RequestingAdapter,
    RequestingDevice,
    Ready,
    Failed(InitError),
}

/// What the embedding program reports during start-up.
#[derive(Clone, Copy, Debug, PartialEq, Eq, Structural)]
pub enum SessionEvent {
    /// The surface exists; start-up may begin.
    Begin,
    AdapterFound,
    AdapterMissing,
    DeviceGranted,
    DeviceRejected,
}

/// What the embedding program is to do next during start-up.
#[derive(Clone, Copy, Debug, PartialEq, Eq, Structural)]
pub enum SessionAction {
    RequestAdapter(AdapterRequest),
    RequestDevice(DeviceRequest),
    /// Device and queue are there: go on to configure the surface.
    Proceed,
    /// Start-up failed for good.
    Abort(InitError),
    /// The event does not belong to the current phase; nothing changes.
    Ignore,
}

/// The adapter request that the options lead to: always one that can present
/// to the window's surface.
pub open spec fn adapter_request(options: SessionOptions) -> AdapterRequest {
    AdapterRequest {
        power_preference: options.power_preference,
        force_fallback_adapter: options.force_fallback_adapter,
        compatible_surface: true,
    }
}

/// The device request: no optional feature, default limits.
pub open spec fn device_request() -> DeviceRequest {
    DeviceRequest { features: 0, limits: LimitsProfile::Default }
}

/// One step of start-up: the phase after `event`, and what to do.
pub open spec fn session_step(
    options: SessionOptions,
    phase: SessionPhase,
    event: SessionEvent,
) -> (SessionPhase, SessionAction) {
    match (phase, event) {
        (SessionPhase::Created, SessionEvent::Begin) => (
            SessionPhase::RequestingAdapter,
            SessionAction::RequestAdapter(adapter_request(options)),
        ),
        (SessionPhase::RequestingAdapter, SessionEvent::AdapterFound) => (
            SessionPhase::RequestingDevice,
            SessionAction::RequestDevice(device_request()),
        ),
        (SessionPhase::RequestingAdapter, SessionEvent::AdapterMissing) => (
            SessionPhase::Failed(InitError::NoAdapter),
            SessionAction::Abort(InitError::NoAdapter),
        ),
        (SessionPhase::RequestingDevice, SessionEvent::DeviceGranted) => (
            SessionPhase::Ready,
            SessionAction::Proceed,
        ),
        (SessionPhase::RequestingDevice, SessionEvent::DeviceRejected) => (
            SessionPhase::Failed(InitError::DeviceRequestFailed),
            SessionAction::Abort(InitError::DeviceRequestFailed),
        ),
        _ => (phase, SessionAction::Ignore),
    }
}

/// The phase after a run of events.
pub open spec fn session_run(
    options: SessionOptions,
    phase: SessionPhase,
    events: Seq<SessionEvent>,
) -> SessionPhase
    decreases events.len(),
{
    if events.len() == 0 {
        phase
    } else {
        session_step(options, session_run(options, phase, events.drop_last()), events.last()).0
    }
}

/// The outcome that a phase stands for: none while start-up is under way.
pub open spec fn outcome(phase: SessionPhase) -> Option<Result<(), InitError>> {
    match phase {
        SessionPhase::Ready => Some(Ok(())),
        SessionPhase::Failed(error) => Some(Err(error)),
        _ => None,
    }
}

/// The start-up of one GPU session.
pub struct GpuSession {
    options: SessionOptions,
    phase: SessionPhase,
}

impl View for GpuSession {
    type V = SessionPhase;

    /// The phase that start-up is in.
    closed spec fn view(&self) -> SessionPhase {
        self.phase
    }
}

impl GpuSession {
    /// The options that the session was created with.
    pub closed spec fn chosen(&self) -> SessionOptions {
        self.options
    }

    /// A session on which nothing has been requested yet.
    pub fn initialize(options: SessionOptions) -> (session: GpuSession)
        ensures
            session@ == SessionPhase::Created,
            session.chosen() == options,
    {
        GpuSession { options, phase: SessionPhase::Created }
    }

    /// Takes what the embedding program reports and says what to do next.
    pub fn step(&mut self, event: SessionEvent) -> (action: SessionAction)
        ensures
            (final(self)@, action) == session_step(old(self).chosen(), old(self)@, event),
            final(self).chosen() == old(self).chosen(),
    {
        let (phase, action) = match (self.phase, event) {
            (SessionPhase::Created, SessionEvent::Begin) => (
                SessionPhase::RequestingAdapter,
                SessionAction::RequestAdapter(
                    AdapterRequest {
                        power_preference: self.options.power_preference,
                        force_fallback_adapter: self.options.force_fallback_adapter,
                        compatible_surface: true,
                    },
                ),
            ),
            (SessionPhase::RequestingAdapter, SessionEvent::AdapterFound) => (
                SessionPhase::RequestingDevice,
                SessionAction::RequestDevice(
                    DeviceRequest { features: 0, limits: LimitsProfile::Default },
                ),
            ),
            (SessionPhase::RequestingAdapter, SessionEvent::AdapterMissing) => (
                SessionPhase::Failed(InitError::NoAdapter),
                SessionAction::Abort(InitError::NoAdapter),
            ),
            (SessionPhase::RequestingDevice, SessionEvent::DeviceGranted) => (
                SessionPhase::Ready,
                SessionAction::Proceed,
            ),
            (SessionPhase::RequestingDevice, SessionEvent::DeviceRejected) => (
                SessionPhase::Failed(InitError::DeviceRequestFailed),
                SessionAction::Abort(InitError::DeviceRequestFailed),
            ),
            (phase, _) => (phase, SessionAction::Ignore),
        };
        self.phase = phase;
        action
    }

    /// The phase that start-up is in.
    pub fn phase(&self) -> (phase: SessionPhase)
        ensures
            phase == self@,
    {
        self.phase
    }

    /// The options that the session was created with.
    pub fn options(&self) -> (options: SessionOptions)
        ensures
            options == self.chosen(),
    {
        self.options
    }

    /// How start-up ended: `None` while it is under way, `Some(Ok(()))` once
    /// device and queue are there, `Some(Err(..))` once a request failed.
    pub fn result(&self) -> (result: Option<Result<(), InitError>>)
        ensures
            result == outcome(self@),
    {
        match self.phase {
            SessionPhase::Ready => Some(Ok(())),
            SessionPhase::Failed(error) => Some(Err(error)),
            _ => None,
        }
    }
}

/// Once start-up has ended, in success or in failure, no event changes the
/// phase or asks for anything.
pub proof fn lemma_outcome_is_final(
    options: SessionOptions,
    phase: SessionPhase,
    event: SessionEvent,
)
    requires
        outcome(phase).is_some(),
    ensures
        session_step(options, phase, event) == (phase, SessionAction::Ignore),
{
}

/// Start-up succeeds exactly where an adapter is found and it grants the
/// device. Without an adapter it fails with `NoAdapter` and no device is
/// ever requested; with an adapter that refuses, it fails with
/// `DeviceRequestFailed`.
pub proof fn lemma_outcome_of_requests(
    options: SessionOptions,
    adapter_found: bool,
    device_granted: bool,
)
    ensures
        ({
            let begun = session_step(options, SessionPhase::Created, SessionEvent::Begin);
            let adapter = session_step(
                options,
                begun.0,
                if adapter_found {
                    SessionEvent::AdapterFound
                } else {
                    SessionEvent::AdapterMissing
                },
            );
            let device = session_step(
                options,
                adapter.0,
                if device_granted {
                    SessionEvent::DeviceGranted
                } else {
                    SessionEvent::DeviceRejected
                },
            );
            &&& begun.1 == SessionAction::RequestAdapter(adapter_request(options))
            &&& adapter_found ==> adapter.1 == SessionAction::RequestDevice(device_request())
            &&& !adapter_found ==> adapter.1 == SessionAction::Abort(InitError::NoAdapter)
                && device.1 == SessionAction::Ignore
            &&& outcome(device.0) == if !adapter_found {
                Some(Err::<(), InitError>(InitError::NoAdapter))
            } else if !device_granted {
                Some(Err::<(), InitError>(InitError::DeviceRequestFailed))
            } else {
                Some(Ok::<(), InitError>(()))
            }
        }),
{
}

/// A session that has ended stays as it is, whatever is reported afterwards.
pub proof fn lemma_ended_session_stays(
    options: SessionOptions,
    phase: SessionPhase,
    events: Seq<SessionEvent>,
)
    requires
        outcome(phase).is_some(),
    ensures
        session_run(options, phase, events) == phase,
    decreases events.len(),
{
    if events.len() > 0 {
        lemma_ended_session_stays(options, phase, events.drop_last());
    }
}

} // verus!
