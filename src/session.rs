use vstd::prelude::*;

verus! {

/// Pause before a session that failed is started again, in milliseconds.
pub const RESTART_DELAY_MS: u64 = 5000;

/// Pause between two registration attempts, in milliseconds.
pub const REGISTER_RETRY_MS: u64 = 5000;

/// Pause before polling again while the server reports the client inactive.
pub const POLL_INTERVAL_MS: u64 = 1000;

/// Where the session stands.
#[derive(Clone, Copy, Debug, PartialEq, Eq, Structural)]
pub enum Phase {
    /// No session; the next step starts one.
    Disconnected,
    /// Checking that the server answers.
    Connecting,
    /// Exchanging the device identity for a session.
    Registering,
    /// Registered; receiving data.
    Active,
}

/// What happened since the last step, as the transport reports it.
#[derive(Clone, Copy, Debug, PartialEq, Eq, Structural)]
pub enum Event {
    /// The supervisor was started.
    Started,
    /// The requested pause is over.
    Slept,
    /// The liveness probe got the expected answer.
    Alive,
    /// The liveness probe failed or got another answer.
    NotAlive,
    /// Registration succeeded and its asset bundle was taken over.
    Registered,
    /// Registration failed, for whatever reason.
    RegistrationFailed,
    /// A data message arrived and was handed to dispatch.
    Data,
    /// A long poll ended by an idle read timeout.
    IdleTimeout,
    /// The server knows the client but has not activated it.
    NotActive,
    /// The server does not know the client.
    NotRegistered,
    /// Any other failure of the transport.
    TransportFailed,
}

/// What the transport is asked to do next.
#[derive(Clone, Copy, Debug, PartialEq, Eq, Structural)]
pub enum Action {
    ProbeLiveness,
    Register,
    Poll,
    /// Pause for the given number of milliseconds, then report `Slept`.
    Sleep(u64),
}

/// The transition of the session supervisor.
pub open spec fn spec_step(phase: Phase, event: Event) -> (Phase, Action) {
    let restart = (Phase::Disconnected, Action::Sleep(RESTART_DELAY_MS));
    match phase {
        Phase::Disconnected => match event {
            Event::Started | Event::Slept => (Phase::Connecting, Action::ProbeLiveness),
            _ => restart,
        },
        Phase::Connecting => match event {
            Event::Alive => (Phase::Registering, Action::Register),
            _ => restart,
        },
        Phase::Registering => match event {
            Event::Registered => (Phase::Active, Action::Poll),
            Event::RegistrationFailed | Event::TransportFailed | Event::NotActive
            | Event::NotRegistered => (Phase::Registering, Action::Sleep(REGISTER_RETRY_MS)),
            Event::Slept => (Phase::Registering, Action::Register),
            _ => restart,
        },
        Phase::Active => match event {
            Event::Data | Event::IdleTimeout | Event::Slept => (Phase::Active, Action::Poll),
            Event::NotActive => (Phase::Active, Action::Sleep(POLL_INTERVAL_MS)),
            Event::NotRegistered => (Phase::Registering, Action::Register),
            _ => restart,
        },
    }
}

/// One decision of the supervisor: the next phase and what to do.
pub fn step(phase: Phase, event: Event) -> (r: (Phase, Action))
    ensures
        r == spec_step(phase, event),
{
    let restart = (Phase::Disconnected, Action::Sleep(RESTART_DELAY_MS));
    match phase {
        Phase::Disconnected => match event {
            Event::Started | Event::Slept => (Phase::Connecting, Action::ProbeLiveness),
            _ => restart,
        },
        Phase::Connecting => match event {
            Event::Alive => (Phase::Registering, Action::Register),
            _ => restart,
        },
        Phase::Registering => match event {
            Event::Registered => (Phase::Active, Action::Poll),
            Event::RegistrationFailed | Event::TransportFailed | Event::NotActive
            | Event::NotRegistered => (Phase::Registering, Action::Sleep(REGISTER_RETRY_MS)),
            Event::Slept => (Phase::Registering, Action::Register),
            _ => restart,
        },
        Phase::Active => match event {
            Event::Data | Event::IdleTimeout | Event::Slept => (Phase::Active, Action::Poll),
            Event::NotActive => (Phase::Active, Action::Sleep(POLL_INTERVAL_MS)),
            Event::NotRegistered => (Phase::Registering, Action::Register),
            _ => restart,
        },
    }
}

/// The phase reached from `phase` after the events `events`, in order.
pub open spec fn phase_after(phase: Phase, events: Seq<Event>) -> Phase
    decreases events.len(),
{
    if events.len() == 0 {
        phase
    } else {
        spec_step(phase_after(phase, events.drop_last()), events.last()).0
    }
}

/// The only way into the active phase is a successful registration: a
/// session that is not yet active stays out of it, and never polls, for as
/// long as no registration succeeds.
pub proof fn lemma_no_polling_before_registration(phase: Phase, events: Seq<Event>)
    requires
        phase != Phase::Active,
        forall|i: int| 0 <= i < events.len() ==> events[i] != Event::Registered,
    ensures
        forall|k: int|
            0 <= k <= events.len() ==> phase_after(phase, #[trigger] events.take(k)) != Phase::Active,
        forall|k: int|
            0 <= k < events.len() ==> spec_step(phase_after(phase, events.take(k)), #[trigger] events[k]).1
                != Action::Poll,
    decreases events.len(),
{
    if events.len() > 0 {
        let prefix = events.drop_last();
        lemma_no_polling_before_registration(phase, prefix);
        assert forall|k: int| 0 <= k <= events.len() implies phase_after(
            phase,
            #[trigger] events.take(k),
        ) != Phase::Active by {
            if k < events.len() {
                assert(events.take(k) =~= prefix.take(k));
            } else {
                assert(events.take(k) =~= events);
                assert(prefix.take(prefix.len() as int) =~= prefix);
                assert(events.take(k).drop_last() =~= prefix);
            }
        }
        assert forall|k: int| 0 <= k < events.len() implies spec_step(
            phase_after(phase, events.take(k)),
            #[trigger] events[k],
        ).1 != Action::Poll by {
            if k < prefix.len() {
                assert(events.take(k) =~= prefix.take(k));
                assert(events[k] == prefix[k]);
            } else {
                assert(events.take(k) =~= prefix);
                assert(prefix.take(prefix.len() as int) =~= prefix);
            }
        }
    }
}

/// How one request of the data loop ended.
#[derive(Clone, Copy, Debug, PartialEq, Eq, Structural)]
pub enum PollOutcome {
    /// An answer with data arrived, whether or not it decoded.
    Received,
    /// The server answered with this error status.
    Status(u16),
    /// The read timed out while the server held the request open.
    TimedOut,
    /// The request failed otherwise.
    Failed,
}

/// The event that a data request ending as `outcome` reports.
pub open spec fn poll_event_spec(outcome: PollOutcome) -> Event {
    match outcome {
        PollOutcome::Received => Event::Data,
        PollOutcome::Status(code) => if code == 403 {
            Event::NotActive
        } else if code == 404 {
            Event::NotRegistered
        } else if code < 400 {
            Event::Data
        } else {
            Event::TransportFailed
        },
        PollOutcome::TimedOut => Event::IdleTimeout,
        PollOutcome::Failed => Event::TransportFailed,
    }
}

pub fn poll_event(outcome: PollOutcome) -> (r: Event)
    ensures
        r == poll_event_spec(outcome),
{
    match outcome {
        PollOutcome::Received => Event::Data,
        PollOutcome::Status(code) => if code == 403 {
            Event::NotActive
        } else if code == 404 {
            Event::NotRegistered
        } else if code < 400 {
            Event::Data
        } else {
            Event::TransportFailed
        },
        PollOutcome::TimedOut => Event::IdleTimeout,
        PollOutcome::Failed => Event::TransportFailed,
    }
}

} // verus!
