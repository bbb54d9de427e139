use sensor_display::history::{SensorHistory, HISTORY_CAP};
use sensor_display::mailbox::Mailbox;
use sensor_display::render_guard::RenderGuard;
use sensor_display::session::{
    poll_event, step, Action, Event, Phase, PollOutcome, POLL_INTERVAL_MS, REGISTER_RETRY_MS,
    RESTART_DELAY_MS,
};

#[test]
fn history_keeps_min_of_inserted_and_cap() {
    for cap in 1..5usize {
        for k in 0..9u32 {
            let mut h = SensorHistory::with_cap(cap);
            for i in 0..k {
                h.record(i);
            }
            assert_eq!(h.len(), std::cmp::min(k as usize, cap));
            if k > 0 {
                assert_eq!(h.frames()[0], k - 1);
            }
        }
    }
}

#[test]
fn history_is_newest_first_and_drops_the_tail() {
    let mut h = SensorHistory::with_cap(3);
    for i in 1..=5u32 {
        h.record(i);
    }
    assert_eq!(h.frames(), &[5, 4, 3]);
}

#[test]
fn history_default_cap_is_one_thousand() {
    let mut h = SensorHistory::new();
    assert_eq!(h.cap(), HISTORY_CAP);
    assert_eq!(HISTORY_CAP, 1000);
    for i in 0..1001u32 {
        h.record(i);
    }
    assert_eq!(h.len(), 1000);
    assert_eq!(h.frames()[0], 1000);
    assert_eq!(h.frames()[999], 1);
}

#[test]
fn second_render_while_busy_is_dropped_and_third_supersedes() {
    let mut guard = RenderGuard::new();
    let mut mailbox = Mailbox::new();
    // first submission starts a job
    assert!(guard.try_begin());
    // second one, 200 ms later, finds the job running
    assert!(!guard.try_begin());
    assert!(guard.is_busy());
    // the first job ends and publishes
    let first = mailbox.publish(1_000, vec![1]).unwrap();
    guard.finish();
    assert!(!guard.is_busy());
    // a third submission after completion is accepted
    assert!(guard.try_begin());
    let third = mailbox.publish(3_000, vec![3]).unwrap();
    guard.finish();
    assert!(third > first);
    assert_eq!(mailbox.take(), Some((3_000, vec![3])));
    assert!(mailbox.is_empty());
}

#[test]
fn guard_released_once_per_accepted_job() {
    let mut guard = RenderGuard::new();
    let mut accepted = 0;
    let mut released = 0;
    for i in 0..10 {
        if guard.try_begin() {
            accepted += 1;
        }
        if i % 3 == 2 && guard.is_busy() {
            guard.finish();
            released += 1;
        }
    }
    if guard.is_busy() {
        guard.finish();
        released += 1;
    }
    assert_eq!(accepted, released);
    assert!(accepted <= 10);
    assert_eq!(accepted, 4);
}

#[test]
fn mailbox_ids_strictly_increase_even_when_the_clock_does_not() {
    let mut m = Mailbox::new();
    assert_eq!(m.publish(500, vec![1]), Some(500));
    assert_eq!(m.publish(400, vec![2]), Some(501));
    assert_eq!(m.publish(501, vec![3]), Some(502));
    assert_eq!(m.publish(900, vec![4]), Some(900));
    assert_eq!(m.last_id(), 900);
    assert_eq!(m.take(), Some((900, vec![4])));
    assert_eq!(m.take(), None);
}

#[test]
fn mailbox_refuses_when_ids_are_exhausted() {
    let mut m = Mailbox::new();
    assert_eq!(m.publish(u128::MAX, vec![1]), Some(u128::MAX));
    assert_eq!(m.publish(7, vec![2]), None);
    assert_eq!(m.take(), Some((u128::MAX, vec![1])));
}

#[test]
fn idle_timeout_reissues_poll_at_once() {
    assert_eq!(poll_event(PollOutcome::TimedOut), Event::IdleTimeout);
    assert_eq!(step(Phase::Active, Event::IdleTimeout), (Phase::Active, Action::Poll));
}

#[test]
fn failed_registration_never_starts_polling() {
    let (phase, action) = step(Phase::Registering, Event::RegistrationFailed);
    assert_eq!((phase, action), (Phase::Registering, Action::Sleep(REGISTER_RETRY_MS)));
    assert_eq!(REGISTER_RETRY_MS, 5000);
    let (phase, action) = step(phase, Event::Slept);
    assert_eq!((phase, action), (Phase::Registering, Action::Register));
    let (phase, action) = step(phase, Event::NotActive);
    assert_eq!(phase, Phase::Registering);
    assert_ne!(action, Action::Poll);
}

#[test]
fn session_walks_through_its_phases() {
    assert_eq!(step(Phase::Disconnected, Event::Started), (Phase::Connecting, Action::ProbeLiveness));
    assert_eq!(step(Phase::Connecting, Event::Alive), (Phase::Registering, Action::Register));
    assert_eq!(step(Phase::Registering, Event::Registered), (Phase::Active, Action::Poll));
    assert_eq!(step(Phase::Active, Event::Data), (Phase::Active, Action::Poll));
    assert_eq!(
        step(Phase::Active, Event::NotActive),
        (Phase::Active, Action::Sleep(POLL_INTERVAL_MS))
    );
    assert_eq!(step(Phase::Active, Event::NotRegistered), (Phase::Registering, Action::Register));
    assert_eq!(
        step(Phase::Active, Event::TransportFailed),
        (Phase::Disconnected, Action::Sleep(RESTART_DELAY_MS))
    );
    assert_eq!(
        step(Phase::Connecting, Event::NotAlive),
        (Phase::Disconnected, Action::Sleep(5000))
    );
    assert_eq!(step(Phase::Disconnected, Event::Slept), (Phase::Connecting, Action::ProbeLiveness));
}

#[test]
fn poll_statuses_map_to_events() {
    assert_eq!(poll_event(PollOutcome::Received), Event::Data);
    assert_eq!(poll_event(PollOutcome::Status(403)), Event::NotActive);
    assert_eq!(poll_event(PollOutcome::Status(404)), Event::NotRegistered);
    assert_eq!(poll_event(PollOutcome::Status(500)), Event::TransportFailed);
    assert_eq!(poll_event(PollOutcome::Failed), Event::TransportFailed);
}
