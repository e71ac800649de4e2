use refresh_dns::refresh::Action;
use refresh_dns::refresh::Event;
use refresh_dns::refresh::LookupFailure;
use refresh_dns::refresh::LookupOutcome;
use refresh_dns::refresh::RefreshState;
use refresh_dns::refresh::Refresher;
use refresh_dns::refresh::remaining_secs;
use refresh_dns::refresh::success_line;
use refresh_dns::refresh::ATTEMPT_TIMEOUT_MS;
use refresh_dns::refresh::ERROR_TTL_MS;

#[test]
fn constants_match_policy() {
    assert_eq!(ATTEMPT_TIMEOUT_MS, 100);
    assert_eq!(ERROR_TTL_MS, 10_000);
}

#[test]
fn new_refresher_starts_in_init() {
    let r = Refresher::new(String::from("a.example"));
    assert_eq!(r.name, "a.example");
    assert_eq!(r.state, RefreshState::Init);
}

#[test]
fn wake_bounds_the_attempt() {
    let mut r = Refresher::new(String::from("a.example"));
    let act = r.step(Event::Wake, 40);
    assert_eq!(act, Action::IssueLookup { attempt_deadline: 140 });
    assert_eq!(r.state, RefreshState::Pending { deadline: 140 });
}

#[test]
fn scenario_success_reports_once_then_waits_out_validity() {
    // Resolver answers instantly with a validity window of 5 s.
    let mut r = Refresher::new(String::from("a.example"));
    let act = r.step(Event::Wake, 0);
    assert_eq!(act, Action::IssueLookup { attempt_deadline: 100 });

    let out = LookupOutcome { canonical: String::from("a.example."), valid_until: 5000 };
    let act = r.step(Event::Resolved(out), 0);
    assert_eq!(
        act,
        Action::ReportSuccess { line: String::from("a.example: a.example."), remaining_secs: 5 }
    );
    assert_eq!(r.state, RefreshState::Valid { until: 5000 });

    // Nothing happens until the wait elapses; then a new lookup is issued.
    let act = r.step(Event::WaitElapsed, 5000);
    assert_eq!(act, Action::NoteRefresh);
    assert_eq!(r.state, RefreshState::Init);
    let act = r.step(Event::Wake, 5000);
    assert_eq!(act, Action::IssueLookup { attempt_deadline: 5100 });
}

#[test]
fn scenario_silent_resolver_times_out_onto_fallback() {
    // The resolver never answers: the attempt deadline passes at 100 ms
    // and the next lookup is scheduled a full fallback window later.
    let mut r = Refresher::new(String::from("b.example"));
    let act = r.step(Event::Wake, 0);
    assert_eq!(act, Action::IssueLookup { attempt_deadline: 100 });

    let act = r.step(Event::Failed(LookupFailure::AttemptTimeout), 100);
    assert_eq!(
        act,
        Action::ReportFailure { detail: String::from("resolution attempt timed out") }
    );
    assert_eq!(r.state, RefreshState::Valid { until: 10_100 });
}

#[test]
fn scenario_hinted_no_records_schedules_at_hint() {
    // "no records found, retry at now + 2 s" wins over the 10 s fallback.
    let mut r = Refresher::new(String::from("c.example"));
    let _ = r.step(Event::Wake, 0);
    let f = LookupFailure::NoRecordsFound {
        retry_at: Some(2000),
        detail: String::from("no records found"),
    };
    let act = r.step(Event::Failed(f), 0);
    assert_eq!(act, Action::ReportFailure { detail: String::from("no records found") });
    assert_eq!(r.state, RefreshState::Valid { until: 2000 });
}

#[test]
fn unhinted_no_records_falls_back() {
    let mut r = Refresher::new(String::from("c.example"));
    let _ = r.step(Event::Wake, 0);
    let f = LookupFailure::NoRecordsFound {
        retry_at: None,
        detail: String::from("no records found"),
    };
    let _ = r.step(Event::Failed(f), 30);
    assert_eq!(r.state, RefreshState::Valid { until: 10_030 });
}

#[test]
fn other_failure_falls_back_and_keeps_detail() {
    let mut r = Refresher::new(String::from("d.example"));
    let _ = r.step(Event::Wake, 0);
    let f = LookupFailure::Other { detail: String::from("connection refused") };
    let act = r.step(Event::Failed(f), 7);
    assert_eq!(act, Action::ReportFailure { detail: String::from("connection refused") });
    assert_eq!(r.state, RefreshState::Valid { until: 10_007 });
}

#[test]
fn stale_validity_reports_zero_and_still_schedules() {
    // A window that is already over still produces a valid (immediate)
    // wait, never a negative one.
    let mut r = Refresher::new(String::from("e.example"));
    let _ = r.step(Event::Wake, 200);
    let out = LookupOutcome { canonical: String::from("e.example."), valid_until: 150 };
    let act = r.step(Event::Resolved(out), 250);
    assert_eq!(
        act,
        Action::ReportSuccess { line: String::from("e.example: e.example."), remaining_secs: 0 }
    );
    assert_eq!(r.state, RefreshState::Valid { until: 150 });
    let act = r.step(Event::WaitElapsed, 250);
    assert_eq!(act, Action::NoteRefresh);
    assert_eq!(r.state, RefreshState::Init);
}

#[test]
fn remaining_secs_floors_whole_seconds() {
    assert_eq!(remaining_secs(5000, 0), 5);
    assert_eq!(remaining_secs(1999, 0), 1);
    assert_eq!(remaining_secs(999, 0), 0);
    assert_eq!(remaining_secs(5000, 5000), 0);
    assert_eq!(remaining_secs(100, 200), 0);
}

#[test]
fn success_line_formats_name_and_canonical() {
    let line = success_line(&String::from("a.example"), &String::from("a.example."));
    assert_eq!(line, "a.example: a.example.");
}

#[test]
fn failure_hint_only_on_hinted_no_records() {
    assert_eq!(LookupFailure::AttemptTimeout.hint(), None);
    assert_eq!(
        LookupFailure::NoRecordsFound { retry_at: Some(9), detail: String::new() }.hint(),
        Some(9)
    );
    assert_eq!(
        LookupFailure::NoRecordsFound { retry_at: None, detail: String::new() }.hint(),
        None
    );
    assert_eq!(LookupFailure::Other { detail: String::new() }.hint(), None);
}

#[test]
fn repeated_cycles_are_strictly_periodic() {
    // A resolver that always answers instantly with the same 5 s window
    // produces lookups at 0, 5000, 10000, ...
    let mut r = Refresher::new(String::from("p.example"));
    let mut now: u64 = 0;
    for _ in 0..3 {
        let act = r.step(Event::Wake, now);
        assert_eq!(act, Action::IssueLookup { attempt_deadline: now + 100 });
        let out = LookupOutcome { canonical: String::from("p.example."), valid_until: now + 5000 };
        let _ = r.step(Event::Resolved(out), now);
        assert_eq!(r.state, RefreshState::Valid { until: now + 5000 });
        let _ = r.step(Event::WaitElapsed, now + 5000);
        assert_eq!(r.state, RefreshState::Init);
        now += 5000;
    }
    assert_eq!(now, 15_000);
}

#[test]
fn blocked_name_does_not_delay_another() {
    // One refresher's lookup never completes; the other still cycles.
    let mut blocked = Refresher::new(String::from("b.example"));
    let mut live = Refresher::new(String::from("a.example"));
    let _ = blocked.step(Event::Wake, 0);
    assert_eq!(blocked.state, RefreshState::Pending { deadline: 100 });

    let _ = live.step(Event::Wake, 0);
    let out = LookupOutcome { canonical: String::from("a.example."), valid_until: 3000 };
    let _ = live.step(Event::Resolved(out), 0);
    let _ = live.step(Event::WaitElapsed, 3000);
    let act = live.step(Event::Wake, 3000);
    assert_eq!(act, Action::IssueLookup { attempt_deadline: 3100 });

    // The blocked refresher is exactly where it was.
    assert_eq!(blocked.state, RefreshState::Pending { deadline: 100 });
    assert_eq!(blocked.name, "b.example");
}
