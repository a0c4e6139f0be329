use mailscope::orchestrator::{start_run, step, RunAction, RunEvent, RunOrchestrator};

fn answer(a: RunAction, cancelled: bool, matched: bool) -> RunEvent {
    match a {
        RunAction::CheckCancelled => RunEvent::CancelChecked { cancelled },
        RunAction::Poll => RunEvent::Polled,
        RunAction::CheckAllMatched => RunEvent::MatchChecked { all_matched: matched },
        RunAction::Sleep { .. } => RunEvent::Slept,
        RunAction::Finalize => RunEvent::Finalized,
        RunAction::Stop => panic!("no event after stop"),
    }
}

#[test]
fn full_schedule_polls_24_times_then_finalizes() {
    let (mut s, mut a) = start_run();
    let mut polls = 0;
    let mut sleeps = Vec::new();
    let mut finalized = false;
    while a != RunAction::Stop {
        match a {
            RunAction::Poll => polls += 1,
            RunAction::Sleep { secs } => sleeps.push(secs),
            RunAction::Finalize => finalized = true,
            _ => {}
        }
        let (n, next) = step(s, answer(a, false, false));
        s = n;
        a = next;
    }
    assert_eq!(polls, 24);
    assert!(finalized);
    assert_eq!(sleeps.len(), 24);
    assert!(sleeps[..8].iter().all(|&x| x == 15));
    assert!(sleeps[8..].iter().all(|&x| x == 30));
    assert_eq!(sleeps.iter().sum::<u64>(), 600);
}

#[test]
fn cancellation_stops_without_finalizing() {
    let (s, a) = start_run();
    assert_eq!(a, RunAction::CheckCancelled);
    let (_, a) = step(s, RunEvent::CancelChecked { cancelled: true });
    assert_eq!(a, RunAction::Stop);
}

#[test]
fn all_matched_finalizes_early() {
    let (s, _) = start_run();
    let (s, a) = step(s, RunEvent::CancelChecked { cancelled: false });
    assert_eq!(a, RunAction::Poll);
    let (s, a) = step(s, RunEvent::Polled);
    assert_eq!(a, RunAction::CheckAllMatched);
    let (s, a) = step(s, RunEvent::MatchChecked { all_matched: true });
    assert_eq!(a, RunAction::Finalize);
    let (s, a) = step(s, RunEvent::Finalized);
    assert_eq!(a, RunAction::Stop);
    let (_, a) = step(s, RunEvent::Polled);
    assert_eq!(a, RunAction::Stop);
}

#[test]
fn unexpected_event_repeats_action() {
    let (s, _) = start_run();
    let (s2, a) = step(s, RunEvent::Slept);
    assert_eq!(a, RunAction::CheckCancelled);
    assert_eq!(s2, s);
}

#[test]
fn orchestrator_keeps_backend() {
    let o = RunOrchestrator::new(42u32);
    assert_eq!(*o.backend_ref(), 42);
}
