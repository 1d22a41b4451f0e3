use deno_pack::{
    Action, BundleError, BundleOrchestrator, BundleRequest, Decision, Event, Phase, SessionState,
    Signal, StopReason, WatchOptions,
};

fn orchestrator(watch: bool) -> BundleOrchestrator {
    let req = BundleRequest {
        entry_file: "index.js".to_string(),
        out_file: None,
        watch: if watch { Some(WatchOptions { no_clear_screen: true }) } else { None },
    };
    BundleOrchestrator::new(&req, "/work", Some("/work/index.js".to_string()), vec!["/work/lib".to_string()])
        .unwrap()
}

#[test]
fn single_build_succeeds() {
    let mut o = orchestrator(false);
    assert_eq!(o.config().output.filenames.main, "output.js");
    assert!(matches!(o.handle(Event::Start), Action::Build));
    assert!(matches!(o.handle(Event::BuildFinished(Ok(()))), Action::Finish(Ok(()))));
    assert_eq!(o.session().phase, Phase::Done);
}

#[test]
fn single_build_failure_is_returned() {
    let mut o = orchestrator(false);
    assert!(matches!(o.handle(Event::Start), Action::Build));
    match o.handle(Event::BuildFinished(Err("syntax error".to_string()))) {
        Action::Finish(Err(BundleError::BuildFailed { diagnostic })) => {
            assert_eq!(diagnostic, "syntax error")
        }
        other => panic!("unexpected action {:?}", other),
    }
}

#[test]
fn missing_entry_stops_the_run() {
    let req = BundleRequest { entry_file: "missing.js".to_string(), out_file: None, watch: None };
    let r = BundleOrchestrator::new(&req, "/work", None, Vec::new());
    match r {
        Err(BundleError::EntryNotFound { path }) => assert_eq!(path, "/work/missing.js"),
        _ => panic!("expected EntryNotFound"),
    }
}

#[test]
fn watch_subscribes_to_context_and_extra_paths() {
    let mut o = orchestrator(true);
    assert!(matches!(o.handle(Event::Start), Action::Subscribe));
    assert_eq!(o.watch_paths(), &vec!["/work".to_string(), "/work/lib".to_string()]);
}

#[test]
fn changes_during_build_coalesce_into_one_rebuild() {
    let mut o = orchestrator(true);
    let config_before = format!("{:?}", o.config());
    let plugins_before = format!("{:?}", o.plugins());
    assert!(matches!(o.handle(Event::Start), Action::Subscribe));
    assert!(matches!(o.handle(Event::WatchReady), Action::Build));
    assert!(matches!(o.handle(Event::BuildFinished(Ok(()))), Action::Wait));
    assert!(matches!(o.handle(Event::Changed), Action::Build));
    assert!(matches!(o.handle(Event::Changed), Action::Wait));
    assert!(matches!(o.handle(Event::Changed), Action::Wait));
    assert!(matches!(o.handle(Event::Changed), Action::Wait));
    assert!(matches!(o.handle(Event::BuildFinished(Ok(()))), Action::Build));
    assert!(matches!(o.handle(Event::BuildFinished(Ok(()))), Action::Wait));
    assert_eq!(o.session().phase, Phase::Idle);
    assert_eq!(format!("{:?}", o.config()), config_before);
    assert_eq!(format!("{:?}", o.plugins()), plugins_before);
}

#[test]
fn watch_keeps_going_after_failed_build() {
    let mut o = orchestrator(true);
    o.handle(Event::Start);
    assert!(matches!(o.handle(Event::WatchReady), Action::Build));
    assert!(matches!(o.handle(Event::BuildFinished(Err("boom".to_string()))), Action::Wait));
    assert_eq!(o.session().phase, Phase::Idle);
    assert!(matches!(o.handle(Event::Changed), Action::Build));
}

#[test]
fn watch_setup_failure_ends_the_run() {
    let mut o = orchestrator(true);
    o.handle(Event::Start);
    match o.handle(Event::WatchFailed("no such path".to_string())) {
        Action::Finish(Err(BundleError::WatchSetupFailed { reason })) => {
            assert_eq!(reason, "no such path")
        }
        other => panic!("unexpected action {:?}", other),
    }
}

#[test]
fn cancellation_lets_running_build_finish() {
    let mut o = orchestrator(true);
    o.handle(Event::Start);
    o.handle(Event::WatchReady);
    assert!(matches!(o.handle(Event::Changed), Action::Wait));
    assert!(matches!(o.handle(Event::Cancelled), Action::Wait));
    assert!(matches!(o.handle(Event::BuildFinished(Ok(()))), Action::Finish(Ok(()))));
    assert!(matches!(o.handle(Event::Changed), Action::Wait));
}

#[test]
fn cancellation_while_idle_ends_at_once() {
    let mut o = orchestrator(true);
    o.handle(Event::Start);
    o.handle(Event::WatchReady);
    o.handle(Event::BuildFinished(Ok(())));
    assert!(matches!(o.handle(Event::Cancelled), Action::Finish(Ok(()))));
}

#[test]
fn session_step_records_outcome() {
    let mut s = SessionState::new(true);
    assert_eq!(s.step(Signal::Start), Decision::Subscribe);
    assert_eq!(s.step(Signal::WatchReady), Decision::Build);
    assert_eq!(s.step(Signal::BuildFailed), Decision::Wait);
    assert_eq!(s.last_outcome, Some(deno_pack::BuildOutcome::Failure));
    let mut single = SessionState::new(false);
    assert_eq!(single.step(Signal::Start), Decision::Build);
    assert_eq!(single.step(Signal::BuildFailed), Decision::Stop(StopReason::BuildFailed));
}
