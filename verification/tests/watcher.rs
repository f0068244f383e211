use heimdall::Action;
use heimdall::Event;
use heimdall::IoError;
use heimdall::LoadError;
use heimdall::Loaded;
use heimdall::Phase;
use heimdall::Stage;
use heimdall::SymbolError;
use heimdall::WatchError;
use heimdall::WatchResult;
use heimdall::Watcher;

fn io_error(path: &str) -> IoError {
    IoError { path: path.to_string(), os_code: 2 }
}

fn fresh_watcher() -> Watcher {
    Watcher::new("demo/plugin.so".to_string(), 1, 100)
}

/// Drives one full successful swap and returns the outcome of the tick.
fn run_swap(w: &mut Watcher, seen: u64, loaded: Loaded) -> WatchResult {
    let a = w.watch(Event::Polled(Ok(seen)));
    let outgoing = match a {
        Action::InvokeUnload { handle } => handle,
        other => panic!("expected unload first, got {:?}", other),
    };
    assert_eq!(w.lib(), Some(outgoing));
    let a = w.watch(Event::Unloaded(Ok(())));
    assert!(matches!(a, Action::Load { release: Some(h) } if h == outgoing));
    assert_eq!(w.lib(), None);
    let a = w.watch(Event::LoadFinished(Ok(loaded)));
    assert!(matches!(a, Action::InvokeReload { handle } if handle == loaded.handle));
    assert_eq!(w.lib(), Some(loaded.handle));
    match w.watch(Event::Reloaded(Ok(()))) {
        Action::Done(r) => r,
        other => panic!("expected the tick to finish, got {:?}", other),
    }
}

#[test]
fn quiet_poll_reports_no_change_and_mutates_nothing() {
    let mut w = fresh_watcher();
    for _ in 0..5 {
        let a = w.watch(Event::Polled(Ok(100)));
        assert!(matches!(a, Action::Done(WatchResult::NoChange)));
        assert_eq!(w.last_updated, 100);
        assert_eq!(w.lib(), Some(1));
        assert_eq!(w.phase, Phase::Idle);
    }
}

#[test]
fn older_timestamp_is_no_change() {
    let mut w = fresh_watcher();
    let a = w.watch(Event::Polled(Ok(42)));
    assert!(matches!(a, Action::Done(WatchResult::NoChange)));
    assert_eq!(w.last_updated, 100);
}

#[test]
fn swap_runs_unload_release_load_reload_in_order() {
    let mut w = fresh_watcher();
    let r = run_swap(&mut w, 150, Loaded { handle: 2, timestamp: 150 });
    assert!(matches!(r, WatchResult::Updated));
    assert_eq!(w.last_updated, 150);
    assert_eq!(w.lib(), Some(2));
    assert_eq!(w.phase, Phase::Idle);
}

#[test]
fn watched_timestamp_never_decreases() {
    let mut w = fresh_watcher();
    let mut previous = w.last_updated;
    let a = w.watch(Event::Polled(Ok(90)));
    assert!(matches!(a, Action::Done(WatchResult::NoChange)));
    assert!(w.last_updated >= previous);
    previous = w.last_updated;
    run_swap(&mut w, 130, Loaded { handle: 2, timestamp: 131 });
    assert!(w.last_updated >= previous);
    previous = w.last_updated;
    // a load whose re-read stamp is older than the watched one is clamped
    run_swap(&mut w, 140, Loaded { handle: 3, timestamp: 50 });
    assert!(w.last_updated >= previous);
    assert_eq!(w.last_updated, 131);
}

#[test]
fn poll_failure_leaves_watcher_untouched() {
    let mut w = fresh_watcher();
    let a = w.watch(Event::Polled(Err(io_error("demo/plugin.so"))));
    match a {
        Action::Done(WatchResult::Failed(WatchError::Io(e))) => {
            assert_eq!(e.path, "demo/plugin.so");
            assert_eq!(e.os_code, 2);
        }
        other => panic!("expected an I/O failure, got {:?}", other),
    }
    assert_eq!(w.last_updated, 100);
    assert_eq!(w.lib(), Some(1));
    assert_eq!(w.phase, Phase::Idle);
    // the previously loaded handle is still the update target
    assert_eq!(w.update(), 1);
}

#[test]
fn copy_failure_reports_failed_and_drops_the_handle() {
    let mut w = fresh_watcher();
    let a = w.watch(Event::Polled(Ok(150)));
    assert!(matches!(a, Action::InvokeUnload { handle: 1 }));
    let a = w.watch(Event::Unloaded(Ok(())));
    assert!(matches!(a, Action::Load { release: Some(1) }));
    let a = w.watch(Event::LoadFinished(Err(LoadError::Copy(io_error("demo/plugin.so")))));
    assert!(matches!(
        a,
        Action::Done(WatchResult::Failed(WatchError::Load(LoadError::Copy(_))))
    ));
    assert_eq!(w.lib(), None);
    assert_eq!(w.phase, Phase::Idle);
    // the watched timestamp did not advance, so the change stays detectable
    assert_eq!(w.last_updated, 100);
}

#[test]
fn mapping_failure_reports_failed_and_drops_the_handle() {
    let mut w = fresh_watcher();
    w.watch(Event::Polled(Ok(150)));
    w.watch(Event::Unloaded(Ok(())));
    let a = w.watch(Event::LoadFinished(Err(LoadError::Mapping(io_error("demo/plugin_updated.so")))));
    assert!(matches!(
        a,
        Action::Done(WatchResult::Failed(WatchError::Load(LoadError::Mapping(_))))
    ));
    assert_eq!(w.lib(), None);
}

#[test]
fn successful_load_after_failure_reports_updated() {
    let mut w = fresh_watcher();
    w.watch(Event::Polled(Ok(150)));
    w.watch(Event::Unloaded(Ok(())));
    w.watch(Event::LoadFinished(Err(LoadError::Copy(io_error("demo/plugin.so")))));
    assert_eq!(w.lib(), None);
    // the corrected artifact: the same change is seen again, nothing is
    // unloaded, and the swap completes
    let a = w.watch(Event::Polled(Ok(150)));
    assert!(matches!(a, Action::Load { release: None }));
    let a = w.watch(Event::LoadFinished(Ok(Loaded { handle: 5, timestamp: 150 })));
    assert!(matches!(a, Action::InvokeReload { handle: 5 }));
    let a = w.watch(Event::Reloaded(Ok(())));
    assert!(matches!(a, Action::Done(WatchResult::Updated)));
    assert_eq!(w.lib(), Some(5));
    assert_eq!(w.last_updated, 150);
}

#[test]
fn missing_unload_symbol_aborts_the_swap() {
    let mut w = fresh_watcher();
    let a = w.watch(Event::Polled(Ok(150)));
    assert!(matches!(a, Action::InvokeUnload { handle: 1 }));
    let a = w.watch(Event::Unloaded(Err(SymbolError::Missing(Stage::Unload))));
    assert!(matches!(
        a,
        Action::Done(WatchResult::Failed(WatchError::Symbol(SymbolError::Missing(
            Stage::Unload
        ))))
    ));
    // the outgoing handle was never released
    assert_eq!(w.lib(), Some(1));
    assert_eq!(w.phase, Phase::Idle);
    assert_eq!(w.last_updated, 100);
}

#[test]
fn missing_reload_symbol_fails_on_the_first_swap_attempt() {
    // construction succeeds even though the artifact lacks the reload entry
    // point: nothing resolves it until a swap needs it
    let mut w = fresh_watcher();
    assert_eq!(w.lib(), Some(1));
    w.watch(Event::Polled(Ok(150)));
    w.watch(Event::Unloaded(Ok(())));
    w.watch(Event::LoadFinished(Ok(Loaded { handle: 2, timestamp: 150 })));
    let a = w.watch(Event::Reloaded(Err(SymbolError::Missing(Stage::Reload))));
    assert!(matches!(
        a,
        Action::Done(WatchResult::Failed(WatchError::Symbol(SymbolError::Missing(
            Stage::Reload
        ))))
    ));
    // the incoming artifact is loaded; only its reload stage never ran
    assert_eq!(w.lib(), Some(2));
    assert_eq!(w.phase, Phase::Idle);
}

#[test]
fn update_names_the_held_handle() {
    let w = fresh_watcher();
    assert_eq!(w.update(), 1);
    assert_eq!(w.lib(), Some(1));
}

#[test]
fn new_watcher_starts_idle_with_the_given_load() {
    let w = Watcher::new("p.dll".to_string(), 9, 7);
    assert_eq!(w.file_path, "p.dll");
    assert_eq!(w.last_updated, 7);
    assert_eq!(w.lib(), Some(9));
    assert_eq!(w.phase, Phase::Idle);
}
