use game_engine::hooks::InvalidHandlerError;
use game_engine::launch::{internal_start_engine_stub, Emission, LaunchOutcome, Next, Settled, Step, Waiting};
use game_engine::orchestrator::Launcher;
use game_engine::registry::VersionRegistry;
use game_engine::wasm_ready;

type TestLauncher = Launcher<&'static str, u32>;

fn event_of(step: &Step) -> Option<String> {
    step.emission.as_ref().map(|e| e.event_name())
}

/// Runs one launch to its end, settling each invoked hook with the next
/// result from `results`; returns the emitted event names and the outcome.
fn drive(l: &TestLauncher, id: &str, results: Vec<Settled>) -> (Vec<String>, LaunchOutcome) {
    let mut events = Vec::new();
    let mut results = results.into_iter();
    let mut step = l.start_engine_async(id);
    loop {
        if let Some(e) = event_of(&step) {
            events.push(e);
        }
        match step.next {
            Next::Finish(o) => return (events, o),
            Next::Invoke(run) => {
                let settled = results.next().expect("a hook result for each invocation");
                step = l.resume(run, settled);
            }
        }
    }
}

#[test]
fn unknown_id_degrades_to_fallback() {
    let l = TestLauncher::new();
    assert_eq!(l.get_launch_url("9.9"), "index.html");
    assert_eq!(l.version_info("9.9"), "unknown version");
    let empty: Launcher<&'static str, u32> = Launcher::with_registry(VersionRegistry::new());
    assert_eq!(empty.get_launch_url("1.8"), "index.html");
    assert_eq!(empty.version_info("1.8"), "unknown version");
}

#[test]
fn add_version_last_write_wins() {
    let mut l = TestLauncher::new();
    assert!(l.add_version("1.8", "a.html", None));
    assert_eq!(l.get_launch_url("1.8"), "a.html");
    assert!(l.add_version("1.8", "b.html", None));
    assert_eq!(l.get_launch_url("1.8"), "b.html");
    assert_eq!(l.version_info("1.8"), "Minecraft 1.8 engine (stub)");
}

#[test]
fn description_is_upserted_on_its_own() {
    let mut l = TestLauncher::new();
    assert!(l.add_version("2.0", "two.html", Some("second".to_string())));
    assert_eq!(l.version_info("2.0"), "second");
    assert!(l.add_version("2.0", "two-b.html", None));
    assert_eq!(l.version_info("2.0"), "second");
    assert!(l.add_version("2.0", "two-b.html", Some("third".to_string())));
    assert_eq!(l.version_info("2.0"), "third");
}

#[test]
fn remove_version_true_once_per_add() {
    let mut l = TestLauncher::new();
    assert!(!l.remove_version("x"));
    l.add_version("x", "x.html", Some("x".to_string()));
    assert!(l.remove_version("x"));
    assert!(!l.remove_version("x"));
    assert_eq!(l.version_info("x"), "unknown version");
    assert_eq!(l.get_launch_url("x"), "index.html");
    l.add_version("x", "x.html", None);
    assert!(l.remove_version("x"));
}

#[test]
fn list_versions_of_defaults() {
    let mut l = TestLauncher::new();
    let mut ids = l.list_versions();
    ids.sort();
    assert_eq!(ids, vec!["1.12".to_string(), "1.8".to_string()]);
    l.add_version("1.8", "c.html", None);
    l.add_version("3.0", "d.html", None);
    l.remove_version("1.12");
    let mut ids = l.list_versions();
    ids.sort();
    assert_eq!(ids, vec!["1.8".to_string(), "3.0".to_string()]);
}

#[test]
fn launch_known_version_without_hooks() {
    let l = TestLauncher::new();
    let (events, o) = drive(&l, "1.8", vec![]);
    assert_eq!(events, vec!["engine_started".to_string()]);
    assert_eq!(o.status, "ok");
    assert_eq!(o.url, "minecraft_1.8.html");
    assert_eq!(o.version, "1.8");
    assert_eq!(o.message, "mc18 engine started (stub)");
}

#[test]
fn launch_unknown_version_without_hooks() {
    let l = TestLauncher::new();
    let (events, o) = drive(&l, "bogus", vec![]);
    assert_eq!(events, vec!["engine_started".to_string()]);
    assert_eq!(o.status, "error");
    assert_eq!(o.message, "unknown version: bogus");
    assert_eq!(o.url, "index.html");
    assert_eq!(o.version, "bogus");
}

#[test]
fn engine_started_carries_the_outcome() {
    let l = TestLauncher::new();
    let step = l.start_engine_async("1.12");
    match step.emission {
        Some(Emission::EngineStarted(o)) => {
            assert_eq!(o.status, "ok");
            assert_eq!(o.message, "mc1.12 engine started (stub)");
            assert_eq!(o.url, "minecraft_1.12.html");
            assert_eq!(o.version, "1.12");
        }
        _ => panic!("engine_started expected"),
    }
}

#[test]
fn pack_loader_rejection_ends_the_launch() {
    let mut l = TestLauncher::new();
    l.set_pack_loader("loader", true).unwrap();
    l.set_launcher_callback("notifier", true).unwrap();
    let step = l.start_engine_async("1.8");
    assert!(step.emission.is_none());
    let run = match step.next {
        Next::Invoke(run) => run,
        Next::Finish(_) => panic!("the loader must be invoked"),
    };
    assert!(matches!(run.waiting, Waiting::PackLoader));
    let step = l.resume(run, Settled::Failed("no pack".to_string()));
    match &step.emission {
        Some(Emission::PackLoadFailed(m)) => assert_eq!(m, "no pack"),
        _ => panic!("pack_load_failed expected"),
    }
    match step.next {
        Next::Finish(o) => {
            assert_eq!(o.status, "error");
            assert_eq!(o.message, "no pack");
            assert_eq!(o.url, "minecraft_1.8.html");
            assert_eq!(o.version, "1.8");
        }
        Next::Invoke(_) => panic!("the launch must end"),
    }
    let (events, _) = drive(&l, "1.8", vec![Settled::Failed("no pack".to_string())]);
    assert_eq!(events, vec!["pack_load_failed".to_string()]);
}

#[test]
fn notifier_rejection_replaces_the_outcome() {
    let mut l = TestLauncher::new();
    l.set_pack_loader("loader", true).unwrap();
    l.set_launcher_callback("notifier", true).unwrap();
    let (events, o) = drive(
        &l,
        "1.12",
        vec![Settled::Succeeded, Settled::Failed("refused".to_string())],
    );
    assert_eq!(events, vec!["engine_started".to_string(), "launcher_failed".to_string()]);
    assert_eq!(o.status, "error");
    assert_eq!(o.message, "refused");
    assert_eq!(o.url, "minecraft_1.12.html");
    assert_eq!(o.version, "1.12");
}

#[test]
fn notifier_success_keeps_the_engine_outcome() {
    let mut l = TestLauncher::new();
    l.set_launcher_callback("notifier", true).unwrap();
    let (events, o) = drive(&l, "bogus", vec![Settled::Succeeded]);
    assert_eq!(events, vec!["engine_started".to_string()]);
    assert_eq!(o.status, "error");
    assert_eq!(o.message, "unknown version: bogus");
    assert_eq!(o.url, "index.html");
}

#[test]
fn notifier_cleared_while_loading_is_skipped() {
    let mut l = TestLauncher::new();
    l.set_pack_loader("loader", true).unwrap();
    l.set_launcher_callback("notifier", true).unwrap();
    let run = match l.start_engine_async("1.8").next {
        Next::Invoke(run) => run,
        Next::Finish(_) => panic!("the loader must be invoked"),
    };
    l.clear_launcher_callback();
    l.add_version("1.8", "moved.html", None);
    let step = l.resume(run, Settled::Succeeded);
    match step.next {
        Next::Finish(o) => {
            assert_eq!(o.status, "ok");
            assert_eq!(o.url, "minecraft_1.8.html");
        }
        Next::Invoke(_) => panic!("no notifier is registered"),
    }
}

#[test]
fn second_listener_replaces_the_first() {
    let mut l = TestLauncher::new();
    l.set_event_listener("engine_started", 1, true).unwrap();
    l.set_event_listener("engine_started", 2, true).unwrap();
    assert_eq!(l.listener("engine_started"), Some(&2));
    assert_eq!(l.listener("launcher_failed"), None);
    l.clear_event_listener("engine_started");
    assert_eq!(l.listener("engine_started"), None);
    l.clear_event_listener("engine_started");
    assert_eq!(l.listener("engine_started"), None);
}

#[test]
fn interleaved_launches_stay_apart() {
    let mut l = TestLauncher::new();
    l.set_pack_loader("loader", true).unwrap();
    let a = match l.start_engine_async("1.8").next {
        Next::Invoke(run) => run,
        Next::Finish(_) => panic!("the loader must be invoked"),
    };
    let b = match l.start_engine_async("bogus").next {
        Next::Invoke(run) => run,
        Next::Finish(_) => panic!("the loader must be invoked"),
    };
    let sb = l.resume(b, Settled::Failed("lost".to_string()));
    let sa = l.resume(a, Settled::Succeeded);
    match (sa.next, sb.next) {
        (Next::Finish(oa), Next::Finish(ob)) => {
            assert_eq!(oa.version, "1.8");
            assert_eq!(oa.url, "minecraft_1.8.html");
            assert_eq!(oa.status, "ok");
            assert_eq!(ob.version, "bogus");
            assert_eq!(ob.url, "index.html");
            assert_eq!(ob.message, "lost");
        }
        _ => panic!("both launches must end"),
    }
}

#[test]
fn uncallable_handlers_are_refused() {
    let mut l = TestLauncher::new();
    assert_eq!(l.set_pack_loader("x", false), Err(InvalidHandlerError::PackLoader));
    assert_eq!(l.set_launcher_callback("x", false), Err(InvalidHandlerError::LauncherCallback));
    assert_eq!(l.set_event_listener("e", 7, false), Err(InvalidHandlerError::Listener));
    assert!(l.pack_loader().is_none());
    assert!(l.launcher_callback().is_none());
    assert!(l.listener("e").is_none());
    assert_eq!(InvalidHandlerError::PackLoader.message(), "pack_loader must be a function");
    assert_eq!(InvalidHandlerError::LauncherCallback.message(), "callback must be a function");
    assert_eq!(InvalidHandlerError::Listener.message(), "listener must be a function");
}

#[test]
fn refused_handler_keeps_the_occupant() {
    let mut l = TestLauncher::new();
    l.set_pack_loader("first", true).unwrap();
    assert!(l.set_pack_loader("second", false).is_err());
    assert_eq!(l.pack_loader(), Some(&"first"));
    l.set_pack_loader("third", true).unwrap();
    assert_eq!(l.pack_loader(), Some(&"third"));
    l.clear_pack_loader();
    assert!(l.pack_loader().is_none());
}

#[test]
fn engine_stub_results() {
    assert_eq!(
        internal_start_engine_stub("1.8"),
        ("ok".to_string(), "mc18 engine started (stub)".to_string())
    );
    assert_eq!(
        internal_start_engine_stub("1.12"),
        ("ok".to_string(), "mc1.12 engine started (stub)".to_string())
    );
    assert_eq!(
        internal_start_engine_stub(""),
        ("error".to_string(), "unknown version: ".to_string())
    );
}

#[test]
fn ready_line() {
    assert_eq!(wasm_ready(), "game_engine (improved) wasm ready");
}
