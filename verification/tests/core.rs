//! End-to-end behavior of the verified core: outcome texts, host bridge
//! semantics, session lifecycle, runner accounting, and routing.

use scriptrun::bridge::BindingSet;
use scriptrun::bridge::HostBinding;
use scriptrun::bridge::HostCallback;
use scriptrun::bridge::Sink;
use scriptrun::bridge::default_bindings;
use scriptrun::bridge::dispatch;
use scriptrun::bridge::invoke_print;
use scriptrun::bridge::marshal_argument;
use scriptrun::outcome::Outcome;
use scriptrun::route::Route;
use scriptrun::route::route_request;
use scriptrun::route::status_for;
use scriptrun::runner::EngineReport;
use scriptrun::runner::Runner;
use scriptrun::session::Session;
use scriptrun::session::SessionAction;
use scriptrun::session::SessionEvent;
use scriptrun::session::SessionState;

fn ready_runner() -> Runner {
    let mut runner = Runner::new();
    runner.initialize();
    runner
}

#[test]
fn valid_script_returns_value_text() {
    let mut runner = ready_runner();
    let out = runner.execute(EngineReport::Evaluated("3".to_string()));
    match out {
        Ok(outcome) => assert_eq!(outcome.response_text(), "3"),
        Err(_) => panic!("a successful run must produce an outcome"),
    }
}

#[test]
fn invalid_script_returns_fixed_compile_error_text() {
    let mut runner = ready_runner();
    let out = runner.execute(EngineReport::SourceRejected);
    match out {
        Ok(outcome) => {
            assert!(matches!(outcome, Outcome::CompileError));
            assert_eq!(outcome.response_text(), "error compiling");
        }
        Err(_) => panic!("a compile error is an outcome, not an initialization failure"),
    }
}

#[test]
fn runtime_fault_yields_outcome_and_teardown() {
    let mut runner = ready_runner();
    let out = runner.execute(EngineReport::RunFaulted(
        "ReferenceError: x is not defined".to_string(),
    ));
    match out {
        Ok(outcome) => {
            assert!(matches!(outcome, Outcome::RuntimeError(_)));
            assert_eq!(outcome.response_text(), "ReferenceError: x is not defined");
        }
        Err(_) => panic!("a runtime fault is an outcome, not an initialization failure"),
    }
    assert_eq!(runner.live_sessions, 0);
}

#[test]
fn exhausted_environment_fails_only_the_request() {
    let mut runner = ready_runner();
    let out = runner.execute(EngineReport::EnvironmentExhausted);
    assert!(out.is_err());
    assert_eq!(runner.live_sessions, 0);
    assert!(runner.initialized);
    let next = runner.execute(EngineReport::Evaluated("ok".to_string()));
    assert_eq!(next.unwrap().response_text(), "ok");
}

#[test]
fn no_substrate_survives_a_thousand_requests() {
    let mut runner = ready_runner();
    for i in 0..1000u32 {
        let report = match i % 4 {
            0 => EngineReport::Evaluated(format!("{}", i)),
            1 => EngineReport::SourceRejected,
            2 => EngineReport::RunFaulted("thrown".to_string()),
            _ => EngineReport::EnvironmentExhausted,
        };
        let _ = runner.execute(report);
        assert_eq!(runner.live_sessions, 0);
    }
    assert_eq!(runner.live_sessions, 0);
}

#[test]
fn same_script_twice_same_outcome() {
    let mut runner = ready_runner();
    let first = runner.execute(EngineReport::Evaluated("42".to_string()));
    let second = runner.execute(EngineReport::Evaluated("42".to_string()));
    assert_eq!(
        first.unwrap().response_text(),
        second.unwrap().response_text()
    );
    let first_bad = runner.execute(EngineReport::SourceRejected);
    let second_bad = runner.execute(EngineReport::SourceRejected);
    assert_eq!(
        first_bad.unwrap().response_text(),
        second_bad.unwrap().response_text()
    );
}

#[test]
fn print_effect_exactly_once_and_placeholder_return() {
    let mut sink = Sink::new();
    let ret = invoke_print(&mut sink, "hello".to_string());
    assert_eq!(sink.lines.len(), 1);
    assert_eq!(sink.lines[0], "hello");
    assert_eq!(ret, "returned string");

    let ret2 = invoke_print(&mut sink, "something else entirely".to_string());
    assert_eq!(sink.lines.len(), 2);
    assert_eq!(ret2, "returned string");
}

#[test]
fn absent_argument_marshals_to_undefined() {
    assert_eq!(marshal_argument(None), "undefined");
    assert_eq!(marshal_argument(Some("x".to_string())), "x");

    let mut sink = Sink::new();
    let ret = dispatch(&HostCallback::Print, &mut sink, None);
    assert_eq!(sink.lines, vec!["undefined".to_string()]);
    assert_eq!(ret, "returned string");
}

#[test]
fn duplicate_binding_is_a_config_error() {
    let mut set = BindingSet::new();
    let first = set.install(HostBinding {
        name: "print".to_string(),
        callback: HostCallback::Print,
    });
    assert!(first.is_ok());
    let second = set.install(HostBinding {
        name: "print".to_string(),
        callback: HostCallback::Print,
    });
    assert!(second.is_err());
    assert_eq!(set.bindings.len(), 1);
}

#[test]
fn config_list_installs_in_order() {
    let mut set = BindingSet::new();
    let config = vec![
        HostBinding {
            name: "print".to_string(),
            callback: HostCallback::Print,
        },
        HostBinding {
            name: "log".to_string(),
            callback: HostCallback::Print,
        },
    ];
    assert!(set.install_all(config).is_ok());
    assert_eq!(set.bindings.len(), 2);
    assert_eq!(set.bindings[0].name, "print");
    assert_eq!(set.bindings[1].name, "log");
}

#[test]
fn config_list_with_a_collision_changes_nothing() {
    let mut set = BindingSet::new();
    let first = set.install(HostBinding {
        name: "print".to_string(),
        callback: HostCallback::Print,
    });
    assert!(first.is_ok());

    let doubled = vec![
        HostBinding {
            name: "log".to_string(),
            callback: HostCallback::Print,
        },
        HostBinding {
            name: "log".to_string(),
            callback: HostCallback::Print,
        },
    ];
    assert!(set.install_all(doubled).is_err());

    let taken = vec![HostBinding {
        name: "print".to_string(),
        callback: HostCallback::Print,
    }];
    assert!(set.install_all(taken).is_err());

    assert_eq!(set.bindings.len(), 1);
    assert_eq!(set.bindings[0].name, "print");
}

#[test]
fn fresh_environment_holds_only_the_default_bindings() {
    let env = default_bindings();
    assert!(env.contains_name(&"print".to_string()));
    assert!(!env.contains_name(&"leakedGlobal".to_string()));
    assert!(!env.contains_name(&"".to_string()));
    assert_eq!(env.bindings.len(), 1);
}

#[test]
fn session_walks_the_success_path() {
    let mut session = Session::new(default_bindings());
    assert_eq!(session.next_action(), SessionAction::BuildEnvironment);
    session.step(SessionEvent::EnvironmentBuilt);
    assert_eq!(session.next_action(), SessionAction::CompileSource);
    session.step(SessionEvent::UnitCompiled);
    assert_eq!(session.next_action(), SessionAction::RunUnit);
    session.step(SessionEvent::RunCompleted("7".to_string()));
    assert_eq!(session.next_action(), SessionAction::TearDown);
    session.step(SessionEvent::SubstrateReleased);
    assert_eq!(session.next_action(), SessionAction::Finish);
    assert_eq!(session.state, SessionState::Destroyed);
    match session.result {
        Some(Outcome::Success(text)) => assert_eq!(text, "7"),
        _ => panic!("the success path must record a success outcome"),
    }
}

#[test]
fn session_tears_down_on_the_error_paths() {
    let mut rejected = Session::new(default_bindings());
    rejected.step(SessionEvent::EnvironmentBuilt);
    rejected.step(SessionEvent::SourceRejected);
    assert_eq!(rejected.next_action(), SessionAction::TearDown);
    rejected.step(SessionEvent::SubstrateReleased);
    assert_eq!(rejected.state, SessionState::Destroyed);
    assert!(matches!(rejected.result, Some(Outcome::CompileError)));

    let mut faulted = Session::new(default_bindings());
    faulted.step(SessionEvent::EnvironmentBuilt);
    faulted.step(SessionEvent::UnitCompiled);
    faulted.step(SessionEvent::RunFaulted("thrown".to_string()));
    assert_eq!(faulted.next_action(), SessionAction::TearDown);
    faulted.step(SessionEvent::SubstrateReleased);
    assert!(matches!(faulted.result, Some(Outcome::RuntimeError(_))));

    let mut exhausted = Session::new(default_bindings());
    exhausted.step(SessionEvent::EnvironmentExhausted);
    assert_eq!(exhausted.next_action(), SessionAction::TearDown);
    exhausted.step(SessionEvent::SubstrateReleased);
    assert!(exhausted.result.is_none());
}

#[test]
fn respond_maps_every_report_to_its_body() {
    let mut runner = ready_runner();
    assert_eq!(
        runner.respond(EngineReport::Evaluated("3".to_string())),
        "3"
    );
    assert_eq!(
        runner.respond(EngineReport::SourceRejected),
        "error compiling"
    );
    assert_eq!(
        runner.respond(EngineReport::RunFaulted("thrown".to_string())),
        "thrown"
    );
    assert_eq!(
        runner.respond(EngineReport::EnvironmentExhausted),
        "error initializing execution environment"
    );
    assert_eq!(runner.live_sessions, 0);
}

#[test]
fn outcome_texts_are_exact() {
    assert_eq!(Outcome::Success("hi".to_string()).response_text(), "hi");
    assert_eq!(Outcome::CompileError.response_text(), "error compiling");
    assert_eq!(Outcome::RuntimeError("boom".to_string()).response_text(), "boom");
    assert_eq!(Outcome::Success(String::new()).response_text(), "");
}

#[test]
fn routing_table_matches_the_surface() {
    let get = "GET".to_string();
    let post = "POST".to_string();
    let root = "/".to_string();
    let run = "/run".to_string();
    assert_eq!(route_request(&get, &root), Route::Instructions);
    assert_eq!(route_request(&post, &run), Route::RunScript);
    assert_eq!(route_request(&get, &run), Route::NotFound);
    assert_eq!(route_request(&post, &root), Route::NotFound);
    assert_eq!(route_request(&"DELETE".to_string(), &run), Route::NotFound);
    assert_eq!(route_request(&get, &"/other".to_string()), Route::NotFound);
}

#[test]
fn every_routed_request_is_answered_200() {
    assert_eq!(status_for(&Route::Instructions), 200);
    assert_eq!(status_for(&Route::RunScript), 200);
    assert_eq!(status_for(&Route::NotFound), 404);
}
