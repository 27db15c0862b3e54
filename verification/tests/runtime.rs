use zebra_ledger::runtime::{
    exit_kind, run_step, ExitKind, RunAction, RunEvent, RunState, TokioComponent,
    TOKIO_SHUTDOWN_TIMEOUT_SECS,
};

type Report = String;

fn stop_after(event: RunEvent<Report>) -> (RunState<Report>, RunAction) {
    let (state, action) = run_step(RunState::Running, event);
    assert_eq!(
        action,
        RunAction::ShutdownRuntime { timeout_secs: TOKIO_SHUTDOWN_TIMEOUT_SECS }
    );
    run_step(state, RunEvent::RuntimeStopped)
}

#[test]
fn new_component_owns_a_runtime() {
    let component = TokioComponent::new().expect("runtime building should not fail");
    let rt = component.rt.expect("the runtime is present");
    assert_eq!(rt.block_on(async { 1 + 1 }), 2);
}

#[test]
fn build_error_becomes_framework_error() {
    let error = std::io::Error::new(std::io::ErrorKind::Other, "no threads");
    assert!(TokioComponent::from_runtime(Err(error)).is_err());
    let rt = tokio::runtime::Builder::new_current_thread().build().unwrap();
    assert!(TokioComponent::from_runtime(Ok(rt)).unwrap().rt.is_some());
}

#[test]
fn shutdown_timeout_is_twenty_seconds() {
    assert_eq!(TOKIO_SHUTDOWN_TIMEOUT_SECS, 20);
}

#[test]
fn shutdown_signal_takes_precedence() {
    let (state, action) = stop_after(RunEvent::Polled {
        shutdown_ready: true,
        output: Some(Err("failed".to_string())),
    });
    assert!(matches!(state, RunState::Exited(ExitKind::Graceful)));
    assert_eq!(action, RunAction::Exit(ExitKind::Graceful));
}

#[test]
fn root_future_error_forces_shutdown() {
    let (state, action) = stop_after(RunEvent::Polled {
        shutdown_ready: false,
        output: Some(Err("failed".to_string())),
    });
    assert!(matches!(state, RunState::Exited(ExitKind::Forced)));
    assert_eq!(action, RunAction::Exit(ExitKind::Forced));
}

#[test]
fn root_future_success_exits_gracefully() {
    let (_, action) = stop_after(RunEvent::Polled { shutdown_ready: false, output: Some(Ok(())) });
    assert_eq!(action, RunAction::Exit(ExitKind::Graceful));
}

#[test]
fn pending_futures_keep_polling() {
    let (state, action) =
        run_step::<Report>(RunState::Running, RunEvent::Polled { shutdown_ready: false, output: None });
    assert!(matches!(state, RunState::Running));
    assert_eq!(action, RunAction::Poll);
    let (state, action) = run_step::<Report>(state, RunEvent::RuntimeStopped);
    assert!(matches!(state, RunState::Running));
    assert_eq!(action, RunAction::Poll);
}

#[test]
fn stopping_waits_for_the_runtime_and_exited_is_final() {
    let (state, action) = run_step::<Report>(
        RunState::Stopping(Ok(())),
        RunEvent::Polled { shutdown_ready: true, output: None },
    );
    assert!(matches!(state, RunState::Stopping(Ok(()))));
    assert_eq!(action, RunAction::ShutdownRuntime { timeout_secs: 20 });
    let (state, action) = run_step::<Report>(RunState::Exited(ExitKind::Forced), RunEvent::RuntimeStopped);
    assert!(matches!(state, RunState::Exited(ExitKind::Forced)));
    assert_eq!(action, RunAction::Exit(ExitKind::Forced));
}

#[test]
fn exit_kind_of_results() {
    assert_eq!(exit_kind::<Report>(&Ok(())), ExitKind::Graceful);
    assert_eq!(exit_kind(&Err("x".to_string())), ExitKind::Forced);
}
