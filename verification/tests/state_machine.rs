use worker_engine::state::WorkerState::{Done, Failed, Running, WaitingForInput};
use worker_engine::state::{WorkerError, WorkerState};
use worker_engine::worker::Worker;

fn fresh(state: WorkerState) -> Worker {
    let mut w = Worker::new(None, "task".to_string(), "sys".to_string());
    w.state = state;
    w
}

#[test]
fn transition_table_is_exact() {
    let states = [Running, WaitingForInput, Done, Failed];
    for &from in &states {
        for &to in &states {
            let expected = matches!(
                (from, to),
                (Running, WaitingForInput)
                    | (Running, Done)
                    | (Running, Failed)
                    | (WaitingForInput, Running)
                    | (WaitingForInput, Failed)
            );
            let w = fresh(from);
            assert_eq!(w.can_transition_to(to), expected, "{from:?} -> {to:?}");
            let mut w = fresh(from);
            let r = w.transition_to(to);
            assert_eq!(r.is_ok(), expected, "{from:?} -> {to:?}");
            if expected {
                assert_eq!(w.state, to);
            } else {
                assert_eq!(w.state, from);
            }
        }
    }
}

#[test]
fn done_to_running_fails_and_state_stays_done() {
    let mut w = fresh(WorkerState::Done);
    let r = w.transition_to(WorkerState::Running);
    match r {
        Err(WorkerError::InvalidStateTransition(m)) => {
            assert_eq!(m, "can't transition from Done to Running");
        }
        Ok(()) => panic!("transition out of Done must fail"),
    }
    assert_eq!(w.state, WorkerState::Done);
}

#[test]
fn waiting_to_done_directly_is_illegal() {
    let mut w = fresh(WorkerState::WaitingForInput);
    assert!(w.transition_to(WorkerState::Done).is_err());
    assert_eq!(w.state, WorkerState::WaitingForInput);
}

#[test]
fn error_message_accessor_returns_text() {
    let mut w = fresh(WorkerState::Failed);
    match w.transition_to(WorkerState::Running) {
        Err(e) => assert_eq!(e.message(), "can't transition from Failed to Running"),
        Ok(()) => panic!("transition out of Failed must fail"),
    }
}

#[test]
fn is_done_only_in_terminal_states() {
    assert!(!fresh(WorkerState::Running).is_done());
    assert!(!fresh(WorkerState::WaitingForInput).is_done());
    assert!(fresh(WorkerState::Done).is_done());
    assert!(fresh(WorkerState::Failed).is_done());
}

#[test]
fn state_labels_match_names() {
    assert_eq!(WorkerState::Running.label(), "Running");
    assert_eq!(WorkerState::WaitingForInput.label(), "WaitingForInput");
    assert_eq!(WorkerState::Done.label(), "Done");
    assert_eq!(WorkerState::Failed.label(), "Failed");
}

#[test]
fn constructors_set_identity_and_mode() {
    let w = Worker::new(Some("chan".to_string()), "t".to_string(), "s".to_string());
    assert_eq!(w.state, WorkerState::Running);
    assert_eq!(w.channel_id.as_deref(), Some("chan"));
    assert_eq!(w.task, "t");
    assert_eq!(w.system_prompt, "s");
    assert!(!w.is_interactive());
    assert_eq!(w.id.len(), 36);

    let wi = Worker::new_interactive(None, "t2".to_string(), "s2".to_string());
    assert!(wi.is_interactive());
    assert_eq!(wi.state, WorkerState::Running);
    assert_eq!(wi.id.len(), 36);
    assert_ne!(w.id, wi.id, "ids are unique");
}
