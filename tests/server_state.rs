use llm_server::server::{dispatch_message, relay_result, ClientSlot, ServerAction};
use llm_server::state::GenerationState;
use llm_server::wire::{GenerationResults, Message};

fn results(terminated: bool) -> GenerationResults {
    GenerationResults {
        was_terminated: terminated,
        full_generated_lines: vec!["one".to_string()],
        feed_prompt_dur_ms: 1,
        predict_dur_ms: 2,
        predict_tokens: 3,
    }
}

#[test]
fn busy_request_is_rejected_once_done_is_sent() {
    let mut gs = GenerationState::new();
    let first = dispatch_message(&mut gs, Message::GeneratePrompt("a".to_string()));
    assert!(matches!(first, ServerAction::StartGeneration(ref p) if p == "a"));
    gs.commit_line("partial".to_string());
    gs.disconnect();
    let second = dispatch_message(&mut gs, Message::GeneratePrompt("b".to_string()));
    assert!(matches!(second, ServerAction::Ignore));
    assert!(gs.is_generating);
    assert!(gs.should_terminate);
    assert_eq!(gs.generated_lines, vec!["partial".to_string()]);

    let mut done = 0;
    for action in [first, second] {
        if let ServerAction::StartGeneration(_) = action {
            if let Some(Message::GenerationDone(_)) = relay_result(&mut gs, true, results(false)) {
                done += 1;
            }
        }
    }
    assert_eq!(done, 1);
    assert!(!gs.is_generating);
    assert!(gs.generated_lines.is_empty());
}

#[test]
fn admission_after_done() {
    let mut gs = GenerationState::new();
    assert!(gs.try_admit());
    assert!(!gs.try_admit());
    gs.end_generation();
    assert!(gs.try_admit());
}

#[test]
fn poll_returns_committed_lines() {
    let mut gs = GenerationState::new();
    gs.try_admit();
    gs.commit_line("x".to_string());
    gs.commit_line("y".to_string());
    let r = dispatch_message(&mut gs, Message::RequestCurrentGeneratedLines);
    match r {
        ServerAction::Reply(Message::CurrentGeneratedLinesResponse(lines)) => {
            assert_eq!(lines, vec!["x".to_string(), "y".to_string()])
        }
        _ => panic!("expected a reply"),
    }
}

#[test]
fn server_messages_from_client_are_ignored() {
    let mut gs = GenerationState::new();
    let r = dispatch_message(&mut gs, Message::CurrentGeneratedLinesResponse(vec![]));
    assert!(matches!(r, ServerAction::Ignore));
    let r = dispatch_message(&mut gs, Message::GenerationDone(results(false)));
    assert!(matches!(r, ServerAction::Ignore));
    assert!(!gs.is_generating);
    assert!(Message::RequestCurrentGeneratedLines.is_client_request());
    assert!(!Message::GenerationDone(results(true)).is_client_request());
}

#[test]
fn disconnect_when_idle_does_nothing() {
    let mut gs = GenerationState::new();
    gs.disconnect();
    assert!(!gs.should_terminate);
    gs.try_admit();
    gs.disconnect();
    assert!(gs.should_terminate);
    assert!(gs.take_termination());
    assert!(!gs.should_terminate);
    assert!(!gs.take_termination());
}

#[test]
fn relay_without_client_sends_nothing() {
    let mut gs = GenerationState::new();
    gs.try_admit();
    assert!(relay_result(&mut gs, false, results(false)).is_none());
    assert!(!gs.is_generating);
    gs.try_admit();
    match relay_result(&mut gs, true, results(true)) {
        Some(Message::GenerationDone(r)) => {
            assert!(r.was_terminated);
            assert_eq!(r.predict_tokens, 3);
        }
        _ => panic!("expected results"),
    }
}

#[test]
fn client_slot_tracks_nothing_at_first() {
    let slot = ClientSlot::new();
    assert!(slot.current().is_none());
}

#[test]
fn stale_stop_request_is_reset_on_admission() {
    let mut gs = GenerationState::new();
    gs.try_admit();
    gs.disconnect();
    gs.end_generation();
    assert!(gs.should_terminate);
    assert!(gs.try_admit());
    assert!(!gs.should_terminate);
    assert!(gs.generated_lines.is_empty());
}
