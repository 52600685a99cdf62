use solcore::transaction_listener::{
    slots_in_range, ListenerState, PollAction, TransactionParser,
};

#[test]
fn start_is_idempotent() {
    let mut state = ListenerState::new();
    assert!(!state.is_listening());
    let first = state.start();
    assert!(first);
    assert!(state.is_listening());
    // A second start without a stop spawns nothing.
    let second = state.start();
    assert!(!second);
    assert!(state.is_listening());
}

#[test]
fn stop_is_observed_at_next_tick() {
    let mut state = ListenerState::new();
    state.start();
    state.stop();
    assert!(!state.is_listening());
    assert_eq!(state.on_poll_tick(Some(1000)), PollAction::Exit);
}

#[test]
fn cold_start_backfills_ten_slots() {
    let mut state = ListenerState::new();
    state.start();
    let action = state.on_poll_tick(Some(100));
    assert_eq!(action, PollAction::ProcessSlots { after: 90, upto: 100 });
    assert_eq!(state.last_processed_slot, 100);
    let next = state.on_poll_tick(Some(103));
    assert_eq!(next, PollAction::ProcessSlots { after: 100, upto: 103 });
    assert_eq!(state.last_processed_slot, 103);
}

#[test]
fn low_cold_start_begins_at_zero() {
    let mut state = ListenerState::new();
    state.start();
    let action = state.on_poll_tick(Some(4));
    assert_eq!(action, PollAction::ProcessSlots { after: 0, upto: 4 });
}

#[test]
fn failed_height_query_backs_off() {
    let mut state = ListenerState::new();
    state.start();
    let action = state.on_poll_tick(None);
    assert_eq!(action, PollAction::Backoff { seconds: 10 });
    assert_eq!(state.last_processed_slot, 0);
}

#[test]
fn slot_windows_are_ascending_and_complete() {
    let slots = slots_in_range(90, 100);
    assert_eq!(slots, (91..=100).collect::<Vec<u64>>());
    assert!(slots_in_range(100, 100).is_empty());
    assert!(slots_in_range(103, 100).is_empty());
}

#[test]
fn transaction_parsers_report_no_events() {
    let raw = serde_json::Value::Null;
    assert!(TransactionParser::parse_token_transfer("sig", &raw).unwrap().is_none());
    assert!(TransactionParser::parse_token_swap("sig", &raw).unwrap().is_none());
    assert!(TransactionParser::parse_token_mint("sig", &raw).unwrap().is_none());
}
