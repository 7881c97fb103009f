use notify_bot::mode::{DeliveryMode, ModeCoordinator, ModeStep};
use notify_bot::poll::{PollAction, PollLoop};
use notify_bot::state::AppState;

#[test]
fn three_empty_fetches_switch_to_push() {
    let mut p = PollLoop::new();
    assert_eq!(p.on_batch(&vec![]), PollAction::Fetch);
    assert_eq!(p.on_batch(&vec![]), PollAction::Fetch);
    assert_eq!(p.on_batch(&vec![]), PollAction::SwitchToPush);
}

#[test]
fn nonempty_fetch_resets_counter() {
    let mut p = PollLoop::new();
    assert_eq!(p.on_batch(&vec![]), PollAction::Fetch);
    assert_eq!(p.on_batch(&vec![]), PollAction::Fetch);
    assert_eq!(p.on_batch(&vec![10, 11]), PollAction::Fetch);
    assert_eq!(p.cursor(), 12);
    assert_eq!(p.on_batch(&vec![]), PollAction::Fetch);
    assert_eq!(p.on_batch(&vec![]), PollAction::Fetch);
    assert_eq!(p.on_batch(&vec![]), PollAction::SwitchToPush);
}

#[test]
fn fetch_error_keeps_state() {
    let mut p = PollLoop::new();
    assert_eq!(p.on_batch(&vec![]), PollAction::Fetch);
    assert_eq!(p.on_fetch_error(), PollAction::RetryAfterDelay);
    assert_eq!(p.on_batch(&vec![]), PollAction::Fetch);
    assert_eq!(p.on_batch(&vec![]), PollAction::SwitchToPush);
    assert_eq!(p.cursor(), 0);
}

#[test]
fn cursor_is_one_past_largest_id() {
    let mut p = PollLoop::new();
    p.on_batch(&vec![5, 3, 9, 7]);
    assert_eq!(p.cursor(), 10);
    p.on_batch(&vec![2]);
    assert_eq!(p.cursor(), 10);
    p.on_batch(&vec![i64::MAX]);
    assert_eq!(p.cursor(), i64::MAX);
}

#[test]
fn duplicate_push_requests_make_one_call() {
    let mut m = ModeCoordinator::new();
    assert_eq!(m.request(DeliveryMode::Push), ModeStep::RegisterWebhook);
    assert_eq!(m.request(DeliveryMode::Push), ModeStep::Busy);
    assert_eq!(m.request(DeliveryMode::Pull), ModeStep::Busy);
    assert!(!m.report(true));
    assert_eq!(m.mode(), DeliveryMode::Push);
    assert_eq!(m.request(DeliveryMode::Push), ModeStep::AlreadyActive);
}

#[test]
fn pull_switch_starts_one_loop() {
    let mut m = ModeCoordinator::new();
    assert_eq!(m.request(DeliveryMode::Pull), ModeStep::ClearWebhook);
    assert!(m.report(true));
    assert_eq!(m.mode(), DeliveryMode::Pull);
    assert_eq!(m.request(DeliveryMode::Pull), ModeStep::AlreadyActive);
}

#[test]
fn failed_call_keeps_mode() {
    let mut m = ModeCoordinator::new();
    assert_eq!(m.request(DeliveryMode::Pull), ModeStep::ClearWebhook);
    assert!(!m.report(false));
    assert_eq!(m.mode(), DeliveryMode::Unspecified);
    assert_eq!(m.request(DeliveryMode::Pull), ModeStep::ClearWebhook);
}

#[test]
fn frequent_deliveries_request_pull() {
    let mut s = AppState { prev_query_time: 10_000 };
    assert!(s.record_delivery(14_999));
    assert_eq!(s.prev_query_time, 14_999);
    assert!(!s.record_delivery(19_999));
    assert!(!s.record_delivery(1_000));
    assert_eq!(s.prev_query_time, 19_999);
}

#[test]
fn batch_order_is_ascending() {
    let ord = notify_bot::poll::ascending_order(&vec![7, 3, 9, 3]);
    assert_eq!(ord.len(), 4);
    let ids = [7, 3, 9, 3];
    for w in ord.windows(2) {
        assert!(ids[w[0]] <= ids[w[1]]);
    }
    assert_eq!(ids[ord[3]], 9);
    assert_eq!(ids[ord[2]], 7);
}
