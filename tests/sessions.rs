use notify_bot::session::SessionStore;
use notify_bot::error::BotError;
use notify_bot::time::unix_time_current;

#[test]
fn create_then_find() {
    let mut s = SessionStore::new();
    assert_eq!(s.create_session(&[1, 2, 3], 42), Ok(()));
    assert_eq!(s.find_token_by_chat(42), Some(vec![1, 2, 3]));
    assert_eq!(s.find_chat_by_token(&[1, 2, 3]), Some(42));
}

#[test]
fn second_session_replaces_first() {
    let mut s = SessionStore::new();
    s.create_session(&[1], 5).unwrap();
    s.create_session(&[2], 5).unwrap();
    assert_eq!(s.find_chat_by_token(&[1]), None);
    assert_eq!(s.find_chat_by_token(&[2]), Some(5));
    assert_eq!(s.find_token_by_chat(5), Some(vec![2]));
}

#[test]
fn delete_then_find() {
    let mut s = SessionStore::new();
    s.create_session(&[9, 9], 3).unwrap();
    s.delete_session(3);
    assert_eq!(s.find_token_by_chat(3), None);
    assert_eq!(s.find_chat_by_token(&[9, 9]), None);
    s.delete_session(3);
    s.delete_session(77);
    assert_eq!(s.find_token_by_chat(77), None);
}

#[test]
fn colliding_token_is_refused() {
    let mut s = SessionStore::new();
    s.create_session(&[4, 4], 1).unwrap();
    assert_eq!(s.create_session(&[4, 4], 2), Err(BotError::Storage));
    assert_eq!(s.find_chat_by_token(&[4, 4]), Some(1));
    assert_eq!(s.find_token_by_chat(2), None);
    assert_eq!(s.create_session(&[4, 4], 1), Ok(()));
}

#[test]
fn sessions_of_other_chats_stay() {
    let mut s = SessionStore::new();
    s.create_session(&[1], 1).unwrap();
    s.create_session(&[2], 2).unwrap();
    s.delete_session(1);
    assert_eq!(s.find_token_by_chat(2), Some(vec![2]));
    assert_eq!(s.find_chat_by_token(&[2]), Some(2));
}

#[test]
fn clock_reads_after_2020() {
    assert!(unix_time_current() > 1_577_836_800);
}
