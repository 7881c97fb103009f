use base64::Engine;
use notify_bot::api::{ApiChat, ApiMessage, ApiUpdate, QueryResult as Envelope};
use notify_bot::bot::{get_updates_params, send_message_params, set_my_commands_params, TelegramBot};
use notify_bot::command::{init, Command};
use notify_bot::dispatch::{handle_command, handle_update, help_text, SessionChange};
use notify_bot::error::BotError;
use notify_bot::random::{self, new_token};
use notify_bot::relay::{deliver_decoded, handle_message, response_for, RelayStatus, SendMessageRequest};
use notify_bot::session::SessionStore;

fn b64(b: &[u8]) -> String {
    base64::engine::general_purpose::STANDARD_NO_PAD.encode(b)
}

fn text_update(chat: i64, text: &str) -> ApiUpdate {
    ApiUpdate {
        update_id: 1,
        message: Some(ApiMessage {
            message_id: 1,
            from_user: None,
            date: 0,
            chat: ApiChat { id: chat },
            text: Some(text.to_string()),
            entities: None,
        }),
        edited_message: None,
    }
}

#[test]
fn unknown_token_is_unauthorized() {
    let store = SessionStore::new();
    let req = SendMessageRequest { token: b64(&[7u8; 32]), message: "hi".to_string() };
    assert_eq!(handle_message(&store, &req).unwrap_err(), RelayStatus::Unauthorized);
    let body = response_for(RelayStatus::Unauthorized);
    assert_eq!(body.status, "UNAUTHORIZED");
    assert_eq!(body.message.as_deref(), Some("token not found"));
    assert_eq!(RelayStatus::Unauthorized.status_code(), 401);
}

#[test]
fn malformed_token_is_bad_request() {
    let store = SessionStore::new();
    let req = SendMessageRequest { token: "not base64!".to_string(), message: "hi".to_string() };
    assert_eq!(handle_message(&store, &req).unwrap_err(), RelayStatus::BadRequest);
    let body = response_for(RelayStatus::BadRequest);
    assert_eq!(body.status, "BAD_REQUEST");
    assert_eq!(RelayStatus::BadRequest.status_code(), 400);
}

#[test]
fn valid_token_sends_to_its_chat() {
    let mut store = SessionStore::new();
    let token = [3u8; 32];
    store.create_session(&token, 99).unwrap();
    let req = SendMessageRequest { token: b64(&token), message: "hello".to_string() };
    let msg = handle_message(&store, &req).unwrap();
    assert_eq!(msg.chat_id, 99);
    assert_eq!(msg.text, "hello");
    let body = response_for(RelayStatus::Delivered);
    assert_eq!(body.status, "OK");
    assert_eq!(body.message, None);
    assert_eq!(RelayStatus::Delivered.status_code(), 200);
    assert_eq!(response_for(RelayStatus::ServerError).status, "SERVER_ERROR");
}

#[test]
fn start_creates_session_and_replies_with_token() {
    let table = init();
    let mut store = SessionStore::new();
    let fresh = [1u8, 2, 3];
    let out = handle_command(&mut store, &table, 5, Command::Start, &fresh).unwrap();
    assert_eq!(out.reply.chat_id, 5);
    assert_eq!(
        out.reply.text,
        "generated token\n\nAQID\n\nuse it to send requests using notify-me-api npm package"
    );
    assert!(matches!(out.change, Some(SessionChange::Replaced { chat_id: 5, .. })));
    assert_eq!(store.find_token_by_chat(5), Some(vec![1, 2, 3]));
    let again = handle_command(&mut store, &table, 5, Command::Start, &[9u8]).unwrap();
    assert_eq!(
        again.reply.text,
        "token already exist for your chat\n\nAQID\n\nuse it to send requests using notify-me-api npm package"
    );
    assert!(again.change.is_none());
    assert_eq!(store.find_token_by_chat(5), Some(vec![1, 2, 3]));
}

#[test]
fn update_token_always_regenerates() {
    let table = init();
    let mut store = SessionStore::new();
    handle_command(&mut store, &table, 5, Command::Start, &[1u8]).unwrap();
    let out = handle_command(&mut store, &table, 5, Command::UpdateToken, &[2u8]).unwrap();
    assert_eq!(out.reply.text, format!("new token\n\n{}\n\nuse it to send requests using notify-me-api npm package", b64(&[2])));
    assert_eq!(store.find_chat_by_token(&[1]), None);
    assert_eq!(store.find_chat_by_token(&[2]), Some(5));
}

#[test]
fn update_token_with_taken_token_fails() {
    let table = init();
    let mut store = SessionStore::new();
    store.create_session(&[8u8], 1).unwrap();
    let r = handle_command(&mut store, &table, 2, Command::UpdateToken, &[8u8]);
    assert_eq!(r.unwrap_err(), BotError::Storage);
    assert_eq!(store.find_token_by_chat(2), None);
}

#[test]
fn stop_and_show_token() {
    let table = init();
    let mut store = SessionStore::new();
    let none = handle_command(&mut store, &table, 4, Command::ShowToken, &[]).unwrap();
    assert_eq!(
        none.reply.text,
        "Token not found, this chat not connected to bot.\n\nrun /start to connect and get token."
    );
    store.create_session(&[0xff, 0xfe], 4).unwrap();
    let shown = handle_command(&mut store, &table, 4, Command::ShowToken, &[]).unwrap();
    assert_eq!(shown.reply.text, "your token:\n\n//4\n\nuse it to send requests using notify-me-api npm package");
    let stop = handle_command(&mut store, &table, 4, Command::Stop, &[]).unwrap();
    assert_eq!(
        stop.reply.text,
        "Deleted token for this chat.\n\nYou will not receive any messages from this bot until next /start."
    );
    assert!(matches!(stop.change, Some(SessionChange::Removed { chat_id: 4 })));
    assert_eq!(store.find_token_by_chat(4), None);
    let stop_again = handle_command(&mut store, &table, 4, Command::Stop, &[]);
    assert!(stop_again.is_ok());
}

#[test]
fn help_lists_commands() {
    let table = init();
    let text = help_text(&table);
    assert!(text.starts_with("This bot allow to send messages from web to telegram chats.\n"));
    assert!(text.ends_with(
        "Available commands:\n/start Start chat (connect to bot)\n/stop Stop chat (disconnect from bot)\n/help Show commands\n/show_token Show my current token\n/update_token Update current token\n"
    ));
}

#[test]
fn update_start_draws_random_token() {
    let table = init();
    let rng = random::init();
    let mut store = SessionStore::new();
    let out = handle_update(&mut store, &table, &rng, &text_update(11, " /start ")).unwrap().unwrap();
    let token = store.find_token_by_chat(11).unwrap();
    assert_eq!(token.len(), 32);
    assert!(out.reply.text.contains(&b64(&token)));
    assert!(handle_update(&mut store, &table, &rng, &text_update(11, "hello")).is_none());
}

#[test]
fn random_tokens_are_filled() {
    let rng = random::init();
    let a = new_token(&rng).unwrap();
    let b = new_token(&rng).unwrap();
    assert_eq!(a.len(), 32);
    assert_ne!(a, vec![0u8; 32]);
    assert_ne!(a, b);
}

#[test]
fn webhook_secret_is_checked() {
    let table = init();
    let rng = random::init();
    let bot = TelegramBot::from_parts("123:abc", "https://example.org/webhook", &[0x00, 0x10]);
    assert_eq!(bot.webhook_token(), "-_-");
    assert!(bot.accepts_webhook_secret("-_-"));
    assert!(!bot.accepts_webhook_secret("-_"));
    let mut store = SessionStore::new();
    assert!(bot.handle_webhook_update("wrong", &text_update(1, "/start"), &mut store, &table, &rng).is_none());
    assert_eq!(store.find_token_by_chat(1), None);
    assert!(bot.handle_webhook_update("-_-", &text_update(1, "/start"), &mut store, &table, &rng).is_some());
    assert!(store.find_token_by_chat(1).is_some());
    assert_eq!(bot.method_url("getMe"), "https://api.telegram.org/bot123:abc/getMe");
    let p = bot.set_webhook_params();
    assert_eq!(p.url, "https://example.org/webhook");
    assert_eq!(p.secret_token, "-_-");
}

#[test]
fn bot_init_makes_secret() {
    let rng = random::init();
    let bot = TelegramBot::init("t", "u", &rng).unwrap();
    assert_eq!(bot.webhook_token().len(), 43);
}

#[test]
fn request_parameters() {
    let p = get_updates_params(17);
    assert_eq!(p.offset, Some(17));
    assert_eq!(p.timeout, Some(1024));
    let s = send_message_params(3, "x");
    assert_eq!((s.chat_id, s.text.as_str()), (3, "x"));
    let c = set_my_commands_params(&init());
    assert_eq!(c.commands.len(), 5);
    assert_eq!(c.commands[3].command, "/show_token");
    assert_eq!(c.commands[3].description, "Show my current token");
}

#[test]
fn envelope_errors() {
    let ok: Envelope<i64> = Envelope { ok: true, result: Some(4), description: None };
    assert_eq!(ok.into_result(), Ok(4));
    let refused: Envelope<i64> = Envelope { ok: false, result: Some(4), description: Some("Bad Request".to_string()) };
    assert_eq!(refused.into_result(), Err(BotError::Upstream("Bad Request".to_string())));
    let empty: Envelope<i64> = Envelope { ok: true, result: None, description: None };
    assert!(matches!(empty.into_result(), Err(BotError::Upstream(_))));
}

#[test]
fn batch_is_handled_by_ascending_id() {
    let table = init();
    let rng = random::init();
    let mut store = SessionStore::new();
    let mut late = text_update(1, "/stop");
    late.update_id = 20;
    let mut early = text_update(1, "/start");
    early.update_id = 10;
    let ignored = ApiUpdate { update_id: 15, message: None, edited_message: None };
    let out = notify_bot::dispatch::handle_updates(&mut store, &table, &rng, &vec![late, ignored, early]);
    let order: Vec<usize> = out.iter().map(|(i, _)| *i).collect();
    assert_eq!(order, vec![2, 1, 0]);
    assert!(out[1].1.is_none());
    assert_eq!(store.find_token_by_chat(1), None);
}

#[test]
fn routed_help_succeeds_and_keeps_table() {
    let table = init();
    let rng = random::init();
    let mut store = SessionStore::new();
    store.create_session(&[7u8; 32], 3).unwrap();
    let out = handle_update(&mut store, &table, &rng, &text_update(42, "  /help  ")).unwrap().unwrap();
    assert_eq!(out.reply.chat_id, 42);
    assert!(out.change.is_none());
    for (name, description) in [
        ("/start", "Start chat (connect to bot)"),
        ("/stop", "Stop chat (disconnect from bot)"),
        ("/help", "Show commands"),
        ("/show_token", "Show my current token"),
        ("/update_token", "Update current token"),
    ] {
        assert!(out.reply.text.contains(&format!("{name} {description}\n")));
    }
    assert_eq!(store.find_token_by_chat(3), Some(vec![7u8; 32]));
    assert_eq!(store.find_token_by_chat(42), None);
}

#[test]
fn webhook_with_right_secret_dispatches_like_an_update() {
    let table = init();
    let rng = random::init();
    let bot = TelegramBot::from_parts("123:abc", "https://example.org/webhook", &[0x00, 0x10]);
    let mut store = SessionStore::new();
    let out = bot.handle_webhook_update("-_-", &text_update(8, "/help"), &mut store, &table, &rng);
    let out = out.unwrap().unwrap();
    assert_eq!(out.reply.chat_id, 8);
    assert_eq!(out.reply.text, help_text(&table));
    assert!(bot.handle_webhook_update("-_-", &text_update(8, "hi"), &mut store, &table, &rng).is_none());
    assert_eq!(store.find_token_by_chat(8), None);
}

#[test]
fn batch_without_commands_keeps_table() {
    let table = init();
    let rng = random::init();
    let mut store = SessionStore::new();
    store.create_session(&[1u8, 2], 9).unwrap();
    let updates = vec![
        ApiUpdate { update_id: 5, message: None, edited_message: None },
        ApiUpdate { update_id: 3, message: None, edited_message: None },
        ApiUpdate { update_id: 7, message: None, edited_message: None },
    ];
    let out = notify_bot::dispatch::handle_updates(&mut store, &table, &rng, &updates);
    let order: Vec<usize> = out.iter().map(|(i, _)| *i).collect();
    assert_eq!(order, vec![1, 0, 2]);
    assert!(out.iter().all(|(_, r)| r.is_none()));
    assert_eq!(store.find_token_by_chat(9), Some(vec![1u8, 2]));
}

#[test]
fn decoded_token_decides_relay() {
    let mut store = SessionStore::new();
    store.create_session(&[4u8, 5, 6], 77).unwrap();
    assert!(matches!(deliver_decoded(&store, &None, "m"), Err(RelayStatus::BadRequest)));
    assert!(matches!(deliver_decoded(&store, &Some(vec![9u8]), "m"), Err(RelayStatus::Unauthorized)));
    let msg = deliver_decoded(&store, &Some(vec![4u8, 5, 6]), "hello").unwrap();
    assert_eq!((msg.chat_id, msg.text.as_str()), (77, "hello"));
}

#[test]
fn encoded_lengths() {
    let bot = TelegramBot::from_parts("t", "u", &[0u8; 32]);
    assert_eq!(bot.webhook_token().len(), 43);
    let one = TelegramBot::from_parts("t", "u", &[0xffu8]);
    assert_eq!(one.webhook_token(), "9u");
}
