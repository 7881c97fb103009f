use notify_bot::command::{extract_command, init, Command};
use notify_bot::dispatch::route_update;
use notify_bot::api::{ApiChat, ApiMessage, ApiUpdate};

fn text_update(id: i64, chat: i64, text: Option<&str>) -> ApiUpdate {
    ApiUpdate {
        update_id: id,
        message: Some(ApiMessage {
            message_id: 1,
            from_user: None,
            date: 0,
            chat: ApiChat { id: chat },
            text: text.map(|t| t.to_string()),
            entities: None,
        }),
        edited_message: None,
    }
}

#[test]
fn test_extract_command() {
    let table = init();
    extract_command(&table, "");
    extract_command(&table, "/");
    extract_command(&table, "/ ");
    extract_command(&table, "/  ");
    extract_command(&table, "/\t 1");
    assert_eq!(2 + 2, 4);
}

#[test]
fn start_with_argument() {
    let table = init();
    assert_eq!(extract_command(&table, "/start foo"), Some((Command::Start, "foo")));
}

#[test]
fn help_without_argument() {
    let table = init();
    assert_eq!(extract_command(&table, "/help"), Some((Command::Help, "")));
}

#[test]
fn unknown_command_is_ignored() {
    let table = init();
    assert_eq!(extract_command(&table, "/unknown"), None);
}

#[test]
fn empty_and_lone_marker_are_ignored() {
    let table = init();
    assert_eq!(extract_command(&table, ""), None);
    assert_eq!(extract_command(&table, "/"), None);
    assert_eq!(extract_command(&table, "/ "), None);
    assert_eq!(extract_command(&table, "/\t 1"), None);
}

#[test]
fn tab_separates_and_tail_is_trimmed() {
    let table = init();
    assert_eq!(extract_command(&table, "/stop\t  bye  "), Some((Command::Stop, "bye")));
    assert_eq!(extract_command(&table, "/show_token x y"), Some((Command::ShowToken, "x y")));
    assert_eq!(extract_command(&table, "/update_token"), Some((Command::UpdateToken, "")));
}

#[test]
fn lookup_is_case_sensitive() {
    let table = init();
    assert_eq!(extract_command(&table, "/Start"), None);
    assert_eq!(extract_command(&table, "start"), None);
}

#[test]
fn route_trims_message_text() {
    let table = init();
    assert_eq!(route_update(&table, &text_update(1, 7, Some("  /help  "))), Some((7, Command::Help)));
    assert_eq!(route_update(&table, &text_update(2, 7, None)), None);
    assert_eq!(route_update(&table, &text_update(3, 7, Some("hello"))), None);
    let no_message = ApiUpdate { update_id: 4, message: None, edited_message: None };
    assert_eq!(route_update(&table, &no_message), None);
}

#[test]
fn any_white_space_ends_the_command_word() {
    let table = init();
    assert_eq!(extract_command(&table, "/start\nfoo"), Some((Command::Start, "foo")));
    assert_eq!(extract_command(&table, "/help\r\n"), Some((Command::Help, "")));
    assert_eq!(extract_command(&table, "/stop\u{a0}now"), Some((Command::Stop, "now")));
}
