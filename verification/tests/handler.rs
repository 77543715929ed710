use teloxide::types::InlineKeyboardButtonKind;
use yandex_cloud_bot::catalog::PathData;
use yandex_cloud_bot::chat_server::ChatServer;
use yandex_cloud_bot::command::DESCRIPTIONS;
use yandex_cloud_bot::handler::{
    handle, Action, Event, Failure, Json, Message, MessageState, ACCESS_DENIED, ACCESS_GRANTED,
    FOUND_CAPTION, NEW_USER, NOT_IN_GROUPS, PROCESSED,
};
use yandex_cloud_bot::outgoing::Outgoing;
use yandex_cloud_bot::profile::{Chat, User};

fn server() -> ChatServer {
    ChatServer::new(
        "filebot".to_string(),
        "OAuth token".to_string(),
        "CORRECTKEY".to_string(),
        42,
        "/root".to_string(),
        "/tmp/bot".to_string(),
    )
}

fn ann() -> Chat {
    Chat {
        id: 1001,
        username: Some("ann_lee".to_string()),
        first_name: Some("Ann".to_string()),
        last_name: None,
    }
}

fn message(text: &str) -> Message {
    Message { chat: ann(), text: Some(text.to_string()) }
}

fn entry(name: &str, path: &str, hash: &str) -> PathData {
    PathData { name: name.to_string(), path: path.to_string(), hash: hash.to_string() }
}

fn markdown(chat_id: i64, text: &str) -> Action {
    Action::Send(Outgoing::Markdown { chat_id, text: text.to_string() })
}

#[test]
fn the_fixed_texts() {
    assert_eq!(ACCESS_GRANTED, "Доступ разрешен");
    assert_eq!(ACCESS_DENIED, "Доступ запрешен");
    assert_eq!(NOT_IN_GROUPS, "Команда не доступна в группе");
    assert_eq!(FOUND_CAPTION, "Найденные обработки:");
    assert_eq!(NEW_USER, "Новый пользователь: ");
    assert_eq!(PROCESSED, "Файл обработки");
}

#[test]
fn a_message_without_text_is_dropped() {
    let silent = Message { chat: ann(), text: None };
    assert_eq!(
        handle(&server(), &silent, MessageState::Received, Event::Arrived),
        (MessageState::Closed, Action::Finish)
    );
}

#[test]
fn start_in_a_private_chat_gets_the_help_text() {
    assert_eq!(
        handle(&server(), &message("/start"), MessageState::Received, Event::Arrived),
        (MessageState::AwaitDelivery, markdown(1001, DESCRIPTIONS))
    );
}

#[test]
fn start_in_a_group_is_turned_down() {
    let mut in_group = message("/start@filebot");
    in_group.chat.id = -1001234567890;
    assert_eq!(
        handle(&server(), &in_group, MessageState::Received, Event::Arrived),
        (MessageState::AwaitDelivery, markdown(-1001234567890, "Команда не доступна в группе"))
    );
    in_group.chat.id = 0;
    assert_eq!(
        handle(&server(), &in_group, MessageState::Received, Event::Arrived),
        (MessageState::AwaitDelivery, markdown(0, "Команда не доступна в группе"))
    );
}

#[test]
fn everything_but_start_asks_the_allow_list_first() {
    for text in ["/key CORRECTKEY", "/key", "report", "/help", "/start@otherbot", ""] {
        assert_eq!(
            handle(&server(), &message(text), MessageState::Received, Event::Arrived),
            (MessageState::AwaitAccess, Action::CheckAccess { user_id: "1001".to_string() })
        );
    }
}

#[test]
fn the_right_key_registers_a_new_user() {
    let next = handle(
        &server(),
        &message("/key CORRECTKEY"),
        MessageState::AwaitAccess,
        Event::Users(Vec::new()),
    );
    assert_eq!(next, (
        MessageState::AwaitRegistration,
        Action::RegisterUser(User {
            id: "1001".to_string(),
            username: "ann_lee".to_string(),
            first_name: "Ann".to_string(),
            last_name: String::new(),
        })
    ));
}

#[test]
fn the_administrator_hears_of_the_new_user() {
    let next =
        handle(&server(), &message("/key CORRECTKEY"), MessageState::AwaitRegistration, Event::Done);
    assert_eq!(next, (
        MessageState::AwaitAdminNotice,
        Action::Send(Outgoing::AdminNotice {
            admin_id: 42,
            text: "Новый пользователь: ann_lee, Ann, ".to_string(),
        })
    ));
    let next =
        handle(&server(), &message("/key CORRECTKEY"), MessageState::AwaitAdminNotice, Event::Done);
    assert_eq!(next, (MessageState::AwaitDelivery, markdown(1001, "Доступ разрешен")));
}

#[test]
fn a_registered_user_is_not_registered_again() {
    let next = handle(
        &server(),
        &message("/key CORRECTKEY"),
        MessageState::AwaitAccess,
        Event::Users(vec!["1001".to_string()]),
    );
    assert_eq!(next, (MessageState::AwaitDelivery, markdown(1001, "Доступ разрешен")));
    let next = handle(
        &server(),
        &message("/key WRONGKEY"),
        MessageState::AwaitAccess,
        Event::Users(vec!["1001".to_string()]),
    );
    assert_eq!(next, (MessageState::AwaitDelivery, markdown(1001, "Доступ разрешен")));
}

#[test]
fn a_wrong_key_gets_the_same_reply_and_no_registration() {
    for text in ["/key WRONGKEY", "/key", "/key correctkey", "/key CORRECTKEY ", "/key  CORRECTKEY"] {
        let next =
            handle(&server(), &message(text), MessageState::AwaitAccess, Event::Users(Vec::new()));
        assert_eq!(next, (MessageState::AwaitDelivery, markdown(1001, "Доступ разрешен")));
    }
}

#[test]
fn rows_of_other_users_do_not_authorize() {
    let next = handle(
        &server(),
        &message("report"),
        MessageState::AwaitAccess,
        Event::Users(vec!["100".to_string(), "10011".to_string()]),
    );
    assert_eq!(next, (
        MessageState::AwaitDelivery,
        Action::Send(Outgoing::Text { chat_id: 1001, text: "Доступ запрешен".to_string() })
    ));
}

#[test]
fn free_text_of_a_registered_user_starts_a_search() {
    for text in ["Invoice", "/help", "/start@otherbot", "two words", ""] {
        let next = handle(
            &server(),
            &message(text),
            MessageState::AwaitAccess,
            Event::Users(vec!["1001".to_string()]),
        );
        assert_eq!(next, (MessageState::AwaitPaths, Action::FindPaths { query: text.to_string() }));
    }
}

#[test]
fn search_results_go_out_as_choices() {
    let rows = vec![
        entry("Invoice2023", "/docs/i23.epf", "h1"),
        entry("Report", "/docs/r.epf", "h2"),
        entry("Invoice2024", "/docs/i24.epf", "h3"),
    ];
    let (state, action) =
        handle(&server(), &message("Invoice"), MessageState::AwaitPaths, Event::Paths(rows));
    assert_eq!(state, MessageState::AwaitDelivery);
    match action {
        Action::Send(Outgoing::Choices { chat_id, text, keyboard }) => {
            assert_eq!(chat_id, 1001);
            assert_eq!(text, "Найденные обработки:");
            let cells: Vec<Vec<(String, InlineKeyboardButtonKind)>> = keyboard
                .inline_keyboard
                .iter()
                .map(|row| row.iter().map(|b| (b.text.clone(), b.kind.clone())).collect())
                .collect();
            assert_eq!(cells, vec![
                vec![(
                    "Invoice2023".to_string(),
                    InlineKeyboardButtonKind::CallbackData("h1".to_string())
                )],
                vec![(
                    "Invoice2024".to_string(),
                    InlineKeyboardButtonKind::CallbackData("h3".to_string())
                )],
            ]);
        }
        other => panic!("unexpected action {other:?}"),
    }
}

#[test]
fn no_match_still_gives_a_choice_list() {
    let (state, action) = handle(
        &server(),
        &message("Missing"),
        MessageState::AwaitPaths,
        Event::Paths(vec![entry("Invoice2023", "/docs/i23.epf", "h1")]),
    );
    assert_eq!(state, MessageState::AwaitDelivery);
    match action {
        Action::Send(Outgoing::Choices { keyboard, .. }) => {
            assert!(keyboard.inline_keyboard.is_empty())
        }
        other => panic!("unexpected action {other:?}"),
    }
}

#[test]
fn underscores_are_escaped_in_markdown_replies() {
    let cs = ChatServer::new(
        "filebot".to_string(),
        String::new(),
        "a_b".to_string(),
        42,
        String::new(),
        String::new(),
    );
    let next = handle(&cs, &message("/start"), MessageState::Received, Event::Arrived);
    assert_eq!(next, (MessageState::AwaitDelivery, markdown(1001, DESCRIPTIONS)));
    assert!(!DESCRIPTIONS.contains('_'));
    assert_eq!(
        yandex_cloud_bot::text::replace("snake_case_", '_', "\\_"),
        "snake\\_case\\_"
    );
}

#[test]
fn the_last_delivery_closes_the_conversation() {
    assert_eq!(
        handle(&server(), &message("report"), MessageState::AwaitDelivery, Event::Done),
        (MessageState::Closed, Action::Finish)
    );
}

#[test]
fn a_failure_outside_aborts_the_conversation() {
    for state in [
        MessageState::AwaitAccess,
        MessageState::AwaitRegistration,
        MessageState::AwaitAdminNotice,
        MessageState::AwaitPaths,
        MessageState::AwaitDelivery,
    ] {
        assert_eq!(
            handle(&server(), &message("/key CORRECTKEY"), state, Event::Failed),
            (MessageState::Closed, Action::Abort(Failure::Outside))
        );
    }
}

#[test]
fn an_event_that_answers_nothing_is_a_protocol_failure() {
    let closed = (MessageState::Closed, Action::Abort(Failure::Protocol));
    let cs = server();
    let m = message("report");
    assert_eq!(handle(&cs, &m, MessageState::Received, Event::Done), closed);
    assert_eq!(handle(&cs, &m, MessageState::Received, Event::Failed), closed);
    assert_eq!(handle(&cs, &m, MessageState::AwaitAccess, Event::Done), closed);
    assert_eq!(handle(&cs, &m, MessageState::AwaitAccess, Event::Paths(Vec::new())), closed);
    assert_eq!(handle(&cs, &m, MessageState::AwaitRegistration, Event::Arrived), closed);
    assert_eq!(handle(&cs, &m, MessageState::AwaitAdminNotice, Event::Clock(0)), closed);
    assert_eq!(handle(&cs, &m, MessageState::AwaitPaths, Event::Users(Vec::new())), closed);
    assert_eq!(
        handle(&cs, &m, MessageState::AwaitDelivery, Event::Link(Some(Json { href: String::new() }))),
        closed
    );
    assert_eq!(handle(&cs, &m, MessageState::Closed, Event::Done), closed);
    assert_eq!(handle(&cs, &m, MessageState::Closed, Event::Arrived), closed);
}
