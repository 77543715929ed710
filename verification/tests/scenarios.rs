use teloxide::types::InlineKeyboardButtonKind;
use yandex_cloud_bot::audit::LogRecord;
use yandex_cloud_bot::catalog::PathData;
use yandex_cloud_bot::chat_server::ChatServer;
use yandex_cloud_bot::handler::{handle, Action, Event, Failure, Json, Message, MessageState, Selection};
use yandex_cloud_bot::outgoing::Outgoing;
use yandex_cloud_bot::profile::{Chat, User};
use yandex_cloud_bot::relay::{callback_handler, RelayState};

/// Everything outside the library, kept in memory.
struct World {
    users: Vec<User>,
    paths: Vec<PathData>,
    log: Vec<LogRecord>,
    /// The files in the scratch directory.
    files: Vec<String>,
    /// What the chat transport was asked to do, in order.
    sent: Vec<Outgoing>,
    /// What the store was asked to write, in order.
    writes: Vec<String>,
    link: Option<Json>,
    download_works: bool,
    delivery_works: bool,
    now: i64,
}

fn world() -> World {
    World {
        users: vec![User {
            id: "2002".to_string(),
            username: "bob".to_string(),
            first_name: "Bob".to_string(),
            last_name: "Ray".to_string(),
        }],
        paths: vec![
            entry("Invoice2023", "/docs/i23.epf", "h1"),
            entry("Report", "/docs/r.epf", "h2"),
            entry("Invoice2024", "/docs/i24.epf", "h3"),
        ],
        log: Vec::new(),
        files: Vec::new(),
        sent: Vec::new(),
        writes: Vec::new(),
        link: Some(Json { href: "https://dl.example/abc".to_string() }),
        download_works: true,
        delivery_works: true,
        now: 1_700_000_000,
    }
}

fn entry(name: &str, path: &str, hash: &str) -> PathData {
    PathData { name: name.to_string(), path: path.to_string(), hash: hash.to_string() }
}

fn server() -> ChatServer {
    ChatServer::new(
        "filebot".to_string(),
        "OAuth token".to_string(),
        "CORRECTKEY".to_string(),
        42,
        "/root".to_string(),
        "/tmp/bot".to_string(),
    )
}

fn ann() -> Chat {
    Chat {
        id: 1001,
        username: Some("ann".to_string()),
        first_name: Some("Ann".to_string()),
        last_name: Some("Lee".to_string()),
    }
}

fn bob() -> Chat {
    Chat {
        id: 2002,
        username: Some("bob".to_string()),
        first_name: Some("Bob".to_string()),
        last_name: Some("Ray".to_string()),
    }
}

fn is_authorized(world: &World, id: &str) -> bool {
    world.users.iter().any(|row| row.id == id)
}

/// Carries one action out and reports what happened.
fn perform(world: &mut World, action: Action) -> Event {
    match action {
        Action::CheckAccess { user_id } => Event::Users(
            world.users.iter().filter(|row| row.id == user_id).map(|row| row.id.clone()).collect(),
        ),
        Action::RegisterUser(user) => {
            world.writes.push(format!("users:{}", user.id));
            world.users.push(user);
            Event::Done
        }
        Action::FindPaths { .. } => Event::Paths(world.paths.iter().cloned().collect()),
        Action::FindEntry { hash } => {
            Event::Paths(world.paths.iter().filter(|row| row.hash == hash).cloned().collect())
        }
        Action::AppendLog(record) => {
            world.writes.push(format!("log:{}", record.path));
            world.log.push(record);
            Event::Done
        }
        Action::RequestLink { .. } => match world.link.take() {
            Some(body) => Event::Link(Some(body)),
            None => Event::Failed,
        },
        Action::Download { url, file } => {
            world.files.push(file);
            if world.download_works && !url.is_empty() {
                Event::Done
            } else {
                Event::Failed
            }
        }
        Action::DeleteFile { file } => {
            let before = world.files.len();
            world.files.retain(|f| f != &file);
            if world.files.len() < before {
                Event::Done
            } else {
                Event::Failed
            }
        }
        Action::ReadClock => Event::Clock(world.now),
        Action::Send(Outgoing::Document { chat_id, file }) => {
            let works = world.delivery_works;
            world.sent.push(Outgoing::Document { chat_id, file });
            if works {
                Event::Done
            } else {
                Event::Failed
            }
        }
        Action::Send(request) => {
            world.sent.push(request);
            Event::Done
        }
        Action::Finish | Action::Abort(_) => unreachable!(),
    }
}

/// Drives the handling of one message to its end.
fn message_arrives(world: &mut World, chat: Chat, text: &str) -> Action {
    let cs = server();
    let message = Message { chat, text: Some(text.to_string()) };
    let mut state = MessageState::Received;
    let mut event = Event::Arrived;
    for _ in 0..10 {
        let (next, action) = handle(&cs, &message, state, event);
        if matches!(action, Action::Finish | Action::Abort(_)) {
            assert_eq!(next, MessageState::Closed);
            return action;
        }
        state = next;
        event = perform(world, action);
    }
    panic!("the conversation does not end");
}

/// Drives the relay of one selection to its end.
fn selection_arrives(world: &mut World, chat: Chat, token: &str) -> Action {
    let cs = server();
    let selection = Selection {
        query_id: "q1".to_string(),
        token: token.to_string(),
        chat,
        message_id: 77,
        inline_message_id: None,
    };
    let mut state = RelayState::new();
    let mut event = Event::Arrived;
    for _ in 0..20 {
        let (next, action) = callback_handler(&cs, &selection, state, event);
        if matches!(action, Action::Finish | Action::Abort(_)) {
            return action;
        }
        state = next;
        event = perform(world, action);
    }
    panic!("the relay does not end");
}

fn granted(chat_id: i64) -> Outgoing {
    Outgoing::Markdown { chat_id, text: "Доступ разрешен".to_string() }
}

#[test]
fn scenario_unauthorized_search_is_denied() {
    let mut w = world();
    assert!(!is_authorized(&w, "1001"));
    assert_eq!(message_arrives(&mut w, ann(), "report"), Action::Finish);
    assert_eq!(w.sent, vec![Outgoing::Text { chat_id: 1001, text: "Доступ запрешен".to_string() }]);
    assert!(w.writes.is_empty());
    assert_eq!(w.users.len(), 1);
    assert!(w.log.is_empty());
    assert!(!is_authorized(&w, "1001"));
}

#[test]
fn scenario_wrong_key_leaves_the_store_unchanged() {
    let mut w = world();
    assert_eq!(message_arrives(&mut w, ann(), "/key WRONGKEY"), Action::Finish);
    assert!(w.writes.is_empty());
    assert_eq!(w.users.len(), 1);
    assert!(!is_authorized(&w, "1001"));
    assert_eq!(w.sent, vec![granted(1001)]);

    let mut right = world();
    message_arrives(&mut right, ann(), "/key CORRECTKEY");
    assert_eq!(w.sent.last(), right.sent.last());
}

#[test]
fn scenario_right_key_registers_and_notifies() {
    let mut w = world();
    assert_eq!(message_arrives(&mut w, ann(), "/key CORRECTKEY"), Action::Finish);
    assert_eq!(w.users.len(), 2);
    assert_eq!(w.users[1], User {
        id: "1001".to_string(),
        username: "ann".to_string(),
        first_name: "Ann".to_string(),
        last_name: "Lee".to_string(),
    });
    assert_eq!(w.writes, vec!["users:1001".to_string()]);
    assert_eq!(w.sent, vec![
        Outgoing::AdminNotice { admin_id: 42, text: "Новый пользователь: ann, Ann, Lee".to_string() },
        granted(1001),
    ]);
    assert!(is_authorized(&w, "1001"));
}

#[test]
fn scenario_redeeming_again_changes_nothing() {
    let mut w = world();
    message_arrives(&mut w, ann(), "/key CORRECTKEY");
    for text in ["/key CORRECTKEY", "/key WRONGKEY", "/key CORRECTKEY"] {
        assert_eq!(message_arrives(&mut w, ann(), text), Action::Finish);
        assert!(is_authorized(&w, "1001"));
        assert_eq!(w.users.len(), 2);
        assert_eq!(w.sent.last(), Some(&granted(1001)));
    }
    assert_eq!(w.writes, vec!["users:1001".to_string()]);
    assert_eq!(w.sent.len(), 5);

    assert_eq!(message_arrives(&mut w, ann(), "Report"), Action::Finish);
    assert!(matches!(w.sent.last(), Some(Outgoing::Choices { .. })));
}

#[test]
fn scenario_search_offers_both_invoices() {
    let mut w = world();
    assert_eq!(message_arrives(&mut w, bob(), "Invoice"), Action::Finish);
    assert!(w.writes.is_empty());
    assert_eq!(w.sent.len(), 1);
    match &w.sent[0] {
        Outgoing::Choices { chat_id, text, keyboard } => {
            assert_eq!(*chat_id, 2002);
            assert_eq!(text, "Найденные обработки:");
            let rows = &keyboard.inline_keyboard;
            assert_eq!(rows.len(), 2);
            assert_eq!(rows[0].len(), 1);
            assert_eq!(rows[1].len(), 1);
            assert_eq!(rows[0][0].text, "Invoice2023");
            assert_eq!(rows[0][0].kind, InlineKeyboardButtonKind::CallbackData("h1".to_string()));
            assert_eq!(rows[1][0].text, "Invoice2024");
            assert_eq!(rows[1][0].kind, InlineKeyboardButtonKind::CallbackData("h3".to_string()));
        }
        other => panic!("unexpected request {other:?}"),
    }
}

#[test]
fn scenario_search_offers_twenty_choices_at_most() {
    let mut w = world();
    for i in 0..40 {
        w.paths.push(entry(&format!("Scan{i}"), &format!("/s{i}"), &format!("s{i}")));
    }
    assert_eq!(message_arrives(&mut w, bob(), "Scan"), Action::Finish);
    match &w.sent[0] {
        Outgoing::Choices { keyboard, .. } => {
            assert_eq!(keyboard.inline_keyboard.len(), 20);
            for row in &keyboard.inline_keyboard {
                assert_eq!(row.len(), 1);
                assert!(row[0].text.contains("Scan"));
            }
        }
        other => panic!("unexpected request {other:?}"),
    }
}

#[test]
fn scenario_unauthorized_selection_is_denied() {
    let mut w = world();
    assert!(!is_authorized(&w, "1001"));
    assert_eq!(selection_arrives(&mut w, ann(), "h3"), Action::Finish);
    assert_eq!(w.sent, vec![Outgoing::Text { chat_id: 1001, text: "Доступ запрешен".to_string() }]);
    assert!(w.writes.is_empty());
    assert!(w.log.is_empty());
    assert!(w.files.is_empty());
    assert!(w.link.is_some());
    assert_eq!(w.users.len(), 1);

    message_arrives(&mut w, ann(), "/key CORRECTKEY");
    assert_eq!(selection_arrives(&mut w, ann(), "h3"), Action::Finish);
    assert_eq!(w.log.len(), 1);
    assert_eq!(w.log[0].user_id, "1001");
    assert_eq!(w.log[0].path, "/docs/i24.epf");
}

#[test]
fn scenario_search_ignores_the_case_of_the_query() {
    let mut w = world();
    assert_eq!(message_arrives(&mut w, bob(), "invoice"), Action::Finish);
    match &w.sent[0] {
        Outgoing::Choices { keyboard, .. } => {
            let labels: Vec<&str> =
                keyboard.inline_keyboard.iter().map(|row| row[0].text.as_str()).collect();
            assert_eq!(labels, vec!["Invoice2023", "Invoice2024"]);
        }
        other => panic!("unexpected request {other:?}"),
    }
}

#[test]
fn scenario_selection_relays_and_logs() {
    let mut w = world();
    assert_eq!(selection_arrives(&mut w, bob(), "h3"), Action::Finish);
    assert_eq!(w.log, vec![LogRecord {
        timestamp: "14/11/2023 22:13:20".to_string(),
        path: "/docs/i24.epf".to_string(),
        user_id: "2002".to_string(),
        username: "bob".to_string(),
        first_name: "Bob".to_string(),
        last_name: "Ray".to_string(),
    }]);
    assert_eq!(w.writes, vec!["log:/docs/i24.epf".to_string()]);
    assert!(w.files.is_empty());
    assert_eq!(w.sent, vec![
        Outgoing::Document { chat_id: 2002, file: "/tmp/bot/Invoice2024".to_string() },
        Outgoing::Answer { query_id: "q1".to_string() },
        Outgoing::EditText { chat_id: 2002, message_id: 77, text: "Файл обработки".to_string() },
    ]);
}

#[test]
fn scenario_failed_download_still_cleans_up() {
    let mut w = world();
    w.download_works = false;
    assert_eq!(selection_arrives(&mut w, bob(), "h1"), Action::Finish);
    assert!(w.files.is_empty());
    assert_eq!(w.log.len(), 1);
    assert!(matches!(w.sent[0], Outgoing::Document { .. }));

    let mut w = world();
    w.link = None;
    assert_eq!(selection_arrives(&mut w, bob(), "h1"), Action::Finish);
    assert!(w.files.is_empty());
    assert_eq!(w.log.len(), 1);
}

#[test]
fn scenario_failed_delivery_cleans_up_and_logs_nothing() {
    let mut w = world();
    w.delivery_works = false;
    assert_eq!(selection_arrives(&mut w, bob(), "h1"), Action::Abort(Failure::Outside));
    assert!(w.files.is_empty());
    assert!(w.log.is_empty());
    assert!(w.writes.is_empty());
    assert_eq!(w.sent.len(), 1);
}

#[test]
fn scenario_unknown_token_leaves_no_trace() {
    let mut w = world();
    assert_eq!(selection_arrives(&mut w, bob(), "h9"), Action::Abort(Failure::NotFound));
    assert!(w.log.is_empty());
    assert!(w.files.is_empty());
    assert!(w.sent.is_empty());
    assert!(w.writes.is_empty());
}

#[test]
fn scenario_log_grows_by_one_row_per_relay() {
    let mut w = world();
    for n in 1..4 {
        assert_eq!(selection_arrives(&mut w, bob(), "h2"), Action::Finish);
        assert_eq!(w.log.len(), n);
    }
    assert_eq!(w.users.len(), 1);
    assert_eq!(w.paths.len(), 3);
}
