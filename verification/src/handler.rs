//! The two conversations of the bot, each as a machine that is told what
//! happened and answers with what to do next.
//!
//! A caller drives a machine from its first state with the event `Arrived`,
//! performs the action it gets, and reports the outcome as the next event,
//! until the action is `Finish` or `Abort`.

use crate::audit::{LogEntry, LogRecord};
use crate::catalog::{entries, search_result, PathData, PathEntry, SEARCH_LIMIT};
use crate::chat_server::{choice_rows, ChatServer, ChatServerView};
use crate::command::{parse, parse_command, Command, CommandView, DESCRIPTIONS};
use crate::outgoing::{Outgoing, OutgoingView};
use crate::profile::{
    member_of, optional_text, registered, store_id, text_or_empty, texts, Chat, ChatView, User,
    UserRow,
};
use crate::text::{replace, replace_char};
use vstd::prelude::*;
use vstd::string::StringExecFns;

verus! {

/// The reply to the activation command.
pub const ACCESS_GRANTED: &'static str = "Доступ разрешен";

/// The reply to anyone who is not on the allow-list.
pub const ACCESS_DENIED: &'static str = "Доступ запрешен";

/// The reply to `/start` outside a private chat.
pub const NOT_IN_GROUPS: &'static str = "Команда не доступна в группе";

/// The caption above the search results.
pub const FOUND_CAPTION: &'static str = "Найденные обработки:";

/// How the notice of a new user begins.
pub const NEW_USER: &'static str = "Новый пользователь: ";

/// The text that replaces the choices once a file was relayed.
pub const PROCESSED: &'static str = "Файл обработки";

/// Why a conversation was given up.
#[derive(Clone, Copy, Debug, PartialEq, Eq, Structural)]
pub enum Failure {
    /// The selection token names no catalog record.
    NotFound,
    /// The selection token names several catalog records.
    Ambiguous,
    /// The store, the storage service or the chat transport failed.
    Outside,
    /// The event does not answer the action that was pending.
    Protocol,
}

/// The body of the storage service's answer to a request for a download
/// link.
#[derive(Debug, PartialEq, Eq)]
pub struct Json {
    pub href: String,
}

impl View for Json {
    type V = Seq<char>;

    open spec fn view(&self) -> Seq<char> {
        self.href@
    }
}

/// An incoming chat message.
#[derive(Debug, PartialEq, Eq)]
pub struct Message {
    pub chat: Chat,
    /// The text of the message; `None` for a message without text.
    pub text: Option<String>,
}

/// An incoming message, as plain values.
pub struct MessageView {
    pub chat: ChatView,
    pub text: Option<Seq<char>>,
}

impl View for Message {
    type V = MessageView;

    open spec fn view(&self) -> MessageView {
        MessageView { chat: self.chat@, text: optional_text(self.text) }
    }
}

/// The press of a button below the search results.
#[derive(Debug, PartialEq, Eq)]
pub struct Selection {
    /// Identifier of the selection, by which it is acknowledged.
    pub query_id: String,
    /// The token of the button that was pressed.
    pub token: String,
    /// The chat that holds the message with the buttons.
    pub chat: Chat,
    /// That message.
    pub message_id: i32,
    /// Identifier of the message where it was sent through inline mode.
    pub inline_message_id: Option<String>,
}

/// A selection, as plain values.
pub struct SelectionView {
    pub query_id: Seq<char>,
    pub token: Seq<char>,
    pub chat: ChatView,
    pub message_id: i32,
    pub inline_message_id: Option<Seq<char>>,
}

impl View for Selection {
    type V = SelectionView;

    open spec fn view(&self) -> SelectionView {
        SelectionView {
            query_id: self.query_id@,
            token: self.token@,
            chat: self.chat@,
            message_id: self.message_id,
            inline_message_id: optional_text(self.inline_message_id),
        }
    }
}

/// What happened outside: the answer to the action that was pending.
#[derive(Debug, PartialEq, Eq)]
pub enum Event {
    /// The message or the selection has come in; nothing was pending.
    Arrived,
    /// The identifiers of the allow-list rows that `CheckAccess` found.
    Users(Vec<String>),
    /// The catalog rows that `FindPaths` or `FindEntry` found.
    Paths(Vec<PathData>),
    /// The storage service answered `RequestLink`; `None` where the body of
    /// its answer could not be read.
    Link(Option<Json>),
    /// The time that `ReadClock` read, in seconds since 1970-01-01 00:00:00
    /// UTC.
    Clock(i64),
    /// The pending action succeeded and has nothing to report.
    Done,
    /// The pending action failed.
    Failed,
}

/// An event, as plain values.
pub enum EventView {
    Arrived,
    Users(Seq<Seq<char>>),
    Paths(Seq<PathEntry>),
    Link(Option<Seq<char>>),
    Clock(i64),
    Done,
    Failed,
}

impl View for Event {
    type V = EventView;

    open spec fn view(&self) -> EventView {
        match self {
            Event::Arrived => EventView::Arrived,
            Event::Users(ids) => EventView::Users(texts(ids@)),
            Event::Paths(rows) => EventView::Paths(entries(rows@)),
            Event::Link(Some(body)) => EventView::Link(Some(body@)),
            Event::Link(None) => EventView::Link(None),
            Event::Clock(secs) => EventView::Clock(*secs),
            Event::Done => EventView::Done,
            Event::Failed => EventView::Failed,
        }
    }
}

/// What to do next.
#[derive(Debug, PartialEq, Eq)]
pub enum Action {
    /// Read from the allow-list the identifiers of the rows for `user_id`.
    CheckAccess { user_id: String },
    /// Insert the row into the allow-list.
    RegisterUser(User),
    /// Read the catalog rows that a search for `query` has to look at.
    FindPaths { query: String },
    /// Read the catalog rows that carry the token `hash`.
    FindEntry { hash: String },
    /// Insert the row into the activity log.
    AppendLog(LogRecord),
    /// Ask the storage service at `url` for a download link, with
    /// `authorization` as the `Authorization` header.
    RequestLink { url: String, authorization: String },
    /// Download `url` into the file `file`.
    Download { url: String, file: String },
    /// Delete the file `file`.
    DeleteFile { file: String },
    /// Read the clock.
    ReadClock,
    /// Hand the request to the chat transport.
    Send(Outgoing),
    /// The conversation is over.
    Finish,
    /// The conversation is given up.
    Abort(Failure),
}

/// An action, as plain values.
pub enum ActionView {
    CheckAccess { user_id: Seq<char> },
    RegisterUser(UserRow),
    FindPaths { query: Seq<char> },
    FindEntry { hash: Seq<char> },
    AppendLog(LogEntry),
    RequestLink { url: Seq<char>, authorization: Seq<char> },
    Download { url: Seq<char>, file: Seq<char> },
    DeleteFile { file: Seq<char> },
    ReadClock,
    Send(OutgoingView),
    Finish,
    Abort(Failure),
}

impl View for Action {
    type V = ActionView;

    open spec fn view(&self) -> ActionView {
        match self {
            Action::CheckAccess { user_id } => ActionView::CheckAccess { user_id: user_id@ },
            Action::RegisterUser(user) => ActionView::RegisterUser(user@),
            Action::FindPaths { query } => ActionView::FindPaths { query: query@ },
            Action::FindEntry { hash } => ActionView::FindEntry { hash: hash@ },
            Action::AppendLog(record) => ActionView::AppendLog(record@),
            Action::RequestLink { url, authorization } => ActionView::RequestLink {
                url: url@,
                authorization: authorization@,
            },
            Action::Download { url, file } => ActionView::Download { url: url@, file: file@ },
            Action::DeleteFile { file } => ActionView::DeleteFile { file: file@ },
            Action::ReadClock => ActionView::ReadClock,
            Action::Send(request) => ActionView::Send(request@),
            Action::Finish => ActionView::Finish,
            Action::Abort(failure) => ActionView::Abort(*failure),
        }
    }
}

/// Where the handling of a message stands.
#[derive(Clone, Copy, Debug, PartialEq, Eq, Structural)]
pub enum MessageState {
    /// Nothing was done yet.
    Received,
    /// `CheckAccess` is pending.
    AwaitAccess,
    /// `RegisterUser` is pending.
    AwaitRegistration,
    /// The notice to the administrator is pending.
    AwaitAdminNotice,
    /// `FindPaths` is pending.
    AwaitPaths,
    /// The reply to the sender is pending.
    AwaitDelivery,
    /// The conversation is over.
    Closed,
}

/// A text with every underscore escaped for MarkdownV2.
pub open spec fn escape_markdown(text: Seq<char>) -> Seq<char> {
    replace_char(text, '_', seq!['\\', '_'])
}

/// The MarkdownV2 message that carries `text` to the chat `chat_id`.
pub open spec fn markdown_reply(chat_id: i64, text: Seq<char>) -> ActionView {
    ActionView::Send(OutgoingView::Markdown { chat_id, text: escape_markdown(text) })
}

/// The notice that tells the administrator of the new user `user`.
pub open spec fn admin_notice(user: UserRow) -> Seq<char> {
    NEW_USER@ + user.username + seq![',', ' '] + user.first_name + seq![',', ' ']
        + user.last_name
}

/// The first step on a message: answer `/start` at once, and ask the
/// allow-list about the sender on anything else. A message without text is
/// dropped.
pub open spec fn on_message(cs: ChatServerView, message: MessageView) -> (MessageState, ActionView) {
    match message.text {
        None => (MessageState::Closed, ActionView::Finish),
        Some(text) => match parse_command(text, cs.bot_name) {
            Some(CommandView::Start) => (
                MessageState::AwaitDelivery,
                markdown_reply(
                    message.chat.id,
                    if message.chat.id > 0 {
                        DESCRIPTIONS@
                    } else {
                        NOT_IN_GROUPS@
                    },
                ),
            ),
            _ => (
                MessageState::AwaitAccess,
                ActionView::CheckAccess { user_id: store_id(message.chat) },
            ),
        },
    }
}

/// The step once the allow-list has answered with the identifiers `ids`.
///
/// On the activation command, a sender who is not registered and gives the
/// right key is registered; every other sender gets the reply at once,
/// and the reply is the same whether the key was right, wrong or not
/// needed. On any other text, a registered sender gets a search and anyone
/// else the denial.
pub open spec fn on_access(cs: ChatServerView, message: MessageView, ids: Seq<Seq<char>>) -> (
    MessageState,
    ActionView,
) {
    let text = text_or_empty(message.text);
    let allowed = registered(ids, store_id(message.chat));
    match parse_command(text, cs.bot_name) {
        Some(CommandView::Key(key)) => if !allowed && key == cs.access_key {
            (MessageState::AwaitRegistration, ActionView::RegisterUser(member_of(message.chat)))
        } else {
            (MessageState::AwaitDelivery, markdown_reply(message.chat.id, ACCESS_GRANTED@))
        },
        _ => if allowed {
            (MessageState::AwaitPaths, ActionView::FindPaths { query: text })
        } else {
            (
                MessageState::AwaitDelivery,
                ActionView::Send(
                    OutgoingView::Text { chat_id: message.chat.id, text: ACCESS_DENIED@ },
                ),
            )
        },
    }
}

/// The step once the store has answered a search with the rows `rows`: the
/// results go out as choices, twenty at most, each labelled with its name
/// and carrying its token.
pub open spec fn on_paths(message: MessageView, rows: Seq<PathEntry>) -> (MessageState, ActionView) {
    (
        MessageState::AwaitDelivery,
        ActionView::Send(
            OutgoingView::Choices {
                chat_id: message.chat.id,
                text: FOUND_CAPTION@,
                rows: choice_rows(
                    search_result(rows, text_or_empty(message.text), SEARCH_LIMIT as nat),
                ),
            },
        ),
    )
}

/// The handling of a message: from a state and the event that answers its
/// pending action to the next state and the next action.
pub open spec fn message_step(
    cs: ChatServerView,
    message: MessageView,
    state: MessageState,
    event: EventView,
) -> (MessageState, ActionView) {
    match (state, event) {
        (MessageState::Received, EventView::Arrived) => on_message(cs, message),
        (MessageState::AwaitAccess, EventView::Users(ids)) => on_access(cs, message, ids),
        (MessageState::AwaitRegistration, EventView::Done) => (
            MessageState::AwaitAdminNotice,
            ActionView::Send(
                OutgoingView::AdminNotice {
                    admin_id: cs.admin_id,
                    text: admin_notice(member_of(message.chat)),
                },
            ),
        ),
        (MessageState::AwaitAdminNotice, EventView::Done) => (
            MessageState::AwaitDelivery,
            markdown_reply(message.chat.id, ACCESS_GRANTED@),
        ),
        (MessageState::AwaitPaths, EventView::Paths(rows)) => on_paths(message, rows),
        (MessageState::AwaitDelivery, EventView::Done) => (
            MessageState::Closed,
            ActionView::Finish,
        ),
        (MessageState::Received, _) => (MessageState::Closed, ActionView::Abort(Failure::Protocol)),
        (MessageState::Closed, _) => (MessageState::Closed, ActionView::Abort(Failure::Protocol)),
        (_, EventView::Failed) => (MessageState::Closed, ActionView::Abort(Failure::Outside)),
        _ => (MessageState::Closed, ActionView::Abort(Failure::Protocol)),
    }
}

/// Escapes `text` for MarkdownV2 and addresses it to the chat `chat_id`.
fn reply_in_markdown(chat_id: i64, text: &str) -> (action: Action)
    ensures
        action@ == markdown_reply(chat_id, text@),
{
    proof {
        reveal_strlit("\\_");
        assert("\\_"@ =~= seq!['\\', '_']);
    }
    Action::Send(Outgoing::Markdown { chat_id, text: replace(text, '_', "\\_") })
}

/// Writes the notice of the new user `user`.
fn write_admin_notice(user: &User) -> (text: String)
    ensures
        text@ == admin_notice(user@),
{
    proof {
        reveal_strlit(", ");
        assert(", "@ =~= seq![',', ' ']);
    }
    let mut text = NEW_USER.to_owned();
    text.append(user.username.as_str());
    text.append(", ");
    text.append(user.first_name.as_str());
    text.append(", ");
    text.append(user.last_name.as_str());
    text
}

fn give_up(failure: Failure) -> (next: (MessageState, Action))
    ensures
        next.0 == MessageState::Closed,
        next.1@ == ActionView::Abort(failure),
{
    (MessageState::Closed, Action::Abort(failure))
}

/// The text of a message, empty where it has none.
fn text_of(message: &Message) -> (text: &str)
    ensures
        text@ == text_or_empty(message@.text),
{
    proof {
        reveal_strlit("");
        assert(""@ =~= Seq::<char>::empty());
    }
    match &message.text {
        Some(text) => text.as_str(),
        None => "",
    }
}

fn first_step(cs: &ChatServer, message: &Message) -> (next: (MessageState, Action))
    ensures
        next.0 == on_message(cs@, message@).0,
        next.1@ == on_message(cs@, message@).1,
{
    match &message.text {
        None => (MessageState::Closed, Action::Finish),
        Some(text) => match parse(text.as_str(), cs.bot_name.as_str()) {
            Some(Command::Start) => {
                let reply = if message.chat.id > 0 {
                    DESCRIPTIONS
                } else {
                    NOT_IN_GROUPS
                };
                (MessageState::AwaitDelivery, reply_in_markdown(message.chat.id, reply))
            },
            _ => (
                MessageState::AwaitAccess,
                Action::CheckAccess { user_id: message.chat.store_id() },
            ),
        },
    }
}

fn access_step(cs: &ChatServer, message: &Message, ids: &Vec<String>) -> (next: (
    MessageState,
    Action,
))
    ensures
        next.0 == on_access(cs@, message@, texts(ids@)).0,
        next.1@ == on_access(cs@, message@, texts(ids@)).1,
{
    let text = text_of(message);
    let id = message.chat.store_id();
    let allowed = cs.access_is_allowed(ids, &id);
    match parse(text, cs.bot_name.as_str()) {
        Some(Command::Key(key)) => {
            if !allowed && key == cs.access_key {
                (MessageState::AwaitRegistration, Action::RegisterUser(message.chat.member()))
            } else {
                (MessageState::AwaitDelivery, reply_in_markdown(message.chat.id, ACCESS_GRANTED))
            }
        },
        _ => {
            if allowed {
                (MessageState::AwaitPaths, Action::FindPaths { query: text.to_owned() })
            } else {
                (
                    MessageState::AwaitDelivery,
                    Action::Send(
                        Outgoing::Text {
                            chat_id: message.chat.id,
                            text: ACCESS_DENIED.to_owned(),
                        },
                    ),
                )
            }
        },
    }
}

fn paths_step(cs: &ChatServer, message: &Message, rows: &Vec<PathData>) -> (next: (
    MessageState,
    Action,
))
    ensures
        next.0 == on_paths(message@, entries(rows@)).0,
        next.1@ == on_paths(message@, entries(rows@)).1,
{
    let found = cs.get_paths(rows, text_of(message));
    let keyboard = cs.make_keyboard(found);
    (
        MessageState::AwaitDelivery,
        Action::Send(
            Outgoing::Choices {
                chat_id: message.chat.id,
                text: FOUND_CAPTION.to_owned(),
                keyboard,
            },
        ),
    )
}

/// Handles a chat message, one step at a time.
///
/// Called with the state `Received` and the event `Arrived` when the message
/// comes in, and then with each state it returned and the outcome of the
/// action it asked for.
pub fn handle(cs: &ChatServer, message: &Message, state: MessageState, event: Event) -> (next: (
    MessageState,
    Action,
))
    ensures
        next.0 == message_step(cs@, message@, state, event@).0,
        next.1@ == message_step(cs@, message@, state, event@).1,
{
    match state {
        MessageState::Received => match event {
            Event::Arrived => first_step(cs, message),
            _ => give_up(Failure::Protocol),
        },
        MessageState::AwaitAccess => match event {
            Event::Users(ids) => access_step(cs, message, &ids),
            Event::Failed => give_up(Failure::Outside),
            _ => give_up(Failure::Protocol),
        },
        MessageState::AwaitRegistration => match event {
            Event::Done => {
                let user = message.chat.member();
                (
                    MessageState::AwaitAdminNotice,
                    Action::Send(
                        Outgoing::AdminNotice {
                            admin_id: cs.admin_id,
                            text: write_admin_notice(&user),
                        },
                    ),
                )
            },
            Event::Failed => give_up(Failure::Outside),
            _ => give_up(Failure::Protocol),
        },
        MessageState::AwaitAdminNotice => match event {
            Event::Done => (
                MessageState::AwaitDelivery,
                reply_in_markdown(message.chat.id, ACCESS_GRANTED),
            ),
            Event::Failed => give_up(Failure::Outside),
            _ => give_up(Failure::Protocol),
        },
        MessageState::AwaitPaths => match event {
            Event::Paths(rows) => paths_step(cs, message, &rows),
            Event::Failed => give_up(Failure::Outside),
            _ => give_up(Failure::Protocol),
        },
        MessageState::AwaitDelivery => match event {
            Event::Done => (MessageState::Closed, Action::Finish),
            Event::Failed => give_up(Failure::Outside),
            _ => give_up(Failure::Protocol),
        },
        MessageState::Closed => give_up(Failure::Protocol),
    }
}

} // verus!
