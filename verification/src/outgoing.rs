//! What the bot asks the chat transport to do.

use teloxide::types::InlineKeyboardMarkup;
use crate::keyboard::markup_rows;
use vstd::prelude::*;

verus! {

/// One request to the chat transport.
#[derive(Debug, PartialEq, Eq)]
pub enum Outgoing {
    /// A plain-text message to a chat.
    Text { chat_id: i64, text: String },
    /// A message to a chat, to be rendered as MarkdownV2.
    Markdown { chat_id: i64, text: String },
    /// A plain-text message to the administrator.
    AdminNotice { admin_id: u64, text: String },
    /// A message to a chat with an inline keyboard of choices below it.
    Choices { chat_id: i64, text: String, keyboard: InlineKeyboardMarkup },
    /// The file at `file`, sent to a chat as a document.
    Document { chat_id: i64, file: String },
    /// The acknowledgement of a selection.
    Answer { query_id: String },
    /// A new text for a message of the bot in a chat.
    EditText { chat_id: i64, message_id: i32, text: String },
    /// A new text for a message that was sent through inline mode.
    EditInline { inline_message_id: String, text: String },
}

/// A request to the chat transport, as plain values.
pub enum OutgoingView {
    Text { chat_id: i64, text: Seq<char> },
    Markdown { chat_id: i64, text: Seq<char> },
    AdminNotice { admin_id: u64, text: Seq<char> },
    Choices { chat_id: i64, text: Seq<char>, rows: Seq<Seq<(Seq<char>, Seq<char>)>> },
    Document { chat_id: i64, file: Seq<char> },
    Answer { query_id: Seq<char> },
    EditText { chat_id: i64, message_id: i32, text: Seq<char> },
    EditInline { inline_message_id: Seq<char>, text: Seq<char> },
}

impl View for Outgoing {
    type V = OutgoingView;

    open spec fn view(&self) -> OutgoingView {
        match self {
            Outgoing::Text { chat_id, text } => OutgoingView::Text {
                chat_id: *chat_id,
                text: text@,
            },
            Outgoing::Markdown { chat_id, text } => OutgoingView::Markdown {
                chat_id: *chat_id,
                text: text@,
            },
            Outgoing::AdminNotice { admin_id, text } => OutgoingView::AdminNotice {
                admin_id: *admin_id,
                text: text@,
            },
            Outgoing::Choices { chat_id, text, keyboard } => OutgoingView::Choices {
                chat_id: *chat_id,
                text: text@,
                rows: markup_rows(*keyboard),
            },
            Outgoing::Document { chat_id, file } => OutgoingView::Document {
                chat_id: *chat_id,
                file: file@,
            },
            Outgoing::Answer { query_id } => OutgoingView::Answer { query_id: query_id@ },
            Outgoing::EditText { chat_id, message_id, text } => OutgoingView::EditText {
                chat_id: *chat_id,
                message_id: *message_id,
                text: text@,
            },
            Outgoing::EditInline { inline_message_id, text } => OutgoingView::EditInline {
                inline_message_id: inline_message_id@,
                text: text@,
            },
        }
    }
}

} // verus!
