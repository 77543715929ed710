//! Who talks to the bot: the chat behind a message and the row that the
//! allow-list keeps of a registered user.

use crate::text::{decimal, decimal_string};
use vstd::prelude::*;

verus! {

/// The chat that a message or a selection came from.
#[derive(Debug, PartialEq, Eq)]
pub struct Chat {
    /// Identifier of the chat; positive for a private chat with one user.
    pub id: i64,
    pub username: Option<String>,
    pub first_name: Option<String>,
    pub last_name: Option<String>,
}

/// A chat, as plain values.
pub struct ChatView {
    pub id: i64,
    pub username: Option<Seq<char>>,
    pub first_name: Option<Seq<char>>,
    pub last_name: Option<Seq<char>>,
}

/// The text of an optional string.
pub open spec fn optional_text(field: Option<String>) -> Option<Seq<char>> {
    match field {
        Some(text) => Some(text@),
        None => None,
    }
}

impl View for Chat {
    type V = ChatView;

    open spec fn view(&self) -> ChatView {
        ChatView {
            id: self.id,
            username: optional_text(self.username),
            first_name: optional_text(self.first_name),
            last_name: optional_text(self.last_name),
        }
    }
}

/// One row of the allow-list. A user is authorized exactly when the
/// allow-list holds a row with the user's identifier.
#[derive(Debug, PartialEq, Eq)]
pub struct User {
    pub id: String,
    pub username: String,
    pub first_name: String,
    pub last_name: String,
}

/// A row of the allow-list, as plain text.
pub struct UserRow {
    pub id: Seq<char>,
    pub username: Seq<char>,
    pub first_name: Seq<char>,
    pub last_name: Seq<char>,
}

impl View for User {
    type V = UserRow;

    open spec fn view(&self) -> UserRow {
        UserRow {
            id: self.id@,
            username: self.username@,
            first_name: self.first_name@,
            last_name: self.last_name@,
        }
    }
}

/// A profile field as it is stored: the empty text where the chat has none.
pub open spec fn text_or_empty(field: Option<Seq<char>>) -> Seq<char> {
    match field {
        Some(text) => text,
        None => Seq::empty(),
    }
}

/// The identifier under which a chat is kept in the store: its number in
/// decimal.
pub open spec fn store_id(chat: ChatView) -> Seq<char> {
    decimal(chat.id as int)
}

/// The allow-list row of the user behind `chat`.
pub open spec fn member_of(chat: ChatView) -> UserRow {
    UserRow {
        id: store_id(chat),
        username: text_or_empty(chat.username),
        first_name: text_or_empty(chat.first_name),
        last_name: text_or_empty(chat.last_name),
    }
}

/// The texts of a batch of strings.
pub open spec fn texts(rows: Seq<String>) -> Seq<Seq<char>> {
    rows.map_values(|row: String| row@)
}

/// The allow-list, given by the identifiers of its rows, holds `id`.
pub open spec fn registered(ids: Seq<Seq<char>>, id: Seq<char>) -> bool {
    ids.contains(id)
}

/// Copies a profile field, with the empty string for a missing one.
pub fn or_empty(field: &Option<String>) -> (text: String)
    ensures
        text@ == text_or_empty(optional_text(*field)),
{
    match field {
        Some(text) => text.clone(),
        None => String::new(),
    }
}

impl Chat {
    /// The identifier under which this chat is kept in the store.
    pub fn store_id(&self) -> (id: String)
        ensures
            id@ == store_id(self@),
    {
        decimal_string(self.id)
    }

    /// The allow-list row of the user behind this chat.
    pub fn member(&self) -> (user: User)
        ensures
            user@ == member_of(self@),
    {
        User {
            id: self.store_id(),
            username: or_empty(&self.username),
            first_name: or_empty(&self.first_name),
            last_name: or_empty(&self.last_name),
        }
    }
}

/// Looks for `id` among the identifiers `ids` read from the allow-list.
pub fn is_registered(ids: &Vec<String>, id: &String) -> (allowed: bool)
    ensures
        allowed == registered(texts(ids@), id@),
{
    let mut i: usize = 0;
    while i < ids.len()
        invariant
            i <= ids.len(),
            forall|k: int| 0 <= k < i ==> texts(ids@)[k] != id@,
        decreases ids.len() - i,
    {
        if ids[i] == *id {
            assert(texts(ids@)[i as int] == id@);
            return true;
        }
        assert(texts(ids@)[i as int] == ids@[i as int]@);
        i += 1;
    }
    false
}

} // verus!
