//! The two commands of the bot and the grammar of a command message.

use crate::text::{
    chars_of, eq_ignoring_ascii_case, find_char, position, range_eq, range_eq_ignoring_case,
    string_of,
};
use vstd::prelude::*;

verus! {

/// The word that opens a dialogue.
pub const START_WORD: &'static str = "/start";

/// The word that redeems an activation key.
pub const KEY_WORD: &'static str = "/key";

/// The help text that answers `/start` in a private chat, in MarkdownV2.
pub const DESCRIPTIONS: &'static str =
    "*Описание команд*\n\n/start — Начало диалога\n/key — Активация бота\\.\n`/key \\<Ключ активации\\>`";

/// A command addressed to the bot.
#[derive(Debug, PartialEq, Eq)]
pub enum Command {
    /// `/start`: asks for the help text.
    Start,
    /// `/key <value>`: redeems the activation key `value`.
    Key(String),
}

/// A command, as plain text.
pub enum CommandView {
    Start,
    Key(Seq<char>),
}

impl View for Command {
    type V = CommandView;

    open spec fn view(&self) -> CommandView {
        match self {
            Command::Start => CommandView::Start,
            Command::Key(key) => CommandView::Key(key@),
        }
    }
}

/// The view of a parse result.
pub open spec fn parsed_view(parsed: Option<Command>) -> Option<CommandView> {
    match parsed {
        Some(command) => Some(command@),
        None => None,
    }
}

/// The first word of a message: everything before its first space.
pub open spec fn head_of(text: Seq<char>) -> Seq<char> {
    text.take(position(text, ' '))
}

/// The arguments of a message: everything after its first space, spaces
/// included; empty where it has no space.
pub open spec fn args_of(text: Seq<char>) -> Seq<char> {
    if position(text, ' ') < text.len() {
        text.skip(position(text, ' ') + 1)
    } else {
        Seq::empty()
    }
}

/// The command word of a first word: everything before its first `@`.
pub open spec fn word_of(head: Seq<char>) -> Seq<char> {
    head.take(position(head, '@'))
}

/// The bot that a first word addresses: what stands between its first `@`
/// and its second, or its end. `None` where it has no `@`.
pub open spec fn mention_of(head: Seq<char>) -> Option<Seq<char>> {
    if position(head, '@') < head.len() {
        let rest = head.skip(position(head, '@') + 1);
        Some(rest.take(position(rest, '@')))
    } else {
        None
    }
}

/// The command that `text` spells for the bot called `bot_name`.
///
/// The first word names the command, with an optional `@name` behind it that
/// must be the bot's name up to the case of ASCII letters. `/start` ignores
/// its arguments; `/key` takes all of them, unchanged, as the key. Anything
/// else is no command.
pub open spec fn parse_command(text: Seq<char>, bot_name: Seq<char>) -> Option<CommandView> {
    let head = head_of(text);
    let addressed_to_us = match mention_of(head) {
        Some(mention) => eq_ignoring_ascii_case(mention, bot_name),
        None => true,
    };
    if !addressed_to_us {
        None
    } else if word_of(head) == START_WORD@ {
        Some(CommandView::Start)
    } else if word_of(head) == KEY_WORD@ {
        Some(CommandView::Key(args_of(text)))
    } else {
        None
    }
}

/// Reads `text` as a command for the bot called `bot_name`.
pub fn parse(text: &str, bot_name: &str) -> (parsed: Option<Command>)
    ensures
        parsed_view(parsed) == parse_command(text@, bot_name@),
{
    let chars = chars_of(text);
    let name = chars_of(bot_name);
    let len = chars.len();
    assert(chars@.subrange(0, len as int) =~= text@);
    let space = find_char(&chars, 0, len, ' ');
    let ghost head = head_of(text@);
    assert(chars@.subrange(0, space as int) =~= head);
    let at = find_char(&chars, 0, space, '@');
    if at < space {
        let ghost rest = head.skip(at + 1);
        assert(chars@.subrange(at + 1, space as int) =~= rest);
        let end = find_char(&chars, at + 1, space, '@');
        assert(chars@.subrange(at + 1, end as int) =~= rest.take(position(rest, '@')));
        if !range_eq_ignoring_case(&chars, at + 1, end, &name) {
            return None;
        }
    }
    assert(chars@.subrange(0, at as int) =~= word_of(head));
    let start = chars_of(START_WORD);
    let key = chars_of(KEY_WORD);
    if range_eq(&chars, 0, at, &start) {
        Some(Command::Start)
    } else if range_eq(&chars, 0, at, &key) {
        if space < len {
            assert(chars@.subrange(space + 1, len as int) =~= args_of(text@));
            Some(Command::Key(string_of(&chars, space + 1, len)))
        } else {
            Some(Command::Key(String::new()))
        }
    } else {
        None
    }
}

} // verus!
