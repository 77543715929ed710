//! What the conversations expect of the store, and what follows from it.
//!
//! The store itself lives outside this library. `Tables` is what it holds,
//! `answer` what it reports when it is asked, `after` what it holds once an
//! action is carried out. The laws below hold of every store that keeps to
//! these three.

use crate::audit::{audit_entry, stamp_at, LogEntry, LAST_SECOND};
use crate::catalog::{hash_is, name_has, search_result, with_hash, PathEntry, SEARCH_LIMIT};
use crate::chat_server::{choice_rows, download_request, scratch_file, ChatServerView};
use crate::command::{parse_command, CommandView};
use crate::handler::{
    markdown_reply, message_step, on_paths, ActionView, EventView, Failure, MessageState,
    MessageView, SelectionView, ACCESS_DENIED, ACCESS_GRANTED, FOUND_CAPTION,
};
use crate::outgoing::OutgoingView;
use crate::profile::{member_of, registered, store_id, text_or_empty, UserRow};
use crate::relay::{bare, given_up, holding, relay_step, RelayPhase};
use crate::text::contains_ignoring_ascii_case;
use vstd::prelude::*;

verus! {

/// The three tables of the store.
pub struct Tables {
    /// The allow-list.
    pub users: Seq<UserRow>,
    /// The catalog.
    pub paths: Seq<PathEntry>,
    /// The activity log.
    pub log: Seq<LogEntry>,
}

/// The allow-list holds a row for `id`.
pub open spec fn is_authorized(tables: Tables, id: Seq<char>) -> bool {
    exists|i: int| 0 <= i < tables.users.len() && (#[trigger] tables.users[i]).id == id
}

/// The test an allow-list row passes when it is the row of `id`.
pub open spec fn id_is(id: Seq<char>) -> spec_fn(UserRow) -> bool {
    |row: UserRow| row.id == id
}

/// The identifiers of the allow-list rows of `id`.
pub open spec fn found_ids(tables: Tables, id: Seq<char>) -> Seq<Seq<char>> {
    tables.users.filter(id_is(id)).map_values(|row: UserRow| row.id)
}

/// What the store reports when `action` is carried out on `tables`.
pub open spec fn answer(tables: Tables, action: ActionView) -> EventView {
    match action {
        ActionView::CheckAccess { user_id } => EventView::Users(found_ids(tables, user_id)),
        ActionView::FindPaths { query } => EventView::Paths(tables.paths),
        ActionView::FindEntry { hash } => EventView::Paths(with_hash(tables.paths, hash)),
        _ => EventView::Done,
    }
}

/// What the store holds once `action` is carried out on `tables`: a
/// registration and a log row add one row each, nothing else changes
/// anything.
pub open spec fn after(tables: Tables, action: ActionView) -> Tables {
    match action {
        ActionView::RegisterUser(row) => Tables { users: tables.users.push(row), ..tables },
        ActionView::AppendLog(row) => Tables { log: tables.log.push(row), ..tables },
        _ => tables,
    }
}

/// The store's answer to `CheckAccess` holds `id` exactly when the
/// allow-list has a row for `id`.
pub proof fn lemma_found_ids(tables: Tables, id: Seq<char>)
    ensures
        registered(found_ids(tables, id), id) <==> is_authorized(tables, id),
{
    let test = id_is(id);
    let rows = tables.users.filter(test);
    let ids = found_ids(tables, id);
    if is_authorized(tables, id) {
        let i = choose|i: int| 0 <= i < tables.users.len() && (#[trigger] tables.users[i]).id == id;
        tables.users.lemma_filter_contains(test, i);
        let k = choose|k: int| 0 <= k < rows.len() && rows[k] == tables.users[i];
        assert(ids[k] == id);
    }
    if registered(ids, id) {
        let k = choose|k: int| 0 <= k < ids.len() && ids[k] == id;
        assert(rows.contains(rows[k]));
        tables.users.lemma_filter_contains_rev(test, rows[k]);
        let i = choose|i: int| 0 <= i < tables.users.len() && tables.users[i] == rows[k];
        assert(tables.users[i].id == id);
    }
}

/// Someone who is not on the allow-list and sends anything but a command is
/// denied: the allow-list is asked, the fixed denial goes out, and neither
/// step touches the store.
pub proof fn law_strangers_are_denied(cs: ChatServerView, message: MessageView, tables: Tables)
    requires
        message.text is Some,
        parse_command(message.text->0, cs.bot_name) is None,
        !is_authorized(tables, store_id(message.chat)),
    ensures
        ({
            let ask = message_step(cs, message, MessageState::Received, EventView::Arrived);
            let told = message_step(cs, message, ask.0, answer(tables, ask.1));
            &&& ask.1 == ActionView::CheckAccess { user_id: store_id(message.chat) }
            &&& told.1 == ActionView::Send(
                OutgoingView::Text { chat_id: message.chat.id, text: ACCESS_DENIED@ },
            )
            &&& after(after(tables, ask.1), told.1) == tables
        }),
{
    lemma_found_ids(tables, store_id(message.chat));
}

/// Redeeming the activation key: whoever sends it is on the allow-list
/// afterwards. A sender who was not yet there is registered under the
/// chat's identity; one who was there gets the same reply and the store
/// stays as it was, so redeeming again changes nothing.
pub proof fn law_redeemed_key_authorizes(cs: ChatServerView, message: MessageView, tables: Tables)
    requires
        message.text is Some,
        parse_command(message.text->0, cs.bot_name) == Some(CommandView::Key(cs.access_key)),
    ensures
        ({
            let id = store_id(message.chat);
            let ask = message_step(cs, message, MessageState::Received, EventView::Arrived);
            let told = message_step(cs, message, ask.0, answer(tables, ask.1));
            let then = after(after(tables, ask.1), told.1);
            &&& ask.1 == ActionView::CheckAccess { user_id: id }
            &&& is_authorized(then, id)
            &&& !is_authorized(tables, id) ==> told.1 == ActionView::RegisterUser(
                member_of(message.chat),
            )
            &&& is_authorized(tables, id) ==> then == tables && told.1 == markdown_reply(
                message.chat.id,
                ACCESS_GRANTED@,
            )
        }),
{
    let id = store_id(message.chat);
    lemma_found_ids(tables, id);
    if !is_authorized(tables, id) {
        law_registered_user_is_authorized(tables, member_of(message.chat));
    }
}

/// A wrong activation key registers nobody: the store stays as it was, and
/// the reply is the one that a right key gets.
pub proof fn law_wrong_key_changes_nothing(
    cs: ChatServerView,
    message: MessageView,
    tables: Tables,
    key: Seq<char>,
)
    requires
        message.text is Some,
        parse_command(message.text->0, cs.bot_name) == Some(CommandView::Key(key)),
        key != cs.access_key,
    ensures
        ({
            let ask = message_step(cs, message, MessageState::Received, EventView::Arrived);
            let told = message_step(cs, message, ask.0, answer(tables, ask.1));
            &&& told.1 == markdown_reply(message.chat.id, ACCESS_GRANTED@)
            &&& after(after(tables, ask.1), told.1) == tables
        }),
{
}

/// A user is authorized as soon as the row is registered.
pub proof fn law_registered_user_is_authorized(tables: Tables, row: UserRow)
    ensures
        is_authorized(after(tables, ActionView::RegisterUser(row)), row.id),
{
    let then = after(tables, ActionView::RegisterUser(row));
    assert(then.users[tables.users.len() as int].id == row.id);
}

/// Nothing that the conversations ask of the store takes a user off the
/// allow-list.
pub proof fn law_authorization_is_permanent(tables: Tables, action: ActionView, id: Seq<char>)
    requires
        is_authorized(tables, id),
    ensures
        is_authorized(after(tables, action), id),
{
    let i = choose|i: int| 0 <= i < tables.users.len() && (#[trigger] tables.users[i]).id == id;
    assert(after(tables, action).users[i].id == id);
}

/// A log row adds itself to the end of the activity log, and nothing else.
pub proof fn law_log_grows_by_one(tables: Tables, row: LogEntry)
    ensures
        after(tables, ActionView::AppendLog(row)).log == tables.log.push(row),
        after(tables, ActionView::AppendLog(row)).log.len() == tables.log.len() + 1,
        after(tables, ActionView::AppendLog(row)).users == tables.users,
        after(tables, ActionView::AppendLog(row)).paths == tables.paths,
{
}

/// The choices that answer a search: twenty at most, one to a row, and each
/// is a record of the catalog rows whose name contains the query up to the
/// case of ASCII letters, labelled
/// with that name and carrying that record's token.
pub proof fn law_choices_answer_the_query(message: MessageView, rows: Seq<PathEntry>)
    ensures
        ({
            let query = text_or_empty(message.text);
            let found = search_result(rows, query, SEARCH_LIMIT as nat);
            &&& on_paths(message, rows).1 matches ActionView::Send(
                OutgoingView::Choices { rows: keyboard, .. },
            )
            &&& keyboard == choice_rows(found)
            &&& keyboard.len() == found.len()
            &&& found.len() <= SEARCH_LIMIT
            &&& forall|i: int|
                0 <= i < found.len() ==> {
                    &&& #[trigger] keyboard[i] == seq![(found[i].name, found[i].hash)]
                    &&& contains_ignoring_ascii_case(found[i].name, query)
                    &&& rows.contains(found[i])
                }
        }),
{
    let query = text_or_empty(message.text);
    let test = name_has(query);
    let all = rows.filter(test);
    let found = search_result(rows, query, SEARCH_LIMIT as nat);
    assert forall|i: int| 0 <= i < found.len() implies contains_ignoring_ascii_case(
        found[i].name,
        query,
    )
        && rows.contains(found[i]) by {
        assert(found[i] == all[i]);
        rows.lemma_filter_pred(test, i);
        assert(all.contains(all[i]));
        rows.lemma_filter_contains_rev(test, all[i]);
    }
}

/// A search by someone on the allow-list: the allow-list is asked, then the
/// catalog, and what goes out are the choices for the records whose name
/// contains the text that was sent. The store stays as it was.
pub proof fn law_search_offers_the_matches(cs: ChatServerView, message: MessageView, tables: Tables)
    requires
        message.text is Some,
        parse_command(message.text->0, cs.bot_name) is None,
        is_authorized(tables, store_id(message.chat)),
    ensures
        ({
            let query = message.text->0;
            let ask = message_step(cs, message, MessageState::Received, EventView::Arrived);
            let told = message_step(cs, message, ask.0, answer(tables, ask.1));
            let shown = message_step(cs, message, told.0, answer(tables, told.1));
            &&& ask.1 == ActionView::CheckAccess { user_id: store_id(message.chat) }
            &&& told.1 == ActionView::FindPaths { query }
            &&& shown.1 == ActionView::Send(
                OutgoingView::Choices {
                    chat_id: message.chat.id,
                    text: FOUND_CAPTION@,
                    rows: choice_rows(search_result(tables.paths, query, SEARCH_LIMIT as nat)),
                },
            )
            &&& after(after(after(tables, ask.1), told.1), shown.1) == tables
        }),
{
    lemma_found_ids(tables, store_id(message.chat));
}

/// A selection from a chat that is not on the allow-list is turned down:
/// the allow-list is asked, the fixed denial goes out, and the relay is
/// over. The catalog is not read, the storage service is not asked, nothing
/// is downloaded, no document is sent, and the store stays as it was.
pub proof fn law_strangers_select_nothing(
    cs: ChatServerView,
    selection: SelectionView,
    tables: Tables,
)
    requires
        !is_authorized(tables, store_id(selection.chat)),
    ensures
        ({
            let asked = relay_step(cs, selection, bare(RelayPhase::Selected), EventView::Arrived);
            let told = relay_step(cs, selection, asked.0, answer(tables, asked.1));
            let ended = relay_step(cs, selection, told.0, EventView::Done);
            &&& asked.1 == ActionView::CheckAccess { user_id: store_id(selection.chat) }
            &&& told.1 == ActionView::Send(
                OutgoingView::Text { chat_id: selection.chat.id, text: ACCESS_DENIED@ },
            )
            &&& ended == (bare(RelayPhase::Closed), ActionView::Finish)
            &&& after(after(after(tables, asked.1), told.1), ended.1) == tables
        }),
{
    lemma_found_ids(tables, store_id(selection.chat));
}

/// A relay that succeeds logs one row. For a chat on the allow-list and a
/// token that one catalog record carries, with the document delivered and
/// the clock between 1970 and the end of the year 9999: whatever the
/// storage service answers and whatever the download, the cleanup and the
/// log report, the actions are the nine listed, in this order, and the
/// store afterwards is the store before with one row more in the activity
/// log, which holds the record's path and the profile of the chat.
pub proof fn law_relayed_file_is_logged_once(
    cs: ChatServerView,
    selection: SelectionView,
    tables: Tables,
    link: EventView,
    downloaded: EventView,
    cleaned: EventView,
    secs: i64,
    logged: EventView,
)
    requires
        is_authorized(tables, store_id(selection.chat)),
        with_hash(tables.paths, selection.token).len() == 1,
        link is Link || link is Failed,
        0 <= secs <= LAST_SECOND,
    ensures
        ({
            let entry = with_hash(tables.paths, selection.token)[0];
            let file = scratch_file(cs.tmp_dir, entry.name);
            let row = audit_entry(stamp_at(secs as int)->0, entry.path, member_of(selection.chat));
            let asked = relay_step(cs, selection, bare(RelayPhase::Selected), EventView::Arrived);
            let looked = relay_step(cs, selection, asked.0, answer(tables, asked.1));
            let linked = relay_step(cs, selection, looked.0, answer(tables, looked.1));
            let fetched = relay_step(cs, selection, linked.0, link);
            let sent = relay_step(cs, selection, fetched.0, downloaded);
            let cleared = relay_step(cs, selection, sent.0, EventView::Done);
            let timed = relay_step(cs, selection, cleared.0, cleaned);
            let written = relay_step(cs, selection, timed.0, EventView::Clock(secs));
            let answered = relay_step(cs, selection, written.0, logged);
            let then = after(
                after(
                    after(
                        after(
                            after(
                                after(
                                    after(after(after(tables, asked.1), looked.1), linked.1),
                                    fetched.1,
                                ),
                                sent.1,
                            ),
                            cleared.1,
                        ),
                        timed.1,
                    ),
                    written.1,
                ),
                answered.1,
            );
            &&& asked.1 == ActionView::CheckAccess { user_id: store_id(selection.chat) }
            &&& looked.1 == ActionView::FindEntry { hash: selection.token }
            &&& linked.1 == ActionView::RequestLink {
                url: download_request(cs.root_dir, entry.path),
                authorization: cs.yauth,
            }
            &&& fetched.1 matches ActionView::Download { file: target, .. } && target == file
            &&& sent.1 == ActionView::Send(
                OutgoingView::Document { chat_id: selection.chat.id, file },
            )
            &&& cleared.1 == ActionView::DeleteFile { file }
            &&& timed.1 == ActionView::ReadClock
            &&& written.1 == ActionView::AppendLog(row)
            &&& answered.1 == ActionView::Send(
                OutgoingView::Answer { query_id: selection.query_id },
            )
            &&& then == (Tables { log: tables.log.push(row), ..tables })
        }),
{
    lemma_found_ids(tables, store_id(selection.chat));
    lemma_filter_twice(tables.paths, hash_is(selection.token));
}

/// Filtering a second time by the same test changes nothing.
proof fn lemma_filter_twice(rows: Seq<PathEntry>, test: spec_fn(PathEntry) -> bool)
    ensures
        rows.filter(test).filter(test) == rows.filter(test),
    decreases rows.len(),
{
    reveal(Seq::filter);
    if rows.len() > 0 {
        let front = rows.drop_last();
        lemma_filter_twice(front, test);
        if test(rows.last()) {
            front.filter(test).lemma_filter_push(rows.last(), test);
        }
    }
}

/// A selection from a chat on the allow-list is resolved by its token
/// alone: the relay goes on with the one catalog record that carries the
/// token, and asks the storage service for that record's file. Where no
/// record carries it, or more than one, the relay ends at once, and the
/// store stays as it was.
pub proof fn law_selection_names_one_record(
    cs: ChatServerView,
    selection: SelectionView,
    tables: Tables,
)
    requires
        is_authorized(tables, store_id(selection.chat)),
    ensures
        ({
            let matching = with_hash(tables.paths, selection.token);
            let asked = relay_step(cs, selection, bare(RelayPhase::Selected), EventView::Arrived);
            let looked = relay_step(cs, selection, asked.0, answer(tables, asked.1));
            let told = relay_step(cs, selection, looked.0, answer(tables, looked.1));
            &&& looked.1 == ActionView::FindEntry { hash: selection.token }
            &&& after(after(after(tables, asked.1), looked.1), told.1) == tables
            &&& matching.len() == 0 ==> told == given_up(Failure::NotFound)
            &&& matching.len() > 1 ==> told == given_up(Failure::Ambiguous)
            &&& matching.len() == 1 ==> matching[0].hash == selection.token && told == (
                holding(RelayPhase::AwaitLink, matching[0]),
                ActionView::RequestLink {
                    url: download_request(cs.root_dir, matching[0].path),
                    authorization: cs.yauth,
                },
            )
        }),
{
    let test = hash_is(selection.token);
    lemma_found_ids(tables, store_id(selection.chat));
    lemma_filter_twice(tables.paths, test);
    let matching = with_hash(tables.paths, selection.token);
    if matching.len() == 1 {
        tables.paths.lemma_filter_pred(test, 0);
    }
}

/// Once a download was asked for, the scratch file is deleted whatever the
/// download and the delivery report: the document is sent next, and the
/// deletion of that same file is asked for after it.
pub proof fn law_scratch_file_is_deleted(
    cs: ChatServerView,
    selection: SelectionView,
    entry: PathEntry,
    downloaded: EventView,
    delivered: EventView,
)
    ensures
        ({
            let file = scratch_file(cs.tmp_dir, entry.name);
            let sent = relay_step(
                cs,
                selection,
                holding(RelayPhase::AwaitDownload, entry),
                downloaded,
            );
            let cleaned = relay_step(cs, selection, sent.0, delivered);
            &&& sent.1 == ActionView::Send(
                OutgoingView::Document { chat_id: selection.chat.id, file },
            )
            &&& cleaned.1 == ActionView::DeleteFile { file }
        }),
{
}

} // verus!
