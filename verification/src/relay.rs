//! The relay of a selected file: ask the allow-list about the chat, resolve
//! the selection, fetch the file from the remote storage into a scratch
//! file, deliver it, clean up, log.
//!
//! Nothing of the catalog is read before the allow-list has answered, and
//! nothing at all for a chat that is not on it.
//!
//! The scratch file comes into being with the action `Download`. From there
//! on no event keeps the machine from asking for `DeleteFile`.

use crate::audit::{audit_entry, stamp_at};
use crate::catalog::{entries, with_hash, LookupError, PathData, PathEntry};
use crate::chat_server::{download_request, scratch_file, ChatServer, ChatServerView};
use crate::handler::{
    Action, ActionView, Event, EventView, Failure, Selection, SelectionView, ACCESS_DENIED,
    PROCESSED,
};
use crate::outgoing::{Outgoing, OutgoingView};
use crate::profile::{member_of, registered, store_id, text_or_empty, texts};
use vstd::prelude::*;

verus! {

/// How far a relay has come.
#[derive(Clone, Copy, Debug, PartialEq, Eq, Structural)]
pub enum RelayPhase {
    /// Nothing was done yet.
    Selected,
    /// `CheckAccess` is pending.
    AwaitAccess,
    /// The denial to a chat that is not on the allow-list is pending.
    AwaitDenial,
    /// `FindEntry` is pending.
    AwaitEntry,
    /// `RequestLink` is pending.
    AwaitLink,
    /// `Download` is pending.
    AwaitDownload,
    /// The delivery of the document is pending.
    AwaitDocument,
    /// `DeleteFile` is pending, after the document was delivered.
    AwaitCleanup,
    /// `DeleteFile` is pending, after the delivery failed.
    AwaitCleanupOnly,
    /// `ReadClock` is pending.
    AwaitClock,
    /// `AppendLog` is pending.
    AwaitAudit,
    /// The acknowledgement of the selection is pending.
    AwaitAnswer,
    /// The edit of the message with the choices is pending.
    AwaitEdit,
    /// The relay is over.
    Closed,
}

/// Where a relay stands: its phase, and the catalog record it is about once
/// the selection is resolved and until the log row is written.
#[derive(Debug, PartialEq, Eq)]
pub struct RelayState {
    pub phase: RelayPhase,
    pub entry: Option<PathData>,
}

/// The state of a relay, as plain values.
pub struct RelayStateView {
    pub phase: RelayPhase,
    pub entry: Option<PathEntry>,
}

impl View for RelayState {
    type V = RelayStateView;

    open spec fn view(&self) -> RelayStateView {
        RelayStateView {
            phase: self.phase,
            entry: match self.entry {
                Some(entry) => Some(entry@),
                None => None,
            },
        }
    }
}

/// The state in `phase` that holds no record.
pub open spec fn bare(phase: RelayPhase) -> RelayStateView {
    RelayStateView { phase, entry: None }
}

/// The state in `phase` of the relay of `entry`.
pub open spec fn holding(phase: RelayPhase, entry: PathEntry) -> RelayStateView {
    RelayStateView { phase, entry: Some(entry) }
}

/// The end of a relay that is given up.
pub open spec fn given_up(failure: Failure) -> (RelayStateView, ActionView) {
    (bare(RelayPhase::Closed), ActionView::Abort(failure))
}

/// The record that the token `token` selects among `rows`: the only one that
/// carries it.
pub open spec fn selected(rows: Seq<PathEntry>, token: Seq<char>) -> Result<
    PathEntry,
    LookupError,
> {
    let matching = with_hash(rows, token);
    if matching.len() == 0 {
        Err(LookupError::NotFound)
    } else if matching.len() == 1 {
        Ok(matching[0])
    } else {
        Err(LookupError::Ambiguous)
    }
}

/// The acknowledgement of the selection.
pub open spec fn acknowledge(selection: SelectionView) -> (RelayStateView, ActionView) {
    (
        bare(RelayPhase::AwaitAnswer),
        ActionView::Send(OutgoingView::Answer { query_id: selection.query_id }),
    )
}

/// The step once the allow-list has answered with the identifiers `ids`: a
/// chat that is on it has its selection looked up, any other gets the fixed
/// denial and nothing more.
pub open spec fn on_gate(selection: SelectionView, ids: Seq<Seq<char>>) -> (
    RelayStateView,
    ActionView,
) {
    if registered(ids, store_id(selection.chat)) {
        (bare(RelayPhase::AwaitEntry), ActionView::FindEntry { hash: selection.token })
    } else {
        (
            bare(RelayPhase::AwaitDenial),
            ActionView::Send(
                OutgoingView::Text { chat_id: selection.chat.id, text: ACCESS_DENIED@ },
            ),
        )
    }
}

/// The step once the store has answered with the rows for the token: the
/// relay goes on with the one record that carries it, and ends without a
/// trace where there is none or more than one.
pub open spec fn on_entry(cs: ChatServerView, selection: SelectionView, rows: Seq<PathEntry>) -> (
    RelayStateView,
    ActionView,
) {
    match selected(rows, selection.token) {
        Ok(entry) => (
            holding(RelayPhase::AwaitLink, entry),
            ActionView::RequestLink {
                url: download_request(cs.root_dir, entry.path),
                authorization: cs.yauth,
            },
        ),
        Err(LookupError::NotFound) => given_up(Failure::NotFound),
        Err(LookupError::Ambiguous) => given_up(Failure::Ambiguous),
    }
}

/// The download of `entry` from the address `link`.
pub open spec fn start_download(cs: ChatServerView, entry: PathEntry, link: Seq<char>) -> (
    RelayStateView,
    ActionView,
) {
    (
        holding(RelayPhase::AwaitDownload, entry),
        ActionView::Download { url: link, file: scratch_file(cs.tmp_dir, entry.name) },
    )
}

/// The step once the selection was acknowledged: the message with the
/// choices gets its final text, in the chat where the selection has an
/// identifier, else through inline mode where it names such a message.
pub open spec fn on_answered(selection: SelectionView) -> (RelayStateView, ActionView) {
    if selection.query_id.len() > 0 {
        (
            bare(RelayPhase::AwaitEdit),
            ActionView::Send(
                OutgoingView::EditText {
                    chat_id: selection.chat.id,
                    message_id: selection.message_id,
                    text: PROCESSED@,
                },
            ),
        )
    } else {
        match selection.inline_message_id {
            Some(id) => (
                bare(RelayPhase::AwaitEdit),
                ActionView::Send(
                    OutgoingView::EditInline { inline_message_id: id, text: PROCESSED@ },
                ),
            ),
            None => (bare(RelayPhase::Closed), ActionView::Finish),
        }
    }
}

/// The steps of a relay that knows its record.
///
/// A storage service that fails or answers unreadably yields the empty
/// address. Whatever the download reports, the document is sent; whatever
/// the delivery reports, the scratch file is deleted; whatever the deletion
/// reports, a delivered file is logged and a failed delivery ends the relay.
pub open spec fn on_record(
    cs: ChatServerView,
    selection: SelectionView,
    phase: RelayPhase,
    entry: PathEntry,
    event: EventView,
) -> (RelayStateView, ActionView) {
    let file = scratch_file(cs.tmp_dir, entry.name);
    match phase {
        RelayPhase::AwaitLink => match event {
            EventView::Link(body) => start_download(cs, entry, text_or_empty(body)),
            EventView::Failed => start_download(cs, entry, Seq::empty()),
            _ => given_up(Failure::Protocol),
        },
        RelayPhase::AwaitDownload => (
            holding(RelayPhase::AwaitDocument, entry),
            ActionView::Send(OutgoingView::Document { chat_id: selection.chat.id, file }),
        ),
        RelayPhase::AwaitDocument => (
            holding(
                if event is Done {
                    RelayPhase::AwaitCleanup
                } else {
                    RelayPhase::AwaitCleanupOnly
                },
                entry,
            ),
            ActionView::DeleteFile { file },
        ),
        RelayPhase::AwaitCleanup => (holding(RelayPhase::AwaitClock, entry), ActionView::ReadClock),
        RelayPhase::AwaitCleanupOnly => given_up(Failure::Outside),
        RelayPhase::AwaitClock => match event {
            EventView::Clock(secs) => match stamp_at(secs as int) {
                Some(stamp) => (
                    bare(RelayPhase::AwaitAudit),
                    ActionView::AppendLog(
                        audit_entry(stamp, entry.path, member_of(selection.chat)),
                    ),
                ),
                None => acknowledge(selection),
            },
            _ => acknowledge(selection),
        },
        _ => given_up(Failure::Protocol),
    }
}

/// The relay of a selected file: from a state and the event that answers its
/// pending action to the next state and the next action.
///
/// A log row that cannot be written does not undo the delivery: the
/// selection is acknowledged all the same.
pub open spec fn relay_step(
    cs: ChatServerView,
    selection: SelectionView,
    state: RelayStateView,
    event: EventView,
) -> (RelayStateView, ActionView) {
    match state.phase {
        RelayPhase::Selected => match event {
            EventView::Arrived => (
                bare(RelayPhase::AwaitAccess),
                ActionView::CheckAccess { user_id: store_id(selection.chat) },
            ),
            _ => given_up(Failure::Protocol),
        },
        RelayPhase::AwaitAccess => match event {
            EventView::Users(ids) => on_gate(selection, ids),
            EventView::Failed => given_up(Failure::Outside),
            _ => given_up(Failure::Protocol),
        },
        RelayPhase::AwaitDenial => match event {
            EventView::Done => (bare(RelayPhase::Closed), ActionView::Finish),
            EventView::Failed => given_up(Failure::Outside),
            _ => given_up(Failure::Protocol),
        },
        RelayPhase::AwaitEntry => match event {
            EventView::Paths(rows) => on_entry(cs, selection, rows),
            EventView::Failed => given_up(Failure::Outside),
            _ => given_up(Failure::Protocol),
        },
        RelayPhase::AwaitAudit => acknowledge(selection),
        RelayPhase::AwaitAnswer => match event {
            EventView::Done => on_answered(selection),
            EventView::Failed => given_up(Failure::Outside),
            _ => given_up(Failure::Protocol),
        },
        RelayPhase::AwaitEdit => match event {
            EventView::Done => (bare(RelayPhase::Closed), ActionView::Finish),
            EventView::Failed => given_up(Failure::Outside),
            _ => given_up(Failure::Protocol),
        },
        RelayPhase::Closed => given_up(Failure::Protocol),
        phase => match state.entry {
            Some(entry) => on_record(cs, selection, phase, entry, event),
            None => given_up(Failure::Protocol),
        },
    }
}

impl RelayState {
    /// The state of a relay that has not begun.
    pub fn new() -> (state: Self)
        ensures
            state@ == bare(RelayPhase::Selected),
    {
        RelayState { phase: RelayPhase::Selected, entry: None }
    }
}

fn stop(failure: Failure) -> (next: (RelayState, Action))
    ensures
        (next.0@, next.1@) == given_up(failure),
{
    (RelayState { phase: RelayPhase::Closed, entry: None }, Action::Abort(failure))
}

fn answer(selection: &Selection) -> (next: (RelayState, Action))
    ensures
        (next.0@, next.1@) == acknowledge(selection@),
{
    (
        RelayState { phase: RelayPhase::AwaitAnswer, entry: None },
        Action::Send(Outgoing::Answer { query_id: selection.query_id.clone() }),
    )
}

fn gate_step(cs: &ChatServer, selection: &Selection, ids: &Vec<String>) -> (next: (
    RelayState,
    Action,
))
    ensures
        (next.0@, next.1@) == on_gate(selection@, texts(ids@)),
{
    let id = selection.chat.store_id();
    if cs.access_is_allowed(ids, &id) {
        (
            RelayState { phase: RelayPhase::AwaitEntry, entry: None },
            Action::FindEntry { hash: selection.token.clone() },
        )
    } else {
        (
            RelayState { phase: RelayPhase::AwaitDenial, entry: None },
            Action::Send(
                Outgoing::Text { chat_id: selection.chat.id, text: ACCESS_DENIED.to_owned() },
            ),
        )
    }
}

fn entry_step(cs: &ChatServer, selection: &Selection, rows: &Vec<PathData>) -> (next: (
    RelayState,
    Action,
))
    ensures
        (next.0@, next.1@) == on_entry(cs@, selection@, entries(rows@)),
{
    match cs.get_file_path(rows, selection.token.as_str()) {
        Ok(entry) => {
            let url = cs.download_request(entry.path.as_str());
            (
                RelayState { phase: RelayPhase::AwaitLink, entry: Some(entry) },
                Action::RequestLink { url, authorization: cs.yauth.clone() },
            )
        },
        Err(LookupError::NotFound) => stop(Failure::NotFound),
        Err(LookupError::Ambiguous) => stop(Failure::Ambiguous),
    }
}

fn download_step(cs: &ChatServer, entry: PathData, link: String) -> (next: (RelayState, Action))
    ensures
        (next.0@, next.1@) == start_download(cs@, entry@, link@),
{
    let file = cs.scratch_file(entry.name.as_str());
    (
        RelayState { phase: RelayPhase::AwaitDownload, entry: Some(entry) },
        Action::Download { url: link, file },
    )
}

fn answered_step(selection: &Selection) -> (next: (RelayState, Action))
    ensures
        (next.0@, next.1@) == on_answered(selection@),
{
    if !selection.query_id.as_str().is_empty() {
        (
            RelayState { phase: RelayPhase::AwaitEdit, entry: None },
            Action::Send(
                Outgoing::EditText {
                    chat_id: selection.chat.id,
                    message_id: selection.message_id,
                    text: PROCESSED.to_owned(),
                },
            ),
        )
    } else {
        match &selection.inline_message_id {
            Some(id) => (
                RelayState { phase: RelayPhase::AwaitEdit, entry: None },
                Action::Send(
                    Outgoing::EditInline {
                        inline_message_id: id.clone(),
                        text: PROCESSED.to_owned(),
                    },
                ),
            ),
            None => (RelayState { phase: RelayPhase::Closed, entry: None }, Action::Finish),
        }
    }
}

fn record_step(
    cs: &ChatServer,
    selection: &Selection,
    phase: RelayPhase,
    entry: PathData,
    event: Event,
) -> (next: (RelayState, Action))
    ensures
        (next.0@, next.1@) == on_record(cs@, selection@, phase, entry@, event@),
{
    match phase {
        RelayPhase::AwaitLink => match event {
            Event::Link(Some(body)) => download_step(cs, entry, body.href),
            Event::Link(None) => download_step(cs, entry, String::new()),
            Event::Failed => download_step(cs, entry, String::new()),
            _ => stop(Failure::Protocol),
        },
        RelayPhase::AwaitDownload => {
            let file = cs.scratch_file(entry.name.as_str());
            (
                RelayState { phase: RelayPhase::AwaitDocument, entry: Some(entry) },
                Action::Send(Outgoing::Document { chat_id: selection.chat.id, file }),
            )
        },
        RelayPhase::AwaitDocument => {
            let file = cs.scratch_file(entry.name.as_str());
            let phase = match event {
                Event::Done => RelayPhase::AwaitCleanup,
                _ => RelayPhase::AwaitCleanupOnly,
            };
            (RelayState { phase, entry: Some(entry) }, Action::DeleteFile { file })
        },
        RelayPhase::AwaitCleanup => (
            RelayState { phase: RelayPhase::AwaitClock, entry: Some(entry) },
            Action::ReadClock,
        ),
        RelayPhase::AwaitCleanupOnly => stop(Failure::Outside),
        RelayPhase::AwaitClock => match event {
            Event::Clock(secs) => {
                let user = selection.chat.member();
                let record = cs.log_user_activity(
                    &entry.path,
                    &user.id,
                    user.username.as_str(),
                    user.first_name.as_str(),
                    user.last_name.as_str(),
                    secs,
                );
                match record {
                    Some(row) => (
                        RelayState { phase: RelayPhase::AwaitAudit, entry: None },
                        Action::AppendLog(row),
                    ),
                    None => answer(selection),
                }
            },
            _ => answer(selection),
        },
        _ => stop(Failure::Protocol),
    }
}

/// Relays a selected file, one step at a time.
///
/// Called with the state of `RelayState::new` and the event `Arrived` when
/// the selection comes in, and then with each state it returned and the
/// outcome of the action it asked for.
pub fn callback_handler(cs: &ChatServer, selection: &Selection, state: RelayState, event: Event) -> (next: (
    RelayState,
    Action,
))
    ensures
        (next.0@, next.1@) == relay_step(cs@, selection@, state@, event@),
{
    let RelayState { phase, entry } = state;
    match phase {
        RelayPhase::Selected => match event {
            Event::Arrived => (
                RelayState { phase: RelayPhase::AwaitAccess, entry: None },
                Action::CheckAccess { user_id: selection.chat.store_id() },
            ),
            _ => stop(Failure::Protocol),
        },
        RelayPhase::AwaitAccess => match event {
            Event::Users(ids) => gate_step(cs, selection, &ids),
            Event::Failed => stop(Failure::Outside),
            _ => stop(Failure::Protocol),
        },
        RelayPhase::AwaitDenial => match event {
            Event::Done => (RelayState { phase: RelayPhase::Closed, entry: None }, Action::Finish),
            Event::Failed => stop(Failure::Outside),
            _ => stop(Failure::Protocol),
        },
        RelayPhase::AwaitEntry => match event {
            Event::Paths(rows) => entry_step(cs, selection, &rows),
            Event::Failed => stop(Failure::Outside),
            _ => stop(Failure::Protocol),
        },
        RelayPhase::AwaitAudit => answer(selection),
        RelayPhase::AwaitAnswer => match event {
            Event::Done => answered_step(selection),
            Event::Failed => stop(Failure::Outside),
            _ => stop(Failure::Protocol),
        },
        RelayPhase::AwaitEdit => match event {
            Event::Done => (RelayState { phase: RelayPhase::Closed, entry: None }, Action::Finish),
            Event::Failed => stop(Failure::Outside),
            _ => stop(Failure::Protocol),
        },
        RelayPhase::Closed => stop(Failure::Protocol),
        _ => match entry {
            Some(entry) => record_step(cs, selection, phase, entry, event),
            None => stop(Failure::Protocol),
        },
    }
}

} // verus!
