//! The context of the bot: its configuration, and the rules that turn what
//! the store holds into answers.

use teloxide::types::InlineKeyboardMarkup;
use crate::audit::{audit_entry, stamp, stamp_at, LogRecord, LAST_SECOND};
use crate::catalog::{
    entries, resolve, search, search_result, with_hash, LookupError, PathData, PathEntry,
    SEARCH_LIMIT,
};
use crate::keyboard::{append_choice, empty_markup, markup_rows};
use crate::profile::{is_registered, registered, texts, User, UserRow};
use crate::text::{contains_ignoring_ascii_case, replace, replace_char, replacement};
use vstd::prelude::*;
use vstd::string::StringExecFns;

verus! {

/// Address of the storage service's call that hands out a download link,
/// up to the path of the file.
pub const DOWNLOAD_API: &'static str =
    "https://cloud-api.yandex.net/v1/disk/resources/download?path=disk:";

/// The configuration that every request is handled under.
#[derive(Debug, PartialEq, Eq)]
pub struct ChatServer {
    /// Name of the bot, by which a command may address it.
    pub bot_name: String,
    /// Credential for the storage service, sent as the `Authorization` header.
    pub yauth: String,
    /// The shared activation key.
    pub access_key: String,
    /// The administrator, who hears of every new user.
    pub admin_id: u64,
    /// Prefix of every catalog path in the remote storage.
    pub root_dir: String,
    /// Directory for the files that are in flight.
    pub tmp_dir: String,
}

/// The configuration, as plain values.
pub struct ChatServerView {
    pub bot_name: Seq<char>,
    pub yauth: Seq<char>,
    pub access_key: Seq<char>,
    pub admin_id: u64,
    pub root_dir: Seq<char>,
    pub tmp_dir: Seq<char>,
}

impl View for ChatServer {
    type V = ChatServerView;

    open spec fn view(&self) -> ChatServerView {
        ChatServerView {
            bot_name: self.bot_name@,
            yauth: self.yauth@,
            access_key: self.access_key@,
            admin_id: self.admin_id,
            root_dir: self.root_dir@,
            tmp_dir: self.tmp_dir@,
        }
    }
}

/// The keyboard that offers `found`: one row per record, one button in it,
/// labelled with the record's name and carrying its token.
pub open spec fn choice_rows(found: Seq<PathEntry>) -> Seq<Seq<(Seq<char>, Seq<char>)>> {
    found.map_values(|entry: PathEntry| seq![(entry.name, entry.hash)])
}

/// The address that asks the storage service for a download link to the file
/// at `path` below `root_dir`.
pub open spec fn download_request(root_dir: Seq<char>, path: Seq<char>) -> Seq<char> {
    DOWNLOAD_API@ + root_dir + path
}

/// The name of a catalog record as a file name: every `/` becomes `_`.
pub open spec fn flat_name(name: Seq<char>) -> Seq<char> {
    replace_char(name, '/', seq!['_'])
}

/// The scratch file for the record called `name`: directly inside `tmp_dir`.
pub open spec fn scratch_file(tmp_dir: Seq<char>, name: Seq<char>) -> Seq<char> {
    tmp_dir + seq!['/'] + flat_name(name)
}

/// A flattened name holds no path separator, whatever the name was.
pub proof fn lemma_flat_name_has_no_separator(name: Seq<char>)
    ensures
        !flat_name(name).contains('/'),
    decreases name.len(),
{
    let each = replacement('/', seq!['_']);
    if name.len() == 0 {
        broadcast use vstd::seq_lib::group_seq_properties;

        assert(flat_name(name) =~= Seq::<char>::empty());
    } else {
        let front = name.drop_last();
        lemma_flat_name_has_no_separator(front);
        front.lemma_flat_map_push(each, name.last());
        assert(front.push(name.last()) =~= name);
        let tail = each(name.last());
        assert(flat_name(name) =~= flat_name(front) + tail);
        assert forall|i: int| 0 <= i < flat_name(name).len() implies flat_name(name)[i] != '/' by {
            if i < flat_name(front).len() {
                assert(flat_name(front).contains(flat_name(front)[i]));
            } else {
                assert(tail.len() == 1);
                assert(tail[0] != '/');
            }
        }
    }
}

impl ChatServer {
    /// Bundles the configuration.
    pub fn new(
        bot_name: String,
        yauth: String,
        access_key: String,
        admin_id: u64,
        root_dir: String,
        tmp_dir: String,
    ) -> (server: Self)
        ensures
            server@ == (ChatServerView {
                bot_name: bot_name@,
                yauth: yauth@,
                access_key: access_key@,
                admin_id,
                root_dir: root_dir@,
                tmp_dir: tmp_dir@,
            }),
    {
        ChatServer { bot_name, yauth, access_key, admin_id, root_dir, tmp_dir }
    }

    /// Lays the search results out as an inline keyboard, one record per row.
    pub fn make_keyboard(&self, paths: Vec<PathData>) -> (markup: InlineKeyboardMarkup)
        ensures
            markup_rows(markup) == choice_rows(entries(paths@)),
    {
        let ghost found = entries(paths@);
        let mut markup = empty_markup();
        let mut i: usize = 0;
        assert(choice_rows(found.take(0)) =~= Seq::<Seq<(Seq<char>, Seq<char>)>>::empty());
        while i < paths.len()
            invariant
                i <= paths.len(),
                found == entries(paths@),
                markup_rows(markup) == choice_rows(found.take(i as int)),
            decreases paths.len() - i,
        {
            markup = append_choice(markup, paths[i].name.clone(), paths[i].hash.clone());
            assert(choice_rows(found.take(i + 1)) =~= choice_rows(found.take(i as int)).push(
                seq![(found[i as int].name, found[i as int].hash)],
            ));
            i += 1;
        }
        assert(found.take(paths.len() as int) =~= found);
        markup
    }

    /// The answer to a search for `search_string`, given the rows that the
    /// store returned: the records whose name contains `search_string` as a
    /// substring, without regard to the case of ASCII letters, in their
    /// order, twenty at most.
    pub fn get_paths(&self, rows: &Vec<PathData>, search_string: &str) -> (found: Vec<PathData>)
        ensures
            entries(found@) == search_result(
                entries(rows@),
                search_string@,
                SEARCH_LIMIT as nat,
            ),
            found.len() <= SEARCH_LIMIT,
            forall|i: int|
                0 <= i < found.len() ==> contains_ignoring_ascii_case(
                    #[trigger] found[i]@.name,
                    search_string@,
                ),
    {
        search(rows, search_string, SEARCH_LIMIT)
    }

    /// The record that the token `hash` selects, given the rows that the
    /// store returned: the only one that carries the token. No such row is
    /// `NotFound`, several are `Ambiguous`.
    pub fn get_file_path(&self, rows: &Vec<PathData>, hash: &str) -> (outcome: Result<
        PathData,
        LookupError,
    >)
        ensures
            match outcome {
                Ok(entry) => with_hash(entries(rows@), hash@) == seq![entry@],
                Err(LookupError::NotFound) => with_hash(entries(rows@), hash@).len() == 0,
                Err(LookupError::Ambiguous) => with_hash(entries(rows@), hash@).len() > 1,
            },
    {
        resolve(rows, hash)
    }

    /// Whether the user `id` may use the bot, given the identifiers that the
    /// store returned from the allow-list.
    pub fn access_is_allowed(&self, ids: &Vec<String>, id: &String) -> (allowed: bool)
        ensures
            allowed == registered(texts(ids@), id@),
    {
        is_registered(ids, id)
    }

    /// The row that registers a user in the allow-list.
    pub fn add_new_user(
        &self,
        id: String,
        username: &str,
        first_name: &str,
        last_name: &str,
    ) -> (user: User)
        ensures
            user@ == (UserRow {
                id: id@,
                username: username@,
                first_name: first_name@,
                last_name: last_name@,
            }),
    {
        User {
            id,
            username: username.to_owned(),
            first_name: first_name.to_owned(),
            last_name: last_name.to_owned(),
        }
    }

    /// The row that logs the relay of `path` to a user at the moment `now`,
    /// given in seconds since 1970-01-01 00:00:00 UTC. There is a row for
    /// every moment from 1970 to the end of the year 9999; outside of that
    /// there is none where the calendar cannot name the moment.
    pub fn log_user_activity(
        &self,
        path: &String,
        id: &String,
        username: &str,
        first_name: &str,
        last_name: &str,
        now: i64,
    ) -> (record: Option<LogRecord>)
        ensures
            match record {
                Some(row) => stamp_at(now as int) is Some && row@ == audit_entry(
                    stamp_at(now as int)->0,
                    path@,
                    (UserRow {
                        id: id@,
                        username: username@,
                        first_name: first_name@,
                        last_name: last_name@,
                    }),
                ),
                None => stamp_at(now as int) is None,
            },
            0 <= now <= LAST_SECOND ==> record is Some,
    {
        match stamp(now) {
            Some(timestamp) => Some(
                LogRecord {
                    timestamp,
                    path: path.clone(),
                    user_id: id.clone(),
                    username: username.to_owned(),
                    first_name: first_name.to_owned(),
                    last_name: last_name.to_owned(),
                },
            ),
            None => None,
        }
    }

    /// The address that asks the storage service for a download link to the
    /// catalog file at `path`.
    pub fn download_request(&self, path: &str) -> (url: String)
        ensures
            url@ == download_request(self@.root_dir, path@),
    {
        let mut url = DOWNLOAD_API.to_owned();
        url.append(self.root_dir.as_str());
        url.append(path);
        url
    }

    /// The scratch file for the catalog record called `name`. Its last
    /// component holds no `/`, so it lies directly inside the scratch
    /// directory.
    pub fn scratch_file(&self, name: &str) -> (file: String)
        ensures
            file@ == scratch_file(self@.tmp_dir, name@),
            !flat_name(name@).contains('/'),
    {
        proof {
            reveal_strlit("/");
            reveal_strlit("_");
            lemma_flat_name_has_no_separator(name@);
            assert("/"@ =~= seq!['/']);
            assert("_"@ =~= seq!['_']);
        }
        let mut file = self.tmp_dir.clone();
        file.append("/");
        let flat = replace(name, '/', "_");
        file.append(flat.as_str());
        file
    }
}

} // verus!
