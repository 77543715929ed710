//! The catalog of remote files: its records, the search by name and the
//! resolution of a selection token.

use crate::text::{chars_of, contains_ignoring_ascii_case, has_substring_ignoring_case};
use vstd::prelude::*;

verus! {

/// The most records one search returns.
pub const SEARCH_LIMIT: usize = 20;

/// One catalog record describing a remotely stored file.
#[derive(Debug, PartialEq, Eq)]
pub struct PathData {
    /// Display name, the text that a search looks into.
    pub name: String,
    /// Location of the file below the storage root.
    pub path: String,
    /// Opaque token that identifies the record in a selection.
    pub hash: String,
}

/// What a catalog record says, as plain text.
pub struct PathEntry {
    pub name: Seq<char>,
    pub path: Seq<char>,
    pub hash: Seq<char>,
}

impl View for PathData {
    type V = PathEntry;

    open spec fn view(&self) -> PathEntry {
        PathEntry { name: self.name@, path: self.path@, hash: self.hash@ }
    }
}

impl Clone for PathData {
    fn clone(&self) -> (copy: Self)
        ensures
            copy == *self,
    {
        PathData { name: self.name.clone(), path: self.path.clone(), hash: self.hash.clone() }
    }
}

/// Why a selection token did not resolve to a record.
#[derive(Clone, Copy, Debug, PartialEq, Eq, Structural)]
pub enum LookupError {
    /// No record carries the token.
    NotFound,
    /// More than one record carries the token: the catalog is damaged.
    Ambiguous,
}

/// The records behind a batch of rows.
pub open spec fn entries(rows: Seq<PathData>) -> Seq<PathEntry> {
    rows.map_values(|row: PathData| row@)
}

/// The test a record passes when its name contains `query`, up to the case
/// of ASCII letters.
pub open spec fn name_has(query: Seq<char>) -> spec_fn(PathEntry) -> bool {
    |entry: PathEntry| contains_ignoring_ascii_case(entry.name, query)
}

/// The test a record passes when it carries the token `hash`.
pub open spec fn hash_is(hash: Seq<char>) -> spec_fn(PathEntry) -> bool {
    |entry: PathEntry| entry.hash == hash
}

/// The first `limit` elements of `s`, or all of `s` where it has fewer.
pub open spec fn capped<A>(s: Seq<A>, limit: nat) -> Seq<A> {
    if s.len() <= limit {
        s
    } else {
        s.take(limit as int)
    }
}

/// The answer to a search: the records whose name contains `query` up to
/// the case of ASCII letters, in catalog order, cut off after `limit` of
/// them.
pub open spec fn search_result(catalog: Seq<PathEntry>, query: Seq<char>, limit: nat) -> Seq<
    PathEntry,
> {
    capped(catalog.filter(name_has(query)), limit)
}

/// The records that carry the token `hash`, in catalog order.
pub open spec fn with_hash(catalog: Seq<PathEntry>, hash: Seq<char>) -> Seq<PathEntry> {
    catalog.filter(hash_is(hash))
}

/// Filtering a catalog prefix one record further.
proof fn lemma_filter_step(catalog: Seq<PathEntry>, test: spec_fn(PathEntry) -> bool, i: int)
    requires
        0 <= i < catalog.len(),
    ensures
        catalog.take(i + 1).filter(test) == if test(catalog[i]) {
            catalog.take(i).filter(test).push(catalog[i])
        } else {
            catalog.take(i).filter(test)
        },
{
    assert(catalog.take(i + 1) =~= catalog.take(i).push(catalog[i]));
    catalog.take(i).lemma_filter_push(catalog[i], test);
}

/// A filtered prefix is the start of the whole filtered catalog.
proof fn lemma_filter_prefix(catalog: Seq<PathEntry>, test: spec_fn(PathEntry) -> bool, i: int)
    requires
        0 <= i <= catalog.len(),
    ensures
        catalog.take(i).filter(test).len() <= catalog.filter(test).len(),
        catalog.filter(test).take(catalog.take(i).filter(test).len() as int) == catalog.take(
            i,
        ).filter(test),
{
    let head = catalog.take(i);
    let tail = catalog.skip(i);
    assert(catalog =~= head + tail);
    Seq::filter_distributes_over_add(head, tail, test);
    assert((head.filter(test) + tail.filter(test)).take(head.filter(test).len() as int)
        =~= head.filter(test));
}

/// Searches `rows` for the records whose name contains `query` as a
/// substring, without regard to the case of ASCII letters, and returns the
/// first `limit` of them in the order of `rows`.
pub fn search(rows: &Vec<PathData>, query: &str, limit: usize) -> (found: Vec<PathData>)
    ensures
        entries(found@) == search_result(entries(rows@), query@, limit as nat),
        found.len() <= limit,
        forall|i: int|
            0 <= i < found.len() ==> contains_ignoring_ascii_case(
                #[trigger] found[i]@.name,
                query@,
            ),
{
    let needle = chars_of(query);
    let ghost catalog = entries(rows@);
    let ghost test = name_has(query@);
    let mut found: Vec<PathData> = Vec::new();
    let mut i: usize = 0;
    proof {
        reveal(Seq::filter);
        assert(catalog.take(0).filter(test) =~= Seq::<PathEntry>::empty());
        assert(entries(found@) =~= Seq::<PathEntry>::empty());
    }
    while i < rows.len() && found.len() < limit
        invariant
            i <= rows.len(),
            needle@ == query@,
            catalog == entries(rows@),
            test == name_has(query@),
            found.len() <= limit,
            entries(found@) == catalog.take(i as int).filter(test),
        decreases rows.len() - i,
    {
        let row = &rows[i];
        let hay = chars_of(row.name.as_str());
        proof {
            lemma_filter_step(catalog, test, i as int);
            assert(catalog[i as int] == row@);
        }
        if has_substring_ignoring_case(&hay, &needle) {
            let ghost before = found@;
            found.push(row.clone());
            assert(entries(found@) =~= entries(before).push(row@));
        }
        i += 1;
    }
    proof {
        let all = catalog.filter(test);
        lemma_filter_prefix(catalog, test, i as int);
        if i == rows.len() {
            assert(catalog.take(i as int) =~= catalog);
        } else {
            assert(found.len() == limit);
            assert(entries(found@).len() == found.len());
        }
        assert(entries(found@).len() == found.len());
        assert(entries(found@) == capped(all, limit as nat));
        assert(found.len() <= all.len());
        assert forall|k: int| 0 <= k < found.len() implies contains_ignoring_ascii_case(
            #[trigger] found[k]@.name,
            query@,
        ) by {
            assert(entries(found@)[k] == found[k]@);
            catalog.lemma_filter_pred(test, k);
            assert(all[k] == entries(found@)[k]);
        }
    }
    found
}

/// Resolves the token `hash` among `rows`: the one record that carries it.
pub fn resolve(rows: &Vec<PathData>, hash: &str) -> (outcome: Result<PathData, LookupError>)
    ensures
        match outcome {
            Ok(entry) => with_hash(entries(rows@), hash@) == seq![entry@],
            Err(LookupError::NotFound) => with_hash(entries(rows@), hash@).len() == 0,
            Err(LookupError::Ambiguous) => with_hash(entries(rows@), hash@).len() > 1,
        },
{
    let token = hash.to_owned();
    let ghost catalog = entries(rows@);
    let ghost test = hash_is(hash@);
    let mut first: Option<usize> = None;
    let mut i: usize = 0;
    proof {
        reveal(Seq::filter);
        assert(catalog.take(0).filter(test) =~= Seq::<PathEntry>::empty());
    }
    while i < rows.len()
        invariant
            i <= rows.len(),
            token@ == hash@,
            catalog == entries(rows@),
            test == hash_is(hash@),
            match first {
                Some(at) => at < i && catalog.take(i as int).filter(test) == seq![catalog[at as int]],
                None => catalog.take(i as int).filter(test).len() == 0,
            },
        decreases rows.len() - i,
    {
        proof {
            lemma_filter_step(catalog, test, i as int);
            assert(catalog[i as int] == rows[i as int]@);
        }
        if rows[i].hash == token {
            match first {
                Some(_) => {
                    proof {
                        lemma_filter_prefix(catalog, test, i + 1);
                    }
                    return Err(LookupError::Ambiguous);
                },
                None => {
                    first = Some(i);
                    assert(catalog.take(i + 1).filter(test) =~= seq![catalog[i as int]]);
                },
            }
        }
        i += 1;
    }
    assert(catalog.take(i as int) =~= catalog);
    match first {
        Some(at) => {
            let entry = rows[at].clone();
            assert(catalog[at as int] == rows[at as int]@);
            Ok(entry)
        },
        None => Err(LookupError::NotFound),
    }
}

} // verus!
