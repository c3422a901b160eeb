//! The search for a descriptor, upward from a starting location.
//!
//! The search asks what lies at one path after another. It is written as a
//! machine that names the next path to look at and takes what was seen
//! there, so that it can be run against a disk or against a listing held in
//! memory.

use crate::paths::{join, parent_of, path_join, path_parent};
use crate::project::Project;
use vstd::prelude::*;

verus! {

/// The name under which a folder holds its descriptor.
pub const PROJECT_FILENAME: &'static str = "roblox-project.json";

/// What lies at a path.
#[derive(Debug, Clone, Copy, PartialEq, Eq)]
pub enum EntryKind {
    /// Nothing, or nothing that can be inspected.
    Missing,
    File,
    Directory,
    /// Something that is neither a file nor a directory.
    Other,
}

/// A moment of the search.
#[derive(Debug)]
pub enum LocateState {
    /// It is to be seen what lies at `location`.
    AtLocation { location: String },
    /// `location` is a directory, and it is to be seen what lies at
    /// `candidate`, the descriptor's name inside it.
    AtCandidate { location: String, candidate: String },
    /// The search has ended.
    Done { found: Option<String> },
}

/// A moment of the search, as text.
pub enum Search {
    AtLocation { location: Seq<char> },
    AtCandidate { location: Seq<char>, candidate: Seq<char> },
    Done { found: Option<Seq<char>> },
}

impl View for LocateState {
    type V = Search;

    open spec fn view(&self) -> Search {
        match *self {
            LocateState::AtLocation { location } => Search::AtLocation { location: location@ },
            LocateState::AtCandidate { location, candidate } => Search::AtCandidate {
                location: location@,
                candidate: candidate@,
            },
            LocateState::Done { found } => Search::Done {
                found: match found {
                    Some(path) => Some(path@),
                    None => None,
                },
            },
        }
    }
}

/// The search moves on to the folder above `location`, or ends where there
/// is none.
pub open spec fn ascend(location: Seq<char>) -> Search {
    match path_parent(location) {
        Some(parent) => Search::AtLocation { location: parent },
        None => Search::Done { found: None },
    }
}

impl Search {
    /// The path that is to be looked at next, if the search goes on.
    pub open spec fn probe(self) -> Option<Seq<char>> {
        match self {
            Search::AtLocation { location } => Some(location),
            Search::AtCandidate { candidate, .. } => Some(candidate),
            Search::Done { .. } => None,
        }
    }

    /// The next moment, once `observed` was seen at the path looked at.
    ///
    /// A file at the location is taken for the descriptor. In a directory
    /// the descriptor's name is looked at: a file there is the descriptor,
    /// anything else there ends the search, and nothing there sends the
    /// search to the folder above.
    pub open spec fn step(self, filename: Seq<char>, observed: EntryKind) -> Search {
        match self {
            Search::AtLocation { location } => match observed {
                EntryKind::Missing => Search::Done { found: None },
                EntryKind::File => Search::Done { found: Some(location) },
                EntryKind::Directory => Search::AtCandidate {
                    location,
                    candidate: path_join(location, filename),
                },
                EntryKind::Other => ascend(location),
            },
            Search::AtCandidate { location, candidate } => match observed {
                EntryKind::File => Search::Done { found: Some(candidate) },
                EntryKind::Missing => ascend(location),
                _ => Search::Done { found: None },
            },
            Search::Done { found } => self,
        }
    }

    /// A number that every step of a search that goes on makes smaller.
    pub open spec fn rank(self) -> nat {
        match self {
            Search::AtLocation { location } => 2 * location.len() + 2,
            Search::AtCandidate { location, .. } => 2 * location.len() + 1,
            Search::Done { .. } => 0,
        }
    }
}

/// What the search from `start` finds where `kinds` tells what lies at each
/// path.
pub open spec fn located(
    kinds: spec_fn(Seq<char>) -> EntryKind,
    filename: Seq<char>,
    start: Seq<char>,
) -> Option<Seq<char>>
    decreases start.len(), 2nat,
{
    match kinds(start) {
        EntryKind::Missing => None,
        EntryKind::File => Some(start),
        EntryKind::Directory => located_inside(kinds, filename, start, path_join(start, filename)),
        EntryKind::Other => located_above(kinds, filename, start),
    }
}

/// What the search finds once it has seen that `start` is a directory and
/// looks at `candidate` in it.
pub open spec fn located_inside(
    kinds: spec_fn(Seq<char>) -> EntryKind,
    filename: Seq<char>,
    start: Seq<char>,
    candidate: Seq<char>,
) -> Option<Seq<char>>
    decreases start.len(), 1nat,
{
    match kinds(candidate) {
        EntryKind::File => Some(candidate),
        EntryKind::Missing => located_above(kinds, filename, start),
        _ => None,
    }
}

/// What the search finds once it has given up on `start` itself: what it
/// finds from the folder above, or nothing where there is none. The folder
/// above a path has a shorter text than the path, which is what lets the
/// search be defined by recursion on the length.
pub open spec fn located_above(
    kinds: spec_fn(Seq<char>) -> EntryKind,
    filename: Seq<char>,
    start: Seq<char>,
) -> Option<Seq<char>>
    decreases start.len(), 0nat,
{
    match path_parent(start) {
        Some(parent) => if parent.len() < start.len() {
            located(kinds, filename, parent)
        } else {
            None
        },
        None => None,
    }
}

/// What a listing says of `path`: the kind of the first entry with that
/// path, or that nothing is there.
pub open spec fn listed_kind(entries: Seq<(String, EntryKind)>, path: Seq<char>) -> EntryKind
    decreases entries.len(),
{
    if entries.len() == 0 {
        EntryKind::Missing
    } else if entries[0].0@ == path {
        entries[0].1
    } else {
        listed_kind(entries.drop_first(), path)
    }
}

/// A listing, as what lies at each path.
pub open spec fn listing(entries: Seq<(String, EntryKind)>) -> spec_fn(Seq<char>) -> EntryKind {
    |path: Seq<char>| listed_kind(entries, path)
}

impl Search {
    /// What the search will have found at its end, from this moment on,
    /// where `kinds` tells what lies at each path.
    pub open spec fn outcome(
        self,
        kinds: spec_fn(Seq<char>) -> EntryKind,
        filename: Seq<char>,
    ) -> Option<Seq<char>> {
        match self {
            Search::AtLocation { location } => located(kinds, filename, location),
            Search::AtCandidate { location, candidate } => located_inside(
                kinds,
                filename,
                location,
                candidate,
            ),
            Search::Done { found } => found,
        }
    }
}

/// A step of the search that sees what `kinds` tells, and that comes closer
/// to the end, changes nothing in what the search will have found.
pub proof fn lemma_step_keeps_outcome(
    state: Search,
    kinds: spec_fn(Seq<char>) -> EntryKind,
    filename: Seq<char>,
)
    requires
        state.probe() is Some,
        state matches Search::AtCandidate { location, candidate } ==> candidate == path_join(
            location,
            filename,
        ),
        state.step(filename, kinds(state.probe().unwrap())).rank() < state.rank(),
    ensures
        state.step(filename, kinds(state.probe().unwrap())).outcome(kinds, filename)
            == state.outcome(kinds, filename),
{
}

/// The kind that `entries` lists for `path`.
pub fn kind_in(entries: &Vec<(String, EntryKind)>, path: &String) -> (kind: EntryKind)
    ensures
        kind == listed_kind(entries@, path@),
{
    let mut i: usize = 0;
    assert(entries@.subrange(0, entries@.len() as int) == entries@);
    while i < entries.len()
        invariant
            i <= entries.len(),
            listed_kind(entries@, path@) == listed_kind(
                entries@.subrange(i as int, entries@.len() as int),
                path@,
            ),
        decreases entries.len() - i,
    {
        let ghost rest = entries@.subrange(i as int, entries@.len() as int);
        assert(rest[0] == entries@[i as int]);
        assert(rest.drop_first() == entries@.subrange(i + 1, entries@.len() as int));
        if entries[i].0 == *path {
            return entries[i].1;
        }
        i += 1;
    }
    assert(entries@.subrange(i as int, entries@.len() as int).len() == 0);
    EntryKind::Missing
}

impl Project {
    /// Searches for a descriptor named `filename` from `start_location`, in a
    /// filesystem given as a listing.
    pub fn locate(start_location: &str, filename: &str, entries: &Vec<(String, EntryKind)>) -> (found:
        Option<String>)
        ensures
            match located(listing(entries@), filename@, start_location@) {
                Some(path) => found matches Some(p) && p@ == path,
                None => found.is_none(),
            },
    {
        let ghost kinds = listing(entries@);
        let mut state = LocateState::new(start_location);
        while !state.is_done()
            invariant
                kinds == listing(entries@),
                state@ matches Search::AtCandidate { location, candidate } ==> candidate == path_join(
                    location,
                    filename@,
                ),
                state@.outcome(kinds, filename@) == located(kinds, filename@, start_location@),
            decreases state@.rank(),
        {
            let observed = match state.probe() {
                Some(path) => kind_in(entries, path),
                None => EntryKind::Missing,
            };
            let ghost before = state@;
            state = state.step(filename, observed);
            proof {
                lemma_step_keeps_outcome(before, kinds, filename@);
            }
        }
        state.into_found()
    }
}

/// `above` is the folder that holds `path`.
pub open spec fn folder_of(path: Seq<char>, above: Seq<char>) -> bool {
    path_parent(path) == Some(above) && above.len() < path.len()
}

/// `other` is `path`, or a folder above it at any height.
pub open spec fn on_way_up(path: Seq<char>, other: Seq<char>) -> bool
    decreases path.len(),
{
    other == path || (match path_parent(path) {
        Some(above) => above.len() < path.len() && on_way_up(above, other),
        None => false,
    })
}

/// A search that starts at a file finds that file, whatever its name.
pub proof fn lemma_file_is_found(
    kinds: spec_fn(Seq<char>) -> EntryKind,
    filename: Seq<char>,
    start: Seq<char>,
)
    requires
        kinds(start) == EntryKind::File,
    ensures
        located(kinds, filename, start) == Some(start),
{
}

/// A search that starts at a directory which holds a file of the
/// descriptor's name finds that file.
pub proof fn lemma_descriptor_in_directory_is_found(
    kinds: spec_fn(Seq<char>) -> EntryKind,
    filename: Seq<char>,
    start: Seq<char>,
)
    requires
        kinds(start) == EntryKind::Directory,
        kinds(path_join(start, filename)) == EntryKind::File,
    ensures
        located(kinds, filename, start) == Some(path_join(start, filename)),
{
}

/// A search that starts at a directory in which the descriptor's name
/// stands for something that is no file finds nothing, whatever the folders
/// above hold.
pub proof fn lemma_shadowed_name_ends_search(
    kinds: spec_fn(Seq<char>) -> EntryKind,
    filename: Seq<char>,
    start: Seq<char>,
)
    requires
        kinds(start) == EntryKind::Directory,
        kinds(path_join(start, filename)) == EntryKind::Directory || kinds(
            path_join(start, filename),
        ) == EntryKind::Other,
    ensures
        located(kinds, filename, start) is None,
{
}

/// A search that starts at a directory without the descriptor's name goes
/// on as a search from the folder above; so it finds the descriptor of that
/// folder, if it has one.
pub proof fn lemma_search_goes_up(
    kinds: spec_fn(Seq<char>) -> EntryKind,
    filename: Seq<char>,
    start: Seq<char>,
    above: Seq<char>,
)
    requires
        kinds(start) == EntryKind::Directory,
        kinds(path_join(start, filename)) == EntryKind::Missing,
        folder_of(start, above),
    ensures
        located(kinds, filename, start) == located(kinds, filename, above),
        kinds(above) == EntryKind::Directory && kinds(path_join(above, filename))
            == EntryKind::File ==> located(kinds, filename, start) == Some(
            path_join(above, filename),
        ),
{
}

/// A search finds nothing where neither the start nor a folder above it is
/// a file or holds a file of the descriptor's name.
pub proof fn lemma_search_finds_nothing(
    kinds: spec_fn(Seq<char>) -> EntryKind,
    filename: Seq<char>,
    start: Seq<char>,
)
    requires
        forall|other: Seq<char>| #[trigger]
            on_way_up(start, other) ==> kinds(other) != EntryKind::File && kinds(
                path_join(other, filename),
            ) != EntryKind::File,
    ensures
        located(kinds, filename, start) is None,
    decreases start.len(),
{
    assert(on_way_up(start, start));
    match path_parent(start) {
        Some(above) => {
            if above.len() < start.len() {
                assert forall|other: Seq<char>| #[trigger] on_way_up(above, other) implies kinds(
                    other,
                ) != EntryKind::File && kinds(path_join(other, filename)) != EntryKind::File by {
                    assert(on_way_up(start, other));
                }
                lemma_search_finds_nothing(kinds, filename, above);
            }
        },
        None => {},
    }
}

/// Whatever a search finds is a file.
pub proof fn lemma_found_is_a_file(
    kinds: spec_fn(Seq<char>) -> EntryKind,
    filename: Seq<char>,
    start: Seq<char>,
)
    ensures
        located(kinds, filename, start) matches Some(path) ==> kinds(path) == EntryKind::File,
    decreases start.len(),
{
    match path_parent(start) {
        Some(above) => {
            if above.len() < start.len() {
                lemma_found_is_a_file(kinds, filename, above);
            }
        },
        None => {},
    }
}

impl LocateState {
    /// The start of a search from `start`.
    pub fn new(start: &str) -> (state: LocateState)
        ensures
            state@ == (Search::AtLocation { location: start@ }),
    {
        LocateState::AtLocation { location: start.to_owned() }
    }

    /// The path to look at next; `None` once the search has ended.
    pub fn probe(&self) -> (path: Option<&String>)
        ensures
            match path {
                Some(p) => self@.probe() == Some(p@),
                None => self@.probe().is_none(),
            },
    {
        match self {
            LocateState::AtLocation { location } => Some(location),
            LocateState::AtCandidate { candidate, .. } => Some(candidate),
            LocateState::Done { .. } => None,
        }
    }

    /// Whether the search has ended.
    pub fn is_done(&self) -> (done: bool)
        ensures
            done == self@.probe().is_none(),
    {
        match self {
            LocateState::Done { .. } => true,
            _ => false,
        }
    }

    /// What was found, once the search has ended.
    pub fn into_found(self) -> (found: Option<String>)
        ensures
            match self@ {
                Search::Done { found: Some(path) } => found matches Some(p) && p@ == path,
                _ => found.is_none(),
            },
    {
        match self {
            LocateState::Done { found } => found,
            _ => None,
        }
    }

    /// The moment after `observed` was seen at the path that `probe` named.
    /// A search that has not ended comes closer to its end.
    pub fn step(self, filename: &str, observed: EntryKind) -> (next: LocateState)
        ensures
            next@ == self@.step(filename@, observed),
            self@.probe().is_some() ==> next@.rank() < self@.rank(),
    {
        match self {
            LocateState::AtLocation { location } => match observed {
                EntryKind::Missing => LocateState::Done { found: None },
                EntryKind::File => LocateState::Done { found: Some(location) },
                EntryKind::Directory => {
                    let candidate = join(location.as_str(), filename);
                    LocateState::AtCandidate { location, candidate }
                },
                EntryKind::Other => LocateState::above(location),
            },
            LocateState::AtCandidate { location, candidate } => match observed {
                EntryKind::File => LocateState::Done { found: Some(candidate) },
                EntryKind::Missing => LocateState::above(location),
                _ => LocateState::Done { found: None },
            },
            LocateState::Done { found } => LocateState::Done { found },
        }
    }

    fn above(location: String) -> (next: LocateState)
        ensures
            next@ == ascend(location@),
            next@.rank() < 2 * location@.len() + 1,
    {
        match parent_of(location.as_str()) {
            Some(parent_location) => LocateState::AtLocation { location: parent_location },
            None => LocateState::Done { found: None },
        }
    }
}

} // verus!
