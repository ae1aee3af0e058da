//! Resolving the private key to sign with.
//!
//! An identifier that holds a path separator is the path of a key file, and
//! that file alone is loaded. Any other identifier is a key's name, and
//! without an identifier the name is the current user's default: the
//! directories of the search path are then searched for it in their order,
//! and the first that holds the key ends the search. A failure to read or to
//! parse ends the resolution where it occurs, in a named directory as much as
//! at an explicit path: no later directory is tried in its place. A directory
//! that merely holds no such key passes the search on to the next.
//!
//! The library does not read files. A [`Resolution`] says what is to be loaded
//! next, its caller loads it and reports what came of it as a [`KeyEvent`],
//! and [`Resolution::advance`] gives the state that follows.

use vstd::prelude::*;
use vstd::string::*;
use crate::error::CliError;
use crate::error::CliErrorView;
use crate::key::PrivateKey;
use crate::text::contains_char;
use crate::text::join;
use crate::text::joined;
use crate::text::joined_pair;
use crate::text::PATH_SEPARATOR;

verus! {

/// What stands between the directories in the enumeration of a search path.
pub const SEARCH_PATH_SEPARATOR: &'static str = ":";

/// What the not-found message says before the directories that were searched.
pub const NOT_FOUND_BEFORE: &'static str = "No signing key found in ";

/// What the not-found message says after the directories that were searched.
pub const NOT_FOUND_AFTER: &'static str = ". Specify a valid key with the --key argument";

/// What the current user's conventions provide: the name of the key to use
/// when none is asked for, and the directories in which keys are looked for,
/// in the order of the search.
pub struct KeyConventions {
    /// The name of the key that is searched for when no identifier is given.
    pub default_key_name: String,
    /// The directories to search, the first to be searched first.
    pub search_path: Vec<String>,
}

/// A [`KeyConventions`] as mathematical values.
pub struct KeyConventionsView {
    pub default_key_name: Seq<char>,
    pub search_path: Seq<Seq<char>>,
}

impl View for KeyConventions {
    type V = KeyConventionsView;

    open spec fn view(&self) -> KeyConventionsView {
        KeyConventionsView {
            default_key_name: self.default_key_name@,
            search_path: self.search_path.deep_view(),
        }
    }
}

/// What came of the load that a [`Resolution`] was waiting for.
pub enum KeyEvent {
    /// The key file at the awaited path was loaded, or loading it failed
    /// with the given cause.
    PathLoaded(Result<PrivateKey, CliError>),
    /// The awaited directory was searched for the key: it held the key, it
    /// held none of that name, or the search failed with the given cause.
    DirectorySearched(Result<Option<PrivateKey>, CliError>),
}

/// A [`KeyEvent`] as mathematical values.
pub enum KeyEventView {
    PathLoaded(Result<Seq<u8>, CliErrorView>),
    DirectorySearched(Result<Option<Seq<u8>>, CliErrorView>),
}

impl View for KeyEvent {
    type V = KeyEventView;

    open spec fn view(&self) -> KeyEventView {
        match *self {
            KeyEvent::PathLoaded(Ok(key)) => KeyEventView::PathLoaded(Ok(key@)),
            KeyEvent::PathLoaded(Err(cause)) => KeyEventView::PathLoaded(Err(cause@)),
            KeyEvent::DirectorySearched(Ok(Some(key))) => KeyEventView::DirectorySearched(
                Ok(Some(key@)),
            ),
            KeyEvent::DirectorySearched(Ok(None)) => KeyEventView::DirectorySearched(Ok(None)),
            KeyEvent::DirectorySearched(Err(cause)) => KeyEventView::DirectorySearched(
                Err(cause@),
            ),
        }
    }
}

/// How far the resolution of a key has come.
pub enum Resolution {
    /// The key file at `path` is to be loaded, and nothing else.
    AwaitingPath { path: String },
    /// The directory `search_path[position]` is to be searched for the key
    /// `name`. The directories before it hold no such key.
    AwaitingDirectory { name: String, search_path: Vec<String>, position: usize },
    /// The key is found.
    Resolved { key: PrivateKey },
    /// There is no key, for the reason given.
    Failed { error: CliError },
}

/// A [`Resolution`] as mathematical values.
pub enum ResolutionView {
    AwaitingPath { path: Seq<char> },
    AwaitingDirectory { name: Seq<char>, search_path: Seq<Seq<char>>, position: nat },
    Resolved { key: Seq<u8> },
    Failed { error: CliErrorView },
}

impl View for Resolution {
    type V = ResolutionView;

    open spec fn view(&self) -> ResolutionView {
        match *self {
            Resolution::AwaitingPath { path } => ResolutionView::AwaitingPath { path: path@ },
            Resolution::AwaitingDirectory {
                name,
                search_path,
                position,
            } => ResolutionView::AwaitingDirectory {
                name: name@,
                search_path: search_path.deep_view(),
                position: position as nat,
            },
            Resolution::Resolved { key } => ResolutionView::Resolved { key: key@ },
            Resolution::Failed { error } => ResolutionView::Failed { error: error@ },
        }
    }
}

/// Whether `identifier` is the path of a key file, not the name of a key: it
/// is when it holds a path separator.
pub open spec fn is_path(identifier: Seq<char>) -> bool {
    identifier.contains(PATH_SEPARATOR)
}

/// What is said when no directory of `search_path` holds the key: the
/// directories that were searched, in their order, and what to do about it.
pub open spec fn not_found_message(search_path: Seq<Seq<char>>) -> Seq<char> {
    NOT_FOUND_BEFORE@ + joined(search_path, SEARCH_PATH_SEPARATOR@) + NOT_FOUND_AFTER@
}

/// The identifier as a mathematical value.
pub open spec fn identifier_view(identifier: Option<String>) -> Option<Seq<char>> {
    match identifier {
        Some(text) => Some(text@),
        None => None,
    }
}

/// A key or the error in its place, as mathematical values.
pub open spec fn resolved_view(resolved: Result<PrivateKey, CliError>) -> Result<
    Seq<u8>,
    CliErrorView,
> {
    match resolved {
        Ok(key) => Ok(key@),
        Err(error) => Err(error@),
    }
}

/// The end of a resolution, if it has come, as mathematical values.
pub open spec fn ended_view(ended: Option<Result<PrivateKey, CliError>>) -> Option<
    Result<Seq<u8>, CliErrorView>,
> {
    match ended {
        Some(resolved) => Some(resolved_view(resolved)),
        None => None,
    }
}

impl ResolutionView {
    /// The search for `name` with the directories before `position` behind
    /// it: the next directory is awaited, or, with none left, the search has
    /// failed and the error names every directory of the search path.
    pub open spec fn search_from(
        name: Seq<char>,
        search_path: Seq<Seq<char>>,
        position: nat,
    ) -> ResolutionView {
        if position < search_path.len() {
            ResolutionView::AwaitingDirectory { name, search_path, position }
        } else {
            ResolutionView::Failed {
                error: CliErrorView::with_message(not_found_message(search_path)),
            }
        }
    }

    /// Where the resolution of `identifier` begins.
    pub open spec fn begin(
        identifier: Option<Seq<char>>,
        conventions: KeyConventionsView,
    ) -> ResolutionView {
        match identifier {
            Some(text) => if is_path(text) {
                ResolutionView::AwaitingPath { path: text }
            } else {
                ResolutionView::search_from(text, conventions.search_path, 0)
            },
            None => ResolutionView::search_from(
                conventions.default_key_name,
                conventions.search_path,
                0,
            ),
        }
    }

    /// The state that follows when `event` is reported. An event that the
    /// state does not await leaves it as it is.
    pub open spec fn advance(self, event: KeyEventView) -> ResolutionView {
        match self {
            ResolutionView::AwaitingPath { path } => match event {
                KeyEventView::PathLoaded(Ok(key)) => ResolutionView::Resolved { key },
                KeyEventView::PathLoaded(Err(cause)) => ResolutionView::Failed {
                    error: CliErrorView::from_source(cause),
                },
                KeyEventView::DirectorySearched(_) => self,
            },
            ResolutionView::AwaitingDirectory { name, search_path, position } => match event {
                KeyEventView::DirectorySearched(Ok(Some(key))) => ResolutionView::Resolved {
                    key,
                },
                KeyEventView::DirectorySearched(Ok(None)) => ResolutionView::search_from(
                    name,
                    search_path,
                    position + 1,
                ),
                KeyEventView::DirectorySearched(Err(cause)) => ResolutionView::Failed {
                    error: CliErrorView::from_source(cause),
                },
                KeyEventView::PathLoaded(_) => self,
            },
            ResolutionView::Resolved { .. } => self,
            ResolutionView::Failed { .. } => self,
        }
    }

    /// What the resolution ended with, if it is over.
    pub open spec fn outcome(self) -> Option<Result<Seq<u8>, CliErrorView>> {
        match self {
            ResolutionView::Resolved { key } => Some(Ok(key)),
            ResolutionView::Failed { error } => Some(Err(error)),
            _ => None,
        }
    }

    /// The state after `events` were reported one after another.
    pub open spec fn run(self, events: Seq<KeyEventView>) -> ResolutionView
        decreases events.len(),
    {
        if events.len() == 0 {
            self
        } else {
            self.run(events.drop_last()).advance(events.last())
        }
    }

    /// Whether the state is one that a resolution can come to: a directory
    /// that is awaited is one of the search path.
    pub open spec fn wf(self) -> bool {
        match self {
            ResolutionView::AwaitingDirectory { search_path, position, .. } => position
                < search_path.len(),
            _ => true,
        }
    }
}

/// The error that says that no directory of `search_path` holds the key.
pub fn not_found(search_path: &Vec<String>) -> (error: CliError)
    ensures
        error@ == CliErrorView::with_message(not_found_message(search_path.deep_view())),
{
    let mut message = String::from_str(NOT_FOUND_BEFORE);
    let directories = join(search_path, SEARCH_PATH_SEPARATOR);
    message.append(directories.as_str());
    message.append(NOT_FOUND_AFTER);
    CliError::with_message(message)
}

impl Resolution {
    /// Begins the resolution of `identifier` under `conventions`.
    pub fn begin(identifier: Option<String>, conventions: KeyConventions) -> (state: Resolution)
        ensures
            state@ == ResolutionView::begin(identifier_view(identifier), conventions@),
    {
        match identifier {
            Some(text) => {
                if contains_char(text.as_str(), PATH_SEPARATOR) {
                    Resolution::AwaitingPath { path: text }
                } else {
                    Resolution::search(text, conventions.search_path, 0)
                }
            },
            None => Resolution::search(conventions.default_key_name, conventions.search_path, 0),
        }
    }

    /// Takes the report of what the state was waiting for and gives the state
    /// that follows.
    pub fn advance(self, event: KeyEvent) -> (state: Resolution)
        ensures
            state@ == self@.advance(event@),
    {
        match self {
            Resolution::AwaitingPath { path } => match event {
                KeyEvent::PathLoaded(Ok(key)) => Resolution::Resolved { key },
                KeyEvent::PathLoaded(Err(cause)) => Resolution::Failed {
                    error: CliError::from_source(Box::new(cause)),
                },
                KeyEvent::DirectorySearched(_) => Resolution::AwaitingPath { path },
            },
            Resolution::AwaitingDirectory { name, search_path, position } => match event {
                KeyEvent::DirectorySearched(Ok(Some(key))) => Resolution::Resolved { key },
                KeyEvent::DirectorySearched(Ok(None)) => {
                    if position < search_path.len() {
                        Resolution::search(name, search_path, position + 1)
                    } else {
                        Resolution::Failed { error: not_found(&search_path) }
                    }
                },
                KeyEvent::DirectorySearched(Err(cause)) => Resolution::Failed {
                    error: CliError::from_source(Box::new(cause)),
                },
                KeyEvent::PathLoaded(_) => Resolution::AwaitingDirectory {
                    name,
                    search_path,
                    position,
                },
            },
            Resolution::Resolved { key } => Resolution::Resolved { key },
            Resolution::Failed { error } => Resolution::Failed { error },
        }
    }

    /// What the resolution ended with: the key, or the error that says why
    /// there is none. Nothing while a load is awaited.
    pub fn outcome(self) -> (ended: Option<Result<PrivateKey, CliError>>)
        ensures
            ended_view(ended) == self@.outcome(),
    {
        match self {
            Resolution::Resolved { key } => Some(Ok(key)),
            Resolution::Failed { error } => Some(Err(error)),
            _ => None,
        }
    }

    /// The search for `name` with the directories before `position` behind it.
    fn search(name: String, search_path: Vec<String>, position: usize) -> (state: Resolution)
        ensures
            state@ == ResolutionView::search_from(
                name@,
                search_path.deep_view(),
                position as nat,
            ),
    {
        if position < search_path.len() {
            Resolution::AwaitingDirectory { name, search_path, position }
        } else {
            Resolution::Failed { error: not_found(&search_path) }
        }
    }
}

/// The events that report, of each of the first `count` directories of a
/// search path, that it holds no key of the name.
pub open spec fn misses(count: nat) -> Seq<KeyEventView> {
    Seq::new(count, |i: int| KeyEventView::DirectorySearched(Ok(None)))
}

/// The event that reports that the awaited directory holds `key`.
pub open spec fn found(key: Seq<u8>) -> KeyEventView {
    KeyEventView::DirectorySearched(Ok(Some(key)))
}

/// The event that reports that the awaited load failed with `cause`, for the
/// file at a path where `at_path` holds, else for a directory.
pub open spec fn failed(cause: CliErrorView, at_path: bool) -> KeyEventView {
    if at_path {
        KeyEventView::PathLoaded(Err(cause))
    } else {
        KeyEventView::DirectorySearched(Err(cause))
    }
}

/// The name that is searched for when `identifier` is no path.
pub open spec fn key_name(
    identifier: Option<Seq<char>>,
    conventions: KeyConventionsView,
) -> Seq<char> {
    match identifier {
        Some(text) => text,
        None => conventions.default_key_name,
    }
}

/// Whether `state`, where it awaits a directory, awaits it for the key `name`
/// on the search path `search_path`.
pub open spec fn searches_for(
    state: ResolutionView,
    name: Seq<char>,
    search_path: Seq<Seq<char>>,
) -> bool {
    state is AwaitingDirectory ==> state->name == name && state->search_path == search_path
}

/// Whether `identifier` is absent or the name of a key.
pub open spec fn is_searched(identifier: Option<Seq<char>>) -> bool {
    identifier matches Some(text) ==> !is_path(text)
}

proof fn lemma_run_push(state: ResolutionView, events: Seq<KeyEventView>, event: KeyEventView)
    ensures
        state.run(events.push(event)) == state.run(events).advance(event),
{
    assert(events.push(event).drop_last() == events);
}

proof fn lemma_run_concat(
    state: ResolutionView,
    first: Seq<KeyEventView>,
    then: Seq<KeyEventView>,
)
    ensures
        state.run(first + then) == state.run(first).run(then),
    decreases then.len(),
{
    if then.len() == 0 {
        assert(first + then == first);
    } else {
        lemma_run_concat(state, first, then.drop_last());
        assert((first + then).drop_last() == first + then.drop_last());
    }
}

/// A resolution that is over stays as it is: with the key found, or failed,
/// no report changes the state any more. One key at most is resolved.
pub proof fn ended_resolution_stays(state: ResolutionView, events: Seq<KeyEventView>)
    requires
        state is Resolved || state is Failed,
    ensures
        state.run(events) == state,
    decreases events.len(),
{
    if events.len() > 0 {
        ended_resolution_stays(state, events.drop_last());
    }
}

proof fn lemma_path_run(path: Seq<char>, events: Seq<KeyEventView>)
    ensures
        ({
            let state = (ResolutionView::AwaitingPath { path }).run(events);
            state == (ResolutionView::AwaitingPath { path }) || state is Resolved
                || state is Failed
        }),
    decreases events.len(),
{
    if events.len() > 0 {
        lemma_path_run(path, events.drop_last());
    }
}

proof fn lemma_search_run(
    name: Seq<char>,
    search_path: Seq<Seq<char>>,
    position: nat,
    events: Seq<KeyEventView>,
)
    ensures
        ({
            let state = ResolutionView::search_from(name, search_path, position).run(events);
            state.wf() && (state matches ResolutionView::AwaitingDirectory {
                name: n,
                search_path: s,
                position: p,
            } ==> n == name && s == search_path && position <= p) && !(state is AwaitingPath)
        }),
    decreases events.len(),
{
    if events.len() > 0 {
        lemma_search_run(name, search_path, position, events.drop_last());
    }
}

proof fn lemma_misses_run(name: Seq<char>, search_path: Seq<Seq<char>>, count: nat)
    requires
        count <= search_path.len(),
    ensures
        ResolutionView::search_from(name, search_path, 0).run(misses(count))
            == ResolutionView::search_from(name, search_path, count),
    decreases count,
{
    if count > 0 {
        lemma_misses_run(name, search_path, (count - 1) as nat);
        assert(misses(count).drop_last() == misses((count - 1) as nat));
    }
}

/// An identifier that holds a path separator is never searched for. The
/// resolution begins by awaiting the file at that very path, whatever the
/// conventions are, and whatever is reported then, it never comes to await a
/// directory: it keeps waiting for the file, or it is over.
pub proof fn explicit_path_never_searches(
    identifier: Seq<char>,
    conventions: KeyConventionsView,
    events: Seq<KeyEventView>,
)
    requires
        is_path(identifier),
    ensures
        ResolutionView::begin(Some(identifier), conventions)
            == (ResolutionView::AwaitingPath { path: identifier }),
        !(ResolutionView::begin(Some(identifier), conventions).run(events) is AwaitingDirectory),
{
    lemma_path_run(identifier, events);
}

/// Without an identifier the key that is searched for is the one that the
/// conventions name: the first directory is searched for it, and so is every
/// directory that the resolution comes to await.
pub proof fn absent_identifier_uses_default(
    conventions: KeyConventionsView,
    events: Seq<KeyEventView>,
)
    ensures
        conventions.search_path.len() > 0 ==> ResolutionView::begin(None, conventions)
            == (ResolutionView::AwaitingDirectory {
                name: conventions.default_key_name,
                search_path: conventions.search_path,
                position: 0,
            }),
        searches_for(
            ResolutionView::begin(None, conventions).run(events),
            conventions.default_key_name,
            conventions.search_path,
        ),
{
    lemma_search_run(conventions.default_key_name, conventions.search_path, 0, events);
}

/// The first directory that holds the key wins. When the directories before
/// `hit` hold no key of the name and the one at `hit` holds `key`, the
/// directories are awaited in the order of the search path up to `hit`, the
/// resolution ends with `key`, and nothing that is reported later, of a
/// directory further down or of anything else, changes that.
pub proof fn first_match_wins(
    identifier: Option<Seq<char>>,
    conventions: KeyConventionsView,
    hit: nat,
    key: Seq<u8>,
    later: Seq<KeyEventView>,
)
    requires
        is_searched(identifier),
        hit < conventions.search_path.len(),
    ensures
        forall|i: nat|
            i <= hit ==> #[trigger] ResolutionView::begin(identifier, conventions).run(misses(i))
                == (ResolutionView::AwaitingDirectory {
                    name: key_name(identifier, conventions),
                    search_path: conventions.search_path,
                    position: i,
                }),
        ResolutionView::begin(identifier, conventions).run(misses(hit).push(found(key)))
            == (ResolutionView::Resolved { key }),
        ResolutionView::begin(identifier, conventions).run(misses(hit).push(found(key)) + later)
            == (ResolutionView::Resolved { key }),
{
    let name = key_name(identifier, conventions);
    let search_path = conventions.search_path;
    let start = ResolutionView::begin(identifier, conventions);
    assert(start == ResolutionView::search_from(name, search_path, 0));
    assert forall|i: nat| i <= hit implies #[trigger] start.run(misses(i))
        == (ResolutionView::AwaitingDirectory { name, search_path, position: i }) by {
        lemma_misses_run(name, search_path, i);
    }
    lemma_run_push(start, misses(hit), found(key));
    lemma_run_concat(start, misses(hit).push(found(key)), later);
    ended_resolution_stays(ResolutionView::Resolved { key }, later);
}

/// A search that no directory ends fails, and its error says so of every
/// directory. When each directory of the search path holds no key of the
/// name, the resolution is over once the last is reported, and the error's
/// message lists the directories of the search path, all of them and no
/// other, in their order, with a colon between neighbours. An empty search
/// path fails at once, with nothing between the words of the message.
pub proof fn exhausted_search_names_every_directory(
    identifier: Option<Seq<char>>,
    conventions: KeyConventionsView,
)
    requires
        is_searched(identifier),
    ensures
        ResolutionView::begin(identifier, conventions).run(misses(conventions.search_path.len()))
            == (ResolutionView::Failed {
                error: CliErrorView::with_message(not_found_message(conventions.search_path)),
            }),
        CliErrorView::with_message(not_found_message(conventions.search_path)).display()
            == NOT_FOUND_BEFORE@ + joined(conventions.search_path, SEARCH_PATH_SEPARATOR@)
            + NOT_FOUND_AFTER@,
        conventions.search_path.len() == 0 ==> ResolutionView::begin(identifier, conventions)
            == (ResolutionView::Failed {
                error: CliErrorView::with_message(NOT_FOUND_BEFORE@ + NOT_FOUND_AFTER@),
            }),
{
    let name = key_name(identifier, conventions);
    lemma_misses_run(name, conventions.search_path, conventions.search_path.len());
    if conventions.search_path.len() == 0 {
        assert(NOT_FOUND_BEFORE@ + joined(conventions.search_path, SEARCH_PATH_SEPARATOR@)
            + NOT_FOUND_AFTER@ == NOT_FOUND_BEFORE@ + NOT_FOUND_AFTER@);
    }
}

/// With two directories to search and the key in neither, the message names
/// the first, a colon and the second between its fixed words, and nothing
/// else.
pub proof fn two_directories_are_named_in_order(first: Seq<char>, second: Seq<char>)
    ensures
        not_found_message(seq![first, second]) == NOT_FOUND_BEFORE@ + first
            + SEARCH_PATH_SEPARATOR@ + second + NOT_FOUND_AFTER@,
{
    joined_pair(first, second, SEARCH_PATH_SEPARATOR@);
}

/// A failure ends the resolution where it occurs. Whether the file at an
/// explicit path or a directory of the search path was awaited, a reported
/// failure leaves an error that keeps the cause as its source and displays
/// what the cause displays, and no later report changes that.
pub proof fn failure_is_final(
    state: ResolutionView,
    cause: CliErrorView,
    later: Seq<KeyEventView>,
)
    ensures
        state is AwaitingPath ==> state.advance(failed(cause, true)).run(later)
            == (ResolutionView::Failed { error: CliErrorView::from_source(cause) }),
        state is AwaitingDirectory ==> state.advance(failed(cause, false)).run(later)
            == (ResolutionView::Failed { error: CliErrorView::from_source(cause) }),
        CliErrorView::from_source(cause).display() == cause.display(),
{
    let error = CliErrorView::from_source(cause);
    ended_resolution_stays(ResolutionView::Failed { error }, later);
}

/// Every state that a resolution comes to is well formed: a directory that
/// is awaited is always one of the search path.
pub proof fn resolution_stays_well_formed(
    identifier: Option<Seq<char>>,
    conventions: KeyConventionsView,
    events: Seq<KeyEventView>,
)
    ensures
        ResolutionView::begin(identifier, conventions).run(events).wf(),
{
    if is_searched(identifier) {
        lemma_search_run(key_name(identifier, conventions), conventions.search_path, 0, events);
    } else {
        lemma_path_run(identifier->0, events);
    }
}

} // verus!
