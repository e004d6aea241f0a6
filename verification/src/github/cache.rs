//! What is kept of the state across runs, and which kept record is taken
//! back.
//!
//! A record carries a version tag. Only a record with the supported tag is
//! taken back; any other is treated like no record at all. The status of a
//! refresh is never kept: a state that is taken back is `Idle`.

use crate::github::models::{
    clone_events, clone_opt_profile, clone_repos, opt_instant, opt_profile, EventView, FetchStatus,
    GithubEvent, GithubProfile, GithubRepo, GithubState, GithubStats, ProfileView, RateLimit,
    RateLimitView, RepoView, StateView, StatusView,
};
use crate::time::{Instant, Timestamp};
use vstd::prelude::*;

verus! {

/// The version tag of the records that are written and taken back.
pub const CACHE_VERSION: u32 = 1;

/// The record that is kept: the state without its status, and a version
/// tag.
#[derive(Debug)]
pub struct CacheData {
    pub profile: Option<GithubProfile>,
    pub repos: Vec<GithubRepo>,
    pub events: Vec<GithubEvent>,
    pub stats: GithubStats,
    pub rate_limit: RateLimit,
    pub last_updated: Option<Timestamp>,
    pub cache_version: u32,
}

/// What a `CacheData` stands for.
pub struct CacheView {
    pub profile: Option<ProfileView>,
    pub repos: Seq<RepoView>,
    pub events: Seq<EventView>,
    pub stats: GithubStats,
    pub rate_limit: RateLimitView,
    pub last_updated: Option<Instant>,
    pub cache_version: u32,
}

impl View for CacheData {
    type V = CacheView;

    open spec fn view(&self) -> CacheView {
        CacheView {
            profile: opt_profile(self.profile),
            repos: self.repos.deep_view(),
            events: self.events.deep_view(),
            stats: self.stats,
            rate_limit: self.rate_limit@,
            last_updated: opt_instant(self.last_updated),
            cache_version: self.cache_version,
        }
    }
}

/// The record that is kept of a state.
pub open spec fn snapshot(state: StateView) -> CacheView {
    CacheView {
        profile: state.profile,
        repos: state.repos,
        events: state.events,
        stats: state.stats,
        rate_limit: state.rate_limit,
        last_updated: state.last_updated,
        cache_version: CACHE_VERSION,
    }
}

/// The state that a record gives back: its fields, and the status `Idle`.
pub open spec fn restored(data: CacheView) -> StateView {
    StateView {
        profile: data.profile,
        repos: data.repos,
        events: data.events,
        stats: data.stats,
        rate_limit: data.rate_limit,
        last_updated: data.last_updated,
        status: StatusView::Idle,
    }
}

impl Clone for CacheData {
    fn clone(&self) -> (r: Self)
        ensures
            r@ == self@,
    {
        CacheData {
            profile: clone_opt_profile(&self.profile),
            repos: clone_repos(&self.repos),
            events: clone_events(&self.events),
            stats: self.stats,
            rate_limit: self.rate_limit,
            last_updated: self.last_updated,
            cache_version: self.cache_version,
        }
    }
}

impl Default for CacheData {
    fn default() -> (r: Self)
        ensures
            r@ == snapshot(StateView::empty()),
    {
        let r = CacheData {
            profile: None,
            repos: Vec::new(),
            events: Vec::new(),
            stats: GithubStats::default(),
            rate_limit: RateLimit::default(),
            last_updated: None,
            cache_version: CACHE_VERSION,
        };
        assert(r.repos.deep_view() =~= Seq::empty());
        assert(r.events.deep_view() =~= Seq::empty());
        r
    }
}

impl<'a> From<&'a GithubState> for CacheData {
    /// The record that is kept of `state`, under the supported version.
    fn from(state: &'a GithubState) -> (r: Self)
        ensures
            r@ == snapshot(state@),
    {
        CacheData {
            profile: clone_opt_profile(&state.profile),
            repos: clone_repos(&state.repos),
            events: clone_events(&state.events),
            stats: state.stats,
            rate_limit: state.rate_limit,
            last_updated: state.last_updated,
            cache_version: CACHE_VERSION,
        }
    }
}

impl<'a> vstd::std_specs::convert::FromSpecImpl<&'a GithubState> for CacheData {
    open spec fn obeys_from_spec() -> bool {
        false
    }

    open spec fn from_spec(state: &'a GithubState) -> Self {
        CacheData {
            profile: state.profile,
            repos: state.repos,
            events: state.events,
            stats: state.stats,
            rate_limit: state.rate_limit,
            last_updated: state.last_updated,
            cache_version: CACHE_VERSION,
        }
    }
}

impl CacheData {
    /// The state that the record gives back. Its status is `Idle`, whatever
    /// the status was when the record was made.
    pub fn to_github_state(&self) -> (r: GithubState)
        ensures
            r@ == restored(self@),
    {
        GithubState {
            profile: clone_opt_profile(&self.profile),
            repos: clone_repos(&self.repos),
            events: clone_events(&self.events),
            stats: self.stats,
            rate_limit: self.rate_limit,
            last_updated: self.last_updated,
            status: FetchStatus::Idle,
        }
    }
}

/// What was found where the record is kept.
#[derive(Debug)]
pub enum CacheFile {
    /// Nothing is kept there.
    Missing,
    /// What is kept there cannot be read as a record.
    Unreadable,
    /// A record.
    Parsed(CacheData),
}

/// What a `CacheFile` stands for.
pub enum CacheFileView {
    Missing,
    Unreadable,
    Parsed(CacheView),
}

impl View for CacheFile {
    type V = CacheFileView;

    open spec fn view(&self) -> CacheFileView {
        match self {
            CacheFile::Missing => CacheFileView::Missing,
            CacheFile::Unreadable => CacheFileView::Unreadable,
            CacheFile::Parsed(data) => CacheFileView::Parsed(data@),
        }
    }
}

/// The record that is taken back: the one found, where one was found and
/// its version tag is the supported one.
pub open spec fn admitted(found: CacheFileView) -> Option<CacheView> {
    match found {
        CacheFileView::Parsed(data) => if data.cache_version == CACHE_VERSION {
            Some(data)
        } else {
            None
        },
        _ => None,
    }
}

/// What an optional record stands for.
pub open spec fn opt_record(data: Option<CacheData>) -> Option<CacheView> {
    match data {
        Some(d) => Some(d@),
        None => None,
    }
}

/// The state a run starts from: the one that the record taken back gives,
/// or the empty state where none was taken back.
pub open spec fn starting_state(loaded: Option<CacheView>) -> StateView {
    match loaded {
        Some(data) => restored(data),
        None => StateView::empty(),
    }
}

/// A state that is kept and taken back is the same state but for its
/// status, which is `Idle` whatever it was.
pub proof fn lemma_round_trip(state: StateView)
    ensures
        admitted(CacheFileView::Parsed(snapshot(state))) == Some(snapshot(state)),
        restored(snapshot(state)) == (StateView { status: StatusView::Idle, ..state }),
        starting_state(admitted(CacheFileView::Parsed(snapshot(state)))) == (StateView {
            status: StatusView::Idle,
            ..state
        }),
{
}

/// A record under any other version tag than the supported one is
/// treated just as a missing record, and so is one that cannot be read.
pub proof fn lemma_version_gate(data: CacheView)
    ensures
        data.cache_version != CACHE_VERSION ==> admitted(CacheFileView::Parsed(data)) == admitted(
            CacheFileView::Missing,
        ),
        admitted(CacheFileView::Unreadable) == admitted(CacheFileView::Missing),
        admitted(CacheFileView::Missing) is None,
        data.cache_version == CACHE_VERSION ==> admitted(CacheFileView::Parsed(data)) == Some(data),
{
}

/// The store of the record: it knows where the record is kept, what is
/// written there and what is taken back from there. Reading and writing
/// the file is left to the caller.
#[derive(Debug)]
pub struct GithubCache {
    path: String,
}

impl GithubCache {
    /// Where the record is kept.
    pub closed spec fn location(&self) -> Seq<char> {
        self.path@
    }

    /// The store of the record kept at `path`.
    pub fn new(path: &str) -> (r: Self)
        ensures
            r.location() == path@,
    {
        GithubCache { path: String::from_str(path) }
    }

    /// Where the record is kept.
    pub fn path(&self) -> (r: &str)
        ensures
            r@ == self.location(),
    {
        self.path.as_str()
    }

    /// The record to take back, given what was found at the path.
    pub fn load(&self, found: CacheFile) -> (r: Option<CacheData>)
        ensures
            opt_record(r) == admitted(found@),
    {
        match found {
            CacheFile::Parsed(data) => {
                if data.cache_version != CACHE_VERSION {
                    None
                } else {
                    Some(data)
                }
            },
            _ => None,
        }
    }

    /// The record to write at the path for `state`.
    pub fn save(&self, state: &GithubState) -> (r: CacheData)
        ensures
            r@ == snapshot(state@),
    {
        CacheData::from(state)
    }
}

} // verus!
