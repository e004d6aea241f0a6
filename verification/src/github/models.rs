//! What is known of a user on the source-control service: profile,
//! repositories, recent activity, aggregate counts and the API allowance.

use crate::text::same_text;
use crate::time::{Instant, Timestamp};
use vstd::prelude::*;

verus! {

/// A user's profile.
#[derive(Debug)]
pub struct GithubProfile {
    pub login: String,
    pub name: Option<String>,
    pub avatar_url: String,
    pub bio: Option<String>,
    pub public_repos: u32,
    pub public_gists: u32,
    pub followers: u32,
    pub following: u32,
    pub created_at: Option<Timestamp>,
}

/// What a `GithubProfile` stands for.
pub struct ProfileView {
    pub login: Seq<char>,
    pub name: Option<Seq<char>>,
    pub avatar_url: Seq<char>,
    pub bio: Option<Seq<char>>,
    pub public_repos: u32,
    pub public_gists: u32,
    pub followers: u32,
    pub following: u32,
    pub created_at: Option<Instant>,
}

/// The characters of an optional string.
pub open spec fn opt_text(s: Option<String>) -> Option<Seq<char>> {
    match s {
        Some(t) => Some(t@),
        None => None,
    }
}

/// The instant of an optional timestamp.
pub open spec fn opt_instant(t: Option<Timestamp>) -> Option<Instant> {
    match t {
        Some(t) => Some(t@),
        None => None,
    }
}

/// A copy of an optional string.
pub fn clone_opt_text(s: &Option<String>) -> (r: Option<String>)
    ensures
        opt_text(r) == opt_text(*s),
{
    match s {
        Some(t) => Some(t.clone()),
        None => None,
    }
}

impl View for GithubProfile {
    type V = ProfileView;

    open spec fn view(&self) -> ProfileView {
        ProfileView {
            login: self.login@,
            name: opt_text(self.name),
            avatar_url: self.avatar_url@,
            bio: opt_text(self.bio),
            public_repos: self.public_repos,
            public_gists: self.public_gists,
            followers: self.followers,
            following: self.following,
            created_at: opt_instant(self.created_at),
        }
    }
}

impl Clone for GithubProfile {
    fn clone(&self) -> (r: Self)
        ensures
            r@ == self@,
    {
        GithubProfile {
            login: self.login.clone(),
            name: clone_opt_text(&self.name),
            avatar_url: self.avatar_url.clone(),
            bio: clone_opt_text(&self.bio),
            public_repos: self.public_repos,
            public_gists: self.public_gists,
            followers: self.followers,
            following: self.following,
            created_at: self.created_at,
        }
    }
}

impl Default for GithubProfile {
    fn default() -> (r: Self)
        ensures
            r@ == (ProfileView {
                login: Seq::empty(),
                name: None,
                avatar_url: Seq::empty(),
                bio: None,
                public_repos: 0,
                public_gists: 0,
                followers: 0,
                following: 0,
                created_at: None,
            }),
    {
        GithubProfile {
            login: String::new(),
            name: None,
            avatar_url: String::new(),
            bio: None,
            public_repos: 0,
            public_gists: 0,
            followers: 0,
            following: 0,
            created_at: None,
        }
    }
}

/// A repository of the user.
#[derive(Debug)]
pub struct GithubRepo {
    pub name: String,
    pub full_name: String,
    pub description: Option<String>,
    pub html_url: String,
    pub stargazers_count: u32,
    pub forks_count: u32,
    pub watchers_count: u32,
    pub language: Option<String>,
    pub updated_at: Option<Timestamp>,
    pub pushed_at: Option<Timestamp>,
    pub open_issues_count: u32,
    pub fork: bool,
}

/// What a `GithubRepo` stands for.
pub struct RepoView {
    pub name: Seq<char>,
    pub full_name: Seq<char>,
    pub description: Option<Seq<char>>,
    pub html_url: Seq<char>,
    pub stargazers_count: u32,
    pub forks_count: u32,
    pub watchers_count: u32,
    pub language: Option<Seq<char>>,
    pub updated_at: Option<Instant>,
    pub pushed_at: Option<Instant>,
    pub open_issues_count: u32,
    pub fork: bool,
}

impl View for GithubRepo {
    type V = RepoView;

    open spec fn view(&self) -> RepoView {
        RepoView {
            name: self.name@,
            full_name: self.full_name@,
            description: opt_text(self.description),
            html_url: self.html_url@,
            stargazers_count: self.stargazers_count,
            forks_count: self.forks_count,
            watchers_count: self.watchers_count,
            language: opt_text(self.language),
            updated_at: opt_instant(self.updated_at),
            pushed_at: opt_instant(self.pushed_at),
            open_issues_count: self.open_issues_count,
            fork: self.fork,
        }
    }
}

impl DeepView for GithubRepo {
    type V = RepoView;

    open spec fn deep_view(&self) -> RepoView {
        self@
    }
}

impl Clone for GithubRepo {
    fn clone(&self) -> (r: Self)
        ensures
            r@ == self@,
    {
        GithubRepo {
            name: self.name.clone(),
            full_name: self.full_name.clone(),
            description: clone_opt_text(&self.description),
            html_url: self.html_url.clone(),
            stargazers_count: self.stargazers_count,
            forks_count: self.forks_count,
            watchers_count: self.watchers_count,
            language: clone_opt_text(&self.language),
            updated_at: self.updated_at,
            pushed_at: self.pushed_at,
            open_issues_count: self.open_issues_count,
            fork: self.fork,
        }
    }
}

/// The kinds of activity that are told apart; any other kind keeps the
/// name the service gave it.
#[derive(Debug)]
pub enum GithubEventType {
    PushEvent,
    CreateEvent,
    DeleteEvent,
    IssuesEvent,
    IssueCommentEvent,
    PullRequestEvent,
    PullRequestReviewEvent,
    WatchEvent,
    ForkEvent,
    ReleaseEvent,
    PublicEvent,
    MemberEvent,
    GollumEvent,
    CommitCommentEvent,
    Unknown(String),
}

/// What a `GithubEventType` stands for.
pub enum EventKind {
    PushEvent,
    CreateEvent,
    DeleteEvent,
    IssuesEvent,
    IssueCommentEvent,
    PullRequestEvent,
    PullRequestReviewEvent,
    WatchEvent,
    ForkEvent,
    ReleaseEvent,
    PublicEvent,
    MemberEvent,
    GollumEvent,
    CommitCommentEvent,
    Unknown(Seq<char>),
}

impl View for GithubEventType {
    type V = EventKind;

    open spec fn view(&self) -> EventKind {
        match self {
            GithubEventType::PushEvent => EventKind::PushEvent,
            GithubEventType::CreateEvent => EventKind::CreateEvent,
            GithubEventType::DeleteEvent => EventKind::DeleteEvent,
            GithubEventType::IssuesEvent => EventKind::IssuesEvent,
            GithubEventType::IssueCommentEvent => EventKind::IssueCommentEvent,
            GithubEventType::PullRequestEvent => EventKind::PullRequestEvent,
            GithubEventType::PullRequestReviewEvent => EventKind::PullRequestReviewEvent,
            GithubEventType::WatchEvent => EventKind::WatchEvent,
            GithubEventType::ForkEvent => EventKind::ForkEvent,
            GithubEventType::ReleaseEvent => EventKind::ReleaseEvent,
            GithubEventType::PublicEvent => EventKind::PublicEvent,
            GithubEventType::MemberEvent => EventKind::MemberEvent,
            GithubEventType::GollumEvent => EventKind::GollumEvent,
            GithubEventType::CommitCommentEvent => EventKind::CommitCommentEvent,
            GithubEventType::Unknown(name) => EventKind::Unknown(name@),
        }
    }
}

/// The kind that the service's name for it denotes.
pub open spec fn kind_named(name: Seq<char>) -> EventKind {
    if name == "PushEvent"@ {
        EventKind::PushEvent
    } else if name == "CreateEvent"@ {
        EventKind::CreateEvent
    } else if name == "DeleteEvent"@ {
        EventKind::DeleteEvent
    } else if name == "IssuesEvent"@ {
        EventKind::IssuesEvent
    } else if name == "IssueCommentEvent"@ {
        EventKind::IssueCommentEvent
    } else if name == "PullRequestEvent"@ {
        EventKind::PullRequestEvent
    } else if name == "PullRequestReviewEvent"@ {
        EventKind::PullRequestReviewEvent
    } else if name == "WatchEvent"@ {
        EventKind::WatchEvent
    } else if name == "ForkEvent"@ {
        EventKind::ForkEvent
    } else if name == "ReleaseEvent"@ {
        EventKind::ReleaseEvent
    } else if name == "PublicEvent"@ {
        EventKind::PublicEvent
    } else if name == "MemberEvent"@ {
        EventKind::MemberEvent
    } else if name == "GollumEvent"@ {
        EventKind::GollumEvent
    } else if name == "CommitCommentEvent"@ {
        EventKind::CommitCommentEvent
    } else {
        EventKind::Unknown(name)
    }
}

/// The three-character mark shown beside an activity of this kind.
pub open spec fn icon_of(kind: EventKind) -> Seq<char> {
    match kind {
        EventKind::PushEvent => "[^]"@,
        EventKind::CreateEvent => "[+]"@,
        EventKind::DeleteEvent => "[-]"@,
        EventKind::IssuesEvent => "[!]"@,
        EventKind::IssueCommentEvent => "[#]"@,
        EventKind::PullRequestEvent => "[~]"@,
        EventKind::PullRequestReviewEvent => "[.]"@,
        EventKind::WatchEvent => "[*]"@,
        EventKind::ForkEvent => "[Y]"@,
        EventKind::ReleaseEvent => "[>]"@,
        EventKind::PublicEvent => "[@]"@,
        EventKind::MemberEvent => "[&]"@,
        EventKind::GollumEvent => "[W]"@,
        EventKind::CommitCommentEvent => "[C]"@,
        EventKind::Unknown(_) => "[?]"@,
    }
}

/// The verb phrase that words an activity of this kind.
pub open spec fn description_of(kind: EventKind) -> Seq<char> {
    match kind {
        EventKind::PushEvent => "pushed to"@,
        EventKind::CreateEvent => "created"@,
        EventKind::DeleteEvent => "deleted"@,
        EventKind::IssuesEvent => "opened issue in"@,
        EventKind::IssueCommentEvent => "commented on"@,
        EventKind::PullRequestEvent => "opened PR in"@,
        EventKind::PullRequestReviewEvent => "reviewed PR in"@,
        EventKind::WatchEvent => "starred"@,
        EventKind::ForkEvent => "forked"@,
        EventKind::ReleaseEvent => "released"@,
        EventKind::PublicEvent => "made public"@,
        EventKind::MemberEvent => "added member to"@,
        EventKind::GollumEvent => "updated wiki in"@,
        EventKind::CommitCommentEvent => "commented on commit in"@,
        EventKind::Unknown(_) => "did something in"@,
    }
}

impl GithubEventType {
    /// The kind that the service calls `s`.
    pub fn from_str(s: &str) -> (r: Self)
        ensures
            r@ == kind_named(s@),
    {
        if same_text(s, "PushEvent") {
            Self::PushEvent
        } else if same_text(s, "CreateEvent") {
            Self::CreateEvent
        } else if same_text(s, "DeleteEvent") {
            Self::DeleteEvent
        } else if same_text(s, "IssuesEvent") {
            Self::IssuesEvent
        } else if same_text(s, "IssueCommentEvent") {
            Self::IssueCommentEvent
        } else if same_text(s, "PullRequestEvent") {
            Self::PullRequestEvent
        } else if same_text(s, "PullRequestReviewEvent") {
            Self::PullRequestReviewEvent
        } else if same_text(s, "WatchEvent") {
            Self::WatchEvent
        } else if same_text(s, "ForkEvent") {
            Self::ForkEvent
        } else if same_text(s, "ReleaseEvent") {
            Self::ReleaseEvent
        } else if same_text(s, "PublicEvent") {
            Self::PublicEvent
        } else if same_text(s, "MemberEvent") {
            Self::MemberEvent
        } else if same_text(s, "GollumEvent") {
            Self::GollumEvent
        } else if same_text(s, "CommitCommentEvent") {
            Self::CommitCommentEvent
        } else {
            Self::Unknown(String::from_str(s))
        }
    }

    /// The mark shown beside an activity of this kind.
    pub fn icon(&self) -> (r: &'static str)
        ensures
            r@ == icon_of(self@),
    {
        match self {
            Self::PushEvent => "[^]",
            Self::CreateEvent => "[+]",
            Self::DeleteEvent => "[-]",
            Self::IssuesEvent => "[!]",
            Self::IssueCommentEvent => "[#]",
            Self::PullRequestEvent => "[~]",
            Self::PullRequestReviewEvent => "[.]",
            Self::WatchEvent => "[*]",
            Self::ForkEvent => "[Y]",
            Self::ReleaseEvent => "[>]",
            Self::PublicEvent => "[@]",
            Self::MemberEvent => "[&]",
            Self::GollumEvent => "[W]",
            Self::CommitCommentEvent => "[C]",
            Self::Unknown(_) => "[?]",
        }
    }

    /// The verb phrase that words an activity of this kind.
    pub fn description(&self) -> (r: &'static str)
        ensures
            r@ == description_of(self@),
    {
        match self {
            Self::PushEvent => "pushed to",
            Self::CreateEvent => "created",
            Self::DeleteEvent => "deleted",
            Self::IssuesEvent => "opened issue in",
            Self::IssueCommentEvent => "commented on",
            Self::PullRequestEvent => "opened PR in",
            Self::PullRequestReviewEvent => "reviewed PR in",
            Self::WatchEvent => "starred",
            Self::ForkEvent => "forked",
            Self::ReleaseEvent => "released",
            Self::PublicEvent => "made public",
            Self::MemberEvent => "added member to",
            Self::GollumEvent => "updated wiki in",
            Self::CommitCommentEvent => "commented on commit in",
            Self::Unknown(_) => "did something in",
        }
    }
}

impl Clone for GithubEventType {
    fn clone(&self) -> (r: Self)
        ensures
            r@ == self@,
    {
        match self {
            Self::PushEvent => Self::PushEvent,
            Self::CreateEvent => Self::CreateEvent,
            Self::DeleteEvent => Self::DeleteEvent,
            Self::IssuesEvent => Self::IssuesEvent,
            Self::IssueCommentEvent => Self::IssueCommentEvent,
            Self::PullRequestEvent => Self::PullRequestEvent,
            Self::PullRequestReviewEvent => Self::PullRequestReviewEvent,
            Self::WatchEvent => Self::WatchEvent,
            Self::ForkEvent => Self::ForkEvent,
            Self::ReleaseEvent => Self::ReleaseEvent,
            Self::PublicEvent => Self::PublicEvent,
            Self::MemberEvent => Self::MemberEvent,
            Self::GollumEvent => Self::GollumEvent,
            Self::CommitCommentEvent => Self::CommitCommentEvent,
            Self::Unknown(name) => Self::Unknown(name.clone()),
        }
    }
}

/// One item of the user's recent activity.
#[derive(Debug)]
pub struct GithubEvent {
    pub id: String,
    pub event_type: GithubEventType,
    pub repo_name: String,
    pub created_at: Timestamp,
    /// Whether the previous refresh had not yet seen this item.
    pub is_new: bool,
}

/// What a `GithubEvent` stands for.
pub struct EventView {
    pub id: Seq<char>,
    pub event_type: EventKind,
    pub repo_name: Seq<char>,
    pub created_at: Instant,
    pub is_new: bool,
}

impl View for GithubEvent {
    type V = EventView;

    open spec fn view(&self) -> EventView {
        EventView {
            id: self.id@,
            event_type: self.event_type@,
            repo_name: self.repo_name@,
            created_at: self.created_at@,
            is_new: self.is_new,
        }
    }
}

impl DeepView for GithubEvent {
    type V = EventView;

    open spec fn deep_view(&self) -> EventView {
        self@
    }
}

impl Clone for GithubEvent {
    fn clone(&self) -> (r: Self)
        ensures
            r@ == self@,
    {
        GithubEvent {
            id: self.id.clone(),
            event_type: self.event_type.clone(),
            repo_name: self.repo_name.clone(),
            created_at: self.created_at,
            is_new: self.is_new,
        }
    }
}

/// The service's allowance of API calls. It is shown, never acted on.
#[derive(Debug, Clone, Copy)]
pub struct RateLimit {
    pub limit: u32,
    pub remaining: u32,
    pub reset_at: Option<Timestamp>,
}

/// What a `RateLimit` stands for.
pub struct RateLimitView {
    pub limit: u32,
    pub remaining: u32,
    pub reset_at: Option<Instant>,
}

impl View for RateLimit {
    type V = RateLimitView;

    open spec fn view(&self) -> RateLimitView {
        RateLimitView {
            limit: self.limit,
            remaining: self.remaining,
            reset_at: opt_instant(self.reset_at),
        }
    }
}

impl Default for RateLimit {
    fn default() -> (r: Self)
        ensures
            r@ == (RateLimitView { limit: 0, remaining: 0, reset_at: None }),
    {
        RateLimit { limit: 0, remaining: 0, reset_at: None }
    }
}

/// The instant at which an allowance is renewed, given the second since
/// the Unix epoch that the service names for it: that second, or `now`
/// where the second lies outside the time that a `Timestamp` holds.
pub open spec fn reset_instant(reset_secs: i64, now: Instant) -> Instant {
    if crate::time::valid_instant(reset_secs as int, 0) {
        Instant { secs: reset_secs as int, nanos: 0 }
    } else {
        now
    }
}

impl RateLimit {
    /// The allowance as the service reports it at the time `now`.
    pub fn from_reading(limit: u32, remaining: u32, reset_secs: i64, now: Timestamp) -> (r: Self)
        ensures
            r@ == (RateLimitView {
                limit,
                remaining,
                reset_at: Some(reset_instant(reset_secs, now@)),
            }),
    {
        let reset_at = match Timestamp::new(reset_secs, 0) {
            Some(at) => at,
            None => now,
        };
        RateLimit { limit, remaining, reset_at: Some(reset_at) }
    }

    /// Whether fewer than ten calls are left.
    pub fn is_low(&self) -> (r: bool)
        ensures
            r == (self.remaining < 10),
    {
        self.remaining < 10
    }
}

/// Counts taken over all repositories.
#[derive(Debug, Clone, Copy, PartialEq, Eq, Structural)]
pub struct GithubStats {
    pub total_stars: u32,
    pub total_forks: u32,
    pub total_repos: u32,
    pub total_watchers: u32,
}

impl Default for GithubStats {
    fn default() -> (r: Self)
        ensures
            r == (GithubStats { total_stars: 0, total_forks: 0, total_repos: 0, total_watchers: 0 }),
    {
        GithubStats { total_stars: 0, total_forks: 0, total_repos: 0, total_watchers: 0 }
    }
}

/// Where a refresh stands.
#[derive(Debug)]
pub enum FetchStatus {
    Idle,
    Fetching,
    Success,
    Error(String),
}

/// What a `FetchStatus` stands for.
pub enum StatusView {
    Idle,
    Fetching,
    Success,
    Error(Seq<char>),
}

impl View for FetchStatus {
    type V = StatusView;

    open spec fn view(&self) -> StatusView {
        match self {
            FetchStatus::Idle => StatusView::Idle,
            FetchStatus::Fetching => StatusView::Fetching,
            FetchStatus::Success => StatusView::Success,
            FetchStatus::Error(reason) => StatusView::Error(reason@),
        }
    }
}

impl Clone for FetchStatus {
    fn clone(&self) -> (r: Self)
        ensures
            r@ == self@,
    {
        match self {
            FetchStatus::Idle => FetchStatus::Idle,
            FetchStatus::Fetching => FetchStatus::Fetching,
            FetchStatus::Success => FetchStatus::Success,
            FetchStatus::Error(reason) => FetchStatus::Error(reason.clone()),
        }
    }
}

impl Default for FetchStatus {
    fn default() -> (r: Self)
        ensures
            r@ == StatusView::Idle,
    {
        FetchStatus::Idle
    }
}

impl PartialEq for FetchStatus {
    fn eq(&self, other: &Self) -> (r: bool) {
        match (self, other) {
            (FetchStatus::Idle, FetchStatus::Idle) => true,
            (FetchStatus::Fetching, FetchStatus::Fetching) => true,
            (FetchStatus::Success, FetchStatus::Success) => true,
            (FetchStatus::Error(a), FetchStatus::Error(b)) => same_text(a.as_str(), b.as_str()),
            _ => false,
        }
    }
}

impl Eq for FetchStatus {

}

impl vstd::std_specs::cmp::PartialEqSpecImpl for FetchStatus {
    open spec fn obeys_eq_spec() -> bool {
        true
    }

    open spec fn eq_spec(&self, other: &Self) -> bool {
        self@ == other@
    }
}

impl FetchStatus {
    /// Whether a refresh is under way.
    pub fn is_fetching(&self) -> (r: bool)
        ensures
            r == (self@ is Fetching),
    {
        matches!(self, Self::Fetching)
    }

    /// Whether the last refresh failed.
    pub fn is_error(&self) -> (r: bool)
        ensures
            r == (self@ is Error),
    {
        matches!(self, Self::Error(_))
    }
}

/// The sum of what `count` gives for each of `repos`.
pub open spec fn sum_over(repos: Seq<RepoView>, count: spec_fn(RepoView) -> nat) -> nat
    decreases repos.len(),
{
    if repos.len() == 0 {
        0
    } else {
        sum_over(repos.drop_last(), count) + count(repos.last())
    }
}

/// All stars of `repos` together.
pub open spec fn total_stars(repos: Seq<RepoView>) -> nat {
    sum_over(repos, |r: RepoView| r.stargazers_count as nat)
}

/// All forks of `repos` together.
pub open spec fn total_forks(repos: Seq<RepoView>) -> nat {
    sum_over(repos, |r: RepoView| r.forks_count as nat)
}

/// All watchers of `repos` together.
pub open spec fn total_watchers(repos: Seq<RepoView>) -> nat {
    sum_over(repos, |r: RepoView| r.watchers_count as nat)
}

/// Whether the counts over `repos` fit the 32 bits that `GithubStats` gives
/// each of them.
pub open spec fn stats_in_range(repos: Seq<RepoView>) -> bool {
    &&& repos.len() <= u32::MAX
    &&& total_stars(repos) <= u32::MAX
    &&& total_forks(repos) <= u32::MAX
    &&& total_watchers(repos) <= u32::MAX
}

/// The counts over `repos`: its length, and the sums of stars, forks and
/// watchers.
pub open spec fn stats_of(repos: Seq<RepoView>) -> GithubStats {
    GithubStats {
        total_stars: total_stars(repos) as u32,
        total_forks: total_forks(repos) as u32,
        total_repos: repos.len() as u32,
        total_watchers: total_watchers(repos) as u32,
    }
}

/// The sums of stars, forks and watchers over `repos`, in that order.
fn sums(repos: &Vec<GithubRepo>) -> (r: (u128, u128, u128))
    ensures
        r.0 == total_stars(repos.deep_view()),
        r.1 == total_forks(repos.deep_view()),
        r.2 == total_watchers(repos.deep_view()),
{
    let ghost all = repos.deep_view();
    let mut stars: u128 = 0;
    let mut forks: u128 = 0;
    let mut watchers: u128 = 0;
    let mut i: usize = 0;
    while i < repos.len()
        invariant
            i <= repos.len(),
            all == repos.deep_view(),
            stars == total_stars(all.take(i as int)),
            forks == total_forks(all.take(i as int)),
            watchers == total_watchers(all.take(i as int)),
            stars <= i * 0xffff_ffff,
            forks <= i * 0xffff_ffff,
            watchers <= i * 0xffff_ffff,
        decreases repos.len() - i,
    {
        proof {
            let next = all.take(i + 1);
            assert(next.drop_last() =~= all.take(i as int));
            assert(next.last() == repos[i as int]@);
        }
        stars = stars + repos[i].stargazers_count as u128;
        forks = forks + repos[i].forks_count as u128;
        watchers = watchers + repos[i].watchers_count as u128;
        i += 1;
    }
    assert(all.take(i as int) =~= all);
    (stars, forks, watchers)
}

/// All that is known of the user. Only the poller changes it; everyone else
/// reads copies.
#[derive(Debug)]
pub struct GithubState {
    pub profile: Option<GithubProfile>,
    pub repos: Vec<GithubRepo>,
    pub events: Vec<GithubEvent>,
    pub stats: GithubStats,
    pub rate_limit: RateLimit,
    pub last_updated: Option<Timestamp>,
    pub status: FetchStatus,
}

/// What a `GithubState` stands for.
pub struct StateView {
    pub profile: Option<ProfileView>,
    pub repos: Seq<RepoView>,
    pub events: Seq<EventView>,
    pub stats: GithubStats,
    pub rate_limit: RateLimitView,
    pub last_updated: Option<Instant>,
    pub status: StatusView,
}

/// What an optional profile stands for.
pub open spec fn opt_profile(p: Option<GithubProfile>) -> Option<ProfileView> {
    match p {
        Some(p) => Some(p@),
        None => None,
    }
}

impl View for GithubState {
    type V = StateView;

    open spec fn view(&self) -> StateView {
        StateView {
            profile: opt_profile(self.profile),
            repos: self.repos.deep_view(),
            events: self.events.deep_view(),
            stats: self.stats,
            rate_limit: self.rate_limit@,
            last_updated: opt_instant(self.last_updated),
            status: self.status@,
        }
    }
}

impl StateView {
    /// The state before anything was fetched or loaded.
    pub open spec fn empty() -> StateView {
        StateView {
            profile: None,
            repos: Seq::empty(),
            events: Seq::empty(),
            stats: GithubStats { total_stars: 0, total_forks: 0, total_repos: 0, total_watchers: 0 },
            rate_limit: RateLimitView { limit: 0, remaining: 0, reset_at: None },
            last_updated: None,
            status: StatusView::Idle,
        }
    }

    /// Whether the counts are those of the repositories held.
    pub open spec fn stats_current(self) -> bool {
        stats_in_range(self.repos) && self.stats == stats_of(self.repos)
    }
}

/// A copy of a list of repositories.
pub fn clone_repos(repos: &Vec<GithubRepo>) -> (r: Vec<GithubRepo>)
    ensures
        r.deep_view() == repos.deep_view(),
{
    let r = repos.clone();
    assert(r.deep_view() =~= repos.deep_view());
    r
}

/// A copy of a list of events.
pub fn clone_events(events: &Vec<GithubEvent>) -> (r: Vec<GithubEvent>)
    ensures
        r.deep_view() == events.deep_view(),
{
    let r = events.clone();
    assert(r.deep_view() =~= events.deep_view());
    r
}

/// A copy of an optional profile.
pub fn clone_opt_profile(profile: &Option<GithubProfile>) -> (r: Option<GithubProfile>)
    ensures
        opt_profile(r) == opt_profile(*profile),
{
    match profile {
        Some(p) => Some(p.clone()),
        None => None,
    }
}

impl Clone for GithubState {
    fn clone(&self) -> (r: Self)
        ensures
            r@ == self@,
    {
        GithubState {
            profile: clone_opt_profile(&self.profile),
            repos: clone_repos(&self.repos),
            events: clone_events(&self.events),
            stats: self.stats,
            rate_limit: self.rate_limit,
            last_updated: self.last_updated,
            status: self.status.clone(),
        }
    }
}

impl Default for GithubState {
    fn default() -> (r: Self)
        ensures
            r@ == StateView::empty(),
    {
        let r = GithubState {
            profile: None,
            repos: Vec::new(),
            events: Vec::new(),
            stats: GithubStats::default(),
            rate_limit: RateLimit::default(),
            last_updated: None,
            status: FetchStatus::Idle,
        };
        assert(r.repos.deep_view() =~= Seq::empty());
        assert(r.events.deep_view() =~= Seq::empty());
        r
    }
}

impl GithubState {
    /// Whether the counts over the repositories held fit `GithubStats`, so
    /// that `compute_stats` may be called.
    pub fn stats_fit(&self) -> (r: bool)
        ensures
            r == stats_in_range(self@.repos),
    {
        let (stars, forks, watchers) = sums(&self.repos);
        self.repos.len() <= 0xffff_ffff && stars <= 0xffff_ffff && forks <= 0xffff_ffff
            && watchers <= 0xffff_ffff
    }

    /// Takes the counts anew from the repositories held. Nothing else
    /// changes.
    pub fn compute_stats(&mut self)
        requires
            stats_in_range(old(self)@.repos),
        ensures
            final(self)@ == (StateView { stats: stats_of(old(self)@.repos), ..old(self)@ }),
    {
        let (stars, forks, watchers) = sums(&self.repos);
        self.stats = GithubStats {
            total_stars: stars as u32,
            total_forks: forks as u32,
            total_repos: self.repos.len() as u32,
            total_watchers: watchers as u32,
        };
    }
}

} // verus!
