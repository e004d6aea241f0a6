//! One refresh cycle: what is asked of the service, in which order, and
//! how each answer, or its failure, changes the state.
//!
//! The profile and the repositories are hard dependencies: a failure of
//! either ends the cycle in `Error`. The activity feed and the allowance are
//! soft: a failure leaves the earlier value in place and the cycle goes on.

use crate::github::events::{assemble_events, events_from_raw, RawEvent, RawEventView};
use crate::github::models::{
    stats_in_range, stats_of, FetchStatus, GithubProfile, GithubRepo, GithubState, ProfileView,
    RateLimit, RateLimitView, RepoView, StateView, StatusView,
};
use crate::time::{Instant, Timestamp};
use vstd::prelude::*;

verus! {

/// How many repositories are asked for at a time.
pub const PAGE_SIZE: u8 = 100;

/// How many repositories are kept at most.
pub const MAX_REPOS: usize = 200;

/// How many pages of repositories are asked for at most.
pub const MAX_PAGES: u32 = 10;

/// What the cycle waits for next.
#[derive(Debug, Clone, Copy, PartialEq, Eq, Structural)]
pub enum FetchStep {
    /// The user's profile.
    Profile,
    /// The page of repositories with this number, counted from one.
    Repos(u32),
    /// The activity feed.
    Events,
    /// The allowance.
    RateLimit,
    /// Nothing: the cycle is over.
    Done,
}

/// An answer of the service, or the words of the failure to get one.
#[derive(Debug)]
pub enum FetchOutcome {
    Profile(Result<GithubProfile, String>),
    RepoPage(Result<Vec<GithubRepo>, String>),
    Events(Result<Vec<RawEvent>, String>),
    RateLimit(Result<RateLimit, String>),
}

/// What a `FetchOutcome` stands for.
pub enum OutcomeView {
    Profile(Result<ProfileView, Seq<char>>),
    RepoPage(Result<Seq<RepoView>, Seq<char>>),
    Events(Result<Seq<RawEventView>, Seq<char>>),
    RateLimit(Result<RateLimitView, Seq<char>>),
}

/// What the answer to the request for the profile stands for.
pub open spec fn profile_outcome(r: Result<GithubProfile, String>) -> Result<
    ProfileView,
    Seq<char>,
> {
    match r {
        Ok(profile) => Ok(profile@),
        Err(e) => Err(e@),
    }
}

/// What the answer to the request for a page of repositories stands for.
pub open spec fn page_outcome(r: Result<Vec<GithubRepo>, String>) -> Result<
    Seq<RepoView>,
    Seq<char>,
> {
    match r {
        Ok(items) => Ok(items.deep_view()),
        Err(e) => Err(e@),
    }
}

/// What the answer to the request for the activity feed stands for.
pub open spec fn feed_outcome(r: Result<Vec<RawEvent>, String>) -> Result<
    Seq<RawEventView>,
    Seq<char>,
> {
    match r {
        Ok(raws) => Ok(raws.deep_view()),
        Err(e) => Err(e@),
    }
}

/// What the answer to the request for the allowance stands for.
pub open spec fn allowance_outcome(r: Result<RateLimit, String>) -> Result<
    RateLimitView,
    Seq<char>,
> {
    match r {
        Ok(allowance) => Ok(allowance@),
        Err(e) => Err(e@),
    }
}

impl View for FetchOutcome {
    type V = OutcomeView;

    open spec fn view(&self) -> OutcomeView {
        match self {
            FetchOutcome::Profile(r) => OutcomeView::Profile(profile_outcome(*r)),
            FetchOutcome::RepoPage(r) => OutcomeView::RepoPage(page_outcome(*r)),
            FetchOutcome::Events(r) => OutcomeView::Events(feed_outcome(*r)),
            FetchOutcome::RateLimit(r) => OutcomeView::RateLimit(allowance_outcome(*r)),
        }
    }
}

/// What a `FetchCycle` stands for: the state as the cycle has made it so
/// far, the repositories collected from the pages seen, and the step that
/// is due.
pub struct CycleView {
    pub state: StateView,
    pub collected: Seq<RepoView>,
    pub step: FetchStep,
}

/// The repositories held once the items of a page have joined those
/// `collected` before: all of them, or as many as the cap leaves room for.
pub open spec fn absorb(collected: Seq<RepoView>, items: Seq<RepoView>) -> Seq<RepoView> {
    if collected.len() + items.len() <= MAX_REPOS {
        collected + items
    } else {
        collected + items.take(MAX_REPOS - collected.len())
    }
}

/// Whether another page is asked for after page `page`, which held
/// `items` repositories and brought the number held to `held`: not after
/// an empty page, nor once the cap or the last page is reached.
pub open spec fn wants_more(items: nat, held: nat, page: u32) -> bool {
    items > 0 && held < MAX_REPOS && page < MAX_PAGES
}

/// The cycle at its start: the previous state, marked as fetching.
pub open spec fn started(previous: StateView) -> CycleView {
    CycleView {
        state: StateView { status: StatusView::Fetching, ..previous },
        collected: Seq::empty(),
        step: FetchStep::Profile,
    }
}

/// The cycle after a hard failure: over, with the reason as its status and
/// every other field as it stood.
pub open spec fn failed(c: CycleView, reason: Seq<char>) -> CycleView {
    CycleView {
        state: StateView { status: StatusView::Error(reason), ..c.state },
        collected: Seq::empty(),
        step: FetchStep::Done,
    }
}

/// The cycle after the answer to the request for the profile.
pub open spec fn after_profile(c: CycleView, outcome: Result<ProfileView, Seq<char>>) -> CycleView {
    match outcome {
        Ok(profile) => CycleView {
            state: StateView { profile: Some(profile), ..c.state },
            step: FetchStep::Repos(1),
            ..c
        },
        Err(e) => failed(c, "Profile fetch failed: "@ + e),
    }
}

/// The cycle after the answer to the request for page `page` of the
/// repositories.
pub open spec fn after_repo_page(
    c: CycleView,
    page: u32,
    outcome: Result<Seq<RepoView>, Seq<char>>,
) -> CycleView {
    match outcome {
        Ok(items) => {
            let all = absorb(c.collected, items);
            if wants_more(items.len(), all.len(), page) {
                CycleView { collected: all, step: FetchStep::Repos((page + 1) as u32), ..c }
            } else {
                CycleView {
                    state: StateView { repos: all, ..c.state },
                    collected: Seq::empty(),
                    step: FetchStep::Events,
                }
            }
        },
        Err(e) => failed(c, "Repos fetch failed: "@ + e),
    }
}

/// The cycle after the answer to the request for the activity feed. Each
/// event is new or not with respect to the events held before.
pub open spec fn after_events(c: CycleView, outcome: Result<Seq<RawEventView>, Seq<char>>) -> CycleView {
    match outcome {
        Ok(raws) => CycleView {
            state: StateView { events: events_from_raw(raws, c.state.events), ..c.state },
            step: FetchStep::RateLimit,
            ..c
        },
        Err(_) => CycleView { step: FetchStep::RateLimit, ..c },
    }
}

/// The cycle after the answer to the request for the allowance, which
/// ends it: the counts are taken anew, the time is noted and the status is
/// `Success`.
pub open spec fn after_rate_limit(
    c: CycleView,
    outcome: Result<RateLimitView, Seq<char>>,
    now: Instant,
) -> CycleView {
    CycleView {
        state: StateView {
            rate_limit: match outcome {
                Ok(allowance) => allowance,
                Err(_) => c.state.rate_limit,
            },
            stats: stats_of(c.state.repos),
            last_updated: Some(now),
            status: StatusView::Success,
            ..c.state
        },
        step: FetchStep::Done,
        ..c
    }
}

/// The cycle after `outcome` has arrived at time `now`. An outcome that
/// does not answer the step that is due changes nothing.
pub open spec fn step_spec(c: CycleView, outcome: OutcomeView, now: Instant) -> CycleView {
    match (c.step, outcome) {
        (FetchStep::Profile, OutcomeView::Profile(r)) => after_profile(c, r),
        (FetchStep::Repos(page), OutcomeView::RepoPage(r)) => after_repo_page(c, page, r),
        (FetchStep::Events, OutcomeView::Events(r)) => after_events(c, r),
        (FetchStep::RateLimit, OutcomeView::RateLimit(r)) => after_rate_limit(c, r, now),
        _ => c,
    }
}

/// Whether `outcome` is the failure of the hard dependency that is due at
/// `step`.
pub open spec fn hard_failure(step: FetchStep, outcome: OutcomeView) -> bool {
    match (step, outcome) {
        (FetchStep::Profile, OutcomeView::Profile(Err(_))) => true,
        (FetchStep::Repos(_), OutcomeView::RepoPage(Err(_))) => true,
        _ => false,
    }
}

/// A refresh cycle under way. It is made from the previous state, is
/// handed the service's answers one by one, and is over when its step is
/// `Done`.
#[derive(Debug)]
pub struct FetchCycle {
    state: GithubState,
    collected: Vec<GithubRepo>,
    step: FetchStep,
}

impl View for FetchCycle {
    type V = CycleView;

    closed spec fn view(&self) -> CycleView {
        CycleView { state: self.state@, collected: self.collected.deep_view(), step: self.step }
    }
}

/// The reason of a hard failure: what failed, then the words of the
/// failure.
fn failure_reason(what: &str, error: &String) -> (r: String)
    ensures
        r@ == what@ + error@,
{
    let mut reason = String::from_str(what);
    reason.append(error.as_str());
    reason
}

/// Moves the items of a page behind those collected, up to the cap.
fn absorb_page(collected: &mut Vec<GithubRepo>, items: Vec<GithubRepo>)
    requires
        old(collected).len() < MAX_REPOS,
    ensures
        final(collected).deep_view() == absorb(old(collected).deep_view(), items.deep_view()),
{
    let mut items = items;
    let room: usize = MAX_REPOS - collected.len();
    let ghost before = collected.deep_view();
    let ghost page = items.deep_view();
    if items.len() > room {
        items.truncate(room);
        assert(items.deep_view() =~= page.take(room as int));
    }
    let ghost kept = items.deep_view();
    collected.append(&mut items);
    assert(collected.deep_view() =~= before + kept);
}

impl FetchCycle {
    #[verifier::type_invariant]
    pub closed spec fn well_formed(self) -> bool {
        &&& match self.step {
            FetchStep::Repos(page) => 1 <= page <= MAX_PAGES && self.collected.len() < MAX_REPOS,
            _ => self.collected.len() == 0,
        }
        &&& match self.step {
            FetchStep::Done => self.state.status is Success || self.state.status is Error,
            _ => self.state.status is Fetching,
        }
    }

    /// Starts a cycle from the state that the cycle before left.
    pub fn begin(previous: GithubState) -> (c: FetchCycle)
        ensures
            c@ == started(previous@),
    {
        let mut state = previous;
        state.status = FetchStatus::Fetching;
        let collected: Vec<GithubRepo> = Vec::new();
        assert(collected.deep_view() =~= Seq::empty());
        FetchCycle { state, collected, step: FetchStep::Profile }
    }

    /// What to ask the service for next. A page of repositories has a number
    /// from one to `MAX_PAGES`, and is asked for only while fewer than
    /// `MAX_REPOS` repositories are collected. The status is `Fetching`
    /// until the cycle is over.
    pub fn step(&self) -> (r: FetchStep)
        ensures
            r == self@.step,
            r matches FetchStep::Repos(page) ==> 1 <= page <= MAX_PAGES && self@.collected.len()
                < MAX_REPOS,
            r is Done <==> !(self@.state.status is Fetching),
    {
        proof {
            use_type_invariant(self);
        }
        self.step
    }

    /// Whether the cycle is over.
    pub fn is_done(&self) -> (r: bool)
        ensures
            r == (self@.step is Done),
    {
        matches!(self.step, FetchStep::Done)
    }

    /// The state as the cycle has made it so far.
    pub fn state(&self) -> (r: &GithubState)
        ensures
            r@ == self@.state,
    {
        &self.state
    }

    /// Whether `advance` may be called: always, but when the allowance is
    /// due and the counts over the repositories do not fit `GithubStats`.
    pub fn can_advance(&self) -> (r: bool)
        ensures
            r == (self@.step is RateLimit ==> stats_in_range(self@.state.repos)),
    {
        match self.step {
            FetchStep::RateLimit => self.state.stats_fit(),
            _ => true,
        }
    }

    /// Takes in the outcome of the request that was due.
    pub fn advance(self, outcome: FetchOutcome, now: Timestamp) -> (next: FetchCycle)
        requires
            self@.step is RateLimit ==> stats_in_range(self@.state.repos),
        ensures
            next@ == step_spec(self@, outcome@, now@),
            next@.state.status is Error <==> self@.state.status is Error || hard_failure(
                self@.step,
                outcome@,
            ),
    {
        proof {
            use_type_invariant(&self);
        }
        let FetchCycle { state, collected, step } = self;
        let mut state = state;
        let mut collected = collected;
        match (step, outcome) {
            (FetchStep::Profile, FetchOutcome::Profile(Ok(profile))) => {
                state.profile = Some(profile);
                FetchCycle { state, collected, step: FetchStep::Repos(1) }
            },
            (FetchStep::Profile, FetchOutcome::Profile(Err(e))) => {
                state.status = FetchStatus::Error(failure_reason("Profile fetch failed: ", &e));
                assert(collected.deep_view() =~= Seq::empty());
                FetchCycle { state, collected, step: FetchStep::Done }
            },
            (FetchStep::Repos(page), FetchOutcome::RepoPage(Ok(items))) => {
                let count = items.len();
                absorb_page(&mut collected, items);
                if count > 0 && collected.len() < MAX_REPOS && page < MAX_PAGES {
                    FetchCycle { state, collected, step: FetchStep::Repos(page + 1) }
                } else {
                    state.repos = collected;
                    let collected: Vec<GithubRepo> = Vec::new();
                    assert(collected.deep_view() =~= Seq::empty());
                    FetchCycle { state, collected, step: FetchStep::Events }
                }
            },
            (FetchStep::Repos(_), FetchOutcome::RepoPage(Err(e))) => {
                state.status = FetchStatus::Error(failure_reason("Repos fetch failed: ", &e));
                let collected: Vec<GithubRepo> = Vec::new();
                assert(collected.deep_view() =~= Seq::empty());
                FetchCycle { state, collected, step: FetchStep::Done }
            },
            (FetchStep::Events, FetchOutcome::Events(Ok(raws))) => {
                state.events = assemble_events(&raws, &state.events);
                FetchCycle { state, collected, step: FetchStep::RateLimit }
            },
            (FetchStep::Events, FetchOutcome::Events(Err(_))) => {
                FetchCycle { state, collected, step: FetchStep::RateLimit }
            },
            (FetchStep::RateLimit, FetchOutcome::RateLimit(r)) => {
                match r {
                    Ok(allowance) => {
                        state.rate_limit = allowance;
                    },
                    Err(_) => {},
                }
                state.compute_stats();
                state.last_updated = Some(now);
                state.status = FetchStatus::Success;
                FetchCycle { state, collected, step: FetchStep::Done }
            },
            (step, _) => {
                FetchCycle { state, collected, step }
            },
        }
    }

    /// Ends the cycle and hands out the state it has made.
    pub fn into_state(self) -> (r: GithubState)
        ensures
            r@ == self@.state,
    {
        self.state
    }
}

} // verus!
