//! The client's side of a refresh: what to ask the service for on behalf of
//! a user, and what a whole cycle makes of the answers.

use crate::config::Config;
use crate::github::cycle::{
    absorb, allowance_outcome, feed_outcome, page_outcome, profile_outcome, wants_more, CycleView,
    FetchCycle, FetchOutcome, FetchStep,
};
use crate::github::events::{events_from_raw, RawEvent, RawEventView};
use crate::github::models::{
    stats_in_range, stats_of, total_forks, total_stars, total_watchers, GithubProfile, GithubRepo,
    GithubState, ProfileView, RateLimit, RateLimitView, RepoView, StateView, StatusView,
};
use crate::time::{Instant, Timestamp};
use vstd::prelude::*;

verus! {

/// The answers of the service to all the requests of one cycle, or the
/// words of the failure of each. The pages of repositories stand in the
/// order in which they are asked for; a page that is asked for beyond the
/// last one given counts as empty. Answers to requests that the cycle
/// never makes are not looked at.
#[derive(Debug)]
pub struct CycleOutcomes {
    pub profile: Result<GithubProfile, String>,
    pub repo_pages: Vec<Result<Vec<GithubRepo>, String>>,
    pub events: Result<Vec<RawEvent>, String>,
    pub rate_limit: Result<RateLimit, String>,
}

/// What `CycleOutcomes` stand for.
pub struct OutcomesView {
    pub profile: Result<ProfileView, Seq<char>>,
    pub repo_pages: Seq<Result<Seq<RepoView>, Seq<char>>>,
    pub events: Result<Seq<RawEventView>, Seq<char>>,
    pub rate_limit: Result<RateLimitView, Seq<char>>,
}

/// What the answers to the requests for pages of repositories stand for.
pub open spec fn pages_view(pages: Seq<Result<Vec<GithubRepo>, String>>) -> Seq<
    Result<Seq<RepoView>, Seq<char>>,
> {
    pages.map_values(|r: Result<Vec<GithubRepo>, String>| page_outcome(r))
}

impl View for CycleOutcomes {
    type V = OutcomesView;

    open spec fn view(&self) -> OutcomesView {
        OutcomesView {
            profile: profile_outcome(self.profile),
            repo_pages: pages_view(self.repo_pages@),
            events: feed_outcome(self.events),
            rate_limit: allowance_outcome(self.rate_limit),
        }
    }
}

/// The repositories that are kept when the service answers the requests
/// for page `page` and those after it with `pages`, and `collected` are
/// held from the pages before: page after page is taken in until one is
/// empty, the cap is reached or the last page was asked for. A page that
/// fails makes the whole listing fail.
pub open spec fn paginate(
    pages: Seq<Result<Seq<RepoView>, Seq<char>>>,
    collected: Seq<RepoView>,
    page: u32,
) -> Result<Seq<RepoView>, Seq<char>>
    decreases pages.len(),
{
    if pages.len() == 0 {
        Ok(collected)
    } else {
        match pages.first() {
            Ok(items) => {
                let all = absorb(collected, items);
                if wants_more(items.len(), all.len(), page) {
                    paginate(pages.drop_first(), all, (page + 1) as u32)
                } else {
                    Ok(all)
                }
            },
            Err(e) => Err(e),
        }
    }
}

/// The listing of the repositories of a cycle, from its first page.
pub open spec fn listing(outcomes: OutcomesView) -> Result<Seq<RepoView>, Seq<char>> {
    paginate(outcomes.repo_pages, Seq::empty(), 1)
}

/// Whether a hard dependency fails in a cycle with these outcomes: the
/// profile, or the listing of the repositories.
pub open spec fn hard_step_fails(outcomes: OutcomesView) -> bool {
    outcomes.profile is Err || listing(outcomes) is Err
}

/// The state that a cycle with these outcomes, ended at `now`, makes of
/// the state before it.
///
/// Without the profile nothing changes but the status. Without the
/// repositories the new profile is kept and nothing else changes but the
/// status. Else the repositories are replaced, the events and the
/// allowance are replaced where they arrived, the counts are those of the
/// new repositories, and the cycle is a success.
pub open spec fn cycle_result(previous: StateView, outcomes: OutcomesView, now: Instant) -> StateView {
    match outcomes.profile {
        Err(e) => StateView { status: StatusView::Error("Profile fetch failed: "@ + e), ..previous },
        Ok(profile) => match listing(outcomes) {
            Err(e) => StateView {
                profile: Some(profile),
                status: StatusView::Error("Repos fetch failed: "@ + e),
                ..previous
            },
            Ok(repos) => StateView {
                profile: Some(profile),
                repos,
                events: match outcomes.events {
                    Ok(raws) => events_from_raw(raws, previous.events),
                    Err(_) => previous.events,
                },
                stats: stats_of(repos),
                rate_limit: match outcomes.rate_limit {
                    Ok(allowance) => allowance,
                    Err(_) => previous.rate_limit,
                },
                last_updated: Some(now),
                status: StatusView::Success,
            },
        },
    }
}

/// Whether the counts of a cycle with these outcomes fit `GithubStats`:
/// the cycle takes them only where both hard dependencies succeed.
pub open spec fn counts_fit(outcomes: OutcomesView) -> bool {
    outcomes.profile is Ok ==> (listing(outcomes) matches Ok(repos) ==> stats_in_range(repos))
}

/// The status of a cycle is `Error` exactly where the profile or the
/// listing of the repositories failed, and `Success` otherwise, whatever
/// became of the events and the allowance.
pub proof fn lemma_status_follows_hard_steps(
    previous: StateView,
    outcomes: OutcomesView,
    now: Instant,
)
    ensures
        cycle_result(previous, outcomes, now).status is Error <==> hard_step_fails(outcomes),
        cycle_result(previous, outcomes, now).status is Success <==> !hard_step_fails(outcomes),
{
}

/// A cycle that replaces the repositories leaves the counts of the new
/// repositories; one that fails leaves repositories and counts as they
/// were. So counts that were those of the repositories held still are
/// after any cycle. Where the counts fit, a cycle that succeeds leaves
/// the number of the repositories held and the sums of their stars,
/// forks and watchers.
pub proof fn lemma_stats_stay_current(previous: StateView, outcomes: OutcomesView, now: Instant)
    ensures
        !hard_step_fails(outcomes) ==> cycle_result(previous, outcomes, now).stats == stats_of(
            cycle_result(previous, outcomes, now).repos,
        ),
        previous.stats == stats_of(previous.repos) ==> cycle_result(previous, outcomes, now).stats
            == stats_of(cycle_result(previous, outcomes, now).repos),
        previous.stats_current() && counts_fit(outcomes) ==> cycle_result(
            previous,
            outcomes,
            now,
        ).stats_current(),
        !hard_step_fails(outcomes) && counts_fit(outcomes) ==> ({
            let after = cycle_result(previous, outcomes, now);
            &&& after.stats.total_repos == after.repos.len()
            &&& after.stats.total_stars == total_stars(after.repos)
            &&& after.stats.total_forks == total_forks(after.repos)
            &&& after.stats.total_watchers == total_watchers(after.repos)
        }),
{
}

/// A second cycle with the same outcomes leaves the same repositories
/// and the same counts as the first.
pub proof fn lemma_stats_do_not_drift(
    previous: StateView,
    outcomes: OutcomesView,
    first: Instant,
    second: Instant,
)
    ensures
        ({
            let once = cycle_result(previous, outcomes, first);
            let twice = cycle_result(once, outcomes, second);
            twice.repos == once.repos && twice.stats == once.stats
        }),
{
}

/// The state after one cycle after the other, each with its outcomes and
/// the time at which it ended, starting from `previous`.
pub open spec fn after_cycles(previous: StateView, runs: Seq<(OutcomesView, Instant)>) -> StateView
    decreases runs.len(),
{
    if runs.len() == 0 {
        previous
    } else {
        cycle_result(after_cycles(previous, runs.drop_last()), runs.last().0, runs.last().1)
    }
}

/// Counts that are those of the repositories held stay so over any number
/// of cycles, whatever their outcomes, as long as the counts fit. The
/// state before anything was fetched is such a state.
pub proof fn lemma_stats_current_after_any_cycles(
    previous: StateView,
    runs: Seq<(OutcomesView, Instant)>,
)
    requires
        previous.stats_current(),
        forall|i: int| 0 <= i < runs.len() ==> counts_fit(#[trigger] runs[i].0),
    ensures
        after_cycles(previous, runs).stats_current(),
        StateView::empty().stats_current(),
    decreases runs.len(),
{
    if runs.len() > 0 {
        lemma_stats_current_after_any_cycles(previous, runs.drop_last());
        lemma_stats_stay_current(
            after_cycles(previous, runs.drop_last()),
            runs.last().0,
            runs.last().1,
        );
    }
    assert(total_stars(Seq::<RepoView>::empty()) == 0);
    assert(total_forks(Seq::<RepoView>::empty()) == 0);
    assert(total_watchers(Seq::<RepoView>::empty()) == 0);
}

/// A failed request for the events or the allowance changes nothing in
/// the outcome of a cycle but that the earlier events or allowance stay.
pub proof fn lemma_soft_failures_keep_earlier(
    previous: StateView,
    outcomes: OutcomesView,
    now: Instant,
)
    requires
        !hard_step_fails(outcomes),
    ensures
        outcomes.events is Err ==> cycle_result(previous, outcomes, now).events == previous.events,
        outcomes.rate_limit is Err ==> cycle_result(previous, outcomes, now).rate_limit
            == previous.rate_limit,
{
}

/// The cycle once the listing of the repositories has ended with
/// `result`.
spec fn settled(c: CycleView, result: Result<Seq<RepoView>, Seq<char>>) -> CycleView {
    match result {
        Ok(repos) => CycleView {
            state: StateView { repos, ..c.state },
            collected: Seq::empty(),
            step: FetchStep::Events,
        },
        Err(e) => crate::github::cycle::failed(c, "Repos fetch failed: "@ + e),
    }
}

/// What a client asks for: the data of one user.
#[derive(Debug)]
pub struct GithubClient {
    username: String,
}

impl GithubClient {
    /// The name of the user.
    pub closed spec fn user(&self) -> Seq<char> {
        self.username@
    }

    /// A client for the user that the settings name.
    pub fn new(config: &Config) -> (r: Self)
        ensures
            r.user() == config@.github_user,
    {
        GithubClient { username: config.github_user.clone() }
    }

    /// The name of the user.
    pub fn username(&self) -> (r: &str)
        ensures
            r@ == self.user(),
    {
        self.username.as_str()
    }

    /// The path under which the service lists the user's recent activity,
    /// fifty items at most.
    pub fn events_path(&self) -> (r: String)
        ensures
            r@ == "/users/"@ + self.user() + "/events?per_page=50"@,
    {
        let mut path = String::from_str("/users/");
        path.append(self.username.as_str());
        path.append("/events?per_page=50");
        path
    }

    /// Starts a cycle on a copy of the current state.
    pub fn begin(&self, current_state: &GithubState) -> (c: FetchCycle)
        ensures
            c@ == crate::github::cycle::started(current_state@),
    {
        FetchCycle::begin(current_state.clone())
    }

    /// Runs a whole cycle on a copy of the current state, with the
    /// service's answers at hand, and returns the state that it makes.
    pub fn fetch_all(
        &self,
        current_state: &GithubState,
        outcomes: CycleOutcomes,
        now: Timestamp,
    ) -> (r: GithubState)
        requires
            counts_fit(outcomes@),
        ensures
            r@ == cycle_result(current_state@, outcomes@, now@),
    {
        let ghost previous = current_state@;
        let ghost given = outcomes@;
        let CycleOutcomes { profile, repo_pages, events, rate_limit } = outcomes;
        let mut pages = repo_pages;
        let mut cycle = self.begin(current_state);
        cycle = cycle.advance(FetchOutcome::Profile(profile), now);
        let ghost base = cycle@;
        let ghost target = listing(given);
        while pages.len() > 0 && matches!(cycle.step(), FetchStep::Repos(_))
            invariant
                given.profile is Ok ==> base.step == FetchStep::Repos(1) && base.collected
                    == Seq::<RepoView>::empty(),
                given.profile is Err ==> base.step is Done,
                match cycle@.step {
                    FetchStep::Repos(page) => cycle@.state == base.state && paginate(
                        pages_view(pages@),
                        cycle@.collected,
                        page,
                    ) == target,
                    _ => given.profile is Ok ==> cycle@ == settled(base, target),
                },
                given.profile is Err ==> cycle@ == base,
            decreases pages.len(),
        {
            let ghost rest = pages_view(pages@);
            let page = pages.remove(0);
            assert(pages_view(pages@) =~= rest.drop_first());
            assert(rest.first() == page_outcome(page));
            cycle = cycle.advance(FetchOutcome::RepoPage(page), now);
        }
        if matches!(cycle.step(), FetchStep::Repos(_)) {
            let none: Vec<GithubRepo> = Vec::new();
            assert(none.deep_view() =~= Seq::empty());
            assert(absorb(cycle@.collected, none.deep_view()) =~= cycle@.collected);
            cycle = cycle.advance(FetchOutcome::RepoPage(Ok(none)), now);
        }
        assert(given.profile is Ok ==> cycle@ == settled(base, target));
        cycle = cycle.advance(FetchOutcome::Events(events), now);
        cycle = cycle.advance(FetchOutcome::RateLimit(rate_limit), now);
        cycle.into_state()
    }
}

} // verus!
