//! The schedule of refreshes: when a cycle is run, what is published, and
//! when the poller leaves.
//!
//! The poller owns the only copy of the state that is ever changed. It is
//! idle, fetching or stopped. A tick of its timer and a command to refresh
//! do the same: they start a cycle, one at a time. Whatever a cycle ends in
//! is published and kept. A command to stop ends the poller for good.

use crate::config::Config;
use crate::github::cache::{admitted, starting_state, CacheFile, GithubCache};
use crate::github::client::GithubClient;
use crate::github::cycle::{started, FetchCycle};
use crate::github::models::{GithubState, StateView};
use vstd::prelude::*;

verus! {

/// What the poller can be told.
#[derive(Debug, Clone, Copy, PartialEq, Eq, Structural)]
pub enum GithubCommand {
    /// Refresh now.
    Refresh,
    /// Stop for good.
    Stop,
}

/// What wakes the poller.
#[derive(Debug, Clone, Copy, PartialEq, Eq, Structural)]
pub enum PollerEvent {
    /// The timer has ticked.
    Tick,
    /// A command has arrived.
    Command(GithubCommand),
}

/// What the poller is doing.
#[derive(Debug, Clone, Copy, PartialEq, Eq, Structural)]
pub enum PollerPhase {
    /// Waiting for a tick or a command.
    Idle,
    /// A cycle is under way.
    Fetching,
    /// Stopped for good.
    Stopped,
}

/// What the poller's caller is to do next.
#[derive(Debug, Clone, Copy, PartialEq, Eq, Structural)]
pub enum PollerAction {
    /// Run a cycle from the current state and hand back what it made.
    Fetch,
    /// Wait for the next tick or command.
    Wait,
    /// Leave the loop.
    Exit,
}

/// The phase after an event, and what is to be done.
///
/// When idle, a tick or a command to refresh starts a cycle. While a cycle
/// is under way neither starts another. A command to stop ends the poller
/// in any phase, and once stopped it stays stopped.
pub open spec fn poller_step(phase: PollerPhase, event: PollerEvent) -> (PollerPhase, PollerAction) {
    match (phase, event) {
        (PollerPhase::Stopped, _) => (PollerPhase::Stopped, PollerAction::Exit),
        (_, PollerEvent::Command(GithubCommand::Stop)) => (PollerPhase::Stopped, PollerAction::Exit),
        (PollerPhase::Idle, _) => (PollerPhase::Fetching, PollerAction::Fetch),
        (PollerPhase::Fetching, _) => (PollerPhase::Fetching, PollerAction::Wait),
    }
}

/// A tick of the timer and a command to refresh have the same effect.
pub proof fn lemma_tick_is_refresh(phase: PollerPhase)
    ensures
        poller_step(phase, PollerEvent::Tick) == poller_step(
            phase,
            PollerEvent::Command(GithubCommand::Refresh),
        ),
{
}

/// After a command to stop no event starts a cycle: the poller stays
/// stopped and every answer is to leave.
pub proof fn lemma_stop_is_final(phase: PollerPhase, later: PollerEvent)
    ensures
        poller_step(phase, PollerEvent::Command(GithubCommand::Stop)).0 == PollerPhase::Stopped,
        poller_step(PollerPhase::Stopped, later) == (PollerPhase::Stopped, PollerAction::Exit),
{
}

/// A cycle is started only by an idle poller, which is fetching from then
/// on: no second cycle starts while one is under way.
pub proof fn lemma_one_cycle_at_a_time(phase: PollerPhase, event: PollerEvent)
    ensures
        poller_step(phase, event).1 == PollerAction::Fetch ==> phase == PollerPhase::Idle
            && poller_step(phase, event).0 == PollerPhase::Fetching,
{
}

/// What a `GithubPoller` stands for.
pub struct PollerView {
    pub current: StateView,
    pub phase: PollerPhase,
    pub refresh_secs: u64,
}

/// The poller of one user's data.
#[derive(Debug)]
pub struct GithubPoller {
    client: GithubClient,
    cache: GithubCache,
    refresh_secs: u64,
    current: GithubState,
    phase: PollerPhase,
}

impl View for GithubPoller {
    type V = PollerView;

    closed spec fn view(&self) -> PollerView {
        PollerView { current: self.current@, phase: self.phase, refresh_secs: self.refresh_secs }
    }
}

impl GithubPoller {
    /// The user whose data is polled.
    pub closed spec fn user(&self) -> Seq<char> {
        self.client.user()
    }

    /// Where the record of the state is kept.
    pub closed spec fn cache_location(&self) -> Seq<char> {
        self.cache.location()
    }

    /// An idle poller for the user, the interval and the cache that the
    /// settings name, with the empty state.
    pub fn new(config: &Config) -> (r: Self)
        ensures
            r@ == (PollerView {
                current: StateView::empty(),
                phase: PollerPhase::Idle,
                refresh_secs: config@.refresh_secs,
            }),
            r.user() == config@.github_user,
            r.cache_location() == config@.cache_path,
    {
        GithubPoller {
            client: GithubClient::new(config),
            cache: GithubCache::new(config.cache_path.as_str()),
            refresh_secs: config.refresh_secs,
            current: GithubState::default(),
            phase: PollerPhase::Idle,
        }
    }

    /// The client that the cycles are run with.
    pub fn client(&self) -> (r: &GithubClient)
        ensures
            r.user() == self.user(),
    {
        &self.client
    }

    /// The store of the record of the state.
    pub fn cache(&self) -> (r: &GithubCache)
        ensures
            r.location() == self.cache_location(),
    {
        &self.cache
    }

    /// Seconds between two ticks of the timer.
    pub fn refresh_secs(&self) -> (r: u64)
        ensures
            r == self@.refresh_secs,
    {
        self.refresh_secs
    }

    /// What the poller is doing.
    pub fn phase(&self) -> (r: PollerPhase)
        ensures
            r == self@.phase,
    {
        self.phase
    }

    /// The state as the last cycle left it.
    pub fn current(&self) -> (r: &GithubState)
        ensures
            r@ == self@.current,
    {
        &self.current
    }

    /// The state to start from, given what was found where the record is
    /// kept: the state that the record gives where it is taken back, and
    /// the empty state where there is none, where it cannot be read and
    /// where its version is not the supported one.
    pub fn load_cached_state(&self, found: CacheFile) -> (r: GithubState)
        ensures
            r@ == starting_state(admitted(found@)),
    {
        match self.cache.load(found) {
            Some(data) => data.to_github_state(),
            None => GithubState::default(),
        }
    }

    /// Starts polling from `initial_state` with a first cycle. A poller that
    /// is not idle answers as it would to a tick and keeps its state.
    pub fn start(&mut self, initial_state: GithubState) -> (action: PollerAction)
        ensures
            old(self)@.phase == PollerPhase::Idle ==> action == PollerAction::Fetch && final(self)@
                == (PollerView {
                current: initial_state@,
                phase: PollerPhase::Fetching,
                ..old(self)@
            }),
            old(self)@.phase != PollerPhase::Idle ==> action == poller_step(
                old(self)@.phase,
                PollerEvent::Tick,
            ).1 && final(self)@ == old(self)@,
            final(self).user() == old(self).user(),
            final(self).cache_location() == old(self).cache_location(),
    {
        match self.phase {
            PollerPhase::Idle => {
                self.current = initial_state;
                self.phase = PollerPhase::Fetching;
                PollerAction::Fetch
            },
            PollerPhase::Fetching => PollerAction::Wait,
            PollerPhase::Stopped => PollerAction::Exit,
        }
    }

    /// Takes in a tick or a command and says what is to be done.
    pub fn on_event(&mut self, event: PollerEvent) -> (action: PollerAction)
        ensures
            (final(self)@.phase, action) == poller_step(old(self)@.phase, event),
            final(self)@ == (PollerView { phase: final(self)@.phase, ..old(self)@ }),
            final(self).user() == old(self).user(),
            final(self).cache_location() == old(self).cache_location(),
    {
        match (self.phase, event) {
            (PollerPhase::Stopped, _) => PollerAction::Exit,
            (_, PollerEvent::Command(GithubCommand::Stop)) => {
                self.phase = PollerPhase::Stopped;
                PollerAction::Exit
            },
            (PollerPhase::Idle, _) => {
                self.phase = PollerPhase::Fetching;
                PollerAction::Fetch
            },
            (PollerPhase::Fetching, _) => PollerAction::Wait,
        }
    }

    /// The cycle to run, on a copy of the current state.
    pub fn begin_cycle(&self) -> (c: FetchCycle)
        ensures
            c@ == started(self@.current),
    {
        self.client.begin(&self.current)
    }

    /// Takes in the state that the cycle under way has made, whether the
    /// cycle succeeded or failed, and hands out the copy of it that is to
    /// be published and kept; the poller is idle again. Where no cycle is
    /// under way nothing changes and nothing is handed out.
    pub fn complete_cycle(&mut self, new_state: GithubState) -> (published: Option<GithubState>)
        ensures
            old(self)@.phase == PollerPhase::Fetching ==> final(self)@ == (PollerView {
                current: new_state@,
                phase: PollerPhase::Idle,
                ..old(self)@
            }) && (published matches Some(snapshot) && snapshot@ == new_state@),
            old(self)@.phase != PollerPhase::Fetching ==> final(self)@ == old(self)@ && published is None,
            final(self).user() == old(self).user(),
            final(self).cache_location() == old(self).cache_location(),
    {
        match self.phase {
            PollerPhase::Fetching => {
                let snapshot = new_state.clone();
                self.current = new_state;
                self.phase = PollerPhase::Idle;
                Some(snapshot)
            },
            _ => None,
        }
    }
}

} // verus!
