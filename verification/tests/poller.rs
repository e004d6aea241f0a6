use control_system::config::Config;
use control_system::github::cycle::FetchStep;
use control_system::github::models::{FetchStatus, GithubState};
use control_system::github::poller::{
    GithubCommand, GithubPoller, PollerAction, PollerEvent, PollerPhase,
};

fn poller() -> GithubPoller {
    let config = Config::from_vars(
        Some("a-token".to_string()),
        Some("testuser".to_string()),
        Some("15".to_string()),
        None,
        "cache.json".to_string(),
    )
    .unwrap();
    GithubPoller::new(&config)
}

#[test]
fn a_new_poller_is_idle_and_empty() {
    let poller = poller();
    assert_eq!(poller.phase(), PollerPhase::Idle);
    assert_eq!(poller.refresh_secs(), 15);
    assert_eq!(poller.client().username(), "testuser");
    assert_eq!(poller.cache().path(), "cache.json");
    assert!(poller.current().repos.is_empty());
}

#[test]
fn start_runs_a_first_cycle() {
    let mut poller = poller();
    let mut initial = GithubState::default();
    initial.status = FetchStatus::Success;
    assert_eq!(poller.start(initial), PollerAction::Fetch);
    assert_eq!(poller.phase(), PollerPhase::Fetching);
    assert_eq!(poller.current().status, FetchStatus::Success);
    let cycle = poller.begin_cycle();
    assert_eq!(cycle.step(), FetchStep::Profile);
    assert_eq!(cycle.state().status, FetchStatus::Fetching);
}

#[test]
fn tick_and_refresh_do_the_same() {
    for event in [PollerEvent::Tick, PollerEvent::Command(GithubCommand::Refresh)] {
        let mut poller = poller();
        assert_eq!(poller.on_event(event), PollerAction::Fetch);
        assert_eq!(poller.phase(), PollerPhase::Fetching);
        assert_eq!(poller.on_event(event), PollerAction::Wait);
        assert_eq!(poller.phase(), PollerPhase::Fetching);
    }
}

#[test]
fn every_cycle_is_published_whether_it_failed_or_not() {
    for status in [FetchStatus::Success, FetchStatus::Error("Repos fetch failed: x".to_string())] {
        let mut poller = poller();
        assert_eq!(poller.on_event(PollerEvent::Tick), PollerAction::Fetch);
        let mut made = GithubState::default();
        made.status = status.clone();
        let published = poller.complete_cycle(made);
        assert_eq!(published.unwrap().status, status);
        assert_eq!(poller.phase(), PollerPhase::Idle);
        assert_eq!(poller.current().status, status);
    }
}

#[test]
fn nothing_is_published_without_a_cycle() {
    let mut poller = poller();
    let mut made = GithubState::default();
    made.status = FetchStatus::Success;
    assert!(poller.complete_cycle(made).is_none());
    assert_eq!(poller.phase(), PollerPhase::Idle);
    assert_eq!(poller.current().status, FetchStatus::Idle);
}

#[test]
fn stop_is_final() {
    let mut poller = poller();
    assert_eq!(poller.on_event(PollerEvent::Command(GithubCommand::Stop)), PollerAction::Exit);
    assert_eq!(poller.phase(), PollerPhase::Stopped);
    assert_eq!(poller.on_event(PollerEvent::Tick), PollerAction::Exit);
    assert_eq!(poller.on_event(PollerEvent::Command(GithubCommand::Refresh)), PollerAction::Exit);
    assert_eq!(poller.start(GithubState::default()), PollerAction::Exit);
    assert_eq!(poller.phase(), PollerPhase::Stopped);
    assert!(poller.complete_cycle(GithubState::default()).is_none());
}

#[test]
fn stop_during_a_cycle_ends_the_poller() {
    let mut poller = poller();
    assert_eq!(poller.on_event(PollerEvent::Tick), PollerAction::Fetch);
    assert_eq!(poller.on_event(PollerEvent::Command(GithubCommand::Stop)), PollerAction::Exit);
    let mut made = GithubState::default();
    made.status = FetchStatus::Success;
    assert!(poller.complete_cycle(made).is_none());
    assert_eq!(poller.current().status, FetchStatus::Idle);
}
