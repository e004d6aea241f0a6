use control_system::github::models::{
    FetchStatus, GithubEventType, GithubProfile, GithubRepo, GithubState, GithubStats, RateLimit,
};

fn repo(name: &str, stars: u32, forks: u32, watchers: u32) -> GithubRepo {
    GithubRepo {
        name: name.to_string(),
        full_name: format!("someone/{}", name),
        description: None,
        html_url: String::new(),
        stargazers_count: stars,
        forks_count: forks,
        watchers_count: watchers,
        language: None,
        updated_at: None,
        pushed_at: None,
        open_issues_count: 0,
        fork: false,
    }
}

#[test]
fn test_event_type_from_str() {
    assert!(matches!(
        GithubEventType::from_str("PushEvent"),
        GithubEventType::PushEvent
    ));
    assert!(matches!(
        GithubEventType::from_str("UnknownType"),
        GithubEventType::Unknown(_)
    ));
}

#[test]
fn every_known_event_type_is_told_apart() {
    let names = [
        ("PushEvent", "[^]", "pushed to"),
        ("CreateEvent", "[+]", "created"),
        ("DeleteEvent", "[-]", "deleted"),
        ("IssuesEvent", "[!]", "opened issue in"),
        ("IssueCommentEvent", "[#]", "commented on"),
        ("PullRequestEvent", "[~]", "opened PR in"),
        ("PullRequestReviewEvent", "[.]", "reviewed PR in"),
        ("WatchEvent", "[*]", "starred"),
        ("ForkEvent", "[Y]", "forked"),
        ("ReleaseEvent", "[>]", "released"),
        ("PublicEvent", "[@]", "made public"),
        ("MemberEvent", "[&]", "added member to"),
        ("GollumEvent", "[W]", "updated wiki in"),
        ("CommitCommentEvent", "[C]", "commented on commit in"),
    ];
    for (name, icon, description) in names {
        let kind = GithubEventType::from_str(name);
        assert!(!matches!(kind, GithubEventType::Unknown(_)), "{}", name);
        assert_eq!(kind.icon(), icon);
        assert_eq!(kind.description(), description);
    }
}

#[test]
fn unknown_event_type_keeps_its_name() {
    match GithubEventType::from_str("SponsorshipEvent") {
        GithubEventType::Unknown(name) => assert_eq!(name, "SponsorshipEvent"),
        other => panic!("unexpected {:?}", other),
    }
    let kind = GithubEventType::from_str("pushevent");
    assert_eq!(kind.icon(), "[?]");
    assert_eq!(kind.description(), "did something in");
}

#[test]
fn fetch_status_predicates() {
    assert!(FetchStatus::Fetching.is_fetching());
    assert!(!FetchStatus::Idle.is_fetching());
    assert!(FetchStatus::Error("boom".to_string()).is_error());
    assert!(!FetchStatus::Success.is_error());
    assert_eq!(FetchStatus::default(), FetchStatus::Idle);
    assert_eq!(
        FetchStatus::Error("a".to_string()),
        FetchStatus::Error("a".to_string())
    );
    assert_ne!(
        FetchStatus::Error("a".to_string()),
        FetchStatus::Error("b".to_string())
    );
    assert_ne!(FetchStatus::Success, FetchStatus::Idle);
}

#[test]
fn rate_limit_is_low_below_ten() {
    let low = RateLimit { limit: 60, remaining: 9, reset_at: None };
    let enough = RateLimit { limit: 60, remaining: 10, reset_at: None };
    assert!(low.is_low());
    assert!(!enough.is_low());
    assert!(RateLimit::default().is_low());
}

#[test]
fn compute_stats_sums_and_counts() {
    let mut state = GithubState::default();
    state.repos = vec![repo("a", 42, 10, 42), repo("b", 8, 1, 3), repo("c", 0, 0, 0)];
    assert!(state.stats_fit());
    state.compute_stats();
    assert_eq!(
        state.stats,
        GithubStats { total_stars: 50, total_forks: 11, total_repos: 3, total_watchers: 45 }
    );
    state.compute_stats();
    assert_eq!(
        state.stats,
        GithubStats { total_stars: 50, total_forks: 11, total_repos: 3, total_watchers: 45 }
    );
}

#[test]
fn compute_stats_of_nothing_is_zero() {
    let mut state = GithubState::default();
    state.stats = GithubStats { total_stars: 7, total_forks: 7, total_repos: 7, total_watchers: 7 };
    state.compute_stats();
    assert_eq!(state.stats, GithubStats::default());
}

#[test]
fn stats_that_do_not_fit_are_told() {
    let mut state = GithubState::default();
    state.repos = vec![repo("a", u32::MAX, 0, 0), repo("b", 1, 0, 0)];
    assert!(!state.stats_fit());
    state.repos = vec![repo("a", u32::MAX, 0, 0), repo("b", 0, 0, 0)];
    assert!(state.stats_fit());
}

#[test]
fn default_state_is_empty_and_idle() {
    let state = GithubState::default();
    assert!(state.profile.is_none());
    assert!(state.repos.is_empty());
    assert!(state.events.is_empty());
    assert_eq!(state.stats, GithubStats::default());
    assert!(state.last_updated.is_none());
    assert_eq!(state.status, FetchStatus::Idle);
}

#[test]
fn clone_keeps_every_field() {
    let mut state = GithubState::default();
    state.profile = Some(GithubProfile {
        login: "testuser".to_string(),
        name: Some("Test User".to_string()),
        ..Default::default()
    });
    state.repos = vec![repo("a", 1, 2, 3)];
    state.status = FetchStatus::Error("why".to_string());
    let copy = state.clone();
    assert_eq!(copy.profile.as_ref().unwrap().login, "testuser");
    assert_eq!(copy.profile.as_ref().unwrap().name.as_deref(), Some("Test User"));
    assert_eq!(copy.repos.len(), 1);
    assert_eq!(copy.repos[0].full_name, "someone/a");
    assert_eq!(copy.repos[0].watchers_count, 3);
    assert_eq!(copy.status, FetchStatus::Error("why".to_string()));
}

#[test]
fn the_allowance_resets_at_the_named_second_or_now() {
    let now = control_system::time::Timestamp::new(1_700_000_000, 5).unwrap();
    let read = RateLimit::from_reading(5000, 4990, 1_700_003_600, now);
    assert_eq!(read.limit, 5000);
    assert_eq!(read.remaining, 4990);
    assert_eq!(read.reset_at, control_system::time::Timestamp::new(1_700_003_600, 0));
    let read = RateLimit::from_reading(60, 0, i64::MAX, now);
    assert_eq!(read.reset_at, Some(now));
    let read = RateLimit::from_reading(60, 0, i64::MIN, now);
    assert_eq!(read.reset_at, Some(now));
}
