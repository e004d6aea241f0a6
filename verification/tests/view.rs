use control_system::dashboard::logs::LogMessage;
use control_system::dashboard::state::{FxState, Page};
use control_system::dashboard::view::{
    allowance_alert_tone, allowance_tone, display_name, language_tone, level_tone,
    lowered_language_tone, motion_label, motion_tone, page_indicator, rank_tone, short_repo_name,
    spinner_frame, status_tone, visible_lines, Tone,
};
use control_system::github::models::{FetchStatus, GithubProfile, RateLimit};

fn allowance(limit: u32, remaining: u32) -> RateLimit {
    RateLimit { limit, remaining, reset_at: None }
}

fn lines(count: usize) -> Vec<LogMessage> {
    (0..count)
        .map(|i| LogMessage { level: "INFO".to_string(), message: format!("line {}", i) })
        .collect()
}

fn messages(lines: &[LogMessage]) -> Vec<String> {
    lines.iter().map(|line| line.message.clone()).collect()
}

#[test]
fn the_status_has_its_tone() {
    assert_eq!(status_tone(&FetchStatus::Idle), Tone::DarkGray);
    assert_eq!(status_tone(&FetchStatus::Fetching), Tone::Yellow);
    assert_eq!(status_tone(&FetchStatus::Success), Tone::Green);
    assert_eq!(status_tone(&FetchStatus::Error("no route".to_string())), Tone::Red);
}

#[test]
fn the_allowance_turns_yellow_below_half_and_red_below_ten() {
    assert_eq!(allowance_tone(&allowance(5000, 5000)), Tone::Green);
    assert_eq!(allowance_tone(&allowance(5000, 2500)), Tone::Green);
    assert_eq!(allowance_tone(&allowance(5000, 2499)), Tone::Yellow);
    assert_eq!(allowance_tone(&allowance(5000, 10)), Tone::Yellow);
    assert_eq!(allowance_tone(&allowance(5000, 9)), Tone::Red);
    assert_eq!(allowance_tone(&allowance(0, 0)), Tone::Red);
    assert_eq!(allowance_tone(&allowance(15, 10)), Tone::Green);
    assert_eq!(allowance_alert_tone(&allowance(5000, 10)), Tone::DarkGray);
    assert_eq!(allowance_alert_tone(&allowance(5000, 9)), Tone::Red);
}

#[test]
fn the_spinner_turns_every_third_frame() {
    let marks: String = (0..14).map(spinner_frame).collect();
    assert_eq!(marks, "|||///---\\\\\\||");
    assert_eq!(spinner_frame(u64::MAX), '/');
}

#[test]
fn log_levels_have_their_tones() {
    assert_eq!(level_tone("ERROR"), Tone::Red);
    assert_eq!(level_tone("WARN"), Tone::Yellow);
    assert_eq!(level_tone("INFO"), Tone::Cyan);
    assert_eq!(level_tone("DEBUG"), Tone::Gray);
    assert_eq!(level_tone("TRACE"), Tone::White);
    assert_eq!(level_tone("info"), Tone::White);
}

#[test]
fn the_last_lines_are_shown_as_far_as_there_is_room() {
    let log = lines(5);
    assert_eq!(messages(&visible_lines(&log, 5)), ["line 2", "line 3", "line 4"]);
    assert_eq!(messages(&visible_lines(&log, 7)).len(), 5);
    assert_eq!(messages(&visible_lines(&log, 100)).len(), 5);
    assert_eq!(messages(&visible_lines(&log, 3)), ["line 4"]);
    assert!(visible_lines(&log, 2).is_empty());
    assert!(visible_lines(&log, 0).is_empty());
    assert!(visible_lines(&lines(0), 10).is_empty());
}

#[test]
fn a_repository_is_named_without_its_owner() {
    assert_eq!(short_repo_name("octocat/hello-world"), "hello-world");
    assert_eq!(short_repo_name("hello-world"), "hello-world");
    assert_eq!(short_repo_name("a/b/c"), "c");
    assert_eq!(short_repo_name("octocat/"), "");
    assert_eq!(short_repo_name("/"), "");
    assert_eq!(short_repo_name(""), "");
    assert_eq!(short_repo_name("müller/straße"), "straße");
}

#[test]
fn the_first_three_places_have_tones_of_their_own() {
    assert_eq!(rank_tone(0), Tone::Yellow);
    assert_eq!(rank_tone(1), Tone::LightBlue);
    assert_eq!(rank_tone(2), Tone::LightMagenta);
    assert_eq!(rank_tone(3), Tone::DarkGray);
    assert_eq!(rank_tone(usize::MAX), Tone::DarkGray);
}

#[test]
fn languages_have_their_colours_however_they_are_cased() {
    assert_eq!(language_tone("Rust"), Tone::Rgb(222, 165, 132));
    assert_eq!(language_tone("rust"), Tone::Rgb(222, 165, 132));
    assert_eq!(language_tone("PYTHON"), Tone::Rgb(53, 114, 165));
    assert_eq!(language_tone("JavaScript"), Tone::Rgb(241, 224, 90));
    assert_eq!(language_tone("TypeScript"), Tone::Rgb(49, 120, 198));
    assert_eq!(language_tone("Go"), Tone::Rgb(0, 173, 216));
    assert_eq!(language_tone("Java"), Tone::Rgb(176, 114, 25));
    assert_eq!(language_tone("C++"), Tone::Rgb(243, 75, 125));
    assert_eq!(language_tone("cpp"), Tone::Rgb(243, 75, 125));
    assert_eq!(language_tone("C"), Tone::Rgb(85, 85, 85));
    assert_eq!(language_tone("C#"), Tone::Rgb(104, 33, 122));
    assert_eq!(language_tone("CSharp"), Tone::Rgb(104, 33, 122));
    assert_eq!(language_tone("Ruby"), Tone::Rgb(112, 21, 22));
    assert_eq!(language_tone("PHP"), Tone::Rgb(79, 93, 149));
    assert_eq!(language_tone("Swift"), Tone::Rgb(255, 172, 69));
    assert_eq!(language_tone("Kotlin"), Tone::Rgb(169, 123, 255));
    assert_eq!(language_tone("Shell"), Tone::Rgb(137, 224, 81));
    assert_eq!(language_tone("Bash"), Tone::Rgb(137, 224, 81));
    assert_eq!(language_tone("HTML"), Tone::Rgb(227, 76, 38));
    assert_eq!(language_tone("CSS"), Tone::Rgb(86, 61, 124));
    assert_eq!(language_tone("Vue"), Tone::Rgb(65, 184, 131));
    assert_eq!(language_tone("React"), Tone::Rgb(97, 218, 251));
    assert_eq!(language_tone("Haskell"), Tone::Gray);
    assert_eq!(language_tone("???"), Tone::Gray);
    assert_eq!(language_tone(""), Tone::Gray);
    // Only the form in lower case is looked up.
    assert_eq!(lowered_language_tone("Rust"), Tone::Gray);
    assert_eq!(lowered_language_tone("rust"), Tone::Rgb(222, 165, 132));
}

#[test]
fn the_animations_are_enabled_reduced_or_paused() {
    let mut fx = FxState::default();
    assert_eq!(motion_label(&fx), "ENABLED");
    assert_eq!(motion_tone(&fx), Tone::Green);
    fx.set_reduced_motion(true);
    assert_eq!(motion_label(&fx), "REDUCED");
    assert_eq!(motion_tone(&fx), Tone::Yellow);
    fx.toggle_pause();
    assert_eq!(motion_label(&fx), "PAUSED");
    assert_eq!(motion_tone(&fx), Tone::Yellow);
    fx.set_reduced_motion(false);
    assert_eq!(motion_label(&fx), "PAUSED");
    assert_eq!(motion_tone(&fx), Tone::Yellow);
}

#[test]
fn a_user_is_shown_by_name_or_else_by_login() {
    let mut profile = GithubProfile::default();
    profile.login = "octocat".to_string();
    assert_eq!(display_name(&profile), "octocat");
    profile.name = Some("The Octocat".to_string());
    assert_eq!(display_name(&profile), "The Octocat");
}

#[test]
fn the_page_indicator_counts_from_one() {
    assert_eq!(page_indicator(Page::Dashboard), " [1/4] Dashboard ");
    assert_eq!(page_indicator(Page::Repositories), " [2/4] Repositories ");
    assert_eq!(page_indicator(Page::Activity), " [3/4] Activity Feed ");
    assert_eq!(page_indicator(Page::Settings), " [4/4] Settings & Help ");
}
