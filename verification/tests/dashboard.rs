use control_system::dashboard::actions::{
    keybind_help, Action, KeyCode, KeyEvent, KeyEventKind, KeyModifiers,
};
use control_system::dashboard::events::{
    AppEvent, MouseButton, MouseEvent, MouseEventKind, TerminalEvent,
};
use control_system::dashboard::frame::{
    action_for, apply_action, clicked_tab, drain_actions, enqueue_inputs, frame_sleep_nanos,
    merge_snapshots, run_frame, ActionQueue, ACTION_QUEUE_CAPACITY, FRAME_NANOS,
};
use control_system::dashboard::logs::LogBuffer;
use control_system::dashboard::state::{AppState, FocusArea, FxState, Page, UiState};
use control_system::github::models::{FetchStatus, GithubProfile, GithubState};
use control_system::github::poller::GithubCommand;
use control_system::system::SystemState;
use control_system::time::Timestamp;

const PLAIN: KeyModifiers = KeyModifiers { shift: false, control: false };

fn key(code: KeyCode) -> KeyEvent {
    KeyEvent { code, modifiers: PLAIN, kind: KeyEventKind::Press }
}

fn press(c: char) -> TerminalEvent {
    TerminalEvent::Key(key(KeyCode::Char(c)))
}

fn click(column: u16, row: u16) -> TerminalEvent {
    TerminalEvent::Mouse(MouseEvent { kind: MouseEventKind::Down(MouseButton::Left), column, row })
}

#[test]
fn keys_ask_for_their_actions() {
    let with = |code, shift, control| {
        Action::from_key_event(KeyEvent {
            code,
            modifiers: KeyModifiers { shift, control },
            kind: KeyEventKind::Press,
        })
    };
    assert_eq!(with(KeyCode::Char('q'), false, false), Action::Quit);
    assert_eq!(with(KeyCode::Char('q'), false, true), Action::Quit);
    assert_eq!(with(KeyCode::Char('c'), false, true), Action::Quit);
    assert_eq!(with(KeyCode::Char('c'), false, false), Action::Nothing);
    assert_eq!(with(KeyCode::Char('r'), false, false), Action::RefreshGithub);
    assert_eq!(with(KeyCode::Tab, false, false), Action::CycleFocus);
    assert_eq!(with(KeyCode::Tab, true, false), Action::PrevPage);
    assert_eq!(with(KeyCode::BackTab, true, false), Action::Nothing);
    assert_eq!(with(KeyCode::Char('1'), false, false), Action::GoToPage(0));
    assert_eq!(with(KeyCode::Char('2'), false, false), Action::GoToPage(1));
    assert_eq!(with(KeyCode::Char('3'), false, false), Action::GoToPage(2));
    assert_eq!(with(KeyCode::Char('4'), false, false), Action::GoToPage(3));
    assert_eq!(with(KeyCode::Char('5'), false, false), Action::Nothing);
    assert_eq!(with(KeyCode::Char('?'), false, false), Action::ToggleHelp);
    assert_eq!(with(KeyCode::Char('h'), false, false), Action::ToggleHelp);
    assert_eq!(with(KeyCode::Char('p'), false, false), Action::TogglePause);
    assert_eq!(with(KeyCode::Up, false, false), Action::ScrollUp);
    assert_eq!(with(KeyCode::Char('k'), false, false), Action::ScrollUp);
    assert_eq!(with(KeyCode::PageUp, false, false), Action::ScrollUp);
    assert_eq!(with(KeyCode::Down, false, false), Action::ScrollDown);
    assert_eq!(with(KeyCode::Char('j'), false, false), Action::ScrollDown);
    assert_eq!(with(KeyCode::PageDown, false, false), Action::ScrollDown);
    assert_eq!(with(KeyCode::Left, false, false), Action::PrevPage);
    assert_eq!(with(KeyCode::Right, false, false), Action::NextPage);
    assert_eq!(with(KeyCode::Enter, false, false), Action::SelectNext);
    assert_eq!(with(KeyCode::Esc, false, false), Action::Nothing);
    assert_eq!(with(KeyCode::F(1), false, false), Action::Nothing);
    assert_eq!(with(KeyCode::Other, false, false), Action::Nothing);
}

#[test]
fn the_help_lists_nine_bindings() {
    let help = keybind_help();
    assert_eq!(
        help,
        vec![
            ("q", "Quit"),
            ("r", "Refresh GitHub"),
            ("1-4", "Switch pages"),
            ("Tab", "Cycle focus"),
            ("?/h", "Toggle help"),
            ("p", "Pause animations"),
            ("Up/k", "Scroll up"),
            ("Dn/j", "Scroll down"),
            ("L/R", "Prev/Next page"),
        ]
    );
}

#[test]
fn terminal_events_become_app_events() {
    let k = key(KeyCode::Char('x'));
    assert_eq!(AppEvent::from(TerminalEvent::Key(k)), AppEvent::Key(k));
    let m = MouseEvent { kind: MouseEventKind::Moved, column: 3, row: 4 };
    assert_eq!(AppEvent::from(TerminalEvent::Mouse(m)), AppEvent::Mouse(m));
    assert_eq!(AppEvent::from(TerminalEvent::Resize(80, 24)), AppEvent::Resize(80, 24));
    assert_eq!(AppEvent::from(TerminalEvent::Other), AppEvent::Tick);
}

#[test]
fn pages_go_round() {
    assert_eq!(Page::default(), Page::Dashboard);
    assert_eq!(Page::Dashboard.next(), Page::Repositories);
    assert_eq!(Page::Repositories.next(), Page::Activity);
    assert_eq!(Page::Activity.next(), Page::Settings);
    assert_eq!(Page::Settings.next(), Page::Dashboard);
    assert_eq!(Page::Dashboard.prev(), Page::Settings);
    assert_eq!(Page::Settings.prev(), Page::Activity);
    for page in [Page::Dashboard, Page::Repositories, Page::Activity, Page::Settings] {
        assert_eq!(Page::from_index(page.index()), page);
        assert_eq!(page.next().prev(), page);
        assert_eq!(page.prev().next(), page);
    }
    assert_eq!(Page::from_index(4), Page::Dashboard);
    assert_eq!(Page::from_index(usize::MAX), Page::Dashboard);
    assert_eq!(Page::Dashboard.title(), "Dashboard");
    assert_eq!(Page::Repositories.title(), "Repositories");
    assert_eq!(Page::Activity.title(), "Activity Feed");
    assert_eq!(Page::Settings.title(), "Settings & Help");
    assert_eq!(Page::Settings.index(), 3);
}

#[test]
fn focus_goes_round() {
    assert_eq!(FocusArea::default(), FocusArea::Main);
    assert_eq!(FocusArea::Main.next(), FocusArea::Sidebar);
    assert_eq!(FocusArea::Sidebar.next(), FocusArea::List);
    assert_eq!(FocusArea::List.next(), FocusArea::Main);
}

#[test]
fn the_clock_counts_frames_and_ends_transitions() {
    let mut fx = FxState::default();
    assert!(fx.should_animate());
    assert_eq!(fx.frame_count(), 0);
    fx.tick();
    fx.tick();
    assert_eq!(fx.frame_count(), 2);
    fx.start_transition();
    assert!(fx.transition_active());
    assert_eq!(fx.last_transition_frame(), 2);
    for _ in 0..20 {
        fx.tick();
        assert!(fx.transition_active());
    }
    assert_eq!(fx.frame_count(), 22);
    fx.tick();
    assert!(!fx.transition_active());
    assert!(fx.can_tick());
    fx.toggle_pause();
    assert!(fx.animations_paused());
    assert!(!fx.should_animate());
    fx.toggle_pause();
    fx.set_reduced_motion(true);
    assert!(fx.reduced_motion());
    assert!(!fx.should_animate());
}

#[test]
fn a_new_app_state_runs_and_shows_the_dashboard() {
    let state = AppState::new(true, LogBuffer::new());
    assert!(state.running);
    assert!(state.fx.reduced_motion());
    assert_eq!(state.ui, UiState::default());
    assert_eq!(state.ui.current_page, Page::Dashboard);
    assert!(!state.has_github_data());
    let state = AppState::default();
    assert!(!state.fx.reduced_motion());
    assert_eq!(state.log_buffer.len(), 0);
}

#[test]
fn has_github_data_with_a_profile_or_a_repo() {
    let mut state = AppState::default();
    state.github.profile = Some(GithubProfile::default());
    assert!(state.has_github_data());
}

#[test]
fn the_status_line_follows_the_status() {
    let now = Timestamp::new(1_700_000_300, 0).unwrap();
    let mut state = AppState::default();
    assert_eq!(state.status_message_at(now), "No data loaded");
    assert_eq!(state.status_message(), "No data loaded");
    state.github.last_updated = Timestamp::new(1_700_000_000, 0);
    assert_eq!(state.status_message_at(now), "Last updated: 5 mins ago");
    state.github.status = FetchStatus::Fetching;
    assert_eq!(state.status_message_at(now), "Fetching GitHub data...");
    state.github.status = FetchStatus::Success;
    assert_eq!(state.status_message_at(now), "Updated: 5 mins ago");
    state.github.last_updated = None;
    assert_eq!(state.status_message_at(now), "Data loaded");
    state.github.status = FetchStatus::Error("Profile fetch failed: nope".to_string());
    assert_eq!(state.status_message_at(now), "Error: Profile fetch failed: nope");
    assert_eq!(state.status_message(), "Error: Profile fetch failed: nope");
}

#[test]
fn tabs_stand_at_their_columns() {
    assert_eq!(clicked_tab(0), None);
    assert_eq!(clicked_tab(1), Some(0));
    assert_eq!(clicked_tab(14), Some(0));
    assert_eq!(clicked_tab(15), Some(1));
    assert_eq!(clicked_tab(24), Some(1));
    assert_eq!(clicked_tab(25), Some(2));
    assert_eq!(clicked_tab(37), Some(2));
    assert_eq!(clicked_tab(38), Some(3));
    assert_eq!(clicked_tab(u16::MAX), Some(3));
}

#[test]
fn only_presses_and_header_clicks_ask_for_actions() {
    assert_eq!(action_for(&press('q')), Some(Action::Quit));
    assert_eq!(action_for(&press('x')), Some(Action::Nothing));
    let mut released = key(KeyCode::Char('q'));
    released.kind = KeyEventKind::Release;
    assert_eq!(action_for(&TerminalEvent::Key(released)), None);
    let mut repeated = key(KeyCode::Char('q'));
    repeated.kind = KeyEventKind::Repeat;
    assert_eq!(action_for(&TerminalEvent::Key(repeated)), None);
    assert_eq!(action_for(&click(20, 1)), Some(Action::GoToPage(1)));
    assert_eq!(action_for(&click(0, 1)), None);
    assert_eq!(action_for(&click(20, 2)), None);
    let right = TerminalEvent::Mouse(MouseEvent {
        kind: MouseEventKind::Down(MouseButton::Right),
        column: 20,
        row: 1,
    });
    assert_eq!(action_for(&right), None);
    let moved = TerminalEvent::Mouse(MouseEvent { kind: MouseEventKind::Moved, column: 20, row: 1 });
    assert_eq!(action_for(&moved), None);
    assert_eq!(action_for(&TerminalEvent::Resize(80, 24)), None);
    assert_eq!(action_for(&TerminalEvent::Other), None);
}

#[test]
fn forty_events_fill_the_thirty_two_slots_in_order() {
    assert_eq!(ACTION_QUEUE_CAPACITY, 32);
    let mut events = Vec::new();
    for i in 0..40usize {
        events.push(click(if i % 2 == 0 { 5 } else { 30 }, 1));
    }
    let mut queue = ActionQueue::new();
    enqueue_inputs(&mut queue, &events);
    assert_eq!(queue.len(), 32);
    for i in 0..32usize {
        let expected = if i % 2 == 0 { Action::GoToPage(0) } else { Action::GoToPage(2) };
        assert_eq!(queue.try_recv(), Some(expected));
    }
    assert_eq!(queue.try_recv(), None);
}

#[test]
fn of_forty_events_in_a_frame_the_first_thirty_two_are_applied() {
    let mut state = AppState::default();
    let mut queue = ActionQueue::new();
    let mut events = Vec::new();
    for _ in 0..31 {
        events.push(press('r'));
    }
    events.push(press('j'));
    for _ in 0..7 {
        events.push(press('r'));
    }
    events.push(press('q'));
    assert_eq!(events.len(), 40);
    let commands = run_frame(&mut state, &mut queue, &events, None, None);
    assert_eq!(commands.len(), 31);
    assert!(commands.iter().all(|c| *c == GithubCommand::Refresh));
    assert_eq!(state.ui.scroll_offset, 1);
    assert!(state.running);
    assert_eq!(queue.len(), 0);
    assert_eq!(state.fx.frame_count(), 1);
}

#[test]
fn a_full_queue_drops_what_is_offered() {
    let mut queue = ActionQueue::new();
    for i in 0..32usize {
        assert!(queue.try_send(Action::GoToPage(i)));
    }
    assert!(!queue.try_send(Action::Quit));
    assert_eq!(queue.len(), 32);
    assert_eq!(queue.try_recv(), Some(Action::GoToPage(0)));
    assert!(queue.try_send(Action::Quit));
    assert_eq!(queue.len(), 32);
}

#[test]
fn actions_change_what_is_on_screen() {
    let mut state = AppState::default();
    assert_eq!(apply_action(&mut state, Action::ScrollDown), None);
    assert_eq!(apply_action(&mut state, Action::ScrollDown), None);
    assert_eq!(state.ui.scroll_offset, 2);
    assert_eq!(apply_action(&mut state, Action::NextPage), None);
    assert_eq!(state.ui.current_page, Page::Repositories);
    assert_eq!(state.ui.scroll_offset, 0);
    assert!(state.fx.transition_active());
    assert_eq!(apply_action(&mut state, Action::ScrollUp), None);
    assert_eq!(state.ui.scroll_offset, 0);
    assert_eq!(apply_action(&mut state, Action::PrevPage), None);
    assert_eq!(state.ui.current_page, Page::Dashboard);
    assert_eq!(apply_action(&mut state, Action::GoToPage(3)), None);
    assert_eq!(state.ui.current_page, Page::Settings);
    assert_eq!(apply_action(&mut state, Action::GoToPage(9)), None);
    assert_eq!(state.ui.current_page, Page::Dashboard);
    assert_eq!(apply_action(&mut state, Action::CycleFocus), None);
    assert_eq!(state.ui.focus_area, FocusArea::Sidebar);
    assert_eq!(apply_action(&mut state, Action::ToggleHelp), None);
    assert!(state.ui.show_help_overlay);
    assert_eq!(apply_action(&mut state, Action::ToggleHelp), None);
    assert!(!state.ui.show_help_overlay);
    assert_eq!(apply_action(&mut state, Action::TogglePause), None);
    assert!(state.fx.animations_paused());
    assert_eq!(apply_action(&mut state, Action::SelectPrev), None);
    assert_eq!(state.ui.selected_index, 0);
    assert_eq!(apply_action(&mut state, Action::SelectNext), None);
    assert_eq!(state.ui.selected_index, 1);
    state.ui.selected_index = usize::MAX;
    assert_eq!(apply_action(&mut state, Action::SelectNext), None);
    assert_eq!(state.ui.selected_index, usize::MAX);
    assert_eq!(apply_action(&mut state, Action::Nothing), None);
    assert_eq!(apply_action(&mut state, Action::RefreshGithub), Some(GithubCommand::Refresh));
    assert!(state.running);
    assert_eq!(apply_action(&mut state, Action::Quit), None);
    assert!(!state.running);
}

#[test]
fn going_to_the_page_shown_starts_no_transition() {
    let mut state = AppState::default();
    state.ui.scroll_offset = 4;
    assert_eq!(apply_action(&mut state, Action::GoToPage(0)), None);
    assert_eq!(state.ui.scroll_offset, 4);
    assert!(!state.fx.transition_active());
}

#[test]
fn actions_behind_a_quit_are_applied_as_well() {
    let mut state = AppState::default();
    let mut queue = ActionQueue::new();
    queue.try_send(Action::Quit);
    queue.try_send(Action::RefreshGithub);
    queue.try_send(Action::ToggleHelp);
    let commands = drain_actions(&mut state, &mut queue);
    assert_eq!(commands, vec![GithubCommand::Refresh]);
    assert!(!state.running);
    assert!(state.ui.show_help_overlay);
    assert_eq!(queue.len(), 0);
}

#[test]
fn the_latest_snapshots_replace_what_is_held() {
    let mut state = AppState::default();
    let mut github = GithubState::default();
    github.status = FetchStatus::Success;
    let system = SystemState::from_readings(1, 2, 3, Some("host".to_string()), None, 8);
    merge_snapshots(&mut state, Some(github), None);
    assert_eq!(state.github.status, FetchStatus::Success);
    assert_eq!(state.system.cpu_count, 0);
    merge_snapshots(&mut state, None, Some(system));
    assert_eq!(state.github.status, FetchStatus::Success);
    assert_eq!(state.system.cpu_count, 8);
    assert_eq!(state.system.hostname, "host");
}

#[test]
fn a_frame_queues_applies_merges_and_ticks() {
    let mut state = AppState::default();
    let mut queue = ActionQueue::new();
    queue.try_send(Action::ToggleHelp);
    let mut github = GithubState::default();
    github.status = FetchStatus::Fetching;
    let events = vec![press('2'), TerminalEvent::Resize(100, 40), press('r'), click(40, 1)];
    let commands = run_frame(&mut state, &mut queue, &events, Some(github), None);
    assert_eq!(commands, vec![GithubCommand::Refresh]);
    assert!(state.ui.show_help_overlay);
    assert_eq!(state.ui.current_page, Page::Settings);
    assert_eq!(state.github.status, FetchStatus::Fetching);
    assert_eq!(state.fx.frame_count(), 1);
    assert_eq!(state.fx.last_transition_frame(), 0);
    assert!(state.fx.transition_active());
    assert_eq!(queue.len(), 0);
    let commands = run_frame(&mut state, &mut queue, &Vec::new(), None, None);
    assert!(commands.is_empty());
    assert_eq!(state.fx.frame_count(), 2);
    assert_eq!(state.github.status, FetchStatus::Fetching);
}

#[test]
fn the_frame_sleeps_for_what_is_left_of_its_time() {
    assert_eq!(FRAME_NANOS, 33_000_000);
    assert_eq!(frame_sleep_nanos(0), Some(33_000_000));
    assert_eq!(frame_sleep_nanos(1_000_000), Some(32_000_000));
    assert_eq!(frame_sleep_nanos(32_999_999), Some(1));
    assert_eq!(frame_sleep_nanos(33_000_000), None);
    assert_eq!(frame_sleep_nanos(u128::MAX), None);
}
