//! What the dashboard holds between frames: the latest data, what part of
//! it is on screen, and where the animations stand.

use crate::dashboard::logs::{LogBuffer, LogLine};
use crate::github::models::{GithubState, StateView, StatusView};
use crate::system::{SystemState, SystemView};
use crate::time::{
    format_relative_at, relative_text, seconds_between, valid_instant, Instant, Timestamp,
};
use vstd::prelude::*;

verus! {

/// How many pages there are.
pub const PAGE_COUNT: usize = 4;

/// How many frames a page transition lasts.
pub const TRANSITION_FRAMES: u64 = 20;

/// A page of the dashboard.
#[derive(Debug, Clone, Copy, PartialEq, Eq, Structural)]
pub enum Page {
    Dashboard,
    Repositories,
    Activity,
    Settings,
}

/// The page with the index `index`; the first page for any index beyond
/// the last.
pub open spec fn page_at(index: int) -> Page {
    if index == 1 {
        Page::Repositories
    } else if index == 2 {
        Page::Activity
    } else if index == 3 {
        Page::Settings
    } else {
        Page::Dashboard
    }
}

/// The index of a page, counted from zero.
pub open spec fn page_index(page: Page) -> int {
    match page {
        Page::Dashboard => 0,
        Page::Repositories => 1,
        Page::Activity => 2,
        Page::Settings => 3,
    }
}

/// The title of a page.
pub open spec fn page_title(page: Page) -> Seq<char> {
    match page {
        Page::Dashboard => "Dashboard"@,
        Page::Repositories => "Repositories"@,
        Page::Activity => "Activity Feed"@,
        Page::Settings => "Settings & Help"@,
    }
}

/// The page after `page`; the first follows the last.
pub open spec fn next_page(page: Page) -> Page {
    page_at((page_index(page) + 1) % 4)
}

/// The page before `page`; the last comes before the first.
pub open spec fn prev_page(page: Page) -> Page {
    page_at((page_index(page) + 3) % 4)
}

/// Going on and back again, or back and on again, leads to the same page,
/// and four steps either way lead round.
pub proof fn lemma_pages_cycle(page: Page)
    ensures
        prev_page(next_page(page)) == page,
        next_page(prev_page(page)) == page,
        next_page(next_page(next_page(next_page(page)))) == page,
        page_at(page_index(page)) == page,
{
}

impl Default for Page {
    fn default() -> (r: Self)
        ensures
            r == Page::Dashboard,
    {
        Page::Dashboard
    }
}

impl Page {
    /// The title of the page.
    pub fn title(&self) -> (r: &'static str)
        ensures
            r@ == page_title(*self),
    {
        match self {
            Page::Dashboard => "Dashboard",
            Page::Repositories => "Repositories",
            Page::Activity => "Activity Feed",
            Page::Settings => "Settings & Help",
        }
    }

    /// The index of the page, counted from zero.
    pub fn index(&self) -> (r: usize)
        ensures
            r == page_index(*self),
            r < PAGE_COUNT,
    {
        match self {
            Page::Dashboard => 0,
            Page::Repositories => 1,
            Page::Activity => 2,
            Page::Settings => 3,
        }
    }

    /// The page with this index; the first page for any index beyond the
    /// last.
    pub fn from_index(index: usize) -> (r: Self)
        ensures
            r == page_at(index as int),
    {
        if index == 1 {
            Page::Repositories
        } else if index == 2 {
            Page::Activity
        } else if index == 3 {
            Page::Settings
        } else {
            Page::Dashboard
        }
    }

    /// The page after this one; the first follows the last.
    pub fn next(&self) -> (r: Self)
        ensures
            r == next_page(*self),
    {
        Self::from_index((self.index() + 1) % 4)
    }

    /// The page before this one; the last comes before the first.
    pub fn prev(&self) -> (r: Self)
        ensures
            r == prev_page(*self),
    {
        Self::from_index((self.index() + 3) % 4)
    }
}

/// The area of the screen that has the focus.
#[derive(Debug, Clone, Copy, PartialEq, Eq, Structural)]
pub enum FocusArea {
    Main,
    Sidebar,
    List,
}

/// The area that the focus moves to from `area`.
pub open spec fn next_focus(area: FocusArea) -> FocusArea {
    match area {
        FocusArea::Main => FocusArea::Sidebar,
        FocusArea::Sidebar => FocusArea::List,
        FocusArea::List => FocusArea::Main,
    }
}

impl Default for FocusArea {
    fn default() -> (r: Self)
        ensures
            r == FocusArea::Main,
    {
        FocusArea::Main
    }
}

impl FocusArea {
    /// The area that the focus moves to from this one.
    pub fn next(&self) -> (r: Self)
        ensures
            r == next_focus(*self),
    {
        match self {
            FocusArea::Main => FocusArea::Sidebar,
            FocusArea::Sidebar => FocusArea::List,
            FocusArea::List => FocusArea::Main,
        }
    }
}

/// What part of the data is on screen.
#[derive(Debug, Clone, Copy, PartialEq, Eq, Structural)]
pub struct UiState {
    pub current_page: Page,
    pub show_help_overlay: bool,
    pub scroll_offset: usize,
    pub selected_index: usize,
    pub focus_area: FocusArea,
}

impl UiState {
    /// The first page, unscrolled, with nothing selected and no help.
    pub open spec fn initial() -> UiState {
        UiState {
            current_page: Page::Dashboard,
            show_help_overlay: false,
            scroll_offset: 0,
            selected_index: 0,
            focus_area: FocusArea::Main,
        }
    }
}

impl Default for UiState {
    fn default() -> (r: Self)
        ensures
            r == UiState::initial(),
    {
        UiState {
            current_page: Page::Dashboard,
            show_help_overlay: false,
            scroll_offset: 0,
            selected_index: 0,
            focus_area: FocusArea::Main,
        }
    }
}

/// What an `FxState` stands for.
pub struct FxView {
    pub animations_paused: bool,
    pub reduced_motion: bool,
    pub frame_count: u64,
    pub last_transition_frame: u64,
    pub transition_active: bool,
}

impl FxView {
    /// The clock before the first frame.
    pub open spec fn initial() -> FxView {
        FxView {
            animations_paused: false,
            reduced_motion: false,
            frame_count: 0,
            last_transition_frame: 0,
            transition_active: false,
        }
    }

    /// Whether animations play: they do unless paused or reduced.
    pub open spec fn animates(self) -> bool {
        !self.animations_paused && !self.reduced_motion
    }

    /// The clock one frame on. A transition that started more than
    /// `TRANSITION_FRAMES` frames before is over.
    pub open spec fn ticked(self) -> FxView {
        let count = (self.frame_count + 1) as u64;
        FxView {
            frame_count: count,
            transition_active: self.transition_active && !(count - self.last_transition_frame
                > TRANSITION_FRAMES),
            ..self
        }
    }

    /// The clock with a transition started at the current frame.
    pub open spec fn transition_started(self) -> FxView {
        FxView { transition_active: true, last_transition_frame: self.frame_count, ..self }
    }
}

/// The clock of the animations: it counts frames and knows whether a page
/// transition is under way. No transition started after the current
/// frame.
#[derive(Debug, Clone, Copy)]
pub struct FxState {
    animations_paused: bool,
    reduced_motion: bool,
    frame_count: u64,
    last_transition_frame: u64,
    transition_active: bool,
}

impl View for FxState {
    type V = FxView;

    closed spec fn view(&self) -> FxView {
        FxView {
            animations_paused: self.animations_paused,
            reduced_motion: self.reduced_motion,
            frame_count: self.frame_count,
            last_transition_frame: self.last_transition_frame,
            transition_active: self.transition_active,
        }
    }
}

impl Default for FxState {
    fn default() -> (r: Self)
        ensures
            r@ == FxView::initial(),
    {
        FxState {
            animations_paused: false,
            reduced_motion: false,
            frame_count: 0,
            last_transition_frame: 0,
            transition_active: false,
        }
    }
}

impl FxState {
    #[verifier::type_invariant]
    pub closed spec fn in_order(self) -> bool {
        self.last_transition_frame <= self.frame_count
    }

    /// Whether the animations are paused.
    pub fn animations_paused(&self) -> (r: bool)
        ensures
            r == self@.animations_paused,
    {
        self.animations_paused
    }

    /// Whether animations are to be left out altogether.
    pub fn reduced_motion(&self) -> (r: bool)
        ensures
            r == self@.reduced_motion,
    {
        self.reduced_motion
    }

    /// How many frames have passed. No transition started later.
    pub fn frame_count(&self) -> (r: u64)
        ensures
            r == self@.frame_count,
            self@.last_transition_frame <= r,
    {
        proof {
            use_type_invariant(self);
        }
        self.frame_count
    }

    /// The frame at which the last transition started.
    pub fn last_transition_frame(&self) -> (r: u64)
        ensures
            r == self@.last_transition_frame,
    {
        self.last_transition_frame
    }

    /// Whether a page transition is under way.
    pub fn transition_active(&self) -> (r: bool)
        ensures
            r == self@.transition_active,
    {
        self.transition_active
    }

    /// Sets whether animations are to be left out altogether.
    pub fn set_reduced_motion(&mut self, reduced_motion: bool)
        ensures
            final(self)@ == (FxView { reduced_motion, ..old(self)@ }),
    {
        proof {
            use_type_invariant(&*self);
        }
        self.reduced_motion = reduced_motion;
    }

    /// Pauses the animations, or resumes them.
    pub fn toggle_pause(&mut self)
        ensures
            final(self)@ == (FxView {
                animations_paused: !old(self)@.animations_paused,
                ..old(self)@
            }),
    {
        proof {
            use_type_invariant(&*self);
        }
        self.animations_paused = !self.animations_paused;
    }

    /// Whether animations play.
    pub fn should_animate(&self) -> (r: bool)
        ensures
            r == self@.animates(),
    {
        !self.animations_paused && !self.reduced_motion
    }

    /// Whether `tick` may be called: the count of frames has room for one
    /// more.
    pub fn can_tick(&self) -> (r: bool)
        ensures
            r == (self@.frame_count < u64::MAX),
    {
        self.frame_count < u64::MAX
    }

    /// Counts a frame.
    pub fn tick(&mut self)
        requires
            old(self)@.frame_count < u64::MAX,
        ensures
            final(self)@ == old(self)@.ticked(),
    {
        proof {
            use_type_invariant(&*self);
        }
        let count: u64 = self.frame_count + 1;
        let active = self.transition_active && !(count - self.last_transition_frame
            > TRANSITION_FRAMES);
        *self = FxState {
            animations_paused: self.animations_paused,
            reduced_motion: self.reduced_motion,
            frame_count: count,
            last_transition_frame: self.last_transition_frame,
            transition_active: active,
        };
    }

    /// Starts a page transition at the current frame.
    pub fn start_transition(&mut self)
        ensures
            final(self)@ == old(self)@.transition_started(),
    {
        *self = FxState {
            animations_paused: self.animations_paused,
            reduced_motion: self.reduced_motion,
            frame_count: self.frame_count,
            last_transition_frame: self.frame_count,
            transition_active: true,
        };
    }
}

/// All that the dashboard holds between frames.
#[derive(Debug)]
pub struct AppState {
    /// The latest data of the service that was seen.
    pub github: GithubState,
    /// The latest metrics of the machine that were seen.
    pub system: SystemState,
    pub ui: UiState,
    pub fx: FxState,
    pub log_buffer: LogBuffer,
    /// Whether the event loop goes on.
    pub running: bool,
}

/// What an `AppState` stands for.
pub struct AppView {
    pub github: StateView,
    pub system: SystemView,
    pub ui: UiState,
    pub fx: FxView,
    pub log: Seq<LogLine>,
    pub running: bool,
}

impl View for AppState {
    type V = AppView;

    open spec fn view(&self) -> AppView {
        AppView {
            github: self.github@,
            system: self.system@,
            ui: self.ui,
            fx: self.fx@,
            log: self.log_buffer@,
            running: self.running,
        }
    }
}

impl AppView {
    /// The state at the start of a run.
    pub open spec fn initial() -> AppView {
        AppView {
            github: StateView::empty(),
            system: SystemView::empty(),
            ui: UiState::initial(),
            fx: FxView::initial(),
            log: Seq::empty(),
            running: true,
        }
    }
}

/// The line that tells where the data stands. `age` is the number of
/// whole seconds since the last refresh, where there was one.
pub open spec fn status_text(status: StatusView, age: Option<int>) -> Seq<char> {
    match status {
        StatusView::Idle => match age {
            Some(seconds) => "Last updated: "@ + relative_text(seconds),
            None => "No data loaded"@,
        },
        StatusView::Fetching => "Fetching GitHub data..."@,
        StatusView::Success => match age {
            Some(seconds) => "Updated: "@ + relative_text(seconds),
            None => "Data loaded"@,
        },
        StatusView::Error(reason) => "Error: "@ + reason,
    }
}

/// Whole seconds from the last refresh to `now`, where there was a
/// refresh.
pub open spec fn age_at(last_updated: Option<Instant>, now: Instant) -> Option<int> {
    match last_updated {
        Some(then) => Some(seconds_between(now, then)),
        None => None,
    }
}

/// A label followed by a text.
fn labelled(label: &str, text: &str) -> (r: String)
    ensures
        r@ == label@ + text@,
{
    let mut out = String::from_str(label);
    out.append(text);
    out
}

impl Default for AppState {
    fn default() -> (r: Self)
        ensures
            r@ == AppView::initial(),
    {
        AppState {
            github: GithubState::default(),
            system: SystemState::default(),
            ui: UiState::default(),
            fx: FxState::default(),
            log_buffer: LogBuffer::new(),
            running: true,
        }
    }
}

impl AppState {
    /// The state at the start of a run, with the wish for reduced motion
    /// and the log to show.
    pub fn new(reduced_motion: bool, log_buffer: LogBuffer) -> (r: Self)
        ensures
            r@ == (AppView {
                fx: FxView { reduced_motion, ..FxView::initial() },
                log: log_buffer@,
                ..AppView::initial()
            }),
    {
        let mut state = AppState::default();
        state.fx.set_reduced_motion(reduced_motion);
        state.log_buffer = log_buffer;
        state
    }

    /// Whether any data of the service is held: a profile or a repository.
    pub fn has_github_data(&self) -> (r: bool)
        ensures
            r == (self@.github.profile is Some || self@.github.repos.len() > 0),
    {
        self.github.profile.is_some() || self.github.repos.len() > 0
    }

    /// The line that tells where the data stands at the time `now`.
    pub fn status_message_at(&self, now: Timestamp) -> (r: String)
        ensures
            r@ == status_text(self@.github.status, age_at(self@.github.last_updated, now@)),
    {
        match &self.github.status {
            crate::github::models::FetchStatus::Idle => {
                match self.github.last_updated {
                    Some(then) => labelled(
                        "Last updated: ",
                        format_relative_at(then, now).as_str(),
                    ),
                    None => String::from_str("No data loaded"),
                }
            },
            crate::github::models::FetchStatus::Fetching => String::from_str(
                "Fetching GitHub data...",
            ),
            crate::github::models::FetchStatus::Success => {
                match self.github.last_updated {
                    Some(then) => labelled("Updated: ", format_relative_at(then, now).as_str()),
                    None => String::from_str("Data loaded"),
                }
            },
            crate::github::models::FetchStatus::Error(reason) => labelled(
                "Error: ",
                reason.as_str(),
            ),
        }
    }

    /// The line that tells where the data stands, by the clock at the time
    /// of the call.
    pub fn status_message(&self) -> (r: String)
        ensures
            exists|now: Instant|
                valid_instant(now.secs, now.nanos) && r@ == #[trigger] status_text(
                    self@.github.status,
                    age_at(self@.github.last_updated, now),
                ),
    {
        let now = Timestamp::now();
        let r = self.status_message_at(now);
        proof {
            assert(valid_instant(now@.secs, now@.nanos) && r@ == status_text(
                self@.github.status,
                age_at(self@.github.last_updated, now@),
            ));
        }
        r
    }
}

} // verus!
