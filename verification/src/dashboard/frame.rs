//! One frame of the event loop.
//!
//! In a frame every pending event of the terminal is turned into an
//! action and offered to a bounded queue, which drops what it has no room
//! for. Then every queued action is applied, in order, to what is on
//! screen; requests for a refresh are collected for the poller. Then the
//! latest snapshots of the pollers replace the data held, where there are
//! new ones, and the clock of the animations counts the frame. Nothing in
//! a frame waits for anything.

use crate::dashboard::actions::{key_action, Action, KeyEventKind};
use crate::dashboard::events::{MouseButton, MouseEventKind, TerminalEvent};
use crate::dashboard::state::{
    next_focus, next_page, page_at, prev_page, AppState, AppView, FxView, Page, UiState,
};
use crate::github::models::GithubState;
use crate::github::poller::GithubCommand;
use crate::system::SystemState;
use vstd::prelude::*;

verus! {

/// How many actions can wait in the queue.
pub const ACTION_QUEUE_CAPACITY: usize = 32;

/// How many frames are aimed at in a second.
pub const TARGET_FPS: u64 = 30;

/// The time that a frame may take, in nanoseconds: a thirtieth of a
/// second, in whole milliseconds.
pub const FRAME_NANOS: u64 = 33_000_000;

/// The row of the screen in which the tabs of the pages stand.
pub const HEADER_ROW: u16 = 1;

/// The queue after `action` was offered to it: the action is last in it,
/// unless the queue was full, and then it is dropped.
pub open spec fn offered(queue: Seq<Action>, action: Action) -> Seq<Action> {
    if queue.len() < ACTION_QUEUE_CAPACITY {
        queue.push(action)
    } else {
        queue
    }
}

/// The tab that stands at a column of the header row, if one does.
pub open spec fn header_tab(column: u16) -> Option<usize> {
    if 1 <= column <= 14 {
        Some(0)
    } else if 15 <= column <= 24 {
        Some(1)
    } else if 25 <= column <= 37 {
        Some(2)
    } else if column >= 38 {
        Some(3)
    } else {
        None
    }
}

/// The action that an event of the terminal asks for, if it asks for
/// one: a key that goes down asks for what is bound to it, which may be
/// nothing; a press of the left mouse button on a tab asks for its page.
pub open spec fn input_action(event: TerminalEvent) -> Option<Action> {
    match event {
        TerminalEvent::Key(key) => if key.kind == KeyEventKind::Press {
            Some(key_action(key))
        } else {
            None
        },
        TerminalEvent::Mouse(mouse) => if mouse.kind == MouseEventKind::Down(MouseButton::Left)
            && mouse.row == HEADER_ROW {
            match header_tab(mouse.column) {
                Some(tab) => Some(Action::GoToPage(tab)),
                None => None,
            }
        } else {
            None
        },
        _ => None,
    }
}

/// The queue after the actions of `events` were offered to it, one by one
/// in the order of the events.
pub open spec fn queued(queue: Seq<Action>, events: Seq<TerminalEvent>) -> Seq<Action>
    decreases events.len(),
{
    if events.len() == 0 {
        queue
    } else {
        let before = queued(queue, events.drop_last());
        match input_action(events.last()) {
            Some(action) => offered(before, action),
            None => before,
        }
    }
}

/// What actions change: what is on screen, the clock of the animations,
/// and whether the loop goes on.
pub struct Screen {
    pub ui: UiState,
    pub fx: FxView,
    pub running: bool,
}

/// The part of the state that actions change.
pub open spec fn screen_of(app: AppView) -> Screen {
    Screen { ui: app.ui, fx: app.fx, running: app.running }
}

/// The screen once `page` is shown: where it was not shown before, a
/// transition starts and the page is scrolled to its top.
pub open spec fn shown(screen: Screen, page: Page) -> Screen {
    if screen.ui.current_page != page {
        Screen {
            ui: UiState { current_page: page, scroll_offset: 0, ..screen.ui },
            fx: screen.fx.transition_started(),
            ..screen
        }
    } else {
        screen
    }
}

/// One less, but not less than zero.
pub open spec fn step_down(n: usize) -> usize {
    if n == 0 {
        0
    } else {
        (n - 1) as usize
    }
}

/// One more, but not more than the largest number.
pub open spec fn step_up(n: usize) -> usize {
    if n == usize::MAX {
        n
    } else {
        (n + 1) as usize
    }
}

/// The screen after an action.
pub open spec fn applied(screen: Screen, action: Action) -> Screen {
    match action {
        Action::Quit => Screen { running: false, ..screen },
        Action::RefreshGithub => screen,
        Action::NextPage => shown(screen, next_page(screen.ui.current_page)),
        Action::PrevPage => shown(screen, prev_page(screen.ui.current_page)),
        Action::GoToPage(index) => shown(screen, page_at(index as int)),
        Action::CycleFocus => Screen {
            ui: UiState { focus_area: next_focus(screen.ui.focus_area), ..screen.ui },
            ..screen
        },
        Action::ScrollUp => Screen {
            ui: UiState { scroll_offset: step_down(screen.ui.scroll_offset), ..screen.ui },
            ..screen
        },
        Action::ScrollDown => Screen {
            ui: UiState { scroll_offset: step_up(screen.ui.scroll_offset), ..screen.ui },
            ..screen
        },
        Action::SelectNext => Screen {
            ui: UiState { selected_index: step_up(screen.ui.selected_index), ..screen.ui },
            ..screen
        },
        Action::SelectPrev => Screen {
            ui: UiState { selected_index: step_down(screen.ui.selected_index), ..screen.ui },
            ..screen
        },
        Action::ToggleHelp => Screen {
            ui: UiState { show_help_overlay: !screen.ui.show_help_overlay, ..screen.ui },
            ..screen
        },
        Action::TogglePause => Screen {
            fx: FxView { animations_paused: !screen.fx.animations_paused, ..screen.fx },
            ..screen
        },
        Action::Nothing => screen,
    }
}

/// What an action asks of the poller, if anything.
pub open spec fn command_of(action: Action) -> Option<GithubCommand> {
    match action {
        Action::RefreshGithub => Some(GithubCommand::Refresh),
        _ => None,
    }
}

/// The screen after the actions, applied in their order.
pub open spec fn applied_all(screen: Screen, actions: Seq<Action>) -> Screen
    decreases actions.len(),
{
    if actions.len() == 0 {
        screen
    } else {
        applied(applied_all(screen, actions.drop_last()), actions.last())
    }
}

/// What the actions ask of the poller, in their order.
pub open spec fn commands_of(actions: Seq<Action>) -> Seq<GithubCommand>
    decreases actions.len(),
{
    if actions.len() == 0 {
        Seq::empty()
    } else {
        let before = commands_of(actions.drop_last());
        match command_of(actions.last()) {
            Some(command) => before.push(command),
            None => before,
        }
    }
}

/// The state after a frame: the events' actions are queued behind those
/// `waiting` and applied, the new snapshots are taken in, and the frame
/// is counted.
pub open spec fn frame_result(
    app: AppView,
    waiting: Seq<Action>,
    events: Seq<TerminalEvent>,
    github: Option<crate::github::models::StateView>,
    system: Option<crate::system::SystemView>,
) -> AppView {
    let screen = applied_all(screen_of(app), queued(waiting, events));
    AppView {
        github: match github {
            Some(snapshot) => snapshot,
            None => app.github,
        },
        system: match system {
            Some(snapshot) => snapshot,
            None => app.system,
        },
        ui: screen.ui,
        fx: screen.fx.ticked(),
        running: screen.running,
        log: app.log,
    }
}

/// However many events arrive in a frame, no more actions are queued
/// than the queue has room for, and those that are queued before stay
/// first, in their order.
pub proof fn lemma_queue_is_bounded(queue: Seq<Action>, events: Seq<TerminalEvent>)
    requires
        queue.len() <= ACTION_QUEUE_CAPACITY,
    ensures
        queued(queue, events).len() <= ACTION_QUEUE_CAPACITY,
        queue.len() <= queued(queue, events).len(),
        queued(queue, events).take(queue.len() as int) == queue,
    decreases events.len(),
{
    if events.len() > 0 {
        lemma_queue_is_bounded(queue, events.drop_last());
        let before = queued(queue, events.drop_last());
        assert(before.take(queue.len() as int) == queue);
        assert(queued(queue, events).take(queue.len() as int) =~= before.take(queue.len() as int));
    } else {
        assert(queue.take(queue.len() as int) =~= queue);
    }
}

/// Events that each ask for an action fill an empty queue with the
/// actions of the first of them, in the order of arrival, up to the room
/// there is; the actions of the others are dropped.
pub proof fn lemma_first_come_first_kept(events: Seq<TerminalEvent>)
    requires
        forall|i: int| 0 <= i < events.len() ==> (#[trigger] input_action(events[i])) is Some,
    ensures
        queued(Seq::empty(), events).len() == if events.len() <= ACTION_QUEUE_CAPACITY {
            events.len()
        } else {
            ACTION_QUEUE_CAPACITY as nat
        },
        forall|i: int|
            0 <= i < queued(Seq::empty(), events).len() ==> Some(
                #[trigger] queued(Seq::empty(), events)[i],
            ) == input_action(events[i]),
    decreases events.len(),
{
    if events.len() > 0 {
        let earlier = events.drop_last();
        assert forall|i: int| 0 <= i < earlier.len() implies (#[trigger] input_action(
            earlier[i],
        )) is Some by {
            assert(earlier[i] == events[i]);
        }
        lemma_first_come_first_kept(earlier);
        let before = queued(Seq::empty(), earlier);
        assert forall|i: int| 0 <= i < queued(Seq::empty(), events).len() implies Some(
            #[trigger] queued(Seq::empty(), events)[i],
        ) == input_action(events[i]) by {
            if i < before.len() {
                assert(earlier[i] == events[i]);
            }
        }
    }
}

/// The actions that wait to be applied: both ends of a bounded channel of
/// `tokio`, which nothing else holds. Nobody else sends into the channel
/// or takes from it, so what waits in it changes only through this value.
#[verifier::external_body]
pub struct ActionQueue {
    sender: tokio::sync::mpsc::Sender<Action>,
    receiver: tokio::sync::mpsc::Receiver<Action>,
}

/// The actions that wait in the channel, the one that was sent first in
/// front.
pub uninterp spec fn channel_messages(queue: ActionQueue) -> Seq<Action>;

/// The number of slots that the channel was made with.
pub uninterp spec fn channel_slots(queue: ActionQueue) -> nat;

/// `tokio::sync::mpsc::channel` with `slots` slots: an empty channel that
/// buffers up to `slots` messages. `tokio` panics on no slots and on more
/// than an eighth of the addresses there are.
#[verifier::external_body]
fn tokio_channel(slots: usize) -> (queue: ActionQueue)
    requires
        0 < slots <= 65_535,
    ensures
        channel_messages(queue) == Seq::<Action>::empty(),
        channel_slots(queue) == slots,
{
    let (sender, receiver) = tokio::sync::mpsc::channel(slots);
    ActionQueue { sender, receiver }
}

/// `tokio::sync::mpsc::Sender::try_send`: returns at once; the message is
/// buffered behind those that wait, unless as many wait as the channel
/// has slots, and then it is refused. The receiver is neither closed nor
/// dropped, so nothing else makes the call fail.
#[verifier::external_body]
fn tokio_try_send(queue: &mut ActionQueue, action: Action) -> (accepted: bool)
    ensures
        accepted == (channel_messages(*old(queue)).len() < channel_slots(*old(queue))),
        accepted ==> channel_messages(*final(queue)) == channel_messages(*old(queue)).push(action),
        !accepted ==> channel_messages(*final(queue)) == channel_messages(*old(queue)),
        channel_slots(*final(queue)) == channel_slots(*old(queue)),
{
    queue.sender.try_send(action).is_ok()
}

/// `tokio::sync::mpsc::Receiver::try_recv`: returns at once, with the
/// message that was sent first of those that wait, which leaves the
/// channel; with none only where none waits.
#[verifier::external_body]
fn tokio_try_recv(queue: &mut ActionQueue) -> (action: Option<Action>)
    ensures
        channel_messages(*old(queue)).len() == 0 ==> action is None && channel_messages(
            *final(queue),
        ) == channel_messages(*old(queue)),
        channel_messages(*old(queue)).len() > 0 ==> action == Some(
            channel_messages(*old(queue)).first(),
        ) && channel_messages(*final(queue)) == channel_messages(*old(queue)).drop_first(),
        channel_slots(*final(queue)) == channel_slots(*old(queue)),
{
    queue.receiver.try_recv().ok()
}

/// `tokio::sync::mpsc::Receiver::len`: the number of messages that wait
/// in the channel.
#[verifier::external_body]
fn tokio_len(queue: &ActionQueue) -> (r: usize)
    ensures
        r == channel_messages(*queue).len(),
{
    queue.receiver.len()
}

impl View for ActionQueue {
    type V = Seq<Action>;

    open spec fn view(&self) -> Seq<Action> {
        channel_messages(*self)
    }
}

impl ActionQueue {
    /// Whether the queue is one of `ACTION_QUEUE_CAPACITY` slots in which
    /// no more actions wait than it has slots. `new` makes such a queue
    /// and every call keeps it so.
    pub open spec fn well_formed(&self) -> bool {
        &&& channel_slots(*self) == ACTION_QUEUE_CAPACITY
        &&& self@.len() <= ACTION_QUEUE_CAPACITY
    }

    /// An empty queue.
    pub fn new() -> (r: Self)
        ensures
            r@ == Seq::<Action>::empty(),
            r.well_formed(),
    {
        tokio_channel(ACTION_QUEUE_CAPACITY)
    }

    /// How many actions wait: never more than `ACTION_QUEUE_CAPACITY`.
    pub fn len(&self) -> (r: usize)
        requires
            self.well_formed(),
        ensures
            r == self@.len(),
            r <= ACTION_QUEUE_CAPACITY,
    {
        tokio_len(self)
    }

    /// Offers an action to the queue. A full queue drops it and says so
    /// with `false`; the call never waits.
    pub fn try_send(&mut self, action: Action) -> (accepted: bool)
        requires
            old(self).well_formed(),
        ensures
            final(self).well_formed(),
            final(self)@ == offered(old(self)@, action),
            accepted == (old(self)@.len() < ACTION_QUEUE_CAPACITY),
    {
        tokio_try_send(self, action)
    }

    /// Takes the action that waited longest, if any waits; the call never
    /// waits.
    pub fn try_recv(&mut self) -> (action: Option<Action>)
        requires
            old(self).well_formed(),
        ensures
            final(self).well_formed(),
            old(self)@.len() == 0 ==> action is None && final(self)@ == old(self)@,
            old(self)@.len() > 0 ==> action == Some(old(self)@.first()) && final(self)@ == old(
                self,
            )@.drop_first(),
    {
        tokio_try_recv(self)
    }
}

/// The tab that stands at a column of the header row, if one does.
pub fn clicked_tab(column: u16) -> (r: Option<usize>)
    ensures
        r == header_tab(column),
{
    if column >= 1 && column <= 14 {
        Some(0)
    } else if column >= 15 && column <= 24 {
        Some(1)
    } else if column >= 25 && column <= 37 {
        Some(2)
    } else if column >= 38 {
        Some(3)
    } else {
        None
    }
}

/// The action that an event of the terminal asks for, if it asks for one.
pub fn action_for(event: &TerminalEvent) -> (r: Option<Action>)
    ensures
        r == input_action(*event),
{
    match event {
        TerminalEvent::Key(key) => {
            if key.kind == KeyEventKind::Press {
                Some(Action::from_key_event(*key))
            } else {
                None
            }
        },
        TerminalEvent::Mouse(mouse) => {
            if mouse.kind == MouseEventKind::Down(MouseButton::Left) && mouse.row == HEADER_ROW {
                match clicked_tab(mouse.column) {
                    Some(tab) => Some(Action::GoToPage(tab)),
                    None => None,
                }
            } else {
                None
            }
        },
        _ => None,
    }
}

/// Offers the actions of the events to the queue, in the order of the
/// events. What the queue has no room for is dropped.
pub fn enqueue_inputs(queue: &mut ActionQueue, events: &Vec<TerminalEvent>)
    requires
        old(queue).well_formed(),
    ensures
        final(queue).well_formed(),
        final(queue)@ == queued(old(queue)@, events@),
{
    let ghost waiting = queue@;
    let mut i: usize = 0;
    assert(events@.take(0) =~= Seq::<TerminalEvent>::empty());
    while i < events.len()
        invariant
            i <= events.len(),
            queue.well_formed(),
            queue@ == queued(waiting, events@.take(i as int)),
        decreases events.len() - i,
    {
        proof {
            let next = events@.take(i + 1);
            assert(next.drop_last() =~= events@.take(i as int));
            assert(next.last() == events[i as int]);
        }
        match action_for(&events[i]) {
            Some(action) => {
                queue.try_send(action);
            },
            None => {},
        }
        i += 1;
    }
    assert(events@.take(i as int) =~= events@);
}

/// Shows `page`.
fn show_page(state: &mut AppState, page: Page)
    ensures
        screen_of(final(state)@) == shown(screen_of(old(state)@), page),
        final(state)@ == (AppView {
            ui: final(state)@.ui,
            fx: final(state)@.fx,
            ..old(state)@
        }),
{
    if state.ui.current_page != page {
        state.ui.current_page = page;
        state.fx.start_transition();
        state.ui.scroll_offset = 0;
    }
}

/// Applies an action to what is on screen, and hands out what it asks of
/// the poller, if anything. Nothing else of the state changes.
pub fn apply_action(state: &mut AppState, action: Action) -> (command: Option<GithubCommand>)
    ensures
        screen_of(final(state)@) == applied(screen_of(old(state)@), action),
        final(state)@ == (AppView {
            ui: final(state)@.ui,
            fx: final(state)@.fx,
            running: final(state)@.running,
            ..old(state)@
        }),
        command == command_of(action),
{
    match action {
        Action::Quit => {
            state.running = false;
            None
        },
        Action::RefreshGithub => Some(GithubCommand::Refresh),
        Action::NextPage => {
            show_page(state, state.ui.current_page.next());
            None
        },
        Action::PrevPage => {
            show_page(state, state.ui.current_page.prev());
            None
        },
        Action::GoToPage(index) => {
            show_page(state, Page::from_index(index));
            None
        },
        Action::CycleFocus => {
            state.ui.focus_area = state.ui.focus_area.next();
            None
        },
        Action::ToggleHelp => {
            state.ui.show_help_overlay = !state.ui.show_help_overlay;
            None
        },
        Action::TogglePause => {
            state.fx.toggle_pause();
            None
        },
        Action::ScrollUp => {
            state.ui.scroll_offset = state.ui.scroll_offset.saturating_sub(1);
            None
        },
        Action::ScrollDown => {
            state.ui.scroll_offset = state.ui.scroll_offset.saturating_add(1);
            None
        },
        Action::SelectNext => {
            state.ui.selected_index = state.ui.selected_index.saturating_add(1);
            None
        },
        Action::SelectPrev => {
            state.ui.selected_index = state.ui.selected_index.saturating_sub(1);
            None
        },
        Action::Nothing => None,
    }
}

/// Applies every queued action, in order, and hands out what they ask of
/// the poller. An action to quit ends the loop but not the frame: the
/// actions behind it are applied as well.
pub fn drain_actions(state: &mut AppState, queue: &mut ActionQueue) -> (commands: Vec<
    GithubCommand,
>)
    requires
        old(queue).well_formed(),
    ensures
        final(queue).well_formed(),
        final(queue)@ == Seq::<Action>::empty(),
        screen_of(final(state)@) == applied_all(screen_of(old(state)@), old(queue)@),
        final(state)@ == (AppView {
            ui: final(state)@.ui,
            fx: final(state)@.fx,
            running: final(state)@.running,
            ..old(state)@
        }),
        commands@ == commands_of(old(queue)@),
{
    let ghost start = state@;
    let ghost waiting = queue@;
    let ghost mut done: Seq<Action> = Seq::empty();
    let mut commands: Vec<GithubCommand> = Vec::new();
    let n = queue.len();
    let mut i: usize = 0;
    assert(waiting.skip(0) =~= waiting);
    while i < n
        invariant
            i <= n,
            n == waiting.len(),
            done == waiting.take(i as int),
            queue.well_formed(),
            queue@ == waiting.skip(i as int),
            screen_of(state@) == applied_all(screen_of(start), done),
            state@ == (AppView {
                ui: state@.ui,
                fx: state@.fx,
                running: state@.running,
                ..start
            }),
            commands@ == commands_of(done),
        decreases n - i,
    {
        let action = match queue.try_recv() {
            Some(action) => action,
            None => Action::Nothing,
        };
        proof {
            let next = waiting.take(i + 1);
            assert(next.drop_last() =~= done);
            assert(next.last() == action);
            assert(waiting.skip(i as int).drop_first() =~= waiting.skip(i + 1));
            done = next;
        }
        match apply_action(state, action) {
            Some(command) => {
                commands.push(command);
            },
            None => {},
        }
        i += 1;
    }
    assert(waiting.take(i as int) =~= waiting);
    assert(waiting.skip(i as int) =~= Seq::<Action>::empty());
    commands
}

/// Takes in the latest snapshots of the pollers, where there are new
/// ones: each replaces what was held, whatever was published in between.
pub fn merge_snapshots(state: &mut AppState, github: Option<GithubState>, system: Option<SystemState>)
    ensures
        final(state)@ == (AppView {
            github: match github {
                Some(snapshot) => snapshot@,
                None => old(state)@.github,
            },
            system: match system {
                Some(snapshot) => snapshot@,
                None => old(state)@.system,
            },
            ..old(state)@
        }),
{
    match github {
        Some(snapshot) => {
            state.github = snapshot;
        },
        None => {},
    }
    match system {
        Some(snapshot) => {
            state.system = snapshot;
        },
        None => {},
    }
}

/// What an optional snapshot of the service's data stands for.
pub open spec fn opt_state(s: Option<GithubState>) -> Option<crate::github::models::StateView> {
    match s {
        Some(s) => Some(s@),
        None => None,
    }
}

/// What an optional snapshot of the machine's metrics stands for.
pub open spec fn opt_system(s: Option<SystemState>) -> Option<crate::system::SystemView> {
    match s {
        Some(s) => Some(s@),
        None => None,
    }
}

/// Runs a frame up to the drawing: queues the actions of the events that
/// arrived, applies all that is queued, takes in the new snapshots and
/// counts the frame. It hands out what is to be sent to the poller.
pub fn run_frame(
    state: &mut AppState,
    queue: &mut ActionQueue,
    events: &Vec<TerminalEvent>,
    github: Option<GithubState>,
    system: Option<SystemState>,
) -> (commands: Vec<GithubCommand>)
    requires
        old(queue).well_formed(),
        old(state)@.fx.frame_count < u64::MAX,
    ensures
        final(queue).well_formed(),
        final(queue)@ == Seq::<Action>::empty(),
        final(state)@ == frame_result(
            old(state)@,
            old(queue)@,
            events@,
            opt_state(github),
            opt_system(system),
        ),
        commands@ == commands_of(queued(old(queue)@, events@)),
{
    enqueue_inputs(queue, events);
    let commands = drain_actions(state, queue);
    proof {
        lemma_frames_keep_count(screen_of(old(state)@), queued(old(queue)@, events@));
    }
    merge_snapshots(state, github, system);
    state.fx.tick();
    commands
}

/// No action changes the count of frames.
pub proof fn lemma_frames_keep_count(screen: Screen, actions: Seq<Action>)
    ensures
        applied_all(screen, actions).fx.frame_count == screen.fx.frame_count,
    decreases actions.len(),
{
    if actions.len() > 0 {
        lemma_frames_keep_count(screen, actions.drop_last());
    }
}

/// How long to sleep at the end of a frame that took `elapsed_nanos`
/// nanoseconds so far: the rest of the time that a frame may take, and
/// not at all where that time is used up.
pub fn frame_sleep_nanos(elapsed_nanos: u128) -> (r: Option<u64>)
    ensures
        elapsed_nanos < FRAME_NANOS ==> r == Some((FRAME_NANOS - elapsed_nanos) as u64),
        elapsed_nanos >= FRAME_NANOS ==> r is None,
{
    if elapsed_nanos < FRAME_NANOS as u128 {
        Some(FRAME_NANOS - elapsed_nanos as u64)
    } else {
        None
    }
}

} // verus!
