//! The controller: it owns the shared state, turns input events into
//! actions, processes the actions of the bus one by one, and keeps every
//! component's snapshot of the state current.

use vstd::prelude::*;
use ratatui::buffer::Buffer;
use crate::action::{action_view, action_views, Action, ActionView};
use crate::components::chat_window::{
    available_width, chat_line_views, log_lines, max_scroll, resolved_offset, scroll_after_key,
    selected_line, ChatView, ChatWindow, ScrollTarget,
};
use crate::components::dialog::{dialog_emits, Dialog, DialogState, DialogType};
use crate::components::input::{input_emits, Input};
use crate::editor::{buffer_area, buffer_cells, end_of, inserted_lines};
use crate::layout::Rect;
use crate::key::KeyEvent;
use crate::keymap::KeyBindings;
use crate::state::{
    changes_state, initial_state, request_of, step, AppState, AppStateView, ChatMessage,
    ChatMessageView, Mode,
};

verus! {

/// What the terminal delivers.
#[derive(Debug, Clone, Copy, PartialEq, Eq, Structural)]
pub enum Event {
    Quit,
    Tick,
    Render,
    Resize(u16, u16),
    Key(KeyEvent),
    Suspend,
    Resume,
}

/// What the controller asks of its surroundings once it has processed an
/// action.
#[derive(Debug, Clone, PartialEq, Eq)]
pub enum Effect {
    /// Nothing.
    Nothing,
    /// Clear the terminal.
    ClearScreen,
    /// Resize the terminal to so many columns and rows, then redraw.
    Resize(u16, u16),
    /// Redraw.
    Render,
    /// Redraw, then start one request that carries these messages.
    Request(Vec<ChatMessage>),
}

/// An [`Effect`] in contracts.
pub enum EffectView {
    Nothing,
    ClearScreen,
    Resize(u16, u16),
    Render,
    Request(Seq<ChatMessageView>),
}

impl View for Effect {
    type V = EffectView;

    open spec fn view(&self) -> EffectView {
        match self {
            Effect::Nothing => EffectView::Nothing,
            Effect::ClearScreen => EffectView::ClearScreen,
            Effect::Resize(w, h) => EffectView::Resize(*w, *h),
            Effect::Render => EffectView::Render,
            Effect::Request(messages) => EffectView::Request(
                messages@.map_values(|m: ChatMessage| m@),
            ),
        }
    }
}

/// What is asked of the surroundings for an action, given the state that
/// the action has led to.
pub open spec fn effect_of(after: AppStateView, action: ActionView) -> EffectView {
    match action {
        ActionView::ClearScreen => EffectView::ClearScreen,
        ActionView::Resize(w, h) => EffectView::Resize(w, h),
        ActionView::Render => EffectView::Render,
        ActionView::Error(_) => EffectView::Render,
        ActionView::MessageReceived(_) => EffectView::Render,
        ActionView::SendMessage(_) => EffectView::Request(request_of(after)),
        _ => EffectView::Nothing,
    }
}

/// Whether the controller is to go on, to suspend or to stop.
#[derive(Debug, Clone, Copy, PartialEq, Eq, Structural)]
pub enum RunState {
    Running,
    Suspending,
    Quitting,
}

/// What a key leads to once the components were asked: the actions of the
/// first component that claims it, or nothing where none does.
pub open spec fn claimed_actions(
    input_focused: bool,
    input_text: Seq<char>,
    dialog_visible: bool,
    dialog_focused: bool,
    dialog_kind: DialogType,
    dialog_text: Seq<char>,
    key: KeyEvent,
) -> Seq<ActionView> {
    match input_emits(input_focused, input_text, key) {
        Some(action) => seq![action],
        None => dialog_emits(dialog_visible, dialog_focused, dialog_kind, dialog_text, key),
    }
}

/// What the global key bindings make of a key that no component claimed:
/// the action bound to the key alone, else the action bound to the keys
/// pressed since the last tick, this one included.
pub open spec fn bound_action(
    table: Option<Map<Seq<KeyEvent>, ActionView>>,
    chord: Seq<KeyEvent>,
    key: KeyEvent,
) -> Option<ActionView> {
    match table {
        None => None,
        Some(table) => if table.contains_key(seq![key]) {
            Some(table[seq![key]])
        } else if table.contains_key(chord.push(key)) {
            Some(table[chord.push(key)])
        } else {
            None
        },
    }
}

/// The controller and the components it drives.
pub struct App {
    keybindings: KeyBindings,
    should_quit: bool,
    should_suspend: bool,
    mode: Mode,
    last_tick_key_events: Vec<KeyEvent>,
    state: AppState,
    chat_window: ChatWindow,
    input: Input,
    dialog: Dialog,
}

impl App {
    /// The shared state.
    pub closed spec fn state(&self) -> AppStateView {
        self.state@
    }

    /// Whether a quit was asked for.
    pub closed spec fn quitting(&self) -> bool {
        self.should_quit
    }

    /// Whether a suspension was asked for.
    pub closed spec fn suspending(&self) -> bool {
        self.should_suspend
    }

    /// The mode whose key bindings apply.
    pub closed spec fn mode(&self) -> Mode {
        self.mode
    }

    /// The keys pressed since the last tick that no component claimed.
    pub closed spec fn chord(&self) -> Seq<KeyEvent> {
        self.last_tick_key_events@
    }

    /// The table of key bindings of a mode, if there is one.
    pub closed spec fn table(&self, mode: Mode) -> Option<Map<Seq<KeyEvent>, ActionView>> {
        self.keybindings.table(mode)
    }

    /// The chat log.
    pub closed spec fn chat_window(&self) -> ChatWindow {
        self.chat_window
    }

    /// The input box.
    pub closed spec fn input(&self) -> Input {
        self.input
    }

    /// The dialog.
    pub closed spec fn dialog(&self) -> Dialog {
        self.dialog
    }

    /// Whether every component that keeps a snapshot of the state holds
    /// the current one. A new controller is so, and every method keeps it
    /// so: no component ever sees a state that is out of date.
    pub open spec fn snapshots_agree(&self) -> bool {
        &&& self.chat_window().state() == Some(self.state())
        &&& self.dialog().state() == Some(self.state())
    }

    /// A controller with the given key bindings, an empty conversation, a
    /// blank input box that has the focus, and a hidden dialog.
    pub fn new(keybindings: KeyBindings) -> (app: App)
        ensures
            app.state() == initial_state(),
            app.snapshots_agree(),
            !app.quitting(),
            !app.suspending(),
            app.mode() == Mode::Home,
            app.chord() == Seq::<KeyEvent>::empty(),
            forall|mode: Mode| app.table(mode) == keybindings.table(mode),
            app.input().is_blank(),
            app.input().focused(),
            app.dialog().phase() == DialogState::Hidden,
            app.dialog().focused(),
            app.dialog().is_blank(),
            app.chat_window().scroll() == ScrollTarget::Offset(0),
    {
        let state = AppState::default();
        let mut chat_window = ChatWindow::new();
        chat_window.register_state_handler(state.snapshot());
        let mut dialog = Dialog::new();
        dialog.register_state_handler(state.snapshot());
        App {
            keybindings,
            should_quit: false,
            should_suspend: false,
            mode: Mode::Home,
            last_tick_key_events: Vec::new(),
            state,
            chat_window,
            input: Input::new(),
            dialog,
        }
    }

    /// Whether the flags, the mode and the key bindings are those of
    /// `other`.
    pub open spec fn same_control(&self, other: &App) -> bool {
        &&& self.quitting() == other.quitting()
        &&& self.suspending() == other.suspending()
        &&& self.mode() == other.mode()
        &&& forall|mode: Mode| self.table(mode) == other.table(mode)
    }

    /// Processes one action of the bus at the level of the controller. A
    /// tick empties the chord buffer; quit, suspend and resume set the run
    /// flags; a sent message, an answer, a failure and a new system prompt
    /// change the state, and every component gets the new snapshot. The
    /// result says what is to be done outside: clear, resize, redraw, or
    /// redraw and start a request.
    pub fn handle_action(&mut self, action: &Action) -> (effect: Effect)
        ensures
            final(self).state() == step(old(self).state(), action@),
            effect@ == effect_of(final(self).state(), action@),
            old(self).snapshots_agree() ==> final(self).snapshots_agree(),
            final(self).quitting() == (old(self).quitting() || action@ is Quit),
            final(self).suspending() == (match action@ {
                ActionView::Suspend => true,
                ActionView::Resume => false,
                _ => old(self).suspending(),
            }),
            final(self).chord() == (if action@ is Tick {
                Seq::<KeyEvent>::empty()
            } else {
                old(self).chord()
            }),
            final(self).mode() == old(self).mode(),
            forall|mode: Mode| final(self).table(mode) == old(self).table(mode),
            final(self).input() == old(self).input(),
            changes_state(action@) ==> final(self).chat_window().state() == Some(
                final(self).state(),
            ) && final(self).dialog().state() == Some(final(self).state()),
            !changes_state(action@) ==> final(self).chat_window() == old(self).chat_window()
                && final(self).dialog() == old(self).dialog(),
            final(self).chat_window().scroll() == old(self).chat_window().scroll(),
            final(self).dialog().phase() == old(self).dialog().phase(),
            final(self).dialog().kind() == old(self).dialog().kind(),
            final(self).dialog().focused() == old(self).dialog().focused(),
            final(self).dialog().lines() == old(self).dialog().lines(),
            final(self).dialog().is_blank() == old(self).dialog().is_blank(),
            final(self).dialog().cursor_position() == old(self).dialog().cursor_position(),
    {
        let changed = transition(&mut self.state, &mut self.chat_window, &mut self.dialog, action);
        match action {
            Action::Tick => {
                self.last_tick_key_events.clear();
                Effect::Nothing
            },
            Action::Quit => {
                self.should_quit = true;
                Effect::Nothing
            },
            Action::Suspend => {
                self.should_suspend = true;
                Effect::Nothing
            },
            Action::Resume => {
                self.should_suspend = false;
                Effect::Nothing
            },
            Action::ClearScreen => Effect::ClearScreen,
            Action::Resize(w, h) => Effect::Resize(*w, *h),
            Action::Render => Effect::Render,
            Action::Error(_) => Effect::Render,
            Action::MessageReceived(_) => Effect::Render,
            Action::SendMessage(_) => Effect::Request(self.state.request_messages()),
            _ => Effect::Nothing,
        }
    }

    /// Offers an action of the bus to every component, in the order chat
    /// log, input box, dialog, and gives what they emit in answer, in that
    /// order: the chat log asks for a render on a tick while an answer is
    /// awaited, and the dialog answers the requests to show or hide it. Each
    /// component goes by its snapshot of the state, which is the state
    /// itself.
    pub fn update_components(&mut self, action: &Action) -> (follow_ups: Vec<Action>)
        ensures
            action_views(follow_ups@) == follow_ups_of(old(self).chat_window().awaiting(), action@),
            final(self).state() == old(self).state(),
            old(self).snapshots_agree() ==> final(self).snapshots_agree(),
            final(self).same_control(old(self)),
            final(self).chord() == old(self).chord(),
            final(self).input() == old(self).input(),
            final(self).chat_window() == old(self).chat_window(),
            match action@ {
                ActionView::ShowDialog(content) => {
                    &&& final(self).dialog().phase() == DialogState::VisibleGeneric
                    &&& final(self).dialog().focused()
                    &&& final(self).dialog().lines() == inserted_lines(content)
                    &&& final(self).dialog().cursor_position() == end_of(inserted_lines(content))
                },
                ActionView::ShowSystemPromptDialog => {
                    &&& final(self).dialog().phase() == DialogState::VisibleSystemPrompt
                    &&& final(self).dialog().focused()
                    &&& final(self).dialog().lines() == inserted_lines(
                        old(self).dialog().known_prompt(),
                    )
                    &&& final(self).dialog().cursor_position() == end_of(
                        inserted_lines(old(self).dialog().known_prompt()),
                    )
                },
                ActionView::HideDialog => {
                    &&& final(self).dialog().phase() == DialogState::Hidden
                    &&& !final(self).dialog().focused()
                    &&& final(self).dialog().is_blank()
                },
                _ => final(self).dialog() == old(self).dialog(),
            },
    {
        let mut follow_ups: Vec<Action> = Vec::new();
        if let Some(next) = self.chat_window.update(action) {
            follow_ups.push(next);
        }
        if let Some(next) = self.input.update(action) {
            follow_ups.push(next);
        }
        if let Some(next) = self.dialog.update(action) {
            follow_ups.push(next);
        }
        assert(action_views(follow_ups@) =~= follow_ups_of(
            old(self).chat_window().awaiting(),
            action@,
        ));
        follow_ups
    }

    /// Offers a key to the components, in the order chat log, input box,
    /// dialog. The chat log scrolls and claims nothing. The first component
    /// that emits an action claims the key, and no later one sees it.
    pub fn offer_key(&mut self, key: KeyEvent) -> (claimed: Vec<Action>)
        ensures
            action_views(claimed@) == claimed_actions(
                old(self).input().focused(),
                old(self).input().text(),
                old(self).dialog().visible(),
                old(self).dialog().focused(),
                old(self).dialog().kind(),
                old(self).dialog().text(),
                key,
            ),
            final(self).state() == old(self).state(),
            old(self).snapshots_agree() ==> final(self).snapshots_agree(),
            final(self).same_control(old(self)),
            final(self).chord() == old(self).chord(),
            final(self).chat_window().scroll() == scroll_after_key(
                old(self).chat_window().scroll(),
                key.code,
            ),
            final(self).input().follows(old(self).input(), key),
            input_emits(old(self).input().focused(), old(self).input().text(), key) is None
                ==> final(self).dialog().follows(old(self).dialog(), key),
            input_emits(old(self).input().focused(), old(self).input().text(), key) is Some
                ==> final(self).dialog() == old(self).dialog(),
    {
        let _ = self.chat_window.handle_key_event(key);
        match self.input.handle_key_event(key) {
            Some(action) => {
                let claimed = vec![action];
                assert(action_views(claimed@) =~= seq![action@]);
                claimed
            },
            None => self.dialog.handle_key_event(key),
        }
    }

    /// Resolves a key that no component claimed against the key bindings of
    /// the mode: the key joins the chord buffer, and the action bound to
    /// the key alone, or else to the whole chord, is the result.
    pub fn handle_key_event(&mut self, key: KeyEvent) -> (action: Option<Action>)
        ensures
            action_view(action) == bound_action(
                old(self).table(old(self).mode()),
                old(self).chord(),
                key,
            ),
            final(self).chord() == old(self).chord().push(key),
            final(self).state() == old(self).state(),
            old(self).snapshots_agree() ==> final(self).snapshots_agree(),
            final(self).same_control(old(self)),
            final(self).input() == old(self).input(),
            final(self).dialog() == old(self).dialog(),
            final(self).chat_window() == old(self).chat_window(),
    {
        self.last_tick_key_events.push(key);
        match self.keybindings.get(self.mode) {
            None => None,
            Some(table) => {
                let single = vec![key];
                assert(single@ =~= seq![key]);
                match table.get(&single) {
                    Some(action) => Some(action),
                    None => table.get(&self.last_tick_key_events),
                }
            },
        }
    }

    /// Turns an input event into the actions to put on the bus, in order.
    /// Quit, tick, render and resize become the action of the same name. A
    /// key goes to the components first; only a key that none of them
    /// claims is looked up in the key bindings. Nothing else leads to an
    /// action.
    pub fn handle_event(&mut self, event: Event) -> (actions: Vec<Action>)
        ensures
            final(self).state() == old(self).state(),
            old(self).snapshots_agree() ==> final(self).snapshots_agree(),
            final(self).same_control(old(self)),
            match event {
                Event::Key(key) => {
                    let claim = claimed_actions(
                        old(self).input().focused(),
                        old(self).input().text(),
                        old(self).dialog().visible(),
                        old(self).dialog().focused(),
                        old(self).dialog().kind(),
                        old(self).dialog().text(),
                        key,
                    );
                    &&& action_views(actions@) == routed(
                        claim,
                        old(self).table(old(self).mode()),
                        old(self).chord(),
                        key,
                    )
                    &&& final(self).chord() == (if claim.len() > 0 {
                        old(self).chord()
                    } else {
                        old(self).chord().push(key)
                    })
                    &&& final(self).chat_window().scroll()
                        == scroll_after_key(
                        old(self).chat_window().scroll(),
                        key.code,
                    )
                    &&& final(self).input().follows(old(self).input(), key)
                    &&& input_emits(old(self).input().focused(), old(self).input().text(), key)
                        is None ==> final(self).dialog().follows(old(self).dialog(), key)
                    &&& input_emits(old(self).input().focused(), old(self).input().text(), key)
                        is Some ==> final(self).dialog() == old(self).dialog()
                },
                _ => {
                    &&& action_views(actions@) == event_actions(event)
                    &&& final(self).chord() == old(self).chord()
                    &&& final(self).input() == old(self).input()
                    &&& final(self).dialog() == old(self).dialog()
                    &&& final(self).chat_window() == old(self).chat_window()
                },
            },
    {
        let mut actions: Vec<Action> = Vec::new();
        match event {
            Event::Quit => {
                actions.push(Action::Quit);
                assert(action_views(actions@) =~= seq![ActionView::Quit]);
            },
            Event::Tick => {
                actions.push(Action::Tick);
                assert(action_views(actions@) =~= seq![ActionView::Tick]);
            },
            Event::Render => {
                actions.push(Action::Render);
                assert(action_views(actions@) =~= seq![ActionView::Render]);
            },
            Event::Resize(w, h) => {
                actions.push(Action::Resize(w, h));
                assert(action_views(actions@) =~= seq![ActionView::Resize(w, h)]);
            },
            Event::Key(key) => {
                let claimed = self.offer_key(key);
                if claimed.len() > 0 {
                    assert(claimed@.len() == action_views(claimed@).len());
                    return claimed;
                }
                assert(claimed@.len() == action_views(claimed@).len());
                if let Some(action) = self.handle_key_event(key) {
                    actions.push(action);
                    assert(action_views(actions@) =~= seq![action@]);
                } else {
                    assert(action_views(actions@) =~= Seq::empty());
                }
            },
            _ => {
                assert(action_views(actions@) =~= Seq::empty());
            },
        }
        actions
    }

    /// Whether the loop is to go on, to suspend or to stop: a suspension
    /// that was asked for comes before a quit.
    pub fn run_state(&self) -> (run: RunState)
        ensures
            run == (if self.suspending() {
                RunState::Suspending
            } else if self.quitting() {
                RunState::Quitting
            } else {
                RunState::Running
            }),
    {
        if self.should_suspend {
            RunState::Suspending
        } else if self.should_quit {
            RunState::Quitting
        } else {
            RunState::Running
        }
    }

    /// The shared state.
    pub fn app_state(&self) -> (state: &AppState)
        ensures
            state@ == self.state(),
    {
        &self.state
    }

    /// The chat log.
    pub fn chat_log(&self) -> (window: &ChatWindow)
        ensures
            *window == self.chat_window(),
    {
        &self.chat_window
    }

    /// The input box.
    pub fn input_box(&self) -> (input: &Input)
        ensures
            *input == self.input(),
    {
        &self.input
    }

    /// The dialog.
    pub fn dialog_box(&self) -> (dialog: &Dialog)
        ensures
            *dialog == self.dialog(),
    {
        &self.dialog
    }

    /// Draws the text of the input box into the cells that `buffer` has
    /// for `area`, the inside of its frame, and says whether it did; it
    /// does not, and nothing changes, where the box cannot be drawn there.
    /// The text, the cursor and the focus of the box stay; its view is
    /// scrolled to the cursor.
    pub fn render_input(&mut self, area: Rect, buffer: &mut Buffer) -> (drawn: bool)
        ensures
            drawn == old(self).input().can_render(area, *old(buffer)),
            !drawn ==> final(self).input() == old(self).input() && *final(buffer) == *old(buffer),
            drawn ==> final(self).input().view_height() == area.height,
            final(self).input().lines() == old(self).input().lines(),
            final(self).input().cursor_position() == old(self).input().cursor_position(),
            final(self).input().is_blank() == old(self).input().is_blank(),
            final(self).input().focused() == old(self).input().focused(),
            buffer_area(*final(buffer)) == buffer_area(*old(buffer)),
            buffer_cells(*final(buffer)) == buffer_cells(*old(buffer)),
            final(self).state() == old(self).state(),
            old(self).snapshots_agree() ==> final(self).snapshots_agree(),
            final(self).same_control(old(self)),
            final(self).chord() == old(self).chord(),
            final(self).dialog() == old(self).dialog(),
            final(self).chat_window() == old(self).chat_window(),
    {
        self.input.render(area, buffer)
    }

    /// Draws the text of the dialog into the cells that `buffer` has for
    /// `area`, the inside of its frame, and says whether it did; it does
    /// not, and nothing changes, where the dialog is hidden or cannot be
    /// drawn there. The text, the cursor and the state of the dialog stay;
    /// its view is scrolled to the cursor.
    pub fn render_dialog(&mut self, area: Rect, buffer: &mut Buffer) -> (drawn: bool)
        ensures
            drawn == old(self).dialog().can_render(area, *old(buffer)),
            !drawn ==> final(self).dialog() == old(self).dialog() && *final(buffer) == *old(
                buffer,
            ),
            drawn ==> final(self).dialog().view_height() == area.height,
            final(self).dialog().follows_draw(old(self).dialog()),
            buffer_area(*final(buffer)) == buffer_area(*old(buffer)),
            buffer_cells(*final(buffer)) == buffer_cells(*old(buffer)),
            final(self).state() == old(self).state(),
            old(self).snapshots_agree() ==> final(self).snapshots_agree(),
            final(self).same_control(old(self)),
            final(self).chord() == old(self).chord(),
            final(self).input() == old(self).input(),
            final(self).chat_window() == old(self).chat_window(),
    {
        self.dialog.render(area, buffer)
    }

    /// Lays the chat log out for an inner area of `width` columns and
    /// `height` rows, at a time given in milliseconds, and settles its
    /// scroll offset within what the content allows. The log shows its
    /// snapshot of the state, which is the state itself.
    pub fn draw_chat(&mut self, width: u16, height: u16, millis: u128) -> (view: ChatView)
        ensures
            final(self).state() == old(self).state(),
            old(self).snapshots_agree() ==> final(self).snapshots_agree(),
            final(self).same_control(old(self)),
            final(self).chord() == old(self).chord(),
            final(self).input() == old(self).input(),
            final(self).dialog() == old(self).dialog(),
            old(self).chat_window().state() is None ==> view.lines@.len() == 0 && view.selected
                is None && final(self).chat_window() == old(self).chat_window(),
            old(self).chat_window().state() is Some ==> ({
                let lines = log_lines(
                    old(self).chat_window().state().unwrap(),
                    available_width(width),
                    millis,
                );
                let offset = resolved_offset(
                    old(self).chat_window().scroll(),
                    lines.len(),
                    height as nat,
                );
                &&& chat_line_views(view.lines@) == lines
                &&& final(self).chat_window().scroll()
                    == ScrollTarget::Offset(offset as usize)
                &&& offset <= max_scroll(lines.len(), height as nat)
                &&& match view.selected {
                    Some(line) => selected_line(
                        offset,
                        lines.len(),
                        height as nat,
                    ) == Some(line as nat),
                    None => selected_line(
                        offset,
                        lines.len(),
                        height as nat,
                    ) is None,
                }
            }),
    {
        match self.chat_window.draw(width, height, millis) {
            Some(view) => view,
            None => ChatView { lines: Vec::new(), selected: None },
        }
    }
}

/// The actions to put on the bus once a suspension is over: the run goes
/// on, and the screen is cleared.
pub fn resume_actions() -> (actions: Vec<Action>)
    ensures
        action_views(actions@) == seq![ActionView::Resume, ActionView::ClearScreen],
{
    let actions = vec![Action::Resume, Action::ClearScreen];
    assert(action_views(actions@) =~= seq![ActionView::Resume, ActionView::ClearScreen]);
    actions
}

/// What the components emit in answer to an action of the bus, given
/// whether an answer is awaited.
pub open spec fn follow_ups_of(is_loading: bool, action: ActionView) -> Seq<ActionView> {
    match action {
        ActionView::Tick => if is_loading {
            seq![ActionView::Render]
        } else {
            Seq::empty()
        },
        ActionView::ShowDialog(_) | ActionView::ShowSystemPromptDialog => seq![ActionView::Render],
        ActionView::HideDialog => seq![ActionView::FocusInput],
        _ => Seq::empty(),
    }
}

/// The actions that an event other than a key becomes.
pub open spec fn event_actions(event: Event) -> Seq<ActionView> {
    match event {
        Event::Quit => seq![ActionView::Quit],
        Event::Tick => seq![ActionView::Tick],
        Event::Render => seq![ActionView::Render],
        Event::Resize(w, h) => seq![ActionView::Resize(w, h)],
        _ => Seq::empty(),
    }
}

/// The actions that a key becomes: what the components claimed it for, or
/// else what the key bindings make of it.
pub open spec fn routed(
    claim: Seq<ActionView>,
    table: Option<Map<Seq<KeyEvent>, ActionView>>,
    chord: Seq<KeyEvent>,
    key: KeyEvent,
) -> Seq<ActionView> {
    if claim.len() > 0 {
        claim
    } else {
        match bound_action(table, chord, key) {
            Some(action) => seq![action],
            None => Seq::empty(),
        }
    }
}

/// Applies an action to the state and, where that changes it, hands the
/// new snapshot to the components that keep one.
fn transition(
    state: &mut AppState,
    chat_window: &mut ChatWindow,
    dialog: &mut Dialog,
    action: &Action,
) -> (changed: bool)
    ensures
        final(state)@ == step(old(state)@, action@),
        changed == changes_state(action@),
        changed ==> final(chat_window).state() == Some(final(state)@),
        changed ==> final(dialog).state() == Some(final(state)@),
        !changed ==> *final(chat_window) == *old(chat_window) && *final(dialog) == *old(dialog),
        final(chat_window).scroll() == old(chat_window).scroll(),
        final(dialog).phase() == old(dialog).phase(),
        final(dialog).kind() == old(dialog).kind(),
        final(dialog).focused() == old(dialog).focused(),
        final(dialog).lines() == old(dialog).lines(),
        final(dialog).is_blank() == old(dialog).is_blank(),
        final(dialog).cursor_position() == old(dialog).cursor_position(),
{
    let changed = state.apply(action);
    if changed {
        chat_window.register_state_handler(state.snapshot());
        dialog.register_state_handler(state.snapshot());
    }
    changed
}

} // verus!
