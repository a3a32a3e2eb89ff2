//! The modal dialog in which a text is edited.

use vstd::prelude::*;
use ratatui::buffer::Buffer;
use crate::action::{action_view, action_views, Action, ActionView};
use crate::editor::{
    buffer_area, buffer_cells, can_draw, can_draw_into, draw_editor, editor_after_key,
    editor_cursor, editor_cursor_position, holds_area,
    editor_view_height, MAX_VIEW_HEIGHT,
    editor_insert_str, editor_is_blank, editor_lines, editor_text_lines, end_of, forward_key,
    inserted_lines, line_views, new_editor, split_lines, without_return, Editor,
};
use crate::key::{KeyCode, KeyEvent, KeyModifiers};
use crate::layout::Rect;
use crate::state::{AppState, AppStateView};
use crate::text::{join_lines, joined};

verus! {

/// What the dialog edits.
#[derive(Debug, Clone, Copy, PartialEq, Eq, Structural)]
pub enum DialogType {
    /// The system prompt: saving sets it.
    SystemPrompt,
    /// Any text: saving only closes the dialog.
    Generic,
}

impl Default for DialogType {
    fn default() -> (kind: DialogType)
        ensures
            kind == DialogType::SystemPrompt,
    {
        DialogType::SystemPrompt
    }
}

/// The states of the dialog.
#[derive(Debug, Clone, Copy, PartialEq, Eq, Structural)]
pub enum DialogState {
    Hidden,
    VisibleSystemPrompt,
    VisibleGeneric,
}

/// The widest a dialog is drawn.
pub const MAX_DIALOG_WIDTH: u16 = 80;

/// The highest a dialog is drawn.
pub const MAX_DIALOG_HEIGHT: u16 = 30;

/// The smaller of two sizes.
pub open spec fn smaller(a: u16, b: u16) -> u16 {
    if a <= b {
        a
    } else {
        b
    }
}

/// Where a dialog is drawn in an area: as large as the area but for the
/// two maxima, and centred by the area's size.
pub open spec fn dialog_area(area: Rect) -> Rect {
    let width = smaller(area.width, MAX_DIALOG_WIDTH);
    let height = smaller(area.height, MAX_DIALOG_HEIGHT);
    Rect {
        x: ((area.width - width) / 2) as u16,
        y: ((area.height - height) / 2) as u16,
        width,
        height,
    }
}

/// What the dialog emits for a key, in order: nothing while it is hidden or
/// without the focus; `Esc` asks to hide it; control with `s` asks to hide
/// it, after asking to set the system prompt to the text where that is
/// what is edited.
pub open spec fn dialog_emits(
    visible: bool,
    focused: bool,
    kind: DialogType,
    text: Seq<char>,
    key: KeyEvent,
) -> Seq<ActionView> {
    if !visible || !focused {
        Seq::empty()
    } else if key.code == KeyCode::Esc {
        seq![ActionView::HideDialog]
    } else if key.is_control_char('s') {
        match kind {
            DialogType::SystemPrompt => seq![
                ActionView::SetSystemPrompt(text),
                ActionView::HideDialog,
            ],
            DialogType::Generic => seq![ActionView::HideDialog],
        }
    } else {
        Seq::empty()
    }
}

/// What the dialog wants drawn.
#[derive(Debug, Clone, Copy, PartialEq, Eq, Structural)]
pub struct DialogView {
    /// Where the dialog goes.
    pub area: Rect,
    /// What is edited, which decides the titles.
    pub kind: DialogType,
    /// Whether the dialog has the focus, which decides the border.
    pub focused: bool,
}

impl DialogType {
    /// The title on top of the dialog.
    pub fn title(&self) -> (title: &'static str)
        ensures
            title@ == (match self {
                DialogType::SystemPrompt => "System Prompt Editor"@,
                DialogType::Generic => "Text Editor"@,
            }),
    {
        match self {
            DialogType::SystemPrompt => "System Prompt Editor",
            DialogType::Generic => "Text Editor",
        }
    }

    /// The line of hints below the dialog.
    pub fn bottom_title(&self) -> (hint: &'static str)
        ensures
            hint@ == (match self {
                DialogType::SystemPrompt => "Ctrl+Enter or Ctrl+S: Save | Esc: Cancel"@,
                DialogType::Generic => "Ctrl+Enter or Ctrl+S: Submit | Esc: Cancel"@,
            }),
    {
        match self {
            DialogType::SystemPrompt => "Ctrl+Enter or Ctrl+S: Save | Esc: Cancel",
            DialogType::Generic => "Ctrl+Enter or Ctrl+S: Submit | Esc: Cancel",
        }
    }
}

/// The modal dialog: an editor, what it edits, whether it shows and has the
/// focus, and the last state it was given.
pub struct Dialog {
    state: Option<AppState>,
    editor: Editor,
    is_visible: bool,
    is_focused: bool,
    dialog_type: DialogType,
}

impl Dialog {
    /// The editor of the dialog is always one that can page: it was never
    /// drawn into an area higher than [`MAX_VIEW_HEIGHT`].
    #[verifier::type_invariant]
    spec fn can_page(&self) -> bool {
        editor_view_height(self.editor) <= MAX_VIEW_HEIGHT
    }

    /// The lines of text in the dialog.
    pub closed spec fn lines(&self) -> Seq<Seq<char>> {
        editor_lines(self.editor)
    }

    /// The text in the dialog: its lines with line feeds between them.
    pub open spec fn text(&self) -> Seq<char> {
        joined(self.lines())
    }

    /// The height of the area that the dialog's text was last drawn into,
    /// by which its page keys go; 0 where it was not drawn since it was
    /// last shown or hidden.
    pub closed spec fn view_height(&self) -> nat {
        editor_view_height(self.editor)
    }

    /// Whether the dialog holds nothing: one empty line, with the cursor
    /// at its start.
    pub closed spec fn is_blank(&self) -> bool {
        editor_is_blank(self.editor)
    }

    /// Where the cursor stands: row and column, counted from zero.
    pub closed spec fn cursor_position(&self) -> (usize, usize) {
        editor_cursor(self.editor)
    }

    /// Whether the dialog shows.
    pub closed spec fn visible(&self) -> bool {
        self.is_visible
    }

    /// Whether the dialog has the focus.
    pub closed spec fn focused(&self) -> bool {
        self.is_focused
    }

    /// What the dialog edits.
    pub closed spec fn kind(&self) -> DialogType {
        self.dialog_type
    }

    /// The state last received, if any.
    pub closed spec fn state(&self) -> Option<AppStateView> {
        match self.state {
            Some(state) => Some(state@),
            None => None,
        }
    }

    /// The state of the dialog.
    pub open spec fn phase(&self) -> DialogState {
        if !self.visible() {
            DialogState::Hidden
        } else {
            match self.kind() {
                DialogType::SystemPrompt => DialogState::VisibleSystemPrompt,
                DialogType::Generic => DialogState::VisibleGeneric,
            }
        }
    }

    /// The system prompt of the state last received; empty where none was.
    pub open spec fn known_prompt(&self) -> Seq<char> {
        match self.state() {
            Some(state) => state.system_prompt,
            None => Seq::empty(),
        }
    }

    /// What the dialog holds once its editor has reacted to a key: its lines
    /// and where its cursor stands.
    pub closed spec fn after_key(&self, key: KeyEvent) -> (Seq<Seq<char>>, (usize, usize)) {
        editor_after_key(self.editor, key)
    }

    /// What is known of the dialog after it was offered a key, against the
    /// dialog from before: only its text can have changed, and that only
    /// where it shows, has the focus, and the key is neither `Esc` nor
    /// control with `s`: then the key goes to the editor, and the dialog
    /// holds what the editor made of it.
    pub open spec fn follows(&self, before: Dialog, key: KeyEvent) -> bool {
        &&& self.phase() == before.phase()
        &&& self.view_height() == before.view_height()
        &&& self.kind() == before.kind()
        &&& self.focused() == before.focused()
        &&& self.state() == before.state()
        &&& !before.visible() || !before.focused() || key.code == KeyCode::Esc
            || key.is_control_char('s') ==> *self == before
        &&& before.visible() && before.focused() && key.code != KeyCode::Esc
            && !key.is_control_char('s') ==> (self.lines(), self.cursor_position())
            == before.after_key(key)
    }

    /// A blank dialog is empty.
    pub proof fn lemma_blank_is_empty(&self)
        requires
            self.is_blank(),
        ensures
            self.text() == Seq::<char>::empty(),
            self.lines() == seq![Seq::<char>::empty()],
            self.cursor_position() == (0usize, 0usize),
    {
    }

    /// A hidden, blank dialog.
    pub fn new() -> (dialog: Dialog)
        ensures
            dialog.phase() == DialogState::Hidden,
            dialog.kind() == DialogType::SystemPrompt,
            dialog.focused(),
            dialog.is_blank(),
            dialog.view_height() == 0,
            dialog.state() is None,
    {
        Dialog {
            state: None,
            editor: new_editor(),
            is_visible: false,
            is_focused: true,
            dialog_type: DialogType::SystemPrompt,
        }
    }

    /// Fills a fresh editor with `content`.
    fn seed(&mut self, content: String)
        ensures
            final(self).lines() == inserted_lines(content@),
            final(self).cursor_position() == end_of(inserted_lines(content@)),
            final(self).view_height() == 0,
            final(self).state == old(self).state,
            final(self).is_visible == old(self).is_visible,
            final(self).is_focused == old(self).is_focused,
            final(self).dialog_type == old(self).dialog_type,
    {
        self.editor = new_editor();
        if !content.as_str().is_empty() {
            editor_insert_str(&mut self.editor, content.as_str());
        } else {
            assert(content@ =~= Seq::<char>::empty());
            assert(split_lines(content@) =~= seq![content@]);
            assert(without_return(content@) == content@);
            assert(inserted_lines(content@)[0] == without_return(split_lines(content@)[0]));
            assert(inserted_lines(content@) =~= seq![Seq::<char>::empty()]);
        }
    }

    /// Shows the dialog with `content` to edit as any text; it takes the
    /// focus.
    pub fn show(&mut self, content: String)
        ensures
            final(self).phase() == DialogState::VisibleGeneric,
            final(self).focused(),
            final(self).lines() == inserted_lines(content@),
            final(self).cursor_position() == end_of(inserted_lines(content@)),
            final(self).view_height() == 0,
            final(self).state() == old(self).state(),
    {
        self.seed(content);
        proof {
            use_type_invariant(&*self);
        }
        self.is_visible = true;
        self.is_focused = true;
        self.dialog_type = DialogType::Generic;
    }

    /// Shows the dialog with `content` to edit as the system prompt; it
    /// takes the focus.
    pub fn show_system_prompt(&mut self, content: String)
        ensures
            final(self).phase() == DialogState::VisibleSystemPrompt,
            final(self).focused(),
            final(self).lines() == inserted_lines(content@),
            final(self).cursor_position() == end_of(inserted_lines(content@)),
            final(self).view_height() == 0,
            final(self).state() == old(self).state(),
    {
        self.seed(content);
        proof {
            use_type_invariant(&*self);
        }
        self.is_visible = true;
        self.is_focused = true;
        self.dialog_type = DialogType::SystemPrompt;
    }

    /// Hides the dialog: it loses the focus and its text.
    pub fn close(&mut self)
        ensures
            final(self).phase() == DialogState::Hidden,
            !final(self).focused(),
            final(self).is_blank(),
            final(self).view_height() == 0,
            final(self).kind() == old(self).kind(),
            final(self).state() == old(self).state(),
    {
        proof {
            use_type_invariant(&*self);
        }
        self.is_visible = false;
        self.is_focused = false;
        self.editor = new_editor();
    }

    /// The text in the dialog.
    pub fn get_text(&self) -> (text: String)
        ensures
            text@ == self.text(),
    {
        let lines = editor_text_lines(&self.editor);
        join_lines(&lines)
    }

    /// The lines of text in the dialog.
    pub fn get_lines(&self) -> (lines: Vec<String>)
        ensures
            line_views(lines@) == self.lines(),
    {
        editor_text_lines(&self.editor)
    }

    /// Where the cursor stands: row and column, counted from zero.
    pub fn cursor(&self) -> (position: (usize, usize))
        ensures
            position == self.cursor_position(),
    {
        editor_cursor_position(&self.editor)
    }

    /// The state of the dialog.
    pub fn dialog_state(&self) -> (phase: DialogState)
        ensures
            phase == self.phase(),
    {
        if !self.is_visible {
            DialogState::Hidden
        } else {
            match self.dialog_type {
                DialogType::SystemPrompt => DialogState::VisibleSystemPrompt,
                DialogType::Generic => DialogState::VisibleGeneric,
            }
        }
    }

    /// Whether the dialog has the focus.
    pub fn is_focused(&self) -> (focused: bool)
        ensures
            focused == self.focused(),
    {
        self.is_focused
    }

    /// Takes a new snapshot of the state.
    pub fn register_state_handler(&mut self, state: AppState)
        ensures
            final(self).state() == Some(state@),
            final(self).view_height() == old(self).view_height(),
            final(self).phase() == old(self).phase(),
            final(self).kind() == old(self).kind(),
            final(self).focused() == old(self).focused(),
            final(self).lines() == old(self).lines(),
            final(self).is_blank() == old(self).is_blank(),
            final(self).cursor_position() == old(self).cursor_position(),
    {
        proof {
            use_type_invariant(&*self);
        }
        self.state = Some(state);
    }

    /// Reacts to a key and gives the actions to put on the bus, in order;
    /// the key is claimed exactly when there is one. A hidden dialog, or one
    /// without the focus, ignores every key. `Esc` asks to hide the dialog;
    /// control with `s` saves; every other key goes to the editor. The
    /// dialog itself hides only when the request comes back from the bus.
    pub fn handle_key_event(&mut self, key: KeyEvent) -> (actions: Vec<Action>)
        ensures
            action_views(actions@) == dialog_emits(
                old(self).visible(),
                old(self).focused(),
                old(self).kind(),
                old(self).text(),
                key,
            ),
            final(self).follows(*old(self), key),
    {
        proof {
            use_type_invariant(&*self);
        }
        let mut actions: Vec<Action> = Vec::new();
        if !self.is_visible || !self.is_focused {
            assert(action_views(actions@) =~= Seq::empty());
            return actions;
        }
        match key.code {
            KeyCode::Esc => {
                actions.push(Action::HideDialog);
                assert(action_views(actions@) =~= seq![ActionView::HideDialog]);
            },
            KeyCode::Char(c) => {
                if c == 's' && key.modifiers == KeyModifiers::control() {
                    match self.dialog_type {
                        DialogType::SystemPrompt => {
                            let text = self.get_text();
                            actions.push(Action::SetSystemPrompt(text));
                            actions.push(Action::HideDialog);
                            assert(action_views(actions@) =~= seq![
                                ActionView::SetSystemPrompt(old(self).text()),
                                ActionView::HideDialog,
                            ]);
                        },
                        DialogType::Generic => {
                            actions.push(Action::HideDialog);
                            assert(action_views(actions@) =~= seq![ActionView::HideDialog]);
                        },
                    }
                } else {
                    forward_key(&mut self.editor, key);
                    assert(action_views(actions@) =~= Seq::empty());
                }
            },
            _ => {
                forward_key(&mut self.editor, key);
                assert(action_views(actions@) =~= Seq::empty());
            },
        }
        actions
    }

    /// Reacts to an action from the bus. A request to show the dialog opens
    /// it on the given text, or on the system prompt last received, and asks
    /// for a render; a request to hide it closes it and hands the focus back
    /// to the input box. Nothing else concerns the dialog.
    pub fn update(&mut self, action: &Action) -> (follow_up: Option<Action>)
        ensures
            final(self).state() == old(self).state(),
            match action@ {
                ActionView::ShowDialog(content) => {
                    &&& final(self).phase() == DialogState::VisibleGeneric
                    &&& final(self).focused()
                    &&& final(self).lines() == inserted_lines(content)
                    &&& final(self).cursor_position() == end_of(inserted_lines(content))
                    &&& action_view(follow_up) == Some(ActionView::Render)
                },
                ActionView::ShowSystemPromptDialog => {
                    &&& final(self).phase() == DialogState::VisibleSystemPrompt
                    &&& final(self).focused()
                    &&& final(self).lines() == inserted_lines(old(self).known_prompt())
                    &&& final(self).cursor_position() == end_of(
                        inserted_lines(old(self).known_prompt()),
                    )
                    &&& action_view(follow_up) == Some(ActionView::Render)
                },
                ActionView::HideDialog => {
                    &&& final(self).phase() == DialogState::Hidden
                    &&& !final(self).focused()
                    &&& final(self).is_blank()
                    &&& final(self).kind() == old(self).kind()
                    &&& action_view(follow_up) == Some(ActionView::FocusInput)
                },
                _ => *final(self) == *old(self) && follow_up is None,
            },
    {
        match action {
            Action::ShowDialog(content) => {
                self.show(content.clone());
                Some(Action::Render)
            },
            Action::ShowSystemPromptDialog => {
                let prompt = match &self.state {
                    Some(state) => state.system_prompt.clone(),
                    None => String::new(),
                };
                self.show_system_prompt(prompt);
                Some(Action::Render)
            },
            Action::HideDialog => {
                self.close();
                Some(Action::FocusInput)
            },
            _ => None,
        }
    }

    /// What stays of a dialog when its text is drawn: everything but the
    /// view of its editor.
    pub open spec fn follows_draw(&self, before: Dialog) -> bool {
        &&& self.lines() == before.lines()
        &&& self.cursor_position() == before.cursor_position()
        &&& self.is_blank() == before.is_blank()
        &&& self.phase() == before.phase()
        &&& self.kind() == before.kind()
        &&& self.focused() == before.focused()
        &&& self.state() == before.state()
    }

    /// Whether the text of the dialog can be drawn into the cells that
    /// `buffer` has for `area`: the dialog shows, and its editor can be
    /// drawn there.
    pub closed spec fn can_render(&self, area: Rect, buffer: Buffer) -> bool {
        self.is_visible && can_draw_into(self.editor, area, buffer)
    }

    /// Draws the text of the dialog into the cells that `buffer` has for
    /// `area`, the inside of its frame, and says whether it did. The view
    /// scrolls so that the cursor shows, and its size is what the page keys
    /// go by from then on; the text, the cursor and the state of the dialog
    /// stay. A hidden dialog draws nothing; nor is anything drawn where the
    /// buffer has no cell for some place of the area, or the area or the
    /// cursor lies too far out. Nothing changes then.
    pub fn render(&mut self, area: Rect, buffer: &mut Buffer) -> (drawn: bool)
        ensures
            drawn == old(self).can_render(area, *old(buffer)),
            !drawn ==> *final(self) == *old(self) && *final(buffer) == *old(buffer),
            drawn ==> final(self).view_height() == area.height,
            final(self).follows_draw(*old(self)),
            buffer_area(*final(buffer)) == buffer_area(*old(buffer)),
            buffer_cells(*final(buffer)) == buffer_cells(*old(buffer)),
    {
        proof {
            use_type_invariant(&*self);
        }
        if !self.is_visible {
            return false;
        }
        draw_editor(&mut self.editor, area, buffer)
    }

    /// What decides whether the dialog can be drawn: it must show, the area
    /// must be inside the buffer's own, the buffer must hold a cell for each
    /// of its places, and the area and the cursor must stay within what an
    /// editor can draw and page by.
    pub proof fn lemma_can_render(&self, area: Rect, buffer: Buffer)
        ensures
            self.can_render(area, buffer) == (self.visible() && can_draw(
                self.cursor_position(),
                area,
            ) && holds_area(buffer_area(buffer), buffer_cells(buffer), area)),
    {
    }

    /// Lays the dialog out over `area`; a hidden dialog draws nothing.
    pub fn draw(&self, area: Rect) -> (view: Option<DialogView>)
        ensures
            view == (if self.visible() {
                Some(
                    DialogView {
                        area: dialog_area(area),
                        kind: self.kind(),
                        focused: self.focused(),
                    },
                )
            } else {
                None
            }),
    {
        if !self.is_visible {
            return None;
        }
        let width = if area.width <= MAX_DIALOG_WIDTH {
            area.width
        } else {
            MAX_DIALOG_WIDTH
        };
        let height = if area.height <= MAX_DIALOG_HEIGHT {
            area.height
        } else {
            MAX_DIALOG_HEIGHT
        };
        let dialog_area = Rect {
            x: (area.width - width) / 2,
            y: (area.height - height) / 2,
            width,
            height,
        };
        Some(DialogView { area: dialog_area, kind: self.dialog_type, focused: self.is_focused })
    }
}

impl Default for Dialog {
    fn default() -> (dialog: Dialog)
        ensures
            dialog.phase() == DialogState::Hidden,
            dialog.kind() == DialogType::SystemPrompt,
            dialog.focused(),
            dialog.is_blank(),
            dialog.state() is None,
    {
        Dialog::new()
    }
}

} // verus!
