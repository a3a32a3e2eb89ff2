//! The box in which the user writes a message.

use vstd::prelude::*;
use ratatui::buffer::Buffer;
use crate::action::{action_view, Action, ActionView};
use crate::editor::{
    buffer_area, buffer_cells, can_draw, can_draw_into, draw_editor, editor_after_key,
    editor_cursor, editor_cursor_position, holds_area,
    editor_view_height, MAX_VIEW_HEIGHT,
    editor_is_blank, editor_lines, editor_text_lines, forward_key, line_views, new_editor, Editor,
};
use crate::key::{KeyCode, KeyEvent, KeyModifiers};
use crate::layout::Rect;
use crate::text::{join_lines, joined, trim, trimmed};

verus! {

/// What the input box emits for a key, given whether it has the focus and
/// the text it holds: `Enter` sends the trimmed text unless that is empty,
/// control with `c` quits, and nothing else emits anything.
pub open spec fn input_emits(focused: bool, text: Seq<char>, key: KeyEvent) -> Option<ActionView> {
    if !focused {
        None
    } else if key.code == KeyCode::Enter {
        if trimmed(text).len() > 0 {
            Some(ActionView::SendMessage(trimmed(text)))
        } else {
            None
        }
    } else if key.is_control_char('c') {
        Some(ActionView::Quit)
    } else {
        None
    }
}

/// The text-entry box: an editor and whether it has the focus.
pub struct Input {
    editor: Editor,
    is_focused: bool,
}

impl Input {
    /// The editor of the box is always one that can page: it was never drawn
    /// into an area higher than [`MAX_VIEW_HEIGHT`].
    #[verifier::type_invariant]
    spec fn can_page(&self) -> bool {
        editor_view_height(self.editor) <= MAX_VIEW_HEIGHT
    }

    /// The lines of text in the box.
    pub closed spec fn lines(&self) -> Seq<Seq<char>> {
        editor_lines(self.editor)
    }

    /// The text in the box: its lines with line feeds between them.
    pub open spec fn text(&self) -> Seq<char> {
        joined(self.lines())
    }

    /// Whether the box has the focus.
    pub closed spec fn focused(&self) -> bool {
        self.is_focused
    }

    /// Where the cursor stands: row and column, counted from zero.
    pub closed spec fn cursor_position(&self) -> (usize, usize) {
        editor_cursor(self.editor)
    }

    /// The height of the area that the box was last drawn into, by which
    /// its page keys go; 0 before it was drawn.
    pub closed spec fn view_height(&self) -> nat {
        editor_view_height(self.editor)
    }

    /// Whether the box holds nothing: one empty line, with the cursor at
    /// its start.
    pub closed spec fn is_blank(&self) -> bool {
        editor_is_blank(self.editor)
    }

    /// What the box holds once its editor has reacted to a key: its lines
    /// and where its cursor stands.
    pub closed spec fn after_key(&self, key: KeyEvent) -> (Seq<Seq<char>>, (usize, usize)) {
        editor_after_key(self.editor, key)
    }

    /// What is known of the box after it was offered a key, against the box
    /// from before: the focus stays; without the focus nothing changes;
    /// `Enter` empties the box where it sends and changes nothing where it
    /// does not; `Esc` empties it; control with `c` changes nothing. Every
    /// other key goes to the editor, and the box holds what the editor made
    /// of it. An emptied box has a new editor, which was not drawn yet.
    pub open spec fn follows(&self, before: Input, key: KeyEvent) -> bool {
        &&& self.focused() == before.focused()
        &&& !before.focused() ==> *self == before
        &&& before.focused() && key.code == KeyCode::Enter ==> (if trimmed(before.text()).len()
            > 0 {
            self.is_blank() && self.view_height() == 0
        } else {
            *self == before
        })
        &&& before.focused() && key.code == KeyCode::Esc ==> self.is_blank() && self.view_height()
            == 0
        &&& before.focused() && key.is_control_char('c') ==> *self == before
        &&& before.focused() && key.code != KeyCode::Enter && key.code != KeyCode::Esc
            && !key.is_control_char('c') ==> (self.lines(), self.cursor_position())
            == before.after_key(key) && self.view_height() == before.view_height()
    }

    /// A blank box is empty.
    pub proof fn lemma_blank_is_empty(&self)
        requires
            self.is_blank(),
        ensures
            self.text() == Seq::<char>::empty(),
            self.lines() == seq![Seq::<char>::empty()],
            self.cursor_position() == (0usize, 0usize),
    {
    }

    /// A blank box that has the focus.
    pub fn new() -> (input: Input)
        ensures
            input.is_blank(),
            input.focused(),
            input.view_height() == 0,
    {
        Input { editor: new_editor(), is_focused: true }
    }

    /// Gives the box the focus or takes it away.
    pub fn set_focus(&mut self, focused: bool)
        ensures
            final(self).focused() == focused,
            final(self).view_height() == old(self).view_height(),
            final(self).lines() == old(self).lines(),
            final(self).is_blank() == old(self).is_blank(),
            final(self).cursor_position() == old(self).cursor_position(),
    {
        proof {
            use_type_invariant(&*self);
        }
        self.is_focused = focused;
    }

    /// Whether the box has the focus.
    pub fn is_focused(&self) -> (focused: bool)
        ensures
            focused == self.focused(),
    {
        self.is_focused
    }

    /// The text in the box.
    pub fn get_text(&self) -> (text: String)
        ensures
            text@ == self.text(),
    {
        let lines = editor_text_lines(&self.editor);
        join_lines(&lines)
    }

    /// The lines of text in the box.
    pub fn get_lines(&self) -> (lines: Vec<String>)
        ensures
            line_views(lines@) == self.lines(),
    {
        editor_text_lines(&self.editor)
    }

    /// Where the cursor stands: row and column, counted from zero.
    pub fn cursor(&self) -> (position: (usize, usize))
        ensures
            position == self.cursor_position(),
    {
        editor_cursor_position(&self.editor)
    }

    /// Empties the box.
    pub fn clear(&mut self)
        ensures
            final(self).is_blank(),
            final(self).view_height() == 0,
            final(self).focused() == old(self).focused(),
    {
        self.editor = new_editor();
    }

    /// Sends what was written: the trimmed text goes out as a message and
    /// the box is emptied, unless the trimmed text is empty; then nothing
    /// happens.
    pub fn submit(&mut self) -> (action: Option<Action>)
        ensures
            final(self).focused() == old(self).focused(),
            trimmed(old(self).text()).len() > 0 ==> final(self).is_blank()
                && final(self).view_height() == 0
                && action_view(action) == Some(ActionView::SendMessage(trimmed(old(self).text()))),
            trimmed(old(self).text()).len() == 0 ==> *final(self) == *old(self) && action is None,
    {
        let text = trim(self.get_text().as_str());
        if !text.as_str().is_empty() {
            self.clear();
            Some(Action::SendMessage(text))
        } else {
            None
        }
    }

    /// Reacts to a key. Without the focus every key is ignored. `Enter`
    /// submits, `Esc` empties the box, control with `c` asks to quit, and
    /// every other key goes to the editor.
    pub fn handle_key_event(&mut self, key: KeyEvent) -> (action: Option<Action>)
        ensures
            action_view(action) == input_emits(old(self).focused(), old(self).text(), key),
            final(self).follows(*old(self), key),
    {
        proof {
            use_type_invariant(&*self);
        }
        if !self.is_focused {
            return None;
        }
        match key.code {
            KeyCode::Enter => self.submit(),
            KeyCode::Esc => {
                self.clear();
                None
            },
            KeyCode::Char(c) => {
                if c == 'c' && key.modifiers == KeyModifiers::control() {
                    Some(Action::Quit)
                } else {
                    forward_key(&mut self.editor, key);
                    None
                }
            },
            _ => {
                forward_key(&mut self.editor, key);
                None
            },
        }
    }

    /// Whether the text of the box can be drawn into the cells that
    /// `buffer` has for `area`.
    pub closed spec fn can_render(&self, area: Rect, buffer: Buffer) -> bool {
        can_draw_into(self.editor, area, buffer)
    }

    /// Draws the text of the box into the cells that `buffer` has for
    /// `area`, and says whether it did. The view scrolls so that the cursor
    /// shows, and its size is what the page keys go by from then on; the
    /// text, the cursor and the focus stay. Where the buffer has no cell for
    /// some place of the area, or the area or the cursor lies too far out,
    /// nothing is drawn and nothing changes.
    pub fn render(&mut self, area: Rect, buffer: &mut Buffer) -> (drawn: bool)
        ensures
            drawn == old(self).can_render(area, *old(buffer)),
            !drawn ==> *final(self) == *old(self) && *final(buffer) == *old(buffer),
            drawn ==> final(self).view_height() == area.height,
            final(self).lines() == old(self).lines(),
            final(self).cursor_position() == old(self).cursor_position(),
            final(self).is_blank() == old(self).is_blank(),
            final(self).focused() == old(self).focused(),
            buffer_area(*final(buffer)) == buffer_area(*old(buffer)),
            buffer_cells(*final(buffer)) == buffer_cells(*old(buffer)),
    {
        proof {
            use_type_invariant(&*self);
        }
        draw_editor(&mut self.editor, area, buffer)
    }

    /// What decides whether the box can be drawn: the area must be inside
    /// the buffer's own, the buffer must hold a cell for each of its
    /// places, and the area and the cursor must stay within what an editor
    /// can draw and page by.
    pub proof fn lemma_can_render(&self, area: Rect, buffer: Buffer)
        ensures
            self.can_render(area, buffer) == (can_draw(self.cursor_position(), area)
                && holds_area(buffer_area(buffer), buffer_cells(buffer), area)),
    {
    }

    /// Reacts to an action from the bus: the box has nothing to do for any.
    pub fn update(&mut self, action: &Action) -> (follow_up: Option<Action>)
        ensures
            follow_up is None,
            *final(self) == *old(self),
    {
        None
    }
}

impl Default for Input {
    fn default() -> (input: Input)
        ensures
            input.is_blank(),
            input.focused(),
    {
        Input::new()
    }
}

} // verus!
