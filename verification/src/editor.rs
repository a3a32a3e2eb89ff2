//! The text-editing widget that the input box and the dialog hold, behind
//! the contracts that the rest of the library relies on.

use vstd::prelude::*;
use ratatui::buffer::Buffer;
use ratatui::widgets::Widget;
use tui_textarea::{Input, Key, TextArea};
use crate::key::{KeyCode, KeyEvent, KeyEventKind};
use crate::layout::Rect;

verus! {

/// A multi-line text editor: a `tui_textarea::TextArea`. What it holds is
/// known only through [`editor_lines`], [`editor_cursor`] and
/// [`editor_view_height`].
#[verifier::external_body]
pub struct Editor {
    area: TextArea<'static>,
}

/// `ratatui::buffer::Buffer`: the cells of an area of the screen. The
/// library draws into one and knows of it only its area and how many cells
/// it holds.
#[verifier::external_type_specification]
#[verifier::external_body]
pub struct ExBuffer(Buffer);

/// The area of the screen whose cells a buffer stands for.
pub uninterp spec fn buffer_area(buffer: Buffer) -> Rect;

/// How many cells a buffer holds.
pub uninterp spec fn buffer_cells(buffer: Buffer) -> nat;

/// `Buffer::area`: the area of the screen whose cells the buffer stands
/// for.
#[verifier::external_body]
pub(crate) fn buffer_area_of(buffer: &Buffer) -> (area: Rect)
    ensures
        area == buffer_area(*buffer),
    no_unwind
{
    let area = buffer.area();
    Rect { x: area.x, y: area.y, width: area.width, height: area.height }
}

/// `Buffer::content`, counted: how many cells the buffer holds.
#[verifier::external_body]
pub(crate) fn buffer_cell_count(buffer: &Buffer) -> (count: usize)
    ensures
        count == buffer_cells(*buffer),
    no_unwind
{
    buffer.content().len()
}

/// The lines of text that an editor holds, first line first.
pub uninterp spec fn editor_lines(editor: Editor) -> Seq<Seq<char>>;

/// Where the cursor of an editor stands: row and column, counted from zero.
pub uninterp spec fn editor_cursor(editor: Editor) -> (usize, usize);

/// The height of the area that an editor was last drawn into, which is the
/// page that its page keys go by; 0 before it was ever drawn.
pub uninterp spec fn editor_view_height(editor: Editor) -> nat;

/// The highest view by which an editor can page.
pub const MAX_VIEW_HEIGHT: u16 = 32767;

/// What an editor holds once it has reacted to a key with its default key
/// mappings: its lines and where its cursor stands. The editor decides by
/// all that it is, and by nothing else.
pub uninterp spec fn editor_after_input(
    editor: Editor,
    code: KeyCode,
    ctrl: bool,
    alt: bool,
    shift: bool,
) -> (Seq<Seq<char>>, (usize, usize));

/// Whether an editor holds nothing: one empty line, with the cursor at its
/// start.
pub open spec fn editor_is_blank(editor: Editor) -> bool {
    editor_lines(editor) == seq![Seq::<char>::empty()] && editor_cursor(editor) == (0usize, 0usize)
}

/// The text with one trailing carriage return, if there is one, removed.
pub open spec fn without_return(line: Seq<char>) -> Seq<char> {
    if line.len() > 0 && line.last() == '\r' {
        line.drop_last()
    } else {
        line
    }
}

/// The pieces of `text` between its line feeds; always at least one.
pub open spec fn split_lines(text: Seq<char>) -> Seq<Seq<char>>
    decreases text.len(),
{
    if text.len() > 0 && text.contains('\n') {
        let at = text.index_of('\n');
        seq![text.subrange(0, at)] + split_lines(text.subrange(at + 1, text.len() as int))
    } else {
        seq![text]
    }
}

/// The lines that a blank editor holds once `text` was put into it:
/// the text is cut at every line feed, and each piece loses a trailing
/// carriage return.
pub open spec fn inserted_lines(text: Seq<char>) -> Seq<Seq<char>> {
    split_lines(text).map_values(|line: Seq<char>| without_return(line))
}

/// The end of a text given by its lines: the last row, behind its last
/// character.
pub open spec fn end_of(lines: Seq<Seq<char>>) -> (usize, usize) {
    ((lines.len() - 1) as usize, lines.last().len() as usize)
}

/// The views of a vector of strings.
pub open spec fn line_views(lines: Seq<String>) -> Seq<Seq<char>> {
    lines.map_values(|line: String| line@)
}

/// `TextArea::default`: an editor that holds one empty line, with the
/// cursor at its start, and that was not drawn yet.
#[verifier::external_body]
pub(crate) fn new_editor() -> (editor: Editor)
    ensures
        editor_lines(editor) == seq![Seq::<char>::empty()],
        editor_cursor(editor) == (0usize, 0usize),
        editor_view_height(editor) == 0,
{
    Editor { area: TextArea::default() }
}

/// `TextArea::insert_str`: puts `text` in at the cursor. The contract speaks
/// of a blank editor only: it then holds the lines of `text`, with the
/// cursor at their end.
#[verifier::external_body]
pub(crate) fn editor_insert_str(editor: &mut Editor, text: &str)
    ensures
        editor_is_blank(*old(editor)) ==> editor_lines(*final(editor)) == inserted_lines(text@)
            && editor_cursor(*final(editor)) == end_of(inserted_lines(text@)),
        editor_view_height(*final(editor)) == editor_view_height(*old(editor)),
    no_unwind
{
    editor.area.insert_str(text);
}

/// `TextArea::lines`: the lines of text held, copied out.
#[verifier::external_body]
pub(crate) fn editor_text_lines(editor: &Editor) -> (lines: Vec<String>)
    ensures
        line_views(lines@) == editor_lines(*editor),
{
    editor.area.lines().to_vec()
}

/// `TextArea::cursor`: the row and the column of the cursor, both counted
/// from zero.
#[verifier::external_body]
pub(crate) fn editor_cursor_position(editor: &Editor) -> (position: (usize, usize))
    ensures
        position == editor_cursor(*editor),
    no_unwind
{
    editor.area.cursor()
}

/// `TextArea::input`: lets the editor react to one key with its default key
/// mappings. What it holds afterwards is named, not described: it follows
/// from the editor before and the key. The page keys go by the height of
/// the view, which has to be one that the editor can page by; no key
/// changes that height.
#[verifier::external_body]
pub(crate) fn editor_input(
    editor: &mut Editor,
    code: KeyCode,
    ctrl: bool,
    alt: bool,
    shift: bool,
)
    requires
        editor_view_height(*old(editor)) <= MAX_VIEW_HEIGHT,
    ensures
        (editor_lines(*final(editor)), editor_cursor(*final(editor))) == editor_after_input(
            *old(editor),
            code,
            ctrl,
            alt,
            shift,
        ),
        editor_view_height(*final(editor)) == editor_view_height(*old(editor)),
    no_unwind
{
    let key = match code {
        KeyCode::Char(c) => Key::Char(c),
        KeyCode::F(n) => Key::F(n),
        KeyCode::Backspace => Key::Backspace, KeyCode::Delete => Key::Delete,
        KeyCode::Enter => Key::Enter, KeyCode::Tab => Key::Tab,
        KeyCode::Left => Key::Left, KeyCode::Right => Key::Right,
        KeyCode::Up => Key::Up, KeyCode::Down => Key::Down,
        KeyCode::Home => Key::Home, KeyCode::End => Key::End,
        KeyCode::PageUp => Key::PageUp, KeyCode::PageDown => Key::PageDown,
        KeyCode::Esc => Key::Esc,
        _ => Key::Null,
    };
    editor.area.input(Input { key, ctrl, alt, shift });
}

/// Whether an editor whose cursor stands at `cursor` can be drawn into
/// `area`: the area is no higher than an editor can page by, it ends
/// within the 16-bit coordinates of the screen, and so does the cursor when
/// the size of the area is added to it.
pub open spec fn can_draw(cursor: (usize, usize), area: Rect) -> bool {
    &&& area.height <= MAX_VIEW_HEIGHT
    &&& area.x + area.width <= u16::MAX
    &&& area.y + area.height <= u16::MAX
    &&& cursor.0 + area.height < u16::MAX
    &&& cursor.1 + area.width < u16::MAX
}

/// Whether a buffer for the area `whole`, with `cells` cells, has a cell
/// for every place of `area`: it holds one cell for each place of its own
/// area, and `area` lies inside that.
pub open spec fn holds_area(whole: Rect, cells: nat, area: Rect) -> bool {
    &&& cells == whole.width * whole.height
    &&& whole.x <= area.x
    &&& area.x + area.width <= whole.x + whole.width
    &&& whole.y <= area.y
    &&& area.y + area.height <= whole.y + whole.height
}

/// `Widget::render` of a `&TextArea`: draws the text into the cells that
/// `buffer` has for `area`. Drawing scrolls the editor so that the cursor
/// shows and lets it know the size of its view: the height of the area is
/// from then on the height that it pages by. The text and the cursor stay,
/// and the buffer keeps its area and its number of cells. Which cells get
/// which content is not stated.
#[verifier::external_body]
pub(crate) fn editor_render(editor: &mut Editor, area: Rect, buffer: &mut Buffer)
    requires
        can_draw(editor_cursor(*old(editor)), area),
        holds_area(buffer_area(*old(buffer)), buffer_cells(*old(buffer)), area),
    ensures
        editor_lines(*final(editor)) == editor_lines(*old(editor)),
        editor_cursor(*final(editor)) == editor_cursor(*old(editor)),
        editor_view_height(*final(editor)) == area.height,
        buffer_area(*final(buffer)) == buffer_area(*old(buffer)),
        buffer_cells(*final(buffer)) == buffer_cells(*old(buffer)),
    no_unwind
{
    let area = ratatui::layout::Rect { x: area.x, y: area.y, width: area.width, height: area.height };
    (&editor.area).render(area, buffer);
}

/// Whether an editor can be drawn into the cells that a buffer has for
/// `area`.
pub open spec fn can_draw_into(editor: Editor, area: Rect, buffer: Buffer) -> bool {
    can_draw(editor_cursor(editor), area) && holds_area(
        buffer_area(buffer),
        buffer_cells(buffer),
        area,
    )
}

/// Draws an editor into the cells that `buffer` has for `area`, where that
/// can be done, and says whether it was; where it was not, the editor and
/// the buffer are as they were.
pub(crate) fn draw_editor(editor: &mut Editor, area: Rect, buffer: &mut Buffer) -> (drawn: bool)
    ensures
        drawn == can_draw_into(*old(editor), area, *old(buffer)),
        !drawn ==> *final(editor) == *old(editor) && *final(buffer) == *old(buffer),
        drawn ==> editor_view_height(*final(editor)) == area.height,
        editor_lines(*final(editor)) == editor_lines(*old(editor)),
        editor_cursor(*final(editor)) == editor_cursor(*old(editor)),
        buffer_area(*final(buffer)) == buffer_area(*old(buffer)),
        buffer_cells(*final(buffer)) == buffer_cells(*old(buffer)),
    no_unwind
{
    let cursor = editor_cursor_position(editor);
    let whole = buffer_area_of(buffer);
    let count = buffer_cell_count(buffer);
    let limit: usize = 65535;
    let fits = area.height <= MAX_VIEW_HEIGHT && area.width <= 65535 - area.x && area.height
        <= 65535 - area.y && cursor.0 < limit && cursor.1 < limit && (area.height as usize) < limit
        - cursor.0 && (area.width as usize) < limit - cursor.1;
    assert((whole.width as u64) * (whole.height as u64) <= 65535 * 65535) by (nonlinear_arith)
        requires
            whole.width <= 65535,
            whole.height <= 65535,
    ;
    let cells: u64 = (whole.width as u64) * (whole.height as u64);
    let held = count as u64 == cells && whole.x <= area.x && area.x as u32 + area.width as u32
        <= whole.x as u32 + whole.width as u32 && whole.y <= area.y && area.y as u32
        + area.height as u32 <= whole.y as u32 + whole.height as u32;
    if fits && held {
        editor_render(editor, area, buffer);
        true
    } else {
        false
    }
}

/// The key as an editor is given it: the key with its control, alt and
/// shift modifiers, but a released key as no key at all, without
/// modifiers.
pub open spec fn editor_key(key: KeyEvent) -> (KeyCode, bool, bool, bool) {
    if key.kind == KeyEventKind::Release {
        (KeyCode::Other, false, false, false)
    } else {
        (key.code, key.modifiers.control, key.modifiers.alt, key.modifiers.shift)
    }
}

/// What an editor holds once a key was handed on to it: its lines and where
/// its cursor stands.
pub open spec fn editor_after_key(editor: Editor, key: KeyEvent) -> (Seq<Seq<char>>, (usize, usize)) {
    editor_after_input(
        editor,
        editor_key(key).0,
        editor_key(key).1,
        editor_key(key).2,
        editor_key(key).3,
    )
}

/// Hands a key on to an editor, which reacts to it with its default key
/// mappings; a released key goes on as no key at all.
pub(crate) fn forward_key(editor: &mut Editor, key: KeyEvent)
    requires
        editor_view_height(*old(editor)) <= MAX_VIEW_HEIGHT,
    ensures
        (editor_lines(*final(editor)), editor_cursor(*final(editor))) == editor_after_key(
            *old(editor),
            key,
        ),
        editor_view_height(*final(editor)) == editor_view_height(*old(editor)),
    no_unwind
{
    if key.kind == KeyEventKind::Release {
        editor_input(editor, KeyCode::Other, false, false, false);
    } else {
        editor_input(
            editor,
            key.code,
            key.modifiers.control,
            key.modifiers.alt,
            key.modifiers.shift,
        );
    }
}

} // verus!
