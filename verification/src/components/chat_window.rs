//! The scrolling chat log.

use vstd::prelude::*;
use vstd::utf8::encode_utf8;
use crate::action::{Action, ActionView};
use crate::editor::line_views;
use crate::key::{KeyCode, KeyEvent};
use crate::state::{AppState, AppStateView, ChatMessage, ChatMessageView, user_role};

verus! {

/// Where a text may be cut into words.
#[derive(Debug, Clone, Copy, PartialEq, Eq, Structural)]
pub enum WordSeparator {
    /// At ASCII spaces only.
    AsciiSpace,
    /// Wherever the Unicode line-breaking rules allow a break.
    UnicodeBreakProperties,
}

/// How the words of a text are put on lines.
#[derive(Debug, Clone, Copy, PartialEq, Eq, Structural)]
pub enum WrapAlgorithm {
    /// Each line takes the words that fit on it, one after the other.
    FirstFit,
    /// The breaks are chosen so that the lines are evenly filled, which may
    /// let a line run over to save another.
    OptimalFit,
}

/// The lines into which `text` is wrapped at `width` columns, where
/// `width` is positive, with words found by `separator` and put on lines
/// by `algorithm` and, where `break_words` is set, words broken that are
/// too long for a line.
pub uninterp spec fn wrapped(
    text: Seq<char>,
    width: nat,
    break_words: bool,
    separator: WordSeparator,
    algorithm: WrapAlgorithm,
) -> Seq<Seq<char>>;

/// The number of columns that a text takes on a terminal.
pub uninterp spec fn display_width(text: Seq<char>) -> nat;

/// The character that starts an escape sequence.
pub const ESCAPE: char = '\u{1b}';

/// Whether a line fits into `width` columns, or is a single word, without
/// a space in it, that could not be made to fit.
pub open spec fn line_fits(line: Seq<char>, width: nat) -> bool {
    display_width(line) <= width || !line.contains(' ')
}

/// Whether every line fits into `width` columns, or is a single word that
/// could not be made to fit.
pub open spec fn lines_fit(lines: Seq<Seq<char>>, width: nat) -> bool {
    forall|i: int| 0 <= i < lines.len() ==> line_fits(#[trigger] lines[i], width)
}

/// `textwrap::wrap`, with options made by `Options::new(width)` and set by
/// `break_words`, `word_separator` and `wrap_algorithm`: the lines of the
/// wrapped text. With words cut at ASCII spaces and put on lines first-fit,
/// a word joins a line only if the line still fits the width with it, so
/// that a line is wider only where it is one word alone. The widths are
/// those of `textwrap::core::display_width`; the claim leaves out texts
/// with escape sequences, which that function measures across words.
#[verifier::external_body]
fn wrap_words(
    text: &str,
    width: usize,
    break_words: bool,
    separator: WordSeparator,
    algorithm: WrapAlgorithm,
) -> (lines: Vec<String>)
    requires
        width > 0,
    ensures
        line_views(lines@) == wrapped(text@, width as nat, break_words, separator, algorithm),
        algorithm == WrapAlgorithm::FirstFit && separator == WordSeparator::AsciiSpace
            && !text@.contains(ESCAPE) ==> forall|i: int|
            0 <= i < lines@.len() ==> display_width(#[trigger] lines@[i]@) <= width
                || !lines@[i]@.contains(' '),
{
    let separator = match separator {
        WordSeparator::AsciiSpace => textwrap::WordSeparator::AsciiSpace,
        WordSeparator::UnicodeBreakProperties => textwrap::WordSeparator::UnicodeBreakProperties,
    };
    let algorithm = match algorithm {
        WrapAlgorithm::FirstFit => textwrap::WrapAlgorithm::FirstFit,
        WrapAlgorithm::OptimalFit => textwrap::WrapAlgorithm::new_optimal_fit(),
    };
    let options = textwrap::Options::new(width)
        .break_words(break_words)
        .word_separator(separator)
        .wrap_algorithm(algorithm);
    textwrap::wrap(text, &options).into_iter().map(|line| line.into_owned()).collect()
}

/// The lines of a message text wrapped at `width` columns: words are cut
/// at ASCII spaces only and put on lines first-fit, and a word that is too
/// long for a line is broken.
pub open spec fn wrapped_message(text: Seq<char>, width: nat) -> Seq<Seq<char>> {
    wrapped(text, width, true, WordSeparator::AsciiSpace, WrapAlgorithm::FirstFit)
}

/// What [`wrap_text`] makes of the wrapped lines: with no room at all the
/// text stays in one piece, and there is always at least one line.
pub open spec fn wrapped_text(text: Seq<char>, max_width: nat) -> Seq<Seq<char>> {
    if max_width == 0 {
        seq![text]
    } else if wrapped_message(text, max_width).len() == 0 {
        seq![Seq::<char>::empty()]
    } else {
        wrapped_message(text, max_width)
    }
}

/// The lines that stand for the wrapping result `lines`: themselves, or
/// one empty line where there is none.
pub fn at_least_one_line(lines: Vec<String>) -> (kept: Vec<String>)
    ensures
        line_views(kept@) == (if lines@.len() == 0 {
            seq![Seq::<char>::empty()]
        } else {
            line_views(lines@)
        }),
{
    if lines.len() == 0 {
        let kept = vec![String::new()];
        assert(line_views(kept@) =~= seq![Seq::<char>::empty()]);
        kept
    } else {
        lines
    }
}

/// Wraps `text` so that it fits into `max_width` columns: no line is
/// wider, but for a single word that could not be made to fit. With no
/// room at all the text stays in one piece.
pub fn wrap_text(text: &str, max_width: usize) -> (lines: Vec<String>)
    ensures
        line_views(lines@) == wrapped_text(text@, max_width as nat),
        lines@.len() >= 1,
        max_width >= 1 && !text@.contains(ESCAPE) ==> lines_fit(
            line_views(lines@),
            max_width as nat,
        ),
{
    if max_width == 0 {
        let lines = vec![text.to_owned()];
        assert(line_views(lines@) =~= seq![text@]);
        return lines;
    }
    let wrapped = wrap_words(
        text,
        max_width,
        true,
        WordSeparator::AsciiSpace,
        WrapAlgorithm::FirstFit,
    );
    let ghost wrapped_views = line_views(wrapped@);
    let lines = at_least_one_line(wrapped);
    assert(lines@.len() == line_views(lines@).len());
    proof {
        if !text@.contains(ESCAPE) {
            assert forall|i: int| 0 <= i < line_views(lines@).len() implies line_fits(
                #[trigger] line_views(lines@)[i],
                max_width as nat,
            ) by {
                if wrapped_views.len() == 0 {
                    assert(line_views(lines@)[i] =~= Seq::<char>::empty());
                } else {
                    assert(line_views(lines@)[i] == wrapped@[i]@);
                }
            }
        }
    }
    lines
}

/// How a line of the chat log is coloured.
#[derive(Debug, Clone, Copy, PartialEq, Eq, Structural)]
pub enum LineStyle {
    /// What the user wrote.
    User,
    /// What anyone else wrote.
    Reply,
    /// The line that shows that an answer is awaited.
    Spinner,
}

/// One line of the chat log, ready to draw.
#[derive(Debug, Clone, PartialEq, Eq)]
pub struct ChatLine {
    pub text: String,
    pub style: LineStyle,
}

/// A [`ChatLine`] in contracts.
pub struct ChatLineView {
    pub text: Seq<char>,
    pub style: LineStyle,
}

impl View for ChatLine {
    type V = ChatLineView;

    open spec fn view(&self) -> ChatLineView {
        ChatLineView { text: self.text@, style: self.style }
    }
}

/// The views of a vector of lines.
pub open spec fn chat_line_views(lines: Seq<ChatLine>) -> Seq<ChatLineView> {
    lines.map_values(|line: ChatLine| line@)
}

/// The style of a message of the given role.
pub open spec fn role_style(role: Seq<char>) -> LineStyle {
    if role == user_role() {
        LineStyle::User
    } else {
        LineStyle::Reply
    }
}

/// What stands before the first line of a message: its role, a colon and a
/// space.
pub open spec fn role_prefix(role: Seq<char>) -> Seq<char> {
    role + seq![':', ' ']
}

/// The width reserved for the prefix: its length in bytes, as a `usize`.
pub open spec fn prefix_width(role: Seq<char>) -> nat {
    (encode_utf8(role_prefix(role)).len() as usize) as nat
}

/// `n` spaces.
pub open spec fn spaces(n: nat) -> Seq<char> {
    Seq::new(n, |i: int| ' ')
}

/// The lines of one message: the first piece behind the role prefix, every
/// other piece behind as many spaces as the prefix is wide.
pub open spec fn prefixed(role: Seq<char>, pieces: Seq<Seq<char>>) -> Seq<ChatLineView> {
    Seq::new(
        pieces.len(),
        |i: int|
            ChatLineView {
                text: if i == 0 {
                    role_prefix(role) + pieces[i]
                } else {
                    spaces(prefix_width(role)) + pieces[i]
                },
                style: role_style(role),
            },
    )
}

/// The width left for the content of a message of the given role.
pub open spec fn content_width(role: Seq<char>, available_width: nat) -> nat {
    if available_width >= prefix_width(role) {
        (available_width - prefix_width(role)) as nat
    } else {
        0
    }
}

/// The lines of one message in a log `available_width` columns wide.
pub open spec fn message_lines(message: ChatMessageView, available_width: nat) -> Seq<
    ChatLineView,
> {
    prefixed(
        message.role,
        wrapped_text(message.content, content_width(message.role, available_width)),
    )
}

/// `n` spaces.
pub fn indentation(n: usize) -> (indent: String)
    ensures
        indent@ == spaces(n as nat),
{
    let mut indent = String::new();
    let mut i: usize = 0;
    while i < n
        invariant
            i <= n,
            indent@ == spaces(i as nat),
        decreases n - i,
    {
        proof {
            reveal_strlit(" ");
            assert(spaces(i as nat) + seq![' '] =~= spaces((i + 1) as nat));
        }
        indent.append(" ");
        i += 1;
    }
    indent
}

/// Whether the role is that of the user.
pub fn is_user_role(role: &str) -> (user: bool)
    ensures
        user == (role@ == user_role()),
{
    proof {
        reveal_strlit("user");
    }
    let n = role.unicode_len();
    if n != 4 {
        return false;
    }
    let same = role.get_char(0) == 'u' && role.get_char(1) == 's' && role.get_char(2) == 'e'
        && role.get_char(3) == 'r';
    proof {
        if same {
            assert(role@ =~= user_role());
        }
    }
    same
}

/// What stands before the first line of a message of the given role.
pub fn prefix_of(role: &str) -> (prefix: String)
    ensures
        prefix@ == role_prefix(role@),
        prefix@.len() == role@.len() + 2,
{
    proof {
        reveal_strlit(": ");
    }
    let prefix = role.to_owned().concat(": ");
    assert(prefix@ =~= role_prefix(role@));
    prefix
}

/// Puts the wrapped pieces of a message behind its role prefix.
pub fn prefix_lines(role: &str, pieces: &Vec<String>) -> (lines: Vec<ChatLine>)
    ensures
        chat_line_views(lines@) == prefixed(role@, line_views(pieces@)),
{
    let style = if is_user_role(role) {
        LineStyle::User
    } else {
        LineStyle::Reply
    };
    let prefix = prefix_of(role);
    let prefix_len = prefix.as_str().len();
    let mut lines: Vec<ChatLine> = Vec::new();
    let mut i: usize = 0;
    while i < pieces.len()
        invariant
            i <= pieces.len(),
            prefix@ == role_prefix(role@),
            prefix_len == prefix_width(role@),
            style == role_style(role@),
            lines@.len() == i,
            forall|j: int|
                0 <= j < i ==> (#[trigger] lines@[j])@ == prefixed(role@, line_views(pieces@))[j],
        decreases pieces.len() - i,
    {
        let head = if i == 0 {
            prefix.clone()
        } else {
            indentation(prefix_len)
        };
        let text = head.concat(pieces[i].as_str());
        assert(line_views(pieces@)[i as int] == pieces@[i as int]@);
        lines.push(ChatLine { text, style });
        i += 1;
    }
    assert(chat_line_views(lines@) =~= prefixed(role@, line_views(pieces@)));
    lines
}

/// The lines of one message in a log `available_width` columns wide.
pub fn lines_of_message(message: &ChatMessage, available_width: usize) -> (lines: Vec<ChatLine>)
    ensures
        chat_line_views(lines@) == message_lines(message@, available_width as nat),
        lines@.len() >= 1,
{
    let prefix_len = prefix_of(message.role.as_str()).as_str().len();
    let width = available_width.saturating_sub(prefix_len);
    let pieces = wrap_text(message.content.as_str(), width);
    let lines = prefix_lines(message.role.as_str(), &pieces);
    assert(lines@.len() == chat_line_views(lines@).len());
    assert(pieces@.len() == line_views(pieces@).len());
    lines
}

/// The lines of a whole history, message after message.
pub open spec fn history_lines(history: Seq<ChatMessageView>, available_width: nat) -> Seq<
    ChatLineView,
>
    decreases history.len(),
{
    if history.len() == 0 {
        Seq::empty()
    } else {
        history_lines(history.drop_last(), available_width) + message_lines(
            history.last(),
            available_width,
        )
    }
}

/// The glyphs through which the spinner turns.
pub open spec fn spinner_frames() -> Seq<char> {
    seq![
        '\u{280B}',
        '\u{2819}',
        '\u{2839}',
        '\u{2838}',
        '\u{283C}',
        '\u{2834}',
        '\u{2826}',
        '\u{2827}',
        '\u{2807}',
        '\u{280F}',
    ]
}

/// The position among the frames at a time given in milliseconds: the
/// spinner moves on every tenth of a second.
pub open spec fn spinner_index(millis: u128) -> int {
    (millis as int / 100) % 10
}

/// The text of the line shown while an answer is awaited.
pub open spec fn spinner_text(millis: u128) -> Seq<char> {
    seq!['a', 's', 's', 'i', 's', 't', 'a', 'n', 't', ':', ' '] + seq![
        spinner_frames()[spinner_index(millis)],
    ] + seq![' ', 'T', 'h', 'i', 'n', 'k', 'i', 'n', 'g', '.', '.', '.']
}

/// The line shown while an answer is awaited.
pub open spec fn spinner_line(millis: u128) -> ChatLineView {
    ChatLineView { text: spinner_text(millis), style: LineStyle::Spinner }
}

/// The line shown while an answer is awaited, at a time given in
/// milliseconds.
pub fn loading_line(millis: u128) -> (line: ChatLine)
    ensures
        line@ == spinner_line(millis),
{
    let index = (millis / 100) % 10;
    proof {
        reveal_strlit("\u{280B}");
        reveal_strlit("\u{2819}");
        reveal_strlit("\u{2839}");
        reveal_strlit("\u{2838}");
        reveal_strlit("\u{283C}");
        reveal_strlit("\u{2834}");
        reveal_strlit("\u{2826}");
        reveal_strlit("\u{2827}");
        reveal_strlit("\u{2807}");
        reveal_strlit("\u{280F}");
        reveal_strlit("assistant: ");
        reveal_strlit(" Thinking...");
    }
    let glyph = if index == 0 {
        "\u{280B}"
    } else if index == 1 {
        "\u{2819}"
    } else if index == 2 {
        "\u{2839}"
    } else if index == 3 {
        "\u{2838}"
    } else if index == 4 {
        "\u{283C}"
    } else if index == 5 {
        "\u{2834}"
    } else if index == 6 {
        "\u{2826}"
    } else if index == 7 {
        "\u{2827}"
    } else if index == 8 {
        "\u{2807}"
    } else {
        "\u{280F}"
    };
    assert(glyph@ =~= seq![spinner_frames()[spinner_index(millis)]]);
    let head = "assistant: ".to_owned();
    assert(head@ =~= seq!['a', 's', 's', 'i', 's', 't', 'a', 'n', 't', ':', ' ']);
    let tail = " Thinking...";
    assert(tail@ =~= seq![' ', 'T', 'h', 'i', 'n', 'k', 'i', 'n', 'g', '.', '.', '.']);
    let text = head.concat(glyph).concat(tail);
    ChatLine { text, style: LineStyle::Spinner }
}

/// Everything the log shows for a state: the history, and the spinner line
/// while an answer is awaited.
pub open spec fn log_lines(state: AppStateView, available_width: nat, millis: u128) -> Seq<
    ChatLineView,
> {
    if state.is_loading {
        history_lines(state.chat_history, available_width) + seq![spinner_line(millis)]
    } else {
        history_lines(state.chat_history, available_width)
    }
}

/// Everything the log shows for a state, in a log `available_width`
/// columns wide, at a time given in milliseconds.
pub fn lines_of_log(state: &AppState, available_width: usize, millis: u128) -> (lines: Vec<
    ChatLine,
>)
    ensures
        chat_line_views(lines@) == log_lines(state@, available_width as nat, millis),
{
    let ghost history = state@.chat_history;
    let mut lines: Vec<ChatLine> = Vec::new();
    let mut i: usize = 0;
    assert(history.take(0) =~= Seq::empty());
    while i < state.chat_history.len()
        invariant
            i <= state.chat_history.len(),
            history == state@.chat_history,
            history.len() == state.chat_history@.len(),
            chat_line_views(lines@) == history_lines(history.take(i as int), available_width as nat),
        decreases state.chat_history.len() - i,
    {
        let mut more = lines_of_message(&state.chat_history[i], available_width);
        proof {
            assert(history.take(i + 1).drop_last() =~= history.take(i as int));
            assert(history.take(i + 1).last() == state.chat_history@[i as int]@);
        }
        let ghost before = lines@;
        let ghost added = more@;
        lines.append(&mut more);
        assert(chat_line_views(lines@) =~= chat_line_views(before) + chat_line_views(added));
        i += 1;
    }
    assert(history.take(state.chat_history.len() as int) =~= history);
    if state.is_loading {
        let ghost before = lines@;
        let line = loading_line(millis);
        lines.push(line);
        assert(chat_line_views(lines@) =~= chat_line_views(before) + seq![spinner_line(millis)]);
    }
    lines
}

/// Where the log is meant to be scrolled to.
#[derive(Debug, Clone, Copy, PartialEq, Eq, Structural)]
pub enum ScrollTarget {
    /// So many lines down from the top.
    Offset(usize),
    /// As far down as the content goes, whatever that is at the next draw.
    End,
}

/// How many lines the log moves for a page key.
pub const PAGE_LINES: usize = 10;

/// The scroll target after a key: the arrows and `k` / `j` move by a line,
/// the page keys by [`PAGE_LINES`], `Home` and `End` jump. A relative move
/// leaves a pending jump to the end as it is, and an offset never leaves
/// the range of `usize`.
pub open spec fn scroll_after_key(scroll: ScrollTarget, code: KeyCode) -> ScrollTarget {
    match code {
        KeyCode::Home => ScrollTarget::Offset(0),
        KeyCode::End => ScrollTarget::End,
        _ => match scroll {
            ScrollTarget::End => ScrollTarget::End,
            ScrollTarget::Offset(n) => match code {
                KeyCode::Up | KeyCode::Char('k') => ScrollTarget::Offset(
                    if n > 0 {
                        (n - 1) as usize
                    } else {
                        0
                    },
                ),
                KeyCode::Down | KeyCode::Char('j') => ScrollTarget::Offset(
                    if n < usize::MAX {
                        (n + 1) as usize
                    } else {
                        n
                    },
                ),
                KeyCode::PageUp => ScrollTarget::Offset(
                    if n >= PAGE_LINES {
                        (n - PAGE_LINES) as usize
                    } else {
                        0
                    },
                ),
                KeyCode::PageDown => ScrollTarget::Offset(
                    if n + PAGE_LINES <= usize::MAX {
                        (n + PAGE_LINES) as usize
                    } else {
                        usize::MAX
                    },
                ),
                _ => scroll,
            },
        },
    }
}

/// The furthest the log can be scrolled: the number of lines that do not
/// fit, or 0 if all fit.
pub open spec fn max_scroll(total: nat, visible: nat) -> nat {
    if total > visible {
        (total - visible) as nat
    } else {
        0
    }
}

/// The offset at which the log is drawn: the target, held within
/// `0 ..= max_scroll`.
pub open spec fn resolved_offset(scroll: ScrollTarget, total: nat, visible: nat) -> nat {
    match scroll {
        ScrollTarget::End => max_scroll(total, visible),
        ScrollTarget::Offset(n) => if n as nat <= max_scroll(total, visible) {
            n as nat
        } else {
            max_scroll(total, visible)
        },
    }
}

/// The line to select so that the list shows the lines from `offset` on:
/// the last visible one, and none where everything fits.
pub open spec fn selected_line(offset: nat, total: nat, visible: nat) -> Option<nat> {
    if total <= visible {
        None
    } else if visible == 0 {
        Some(offset)
    } else {
        Some((offset + visible - 1) as nat)
    }
}

/// The offset at which a log of `total` lines is drawn into `visible`
/// rows.
pub fn resolve_scroll(scroll: ScrollTarget, total: usize, visible: usize) -> (offset: usize)
    ensures
        offset == resolved_offset(scroll, total as nat, visible as nat),
        offset <= max_scroll(total as nat, visible as nat),
{
    let limit = total.saturating_sub(visible);
    match scroll {
        ScrollTarget::End => limit,
        ScrollTarget::Offset(n) => if n <= limit {
            n
        } else {
            limit
        },
    }
}

/// What the chat log wants drawn.
#[derive(Debug, Clone, PartialEq, Eq)]
pub struct ChatView {
    /// All lines of the log, first line first.
    pub lines: Vec<ChatLine>,
    /// The line to select, so that the list scrolls to it.
    pub selected: Option<usize>,
}

/// The scrolling chat log: the last state it was given and where it is
/// scrolled to.
#[derive(Debug, Clone, PartialEq, Eq)]
pub struct ChatWindow {
    state: Option<AppState>,
    scroll: ScrollTarget,
}

impl ChatWindow {
    /// The state last received, if any.
    pub closed spec fn state(&self) -> Option<AppStateView> {
        match self.state {
            Some(state) => Some(state@),
            None => None,
        }
    }

    /// Whether the state last received says that an answer is awaited.
    pub open spec fn awaiting(&self) -> bool {
        self.state() is Some && self.state().unwrap().is_loading
    }

    /// Where the log is scrolled to.
    pub closed spec fn scroll(&self) -> ScrollTarget {
        self.scroll
    }

    /// A log that has no state yet and stands at the top.
    pub fn new() -> (window: ChatWindow)
        ensures
            window.state() is None,
            window.scroll() == ScrollTarget::Offset(0),
    {
        ChatWindow { state: None, scroll: ScrollTarget::Offset(0) }
    }

    /// Where the log is scrolled to.
    pub fn scroll_target(&self) -> (scroll: ScrollTarget)
        ensures
            scroll == self.scroll(),
    {
        self.scroll
    }

    /// Takes a new snapshot of the state.
    pub fn register_state_handler(&mut self, state: AppState)
        ensures
            final(self).state() == Some(state@),
            final(self).scroll() == old(self).scroll(),
    {
        self.state = Some(state);
    }

    /// Scrolls as the key asks. The log claims no key: the result is always
    /// `None`.
    pub fn handle_key_event(&mut self, key: KeyEvent) -> (action: Option<Action>)
        ensures
            action is None,
            final(self).scroll() == scroll_after_key(old(self).scroll(), key.code),
            final(self).state() == old(self).state(),
    {
        match key.code {
            KeyCode::Home => {
                self.scroll = ScrollTarget::Offset(0);
            },
            KeyCode::End => {
                self.scroll = ScrollTarget::End;
            },
            KeyCode::Up | KeyCode::Char('k') => {
                if let ScrollTarget::Offset(n) = self.scroll {
                    self.scroll = ScrollTarget::Offset(n.saturating_sub(1));
                }
            },
            KeyCode::Down | KeyCode::Char('j') => {
                if let ScrollTarget::Offset(n) = self.scroll {
                    self.scroll = ScrollTarget::Offset(n.saturating_add(1));
                }
            },
            KeyCode::PageUp => {
                if let ScrollTarget::Offset(n) = self.scroll {
                    self.scroll = ScrollTarget::Offset(n.saturating_sub(PAGE_LINES));
                }
            },
            KeyCode::PageDown => {
                if let ScrollTarget::Offset(n) = self.scroll {
                    self.scroll = ScrollTarget::Offset(n.saturating_add(PAGE_LINES));
                }
            },
            _ => {},
        }
        None
    }

    /// Reacts to an action from the bus: on every tick while an answer is
    /// awaited it asks for a render, so that the spinner moves.
    pub fn update(&mut self, action: &Action) -> (follow_up: Option<Action>)
        ensures
            *final(self) == *old(self),
            match follow_up {
                Some(next) => next@ == ActionView::Render,
                None => true,
            },
            follow_up is Some <==> (action@ == ActionView::Tick && old(self).awaiting()),
    {
        match action {
            Action::Tick => {
                match &self.state {
                    Some(state) => {
                        if state.is_loading {
                            return Some(Action::Render);
                        }
                    },
                    None => {},
                }
            },
            _ => {},
        }
        None
    }

    /// Lays the log out for an inner area of `width` columns and `height`
    /// rows, at a time given in milliseconds, and settles the scroll
    /// offset. Without a state there is nothing to draw.
    pub fn draw(&mut self, width: u16, height: u16, millis: u128) -> (view: Option<ChatView>)
        ensures
            final(self).state() == old(self).state(),
            match old(self).state() {
                None => view is None && *final(self) == *old(self),
                Some(state) => {
                    let lines = log_lines(state, available_width(width), millis);
                    let offset = resolved_offset(old(self).scroll(), lines.len(), height as nat);
                    &&& view is Some
                    &&& chat_line_views(view.unwrap().lines@) == lines
                    &&& final(self).scroll() == ScrollTarget::Offset(offset as usize)
                    &&& offset <= max_scroll(lines.len(), height as nat)
                    &&& match view.unwrap().selected {
                        Some(line) => selected_line(offset, lines.len(), height as nat) == Some(
                            line as nat,
                        ),
                        None => selected_line(offset, lines.len(), height as nat) is None,
                    }
                },
            },
    {
        let lines = match &self.state {
            None => {
                return None;
            },
            Some(state) => lines_of_log(state, width.saturating_sub(2) as usize, millis),
        };
        assert(lines@.len() == chat_line_views(lines@).len());
        let total = lines.len();
        let visible = height as usize;
        let offset = resolve_scroll(self.scroll, total, visible);
        self.scroll = ScrollTarget::Offset(offset);
        let selected = if total <= visible {
            None
        } else {
            Some(offset + visible.saturating_sub(1))
        };
        Some(ChatView { lines, selected })
    }
}

/// The columns left for text in an inner area `width` columns wide: two are
/// kept free.
pub open spec fn available_width(width: u16) -> nat {
    if width >= 2 {
        (width - 2) as nat
    } else {
        0
    }
}

} // verus!
