//! Text as lines: joining the lines of an editor, and trimming what the
//! user typed.

use vstd::prelude::*;
use crate::editor::{inserted_lines, line_views, split_lines, without_return};

verus! {

/// Whether a character counts as white space, which is to have the Unicode
/// property White_Space: of ASCII the space and the characters from the
/// horizontal tab to the carriage return; beyond ASCII the next line, the
/// no-break space, the ogham space mark, the spaces from the en quad to the
/// hair space, the line and the paragraph separator, the narrow no-break
/// space, the medium mathematical space and the ideographic space.
pub open spec fn is_whitespace(c: char) -> bool {
    ||| c == ' '
    ||| ('\t' <= c && c <= '\r')
    ||| c == '\u{85}'
    ||| c == '\u{a0}'
    ||| c == '\u{1680}'
    ||| ('\u{2000}' <= c && c <= '\u{200a}')
    ||| c == '\u{2028}'
    ||| c == '\u{2029}'
    ||| c == '\u{202f}'
    ||| c == '\u{205f}'
    ||| c == '\u{3000}'
}

/// `char::is_whitespace`: whether the character has the Unicode property
/// White_Space, which 25 characters have.
#[verifier::external_body]
pub(crate) fn char_is_whitespace(c: char) -> (white: bool)
    ensures
        white == is_whitespace(c),
{
    c.is_whitespace()
}

/// The lines with a line feed between each two neighbours.
pub open spec fn joined(lines: Seq<Seq<char>>) -> Seq<char>
    decreases lines.len(),
{
    if lines.len() == 0 {
        Seq::empty()
    } else if lines.len() == 1 {
        lines[0]
    } else {
        joined(lines.drop_last()) + seq!['\n'] + lines.last()
    }
}

/// The text without the white space it starts with.
pub open spec fn trim_start(text: Seq<char>) -> Seq<char>
    decreases text.len(),
{
    if text.len() > 0 && is_whitespace(text.first()) {
        trim_start(text.drop_first())
    } else {
        text
    }
}

/// The text without the white space it ends with.
pub open spec fn trim_end(text: Seq<char>) -> Seq<char>
    decreases text.len(),
{
    if text.len() > 0 && is_whitespace(text.last()) {
        trim_end(text.drop_last())
    } else {
        text
    }
}

/// The text without the white space at either end.
pub open spec fn trimmed(text: Seq<char>) -> Seq<char> {
    trim_end(trim_start(text))
}

/// Skipping `k` leading white-space characters, up to the first character
/// that is none, is trimming the start.
pub proof fn lemma_trim_start_at(text: Seq<char>, k: int)
    requires
        0 <= k <= text.len(),
        forall|i: int| 0 <= i < k ==> is_whitespace(#[trigger] text[i]),
        k < text.len() ==> !is_whitespace(text[k]),
    ensures
        trim_start(text) == text.subrange(k, text.len() as int),
    decreases k,
{
    if k == 0 {
        assert(text.subrange(0, text.len() as int) =~= text);
    } else {
        let rest = text.drop_first();
        assert(is_whitespace(text[0]));
        assert forall|i: int| 0 <= i < k - 1 implies is_whitespace(#[trigger] rest[i]) by {
            assert(rest[i] == text[i + 1]);
        }
        lemma_trim_start_at(rest, k - 1);
        assert(rest.subrange(k - 1, rest.len() as int) =~= text.subrange(k, text.len() as int));
    }
}

/// Dropping the trailing white-space characters after position `k`, down to
/// the last character that is none, is trimming the end.
pub proof fn lemma_trim_end_at(text: Seq<char>, k: int)
    requires
        0 <= k <= text.len(),
        forall|i: int| k <= i < text.len() ==> is_whitespace(#[trigger] text[i]),
        k > 0 ==> !is_whitespace(text[k - 1]),
    ensures
        trim_end(text) == text.subrange(0, k),
    decreases text.len() - k,
{
    if k == text.len() {
        assert(text.subrange(0, k) =~= text);
    } else {
        let rest = text.drop_last();
        assert(is_whitespace(text[text.len() - 1]));
        assert forall|i: int| k <= i < rest.len() implies is_whitespace(#[trigger] rest[i]) by {
            assert(rest[i] == text[i]);
        }
        lemma_trim_end_at(rest, k);
        assert(rest.subrange(0, k) =~= text.subrange(0, k));
    }
}

/// The text without the white space at either end.
pub fn trim(text: &str) -> (kept: String)
    ensures
        kept@ == trimmed(text@),
{
    let n: usize = text.unicode_len();
    let mut start: usize = 0;
    while start < n && char_is_whitespace(text.get_char(start))
        invariant
            start <= n,
            n == text@.len(),
            forall|i: int| 0 <= i < start ==> is_whitespace(#[trigger] text@[i]),
        decreases n - start,
    {
        start += 1;
    }
    let mut end: usize = n;
    while end > start && char_is_whitespace(text.get_char(end - 1))
        invariant
            start <= end <= n,
            n == text@.len(),
            forall|i: int| end <= i < n ==> is_whitespace(#[trigger] text@[i]),
        decreases end,
    {
        end -= 1;
    }
    proof {
        lemma_trim_start_at(text@, start as int);
        let tail = text@.subrange(start as int, n as int);
        assert forall|i: int| end - start <= i < tail.len() implies is_whitespace(
            #[trigger] tail[i],
        ) by {
            assert(tail[i] == text@[i + start]);
        }
        if end > start {
            assert(tail[end - start - 1] == text@[end - 1]);
        }
        lemma_trim_end_at(tail, end - start);
        assert(tail.subrange(0, end - start) =~= text@.subrange(start as int, end as int));
    }
    text.substring_char(start, end).to_owned()
}

/// The lines with a line feed between each two neighbours.
pub fn join_lines(lines: &Vec<String>) -> (text: String)
    ensures
        text@ == joined(line_views(lines@)),
{
    let ghost views = line_views(lines@);
    let mut text = String::new();
    let mut i: usize = 0;
    while i < lines.len()
        invariant
            i <= lines.len(),
            views == line_views(lines@),
            text@ == joined(views.take(i as int)),
        decreases lines.len() - i,
    {
        proof {
            reveal_strlit("\n");
            assert(views.take(i + 1).drop_last() =~= views.take(i as int));
            assert(views.take(i + 1).last() == lines@[i as int]@);
            if i == 0 {
                assert(Seq::<char>::empty() + lines@[0]@ =~= lines@[0]@);
            }
        }
        if i > 0 {
            text.append("\n");
        }
        text.append(lines[i].as_str());
        i += 1;
    }
    assert(views.take(lines.len() as int) =~= views);
    text
}

/// Whether no carriage return of the text stands right before a line feed
/// or at the very end: those are the ones that an editor drops.
pub open spec fn keeps_returns(text: Seq<char>) -> bool {
    forall|i: int|
        0 <= i < text.len() && #[trigger] text[i] == '\r' ==> i + 1 < text.len() && text[i + 1]
            != '\n'
}

/// Cutting a text at its line feeds and joining the pieces again gives the
/// text back.
pub proof fn lemma_join_split(text: Seq<char>)
    ensures
        joined(split_lines(text)) == text,
        split_lines(text).len() >= 1,
    decreases text.len(),
{
    if text.len() > 0 && text.contains('\n') {
        let at = text.index_of('\n');
        let head = text.subrange(0, at);
        let tail = text.subrange(at + 1, text.len() as int);
        lemma_join_split(tail);
        lemma_joined_prepend(head, split_lines(tail));
        assert(head + seq!['\n'] + tail =~= text);
    }
}

/// Joining with one more line in front puts that line and a line feed
/// before the rest.
pub proof fn lemma_joined_prepend(head: Seq<char>, rest: Seq<Seq<char>>)
    requires
        rest.len() >= 1,
    ensures
        joined(seq![head] + rest) == head + seq!['\n'] + joined(rest),
    decreases rest.len(),
{
    let all = seq![head] + rest;
    assert(all.len() == rest.len() + 1);
    if rest.len() == 1 {
        assert(all.drop_last() =~= seq![head]);
        assert(all.last() == rest[0]);
        assert(joined(seq![head]) == head);
        assert(joined(rest) == rest[0]);
        assert(joined(all) == joined(all.drop_last()) + seq!['\n'] + all.last());
    } else {
        lemma_joined_prepend(head, rest.drop_last());
        assert(all.drop_last() =~= seq![head] + rest.drop_last());
        assert(all.last() == rest.last());
        assert(head + seq!['\n'] + joined(rest.drop_last()) + seq!['\n'] + rest.last() =~= head
            + seq!['\n'] + (joined(rest.drop_last()) + seq!['\n'] + rest.last()));
    }
}

/// A text in which no carriage return stands before a line feed or at the
/// end goes into a blank editor unchanged: its lines are the pieces between
/// the line feeds, and joined they are the text again.
pub proof fn lemma_inserted_text_is_kept(text: Seq<char>)
    requires
        keeps_returns(text),
    ensures
        inserted_lines(text) == split_lines(text),
        joined(inserted_lines(text)) == text,
{
    lemma_pieces_keep_returns(text);
    lemma_join_split(text);
    assert(inserted_lines(text) =~= split_lines(text));
}

/// In such a text no piece between line feeds ends in a carriage return.
pub proof fn lemma_pieces_keep_returns(text: Seq<char>)
    requires
        keeps_returns(text),
    ensures
        forall|i: int|
            0 <= i < split_lines(text).len() ==> without_return(#[trigger] split_lines(text)[i])
                == split_lines(text)[i],
    decreases text.len(),
{
    if text.len() > 0 && text.contains('\n') {
        let at = text.index_of('\n');
        let head = text.subrange(0, at);
        let tail = text.subrange(at + 1, text.len() as int);
        assert forall|i: int| 0 <= i < tail.len() && #[trigger] tail[i] == '\r' implies i + 1
            < tail.len() && tail[i + 1] != '\n' by {
            assert(text[i + at + 1] == '\r');
            assert(tail[i + 1] == text[i + at + 2]);
        }
        lemma_pieces_keep_returns(tail);
        if head.len() > 0 && head.last() == '\r' {
            assert(text[at - 1] == '\r');
            assert(text[at] == '\n');
        }
        assert forall|i: int| 0 <= i < split_lines(text).len() implies without_return(
            #[trigger] split_lines(text)[i],
        ) == split_lines(text)[i] by {
            if i > 0 {
                assert(split_lines(text)[i] == split_lines(tail)[i - 1]);
            }
        }
    } else {
        if text.len() > 0 && text.last() == '\r' {
            assert(text[text.len() - 1] == '\r');
        }
    }
}

} // verus!
