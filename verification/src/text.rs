//! The text that travels on the wire: how a command is framed and how a
//! reply line is read.

use vstd::prelude::*;
use vstd::string::*;
use vstd::utf8::encode_utf8;

verus! {

/// The characters that count as white space at either end of a reply
/// line: those with Unicode's `White_Space` property.
pub open spec fn is_white_space(c: char) -> bool {
    ||| '\u{9}' <= c <= '\u{d}'
    ||| c == ' '
    ||| c == '\u{85}'
    ||| c == '\u{a0}'
    ||| c == '\u{1680}'
    ||| '\u{2000}' <= c <= '\u{200a}'
    ||| c == '\u{2028}'
    ||| c == '\u{2029}'
    ||| c == '\u{202f}'
    ||| c == '\u{205f}'
    ||| c == '\u{3000}'
}

/// `char::is_whitespace`, which says whether a character has Unicode's
/// `White_Space` property. Nothing is proved of it: the contract takes the
/// characters listed in `is_white_space` to be the ones with that property.
pub assume_specification[ char::is_whitespace ](c: char) -> (white: bool)
    ensures
        white == is_white_space(c),
;

/// `text` without the white space at its start.
pub open spec fn trim_start(text: Seq<char>) -> Seq<char>
    decreases text.len(),
{
    if text.len() > 0 && is_white_space(text.first()) {
        trim_start(text.drop_first())
    } else {
        text
    }
}

/// `text` without the white space at its end.
pub open spec fn trim_end(text: Seq<char>) -> Seq<char>
    decreases text.len(),
{
    if text.len() > 0 && is_white_space(text.last()) {
        trim_end(text.drop_last())
    } else {
        text
    }
}

/// `text` without the white space at either end.
pub open spec fn trimmed(text: Seq<char>) -> Seq<char> {
    trim_end(trim_start(text))
}

/// The number of characters that `text` holds before its first line feed,
/// or in all where it holds none.
pub open spec fn line_end(text: Seq<char>) -> int
    decreases text.len(),
{
    if text.len() == 0 || text.first() == '\n' {
        0
    } else {
        1 + line_end(text.drop_first())
    }
}

/// The first line of `text`: what stands before its first line feed, or
/// all of it where it holds none.
pub open spec fn first_line(text: Seq<char>) -> Seq<char> {
    text.take(line_end(text))
}

/// A command as it is written on the wire: its text and one line feed.
pub open spec fn framed(command: Seq<char>) -> Seq<char> {
    command.push('\n')
}

/// Skipping `count` white-space characters at the start of `text` changes
/// nothing of what `trim_start` gives.
proof fn lemma_trim_start_skips(text: Seq<char>, count: int)
    requires
        0 <= count <= text.len(),
        forall|i: int| 0 <= i < count ==> is_white_space(#[trigger] text[i]),
    ensures
        trim_start(text) == trim_start(text.skip(count)),
    decreases count,
{
    if count == 0 {
        assert(text.skip(0) =~= text);
    } else {
        assert(is_white_space(text[0]));
        let rest = text.drop_first();
        assert forall|i: int| 0 <= i < count - 1 implies is_white_space(#[trigger] rest[i]) by {
            assert(rest[i] == text[i + 1]);
        }
        lemma_trim_start_skips(rest, count - 1);
        assert(rest.skip(count - 1) =~= text.skip(count));
    }
}

/// Dropping white-space characters at the end of `text`, down to the
/// length `keep`, changes nothing of what `trim_end` gives.
proof fn lemma_trim_end_takes(text: Seq<char>, keep: int)
    requires
        0 <= keep <= text.len(),
        forall|i: int| keep <= i < text.len() ==> is_white_space(#[trigger] text[i]),
    ensures
        trim_end(text) == trim_end(text.take(keep)),
    decreases text.len() - keep,
{
    if keep == text.len() {
        assert(text.take(keep) =~= text);
    } else {
        assert(is_white_space(text[text.len() - 1]));
        let rest = text.drop_last();
        assert forall|i: int| keep <= i < rest.len() implies is_white_space(#[trigger] rest[i]) by {
            assert(rest[i] == text[i]);
        }
        lemma_trim_end_takes(rest, keep);
        assert(rest.take(keep) =~= text.take(keep));
    }
}

/// Where `text` holds white space before `start` and from `end` on, and
/// none at `start` and just before `end`, `trimmed` gives the part between
/// the two.
proof fn lemma_trimmed_is_subrange(text: Seq<char>, start: int, end: int)
    requires
        0 <= start <= end <= text.len(),
        forall|i: int| 0 <= i < start ==> is_white_space(#[trigger] text[i]),
        forall|i: int| end <= i < text.len() ==> is_white_space(#[trigger] text[i]),
        start < end ==> !is_white_space(text[start]) && !is_white_space(text[end - 1]),
        start == end ==> end == text.len(),
    ensures
        trimmed(text) == text.subrange(start, end),
{
    lemma_trim_start_skips(text, start);
    let tail = text.skip(start);
    if start < end {
        assert(tail[0] == text[start]);
        assert(trim_start(tail) == tail);
        assert forall|i: int| end - start <= i < tail.len() implies is_white_space(
            #[trigger] tail[i],
        ) by {
            assert(tail[i] == text[i + start]);
        }
        lemma_trim_end_takes(tail, end - start);
        let kept = tail.take(end - start);
        assert(kept.last() == text[end - 1]);
        assert(trim_end(kept) == kept);
        assert(kept =~= text.subrange(start, end));
    } else {
        assert(tail.len() == 0);
        assert(trim_start(tail) == tail);
        assert(trim_end(tail) == tail);
        assert(tail =~= text.subrange(start, end));
    }
}

/// Where `text` holds no line feed before `end`, and one at `end` unless
/// it ends there, its first line ends at `end`.
proof fn lemma_line_ends_at(text: Seq<char>, end: int)
    requires
        0 <= end <= text.len(),
        forall|i: int| 0 <= i < end ==> #[trigger] text[i] != '\n',
        end < text.len() ==> text[end] == '\n',
    ensures
        line_end(text) == end,
    decreases end,
{
    if end > 0 {
        assert(text[0] != '\n');
        let rest = text.drop_first();
        assert forall|i: int| 0 <= i < end - 1 implies #[trigger] rest[i] != '\n' by {
            assert(rest[i] == text[i + 1]);
        }
        lemma_line_ends_at(rest, end - 1);
    }
}

/// A text has no more characters than its UTF-8 encoding has bytes.
proof fn lemma_chars_fit_in_bytes(text: Seq<char>)
    ensures
        text.len() <= encode_utf8(text).len(),
    decreases text.len(),
{
    if text.len() > 0 {
        lemma_chars_fit_in_bytes(text.drop_first());
    }
}

/// Returns `command` as it is written on the wire.
pub fn frame(command: &str) -> (request: String)
    ensures
        request@ == framed(command@),
{
    proof {
        reveal_strlit("\n");
    }
    let request = String::from_str(command).concat("\n");
    assert(request@ =~= framed(command@));
    request
}

/// Returns the first line of `text`, without the line feed that ends it.
pub fn cut_line(text: &str) -> (line: &str)
    ensures
        line@ == first_line(text@),
{
    let mut end: usize = 0;
    let mut open: bool = true;
    let bytes: usize = text.as_bytes().len();
    proof {
        lemma_chars_fit_in_bytes(text@);
    }
    for c in it: text.chars()
        invariant
            it.seq() == text@,
            text@.len() <= bytes,
            0 <= end <= it.index(),
            open ==> end == it.index(),
            !open ==> end < it.index() && text@[end as int] == '\n',
            forall|i: int| 0 <= i < end ==> #[trigger] text@[i] != '\n',
    {
        if open {
            if c == '\n' {
                open = false;
            } else {
                end = end + 1;
            }
        }
    }
    proof {
        lemma_line_ends_at(text@, end as int);
    }
    text.substring_char(0, end)
}

/// Returns `line` without the white space at either end.
pub fn trim(line: &str) -> (text: String)
    ensures
        text@ == trimmed(line@),
{
    let mut start: usize = 0;
    let mut end: usize = 0;
    let mut at: usize = 0;
    let bytes: usize = line.as_bytes().len();
    proof {
        lemma_chars_fit_in_bytes(line@);
    }
    for c in it: line.chars()
        invariant
            it.seq() == line@,
            line@.len() <= bytes,
            at == it.index(),
            (start == at && end == 0) || start < end <= at,
            forall|i: int| 0 <= i < start ==> is_white_space(#[trigger] line@[i]),
            forall|i: int| end <= i < at && start <= i ==> is_white_space(#[trigger] line@[i]),
            start < end ==> !is_white_space(line@[start as int]) && !is_white_space(
                line@[end - 1],
            ),
    {
        if !c.is_whitespace() {
            end = at + 1;
        } else if start == at {
            start = at + 1;
        }
        at = at + 1;
    }
    if start < end {
        proof {
            lemma_trimmed_is_subrange(line@, start as int, end as int);
        }
        line.substring_char(start, end).to_owned()
    } else {
        proof {
            lemma_trimmed_is_subrange(line@, line@.len() as int, line@.len() as int);
        }
        let text = String::new();
        assert(text@ =~= line@.subrange(line@.len() as int, line@.len() as int));
        text
    }
}

} // verus!
