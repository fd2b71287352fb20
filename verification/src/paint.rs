//! Status lines as text for a terminal, painted through `colored`.
//!
//! Whether `colored` emits escape sequences depends on the terminal and the
//! environment of the process, so the contracts here say what holds either
//! way: the layout of the line, the exact text of every segment that is
//! shown plain, and of every other segment that it is shown either as its
//! text alone or as its text between the escape sequence of its style and
//! the reset sequence.

use vstd::prelude::*;
use crate::status::{
    join_spaced, lemma_spaced_is_no_shorter, plain_text_of, segment_texts, spaced, Segment,
    SegmentView, StatusLine, Style,
};
use crate::views::texts_of;

verus! {

#[verifier::external_type_specification]
#[verifier::external_body]
pub struct ExColoredString(colored::ColoredString);

/// The text that a painted string was made of and carries with it: the
/// field `input` of a `colored::ColoredString`.
pub uninterp spec fn painted_text(painted: colored::ColoredString) -> Seq<char>;

/// The character that opens an escape sequence.
pub open spec fn escape() -> char {
    '\u{1b}'
}

/// `text` with `before` in front of it and `after` behind it.
pub open spec fn framed(before: Seq<char>, text: Seq<char>, after: Seq<char>) -> Seq<char> {
    before + text + after
}

/// Whether `shown` holds `text` in one piece, with whatever before and
/// after it.
pub open spec fn holds_text(shown: Seq<char>, text: Seq<char>) -> bool {
    exists|before: Seq<char>, after: Seq<char>| shown == #[trigger] framed(before, text, after)
}

/// The escape sequence that stands for the colour and style of a painted
/// string: what its `Display` writes in front of the text where the process
/// colours its output. It is read off the string's own fields, a colour
/// given by its components counting as itself whatever the terminal shows.
pub uninterp spec fn painted_style(painted: colored::ColoredString) -> Seq<char>;

/// The escape sequence that ends every painted text.
pub open spec fn reset_sequence() -> Seq<char> {
    "\u{1b}[0m"@
}

/// The escape sequence of each style of a segment; none for a plain one.
pub open spec fn style_sequence(style: Style) -> Seq<char> {
    match style {
        Style::Plain => Seq::empty(),
        Style::Cyan => "\u{1b}[36m"@,
        Style::GreenBold => "\u{1b}[1;32m"@,
        Style::Dimmed => "\u{1b}[2m"@,
        Style::RedBold => "\u{1b}[1;31m"@,
    }
}

/// Whether `sequence` is that of one of the styles a segment can have.
pub open spec fn is_segment_style(sequence: Seq<char>) -> bool {
    sequence == style_sequence(Style::Cyan) || sequence == style_sequence(Style::GreenBold)
        || sequence == style_sequence(Style::Dimmed) || sequence == style_sequence(
        Style::RedBold,
    )
}

/// `text` as it is written in the style of `sequence`: the sequence, the
/// text, and the reset.
pub open spec fn in_style(sequence: Seq<char>, text: Seq<char>) -> Seq<char> {
    framed(sequence, text, reset_sequence())
}

/// Calls `colored::Colorize::cyan` on a string slice. Trusted: the painted
/// string carries the text it was given, and its style is cyan alone.
#[verifier::external_body]
fn cyan(text: &str) -> (painted: colored::ColoredString)
    ensures
        painted_text(painted) == text@,
        painted_style(painted) == "\u{1b}[36m"@,
{
    colored::Colorize::cyan(text)
}

/// Calls `colored::Colorize::green` on a string slice. Trusted: the painted
/// string carries the text it was given, and its style is green alone.
#[verifier::external_body]
fn green(text: &str) -> (painted: colored::ColoredString)
    ensures
        painted_text(painted) == text@,
        painted_style(painted) == "\u{1b}[32m"@,
{
    colored::Colorize::green(text)
}

/// Calls `colored::Colorize::red` on a string slice. Trusted: the painted
/// string carries the text it was given, and its style is red alone.
#[verifier::external_body]
fn red(text: &str) -> (painted: colored::ColoredString)
    ensures
        painted_text(painted) == text@,
        painted_style(painted) == "\u{1b}[31m"@,
{
    colored::Colorize::red(text)
}

/// Calls `colored::Colorize::dimmed` on a string slice. Trusted: the
/// painted string carries the text it was given, and its style is dimmed
/// alone.
#[verifier::external_body]
fn dimmed(text: &str) -> (painted: colored::ColoredString)
    ensures
        painted_text(painted) == text@,
        painted_style(painted) == "\u{1b}[2m"@,
{
    colored::Colorize::dimmed(text)
}

/// Calls `colored::Colorize::bold` on a painted string. Trusted: the text
/// that is carried stays, and a string that was green alone or red alone is
/// then bold and of that colour, the code for bold written before the
/// colour's.
#[verifier::external_body]
fn bold(painted: colored::ColoredString) -> (bolder: colored::ColoredString)
    ensures
        painted_text(bolder) == painted_text(painted),
        painted_style(painted) == "\u{1b}[32m"@ ==> painted_style(bolder) == "\u{1b}[1;32m"@,
        painted_style(painted) == "\u{1b}[31m"@ ==> painted_style(bolder) == "\u{1b}[1;31m"@,
{
    colored::Colorize::bold(painted)
}

/// Formats a painted string through its `Display` implementation. Trusted.
/// Whether escape sequences are written depends on the process, so only
/// what holds either way is claimed. The carried text is written out, with
/// at most a style sequence before it, the reset sequence after it, and the
/// style repeated behind each reset sequence inside it: the result is never
/// shorter than the carried text, and it holds that text in one piece
/// where the text has no escape character in it. For such a text in one of
/// the styles of a segment, the result is either the text alone or the text
/// in that style, and nothing else.
#[verifier::external_body]
fn rendered(painted: &colored::ColoredString) -> (text: String)
    ensures
        text@.len() >= painted_text(*painted).len(),
        !painted_text(*painted).contains(escape()) ==> holds_text(
            text@,
            painted_text(*painted),
        ),
        !painted_text(*painted).contains(escape()) && is_segment_style(painted_style(*painted))
            ==> text@ == painted_text(*painted) || text@ == in_style(
            painted_style(*painted),
            painted_text(*painted),
        ),
{
    painted.to_string()
}

/// Whether every segment of `line` is shown plain.
pub open spec fn all_plain(line: Seq<SegmentView>) -> bool {
    forall|i: int| 0 <= i < line.len() ==> (#[trigger] line[i]).style == Style::Plain
}

/// Whether `part` can be what a segment was painted as. A plain segment is
/// painted as its text. A styled segment whose text has no escape character
/// in it is painted either as its text alone, where the process does not
/// colour its output, or as its text in the segment's style. Any segment is
/// painted no shorter than its text.
pub open spec fn paints_segment(shown: SegmentView, part: Seq<char>) -> bool {
    &&& shown.style == Style::Plain ==> part == shown.text
    &&& part.len() >= shown.text.len()
    &&& !shown.text.contains(escape()) ==> part == shown.text || part == in_style(
        style_sequence(shown.style),
        shown.text,
    )
}

/// Whether `parts` can be what the segments of `line` were painted as: one
/// part per segment, each as [`paints_segment`] says.
pub open spec fn paints(line: Seq<SegmentView>, parts: Seq<Seq<char>>) -> bool {
    &&& parts.len() == line.len()
    &&& forall|i: int| 0 <= i < line.len() ==> paints_segment(#[trigger] line[i], parts[i])
}

/// However a segment whose text has no escape character in it is painted,
/// its text stands in the result in one piece.
pub proof fn lemma_painted_segment_holds_text(shown: SegmentView, part: Seq<char>)
    requires
        paints_segment(shown, part),
        !shown.text.contains(escape()),
    ensures
        holds_text(part, shown.text),
{
    if part == shown.text {
        let nothing = Seq::<char>::empty();
        assert(part =~= framed(nothing, shown.text, nothing));
    } else {
        assert(part == framed(style_sequence(shown.style), shown.text, reset_sequence()));
    }
}

/// Paints one segment in its style, as [`paints_segment`] says: a plain
/// segment comes back as its text, a styled one as its text alone or as its
/// text in that style.
pub fn paint(segment: &Segment) -> (painted: String)
    ensures
        paints_segment(segment@, painted@),
{
    let text = segment.text.as_str();
    match segment.style {
        Style::Plain => segment.text.clone(),
        Style::Cyan => rendered(&cyan(text)),
        Style::GreenBold => rendered(&bold(green(text))),
        Style::Dimmed => rendered(&dimmed(text)),
        Style::RedBold => rendered(&bold(red(text))),
    }
}

/// Paints a line for the terminal: every segment painted in its style, as
/// [`paints_segment`] says, and the painted segments separated by single
/// spaces. The result is never shorter than the line's plain text, and a
/// line of plain segments comes back as its plain text.
pub fn render(line: &StatusLine) -> (text: String)
    ensures
        exists|parts: Seq<Seq<char>>| #[trigger] paints(line@, parts) && text@ == spaced(parts),
        text@.len() >= plain_text_of(line@).len(),
        all_plain(line@) ==> text@ == plain_text_of(line@),
{
    let mut parts: Vec<String> = Vec::new();
    let count: usize = line.segments.len();
    let mut done: usize = 0;
    while done < count
        invariant
            count == line.segments@.len(),
            done <= count,
            parts@.len() == done,
            forall|i: int| 0 <= i < done ==> paints_segment(#[trigger] line@[i], parts@[i]@),
        decreases count - done,
    {
        parts.push(paint(&line.segments[done]));
        done = done + 1;
    }
    let text = join_spaced(&parts);
    proof {
        assert(paints(line@, texts_of(parts@)));
        lemma_spaced_is_no_shorter(texts_of(parts@), segment_texts(line@));
        if all_plain(line@) {
            assert(texts_of(parts@) =~= segment_texts(line@));
        }
    }
    text
}

} // verus!
