//! Status lines: what a progress display shows for a target, as styled
//! segments, and the plain text they spell.

use vstd::prelude::*;
use vstd::string::StringExecFns;
use crate::views::texts_of;

verus! {

/// How a segment of a status line is painted.
#[derive(Clone, Copy, Debug, PartialEq, Eq, Structural)]
pub enum Style {
    Plain,
    Cyan,
    GreenBold,
    Dimmed,
    RedBold,
}

/// A run of text in one style.
#[derive(Debug, PartialEq, Eq)]
pub struct Segment {
    pub text: String,
    pub style: Style,
}

/// Mathematical form of a [`Segment`].
pub ghost struct SegmentView {
    pub text: Seq<char>,
    pub style: Style,
}

impl View for Segment {
    type V = SegmentView;

    open spec fn view(&self) -> SegmentView {
        SegmentView { text: self.text@, style: self.style }
    }
}

/// A status line: segments shown left to right, one space between
/// neighbours.
#[derive(Debug, PartialEq, Eq)]
pub struct StatusLine {
    pub segments: Vec<Segment>,
}

impl View for StatusLine {
    type V = Seq<SegmentView>;

    open spec fn view(&self) -> Seq<SegmentView> {
        Seq::new(self.segments@.len(), |i: int| self.segments@[i]@)
    }
}

/// The texts of the segments of `line`, in order.
pub open spec fn segment_texts(line: Seq<SegmentView>) -> Seq<Seq<char>> {
    Seq::new(line.len(), |i: int| line[i].text)
}

/// `parts` written one after the other with a single space between
/// neighbours.
pub open spec fn spaced(parts: Seq<Seq<char>>) -> Seq<char>
    decreases parts.len(),
{
    if parts.len() == 0 {
        Seq::empty()
    } else if parts.len() == 1 {
        parts[0]
    } else {
        spaced(parts.drop_last()) + " "@ + parts.last()
    }
}

/// The text that `line` spells once styling is dropped: the segments' texts
/// in order, separated by single spaces.
pub open spec fn plain_text_of(line: Seq<SegmentView>) -> Seq<char> {
    spaced(segment_texts(line))
}

/// The segment that shows `text` in `style`.
pub open spec fn segment(text: Seq<char>, style: Style) -> SegmentView {
    SegmentView { text, style }
}

/// The version as it is shown behind a target: `(v<version>)`.
pub open spec fn version_note_of(version: Seq<char>) -> Seq<char> {
    "(v"@ + version + ")"@
}

/// Shown while the metadata of `target` is looked up.
pub open spec fn fetching_line_of(target: Seq<char>) -> Seq<SegmentView> {
    seq![segment("Fetching package info for "@ + target, Style::Plain)]
}

/// Shown while `target` is installed at `version`.
pub open spec fn installing_line_of(target: Seq<char>, version: Seq<char>) -> Seq<SegmentView> {
    seq![segment("Installing "@ + target + " "@ + version_note_of(version), Style::Plain)]
}

/// Final line of a target that was installed at `version`.
pub open spec fn success_line_of(target: Seq<char>, version: Seq<char>) -> Seq<SegmentView> {
    seq![
        segment(target, Style::Cyan),
        segment("installed successfully!"@, Style::GreenBold),
        segment(version_note_of(version), Style::Dimmed),
    ]
}

/// Final line of a target whose installation failed.
pub open spec fn failure_line_of(target: Seq<char>) -> Seq<SegmentView> {
    seq![segment("Failed to install"@, Style::RedBold), segment(target, Style::Plain)]
}

/// Announces that the installation of a set of targets begins.
pub open spec fn install_banner_of() -> Seq<SegmentView> {
    seq![segment("Installing packages..."@, Style::GreenBold)]
}

/// Announces that a project is about to be created.
pub open spec fn creating_line_of() -> Seq<SegmentView> {
    seq![segment("Creating new project..."@, Style::GreenBold)]
}

/// Announces that the project `name` exists and is scaffolded.
pub open spec fn created_line_of(name: Seq<char>) -> Seq<SegmentView> {
    seq![
        segment("Project"@, Style::GreenBold),
        segment(name, Style::GreenBold),
        segment("created successfully!"@, Style::GreenBold),
    ]
}

impl Segment {
    /// A segment that shows `text` in `style`.
    pub fn new(text: String, style: Style) -> (made: Segment)
        ensures
            made@ == segment(text@, style),
    {
        Segment { text, style }
    }

    /// A segment that shows a copy of `text` in `style`.
    pub fn of_str(text: &str, style: Style) -> (made: Segment)
        ensures
            made@ == segment(text@, style),
    {
        Segment { text: String::from_str(text), style }
    }
}

impl StatusLine {
    /// The line without any segment.
    pub fn empty() -> (line: StatusLine)
        ensures
            line@ == Seq::<SegmentView>::empty(),
    {
        let line = StatusLine { segments: Vec::new() };
        assert(line@ =~= Seq::<SegmentView>::empty());
        line
    }

    /// Number of segments.
    pub fn len(&self) -> (count: usize)
        ensures
            count == self@.len(),
    {
        self.segments.len()
    }

    /// The text of the line without styling.
    pub fn plain_text(&self) -> (text: String)
        ensures
            text@ == plain_text_of(self@),
    {
        let mut parts: Vec<String> = Vec::new();
        let count: usize = self.segments.len();
        let mut done: usize = 0;
        while done < count
            invariant
                count == self.segments@.len(),
                done <= count,
                parts@.len() == done,
                forall|i: int| 0 <= i < done ==> (#[trigger] parts@[i])@ == self@[i].text,
            decreases count - done,
        {
            parts.push(self.segments[done].text.clone());
            done = done + 1;
        }
        assert(texts_of(parts@) =~= segment_texts(self@));
        join_spaced(&parts)
    }
}

/// Writes `parts` one after the other with a single space between
/// neighbours.
pub fn join_spaced(parts: &Vec<String>) -> (text: String)
    ensures
        text@ == spaced(texts_of(parts@)),
{
    let ghost texts = texts_of(parts@);
    let mut text = String::new();
    let count: usize = parts.len();
    let mut done: usize = 0;
    while done < count
        invariant
            count == parts@.len(),
            texts == texts_of(parts@),
            done <= count,
            text@ == spaced(texts.take(done as int)),
        decreases count - done,
    {
        proof {
            let before = texts.take(done as int);
            let after = texts.take(done + 1);
            assert(after.drop_last() =~= before);
            assert(after.last() == parts@[done as int]@);
            if done == 0 {
                assert(text@ + texts[0] =~= texts[0]);
            }
        }
        if done > 0 {
            text.append(" ");
        }
        text.append(parts[done].as_str());
        done = done + 1;
    }
    assert(texts.take(count as int) =~= texts);
    text
}

/// Concatenation of three texts.
fn glue3(first: &str, second: &str, third: &str) -> (text: String)
    ensures
        text@ == first@ + second@ + third@,
{
    let mut text = String::from_str(first);
    text.append(second);
    text.append(third);
    text
}

/// Builds the note `(v<version>)`.
pub fn version_note(version: &str) -> (note: String)
    ensures
        note@ == version_note_of(version@),
{
    glue3("(v", version, ")")
}

/// Builds the line shown while the metadata of `target` is looked up.
pub fn fetching_line(target: &str) -> (line: StatusLine)
    ensures
        line@ == fetching_line_of(target@),
{
    let mut text = String::from_str("Fetching package info for ");
    text.append(target);
    let mut segments: Vec<Segment> = Vec::new();
    segments.push(Segment::new(text, Style::Plain));
    let line = StatusLine { segments };
    assert(line@ =~= fetching_line_of(target@));
    line
}

/// Builds the line shown while `target` is installed at `version`.
pub fn installing_line(target: &str, version: &str) -> (line: StatusLine)
    ensures
        line@ == installing_line_of(target@, version@),
{
    let mut text = glue3("Installing ", target, " ");
    let note = version_note(version);
    text.append(note.as_str());
    let mut segments: Vec<Segment> = Vec::new();
    segments.push(Segment::new(text, Style::Plain));
    let line = StatusLine { segments };
    assert(line@ =~= installing_line_of(target@, version@));
    line
}

/// Builds the final line of a target that was installed at `version`.
pub fn success_line(target: &str, version: &str) -> (line: StatusLine)
    ensures
        line@ == success_line_of(target@, version@),
{
    let mut segments: Vec<Segment> = Vec::new();
    segments.push(Segment::of_str(target, Style::Cyan));
    segments.push(Segment::of_str("installed successfully!", Style::GreenBold));
    segments.push(Segment::new(version_note(version), Style::Dimmed));
    let line = StatusLine { segments };
    assert(line@ =~= success_line_of(target@, version@));
    line
}

/// Builds the final line of a target whose installation failed.
pub fn failure_line(target: &str) -> (line: StatusLine)
    ensures
        line@ == failure_line_of(target@),
{
    let mut segments: Vec<Segment> = Vec::new();
    segments.push(Segment::of_str("Failed to install", Style::RedBold));
    segments.push(Segment::of_str(target, Style::Plain));
    let line = StatusLine { segments };
    assert(line@ =~= failure_line_of(target@));
    line
}

/// Builds the banner that opens an installation run.
pub fn install_banner() -> (line: StatusLine)
    ensures
        line@ == install_banner_of(),
{
    let mut segments: Vec<Segment> = Vec::new();
    segments.push(Segment::of_str("Installing packages...", Style::GreenBold));
    let line = StatusLine { segments };
    assert(line@ =~= install_banner_of());
    line
}

/// Builds the banner that opens the creation of a project.
pub fn creating_line() -> (line: StatusLine)
    ensures
        line@ == creating_line_of(),
{
    let mut segments: Vec<Segment> = Vec::new();
    segments.push(Segment::of_str("Creating new project...", Style::GreenBold));
    let line = StatusLine { segments };
    assert(line@ =~= creating_line_of());
    line
}

/// Builds the line that reports the project `name` as created.
pub fn created_line(name: &str) -> (line: StatusLine)
    ensures
        line@ == created_line_of(name@),
{
    let mut segments: Vec<Segment> = Vec::new();
    segments.push(Segment::of_str("Project", Style::GreenBold));
    segments.push(Segment::of_str(name, Style::GreenBold));
    segments.push(Segment::of_str("created successfully!", Style::GreenBold));
    let line = StatusLine { segments };
    assert(line@ =~= created_line_of(name@));
    line
}

/// One, two or three parts, spaced, written out.
pub proof fn lemma_spaced_short(parts: Seq<Seq<char>>)
    ensures
        parts.len() == 1 ==> spaced(parts) == parts[0],
        parts.len() == 2 ==> spaced(parts) == parts[0] + " "@ + parts[1],
        parts.len() == 3 ==> spaced(parts) == parts[0] + " "@ + parts[1] + " "@ + parts[2],
{
    reveal_with_fuel(spaced, 4);
    if parts.len() == 2 {
        assert(parts.drop_last()[0] == parts[0]);
    }
    if parts.len() == 3 {
        assert(parts.drop_last().drop_last()[0] == parts[0]);
        assert(parts.drop_last().last() == parts[1]);
    }
}

/// The plain texts of the lines of a target, written out: what the display
/// shows of a target, styling aside, at each stage of its installation.
pub proof fn lemma_plain_texts(target: Seq<char>, version: Seq<char>)
    ensures
        plain_text_of(fetching_line_of(target)) == "Fetching package info for "@ + target,
        plain_text_of(installing_line_of(target, version)) == "Installing "@ + target + " "@ + "(v"@
            + version + ")"@,
        plain_text_of(success_line_of(target, version)) == target + " "@
            + "installed successfully!"@ + " "@ + ("(v"@ + version + ")"@),
        plain_text_of(failure_line_of(target)) == "Failed to install"@ + " "@ + target,
{
    lemma_spaced_short(segment_texts(fetching_line_of(target)));
    lemma_spaced_short(segment_texts(installing_line_of(target, version)));
    lemma_spaced_short(segment_texts(success_line_of(target, version)));
    lemma_spaced_short(segment_texts(failure_line_of(target)));
    assert("Installing "@ + target + " "@ + ("(v"@ + version + ")"@) =~= "Installing "@ + target
        + " "@ + "(v"@ + version + ")"@);
}

/// Parts that are each at least as long as their counterparts are, spaced,
/// at least as long as the counterparts spaced.
pub proof fn lemma_spaced_is_no_shorter(longer: Seq<Seq<char>>, shorter: Seq<Seq<char>>)
    requires
        longer.len() == shorter.len(),
        forall|i: int| 0 <= i < shorter.len() ==> (#[trigger] longer[i]).len() >= shorter[i].len(),
    ensures
        spaced(longer).len() >= spaced(shorter).len(),
    decreases shorter.len(),
{
    if shorter.len() >= 2 {
        assert forall|i: int| 0 <= i < shorter.drop_last().len() implies (
        #[trigger] longer.drop_last()[i]).len() >= shorter.drop_last()[i].len() by {
            assert(longer.drop_last()[i] == longer[i]);
        }
        lemma_spaced_is_no_shorter(longer.drop_last(), shorter.drop_last());
        assert(longer.last() == longer[longer.len() - 1]);
    } else if shorter.len() == 1 {
        assert(longer[0].len() >= shorter[0].len());
    }
}

} // verus!
