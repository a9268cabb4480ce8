//! What a command tells the user: lines of text, set off in colour, for one
//! of the two output streams.

use vstd::prelude::*;
use vstd::string::StringExecFns;
use colorful::Colorful;

verus! {

/// The escape sequence that turns green letters on.
pub const GREEN_ON: &'static str = "\x1B[38;5;2m";

/// The escape sequence that turns cyan letters on.
pub const CYAN_ON: &'static str = "\x1B[38;5;6m";

/// The escape sequence that turns a red ground on.
pub const RED_GROUND_ON: &'static str = "\x1B[48;5;1m";

/// The escape sequence that turns every colour off.
pub const COLOUR_OFF: &'static str = "\x1B[0m";

/// `text` in green letters.
pub open spec fn green(text: Seq<char>) -> Seq<char> {
    GREEN_ON@ + text + COLOUR_OFF@
}

/// `text` in cyan letters.
pub open spec fn cyan(text: Seq<char>) -> Seq<char> {
    CYAN_ON@ + text + COLOUR_OFF@
}

/// `text` on a red ground.
pub open spec fn on_red(text: Seq<char>) -> Seq<char> {
    RED_GROUND_ON@ + text + COLOUR_OFF@
}

/// Calls `Colorful::green` and writes the result out. The `colorful` crate
/// writes a text in one of its sixteen basic colours as the escape sequence
/// of the 256-colour palette with the colour's number, here 2, then the text,
/// then the reset sequence.
#[verifier::external_body]
pub(crate) fn paint_green(text: &str) -> (painted: String)
    ensures
        painted@ == green(text@),
{
    text.green().to_string()
}

/// Calls `Colorful::cyan` and writes the result out: as for green, with the
/// colour's number 6.
#[verifier::external_body]
pub(crate) fn paint_cyan(text: &str) -> (painted: String)
    ensures
        painted@ == cyan(text@),
{
    text.cyan().to_string()
}

/// Calls `Colorful::bg_red` and writes the result out: the escape sequence
/// that sets the ground to colour 1 of the 256-colour palette, then the text,
/// then the reset sequence.
#[verifier::external_body]
pub(crate) fn paint_on_red(text: &str) -> (painted: String)
    ensures
        painted@ == on_red(text@),
{
    text.bg_red().to_string()
}

/// The stream that a line goes to.
#[derive(Clone, Copy, Debug, PartialEq, Eq, Structural)]
pub enum Stream {
    /// Standard output.
    Stdout,
    /// Standard error.
    Stderr,
}

/// One line of output: `text` is written to `stream` and the line is ended.
#[derive(Debug)]
pub struct Report {
    pub stream: Stream,
    pub text: String,
}

/// A [`Report`] with its text as a character sequence.
pub ghost struct ReportView {
    pub stream: Stream,
    pub text: Seq<char>,
}

impl View for Report {
    type V = ReportView;

    open spec fn view(&self) -> ReportView {
        ReportView { stream: self.stream, text: self.text@ }
    }
}

impl DeepView for Report {
    type V = ReportView;

    open spec fn deep_view(&self) -> ReportView {
        self@
    }
}

/// A line of standard output that holds `text` as it is.
pub open spec fn plain_line(text: Seq<char>) -> ReportView {
    ReportView { stream: Stream::Stdout, text }
}

/// A line of standard error that holds `text` on a red ground.
pub open spec fn error_line(text: Seq<char>) -> ReportView {
    ReportView { stream: Stream::Stderr, text: on_red(text) }
}

/// The line that passes on what git said: its output as it is, or its error
/// text set off as an error.
pub open spec fn relayed(outcome: Result<Seq<char>, Seq<char>>) -> ReportView {
    match outcome {
        Ok(text) => plain_line(text),
        Err(text) => error_line(text),
    }
}

/// A line of standard output with a green headline, a blank and a cyan
/// subject.
pub open spec fn headline(title: Seq<char>, subject: Seq<char>) -> ReportView {
    ReportView { stream: Stream::Stdout, text: green(title) + " "@ + cyan(subject) }
}

/// The line that lists one staged file: a tab, then the path in cyan.
pub open spec fn file_line(path: Seq<char>) -> ReportView {
    ReportView { stream: Stream::Stdout, text: "\t"@ + cyan(path) }
}

/// The lines that list the staged files: a green title, then one line for
/// each file.
pub open spec fn staged_lines(files: Seq<Seq<char>>) -> Seq<ReportView> {
    seq![ReportView { stream: Stream::Stdout, text: green("Staged files:"@) }] + files.map_values(
        |path: Seq<char>| file_line(path),
    )
}

impl Report {
    /// A line of standard output that holds `text` as it is.
    pub fn plain(text: String) -> (line: Report)
        ensures
            line@ == plain_line(text@),
    {
        Report { stream: Stream::Stdout, text }
    }

    /// A line of standard error that holds `text` on a red ground.
    pub fn error(text: String) -> (line: Report)
        ensures
            line@ == error_line(text@),
    {
        Report { stream: Stream::Stderr, text: paint_on_red(text.as_str()) }
    }

    /// The line that passes on what git said.
    pub fn relay(outcome: Result<String, String>) -> (line: Report)
        ensures
            line@ == relayed(crate::utils::outcome_view(outcome)),
    {
        match outcome {
            Ok(text) => Report::plain(text),
            Err(text) => Report::error(text),
        }
    }

    /// A line of standard output with a green headline, a blank and a cyan
    /// subject.
    pub fn headline(title: &str, subject: &str) -> (line: Report)
        ensures
            line@ == headline(title@, subject@),
    {
        let mut text = paint_green(title);
        text.append(" ");
        text.append(paint_cyan(subject).as_str());
        Report { stream: Stream::Stdout, text }
    }

    /// The line that lists one staged file.
    pub fn file(path: &str) -> (line: Report)
        ensures
            line@ == file_line(path@),
    {
        let mut text = String::from_str("\t");
        text.append(paint_cyan(path).as_str());
        Report { stream: Stream::Stdout, text }
    }

    /// The lines that list the staged files.
    pub fn staged(files: &Vec<String>) -> (listing: Vec<Report>)
        ensures
            listing.deep_view() == staged_lines(files.deep_view()),
    {
        let mut listing: Vec<Report> = Vec::new();
        listing.push(Report { stream: Stream::Stdout, text: paint_green("Staged files:") });
        let mut i: usize = 0;
        while i < files.len()
            invariant
                0 <= i <= files.len(),
                listing.deep_view() == staged_lines(files.deep_view().take(i as int)),
            decreases files.len() - i,
        {
            let ghost before = listing.deep_view();
            listing.push(Report::file(files[i].as_str()));
            proof {
                let all = files.deep_view();
                assert(listing.deep_view() == before.push(file_line(all[i as int])));
                assert(all.take(i + 1) == all.take(i as int).push(all[i as int]));
                assert(staged_lines(all.take(i + 1)) == staged_lines(all.take(i as int)).push(
                    file_line(all[i as int]),
                ));
            }
            i += 1;
        }
        assert(files.deep_view().take(i as int) == files.deep_view());
        listing
    }
}

} // verus!
