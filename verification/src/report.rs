//! The record of a diagnostic run.
//!
//! A report is written line by line while a diagnosis or a repair runs and
//! is handed over as a whole when the run has ended. It is a finished
//! record, not a stream: lines are only ever added at its end.

use vstd::prelude::*;
use vstd::string::StringExecFns;

verus! {

/// What a line of a report says about its step.
#[derive(Clone, Copy, PartialEq, Eq, Debug, Structural)]
pub enum StepMark {
    /// The line opens a part of the report.
    Heading,
    /// The step went well.
    Passed,
    /// The step failed.
    Failed,
    /// The step did not fail, but something is not as it should be.
    Warning,
    /// The line adds to the one before it.
    Note,
}

/// One line of a report.
#[derive(Debug)]
pub struct ReportLine {
    pub mark: StepMark,
    pub text: String,
}

pub struct ReportLineView {
    pub mark: StepMark,
    pub text: Seq<char>,
}

impl View for ReportLine {
    type V = ReportLineView;

    open spec fn view(&self) -> ReportLineView {
        ReportLineView { mark: self.mark, text: self.text@ }
    }
}

impl ReportLine {
    /// A copy of the line.
    pub fn duplicate(&self) -> (r: Self)
        ensures
            r@ == self@,
    {
        ReportLine { mark: self.mark, text: self.text.clone() }
    }
}

pub open spec fn lines_view(v: Seq<ReportLine>) -> Seq<ReportLineView> {
    Seq::new(v.len(), |i: int| v[i]@)
}

pub open spec fn heading(text: Seq<char>) -> ReportLineView {
    ReportLineView { mark: StepMark::Heading, text }
}

pub open spec fn passed(text: Seq<char>) -> ReportLineView {
    ReportLineView { mark: StepMark::Passed, text }
}

pub open spec fn failed(text: Seq<char>) -> ReportLineView {
    ReportLineView { mark: StepMark::Failed, text }
}

pub open spec fn warning(text: Seq<char>) -> ReportLineView {
    ReportLineView { mark: StepMark::Warning, text }
}

pub open spec fn note(text: Seq<char>) -> ReportLineView {
    ReportLineView { mark: StepMark::Note, text }
}

/// Adds a line to the end of a report's lines.
pub fn push_line(lines: &mut Vec<ReportLine>, mark: StepMark, text: String)
    ensures
        lines_view(final(lines)@) == lines_view(old(lines)@).push(ReportLineView { mark, text: text@ }),
{
    lines.push(ReportLine { mark, text });
    assert(lines_view(lines@) =~= lines_view(old(lines)@).push(ReportLineView { mark, text: text@ }));
}

/// A copy of the lines.
pub fn copy_lines(lines: &Vec<ReportLine>) -> (r: Vec<ReportLine>)
    ensures
        lines_view(r@) == lines_view(lines@),
{
    let mut r: Vec<ReportLine> = Vec::new();
    let mut i: usize = 0;
    while i < lines.len()
        invariant
            i <= lines.len(),
            lines_view(r@) == lines_view(lines@).take(i as int),
        decreases lines.len() - i,
    {
        let ghost so_far = lines_view(r@);
        let line = lines[i].duplicate();
        r.push(line);
        assert(lines_view(r@) =~= so_far.push(line@));
        assert(so_far.push(line@) =~= lines_view(lines@).take(i + 1));
        i += 1;
    }
    assert(lines_view(lines@).take(lines.len() as int) == lines_view(lines@));
    r
}

/// The finished record of a diagnostic run.
#[derive(Debug)]
pub struct DiagnosticReport {
    /// The lines, in the order in which the steps were taken.
    pub lines: Vec<ReportLine>,
    /// Whether the run reached its aim.
    pub success: bool,
    /// How often the engine's health was asked for.
    pub polls: u32,
}

pub struct DiagnosticReportView {
    pub lines: Seq<ReportLineView>,
    pub success: bool,
    pub polls: u32,
}

impl View for DiagnosticReport {
    type V = DiagnosticReportView;

    open spec fn view(&self) -> DiagnosticReportView {
        DiagnosticReportView {
            lines: lines_view(self.lines@),
            success: self.success,
            polls: self.polls,
        }
    }
}

/// What stands before the text of a line.
pub open spec fn mark_text(mark: StepMark) -> Seq<char> {
    match mark {
        StepMark::Heading => ""@,
        StepMark::Passed => "   ✓ "@,
        StepMark::Failed => "   ✗ "@,
        StepMark::Warning => "   ⚠ "@,
        StepMark::Note => "   "@,
    }
}

/// One line as it is shown: a heading after an empty line, every other line
/// indented behind its mark.
pub open spec fn line_text(line: ReportLineView) -> Seq<char> {
    if line.mark == StepMark::Heading {
        "\n"@ + line.text + "\n"@
    } else {
        mark_text(line.mark) + line.text + "\n"@
    }
}

/// The lines as they are shown, one after the other.
pub open spec fn rendered(lines: Seq<ReportLineView>) -> Seq<char>
    decreases lines.len(),
{
    if lines.len() == 0 {
        Seq::empty()
    } else {
        rendered(lines.drop_last()) + line_text(lines.last())
    }
}

fn append_line(out: &mut String, line: &ReportLine)
    ensures
        final(out)@ == old(out)@ + line_text(line@),
{
    proof {
        reveal_strlit("");
    }
    match line.mark {
        StepMark::Heading => out.append("\n"),
        StepMark::Passed => out.append("   ✓ "),
        StepMark::Failed => out.append("   ✗ "),
        StepMark::Warning => out.append("   ⚠ "),
        StepMark::Note => out.append("   "),
    }
    out.append(line.text.as_str());
    out.append("\n");
    assert(out@ =~= old(out)@ + line_text(line@));
}

impl DiagnosticReport {
    /// The report as text.
    pub fn render(&self) -> (r: String)
        ensures
            r@ == rendered(self@.lines),
    {
        let mut r = String::new();
        let mut i: usize = 0;
        while i < self.lines.len()
            invariant
                i <= self.lines.len(),
                r@ == rendered(lines_view(self.lines@).take(i as int)),
            decreases self.lines.len() - i,
        {
            let ghost next = lines_view(self.lines@).take(i + 1);
            assert(next.drop_last() == lines_view(self.lines@).take(i as int));
            assert(next.last() == self.lines@[i as int]@);
            append_line(&mut r, &self.lines[i]);
            i += 1;
        }
        assert(lines_view(self.lines@).take(self.lines.len() as int) == lines_view(self.lines@));
        r
    }
}

} // verus!
