//! A block while it is being read: the command that its lines spell and the
//! diagnostics found between them.

use vstd::prelude::*;
use crate::error::ParseError;
use crate::registry::capture::CaptureSet;
use crate::registry::pattern::captures_view;
use crate::registry::table::PatternId;
use crate::registry::Registry;
use crate::step::diagnostic::{diagnostic_of, Diagnostic};
use crate::step::{step_views, Step, StepView};
use crate::text::{is_blank, is_blank_line, join, join_lines, text_view, trim, trimmed, views};

verus! {

/// Where in a block the reader stands.
#[derive(Debug)]
pub enum Phase {
    /// Among the lines of the command.
    Command,
    /// Right after a diagnostic: the next line may quote the source.
    AfterDiagnostic,
    /// Behind the line that followed a diagnostic. The line is held back: it
    /// quoted the source if a cursor line comes next, else it belongs to the
    /// command.
    AfterContext(String),
}

/// What a `Phase` stands for.
pub enum PhaseView {
    Command,
    AfterDiagnostic,
    AfterContext(Seq<char>),
}

impl View for Phase {
    type V = PhaseView;

    open spec fn view(&self) -> PhaseView {
        match self {
            Phase::Command => PhaseView::Command,
            Phase::AfterDiagnostic => PhaseView::AfterDiagnostic,
            Phase::AfterContext(held) => PhaseView::AfterContext(held@),
        }
    }
}

/// What a line of a block is.
#[derive(Debug)]
pub enum LineClass {
    /// A compile error or warning.
    Diagnostic(Step),
    /// Any other line, trimmed, and whether it looks like a cursor line.
    Text { text: String, cursor: bool },
}

/// What a `LineClass` stands for.
pub enum LineClassView {
    Diagnostic(StepView),
    Text { text: Seq<char>, cursor: bool },
}

impl View for LineClass {
    type V = LineClassView;

    open spec fn view(&self) -> LineClassView {
        match self {
            LineClass::Diagnostic(step) => LineClassView::Diagnostic(step@),
            LineClass::Text { text, cursor } => LineClassView::Text { text: text@, cursor: *cursor },
        }
    }
}

/// What the trimmed line `text` is, given what the error and the warning
/// pattern capture in it and whether the cursor pattern matches it. An error
/// goes before a warning.
pub open spec fn class_of(
    text: Seq<char>,
    error: Option<Map<Seq<char>, Seq<char>>>,
    warning: Option<Map<Seq<char>, Seq<char>>>,
    cursor: bool,
) -> LineClassView {
    match diagnostic_of(error) {
        Some(d) => LineClassView::Diagnostic(StepView::Error(d)),
        None => match diagnostic_of(warning) {
            Some(d) => LineClassView::Diagnostic(StepView::Warning(d)),
            None => LineClassView::Text { text, cursor },
        },
    }
}

/// What the line `line` of a block is.
pub open spec fn classify_line(line: Seq<char>) -> LineClassView {
    let text = trim(line);
    class_of(
        text,
        PatternId::CompileError.spec_captures(text),
        PatternId::CompileWarning.spec_captures(text),
        PatternId::Cursor.spec_is_match(text),
    )
}

impl LineClass {
    /// What the trimmed line `text` is, given what the error and the warning
    /// pattern captured in it and whether the cursor pattern matched it.
    pub fn of(text: String, error: Option<CaptureSet>, warning: Option<CaptureSet>, cursor: bool) -> (r:
        LineClass)
        ensures
            r@ == class_of(text@, captures_view(error), captures_view(warning), cursor),
    {
        let found = match &error {
            Some(captures) => Diagnostic::from_captures(captures),
            None => None,
        };
        match found {
            Some(d) => LineClass::Diagnostic(Step::Error(d)),
            None => {
                let found = match &warning {
                    Some(captures) => Diagnostic::from_captures(captures),
                    None => None,
                };
                match found {
                    Some(d) => LineClass::Diagnostic(Step::Warning(d)),
                    None => LineClass::Text { text, cursor },
                }
            },
        }
    }

    /// What the line `line` of a block is.
    pub fn classify(line: &str, registry: &Registry) -> (r: LineClass)
        ensures
            r@ == classify_line(line@),
    {
        let text = trimmed(line);
        let error = registry.captures(PatternId::CompileError, text.as_str());
        let warning = registry.captures(PatternId::CompileWarning, text.as_str());
        let cursor = registry.is_match(PatternId::Cursor, text.as_str());
        LineClass::of(text, error, warning, cursor)
    }
}

/// What a block under way stands for.
pub struct BlockView {
    /// The step that the header gave, or `None` where the block is skipped.
    pub primary: Option<StepView>,
    /// The lines of the command so far.
    pub commands: Seq<Seq<char>>,
    /// The diagnostics so far.
    pub diagnostics: Seq<StepView>,
    pub phase: PhaseView,
}

/// How far the parsing of a block has come, as a model.
pub enum ProgressView {
    /// The block is complete.
    Done(Result<Seq<StepView>, ParseError>),
    /// The block wants the next line.
    More(BlockView),
}

impl BlockView {
    /// A block that is read and thrown away.
    pub open spec fn skipping() -> BlockView {
        BlockView {
            primary: None,
            commands: Seq::empty(),
            diagnostics: Seq::empty(),
            phase: PhaseView::Command,
        }
    }

    /// A block that has given `primary` and is read for its command and its
    /// diagnostics.
    pub open spec fn collecting(primary: StepView) -> BlockView {
        BlockView {
            primary: Some(primary),
            commands: Seq::empty(),
            diagnostics: Seq::empty(),
            phase: PhaseView::Command,
        }
    }

    /// The lines of the command, with the line that is held back: no cursor
    /// line has followed it.
    pub open spec fn settled(self) -> Seq<Seq<char>> {
        match self.phase {
            PhaseView::AfterContext(held) => self.commands.push(held),
            _ => self.commands,
        }
    }

    /// The block after a line of class `class`. A diagnostic is kept as a step
    /// of its own. A cursor line right after a diagnostic, or after the one
    /// line that followed it, belongs to the diagnostic, and so does that one
    /// line: it quoted the source. Every other line belongs to the command.
    pub open spec fn take(self, class: LineClassView) -> BlockView {
        match class {
            LineClassView::Diagnostic(step) => BlockView {
                commands: self.settled(),
                diagnostics: self.diagnostics.push(step),
                phase: PhaseView::AfterDiagnostic,
                ..self
            },
            LineClassView::Text { text, cursor } => match self.phase {
                PhaseView::Command => BlockView { commands: self.commands.push(text), ..self },
                PhaseView::AfterDiagnostic => BlockView {
                    phase: if cursor {
                        PhaseView::Command
                    } else {
                        PhaseView::AfterContext(text)
                    },
                    ..self
                },
                PhaseView::AfterContext(held) => BlockView {
                    commands: if cursor {
                        self.commands
                    } else {
                        self.commands.push(held).push(text)
                    },
                    phase: PhaseView::Command,
                    ..self
                },
            },
        }
    }

    /// The block after the line `line`, which is not blank.
    pub open spec fn advance(self, line: Seq<char>) -> BlockView {
        if self.primary is None {
            self
        } else {
            self.take(classify_line(line))
        }
    }

    /// The block after the lines `lines`, none of which is blank.
    pub open spec fn assemble(self, lines: Seq<Seq<char>>) -> BlockView
        decreases lines.len(),
    {
        if lines.len() == 0 {
            self
        } else {
            self.assemble(lines.drop_last()).advance(lines.last())
        }
    }

    /// The steps of the complete block: the primary step with the joined
    /// command, then the diagnostics in the order in which they were found. A
    /// skipped block has none.
    pub open spec fn finish(self) -> Seq<StepView> {
        match self.primary {
            Some(step) => seq![step.with_command(join_lines(self.settled()))] + self.diagnostics,
            None => Seq::empty(),
        }
    }

    /// What the next line of the source does to the block: the end of the
    /// source drops the block, a blank line completes it, any other line is
    /// taken in.
    pub open spec fn feed(self, line: Option<Seq<char>>) -> ProgressView {
        match line {
            None => ProgressView::Done(Ok(Seq::empty())),
            Some(line) => if is_blank(line) {
                ProgressView::Done(Ok(self.finish()))
            } else {
                ProgressView::More(self.advance(line))
            },
        }
    }
}

/// A block under way.
pub struct Block {
    primary: Option<Step>,
    commands: Vec<String>,
    diagnostics: Vec<Step>,
    phase: Phase,
}

/// How far the parsing of a block has come.
pub enum Progress {
    /// The block is complete: these are its steps, or this is why it has none.
    Done(Result<Vec<Step>, ParseError>),
    /// The block wants the next line of the source.
    More(Block),
}

/// The view of the outcome of parsing a block.
pub open spec fn parse_view(r: Result<Vec<Step>, ParseError>) -> Result<Seq<StepView>, ParseError> {
    match r {
        Ok(steps) => Ok(step_views(steps@)),
        Err(e) => Err(e),
    }
}

impl View for Block {
    type V = BlockView;

    closed spec fn view(&self) -> BlockView {
        BlockView {
            primary: match self.primary {
                Some(step) => Some(step@),
                None => None,
            },
            commands: views(self.commands@),
            diagnostics: step_views(self.diagnostics@),
            phase: self.phase@,
        }
    }
}

impl View for Progress {
    type V = ProgressView;

    open spec fn view(&self) -> ProgressView {
        match self {
            Progress::Done(r) => ProgressView::Done(parse_view(*r)),
            Progress::More(block) => ProgressView::More(block@),
        }
    }
}

impl Block {
    /// A block that is read and thrown away.
    pub fn skipping() -> (r: Block)
        ensures
            r@ == BlockView::skipping(),
    {
        let r = Block {
            primary: None,
            commands: Vec::new(),
            diagnostics: Vec::new(),
            phase: Phase::Command,
        };
        proof {
            assert(r@.commands =~= Seq::empty());
            assert(r@.diagnostics =~= Seq::empty());
        }
        r
    }

    /// A block that has given `primary` and is read for its command and its
    /// diagnostics.
    pub fn collecting(primary: Step) -> (r: Block)
        ensures
            r@ == BlockView::collecting(primary@),
    {
        let r = Block {
            primary: Some(primary),
            commands: Vec::new(),
            diagnostics: Vec::new(),
            phase: Phase::Command,
        };
        proof {
            assert(r@.commands =~= Seq::empty());
            assert(r@.diagnostics =~= Seq::empty());
        }
        r
    }

    /// The block after a line of class `class`.
    pub fn take(self, class: LineClass) -> (r: Block)
        ensures
            r@ == self@.take(class@),
    {
        let Block { primary, mut commands, mut diagnostics, phase } = self;
        let ghost before = views(commands@);
        let ghost found = step_views(diagnostics@);
        match class {
            LineClass::Diagnostic(step) => {
                match phase {
                    Phase::AfterContext(held) => {
                        commands.push(held);
                        proof {
                            assert(views(commands@) =~= before.push(held@));
                        }
                    },
                    _ => {},
                }
                diagnostics.push(step);
                proof {
                    assert(step_views(diagnostics@) =~= found.push(step@));
                }
                Block { primary, commands, diagnostics, phase: Phase::AfterDiagnostic }
            },
            LineClass::Text { text, cursor } => match phase {
                Phase::Command => {
                    commands.push(text);
                    proof {
                        assert(views(commands@) =~= before.push(text@));
                    }
                    Block { primary, commands, diagnostics, phase: Phase::Command }
                },
                Phase::AfterDiagnostic => {
                    let phase = if cursor {
                        Phase::Command
                    } else {
                        Phase::AfterContext(text)
                    };
                    Block { primary, commands, diagnostics, phase }
                },
                Phase::AfterContext(held) => {
                    if !cursor {
                        commands.push(held);
                        commands.push(text);
                        proof {
                            assert(views(commands@) =~= before.push(held@).push(text@));
                        }
                    }
                    Block { primary, commands, diagnostics, phase: Phase::Command }
                },
            },
        }
    }

    /// The steps of the complete block.
    pub fn finish(self) -> (r: Vec<Step>)
        ensures
            step_views(r@) == self@.finish(),
    {
        let Block { primary, mut commands, mut diagnostics, phase } = self;
        let ghost before = views(commands@);
        let ghost found = step_views(diagnostics@);
        let mut steps: Vec<Step> = Vec::new();
        match primary {
            Some(step) => {
                match phase {
                    Phase::AfterContext(held) => {
                        commands.push(held);
                        proof {
                            assert(views(commands@) =~= before.push(held@));
                        }
                    },
                    _ => {},
                }
                let first = step.with_command(join(&commands));
                steps.push(first);
                steps.append(&mut diagnostics);
                proof {
                    assert(step_views(steps@) =~= seq![first@] + found);
                }
            },
            None => {
                proof {
                    assert(step_views(steps@) =~= Seq::empty());
                }
            },
        }
        steps
    }

    /// Hands the block the next line of the source, or `None` at its end.
    pub fn feed(self, line: Option<String>, registry: &Registry) -> (r: Progress)
        ensures
            r@ == self@.feed(text_view(line)),
    {
        match line {
            None => {
                let steps: Vec<Step> = Vec::new();
                proof {
                    assert(step_views(steps@) =~= Seq::empty());
                }
                Progress::Done(Ok(steps))
            },
            Some(line) => {
                if is_blank_line(line.as_str()) {
                    Progress::Done(Ok(self.finish()))
                } else if self.primary.is_none() {
                    Progress::More(self)
                } else {
                    let class = LineClass::classify(line.as_str(), registry);
                    Progress::More(self.take(class))
                }
            },
        }
    }
}

} // verus!
