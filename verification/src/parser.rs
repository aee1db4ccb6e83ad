//! The dispatcher: reads one header line, decides what the block is and
//! returns its steps, leaving the line source right behind the block.

use vstd::prelude::*;
use crate::block::{parse_view, Block, BlockView, Progress, ProgressView};
use crate::error::ParseError;
use crate::registry::Registry;
use crate::step::kind::StepKind;
use crate::step::{header_step, step_views, Step, StepView};
use crate::stream::OutputStream;
use crate::text::{
    contains, header_tail, is_blank, remainder, split_whitespace, str_contains, str_eq, text_view,
    tokens, trim, trimmed,
};

verus! {

/// The index of the first blank line of `lines`, if one is blank.
pub open spec fn first_blank(lines: Seq<Seq<char>>) -> Option<nat>
    decreases lines.len(),
{
    if lines.len() == 0 {
        None
    } else if is_blank(lines[0]) {
        Some(0)
    } else {
        match first_blank(lines.drop_first()) {
            Some(k) => Some(k + 1),
            None => None,
        }
    }
}

/// What reading the block `block` from `lines` yields, and how many lines it
/// takes. The block ends with its first blank line, which is taken too. Where
/// no line is blank every line is taken and the block is dropped.
pub open spec fn read_block(block: BlockView, lines: Seq<Seq<char>>) -> (
    Result<Seq<StepView>, ParseError>,
    nat,
) {
    match first_blank(lines) {
        Some(k) => (Ok(block.assemble(lines.take(k as int)).finish()), k + 1),
        None => (Ok(Seq::empty()), lines.len()),
    }
}

/// What carrying `progress` on over `lines` yields, and how many lines it
/// takes.
pub open spec fn complete(progress: ProgressView, lines: Seq<Seq<char>>) -> (
    Result<Seq<StepView>, ParseError>,
    nat,
) {
    match progress {
        ProgressView::Done(r) => (r, 0),
        ProgressView::More(block) => read_block(block, lines),
    }
}

/// Where a header of `kind` with the tail `line` leads: to its error, to its
/// one step, or to the reading of its block. The tail is what follows the
/// keyword.
pub open spec fn begin_kind(kind: StepKind, line: Seq<char>) -> ProgressView {
    match header_step(kind, line) {
        Err(e) => ProgressView::Done(Err(e)),
        Ok(step) => if kind.spec_has_block() {
            ProgressView::More(BlockView::collecting(step))
        } else {
            ProgressView::Done(Ok(seq![step]))
        },
    }
}

/// What parsing a block of `kind` yields when its header has the tail `line`
/// and `lines` follow it, and how many of them it takes.
pub open spec fn spec_parse_kind(kind: StepKind, line: Seq<char>, lines: Seq<Seq<char>>) -> (
    Result<Seq<StepView>, ParseError>,
    nat,
) {
    complete(begin_kind(kind, line), lines)
}

/// The keywords whose blocks are read and thrown away.
pub open spec fn on_skip_list(keyword: Seq<char>) -> bool {
    ||| keyword == "Create"@
    ||| keyword == "User"@
    ||| keyword == "Touch"@
    ||| keyword == "MkDir"@
    ||| keyword == "Copy"@
    ||| keyword == "WriteAuxiliaryFile"@
    ||| keyword == "Analyze"@
    ||| keyword == "cd"@
}

/// The steps that a note with the body `body` stands for.
pub open spec fn note_steps(body: Seq<char>) -> Seq<StepView> {
    if body == "Planning"@ {
        seq![StepView::Planning]
    } else if body == "Using new build system"@ {
        seq![StepView::NewBuildSystem]
    } else if body == "Build preparation complete"@ {
        Seq::empty()
    } else {
        seq![StepView::Note(body)]
    }
}

/// The terminal marker that a `**` line with the remainder `body` stands for.
/// The first phrase that occurs in `body` decides.
pub open spec fn marker(body: Seq<char>) -> Option<StepView> {
    if contains(body, "BUILD SUCCEEDED"@) {
        Some(StepView::BuildSucceed)
    } else if contains(body, "BUILD FAILED"@) {
        Some(StepView::BuildFailed)
    } else if contains(body, "CLEAN SUCCEEDED"@) {
        Some(StepView::CleanSucceed)
    } else if contains(body, "TEST SUCCEEDED"@) {
        Some(StepView::TestSucceed)
    } else if contains(body, "TEST FAILED"@) {
        Some(StepView::TestFailed)
    } else {
        None
    }
}

/// Where the header `line` leads. A line without a token is an error. A
/// keyword of the skip list, and any keyword that nothing else claims, has its
/// block thrown away. A keyword of a step kind hands the rest of the line to
/// that kind, but for the packaging of a provisioning profile, which yields
/// nothing. A note and a `**` marker are complete with their line.
pub open spec fn begin(line: Seq<char>) -> ProgressView {
    let header = trim(line);
    let words = tokens(header);
    if words.len() == 0 {
        ProgressView::Done(Err(ParseError::EmptyHeader))
    } else {
        let keyword = words[0];
        let body = remainder(header);
        if on_skip_list(keyword) {
            ProgressView::More(BlockView::skipping())
        } else if keyword == "ProcessProductPackaging"@ && contains(body, "mobileprovision"@) {
            ProgressView::Done(Ok(Seq::empty()))
        } else if StepKind::spec_from_keyword(keyword) is Some {
            begin_kind(StepKind::spec_from_keyword(keyword).unwrap(), body)
        } else if keyword == "Note"@ || keyword == "note:"@ {
            ProgressView::Done(Ok(note_steps(body)))
        } else if keyword == "**"@ && marker(body) is Some {
            ProgressView::Done(Ok(seq![marker(body).unwrap()]))
        } else {
            ProgressView::More(BlockView::skipping())
        }
    }
}

/// What parsing the block with the header `line` yields when `lines` follow
/// it, and how many of them it takes.
pub open spec fn spec_parse(line: Seq<char>, lines: Seq<Seq<char>>) -> (
    Result<Seq<StepView>, ParseError>,
    nat,
) {
    complete(begin(line), lines)
}

/// A type that is parsed from the header of its block and the lines that
/// follow it.
pub trait ParsableFromStream: Sized {
    /// The step kind that the type stands for.
    spec fn kind() -> StepKind;

    /// Parses the block whose header has the tail `line`, reading its other
    /// lines from `stream`. The tail is the header line without its keyword.
    fn parse_from_stream(line: String, stream: &mut OutputStream, registry: &Registry) -> (r: Result<
        Vec<Step>,
        ParseError,
    >)
        ensures
            parse_view(r) == spec_parse_kind(Self::kind(), line@, old(stream).remaining()).0,
            final(stream).lines() == old(stream).lines(),
            final(stream).consumed() == old(stream).consumed() + spec_parse_kind(
                Self::kind(),
                line@,
                old(stream).remaining(),
            ).1,
    ;
}

/// The first blank line is the one that no blank line goes before.
pub proof fn lemma_first_blank_is(lines: Seq<Seq<char>>, k: nat)
    requires
        k <= lines.len(),
        forall|i: int| 0 <= i < k ==> !is_blank(#[trigger] lines[i]),
        k < lines.len() ==> is_blank(lines[k as int]),
    ensures
        first_blank(lines) == if k < lines.len() {
            Some(k)
        } else {
            None::<nat>
        },
    decreases lines.len(),
{
    if lines.len() == 0 {
    } else if k == 0 {
    } else {
        let rest = lines.drop_first();
        assert(!is_blank(lines[0]));
        assert forall|i: int| 0 <= i < k - 1 implies !is_blank(#[trigger] rest[i]) by {
            assert(rest[i] == lines[i + 1]);
        }
        if k < lines.len() {
            assert(rest[k - 1] == lines[k as int]);
        }
        lemma_first_blank_is(rest, (k - 1) as nat);
    }
}

/// Where a header of `kind` with the tail `line` leads.
pub fn start_kind(kind: StepKind, line: &str, registry: &Registry) -> (r: Progress)
    ensures
        r@ == begin_kind(kind, line@),
{
    match Step::from_header(kind, line, registry) {
        Err(e) => Progress::Done(Err(e)),
        Ok(step) => {
            if kind.has_block() {
                Progress::More(Block::collecting(step))
            } else {
                let mut steps: Vec<Step> = Vec::new();
                steps.push(step);
                proof {
                    assert(step_views(steps@) =~= seq![step@]);
                }
                Progress::Done(Ok(steps))
            }
        },
    }
}

/// Whether the blocks that start with `keyword` are read and thrown away.
pub fn is_on_skip_list(keyword: &str) -> (r: bool)
    ensures
        r == on_skip_list(keyword@),
{
    str_eq(keyword, "Create") || str_eq(keyword, "User") || str_eq(keyword, "Touch") || str_eq(
        keyword,
        "MkDir",
    ) || str_eq(keyword, "Copy") || str_eq(keyword, "WriteAuxiliaryFile") || str_eq(
        keyword,
        "Analyze",
    ) || str_eq(keyword, "cd")
}

/// The steps that a note with the body `body` stands for.
pub fn note(body: String) -> (r: Vec<Step>)
    ensures
        step_views(r@) == note_steps(body@),
{
    let mut steps: Vec<Step> = Vec::new();
    if str_eq(body.as_str(), "Planning") {
        steps.push(Step::Planning);
    } else if str_eq(body.as_str(), "Using new build system") {
        steps.push(Step::NewBuildSystem);
    } else if str_eq(body.as_str(), "Build preparation complete") {
    } else {
        steps.push(Step::Note(body));
    }
    proof {
        assert(step_views(steps@) =~= note_steps(body@));
    }
    steps
}

/// The step view of a step that may be absent.
pub open spec fn marker_view(step: Option<Step>) -> Option<StepView> {
    match step {
        Some(s) => Some(s@),
        None => None,
    }
}

/// The terminal marker that a `**` line with the remainder `body` stands for.
pub fn terminal_marker(body: &str) -> (r: Option<Step>)
    ensures
        marker_view(r) == marker(body@),
{
    if str_contains(body, "BUILD SUCCEEDED") {
        Some(Step::BuildSucceed)
    } else if str_contains(body, "BUILD FAILED") {
        Some(Step::BuildFailed)
    } else if str_contains(body, "CLEAN SUCCEEDED") {
        Some(Step::CleanSucceed)
    } else if str_contains(body, "TEST SUCCEEDED") {
        Some(Step::TestSucceed)
    } else if str_contains(body, "TEST FAILED") {
        Some(Step::TestFailed)
    } else {
        None
    }
}

/// Where the header `line` leads.
pub fn start(line: &str, registry: &Registry) -> (r: Progress)
    ensures
        r@ == begin(line@),
{
    let header = trimmed(line);
    let words = split_whitespace(header.as_str());
    if words.len() == 0 {
        return Progress::Done(Err(ParseError::EmptyHeader));
    }
    let keyword = words[0].as_str();
    let body = header_tail(header.as_str());
    assert(keyword@ == tokens(trim(line@))[0]);
    if is_on_skip_list(keyword) {
        return Progress::More(Block::skipping());
    }
    if str_eq(keyword, "ProcessProductPackaging") && str_contains(body.as_str(), "mobileprovision") {
        let steps: Vec<Step> = Vec::new();
        proof {
            assert(step_views(steps@) =~= Seq::empty());
        }
        return Progress::Done(Ok(steps));
    }
    match StepKind::from_keyword(keyword) {
        Some(kind) => {
            return start_kind(kind, body.as_str(), registry);
        },
        None => {},
    }
    if str_eq(keyword, "Note") || str_eq(keyword, "note:") {
        return Progress::Done(Ok(note(body)));
    }
    if str_eq(keyword, "**") {
        match terminal_marker(body.as_str()) {
            Some(step) => {
                let mut steps: Vec<Step> = Vec::new();
                steps.push(step);
                proof {
                    assert(step_views(steps@) =~= seq![step@]);
                }
                return Progress::Done(Ok(steps));
            },
            None => {},
        }
    }
    Progress::More(Block::skipping())
}

/// Carries `progress` on with the lines of `stream` until the block is
/// complete.
pub fn drive(progress: Progress, stream: &mut OutputStream, registry: &Registry) -> (r: Result<
    Vec<Step>,
    ParseError,
>)
    ensures
        parse_view(r) == complete(progress@, old(stream).remaining()).0,
        final(stream).lines() == old(stream).lines(),
        final(stream).consumed() == old(stream).consumed() + complete(
            progress@,
            old(stream).remaining(),
        ).1,
{
    let ghost whole = progress@;
    match progress {
        Progress::Done(r) => r,
        Progress::More(first) => {
            let ghost lines = stream.remaining();
            let ghost block = first@;
            let ghost mut taken: nat = 0;
            let mut current = first;
            proof {
                assert(lines.skip(0) == lines);
            }
            loop
                invariant
                    whole == progress@,
                    whole == ProgressView::More(block),
                    stream.lines() == old(stream).lines(),
                    lines == old(stream).remaining(),
                    stream.consumed() == old(stream).consumed() + taken,
                    taken <= lines.len(),
                    forall|i: int| 0 <= i < taken ==> !is_blank(#[trigger] lines[i]),
                    stream.remaining() == lines.skip(taken as int),
                    current@ == block.assemble(lines.take(taken as int)),
                decreases lines.len() - taken,
            {
                let ghost rest = stream.remaining();
                let next = stream.next_line();
                let ghost fed = text_view(next);
                match current.feed(next, registry) {
                    Progress::Done(r) => {
                        proof {
                            if fed is Some {
                                assert(lines[taken as int] == rest[0]);
                                assert(is_blank(lines[taken as int]));
                            } else {
                                assert(taken == lines.len());
                            }
                            lemma_first_blank_is(lines, taken);
                        }
                        return r;
                    },
                    Progress::More(after) => {
                        proof {
                            assert(lines[taken as int] == rest[0]);
                            let upto = lines.take(taken as int + 1);
                            assert(upto.drop_last() == lines.take(taken as int));
                            assert(upto.last() == lines[taken as int]);
                            assert(rest.drop_first() =~= lines.skip(taken as int + 1));
                            taken = taken + 1;
                        }
                        current = after;
                    },
                }
            }
        },
    }
}

/// Parses a block of `kind` whose header has the tail `line`, reading its
/// other lines from `stream`.
pub fn parse_kind(kind: StepKind, line: &str, stream: &mut OutputStream, registry: &Registry) -> (r:
    Result<Vec<Step>, ParseError>)
    ensures
        parse_view(r) == spec_parse_kind(kind, line@, old(stream).remaining()).0,
        final(stream).lines() == old(stream).lines(),
        final(stream).consumed() == old(stream).consumed() + spec_parse_kind(
            kind,
            line@,
            old(stream).remaining(),
        ).1,
{
    drive(start_kind(kind, line, registry), stream, registry)
}

/// Parses the block with the header `line`, reading its other lines from
/// `stream`. Returns the steps of the block in the order of the text, the
/// primary step first, and leaves `stream` right behind the block.
pub fn parse_step_from_stream(line: String, stream: &mut OutputStream, registry: &Registry) -> (r:
    Result<Vec<Step>, ParseError>)
    ensures
        parse_view(r) == spec_parse(line@, old(stream).remaining()).0,
        final(stream).lines() == old(stream).lines(),
        final(stream).consumed() == old(stream).consumed() + spec_parse(
            line@,
            old(stream).remaining(),
        ).1,
{
    drive(start(line.as_str(), registry), stream, registry)
}

} // verus!
