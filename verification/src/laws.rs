//! What holds of the parser as a whole, stated over the models of its parts.

use vstd::prelude::*;
use crate::block::BlockView;
use crate::description::line_description;
use crate::error::ParseError;
use crate::parser::{
    begin, begin_kind, first_blank, marker, note_steps, on_skip_list, read_block, spec_parse,
    spec_parse_kind,
};
use crate::registry::table::PatternId;
use crate::step::kind::{Field, StepKind};
use crate::step::record::{header_record, lemma_first_missing_skip};
use crate::step::StepView;
use crate::text::{
    contains, is_blank, is_space, lemma_blank_iff_no_tokens, lemma_word_len_bounds, lemma_word_len_is,
    remainder, tokens, trim, trim_end, trim_start, word_len,
};

verus! {

/// Whitespace in front of a text adds no token.
pub proof fn lemma_tokens_ignore_leading(before: Seq<char>, s: Seq<char>)
    requires
        is_blank(before),
    ensures
        tokens(before + s) == tokens(s),
    decreases before.len(),
{
    if before.len() == 0 {
        assert(before + s == s);
    } else {
        let rest = before.drop_first();
        assert((before + s)[0] == before[0]);
        assert((before + s).drop_first() == rest + s);
        assert forall|i: int| 0 <= i < rest.len() implies is_space(#[trigger] rest[i]) by {
            assert(rest[i] == before[i + 1]);
        }
        lemma_tokens_ignore_leading(rest, s);
    }
}

/// Whitespace behind a text adds no token.
pub proof fn lemma_tokens_ignore_trailing(s: Seq<char>, after: Seq<char>)
    requires
        is_blank(after),
    ensures
        tokens(s + after) == tokens(s),
    decreases s.len(),
{
    let whole = s + after;
    if s.len() == 0 {
        assert(whole == after);
        lemma_blank_iff_no_tokens(after);
        assert(tokens(after) == Seq::<Seq<char>>::empty());
    } else if is_space(s[0]) {
        assert(whole[0] == s[0]);
        assert(whole.drop_first() == s.drop_first() + after);
        lemma_tokens_ignore_trailing(s.drop_first(), after);
    } else {
        let n = word_len(s);
        lemma_word_len_bounds(s);
        assert(whole[0] == s[0]);
        assert forall|i: int| 0 <= i < n implies !is_space(#[trigger] whole[i]) by {
            assert(whole[i] == s[i]);
        }
        if n < s.len() {
            assert(whole[n as int] == s[n as int]);
        } else if after.len() > 0 {
            assert(whole[n as int] == after[0]);
        }
        lemma_word_len_is(whole, n);
        assert(whole.take(n as int) == s.take(n as int));
        assert(whole.skip(n as int) == s.skip(n as int) + after);
        lemma_tokens_ignore_trailing(s.skip(n as int), after);
    }
}

/// The tokens of a line do not depend on the whitespace around it.
pub proof fn lemma_tokens_ignore_padding(before: Seq<char>, s: Seq<char>, after: Seq<char>)
    requires
        is_blank(before),
        is_blank(after),
    ensures
        tokens(before + s + after) == tokens(s),
{
    lemma_tokens_ignore_trailing(before + s, after);
    lemma_tokens_ignore_leading(before, s);
}

/// A blank text trims to nothing.
pub proof fn lemma_trim_start_blank(s: Seq<char>)
    requires
        is_blank(s),
    ensures
        trim_start(s).len() == 0,
    decreases s.len(),
{
    if s.len() > 0 {
        let rest = s.drop_first();
        assert(is_space(s[0]));
        assert forall|i: int| 0 <= i < rest.len() implies is_space(#[trigger] rest[i]) by {
            assert(rest[i] == s[i + 1]);
        }
        lemma_trim_start_blank(rest);
    }
}

/// Trimming at the start drops the whitespace put in front.
pub proof fn lemma_trim_start_ignores_leading(before: Seq<char>, s: Seq<char>)
    requires
        is_blank(before),
    ensures
        trim_start(before + s) == trim_start(s),
    decreases before.len(),
{
    if before.len() == 0 {
        assert(before + s == s);
    } else {
        let rest = before.drop_first();
        assert((before + s)[0] == before[0]);
        assert((before + s).drop_first() == rest + s);
        assert forall|i: int| 0 <= i < rest.len() implies is_space(#[trigger] rest[i]) by {
            assert(rest[i] == before[i + 1]);
        }
        lemma_trim_start_ignores_leading(rest, s);
    }
}

/// Trimming at the end drops the whitespace put behind.
pub proof fn lemma_trim_end_ignores_trailing(s: Seq<char>, after: Seq<char>)
    requires
        is_blank(after),
    ensures
        trim_end(s + after) == trim_end(s),
    decreases after.len(),
{
    if after.len() == 0 {
        assert(s + after == s);
    } else {
        let rest = after.drop_last();
        assert((s + after).last() == after.last());
        assert((s + after).drop_last() == s + rest);
        assert forall|i: int| 0 <= i < rest.len() implies is_space(#[trigger] rest[i]) by {
            assert(rest[i] == after[i]);
        }
        lemma_trim_end_ignores_trailing(s, rest);
    }
}

/// Trimming at the start leaves what stands behind a text that is not blank.
pub proof fn lemma_trim_start_keeps_tail(s: Seq<char>, after: Seq<char>)
    requires
        !is_blank(s),
    ensures
        trim_start(s + after) == trim_start(s) + after,
    decreases s.len(),
{
    if s.len() == 0 {
    } else if is_space(s[0]) {
        let rest = s.drop_first();
        assert((s + after)[0] == s[0]);
        assert((s + after).drop_first() == rest + after);
        if is_blank(rest) {
            assert forall|i: int| 0 <= i < s.len() implies is_space(#[trigger] s[i]) by {
                if i > 0 {
                    assert(s[i] == rest[i - 1]);
                }
            }
        }
        lemma_trim_start_keeps_tail(rest, after);
    } else {
        assert((s + after)[0] == s[0]);
    }
}

/// A trimmed line does not depend on the whitespace around it.
pub proof fn lemma_trim_ignores_padding(before: Seq<char>, s: Seq<char>, after: Seq<char>)
    requires
        is_blank(before),
        is_blank(after),
    ensures
        trim(before + s + after) == trim(s),
{
    assert(before + s + after == before + (s + after));
    lemma_trim_start_ignores_leading(before, s + after);
    if is_blank(s) {
        assert forall|i: int| 0 <= i < (s + after).len() implies is_space(
            #[trigger] (s + after)[i],
        ) by {
            if i < s.len() {
                assert((s + after)[i] == s[i]);
            } else {
                assert((s + after)[i] == after[i - s.len()]);
            }
        }
        lemma_trim_start_blank(s + after);
        lemma_trim_start_blank(s);
        assert(trim_start(s + after) == trim_start(s));
    } else {
        lemma_trim_start_keeps_tail(s, after);
        lemma_trim_end_ignores_trailing(trim_start(s), after);
    }
}

/// Parsing a block does not depend on the whitespace around its header line:
/// the steps are the same and as many lines are read.
pub proof fn lemma_parse_ignores_padding(
    before: Seq<char>,
    line: Seq<char>,
    after: Seq<char>,
    lines: Seq<Seq<char>>,
)
    requires
        is_blank(before),
        is_blank(after),
    ensures
        spec_parse(before + line + after, lines) == spec_parse(line, lines),
{
    lemma_trim_ignores_padding(before, line, after);
}

/// A header tail that holds the token of every field of its kind yields a
/// record whose fields are those tokens, letter for letter, in the order of
/// the layout.
pub proof fn lemma_fields_are_tokens(kind: StepKind, line: Seq<char>)
    requires
        forall|k: int|
            0 <= k < kind.spec_layout().len() ==> (#[trigger] kind.spec_layout()[k]).1 < tokens(
                line,
            ).len(),
    ensures
        header_record(kind, line) is Ok,
        header_record(kind, line).unwrap().kind == kind,
        header_record(kind, line).unwrap().fields.len() == kind.spec_layout().len(),
        forall|k: int|
            0 <= k < kind.spec_layout().len() ==> #[trigger] header_record(
                kind,
                line,
            ).unwrap().fields[k] == tokens(line)[kind.spec_layout()[k].1 as int],
{
    let layout = kind.spec_layout();
    lemma_first_missing_skip(layout, tokens(line).len(), layout.len());
}

/// A compile header whose tail holds six tokens or more yields the output
/// path, the path, the architecture, the language and the compiler that it
/// names: the first, second, fourth, fifth and sixth token of the tail. The
/// third token is passed over. With fewer tokens the header yields no step.
pub proof fn lemma_compile_header_fields(line: Seq<char>)
    ensures
        header_record(StepKind::CompileC, line) is Ok <==> tokens(line).len() >= 6,
        tokens(line).len() >= 6 ==> header_record(StepKind::CompileC, line).unwrap().fields
            == seq![
            tokens(line)[0],
            tokens(line)[1],
            tokens(line)[3],
            tokens(line)[4],
            tokens(line)[5],
        ],
{
    let layout = StepKind::CompileC.spec_layout();
    assert(layout[0].1 == 0 && layout[1].1 == 1 && layout[2].1 == 3 && layout[3].1 == 4
        && layout[4].1 == 5);
    crate::step::record::lemma_first_missing_none(layout, tokens(line).len());
    if tokens(line).len() >= 6 {
        lemma_fields_are_tokens(StepKind::CompileC, line);
        let fields = header_record(StepKind::CompileC, line).unwrap().fields;
        assert(fields =~= seq![
            tokens(line)[0],
            tokens(line)[1],
            tokens(line)[3],
            tokens(line)[4],
            tokens(line)[5],
        ]);
    }
}

/// The field that a compile header lacks is the first one whose token its
/// tail does not hold: the output path with no token, the path with one, the
/// architecture with two or three, the language with four, the compiler with
/// five.
pub proof fn lemma_compile_header_missing(line: Seq<char>)
    requires
        tokens(line).len() < 6,
    ensures
        header_record(StepKind::CompileC, line) == Err::<crate::step::record::Record, ParseError>(
            ParseError::MissingField {
                kind: StepKind::CompileC,
                field: if tokens(line).len() == 0 {
                    Field::OutputPath
                } else if tokens(line).len() == 1 {
                    Field::Path
                } else if tokens(line).len() <= 3 {
                    Field::Arch
                } else if tokens(line).len() == 4 {
                    Field::Lang
                } else {
                    Field::Compiler
                },
            },
        ),
{
    let layout = StepKind::CompileC.spec_layout();
    let count = tokens(line).len();
    assert(layout[0] == (Field::OutputPath, 0usize));
    assert(layout[1] == (Field::Path, 1usize));
    assert(layout[2] == (Field::Arch, 3usize));
    assert(layout[3] == (Field::Lang, 4usize));
    assert(layout[4] == (Field::Compiler, 5usize));
    let k: int = if count == 0 {
        0
    } else if count == 1 {
        1
    } else if count <= 3 {
        2
    } else if count == 4 {
        3
    } else {
        4
    };
    lemma_missing_field(StepKind::CompileC, line, Seq::empty(), k);
}

/// A header whose tail lacks the token of a field fails with the first such
/// field of its kind, yields no step and reads no line.
pub proof fn lemma_missing_field(kind: StepKind, line: Seq<char>, lines: Seq<Seq<char>>, k: int)
    requires
        0 <= k < kind.spec_layout().len(),
        kind.spec_layout()[k].1 >= tokens(line).len(),
        forall|i: int| 0 <= i < k ==> (#[trigger] kind.spec_layout()[i]).1 < tokens(line).len(),
    ensures
        header_record(kind, line) == Err::<crate::step::record::Record, ParseError>(
            ParseError::MissingField { kind, field: kind.spec_layout()[k].0 },
        ),
        spec_parse_kind(kind, line, lines) == (
            Err::<Seq<StepView>, ParseError>(
                ParseError::MissingField { kind, field: kind.spec_layout()[k].0 },
            ),
            0nat,
        ),
{
    let layout = kind.spec_layout();
    lemma_first_missing_skip(layout, tokens(line).len(), k as nat);
    assert(layout.skip(k)[0] == layout[k]);
}

/// A description that a header yields names both a project and a target.
pub proof fn lemma_description_is_complete(line: Seq<char>)
    ensures
        line_description(line) matches Some(d) ==> d.well_formed(),
{
}

/// A block that is thrown away stays so, whatever its lines are, and yields no
/// step.
pub proof fn lemma_skipped_block_is_empty(lines: Seq<Seq<char>>)
    ensures
        BlockView::skipping().assemble(lines) == BlockView::skipping(),
        BlockView::skipping().assemble(lines).finish().len() == 0,
    decreases lines.len(),
{
    if lines.len() > 0 {
        lemma_skipped_block_is_empty(lines.drop_last());
    }
}

/// How many lines the reading of a block takes: those up to and with the first
/// blank line, or all of them where none is blank.
pub open spec fn block_len(lines: Seq<Seq<char>>) -> nat {
    match first_blank(lines) {
        Some(k) => k + 1,
        None => lines.len(),
    }
}

/// The first blank line is blank, and no line before it is.
pub proof fn lemma_first_blank(lines: Seq<Seq<char>>)
    ensures
        match first_blank(lines) {
            Some(k) => k < lines.len() && is_blank(lines[k as int]) && forall|i: int|
                0 <= i < k ==> !is_blank(#[trigger] lines[i]),
            None => forall|i: int| 0 <= i < lines.len() ==> !is_blank(#[trigger] lines[i]),
        },
    decreases lines.len(),
{
    if lines.len() == 0 {
    } else if is_blank(lines[0]) {
    } else {
        let rest = lines.drop_first();
        lemma_first_blank(rest);
        match first_blank(rest) {
            Some(k) => {
                assert(lines[k as int + 1] == rest[k as int]);
                assert forall|i: int| 0 <= i < k + 1 implies !is_blank(#[trigger] lines[i]) by {
                    if i > 0 {
                        assert(lines[i] == rest[i - 1]);
                    }
                }
            },
            None => {
                assert forall|i: int| 0 <= i < lines.len() implies !is_blank(
                    #[trigger] lines[i],
                ) by {
                    if i > 0 {
                        assert(lines[i] == rest[i - 1]);
                    }
                }
            },
        }
    }
}

/// A block whose keyword is on the skip list yields no step, and the source
/// is left at the line that follows the blank line of the block.
pub proof fn lemma_skip_list_yields_nothing(line: Seq<char>, lines: Seq<Seq<char>>)
    requires
        tokens(trim(line)).len() > 0,
        on_skip_list(tokens(trim(line))[0]),
    ensures
        spec_parse(line, lines).0 == Ok::<Seq<StepView>, ParseError>(Seq::empty()),
        spec_parse(line, lines).1 == block_len(lines),
        spec_parse(line, lines).1 <= lines.len(),
        first_blank(lines) matches Some(k) ==> spec_parse(line, lines).1 == k + 1 && is_blank(
            lines[k as int],
        ),
{
    lemma_first_blank(lines);
    match first_blank(lines) {
        Some(k) => {
            lemma_skipped_block_is_empty(lines.take(k as int));
            assert(BlockView::skipping().assemble(lines.take(k as int)).finish()
                =~= Seq::<StepView>::empty());
        },
        None => {},
    }
}

/// The steps of a block come in the order of the text: the primary step
/// first, with the command of the block, then one step for each diagnostic.
pub proof fn lemma_primary_step_first(primary: StepView, lines: Seq<Seq<char>>)
    ensures
        ({
            let block = BlockView::collecting(primary).assemble(lines);
            let steps = block.finish();
            &&& block.primary == Some(primary)
            &&& steps.len() == 1 + block.diagnostics.len()
            &&& steps[0] == primary.with_command(crate::text::join_lines(block.settled()))
            &&& forall|i: int|
                1 <= i < steps.len() ==> (#[trigger] steps[i] is Error || steps[i] is Warning)
        }),
    decreases lines.len(),
{
    let block = BlockView::collecting(primary).assemble(lines);
    if lines.len() > 0 {
        lemma_primary_step_first(primary, lines.drop_last());
        let before = BlockView::collecting(primary).assemble(lines.drop_last());
        let steps_before = before.finish();
        assert forall|i: int| 0 <= i < before.diagnostics.len() implies (
        #[trigger] before.diagnostics[i] is Error || before.diagnostics[i] is Warning) by {
            assert(steps_before[i + 1] == before.diagnostics[i]);
        }
    }
    let steps = block.finish();
    assert forall|i: int| 1 <= i < steps.len() implies (#[trigger] steps[i] is Error
        || steps[i] is Warning) by {
        assert(steps[i] == block.diagnostics[i - 1]);
    }
}

/// Matching a line against a pattern has one outcome: what `captures` returns
/// for a pattern and a line is the same on every call.
pub proof fn lemma_match_is_deterministic(
    pattern: PatternId,
    line: Seq<char>,
    first: Option<Map<Seq<char>, Seq<char>>>,
    second: Option<Map<Seq<char>, Seq<char>>>,
)
    requires
        first == pattern.spec_captures(line),
        second == pattern.spec_captures(line),
    ensures
        first == second,
{
}

/// No keyword of a step kind is on the skip list, each leads to its own kind,
/// and the words of notes and markers are neither.
pub proof fn lemma_keywords_apart()
    ensures
        forall|kind: StepKind| !on_skip_list(#[trigger] kind.spec_keyword()@),
        forall|kind: StepKind|
            StepKind::spec_from_keyword(#[trigger] kind.spec_keyword()@) == Some(kind),
        !on_skip_list("Note"@) && StepKind::spec_from_keyword("Note"@) is None,
        !on_skip_list("note:"@) && StepKind::spec_from_keyword("note:"@) is None,
        !on_skip_list("**"@) && StepKind::spec_from_keyword("**"@) is None,
        "**"@ != "Note"@ && "**"@ != "note:"@,
{
    reveal_strlit("Create");
    assert("Create"@ =~= seq!['C', 'r', 'e', 'a', 't', 'e']);
    reveal_strlit("User");
    assert("User"@ =~= seq!['U', 's', 'e', 'r']);
    reveal_strlit("Touch");
    assert("Touch"@ =~= seq!['T', 'o', 'u', 'c', 'h']);
    reveal_strlit("MkDir");
    assert("MkDir"@ =~= seq!['M', 'k', 'D', 'i', 'r']);
    reveal_strlit("Copy");
    assert("Copy"@ =~= seq!['C', 'o', 'p', 'y']);
    reveal_strlit("WriteAuxiliaryFile");
    assert("WriteAuxiliaryFile"@ =~= seq!['W', 'r', 'i', 't', 'e', 'A', 'u', 'x', 'i', 'l', 'i', 'a', 'r', 'y', 'F', 'i', 'l', 'e']);
    reveal_strlit("Analyze");
    assert("Analyze"@ =~= seq!['A', 'n', 'a', 'l', 'y', 'z', 'e']);
    reveal_strlit("cd");
    assert("cd"@ =~= seq!['c', 'd']);
    reveal_strlit("Command");
    assert("Command"@ =~= seq!['C', 'o', 'm', 'm', 'a', 'n', 'd']);
    reveal_strlit("CompileSwift");
    assert("CompileSwift"@ =~= seq!['C', 'o', 'm', 'p', 'i', 'l', 'e', 'S', 'w', 'i', 'f', 't']);
    reveal_strlit("CompileSwiftSources");
    assert("CompileSwiftSources"@ =~= seq!['C', 'o', 'm', 'p', 'i', 'l', 'e', 'S', 'w', 'i', 'f', 't', 'S', 'o', 'u', 'r', 'c', 'e', 's']);
    reveal_strlit("CompileC");
    assert("CompileC"@ =~= seq!['C', 'o', 'm', 'p', 'i', 'l', 'e', 'C']);
    reveal_strlit("CodeSign");
    assert("CodeSign"@ =~= seq!['C', 'o', 'd', 'e', 'S', 'i', 'g', 'n']);
    reveal_strlit("CompileAssetCatalog");
    assert("CompileAssetCatalog"@ =~= seq!['C', 'o', 'm', 'p', 'i', 'l', 'e', 'A', 's', 's', 'e', 't', 'C', 'a', 't', 'a', 'l', 'o', 'g']);
    reveal_strlit("CompileStoryboard");
    assert("CompileStoryboard"@ =~= seq!['C', 'o', 'm', 'p', 'i', 'l', 'e', 'S', 't', 'o', 'r', 'y', 'b', 'o', 'a', 'r', 'd']);
    reveal_strlit("CompileXIB");
    assert("CompileXIB"@ =~= seq!['C', 'o', 'm', 'p', 'i', 'l', 'e', 'X', 'I', 'B']);
    reveal_strlit("PrecompileSwiftBridgingHeader");
    assert("PrecompileSwiftBridgingHeader"@ =~= seq!['P', 'r', 'e', 'c', 'o', 'm', 'p', 'i', 'l', 'e', 'S', 'w', 'i', 'f', 't', 'B', 'r', 'i', 'd', 'g', 'i', 'n', 'g', 'H', 'e', 'a', 'd', 'e', 'r']);
    reveal_strlit("CopySwiftLibs");
    assert("CopySwiftLibs"@ =~= seq!['C', 'o', 'p', 'y', 'S', 'w', 'i', 'f', 't', 'L', 'i', 'b', 's']);
    reveal_strlit("Ld");
    assert("Ld"@ =~= seq!['L', 'd']);
    reveal_strlit("RegisterExecutionPolicyException");
    assert("RegisterExecutionPolicyException"@ =~= seq!['R', 'e', 'g', 'i', 's', 't', 'e', 'r', 'E', 'x', 'e', 'c', 'u', 't', 'i', 'o', 'n', 'P', 'o', 'l', 'i', 'c', 'y', 'E', 'x', 'c', 'e', 'p', 't', 'i', 'o', 'n']);
    reveal_strlit("CpResource");
    assert("CpResource"@ =~= seq!['C', 'p', 'R', 'e', 's', 'o', 'u', 'r', 'c', 'e']);
    reveal_strlit("CreateBuildDirectory");
    assert("CreateBuildDirectory"@ =~= seq!['C', 'r', 'e', 'a', 't', 'e', 'B', 'u', 'i', 'l', 'd', 'D', 'i', 'r', 'e', 'c', 't', 'o', 'r', 'y']);
    reveal_strlit("GenerateDSYMFile");
    assert("GenerateDSYMFile"@ =~= seq!['G', 'e', 'n', 'e', 'r', 'a', 't', 'e', 'D', 'S', 'Y', 'M', 'F', 'i', 'l', 'e']);
    reveal_strlit("LinkStoryboards");
    assert("LinkStoryboards"@ =~= seq!['L', 'i', 'n', 'k', 'S', 't', 'o', 'r', 'y', 'b', 'o', 'a', 'r', 'd', 's']);
    reveal_strlit("MergeSwiftModule");
    assert("MergeSwiftModule"@ =~= seq!['M', 'e', 'r', 'g', 'e', 'S', 'w', 'i', 'f', 't', 'M', 'o', 'd', 'u', 'l', 'e']);
    reveal_strlit("EmitSwiftModule");
    assert("EmitSwiftModule"@ =~= seq!['E', 'm', 'i', 't', 'S', 'w', 'i', 'f', 't', 'M', 'o', 'd', 'u', 'l', 'e']);
    reveal_strlit("PhaseScriptExecution");
    assert("PhaseScriptExecution"@ =~= seq!['P', 'h', 'a', 's', 'e', 'S', 'c', 'r', 'i', 'p', 't', 'E', 'x', 'e', 'c', 'u', 't', 'i', 'o', 'n']);
    reveal_strlit("ProcessInfoPlistFile");
    assert("ProcessInfoPlistFile"@ =~= seq!['P', 'r', 'o', 'c', 'e', 's', 's', 'I', 'n', 'f', 'o', 'P', 'l', 'i', 's', 't', 'F', 'i', 'l', 'e']);
    reveal_strlit("ProcessProductPackaging");
    assert("ProcessProductPackaging"@ =~= seq!['P', 'r', 'o', 'c', 'e', 's', 's', 'P', 'r', 'o', 'd', 'u', 'c', 't', 'P', 'a', 'c', 'k', 'a', 'g', 'i', 'n', 'g']);
    reveal_strlit("Validate");
    assert("Validate"@ =~= seq!['V', 'a', 'l', 'i', 'd', 'a', 't', 'e']);
    reveal_strlit("Note");
    assert("Note"@ =~= seq!['N', 'o', 't', 'e']);
    reveal_strlit("note:");
    assert("note:"@ =~= seq!['n', 'o', 't', 'e', ':']);
    reveal_strlit("**");
    assert("**"@ =~= seq!['*', '*']);
    assert forall|kind: StepKind| !on_skip_list(#[trigger] kind.spec_keyword()@) by {}
    assert forall|kind: StepKind|
        StepKind::spec_from_keyword(#[trigger] kind.spec_keyword()@) == Some(kind) by {}
}

/// The keyword of a step kind leads to that kind and is not on the skip list.
pub proof fn lemma_keyword_of(kind: StepKind)
    ensures
        !on_skip_list(kind.spec_keyword()@),
        StepKind::spec_from_keyword(kind.spec_keyword()@) == Some(kind),
{
    lemma_keywords_apart();
}

/// A header whose first token is the keyword of a step kind is read as a
/// header of that kind: what follows the keyword goes to the kind. The one
/// exception is the packaging of a provisioning profile.
pub proof fn lemma_keyword_leads_to_kind(kind: StepKind, line: Seq<char>, lines: Seq<Seq<char>>)
    requires
        tokens(trim(line)).len() > 0,
        tokens(trim(line))[0] == kind.spec_keyword()@,
        kind == StepKind::ProcessProductPackaging ==> !contains(
            remainder(trim(line)),
            "mobileprovision"@,
        ),
    ensures
        begin(line) == begin_kind(kind, remainder(trim(line))),
        spec_parse(line, lines) == spec_parse_kind(kind, remainder(trim(line)), lines),
{
    lemma_keyword_of(kind);
    if kind != StepKind::ProcessProductPackaging {
        lemma_keyword_of(StepKind::ProcessProductPackaging);
    }
}

/// A `**` line is a terminal marker where its remainder holds one of the
/// phrases, whatever stands around the phrase, and then no line of the source
/// is read. Any other `**` line has its block thrown away.
pub proof fn lemma_marker_line(line: Seq<char>, lines: Seq<Seq<char>>)
    requires
        tokens(trim(line)).len() > 0,
        tokens(trim(line))[0] == "**"@,
    ensures
        match marker(remainder(trim(line))) {
            Some(step) => spec_parse(line, lines) == (
                Ok::<Seq<StepView>, ParseError>(seq![step]),
                0nat,
            ),
            None => spec_parse(line, lines) == read_block(BlockView::skipping(), lines),
        },
{
    lemma_keywords_apart();
    lemma_keyword_of(StepKind::ProcessProductPackaging);
}

/// `BUILD SUCCEEDED` anywhere in the remainder of a `**` line yields the one
/// step `BuildSucceed` and reads no line.
pub proof fn lemma_build_succeeded(line: Seq<char>, lines: Seq<Seq<char>>)
    requires
        tokens(trim(line)).len() > 0,
        tokens(trim(line))[0] == "**"@,
        contains(remainder(trim(line)), "BUILD SUCCEEDED"@),
    ensures
        spec_parse(line, lines) == (
            Ok::<Seq<StepView>, ParseError>(seq![StepView::BuildSucceed]),
            0nat,
        ),
{
    lemma_marker_line(line, lines);
}

/// `BUILD FAILED` anywhere in the remainder of a `**` line that does not also
/// hold `BUILD SUCCEEDED` yields the one step `BuildFailed` and reads no line.
pub proof fn lemma_build_failed(line: Seq<char>, lines: Seq<Seq<char>>)
    requires
        tokens(trim(line)).len() > 0,
        tokens(trim(line))[0] == "**"@,
        contains(remainder(trim(line)), "BUILD FAILED"@),
        !contains(remainder(trim(line)), "BUILD SUCCEEDED"@),
    ensures
        spec_parse(line, lines) == (
            Ok::<Seq<StepView>, ParseError>(seq![StepView::BuildFailed]),
            0nat,
        ),
{
    lemma_marker_line(line, lines);
}

/// A note is complete with its line: it yields the steps of its body and
/// reads no line.
pub proof fn lemma_note_line(line: Seq<char>, lines: Seq<Seq<char>>)
    requires
        tokens(trim(line)).len() > 0,
        tokens(trim(line))[0] == "Note"@ || tokens(trim(line))[0] == "note:"@,
    ensures
        spec_parse(line, lines) == (
            Ok::<Seq<StepView>, ParseError>(note_steps(remainder(trim(line)))),
            0nat,
        ),
{
    lemma_keywords_apart();
    lemma_keyword_of(StepKind::ProcessProductPackaging);
}

/// A line without a token is no header: parsing fails and reads no line.
pub proof fn lemma_empty_header(line: Seq<char>, lines: Seq<Seq<char>>)
    requires
        is_blank(line),
    ensures
        spec_parse(line, lines) == (
            Err::<Seq<StepView>, ParseError>(ParseError::EmptyHeader),
            0nat,
        ),
{
    lemma_trim_start_blank(line);
    assert(trim(line).len() == 0);
}

/// A text is its trimmed form with whitespace in front.
pub proof fn lemma_trim_start_splits(s: Seq<char>) -> (before: Seq<char>)
    ensures
        is_blank(before),
        s == before + trim_start(s),
    decreases s.len(),
{
    if s.len() > 0 && is_space(s[0]) {
        let rest = s.drop_first();
        let inner = lemma_trim_start_splits(rest);
        let before = seq![s[0]] + inner;
        assert(s =~= seq![s[0]] + rest);
        assert(before + trim_start(rest) =~= seq![s[0]] + (inner + trim_start(rest)));
        assert forall|i: int| 0 <= i < before.len() implies is_space(#[trigger] before[i]) by {
            if i > 0 {
                assert(before[i] == inner[i - 1]);
            }
        }
        before
    } else {
        assert(Seq::<char>::empty() + s =~= s);
        Seq::empty()
    }
}

/// A text is its trimmed form with whitespace behind.
pub proof fn lemma_trim_end_splits(s: Seq<char>) -> (after: Seq<char>)
    ensures
        is_blank(after),
        s == trim_end(s) + after,
    decreases s.len(),
{
    if s.len() > 0 && is_space(s.last()) {
        let front = s.drop_last();
        let inner = lemma_trim_end_splits(front);
        let after = inner.push(s.last());
        assert(s =~= front.push(s.last()));
        assert(trim_end(front) + after =~= (trim_end(front) + inner).push(s.last()));
        assert forall|i: int| 0 <= i < after.len() implies is_space(#[trigger] after[i]) by {
            if i < inner.len() {
                assert(after[i] == inner[i]);
            }
        }
        after
    } else {
        assert(s + Seq::<char>::empty() =~= s);
        Seq::empty()
    }
}

/// Trimming a line leaves its tokens as they are: the keyword of a header is
/// the first token of the line as it came.
pub proof fn lemma_trim_keeps_tokens(s: Seq<char>)
    ensures
        tokens(trim(s)) == tokens(s),
{
    let before = lemma_trim_start_splits(s);
    let after = lemma_trim_end_splits(trim_start(s));
    assert(s == before + trim(s) + after) by {
        assert(before + (trim(s) + after) =~= before + trim(s) + after);
    }
    lemma_tokens_ignore_padding(before, trim(s), after);
}

/// Parsing a block reads no more lines than the source holds.
pub proof fn lemma_parse_reads_within(line: Seq<char>, lines: Seq<Seq<char>>)
    ensures
        spec_parse(line, lines).1 <= lines.len(),
{
    lemma_first_blank(lines);
}

/// A block that the source ends inside of is dropped: where a header opens a
/// block and no line of the source is blank, every line is read and no step
/// comes back.
pub proof fn lemma_unfinished_block_is_dropped(line: Seq<char>, lines: Seq<Seq<char>>)
    requires
        begin(line) is More,
        forall|i: int| 0 <= i < lines.len() ==> !is_blank(#[trigger] lines[i]),
    ensures
        spec_parse(line, lines) == (Ok::<Seq<StepView>, ParseError>(Seq::empty()), lines.len()),
{
    crate::parser::lemma_first_blank_is(lines, lines.len());
}

/// A trimmed text that is not empty starts with a character that is no
/// whitespace.
pub proof fn lemma_trim_starts_with_word(s: Seq<char>)
    ensures
        trim(s).len() > 0 ==> !is_space(trim(s)[0]),
{
    lemma_trim_start_first(s);
    let after = lemma_trim_end_splits(trim_start(s));
    if trim(s).len() > 0 {
        assert((trim(s) + after)[0] == trim(s)[0]);
    }
}

/// A text without its leading whitespace starts with a character that is no
/// whitespace, where anything is left of it.
pub proof fn lemma_trim_start_first(s: Seq<char>)
    ensures
        trim_start(s).len() > 0 ==> !is_space(trim_start(s)[0]),
    decreases s.len(),
{
    if s.len() > 0 && is_space(s[0]) {
        lemma_trim_start_first(s.drop_first());
    }
}

/// The tokens of a header tail are the tokens of the header line without the
/// first: the positional fields of a step are the tokens that follow the
/// keyword on its header line.
pub proof fn lemma_tail_tokens(line: Seq<char>)
    requires
        tokens(line).len() > 0,
    ensures
        tokens(remainder(line)) == tokens(line).drop_first(),
        tokens(remainder(trim(line))) == tokens(line).drop_first(),
{
    lemma_trim_keeps_tokens(line);
    lemma_trim_keeps_tokens(trim(line));
    lemma_trim_starts_with_word(line);
    lemma_trim_starts_with_word(trim(line));
    lemma_tail_tokens_of(trim(line));
    lemma_tail_tokens_of(trim(trim(line)));
}

/// The tokens behind the first word of a trimmed text.
proof fn lemma_tail_tokens_of(t: Seq<char>)
    requires
        tokens(t).len() > 0,
        t.len() > 0 ==> !is_space(t[0]),
    ensures
        ({
            let rest = t.skip(word_len(t) as int);
            tokens(
                if rest.len() > 0 {
                    rest.drop_first()
                } else {
                    rest
                },
            ) == tokens(t).drop_first()
        }),
{
    lemma_word_len_bounds(t);
    let n = word_len(t);
    let rest = t.skip(n as int);
    assert(tokens(t) == seq![t.take(n as int)] + tokens(rest));
    assert((seq![t.take(n as int)] + tokens(rest)).drop_first() == tokens(rest));
    if rest.len() > 0 {
        assert(rest[0] == t[n as int]);
    }
}

/// A line that starts with `CompileC` and holds six more tokens opens a block
/// whose primary step has the second, third, fifth, sixth and seventh token of
/// the line for its output path, path, architecture, language and compiler,
/// whatever whitespace stands around and between the tokens. With fewer
/// tokens the line yields the missing field and reads no line.
pub proof fn lemma_compile_line(line: Seq<char>, lines: Seq<Seq<char>>)
    requires
        tokens(line).len() > 0,
        tokens(line)[0] == "CompileC"@,
    ensures
        tokens(line).len() >= 7 ==> {
            &&& begin(line) is More
            &&& begin(line)->More_0.primary matches Some(StepView::Action(record))
            &&& record.kind == StepKind::CompileC
            &&& record.fields == seq![
                tokens(line)[1],
                tokens(line)[2],
                tokens(line)[4],
                tokens(line)[5],
                tokens(line)[6],
            ]
        },
        tokens(line).len() < 7 ==> spec_parse(line, lines).0 is Err && spec_parse(line, lines).1
            == 0,
{
    let tail = remainder(trim(line));
    lemma_trim_keeps_tokens(line);
    lemma_tail_tokens(line);
    lemma_keyword_leads_to_kind(StepKind::CompileC, line, lines);
    lemma_compile_header_fields(tail);
    assert(tokens(tail).len() == tokens(line).len() - 1);
    if tokens(line).len() >= 7 {
        assert(tokens(tail)[0] == tokens(line)[1]);
        assert(tokens(tail)[1] == tokens(line)[2]);
        assert(tokens(tail)[3] == tokens(line)[4]);
        assert(tokens(tail)[4] == tokens(line)[5]);
        assert(tokens(tail)[5] == tokens(line)[6]);
    }
}

} // verus!
