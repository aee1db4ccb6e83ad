//! Compilation of a storyboard.

use vstd::prelude::*;
use crate::description::{description_view, line_description, Description};
use crate::error::ParseError;
use crate::parser::{parse_kind, ParsableFromStream};
use crate::registry::table::PatternId;
use crate::registry::Registry;
use crate::step::kind::{Field, StepKind};
use crate::step::record::{
    header_record, lemma_first_missing_none, with_keyword, Header, Record,
};
use crate::step::Step;
use crate::stream::OutputStream;
use crate::text::{text_view, tokens};

verus! {

/// Compilation of a storyboard.
#[derive(Debug)]
pub struct CompileStoryboard {
    pub description: Option<Description>,
    pub path: String,
    pub filename: Option<String>,
    pub command: String,
}

impl View for CompileStoryboard {
    type V = Record;

    open spec fn view(&self) -> Record {
        Record {
            kind: StepKind::CompileStoryboard,
            description: description_view(self.description),
            fields: seq![self.path@],
            name: text_view(self.filename),
            command: self.command@,
        }
    }
}

impl CompileStoryboard {
    /// What reading a header tail as one of this kind yields.
    pub open spec fn result_view(r: Result<CompileStoryboard, ParseError>) -> Result<Record, ParseError> {
        match r {
            Ok(step) => Ok(step@),
            Err(e) => Err(e),
        }
    }

    /// Reads `line`, the tail of the header of a block of this kind: what
    /// follows the keyword. The command is left empty: it comes with the
    /// lines of the block.
    pub fn new(line: &str, registry: &Registry) -> (r: Result<CompileStoryboard, ParseError>)
        ensures
            CompileStoryboard::result_view(r) == header_record(StepKind::CompileStoryboard, line@),
            r is Ok <==> tokens(line@).len() > 0,
            r matches Ok(step) ==> {
                &&& step.path@ == tokens(line@)[0]
                &&& description_view(step.description) == line_description(line@)
                &&& text_view(step.filename) == PatternId::CompileStoryboard.spec_capture(
                    with_keyword(StepKind::CompileStoryboard, line@),
                    "filename"@,
                )
                &&& step.command@.len() == 0
            },
    {
        proof {
            lemma_first_missing_none(StepKind::CompileStoryboard.spec_layout(), tokens(line@).len());
            assert(StepKind::CompileStoryboard.spec_layout()[0] == (Field::Path, 0usize));
        }
        match Header::read(StepKind::CompileStoryboard, line, registry) {
            Ok(header) => {
                let step = CompileStoryboard {
                    description: header.description,
                    path: header.fields[0].clone(),
                    filename: header.name,
                    command: String::new(),
                };
                proof {
                    assert(step@.fields =~= header@.fields);
                    assert(header@.fields[0] == tokens(line@)[0]);
                }
                Ok(step)
            },
            Err(e) => Err(e),
        }
    }
}

impl ParsableFromStream for CompileStoryboard {
    open spec fn kind() -> StepKind {
        StepKind::CompileStoryboard
    }

    fn parse_from_stream(line: String, stream: &mut OutputStream, registry: &Registry) -> (r: Result<
        Vec<Step>,
        ParseError,
    >) {
        parse_kind(StepKind::CompileStoryboard, line.as_str(), stream, registry)
    }
}

} // verus!
