//! Compilation of a XIB file.

use vstd::prelude::*;
use crate::description::{description_view, line_description, Description};
use crate::error::ParseError;
use crate::parser::{parse_kind, ParsableFromStream};
use crate::registry::table::PatternId;
use crate::registry::Registry;
use crate::step::kind::{Field, StepKind};
use crate::step::record::{
    header_record, lemma_first_missing_none, with_keyword, Header, Record,
};
use crate::step::Step;
use crate::stream::OutputStream;
use crate::text::{text_view, tokens};

verus! {

/// Compilation of a XIB file.
#[derive(Debug)]
pub struct CompileXIB {
    pub description: Option<Description>,
    pub path: String,
    pub filename: Option<String>,
    pub command: String,
}

impl View for CompileXIB {
    type V = Record;

    open spec fn view(&self) -> Record {
        Record {
            kind: StepKind::CompileXIB,
            description: description_view(self.description),
            fields: seq![self.path@],
            name: text_view(self.filename),
            command: self.command@,
        }
    }
}

impl CompileXIB {
    /// What reading a header tail as one of this kind yields.
    pub open spec fn result_view(r: Result<CompileXIB, ParseError>) -> Result<Record, ParseError> {
        match r {
            Ok(step) => Ok(step@),
            Err(e) => Err(e),
        }
    }

    /// Reads `line`, the tail of the header of a block of this kind: what
    /// follows the keyword. The command is left empty: it comes with the
    /// lines of the block.
    pub fn new(line: &str, registry: &Registry) -> (r: Result<CompileXIB, ParseError>)
        ensures
            CompileXIB::result_view(r) == header_record(StepKind::CompileXIB, line@),
            r is Ok <==> tokens(line@).len() > 0,
            r matches Ok(step) ==> {
                &&& step.path@ == tokens(line@)[0]
                &&& description_view(step.description) == line_description(line@)
                &&& text_view(step.filename) == PatternId::CompileXIB.spec_capture(
                    with_keyword(StepKind::CompileXIB, line@),
                    "filename"@,
                )
                &&& step.command@.len() == 0
            },
    {
        proof {
            lemma_first_missing_none(StepKind::CompileXIB.spec_layout(), tokens(line@).len());
            assert(StepKind::CompileXIB.spec_layout()[0] == (Field::Path, 0usize));
        }
        match Header::read(StepKind::CompileXIB, line, registry) {
            Ok(header) => {
                let step = CompileXIB {
                    description: header.description,
                    path: header.fields[0].clone(),
                    filename: header.name,
                    command: String::new(),
                };
                proof {
                    assert(step@.fields =~= header@.fields);
                    assert(header@.fields[0] == tokens(line@)[0]);
                }
                Ok(step)
            },
            Err(e) => Err(e),
        }
    }
}

impl ParsableFromStream for CompileXIB {
    open spec fn kind() -> StepKind {
        StepKind::CompileXIB
    }

    fn parse_from_stream(line: String, stream: &mut OutputStream, registry: &Registry) -> (r: Result<
        Vec<Step>,
        ParseError,
    >) {
        parse_kind(StepKind::CompileXIB, line.as_str(), stream, registry)
    }
}

} // verus!
