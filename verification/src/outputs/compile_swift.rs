//! Compilation of one Swift file.

use vstd::prelude::*;
use crate::description::{description_view, line_description, Description};
use crate::error::ParseError;
use crate::parser::{parse_kind, ParsableFromStream};
use crate::registry::table::PatternId;
use crate::registry::Registry;
use crate::step::kind::{Field, StepKind};
use crate::step::record::{
    header_record, lemma_first_missing_none, with_keyword, Header, Record,
};
use crate::step::Step;
use crate::stream::OutputStream;
use crate::text::{text_view, tokens};

verus! {

/// Compilation of one Swift file.
#[derive(Debug)]
pub struct CompileSwift {
    pub description: Option<Description>,
    pub arch: String,
    pub path: String,
    pub filename: Option<String>,
    pub command: String,
}

impl View for CompileSwift {
    type V = Record;

    open spec fn view(&self) -> Record {
        Record {
            kind: StepKind::CompileSwift,
            description: description_view(self.description),
            fields: seq![self.arch@, self.path@],
            name: text_view(self.filename),
            command: self.command@,
        }
    }
}

impl CompileSwift {
    /// What reading a header tail as one of this kind yields.
    pub open spec fn result_view(r: Result<CompileSwift, ParseError>) -> Result<Record, ParseError> {
        match r {
            Ok(step) => Ok(step@),
            Err(e) => Err(e),
        }
    }

    /// Reads `line`, the tail of the header of a block of this kind: what
    /// follows the keyword. The command is left empty: it comes with the
    /// lines of the block.
    pub fn new(line: &str, registry: &Registry) -> (r: Result<CompileSwift, ParseError>)
        ensures
            CompileSwift::result_view(r) == header_record(StepKind::CompileSwift, line@),
            r is Ok <==> tokens(line@).len() > 2,
            r matches Ok(step) ==> {
                &&& step.arch@ == tokens(line@)[1]
                &&& step.path@ == tokens(line@)[2]
                &&& description_view(step.description) == line_description(line@)
                &&& text_view(step.filename) == PatternId::Compile.spec_capture(
                    with_keyword(StepKind::CompileSwift, line@),
                    "filename"@,
                )
                &&& step.command@.len() == 0
            },
    {
        proof {
            lemma_first_missing_none(StepKind::CompileSwift.spec_layout(), tokens(line@).len());
            assert(StepKind::CompileSwift.spec_layout()[0] == (Field::Arch, 1usize));
            assert(StepKind::CompileSwift.spec_layout()[1] == (Field::Path, 2usize));
        }
        match Header::read(StepKind::CompileSwift, line, registry) {
            Ok(header) => {
                let step = CompileSwift {
                    description: header.description,
                    arch: header.fields[0].clone(),
                    path: header.fields[1].clone(),
                    filename: header.name,
                    command: String::new(),
                };
                proof {
                    assert(step@.fields =~= header@.fields);
                    assert(header@.fields[0] == tokens(line@)[1]);
                    assert(header@.fields[1] == tokens(line@)[2]);
                }
                Ok(step)
            },
            Err(e) => Err(e),
        }
    }
}

impl ParsableFromStream for CompileSwift {
    open spec fn kind() -> StepKind {
        StepKind::CompileSwift
    }

    fn parse_from_stream(line: String, stream: &mut OutputStream, registry: &Registry) -> (r: Result<
        Vec<Step>,
        ParseError,
    >) {
        parse_kind(StepKind::CompileSwift, line.as_str(), stream, registry)
    }
}

} // verus!
