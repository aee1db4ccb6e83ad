//! Compilation of the Swift sources of a target.

use vstd::prelude::*;
use vstd::string::*;
use crate::description::{description_view, line_description, Description};
use crate::error::ParseError;
use crate::parser::{parse_kind, ParsableFromStream};
use crate::registry::Registry;
use crate::step::kind::{Field, StepKind};
use crate::step::record::{header_record, lemma_first_missing_none, Header, Record};
use crate::step::Step;
use crate::stream::OutputStream;
use crate::text::tokens;

verus! {

/// Compilation of the Swift sources of a target.
#[derive(Debug)]
pub struct CompileSwiftSources {
    pub description: Option<Description>,
    pub arch: String,
    pub compiler: String,
    pub command: String,
}

impl View for CompileSwiftSources {
    type V = Record;

    open spec fn view(&self) -> Record {
        Record {
            kind: StepKind::CompileSwiftSources,
            description: description_view(self.description),
            fields: seq![self.arch@, self.compiler@],
            name: None,
            command: self.command@,
        }
    }
}

impl CompileSwiftSources {
    /// What reading a header tail as one of this kind yields.
    pub open spec fn result_view(r: Result<CompileSwiftSources, ParseError>) -> Result<Record, ParseError> {
        match r {
            Ok(step) => Ok(step@),
            Err(e) => Err(e),
        }
    }

    /// Reads `line`, the tail of the header of a block of this kind: what
    /// follows the keyword. The command is left empty: it comes with the
    /// lines of the block.
    pub fn new(line: &str, registry: &Registry) -> (r: Result<CompileSwiftSources, ParseError>)
        ensures
            CompileSwiftSources::result_view(r) == header_record(StepKind::CompileSwiftSources, line@),
            r is Ok <==> tokens(line@).len() > 2,
            r matches Ok(step) ==> {
                &&& step.arch@ == tokens(line@)[1]
                &&& step.compiler@ == tokens(line@)[2]
                &&& description_view(step.description) == line_description(line@)
                &&& step.command@.len() == 0
            },
    {
        proof {
            lemma_first_missing_none(StepKind::CompileSwiftSources.spec_layout(), tokens(line@).len());
            assert(StepKind::CompileSwiftSources.spec_layout()[0] == (Field::Arch, 1usize));
            assert(StepKind::CompileSwiftSources.spec_layout()[1] == (Field::Compiler, 2usize));
        }
        match Header::read(StepKind::CompileSwiftSources, line, registry) {
            Ok(header) => {
                let step = CompileSwiftSources {
                    description: header.description,
                    arch: header.fields[0].clone(),
                    compiler: header.fields[1].clone(),
                    command: String::new(),
                };
                proof {
                    assert(step@.fields =~= header@.fields);
                    assert(header@.fields[0] == tokens(line@)[1]);
                    assert(header@.fields[1] == tokens(line@)[2]);
                }
                Ok(step)
            },
            Err(e) => Err(e),
        }
    }
}

impl ParsableFromStream for CompileSwiftSources {
    open spec fn kind() -> StepKind {
        StepKind::CompileSwiftSources
    }

    fn parse_from_stream(line: String, stream: &mut OutputStream, registry: &Registry) -> (r: Result<
        Vec<Step>,
        ParseError,
    >) {
        parse_kind(StepKind::CompileSwiftSources, line.as_str(), stream, registry)
    }
}

} // verus!
