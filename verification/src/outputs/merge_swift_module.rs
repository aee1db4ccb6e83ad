//! Merging of a Swift module.

use vstd::prelude::*;
use vstd::string::*;
use crate::description::{description_view, line_description, Description};
use crate::error::ParseError;
use crate::parser::{parse_kind, ParsableFromStream};
use crate::registry::Registry;
use crate::step::kind::{Field, StepKind};
use crate::step::record::{header_record, lemma_first_missing_none, Header, Record};
use crate::step::Step;
use crate::stream::OutputStream;
use crate::text::tokens;

verus! {

/// Merging of a Swift module.
#[derive(Debug)]
pub struct MergeSwiftModule {
    pub description: Option<Description>,
    pub arch: String,
    pub command: String,
}

impl View for MergeSwiftModule {
    type V = Record;

    open spec fn view(&self) -> Record {
        Record {
            kind: StepKind::MergeSwiftModule,
            description: description_view(self.description),
            fields: seq![self.arch@],
            name: None,
            command: self.command@,
        }
    }
}

impl MergeSwiftModule {
    /// What reading a header tail as one of this kind yields.
    pub open spec fn result_view(r: Result<MergeSwiftModule, ParseError>) -> Result<Record, ParseError> {
        match r {
            Ok(step) => Ok(step@),
            Err(e) => Err(e),
        }
    }

    /// Reads `line`, the tail of the header of a block of this kind: what
    /// follows the keyword. The command is left empty: it comes with the
    /// lines of the block.
    pub fn new(line: &str, registry: &Registry) -> (r: Result<MergeSwiftModule, ParseError>)
        ensures
            MergeSwiftModule::result_view(r) == header_record(StepKind::MergeSwiftModule, line@),
            r is Ok <==> tokens(line@).len() > 1,
            r matches Ok(step) ==> {
                &&& step.arch@ == tokens(line@)[1]
                &&& description_view(step.description) == line_description(line@)
                &&& step.command@.len() == 0
            },
    {
        proof {
            lemma_first_missing_none(StepKind::MergeSwiftModule.spec_layout(), tokens(line@).len());
            assert(StepKind::MergeSwiftModule.spec_layout()[0] == (Field::Arch, 1usize));
        }
        match Header::read(StepKind::MergeSwiftModule, line, registry) {
            Ok(header) => {
                let step = MergeSwiftModule {
                    description: header.description,
                    arch: header.fields[0].clone(),
                    command: String::new(),
                };
                proof {
                    assert(step@.fields =~= header@.fields);
                    assert(header@.fields[0] == tokens(line@)[1]);
                }
                Ok(step)
            },
            Err(e) => Err(e),
        }
    }
}

impl ParsableFromStream for MergeSwiftModule {
    open spec fn kind() -> StepKind {
        StepKind::MergeSwiftModule
    }

    fn parse_from_stream(line: String, stream: &mut OutputStream, registry: &Registry) -> (r: Result<
        Vec<Step>,
        ParseError,
    >) {
        parse_kind(StepKind::MergeSwiftModule, line.as_str(), stream, registry)
    }
}

} // verus!
