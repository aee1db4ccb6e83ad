//! Packaging of a product.

use vstd::prelude::*;
use vstd::string::*;
use crate::description::{description_view, line_description, Description};
use crate::error::ParseError;
use crate::parser::{parse_kind, ParsableFromStream};
use crate::registry::Registry;
use crate::step::kind::{Field, StepKind};
use crate::step::record::{header_record, lemma_first_missing_none, Header, Record};
use crate::step::Step;
use crate::stream::OutputStream;
use crate::text::tokens;

verus! {

/// Packaging of a product.
#[derive(Debug)]
pub struct ProcessProductPackaging {
    pub description: Option<Description>,
    pub path: String,
    pub command: String,
}

impl View for ProcessProductPackaging {
    type V = Record;

    open spec fn view(&self) -> Record {
        Record {
            kind: StepKind::ProcessProductPackaging,
            description: description_view(self.description),
            fields: seq![self.path@],
            name: None,
            command: self.command@,
        }
    }
}

impl ProcessProductPackaging {
    /// What reading a header tail as one of this kind yields.
    pub open spec fn result_view(r: Result<ProcessProductPackaging, ParseError>) -> Result<Record, ParseError> {
        match r {
            Ok(step) => Ok(step@),
            Err(e) => Err(e),
        }
    }

    /// Reads `line`, the tail of the header of a block of this kind: what
    /// follows the keyword. The command is left empty: it comes with the
    /// lines of the block.
    pub fn new(line: &str, registry: &Registry) -> (r: Result<ProcessProductPackaging, ParseError>)
        ensures
            ProcessProductPackaging::result_view(r) == header_record(StepKind::ProcessProductPackaging, line@),
            r is Ok <==> tokens(line@).len() > 1,
            r matches Ok(step) ==> {
                &&& step.path@ == tokens(line@)[1]
                &&& description_view(step.description) == line_description(line@)
                &&& step.command@.len() == 0
            },
    {
        proof {
            lemma_first_missing_none(StepKind::ProcessProductPackaging.spec_layout(), tokens(line@).len());
            assert(StepKind::ProcessProductPackaging.spec_layout()[0] == (Field::Path, 1usize));
        }
        match Header::read(StepKind::ProcessProductPackaging, line, registry) {
            Ok(header) => {
                let step = ProcessProductPackaging {
                    description: header.description,
                    path: header.fields[0].clone(),
                    command: String::new(),
                };
                proof {
                    assert(step@.fields =~= header@.fields);
                    assert(header@.fields[0] == tokens(line@)[1]);
                }
                Ok(step)
            },
            Err(e) => Err(e),
        }
    }
}

impl ParsableFromStream for ProcessProductPackaging {
    open spec fn kind() -> StepKind {
        StepKind::ProcessProductPackaging
    }

    fn parse_from_stream(line: String, stream: &mut OutputStream, registry: &Registry) -> (r: Result<
        Vec<Step>,
        ParseError,
    >) {
        parse_kind(StepKind::ProcessProductPackaging, line.as_str(), stream, registry)
    }
}

} // verus!
