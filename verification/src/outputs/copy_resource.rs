//! Copying of a resource into a product.

use vstd::prelude::*;
use crate::description::{description_view, line_description, Description};
use crate::error::ParseError;
use crate::parser::{parse_kind, ParsableFromStream};
use crate::registry::table::PatternId;
use crate::registry::Registry;
use crate::step::kind::{Field, StepKind};
use crate::step::record::{
    header_record, lemma_first_missing_none, with_keyword, Header, Record,
};
use crate::step::Step;
use crate::stream::OutputStream;
use crate::text::{text_view, tokens};

verus! {

/// Copying of a resource into a product.
#[derive(Debug)]
pub struct CopyResource {
    pub description: Option<Description>,
    pub output_path: String,
    pub path: String,
    pub filename: Option<String>,
    pub command: String,
}

impl View for CopyResource {
    type V = Record;

    open spec fn view(&self) -> Record {
        Record {
            kind: StepKind::CopyResource,
            description: description_view(self.description),
            fields: seq![self.output_path@, self.path@],
            name: text_view(self.filename),
            command: self.command@,
        }
    }
}

impl CopyResource {
    /// What reading a header tail as one of this kind yields.
    pub open spec fn result_view(r: Result<CopyResource, ParseError>) -> Result<Record, ParseError> {
        match r {
            Ok(step) => Ok(step@),
            Err(e) => Err(e),
        }
    }

    /// Reads `line`, the tail of the header of a block of this kind: what
    /// follows the keyword. The command is left empty: it comes with the
    /// lines of the block.
    pub fn new(line: &str, registry: &Registry) -> (r: Result<CopyResource, ParseError>)
        ensures
            CopyResource::result_view(r) == header_record(StepKind::CopyResource, line@),
            r is Ok <==> tokens(line@).len() > 1,
            r matches Ok(step) ==> {
                &&& step.output_path@ == tokens(line@)[0]
                &&& step.path@ == tokens(line@)[1]
                &&& description_view(step.description) == line_description(line@)
                &&& text_view(step.filename) == PatternId::CopyCommand.spec_capture(
                    with_keyword(StepKind::CopyResource, line@),
                    "filename"@,
                )
                &&& step.command@.len() == 0
            },
    {
        proof {
            lemma_first_missing_none(StepKind::CopyResource.spec_layout(), tokens(line@).len());
            assert(StepKind::CopyResource.spec_layout()[0] == (Field::OutputPath, 0usize));
            assert(StepKind::CopyResource.spec_layout()[1] == (Field::Path, 1usize));
        }
        match Header::read(StepKind::CopyResource, line, registry) {
            Ok(header) => {
                let step = CopyResource {
                    description: header.description,
                    output_path: header.fields[0].clone(),
                    path: header.fields[1].clone(),
                    filename: header.name,
                    command: String::new(),
                };
                proof {
                    assert(step@.fields =~= header@.fields);
                    assert(header@.fields[0] == tokens(line@)[0]);
                    assert(header@.fields[1] == tokens(line@)[1]);
                }
                Ok(step)
            },
            Err(e) => Err(e),
        }
    }
}

impl ParsableFromStream for CopyResource {
    open spec fn kind() -> StepKind {
        StepKind::CopyResource
    }

    fn parse_from_stream(line: String, stream: &mut OutputStream, registry: &Registry) -> (r: Result<
        Vec<Step>,
        ParseError,
    >) {
        parse_kind(StepKind::CopyResource, line.as_str(), stream, registry)
    }
}

} // verus!
