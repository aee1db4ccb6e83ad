//! Validation of a product.

use vstd::prelude::*;
use vstd::string::*;
use crate::description::{description_view, line_description, Description};
use crate::error::ParseError;
use crate::parser::{parse_kind, ParsableFromStream};
use crate::registry::Registry;
use crate::step::kind::{Field, StepKind};
use crate::step::record::{header_record, lemma_first_missing_none, Header, Record};
use crate::step::Step;
use crate::stream::OutputStream;
use crate::text::tokens;

verus! {

/// Validation of a product.
#[derive(Debug)]
pub struct Validate {
    pub description: Option<Description>,
    pub path: String,
    pub command: String,
}

impl View for Validate {
    type V = Record;

    open spec fn view(&self) -> Record {
        Record {
            kind: StepKind::Validate,
            description: description_view(self.description),
            fields: seq![self.path@],
            name: None,
            command: self.command@,
        }
    }
}

impl Validate {
    /// What reading a header tail as one of this kind yields.
    pub open spec fn result_view(r: Result<Validate, ParseError>) -> Result<Record, ParseError> {
        match r {
            Ok(step) => Ok(step@),
            Err(e) => Err(e),
        }
    }

    /// Reads `line`, the tail of the header of a block of this kind: what
    /// follows the keyword. The command is left empty: it comes with the
    /// lines of the block.
    pub fn new(line: &str, registry: &Registry) -> (r: Result<Validate, ParseError>)
        ensures
            Validate::result_view(r) == header_record(StepKind::Validate, line@),
            r is Ok <==> tokens(line@).len() > 0,
            r matches Ok(step) ==> {
                &&& step.path@ == tokens(line@)[0]
                &&& description_view(step.description) == line_description(line@)
                &&& step.command@.len() == 0
            },
    {
        proof {
            lemma_first_missing_none(StepKind::Validate.spec_layout(), tokens(line@).len());
            assert(StepKind::Validate.spec_layout()[0] == (Field::Path, 0usize));
        }
        match Header::read(StepKind::Validate, line, registry) {
            Ok(header) => {
                let step = Validate {
                    description: header.description,
                    path: header.fields[0].clone(),
                    command: String::new(),
                };
                proof {
                    assert(step@.fields =~= header@.fields);
                    assert(header@.fields[0] == tokens(line@)[0]);
                }
                Ok(step)
            },
            Err(e) => Err(e),
        }
    }
}

impl ParsableFromStream for Validate {
    open spec fn kind() -> StepKind {
        StepKind::Validate
    }

    fn parse_from_stream(line: String, stream: &mut OutputStream, registry: &Registry) -> (r: Result<
        Vec<Step>,
        ParseError,
    >) {
        parse_kind(StepKind::Validate, line.as_str(), stream, registry)
    }
}

} // verus!
