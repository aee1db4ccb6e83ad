//! Registration of an execution policy exception for a product.

use vstd::prelude::*;
use vstd::string::*;
use crate::description::{description_view, line_description, Description};
use crate::error::ParseError;
use crate::parser::{parse_kind, ParsableFromStream};
use crate::registry::Registry;
use crate::step::kind::{Field, StepKind};
use crate::step::record::{header_record, lemma_first_missing_none, Header, Record};
use crate::step::Step;
use crate::stream::OutputStream;
use crate::text::tokens;

verus! {

/// Registration of an execution policy exception for a product.
#[derive(Debug)]
pub struct RegisterExecutionPolicyException {
    pub description: Option<Description>,
    pub path: String,
}

impl View for RegisterExecutionPolicyException {
    type V = Record;

    open spec fn view(&self) -> Record {
        Record {
            kind: StepKind::RegisterExecutionPolicyException,
            description: description_view(self.description),
            fields: seq![self.path@],
            name: None,
            command: Seq::empty(),
        }
    }
}

impl RegisterExecutionPolicyException {
    /// What reading a header tail as one of this kind yields.
    pub open spec fn result_view(r: Result<RegisterExecutionPolicyException, ParseError>) -> Result<Record, ParseError> {
        match r {
            Ok(step) => Ok(step@),
            Err(e) => Err(e),
        }
    }

    /// Reads `line`, the tail of a header of this kind: what follows the
    /// keyword.
    pub fn new(line: &str, registry: &Registry) -> (r: Result<RegisterExecutionPolicyException, ParseError>)
        ensures
            RegisterExecutionPolicyException::result_view(r) == header_record(StepKind::RegisterExecutionPolicyException, line@),
            r is Ok <==> tokens(line@).len() > 0,
            r matches Ok(step) ==> {
                &&& step.path@ == tokens(line@)[0]
                &&& description_view(step.description) == line_description(line@)
            },
    {
        proof {
            lemma_first_missing_none(StepKind::RegisterExecutionPolicyException.spec_layout(), tokens(line@).len());
            assert(StepKind::RegisterExecutionPolicyException.spec_layout()[0] == (Field::Path, 0usize));
        }
        match Header::read(StepKind::RegisterExecutionPolicyException, line, registry) {
            Ok(header) => {
                let step = RegisterExecutionPolicyException {
                    description: header.description,
                    path: header.fields[0].clone(),
                };
                proof {
                    assert(step@.fields =~= header@.fields);
                    assert(header@.fields[0] == tokens(line@)[0]);
                }
                Ok(step)
            },
            Err(e) => Err(e),
        }
    }
}

impl ParsableFromStream for RegisterExecutionPolicyException {
    open spec fn kind() -> StepKind {
        StepKind::RegisterExecutionPolicyException
    }

    fn parse_from_stream(line: String, stream: &mut OutputStream, registry: &Registry) -> (r: Result<
        Vec<Step>,
        ParseError,
    >) {
        parse_kind(StepKind::RegisterExecutionPolicyException, line.as_str(), stream, registry)
    }
}

} // verus!
