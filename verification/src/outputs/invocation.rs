//! The command line that started the build.

use vstd::prelude::*;
use vstd::string::*;
use crate::description::{description_view, line_description, Description};
use crate::error::ParseError;
use crate::parser::{parse_kind, ParsableFromStream};
use crate::registry::Registry;
use crate::step::kind::StepKind;
use crate::step::record::{header_record, lemma_first_missing_none, Header, Record};
use crate::step::Step;
use crate::stream::OutputStream;
use crate::text::tokens;

verus! {

/// The command line that started the build.
#[derive(Debug)]
pub struct Invocation {
    pub description: Option<Description>,
    pub command: String,
}

impl View for Invocation {
    type V = Record;

    open spec fn view(&self) -> Record {
        Record {
            kind: StepKind::Invocation,
            description: description_view(self.description),
            fields: Seq::empty(),
            name: None,
            command: self.command@,
        }
    }
}

impl Invocation {
    /// What reading a header tail as one of this kind yields.
    pub open spec fn result_view(r: Result<Invocation, ParseError>) -> Result<Record, ParseError> {
        match r {
            Ok(step) => Ok(step@),
            Err(e) => Err(e),
        }
    }

    /// Reads `line`, the tail of the header of a block of this kind: what
    /// follows the keyword. The command is left empty: it comes with the
    /// lines of the block.
    pub fn new(line: &str, registry: &Registry) -> (r: Result<Invocation, ParseError>)
        ensures
            Invocation::result_view(r) == header_record(StepKind::Invocation, line@),
            r is Ok,
            r matches Ok(step) ==> {
                &&& description_view(step.description) == line_description(line@)
                &&& step.command@.len() == 0
            },
    {
        proof {
            lemma_first_missing_none(StepKind::Invocation.spec_layout(), tokens(line@).len());
        }
        match Header::read(StepKind::Invocation, line, registry) {
            Ok(header) => {
                let step = Invocation {
                    description: header.description,
                    command: String::new(),
                };
                proof {
                    assert(step@.fields =~= header@.fields);
                }
                Ok(step)
            },
            Err(e) => Err(e),
        }
    }
}

impl ParsableFromStream for Invocation {
    open spec fn kind() -> StepKind {
        StepKind::Invocation
    }

    fn parse_from_stream(line: String, stream: &mut OutputStream, registry: &Registry) -> (r: Result<
        Vec<Step>,
        ParseError,
    >) {
        parse_kind(StepKind::Invocation, line.as_str(), stream, registry)
    }
}

} // verus!
