//! Linking of the storyboards of a target.

use vstd::prelude::*;
use vstd::string::*;
use crate::description::{description_view, line_description, Description};
use crate::error::ParseError;
use crate::parser::{parse_kind, ParsableFromStream};
use crate::registry::Registry;
use crate::step::kind::StepKind;
use crate::step::record::{header_record, lemma_first_missing_none, Header, Record};
use crate::step::Step;
use crate::stream::OutputStream;
use crate::text::tokens;

verus! {

/// Linking of the storyboards of a target.
#[derive(Debug)]
pub struct LinkStoryboards {
    pub description: Option<Description>,
}

impl View for LinkStoryboards {
    type V = Record;

    open spec fn view(&self) -> Record {
        Record {
            kind: StepKind::LinkStoryboards,
            description: description_view(self.description),
            fields: Seq::empty(),
            name: None,
            command: Seq::empty(),
        }
    }
}

impl LinkStoryboards {
    /// What reading a header tail as one of this kind yields.
    pub open spec fn result_view(r: Result<LinkStoryboards, ParseError>) -> Result<Record, ParseError> {
        match r {
            Ok(step) => Ok(step@),
            Err(e) => Err(e),
        }
    }

    /// Reads `line`, the tail of a header of this kind: what follows the
    /// keyword.
    pub fn new(line: &str, registry: &Registry) -> (r: Result<LinkStoryboards, ParseError>)
        ensures
            LinkStoryboards::result_view(r) == header_record(StepKind::LinkStoryboards, line@),
            r is Ok,
            r matches Ok(step) ==> {
                &&& description_view(step.description) == line_description(line@)
            },
    {
        proof {
            lemma_first_missing_none(StepKind::LinkStoryboards.spec_layout(), tokens(line@).len());
        }
        match Header::read(StepKind::LinkStoryboards, line, registry) {
            Ok(header) => {
                let step = LinkStoryboards {
                    description: header.description,
                };
                proof {
                    assert(step@.fields =~= header@.fields);
                }
                Ok(step)
            },
            Err(e) => Err(e),
        }
    }
}

impl ParsableFromStream for LinkStoryboards {
    open spec fn kind() -> StepKind {
        StepKind::LinkStoryboards
    }

    fn parse_from_stream(line: String, stream: &mut OutputStream, registry: &Registry) -> (r: Result<
        Vec<Step>,
        ParseError,
    >) {
        parse_kind(StepKind::LinkStoryboards, line.as_str(), stream, registry)
    }
}

} // verus!
