//! Execution of a build phase script.

use vstd::prelude::*;
use crate::description::{description_view, line_description, Description};
use crate::error::ParseError;
use crate::parser::{parse_kind, ParsableFromStream};
use crate::registry::table::PatternId;
use crate::registry::Registry;
use crate::step::kind::StepKind;
use crate::step::record::{
    header_record, lemma_first_missing_none, with_keyword, Header, Record,
};
use crate::step::Step;
use crate::stream::OutputStream;
use crate::text::{text_view, tokens};

verus! {

/// Execution of a build phase script.
#[derive(Debug)]
pub struct ScriptExecution {
    pub description: Option<Description>,
    pub name: Option<String>,
    pub command: String,
}

impl View for ScriptExecution {
    type V = Record;

    open spec fn view(&self) -> Record {
        Record {
            kind: StepKind::ScriptExecution,
            description: description_view(self.description),
            fields: Seq::empty(),
            name: text_view(self.name),
            command: self.command@,
        }
    }
}

impl ScriptExecution {
    /// What reading a header tail as one of this kind yields.
    pub open spec fn result_view(r: Result<ScriptExecution, ParseError>) -> Result<Record, ParseError> {
        match r {
            Ok(step) => Ok(step@),
            Err(e) => Err(e),
        }
    }

    /// Reads `line`, the tail of the header of a block of this kind: what
    /// follows the keyword. The command is left empty: it comes with the
    /// lines of the block.
    pub fn new(line: &str, registry: &Registry) -> (r: Result<ScriptExecution, ParseError>)
        ensures
            ScriptExecution::result_view(r) == header_record(StepKind::ScriptExecution, line@),
            r is Ok,
            r matches Ok(step) ==> {
                &&& description_view(step.description) == line_description(line@)
                &&& text_view(step.name) == PatternId::PhaseScriptExecution.spec_capture(
                    with_keyword(StepKind::ScriptExecution, line@),
                    "name"@,
                )
                &&& step.command@.len() == 0
            },
    {
        proof {
            lemma_first_missing_none(StepKind::ScriptExecution.spec_layout(), tokens(line@).len());
        }
        match Header::read(StepKind::ScriptExecution, line, registry) {
            Ok(header) => {
                let step = ScriptExecution {
                    description: header.description,
                    name: header.name,
                    command: String::new(),
                };
                proof {
                    assert(step@.fields =~= header@.fields);
                }
                Ok(step)
            },
            Err(e) => Err(e),
        }
    }
}

impl ParsableFromStream for ScriptExecution {
    open spec fn kind() -> StepKind {
        StepKind::ScriptExecution
    }

    fn parse_from_stream(line: String, stream: &mut OutputStream, registry: &Registry) -> (r: Result<
        Vec<Step>,
        ParseError,
    >) {
        parse_kind(StepKind::ScriptExecution, line.as_str(), stream, registry)
    }
}

} // verus!
