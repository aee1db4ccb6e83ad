//! Linking of a binary.

use vstd::prelude::*;
use crate::description::{description_view, line_description, Description};
use crate::error::ParseError;
use crate::parser::{parse_kind, ParsableFromStream};
use crate::registry::table::PatternId;
use crate::registry::Registry;
use crate::step::kind::{Field, StepKind};
use crate::step::record::{
    header_record, lemma_first_missing_none, with_keyword, Header, Record,
};
use crate::step::Step;
use crate::stream::OutputStream;
use crate::text::{text_view, tokens};

verus! {

/// Linking of a binary.
#[derive(Debug)]
pub struct Ld {
    pub description: Option<Description>,
    pub path: String,
    pub arch: String,
    pub filename: Option<String>,
    pub command: String,
}

impl View for Ld {
    type V = Record;

    open spec fn view(&self) -> Record {
        Record {
            kind: StepKind::Ld,
            description: description_view(self.description),
            fields: seq![self.path@, self.arch@],
            name: text_view(self.filename),
            command: self.command@,
        }
    }
}

impl Ld {
    /// What reading a header tail as one of this kind yields.
    pub open spec fn result_view(r: Result<Ld, ParseError>) -> Result<Record, ParseError> {
        match r {
            Ok(step) => Ok(step@),
            Err(e) => Err(e),
        }
    }

    /// Reads `line`, the tail of the header of a block of this kind: what
    /// follows the keyword. The command is left empty: it comes with the
    /// lines of the block.
    pub fn new(line: &str, registry: &Registry) -> (r: Result<Ld, ParseError>)
        ensures
            Ld::result_view(r) == header_record(StepKind::Ld, line@),
            r is Ok <==> tokens(line@).len() > 2,
            r matches Ok(step) ==> {
                &&& step.path@ == tokens(line@)[0]
                &&& step.arch@ == tokens(line@)[2]
                &&& description_view(step.description) == line_description(line@)
                &&& text_view(step.filename) == PatternId::Linking.spec_capture(
                    with_keyword(StepKind::Ld, line@),
                    "filename"@,
                )
                &&& step.command@.len() == 0
            },
    {
        proof {
            lemma_first_missing_none(StepKind::Ld.spec_layout(), tokens(line@).len());
            assert(StepKind::Ld.spec_layout()[0] == (Field::Path, 0usize));
            assert(StepKind::Ld.spec_layout()[1] == (Field::Arch, 2usize));
        }
        match Header::read(StepKind::Ld, line, registry) {
            Ok(header) => {
                let step = Ld {
                    description: header.description,
                    path: header.fields[0].clone(),
                    arch: header.fields[1].clone(),
                    filename: header.name,
                    command: String::new(),
                };
                proof {
                    assert(step@.fields =~= header@.fields);
                    assert(header@.fields[0] == tokens(line@)[0]);
                    assert(header@.fields[1] == tokens(line@)[2]);
                }
                Ok(step)
            },
            Err(e) => Err(e),
        }
    }
}

impl ParsableFromStream for Ld {
    open spec fn kind() -> StepKind {
        StepKind::Ld
    }

    fn parse_from_stream(line: String, stream: &mut OutputStream, registry: &Registry) -> (r: Result<
        Vec<Step>,
        ParseError,
    >) {
        parse_kind(StepKind::Ld, line.as_str(), stream, registry)
    }
}

} // verus!
