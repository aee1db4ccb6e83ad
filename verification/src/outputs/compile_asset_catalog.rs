//! Compilation of an asset catalog.

use vstd::prelude::*;
use vstd::string::*;
use crate::description::{description_view, line_description, Description};
use crate::error::ParseError;
use crate::parser::{parse_kind, ParsableFromStream};
use crate::registry::Registry;
use crate::step::kind::{Field, StepKind};
use crate::step::record::{header_record, lemma_first_missing_none, Header, Record};
use crate::step::Step;
use crate::stream::OutputStream;
use crate::text::tokens;

verus! {

/// Compilation of an asset catalog.
#[derive(Debug)]
pub struct CompileAssetCatalog {
    pub description: Option<Description>,
    pub output_path: String,
    pub path: String,
    pub command: String,
}

impl View for CompileAssetCatalog {
    type V = Record;

    open spec fn view(&self) -> Record {
        Record {
            kind: StepKind::CompileAssetCatalog,
            description: description_view(self.description),
            fields: seq![self.output_path@, self.path@],
            name: None,
            command: self.command@,
        }
    }
}

impl CompileAssetCatalog {
    /// What reading a header tail as one of this kind yields.
    pub open spec fn result_view(r: Result<CompileAssetCatalog, ParseError>) -> Result<Record, ParseError> {
        match r {
            Ok(step) => Ok(step@),
            Err(e) => Err(e),
        }
    }

    /// Reads `line`, the tail of the header of a block of this kind: what
    /// follows the keyword. The command is left empty: it comes with the
    /// lines of the block.
    pub fn new(line: &str, registry: &Registry) -> (r: Result<CompileAssetCatalog, ParseError>)
        ensures
            CompileAssetCatalog::result_view(r) == header_record(StepKind::CompileAssetCatalog, line@),
            r is Ok <==> tokens(line@).len() > 1,
            r matches Ok(step) ==> {
                &&& step.output_path@ == tokens(line@)[0]
                &&& step.path@ == tokens(line@)[1]
                &&& description_view(step.description) == line_description(line@)
                &&& step.command@.len() == 0
            },
    {
        proof {
            lemma_first_missing_none(StepKind::CompileAssetCatalog.spec_layout(), tokens(line@).len());
            assert(StepKind::CompileAssetCatalog.spec_layout()[0] == (Field::OutputPath, 0usize));
            assert(StepKind::CompileAssetCatalog.spec_layout()[1] == (Field::Path, 1usize));
        }
        match Header::read(StepKind::CompileAssetCatalog, line, registry) {
            Ok(header) => {
                let step = CompileAssetCatalog {
                    description: header.description,
                    output_path: header.fields[0].clone(),
                    path: header.fields[1].clone(),
                    command: String::new(),
                };
                proof {
                    assert(step@.fields =~= header@.fields);
                    assert(header@.fields[0] == tokens(line@)[0]);
                    assert(header@.fields[1] == tokens(line@)[1]);
                }
                Ok(step)
            },
            Err(e) => Err(e),
        }
    }
}

impl ParsableFromStream for CompileAssetCatalog {
    open spec fn kind() -> StepKind {
        StepKind::CompileAssetCatalog
    }

    fn parse_from_stream(line: String, stream: &mut OutputStream, registry: &Registry) -> (r: Result<
        Vec<Step>,
        ParseError,
    >) {
        parse_kind(StepKind::CompileAssetCatalog, line.as_str(), stream, registry)
    }
}

} // verus!
