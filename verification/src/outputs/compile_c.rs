//! Clang compilation step.

use vstd::prelude::*;
use crate::description::{description_view, line_description, Description};
use crate::error::ParseError;
use crate::parser::{parse_kind, ParsableFromStream};
use crate::registry::Registry;
use crate::step::kind::{Field, StepKind};
use crate::step::record::{header_record, lemma_first_missing_none, Header, Record};
use crate::step::Step;
use crate::stream::OutputStream;
use crate::text::{file_name, final_component, tokens};

verus! {

/// Clang compilation step
#[derive(Debug)]
pub struct CompileC {
    pub compiler: String,
    pub description: Option<Description>,
    pub output_path: String,
    pub path: String,
    pub arch: String,
    pub lang: String,
    pub command: String,
}

impl View for CompileC {
    type V = Record;

    open spec fn view(&self) -> Record {
        Record {
            kind: StepKind::CompileC,
            description: description_view(self.description),
            fields: seq![self.output_path@, self.path@, self.arch@, self.lang@, self.compiler@],
            name: None,
            command: self.command@,
        }
    }
}

impl CompileC {
    /// What reading a header tail as one of this kind yields.
    pub open spec fn result_view(r: Result<CompileC, ParseError>) -> Result<Record, ParseError> {
        match r {
            Ok(step) => Ok(step@),
            Err(e) => Err(e),
        }
    }

    /// Reads `line`, the tail of the header of a block of this kind: what
    /// follows the keyword. The command is left empty: it comes with the
    /// lines of the block.
    pub fn new(line: &str, registry: &Registry) -> (r: Result<CompileC, ParseError>)
        ensures
            CompileC::result_view(r) == header_record(StepKind::CompileC, line@),
            r is Ok <==> tokens(line@).len() > 5,
            r matches Ok(step) ==> {
                &&& step.output_path@ == tokens(line@)[0]
                &&& step.path@ == tokens(line@)[1]
                &&& step.arch@ == tokens(line@)[3]
                &&& step.lang@ == tokens(line@)[4]
                &&& step.compiler@ == tokens(line@)[5]
                &&& description_view(step.description) == line_description(line@)
                &&& step.command@.len() == 0
            },
    {
        proof {
            lemma_first_missing_none(StepKind::CompileC.spec_layout(), tokens(line@).len());
            assert(StepKind::CompileC.spec_layout()[0] == (Field::OutputPath, 0usize));
            assert(StepKind::CompileC.spec_layout()[1] == (Field::Path, 1usize));
            assert(StepKind::CompileC.spec_layout()[2] == (Field::Arch, 3usize));
            assert(StepKind::CompileC.spec_layout()[3] == (Field::Lang, 4usize));
            assert(StepKind::CompileC.spec_layout()[4] == (Field::Compiler, 5usize));
        }
        match Header::read(StepKind::CompileC, line, registry) {
            Ok(header) => {
                let step = CompileC {
                    compiler: header.fields[4].clone(),
                    description: header.description,
                    output_path: header.fields[0].clone(),
                    path: header.fields[1].clone(),
                    arch: header.fields[2].clone(),
                    lang: header.fields[3].clone(),
                    command: String::new(),
                };
                proof {
                    assert(step@.fields =~= header@.fields);
                    assert(header@.fields[0] == tokens(line@)[0]);
                    assert(header@.fields[1] == tokens(line@)[1]);
                    assert(header@.fields[2] == tokens(line@)[3]);
                    assert(header@.fields[3] == tokens(line@)[4]);
                    assert(header@.fields[4] == tokens(line@)[5]);
                }
                Ok(step)
            },
            Err(e) => Err(e),
        }
    }

    /// The step as it is shown: the description, where there is one, then
    /// `Compiling` and the file name of the path between backticks. Nothing
    /// else of the step is shown, and of the path only its final component.
    pub open spec fn display(&self) -> Seq<char> {
        let shown = "Compiling    `"@ + final_component(self.path@).unwrap() + "`"@;
        match self.description {
            Some(description) => description@.display() + " "@ + shown,
            None => shown,
        }
    }

    /// The step as it is shown. The path must have a file name.
    pub fn to_string(&self) -> (r: String)
        requires
            final_component(self.path@) is Some,
        ensures
            r@ == self.display(),
    {
        let mut r = match &self.description {
            Some(description) => {
                let mut shown = description.to_string();
                shown.append(" ");
                shown
            },
            None => String::new(),
        };
        r.append("Compiling    `");
        match file_name(self.path.as_str()) {
            Some(name) => r.append(name.as_str()),
            None => {},
        }
        r.append("`");
        r
    }
}

impl ParsableFromStream for CompileC {
    open spec fn kind() -> StepKind {
        StepKind::CompileC
    }

    fn parse_from_stream(line: String, stream: &mut OutputStream, registry: &Registry) -> (r: Result<
        Vec<Step>,
        ParseError,
    >) {
        parse_kind(StepKind::CompileC, line.as_str(), stream, registry)
    }
}

} // verus!
