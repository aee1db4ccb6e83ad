//! What a header line says: the model that every step kind with fields
//! shares, and the extraction of it from the line.

use vstd::prelude::*;
use vstd::string::*;
use crate::description::{description_view, line_description, Description, DescriptionView};
use crate::error::ParseError;
use crate::registry::Registry;
use crate::step::kind::{Field, StepKind};
use crate::text::{split_whitespace, text_view, tokens, views};

verus! {

/// What a step with fields stands for.
pub struct Record {
    /// Which kind of step it is.
    pub kind: StepKind,
    /// The target and project that the header names, if it names them.
    pub description: Option<DescriptionView>,
    /// The positional fields, in the order of the kind's layout.
    pub fields: Seq<Seq<char>>,
    /// The name that the kind's own pattern recovers from the header, if the
    /// kind has such a pattern and it matches.
    pub name: Option<Seq<char>>,
    /// The joined command of the block.
    pub command: Seq<char>,
}

impl Record {
    /// The record with `command` for its command, where the kind reads a block.
    pub open spec fn with_command(self, command: Seq<char>) -> Record {
        if self.kind.spec_has_block() {
            Record { command, ..self }
        } else {
            self
        }
    }
}

/// The first field of `layout` whose token a line of `count` tokens lacks.
pub open spec fn first_missing(layout: Seq<(Field, usize)>, count: nat) -> Option<Field>
    decreases layout.len(),
{
    if layout.len() == 0 {
        None
    } else if layout[0].1 >= count {
        Some(layout[0].0)
    } else {
        first_missing(layout.drop_first(), count)
    }
}

/// The tokens that `layout` picks from `tokens`, in the order of `layout`.
pub open spec fn positional(layout: Seq<(Field, usize)>, tokens: Seq<Seq<char>>) -> Seq<Seq<char>> {
    Seq::new(layout.len(), |k: int| tokens[layout[k].1 as int])
}

/// The header line of kind `kind` whose tail is `tail`: the keyword, one
/// space, the tail.
pub open spec fn with_keyword(kind: StepKind, tail: Seq<char>) -> Seq<char> {
    kind.spec_keyword()@ + seq![' '] + tail
}

/// The name that the pattern of `kind` recovers from a header with the tail
/// `tail`. The patterns are written for whole header lines, so the keyword is
/// put back in front of the tail before the pattern is matched.
pub open spec fn header_name(kind: StepKind, tail: Seq<char>) -> Option<Seq<char>> {
    match kind.spec_name_source() {
        Some((pattern, group)) => pattern.spec_capture(with_keyword(kind, tail), group@),
        None => None,
    }
}

/// What a header of `kind` with the tail `tail` says: the first missing
/// field, or the record with an empty command. The tail is what follows the
/// keyword; its tokens are the positional fields.
pub open spec fn header_record(kind: StepKind, tail: Seq<char>) -> Result<Record, ParseError> {
    match first_missing(kind.spec_layout(), tokens(tail).len()) {
        Some(field) => Err(ParseError::MissingField { kind, field }),
        None => Ok(
            Record {
                kind,
                description: line_description(tail),
                fields: positional(kind.spec_layout(), tokens(tail)),
                name: header_name(kind, tail),
                command: Seq::empty(),
            },
        ),
    }
}

/// The fields of a header, before they are given their names.
pub struct Header {
    pub kind: StepKind,
    pub description: Option<Description>,
    pub fields: Vec<String>,
    pub name: Option<String>,
}

impl View for Header {
    type V = Record;

    open spec fn view(&self) -> Record {
        Record {
            kind: self.kind,
            description: description_view(self.description),
            fields: views(self.fields@),
            name: text_view(self.name),
            command: Seq::empty(),
        }
    }
}

/// The view of the outcome of reading a header.
pub open spec fn header_view(r: Result<Header, ParseError>) -> Result<Record, ParseError> {
    match r {
        Ok(h) => Ok(h@),
        Err(e) => Err(e),
    }
}

/// A field is missing exactly when one of the first fields is, or one of the
/// others.
pub proof fn lemma_first_missing_skip(layout: Seq<(Field, usize)>, count: nat, k: nat)
    requires
        k <= layout.len(),
        forall|i: int| 0 <= i < k ==> (#[trigger] layout[i]).1 < count,
    ensures
        first_missing(layout, count) == first_missing(layout.skip(k as int), count),
    decreases k,
{
    if k == 0 {
        assert(layout.skip(0) == layout);
    } else {
        let rest = layout.drop_first();
        assert forall|i: int| 0 <= i < k - 1 implies (#[trigger] rest[i]).1 < count by {
            assert(rest[i] == layout[i + 1]);
        }
        lemma_first_missing_skip(rest, count, (k - 1) as nat);
        assert(rest.skip(k - 1) == layout.skip(k as int));
    }
}

/// No field is missing exactly when the line holds the token of every field.
pub proof fn lemma_first_missing_none(layout: Seq<(Field, usize)>, count: nat)
    ensures
        first_missing(layout, count) is None <==> forall|k: int|
            0 <= k < layout.len() ==> (#[trigger] layout[k]).1 < count,
    decreases layout.len(),
{
    if layout.len() == 0 {
    } else if layout[0].1 >= count {
    } else {
        let rest = layout.drop_first();
        lemma_first_missing_none(rest, count);
        if first_missing(rest, count) is None {
            assert forall|k: int| 0 <= k < layout.len() implies (#[trigger] layout[k]).1
                < count by {
                if k > 0 {
                    assert(layout[k] == rest[k - 1]);
                }
            }
        } else {
            let k = choose|k: int| 0 <= k < rest.len() && !((#[trigger] rest[k]).1 < count);
            assert(layout[k + 1] == rest[k]);
        }
    }
}

impl Header {
    /// The line of a header of `kind` with the tail `tail`.
    pub fn with_keyword(kind: StepKind, tail: &str) -> (r: String)
        ensures
            r@ == with_keyword(kind, tail@),
    {
        proof {
            reveal_strlit(" ");
            assert(" "@ =~= seq![' ']);
        }
        let mut line = String::from_str(kind.keyword());
        line.append(" ");
        line.append(tail);
        line
    }

    /// Reads `line`, the tail of a header of `kind`: what follows the keyword.
    pub fn read(kind: StepKind, line: &str, registry: &Registry) -> (r: Result<Header, ParseError>)
        ensures
            header_view(r) == header_record(kind, line@),
            r matches Ok(h) ==> h.fields@.len() == kind.spec_layout().len(),
    {
        let layout = kind.layout();
        let words = split_whitespace(line);
        let mut fields: Vec<String> = Vec::new();
        let mut k: usize = 0;
        while k < layout.len()
            invariant
                k <= layout.len(),
                layout@ == kind.spec_layout(),
                views(words@) == tokens(line@),
                fields@.len() == k,
                forall|i: int| 0 <= i < k ==> (#[trigger] layout@[i]).1 < words@.len(),
                forall|i: int| 0 <= i < k ==> (#[trigger] fields@[i])@ == words@[layout@[i].1 as int]@,
            decreases layout.len() - k,
        {
            let (field, index) = layout[k];
            if index >= words.len() {
                proof {
                    lemma_first_missing_skip(layout@, words@.len(), k as nat);
                    assert(layout@.skip(k as int)[0] == layout@[k as int]);
                }
                return Err(ParseError::MissingField { kind, field });
            }
            fields.push(words[index].clone());
            k += 1;
        }
        proof {
            lemma_first_missing_skip(layout@, words@.len(), k as nat);
            assert(views(fields@) =~= positional(kind.spec_layout(), tokens(line@)));
        }
        let description = Description::from_line(line, registry);
        let name = match kind.name_source() {
            Some((pattern, group)) => {
                let whole = Header::with_keyword(kind, line);
                registry.capture(pattern, whole.as_str(), group)
            },
            None => None,
        };
        Ok(Header { kind, description, fields, name })
    }
}

} // verus!
