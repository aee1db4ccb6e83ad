//! A compiled pattern and what a match of it yields.

use vstd::prelude::*;
use crate::registry::capture::{pairs_map, present_pairs, CaptureSet};
use crate::registry::examples::Example;
use crate::registry::matcher::{regex_accepts, regex_captures, Matcher};
use crate::registry::table::PatternId;
use crate::text::{split_whitespace, str_eq, views};

verus! {

/// The regex engine refused the regular expression of a pattern.
#[derive(Clone, Copy, Debug, PartialEq, Eq, Structural)]
pub struct InvalidPattern {
    pub pattern: PatternId,
}

/// The view of a capture set that may be absent.
pub open spec fn captures_view(captures: Option<CaptureSet>) -> Option<Map<Seq<char>, Seq<char>>> {
    match captures {
        Some(set) => Some(set@),
        None => None,
    }
}

impl PatternId {
    /// What a match of the pattern against `line` captures: nothing where the
    /// pattern matches nowhere in `line`, else the mapping from each group name
    /// that took part in the leftmost match to the text it matched.
    pub open spec fn spec_captures(self, line: Seq<char>) -> Option<Map<Seq<char>, Seq<char>>> {
        match regex_captures(self.spec_source(), line, self.spec_names()) {
            None => None,
            Some(groups) => Some(
                pairs_map(present_pairs(self.spec_names(), groups, self.spec_names().len())),
            ),
        }
    }

    /// Whether the pattern matches somewhere in `line`.
    pub open spec fn spec_is_match(self, line: Seq<char>) -> bool {
        self.spec_captures(line) is Some
    }

    /// The text that the group `name` captures when the pattern is matched
    /// against `line`, if the pattern matches and the group takes part.
    pub open spec fn spec_capture(self, line: Seq<char>, name: Seq<char>) -> Option<Seq<char>> {
        match self.spec_captures(line) {
            Some(map) => if map.contains_key(name) {
                Some(map[name])
            } else {
                None
            },
            None => None,
        }
    }
}

impl PatternId {
    /// Whether `example` holds of the pattern: matched against the line of the
    /// example, the group that it names captures the text that it gives.
    pub open spec fn spec_holds(self, example: Example) -> bool {
        self.spec_capture(example.line@, example.name@) == Some(example.value@)
    }

    /// Whether an example of the pattern shows the group `name` taking part in
    /// a match.
    pub open spec fn spec_covers(self, name: Seq<char>) -> bool {
        exists|i: int|
            0 <= i < self.spec_examples().len() && (#[trigger] self.spec_examples()[i]).name@
                == name
    }
}

/// A pattern of the registry together with its compiled matcher.
pub struct Pattern {
    id: PatternId,
    names: Vec<String>,
    matcher: Matcher,
}

impl Pattern {
    #[verifier::type_invariant]
    spec fn well_formed(self) -> bool {
        &&& self.matcher.source() == self.id.spec_source()
        &&& views(self.names@) == self.id.spec_names()
    }

    /// Which pattern of the table this is.
    pub closed spec fn id(&self) -> PatternId {
        self.id
    }

    /// Which pattern of the table this is.
    pub fn pattern_id(&self) -> (id: PatternId)
        ensures
            id == self.id(),
    {
        self.id
    }

    /// The pattern `id` around the outcome of compiling its regular expression.
    pub fn from_compiled(id: PatternId, compiled: Result<Matcher, lazy_regex::regex::Error>) -> (r:
        Result<Pattern, InvalidPattern>)
        requires
            compiled matches Ok(matcher) ==> matcher.source() == id.spec_source(),
        ensures
            match r {
                Ok(p) => compiled is Ok && p.id() == id,
                Err(e) => compiled is Err && e.pattern == id,
            },
    {
        match compiled {
            Ok(matcher) => {
                let names = split_whitespace(id.definition().names);
                Ok(Pattern { id, names, matcher })
            },
            Err(_) => Err(InvalidPattern { pattern: id }),
        }
    }

    /// Compiles the pattern `id` of the table. The pattern comes back exactly
    /// where the regex engine accepts its regular expression.
    pub fn new(id: PatternId) -> (r: Result<Pattern, InvalidPattern>)
        ensures
            r is Ok <==> regex_accepts(id.spec_source()),
            match r {
                Ok(p) => p.id() == id,
                Err(e) => e.pattern == id,
            },
    {
        Pattern::from_compiled(id, Matcher::new(id.definition().source))
    }

    /// The name that the pattern goes by.
    pub fn identifier(&self) -> (r: &'static str)
        ensures
            r == self.id().spec_definition().identifier,
    {
        self.id.definition().identifier
    }

    /// What the pattern is for, in a few words.
    pub fn description(&self) -> (r: &'static str)
        ensures
            r == self.id().spec_definition().description,
    {
        self.id.definition().description
    }

    /// The pattern's regular expression.
    pub fn source(&self) -> (r: &'static str)
        ensures
            r@ == self.id().spec_source(),
    {
        self.id.definition().source
    }

    /// The names of the pattern's capture groups.
    pub fn capture_names(&self) -> (r: Vec<String>)
        ensures
            views(r@) == self.id().spec_names(),
    {
        split_whitespace(self.id.definition().names)
    }

    /// Matches the pattern against `line`.
    pub fn captures(&self, line: &str) -> (r: Option<CaptureSet>)
        ensures
            captures_view(r) == self.id().spec_captures(line@),
    {
        proof {
            use_type_invariant(self);
        }
        match self.matcher.groups(line, &self.names) {
            None => None,
            Some(groups) => Some(CaptureSet::from_groups(&self.names, groups)),
        }
    }

    /// Whether the pattern matches somewhere in `line`.
    pub fn is_match(&self, line: &str) -> (r: bool)
        ensures
            r == self.id().spec_is_match(line@),
    {
        self.captures(line).is_some()
    }

    /// The text that the group `name` captures in `line`.
    pub fn capture(&self, line: &str, name: &str) -> (r: Option<String>)
        ensures
            crate::text::text_view(r) == self.id().spec_capture(line@, name@),
    {
        match self.captures(line) {
            Some(set) => set.get(name),
            None => None,
        }
    }

    /// Whether `example` holds of the pattern.
    pub fn holds(&self, example: &Example) -> (b: bool)
        ensures
            b == self.id().spec_holds(*example),
    {
        match self.capture(example.line, example.name) {
            Some(text) => str_eq(text.as_str(), example.value),
            None => false,
        }
    }

    /// The index of the first example of the pattern that does not hold, or
    /// `None` where all of them hold.
    pub fn first_failing_example(&self) -> (r: Option<usize>)
        ensures
            match r {
                Some(i) => {
                    &&& i < self.id().spec_examples().len()
                    &&& !self.id().spec_holds(self.id().spec_examples()[i as int])
                    &&& forall|j: int|
                        0 <= j < i ==> self.id().spec_holds(#[trigger] self.id().spec_examples()[j])
                },
                None => forall|j: int|
                    0 <= j < self.id().spec_examples().len() ==> self.id().spec_holds(
                        #[trigger] self.id().spec_examples()[j],
                    ),
            },
    {
        let examples = self.id.examples();
        let mut i: usize = 0;
        while i < examples.len()
            invariant
                i <= examples.len(),
                examples@ == self.id().spec_examples(),
                forall|j: int|
                    0 <= j < i ==> self.id().spec_holds(#[trigger] self.id().spec_examples()[j]),
            decreases examples.len() - i,
        {
            if !self.holds(&examples[i]) {
                return Some(i);
            }
            i += 1;
        }
        None
    }

    /// Whether one of `examples` names the group `name`.
    fn names_group(examples: &Vec<Example>, name: &str) -> (b: bool)
        ensures
            b == exists|i: int| 0 <= i < examples@.len() && (#[trigger] examples@[i]).name@ == name@,
    {
        let mut i: usize = 0;
        while i < examples.len()
            invariant
                i <= examples.len(),
                forall|j: int| 0 <= j < i ==> (#[trigger] examples@[j]).name@ != name@,
            decreases examples.len() - i,
        {
            if str_eq(examples[i].name, name) {
                return true;
            }
            i += 1;
        }
        false
    }

    /// The index of the first capture name of the pattern that no example
    /// shows, or `None` where the examples show every name.
    pub fn first_uncovered_name(&self) -> (r: Option<usize>)
        ensures
            match r {
                Some(k) => {
                    &&& k < self.id().spec_names().len()
                    &&& !self.id().spec_covers(self.id().spec_names()[k as int])
                    &&& forall|j: int|
                        0 <= j < k ==> self.id().spec_covers(#[trigger] self.id().spec_names()[j])
                },
                None => forall|j: int|
                    0 <= j < self.id().spec_names().len() ==> self.id().spec_covers(
                        #[trigger] self.id().spec_names()[j],
                    ),
            },
    {
        proof {
            use_type_invariant(self);
        }
        let examples = self.id.examples();
        let mut k: usize = 0;
        while k < self.names.len()
            invariant
                k <= self.names.len(),
                examples@ == self.id().spec_examples(),
                views(self.names@) == self.id().spec_names(),
                forall|j: int|
                    0 <= j < k ==> self.id().spec_covers(#[trigger] self.id().spec_names()[j]),
            decreases self.names.len() - k,
        {
            let found = Pattern::names_group(&examples, self.names[k].as_str());
            proof {
                assert(views(self.names@)[k as int] == self.names@[k as int]@);
            }
            if !found {
                return Some(k);
            }
            k += 1;
        }
        None
    }
}

} // verus!
