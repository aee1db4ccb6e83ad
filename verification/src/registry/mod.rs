//! The pattern registry: named field-extraction matchers, compiled once and
//! shared read-only by every extractor.

pub mod capture;
pub mod examples;
pub mod matcher;
pub mod pattern;
pub mod table;

use vstd::prelude::*;
use crate::registry::capture::CaptureSet;
use crate::registry::matcher::{regex_accepts, Matcher};
use crate::registry::pattern::{captures_view, InvalidPattern, Pattern};
use crate::registry::table::{
    lemma_position_bound, lemma_position_injective, PatternId, PATTERN_COUNT,
};
use crate::text::text_view;

verus! {

/// Every pattern of the table, compiled.
pub struct Registry {
    patterns: Vec<Pattern>,
}

impl Registry {
    #[verifier::type_invariant]
    spec fn well_formed(self) -> bool {
        &&& self.patterns@.len() == PATTERN_COUNT
        &&& forall|i: int|
            0 <= i < self.patterns@.len() ==> (#[trigger] self.patterns@[i]).id().spec_position()
                == i
    }

    /// The patterns that the registry holds, in the order in which it holds
    /// them.
    pub closed spec fn ids(&self) -> Seq<PatternId> {
        Seq::new(self.patterns@.len(), |i: int| self.patterns@[i].id())
    }

    /// The registry holds every pattern of the table once, each at its place.
    pub open spec fn holds_table(&self) -> bool {
        &&& self.ids().len() == PATTERN_COUNT
        &&& forall|i: int| 0 <= i < PATTERN_COUNT ==> (#[trigger] self.ids()[i]).spec_position() == i
    }

    /// The registry around the outcomes of compiling the regular expressions
    /// of the table, one outcome for each pattern, in the order of the table.
    /// Fails with the first pattern that the regex engine refused.
    pub fn from_compiled(compiled: Vec<Result<Matcher, lazy_regex::regex::Error>>) -> (r: Result<
        Registry,
        InvalidPattern,
    >)
        requires
            compiled@.len() == PATTERN_COUNT,
            forall|id: PatternId|
                (#[trigger] compiled@[id.spec_position() as int]) matches Ok(matcher)
                    ==> matcher.source() == id.spec_source(),
        ensures
            match r {
                Ok(registry) => {
                    &&& registry.holds_table()
                    &&& forall|i: int| 0 <= i < PATTERN_COUNT ==> (#[trigger] compiled@[i]) is Ok
                },
                Err(e) => {
                    &&& compiled@[e.pattern.spec_position() as int] is Err
                    &&& forall|i: int|
                        0 <= i < e.pattern.spec_position() ==> (#[trigger] compiled@[i]) is Ok
                },
            },
    {
        let ghost all = compiled@;
        let mut patterns: Vec<Pattern> = Vec::new();
        for outcome in it: compiled
            invariant
                it.seq() == all,
                all.len() == PATTERN_COUNT,
                forall|id: PatternId|
                    (#[trigger] all[id.spec_position() as int]) matches Ok(matcher)
                        ==> matcher.source() == id.spec_source(),
                patterns@.len() == it.index(),
                forall|k: int|
                    0 <= k < patterns@.len() ==> (#[trigger] patterns@[k]).id().spec_position()
                        == k,
                forall|k: int| 0 <= k < it.index() ==> (#[trigger] all[k]) is Ok,
        {
            let id = PatternId::from_position(patterns.len());
            proof {
                assert(outcome == all[id.spec_position() as int]);
            }
            match Pattern::from_compiled(id, outcome) {
                Ok(pattern) => patterns.push(pattern),
                Err(e) => {
                    return Err(e);
                },
            }
        }
        let registry = Registry { patterns };
        proof {
            assert(registry.ids().len() == PATTERN_COUNT);
            assert forall|i: int| 0 <= i < PATTERN_COUNT implies (
            #[trigger] registry.ids()[i]).spec_position() == i by {
                assert(registry.ids()[i] == registry.patterns@[i].id());
            }
        }
        Ok(registry)
    }

    /// Compiles every pattern of the table and builds the registry from the
    /// outcomes. The registry comes back exactly where the regex engine
    /// accepts every regular expression of the table; else the error names
    /// the first pattern, in the order of the table, that it refuses.
    pub fn new() -> (r: Result<Registry, InvalidPattern>)
        ensures
            r is Ok <==> forall|id: PatternId| regex_accepts(#[trigger] id.spec_source()),
            r matches Ok(registry) ==> registry.holds_table(),
            r matches Err(e) ==> {
                &&& !regex_accepts(e.pattern.spec_source())
                &&& forall|other: PatternId|
                    other.spec_position() < e.pattern.spec_position() ==> regex_accepts(
                        #[trigger] other.spec_source(),
                    )
            },
    {
        let mut compiled: Vec<Result<Matcher, lazy_regex::regex::Error>> = Vec::new();
        let mut i: usize = 0;
        while i < PATTERN_COUNT
            invariant
                i <= PATTERN_COUNT,
                compiled@.len() == i,
                forall|id: PatternId|
                    id.spec_position() < i ==> ((#[trigger] compiled@[id.spec_position() as int])
                        matches Ok(matcher) ==> matcher.source() == id.spec_source()),
                forall|id: PatternId|
                    id.spec_position() < i ==> ((#[trigger] compiled@[id.spec_position() as int])
                        is Ok <==> regex_accepts(id.spec_source())),
            decreases PATTERN_COUNT - i,
        {
            let id = PatternId::from_position(i);
            let outcome = Matcher::new(id.definition().source);
            proof {
                assert forall|other: PatternId| other.spec_position() == i implies other == id by {
                    lemma_position_injective(other, id);
                }
            }
            compiled.push(outcome);
            i += 1;
        }
        let ghost all = compiled@;
        proof {
            assert forall|id: PatternId|
                ((#[trigger] all[id.spec_position() as int]) matches Ok(matcher)
                    ==> matcher.source() == id.spec_source()) by {
                lemma_position_bound(id);
            }
            assert forall|id: PatternId|
                ((#[trigger] all[id.spec_position() as int]) is Ok <==> regex_accepts(
                    id.spec_source(),
                )) by {
                lemma_position_bound(id);
            }
        }
        let r = Registry::from_compiled(compiled);
        proof {
            match r {
                Ok(_) => {
                    assert forall|id: PatternId| regex_accepts(#[trigger] id.spec_source()) by {
                        lemma_position_bound(id);
                        assert(all[id.spec_position() as int] is Ok);
                    }
                },
                Err(e) => {
                    lemma_position_bound(e.pattern);
                    assert(all[e.pattern.spec_position() as int] is Err);
                    assert forall|other: PatternId|
                        other.spec_position() < e.pattern.spec_position() implies regex_accepts(
                        #[trigger] other.spec_source(),
                    ) by {
                        assert(all[other.spec_position() as int] is Ok);
                    }
                },
            }
        }
        r
    }

    /// The compiled pattern `id`.
    pub fn pattern(&self, id: PatternId) -> (p: &Pattern)
        ensures
            p.id() == id,
    {
        proof {
            use_type_invariant(self);
        }
        let p = &self.patterns[id.position()];
        proof {
            lemma_position_injective(p.id(), id);
        }
        p
    }

    /// Matches the pattern `id` against `line`.
    pub fn captures(&self, id: PatternId, line: &str) -> (r: Option<CaptureSet>)
        ensures
            captures_view(r) == id.spec_captures(line@),
    {
        self.pattern(id).captures(line)
    }

    /// The text that the group `name` of the pattern `id` captures in `line`.
    pub fn capture(&self, id: PatternId, line: &str, name: &str) -> (r: Option<String>)
        ensures
            text_view(r) == id.spec_capture(line@, name@),
    {
        self.pattern(id).capture(line, name)
    }

    /// The first example of the table that does not hold, as the pattern and
    /// the index of the example among the examples of that pattern, or `None`
    /// where every example of every pattern holds.
    pub fn first_failing_example(&self) -> (r: Option<(PatternId, usize)>)
        ensures
            match r {
                Some((id, i)) => {
                    &&& i < id.spec_examples().len()
                    &&& !id.spec_holds(id.spec_examples()[i as int])
                    &&& forall|j: int| 0 <= j < i ==> id.spec_holds(#[trigger] id.spec_examples()[j])
                    &&& forall|other: PatternId, j: int|
                        other.spec_position() < id.spec_position() && 0 <= j
                            < other.spec_examples().len() ==> other.spec_holds(
                            #[trigger] other.spec_examples()[j],
                        )
                },
                None => forall|id: PatternId, j: int|
                    0 <= j < id.spec_examples().len() ==> id.spec_holds(
                        #[trigger] id.spec_examples()[j],
                    ),
            },
    {
        proof {
            use_type_invariant(self);
        }
        let mut n: usize = 0;
        while n < PATTERN_COUNT
            invariant
                n <= PATTERN_COUNT,
                self.patterns@.len() == PATTERN_COUNT,
                forall|i: int|
                    0 <= i < self.patterns@.len() ==> (#[trigger] self.patterns@[i]).id().spec_position()
                        == i,
                forall|other: PatternId, j: int|
                    other.spec_position() < n && 0 <= j < other.spec_examples().len()
                        ==> other.spec_holds(#[trigger] other.spec_examples()[j]),
            decreases PATTERN_COUNT - n,
        {
            let pattern = &self.patterns[n];
            match pattern.first_failing_example() {
                Some(i) => {
                    return Some((pattern.pattern_id(), i));
                },
                None => {
                    proof {
                        assert forall|other: PatternId, j: int|
                            other.spec_position() < n + 1 && 0 <= j
                                < other.spec_examples().len() implies other.spec_holds(
                            #[trigger] other.spec_examples()[j],
                        ) by {
                            if other.spec_position() == n {
                                lemma_position_injective(other, pattern.id());
                            }
                        }
                    }
                },
            }
            n += 1;
        }
        proof {
            assert forall|id: PatternId, j: int|
                0 <= j < id.spec_examples().len() implies id.spec_holds(
                #[trigger] id.spec_examples()[j],
            ) by {
                lemma_position_bound(id);
            }
        }
        None
    }

    /// The first capture name of the table that no example shows, as the
    /// pattern and the index of the name among the names of that pattern, or
    /// `None` where the examples show every name of every pattern. First is
    /// by the order of the table, then by the order of the pattern's names.
    pub fn first_uncovered_name(&self) -> (r: Option<(PatternId, usize)>)
        ensures
            match r {
                Some((id, k)) => {
                    &&& k < id.spec_names().len()
                    &&& !id.spec_covers(id.spec_names()[k as int])
                    &&& forall|j: int| 0 <= j < k ==> id.spec_covers(#[trigger] id.spec_names()[j])
                    &&& forall|other: PatternId, j: int|
                        other.spec_position() < id.spec_position() && 0 <= j
                            < other.spec_names().len() ==> other.spec_covers(
                            #[trigger] other.spec_names()[j],
                        )
                },
                None => forall|id: PatternId, k: int|
                    0 <= k < id.spec_names().len() ==> id.spec_covers(
                        #[trigger] id.spec_names()[k],
                    ),
            },
    {
        proof {
            use_type_invariant(self);
        }
        let mut n: usize = 0;
        while n < PATTERN_COUNT
            invariant
                n <= PATTERN_COUNT,
                self.patterns@.len() == PATTERN_COUNT,
                forall|i: int|
                    0 <= i < self.patterns@.len() ==> (#[trigger] self.patterns@[i]).id().spec_position()
                        == i,
                forall|other: PatternId, k: int|
                    other.spec_position() < n && 0 <= k < other.spec_names().len()
                        ==> other.spec_covers(#[trigger] other.spec_names()[k]),
            decreases PATTERN_COUNT - n,
        {
            let pattern = &self.patterns[n];
            match pattern.first_uncovered_name() {
                Some(k) => {
                    return Some((pattern.pattern_id(), k));
                },
                None => {
                    proof {
                        assert forall|other: PatternId, k: int|
                            other.spec_position() < n + 1 && 0 <= k
                                < other.spec_names().len() implies other.spec_covers(
                            #[trigger] other.spec_names()[k],
                        ) by {
                            if other.spec_position() == n {
                                lemma_position_injective(other, pattern.id());
                            }
                        }
                    }
                },
            }
            n += 1;
        }
        proof {
            assert forall|id: PatternId, k: int|
                0 <= k < id.spec_names().len() implies id.spec_covers(
                #[trigger] id.spec_names()[k],
            ) by {
                lemma_position_bound(id);
            }
        }
        None
    }

    /// Whether the pattern `id` matches somewhere in `line`.
    pub fn is_match(&self, id: PatternId, line: &str) -> (r: bool)
        ensures
            r == id.spec_is_match(line@),
    {
        self.pattern(id).is_match(line)
    }
}

} // verus!
