//! The boundary to the regex engine. The two functions that call the engine
//! are not proved: their contracts restate what the engine's documentation
//! says of the call. `Matcher` keeps the engine's type to itself.

use vstd::prelude::*;
use lazy_regex::Regex;
use crate::text::views;

verus! {

/// `regex::Regex`, as `lazy_regex` hands it on: a compiled matcher. Nothing
/// inside it is visible here.
#[verifier::external_type_specification]
#[verifier::external_body]
pub struct ExRegex(Regex);

/// `regex::Error`: why the engine refused a regular expression. It is only
/// carried from the engine to the place where it is turned into an error of
/// this library.
#[verifier::external_type_specification]
#[verifier::external_body]
pub struct ExRegexError(lazy_regex::regex::Error);

/// The pattern text that a compiled matcher was built from, as
/// `Regex::as_str` reports it.
pub uninterp spec fn regex_source(re: Regex) -> Seq<char>;

/// Whether the regex engine accepts the regular expression `source`: whether
/// `Regex::new` returns a matcher for it. The engine decides by the text
/// alone: by its syntax and by the size of the program that it compiles to.
pub uninterp spec fn regex_accepts(source: Seq<char>) -> bool;

/// What a search for `pattern` in `haystack` captures under each of `names`:
/// `None` where the pattern matches nowhere; otherwise, for the leftmost match,
/// one entry per name, in the order of `names`, holding the text of the group
/// of that name, or `None` where the pattern has no such group or the group
/// took no part in the match.
pub uninterp spec fn regex_captures(
    pattern: Seq<char>,
    haystack: Seq<char>,
    names: Seq<Seq<char>>,
) -> Option<Seq<Option<Seq<char>>>>;

/// The views of the groups that a search handed out.
pub open spec fn groups_view(groups: Option<Vec<Option<String>>>) -> Option<Seq<Option<Seq<char>>>> {
    match groups {
        None => None,
        Some(g) => Some(
            Seq::new(
                g@.len(),
                |i: int|
                    match g@[i] {
                        None => None,
                        Some(s) => Some(s@),
                    },
            ),
        ),
    }
}

/// A matcher that the regex engine compiled from a regular expression with
/// its default options. Only `Matcher::new` makes one, so the text of a
/// matcher says all about what it matches.
pub struct Matcher {
    regex: Regex,
}

impl Matcher {
    /// The regular expression that the matcher was compiled from.
    pub closed spec fn source(&self) -> Seq<char> {
        regex_source(self.regex)
    }

    /// Compiles the regular expression `source`.
    pub fn new(source: &str) -> (r: Result<Matcher, lazy_regex::regex::Error>)
        ensures
            r is Ok <==> regex_accepts(source@),
            r matches Ok(matcher) ==> matcher.source() == source@,
    {
        match compile(source) {
            Ok(regex) => Ok(Matcher { regex }),
            Err(e) => Err(e),
        }
    }

    /// What a search for the matcher's regular expression in `haystack`
    /// captures under each of `names`.
    pub fn groups(&self, haystack: &str, names: &Vec<String>) -> (r: Option<Vec<Option<String>>>)
        ensures
            groups_view(r) == regex_captures(self.source(), haystack@, views(names@)),
            r matches Some(groups) ==> groups@.len() == names@.len(),
    {
        capture_groups(&self.regex, haystack, names)
    }
}

/// `Regex::new`: compiles `source` with the engine's default options. A
/// matcher comes back exactly where the engine accepts the text, and it then
/// reports `source` as the text it was compiled from.
#[verifier::external_body]
fn compile(source: &str) -> (r: Result<Regex, lazy_regex::regex::Error>)
    ensures
        r is Ok <==> regex_accepts(source@),
        r matches Ok(re) ==> regex_source(re) == source@,
{
    Regex::new(source)
}

/// `Regex::captures` followed by `Captures::name` for each of `names`: the
/// named groups of the leftmost match of the matcher's pattern in `haystack`,
/// one entry per name. This holds of a matcher that `Regex::new` made, as
/// every matcher here is.
#[verifier::external_body]
fn capture_groups(re: &Regex, haystack: &str, names: &Vec<String>) -> (r: Option<
    Vec<Option<String>>,
>)
    ensures
        groups_view(r) == regex_captures(regex_source(*re), haystack@, views(names@)),
        r matches Some(groups) ==> groups@.len() == names@.len(),
{
    let caps = re.captures(haystack)?;
    let mut groups = Vec::with_capacity(names.len());
    for name in names {
        groups.push(caps.name(name).map(|m| m.as_str().to_string()));
    }
    Some(groups)
}

} // verus!
