//! Capture sets: what one match of a pattern extracted from a line.

use vstd::prelude::*;
use crate::text::str_eq;

verus! {

/// The value that the first pair named `name` holds, if any pair has that name.
pub open spec fn lookup(pairs: Seq<(Seq<char>, Seq<char>)>, name: Seq<char>) -> Option<Seq<char>>
    decreases pairs.len(),
{
    if pairs.len() == 0 {
        None
    } else if pairs[0].0 == name {
        Some(pairs[0].1)
    } else {
        lookup(pairs.drop_first(), name)
    }
}

/// The mapping that a list of (name, value) pairs stands for.
pub open spec fn pairs_map(pairs: Seq<(Seq<char>, Seq<char>)>) -> Map<Seq<char>, Seq<char>> {
    Map::new(
        |name: Seq<char>| lookup(pairs, name) is Some,
        |name: Seq<char>| lookup(pairs, name).unwrap(),
    )
}

/// The (name, value) pairs of the first `n` names whose group took part in the
/// match, in the order of the names.
pub open spec fn present_pairs(
    names: Seq<Seq<char>>,
    groups: Seq<Option<Seq<char>>>,
    n: nat,
) -> Seq<(Seq<char>, Seq<char>)>
    decreases n,
{
    if n == 0 {
        Seq::empty()
    } else {
        let before = present_pairs(names, groups, (n - 1) as nat);
        match groups[n - 1] {
            Some(text) => before.push((names[n - 1], text)),
            None => before,
        }
    }
}

/// A mapping from group name to matched text. A group that took no part in the
/// match has no entry.
pub struct CaptureSet {
    entries: Vec<(String, String)>,
}

impl CaptureSet {
    /// The (name, value) pairs of the set, in the order of the pattern's names.
    pub closed spec fn pairs(&self) -> Seq<(Seq<char>, Seq<char>)> {
        Seq::new(self.entries@.len(), |i: int| (self.entries@[i].0@, self.entries@[i].1@))
    }
}

impl View for CaptureSet {
    type V = Map<Seq<char>, Seq<char>>;

    open spec fn view(&self) -> Map<Seq<char>, Seq<char>> {
        pairs_map(self.pairs())
    }
}

/// Pairs of another name in front of a list do not change what the list
/// holds under `name`.
pub proof fn lemma_lookup_skip(pairs: Seq<(Seq<char>, Seq<char>)>, name: Seq<char>, i: nat)
    requires
        i <= pairs.len(),
        forall|k: int| 0 <= k < i ==> (#[trigger] pairs[k]).0 != name,
    ensures
        lookup(pairs, name) == lookup(pairs.skip(i as int), name),
    decreases i,
{
    if i == 0 {
        assert(pairs.skip(0) == pairs);
    } else {
        let rest = pairs.drop_first();
        assert forall|k: int| 0 <= k < i - 1 implies (#[trigger] rest[k]).0 != name by {
            assert(rest[k] == pairs[k + 1]);
        }
        lemma_lookup_skip(rest, name, (i - 1) as nat);
        assert(rest.skip(i - 1) == pairs.skip(i as int));
    }
}

impl CaptureSet {
    /// The capture set that holds, for each name whose group took part in the
    /// match, the text of that group.
    pub fn from_groups(names: &Vec<String>, groups: Vec<Option<String>>) -> (r: CaptureSet)
        requires
            groups@.len() == names@.len(),
        ensures
            r.pairs() == present_pairs(
                crate::text::views(names@),
                crate::registry::matcher::groups_view(Some(groups)).unwrap(),
                names@.len(),
            ),
    {
        let ghost all_names = crate::text::views(names@);
        let ghost all_groups = crate::registry::matcher::groups_view(Some(groups)).unwrap();
        let mut entries: Vec<(String, String)> = Vec::new();
        let mut i: usize = 0;
        while i < names.len()
            invariant
                i <= names.len(),
                groups@.len() == names@.len(),
                all_names == crate::text::views(names@),
                all_groups == crate::registry::matcher::groups_view(Some(groups)).unwrap(),
                Seq::new(entries@.len(), |k: int| (entries@[k].0@, entries@[k].1@))
                    == present_pairs(all_names, all_groups, i as nat),
            decreases names.len() - i,
        {
            let ghost before = Seq::new(entries@.len(), |k: int| (entries@[k].0@, entries@[k].1@));
            match &groups[i] {
                Some(text) => {
                    let entry = (names[i].clone(), text.clone());
                    entries.push(entry);
                    proof {
                        assert(all_groups[i as int] == Some(text@));
                        assert(Seq::new(entries@.len(), |k: int| (entries@[k].0@, entries@[k].1@))
                            =~= before.push((names@[i as int]@, text@)));
                    }
                },
                None => {
                    proof {
                        assert(all_groups[i as int] is None);
                    }
                },
            }
            i += 1;
        }
        CaptureSet { entries }
    }

    /// The text that the group `name` matched, if it took part in the match.
    pub fn get(&self, name: &str) -> (r: Option<String>)
        ensures
            match r {
                Some(text) => self@.contains_key(name@) && self@[name@] == text@,
                None => !self@.contains_key(name@),
            },
    {
        let mut i: usize = 0;
        while i < self.entries.len()
            invariant
                i <= self.entries.len(),
                forall|k: int| 0 <= k < i ==> (#[trigger] self.pairs()[k]).0 != name@,
            decreases self.entries.len() - i,
        {
            if str_eq(self.entries[i].0.as_str(), name) {
                proof {
                    lemma_lookup_skip(self.pairs(), name@, i as nat);
                    assert(self.pairs().skip(i as int)[0] == self.pairs()[i as int]);
                }
                return Some(self.entries[i].1.clone());
            }
            i += 1;
        }
        proof {
            lemma_lookup_skip(self.pairs(), name@, i as nat);
        }
        None
    }

    /// How many groups took part in the match.
    pub fn len(&self) -> (n: usize)
        ensures
            n == self.pairs().len(),
    {
        self.entries.len()
    }
}

} // verus!
