//! The target and project that a block names.

use vstd::prelude::*;
use vstd::string::*;
use crate::registry::capture::CaptureSet;
use crate::registry::table::PatternId;
use crate::registry::Registry;

verus! {

/// The project and target that a step belongs to, as its header names them.
#[derive(Debug)]
pub struct Description {
    pub project: String,
    pub target: String,
}

/// What a `Description` stands for.
pub struct DescriptionView {
    pub project: Seq<char>,
    pub target: Seq<char>,
}

impl View for Description {
    type V = DescriptionView;

    open spec fn view(&self) -> DescriptionView {
        DescriptionView { project: self.project@, target: self.target@ }
    }
}

/// The view of a description that may be absent.
pub open spec fn description_view(description: Option<Description>) -> Option<DescriptionView> {
    match description {
        Some(d) => Some(d@),
        None => None,
    }
}

impl DescriptionView {
    /// Both names are present.
    pub open spec fn well_formed(self) -> bool {
        self.project.len() > 0 && self.target.len() > 0
    }

    /// The description as it is shown: `[project.target]`.
    pub open spec fn display(self) -> Seq<char> {
        seq!['['] + self.project + seq!['.'] + self.target + seq![']']
    }
}

/// The description that a capture set holds: its `project` and `target`, where
/// both are there and neither is empty.
pub open spec fn description_of(captures: Option<Map<Seq<char>, Seq<char>>>) -> Option<
    DescriptionView,
> {
    match captures {
        Some(map) => if map.contains_key("project"@) && map.contains_key("target"@)
            && map["project"@].len() > 0 && map["target"@].len() > 0 {
            Some(DescriptionView { project: map["project"@], target: map["target"@] })
        } else {
            None
        },
        None => None,
    }
}

/// The description that the header `line` names.
pub open spec fn line_description(line: Seq<char>) -> Option<DescriptionView> {
    description_of(PatternId::TargetProject.spec_captures(line))
}

impl Description {
    /// The description that `captures` holds, if it holds one.
    pub fn from_captures(captures: &CaptureSet) -> (r: Option<Description>)
        ensures
            description_view(r) == description_of(Some(captures@)),
            r matches Some(d) ==> d@.well_formed(),
    {
        match captures.get("project") {
            Some(project) => match captures.get("target") {
                Some(target) => {
                    if project.as_str().unicode_len() > 0 && target.as_str().unicode_len() > 0 {
                        Some(Description { project, target })
                    } else {
                        None
                    }
                },
                None => None,
            },
            None => None,
        }
    }

    /// The description that the header `line` names, if it names one.
    pub fn from_line(line: &str, registry: &Registry) -> (r: Option<Description>)
        ensures
            description_view(r) == line_description(line@),
            r matches Some(d) ==> d@.well_formed(),
    {
        match registry.captures(PatternId::TargetProject, line) {
            Some(captures) => Description::from_captures(&captures),
            None => None,
        }
    }

    /// The description as it is shown: `[project.target]`.
    pub fn to_string(&self) -> (r: String)
        ensures
            r@ == self@.display(),
    {
        proof {
            reveal_strlit("[");
            reveal_strlit(".");
            reveal_strlit("]");
            assert("["@ =~= seq!['[']);
            assert("."@ =~= seq!['.']);
            assert("]"@ =~= seq![']']);
        }
        let mut r = String::from_str("[");
        r.append(self.project.as_str());
        r.append(".");
        r.append(self.target.as_str());
        r.append("]");
        r
    }
}

} // verus!
