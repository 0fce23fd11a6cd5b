//! The closed set of semantic roles, their order, their names and the fallback
//! graph that says which role stands in for a role that a theme leaves out.

use vstd::prelude::*;
use crate::text::{owned, same_text};

verus! {

/// How many roles there are.
pub const MEANING_COUNT: usize = 8;

/// A semantic role of a piece of text, independent of any colour.
#[derive(Clone, Copy, Debug, PartialEq, Eq, Hash, Structural)]
pub enum Meaning {
    AlertInfo,
    AlertWarn,
    AlertError,
    Annotation,
    Base,
    Guidance,
    Important,
    Title,
}

/// The severity of an alert.
#[derive(Clone, Copy, Debug, PartialEq, Eq, Hash, Structural)]
pub enum Level {
    Info,
    Warn,
    Error,
}

impl Level {
    /// The alert role that a severity projects onto.
    pub open spec fn spec_meaning(self) -> Meaning {
        match self {
            Level::Info => Meaning::AlertInfo,
            Level::Warn => Meaning::AlertWarn,
            Level::Error => Meaning::AlertError,
        }
    }

    /// The alert role that a severity projects onto.
    #[verifier::when_used_as_spec(spec_meaning)]
    pub fn meaning(self) -> (role: Meaning)
        ensures
            role == self.spec_meaning(),
    {
        match self {
            Level::Info => Meaning::AlertInfo,
            Level::Warn => Meaning::AlertWarn,
            Level::Error => Meaning::AlertError,
        }
    }
}

impl Meaning {
    /// The position of a role in the declared order, from 0.
    pub open spec fn spec_index(self) -> int {
        match self {
            Meaning::AlertInfo => 0,
            Meaning::AlertWarn => 1,
            Meaning::AlertError => 2,
            Meaning::Annotation => 3,
            Meaning::Base => 4,
            Meaning::Guidance => 5,
            Meaning::Important => 6,
            Meaning::Title => 7,
        }
    }

    /// The role at a position; `Title` for every position past the last.
    pub open spec fn spec_from_index(position: int) -> Meaning {
        if position == 0 {
            Meaning::AlertInfo
        } else if position == 1 {
            Meaning::AlertWarn
        } else if position == 2 {
            Meaning::AlertError
        } else if position == 3 {
            Meaning::Annotation
        } else if position == 4 {
            Meaning::Base
        } else if position == 5 {
            Meaning::Guidance
        } else if position == 6 {
            Meaning::Important
        } else {
            Meaning::Title
        }
    }

    /// The position of a role in the declared order, from 0.
    pub fn index(self) -> (position: usize)
        ensures
            position == self.spec_index(),
            position < MEANING_COUNT,
    {
        match self {
            Meaning::AlertInfo => 0,
            Meaning::AlertWarn => 1,
            Meaning::AlertError => 2,
            Meaning::Annotation => 3,
            Meaning::Base => 4,
            Meaning::Guidance => 5,
            Meaning::Important => 6,
            Meaning::Title => 7,
        }
    }

    /// The role at a position.
    pub fn from_index(position: usize) -> (role: Meaning)
        requires
            position < MEANING_COUNT,
        ensures
            role == Meaning::spec_from_index(position as int),
            role.spec_index() == position,
    {
        if position == 0 {
            Meaning::AlertInfo
        } else if position == 1 {
            Meaning::AlertWarn
        } else if position == 2 {
            Meaning::AlertError
        } else if position == 3 {
            Meaning::Annotation
        } else if position == 4 {
            Meaning::Base
        } else if position == 5 {
            Meaning::Guidance
        } else if position == 6 {
            Meaning::Important
        } else {
            Meaning::Title
        }
    }

    /// The edge of the fallback graph that leaves a role, if there is one.
    pub open spec fn spec_fallback(self) -> Option<Meaning> {
        match self {
            Meaning::Guidance => Some(Meaning::AlertInfo),
            Meaning::Annotation => Some(Meaning::AlertInfo),
            Meaning::Title => Some(Meaning::Important),
            _ => None,
        }
    }

    /// The edge of the fallback graph that leaves a role, if there is one.
    #[verifier::when_used_as_spec(spec_fallback)]
    pub fn fallback(self) -> (next: Option<Meaning>)
        ensures
            next == self.spec_fallback(),
    {
        match self {
            Meaning::Guidance => Some(Meaning::AlertInfo),
            Meaning::Annotation => Some(Meaning::AlertInfo),
            Meaning::Title => Some(Meaning::Important),
            _ => None,
        }
    }

    /// The number of edges on the fallback path that starts at a role.
    pub open spec fn fallback_depth(self) -> nat {
        match self {
            Meaning::Guidance => 1,
            Meaning::Annotation => 1,
            Meaning::Title => 1,
            _ => 0,
        }
    }

    /// The name of a role as it is written in a theme file.
    pub open spec fn spec_name(self) -> Seq<char> {
        match self {
            Meaning::AlertInfo => "alertInfo"@,
            Meaning::AlertWarn => "alertWarn"@,
            Meaning::AlertError => "alertError"@,
            Meaning::Annotation => "annotation"@,
            Meaning::Base => "base"@,
            Meaning::Guidance => "guidance"@,
            Meaning::Important => "important"@,
            Meaning::Title => "title"@,
        }
    }

    /// The role that a name in a theme file stands for, if it names one.
    pub open spec fn spec_from_name(name: Seq<char>) -> Option<Meaning> {
        if name == "alertInfo"@ {
            Some(Meaning::AlertInfo)
        } else if name == "alertWarn"@ {
            Some(Meaning::AlertWarn)
        } else if name == "alertError"@ {
            Some(Meaning::AlertError)
        } else if name == "annotation"@ {
            Some(Meaning::Annotation)
        } else if name == "base"@ {
            Some(Meaning::Base)
        } else if name == "guidance"@ {
            Some(Meaning::Guidance)
        } else if name == "important"@ {
            Some(Meaning::Important)
        } else if name == "title"@ {
            Some(Meaning::Title)
        } else {
            None
        }
    }

    /// The name of a role as it is written in a theme file.
    pub fn name(self) -> (text: String)
        ensures
            text@ == self.spec_name(),
    {
        match self {
            Meaning::AlertInfo => owned("alertInfo"),
            Meaning::AlertWarn => owned("alertWarn"),
            Meaning::AlertError => owned("alertError"),
            Meaning::Annotation => owned("annotation"),
            Meaning::Base => owned("base"),
            Meaning::Guidance => owned("guidance"),
            Meaning::Important => owned("important"),
            Meaning::Title => owned("title"),
        }
    }

    /// The role that a name in a theme file stands for, if it names one.
    pub fn from_name(name: &str) -> (role: Option<Meaning>)
        ensures
            role == Meaning::spec_from_name(name@),
    {
        if same_text(name, "alertInfo") {
            Some(Meaning::AlertInfo)
        } else if same_text(name, "alertWarn") {
            Some(Meaning::AlertWarn)
        } else if same_text(name, "alertError") {
            Some(Meaning::AlertError)
        } else if same_text(name, "annotation") {
            Some(Meaning::Annotation)
        } else if same_text(name, "base") {
            Some(Meaning::Base)
        } else if same_text(name, "guidance") {
            Some(Meaning::Guidance)
        } else if same_text(name, "important") {
            Some(Meaning::Important)
        } else if same_text(name, "title") {
            Some(Meaning::Title)
        } else {
            None
        }
    }
}

/// Positions and roles correspond one to one.
pub proof fn index_round_trip(role: Meaning)
    ensures
        0 <= role.spec_index() < MEANING_COUNT,
        Meaning::spec_from_index(role.spec_index()) == role,
{
}

/// Every edge of the fallback graph leads to a role of smaller depth, so the
/// graph has no cycle and every path in it ends.
pub proof fn fallback_descends(role: Meaning)
    ensures
        role.spec_fallback() matches Some(next) ==> next.fallback_depth() < role.fallback_depth(),
        role.fallback_depth() < MEANING_COUNT,
{
}

/// Reading back the name of a role gives that role.
pub proof fn name_round_trip(role: Meaning)
    ensures
        Meaning::spec_from_name(role.spec_name()) == Some(role),
{
    reveal_strlit("alertInfo");
    reveal_strlit("alertWarn");
    reveal_strlit("alertError");
    reveal_strlit("annotation");
    reveal_strlit("base");
    reveal_strlit("guidance");
    reveal_strlit("important");
    reveal_strlit("title");
    assert("alertInfo"@.len() == 9 && "alertInfo"@[5] == 'I');
    assert("alertWarn"@.len() == 9 && "alertWarn"@[5] == 'W');
    assert("important"@.len() == 9 && "important"@[5] == 't');
    assert("alertError"@.len() == 10 && "alertError"@[1] == 'l');
    assert("annotation"@.len() == 10 && "annotation"@[1] == 'n');
    assert("base"@.len() == 4);
    assert("guidance"@.len() == 8);
    assert("title"@.len() == 5);
}

} // verus!
