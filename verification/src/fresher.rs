//! The fresher category attached to a member.

use crate::text::{lowercase, lowercase_of, same_text};
use vstd::prelude::*;

verus! {

/// Whether a member is new this year, and at which level of study.
#[derive(Clone, Copy, Debug, PartialEq, Eq, Structural)]
pub enum Fresher {
    No,
    YesPg,
    YesUg,
}

/// The category that a stored word stands for, once in lower case: `yes_pg`,
/// `yes_ug`, and `No` for anything else.
pub open spec fn spec_from_lowered(lowered: Seq<char>) -> Fresher {
    if lowered == "yes_pg"@ {
        Fresher::YesPg
    } else if lowered == "yes_ug"@ {
        Fresher::YesUg
    } else {
        Fresher::No
    }
}

impl Fresher {
    /// The category as it is shown to a reader.
    pub open spec fn spec_label(self) -> Seq<char> {
        match self {
            Fresher::No => "No"@,
            Fresher::YesPg => "Yes, Postgraduate"@,
            Fresher::YesUg => "Yes, Undergraduate"@,
        }
    }

    /// The category as it is shown to a reader.
    pub fn label(self) -> (text: &'static str)
        ensures
            text@ == self.spec_label(),
    {
        match self {
            Fresher::No => "No",
            Fresher::YesPg => "Yes, Postgraduate",
            Fresher::YesUg => "Yes, Undergraduate",
        }
    }

    /// The word under which the category is stored.
    pub open spec fn spec_stored(self) -> Seq<char> {
        match self {
            Fresher::No => "no"@,
            Fresher::YesPg => "yes_pg"@,
            Fresher::YesUg => "yes_ug"@,
        }
    }

    /// The word under which the category is stored.
    pub fn stored(self) -> (word: &'static str)
        ensures
            word@ == self.spec_stored(),
    {
        match self {
            Fresher::No => "no",
            Fresher::YesPg => "yes_pg",
            Fresher::YesUg => "yes_ug",
        }
    }

    /// The category that a stored word in lower case stands for.
    pub fn from_lowered(lowered: &str) -> (fresher: Fresher)
        ensures
            fresher == spec_from_lowered(lowered@),
    {
        if same_text(lowered, "yes_pg") {
            Fresher::YesPg
        } else if same_text(lowered, "yes_ug") {
            Fresher::YesUg
        } else {
            Fresher::No
        }
    }

    /// The category that a stored word stands for, whatever its case.
    pub fn from_text(value: &str) -> (fresher: Fresher)
        ensures
            fresher == spec_from_lowered(lowercase_of(value@)),
    {
        let lowered = lowercase(value);
        Fresher::from_lowered(lowered.as_str())
    }
}

impl From<String> for Fresher {
    fn from(value: String) -> (fresher: Fresher) {
        Fresher::from_text(value.as_str())
    }
}

impl vstd::std_specs::convert::FromSpecImpl<String> for Fresher {
    open spec fn obeys_from_spec() -> bool {
        true
    }

    open spec fn from_spec(value: String) -> Fresher {
        spec_from_lowered(lowercase_of(value@))
    }
}

/// A stored word in lower case is read back as the category it was written
/// for.
pub proof fn lemma_stored_round_trip(fresher: Fresher)
    ensures
        spec_from_lowered(fresher.spec_stored()) == fresher,
{
    reveal_strlit("no");
    reveal_strlit("yes_pg");
    reveal_strlit("yes_ug");
    assert("yes_pg"@[4] == 'p' && "yes_ug"@[4] == 'u');
    assert("no"@.len() == 2);
}

} // verus!
