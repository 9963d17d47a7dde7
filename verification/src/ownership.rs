//! The ownership model of generated types.

use vstd::prelude::*;
use vstd::string::*;
use crate::text::same_text;

verus! {

/// How generated types hold their data.
#[derive(Debug, Clone, Copy, PartialEq, Eq, Structural)]
pub enum Ownership {
    /// Generated types are composed entirely of owning fields, whether or not
    /// they are used as parameters to imports.
    Owning,
    /// Generated types used as parameters to imports hold references where
    /// that applies.
    Borrowing,
    /// A single type gets a second, borrowing definition where it is used in
    /// both roles.
    BorrowingDuplicateIfNecessary,
}

/// The ownership model that a name stands for, if it stands for one.
pub open spec fn ownership_of(s: Seq<char>) -> Option<Ownership> {
    if s == "owning"@ {
        Some(Ownership::Owning)
    } else if s == "borrowing"@ {
        Some(Ownership::Borrowing)
    } else if s == "borrowing-duplicate-if-necessary"@ {
        Some(Ownership::BorrowingDuplicateIfNecessary)
    } else {
        None
    }
}

/// The message for a name that stands for no ownership model.
pub open spec fn unrecognized_ownership(s: Seq<char>) -> Seq<char> {
    "unrecognized ownership: `"@ + s
        + "`; expected `owning`, `borrowing`, or `borrowing-duplicate-if-necessary`"@
}

impl Default for Ownership {
    fn default() -> (r: Self)
        ensures
            r == Ownership::Owning,
    {
        Ownership::Owning
    }
}

impl Ownership {
    /// The name of this ownership model in a configuration document.
    pub fn name(&self) -> (r: &'static str)
        ensures
            ownership_of(r@) == Some(*self),
    {
        proof {
            reveal_strlit("owning");
            reveal_strlit("borrowing");
            reveal_strlit("borrowing-duplicate-if-necessary");
        }
        match self {
            Ownership::Owning => "owning",
            Ownership::Borrowing => {
                assert("borrowing"@.len() != "owning"@.len());
                "borrowing"
            },
            Ownership::BorrowingDuplicateIfNecessary => {
                assert("borrowing-duplicate-if-necessary"@.len() != "owning"@.len());
                assert("borrowing-duplicate-if-necessary"@.len() != "borrowing"@.len());
                "borrowing-duplicate-if-necessary"
            },
        }
    }

    /// Reads an ownership model from its name.
    pub fn from_str(s: &str) -> (r: Result<Ownership, String>)
        ensures
            match r {
                Ok(o) => ownership_of(s@) == Some(o),
                Err(e) => ownership_of(s@).is_none() && e@ == unrecognized_ownership(s@),
            },
    {
        if same_text(s, "owning") {
            Ok(Ownership::Owning)
        } else if same_text(s, "borrowing") {
            Ok(Ownership::Borrowing)
        } else if same_text(s, "borrowing-duplicate-if-necessary") {
            Ok(Ownership::BorrowingDuplicateIfNecessary)
        } else {
            let mut e = String::from_str("unrecognized ownership: `");
            e.append(s);
            e.append("`; expected `owning`, `borrowing`, or `borrowing-duplicate-if-necessary`");
            Err(e)
        }
    }
}

impl std::str::FromStr for Ownership {
    type Err = String;

    /// Reads an ownership model from its name, as the method of the same name
    /// on the type does: the model that the name stands for, or the message
    /// for a name that stands for none.
    fn from_str(s: &str) -> (r: Result<Self, Self::Err>)
        ensures
            match r {
                Ok(o) => ownership_of(s@) == Some(o),
                Err(e) => ownership_of(s@).is_none() && e@ == unrecognized_ownership(s@),
            },
    {
        Ownership::from_str(s)
    }
}

} // verus!
