//! Data types used by the issue producer.

use vstd::prelude::*;

use crate::decimal::dec_seq;
use crate::decimal::usize_to_decimal;

verus! {

/// A dependency declared by the project's manifest.
pub struct Dependency {
    /// Package name as declared in the manifest.
    pub name: String,
    /// Optional version constraint attached to the declaration.
    pub version_constraint: Option<String>,
}

/// A repository identity on the supported forge: not a URL, just
/// `{owner, name}`. Both fields are non-empty.
pub struct Repository {
    pub owner: String,
    pub name: String,
}

impl Repository {
    /// Both components of a repository identity are non-empty.
    pub open spec fn wf(self) -> bool {
        self.owner@.len() > 0 && self.name@.len() > 0
    }

    pub fn new(owner: &str, name: &str) -> (r: Self)
        requires
            owner@.len() > 0,
            name@.len() > 0,
        ensures
            r.owner@ == owner@,
            r.name@ == name@,
            r.wf(),
    {
        Repository { owner: String::from_str(owner), name: String::from_str(name) }
    }

    /// Display form `owner/name`.
    pub fn to_string(&self) -> (r: String)
        ensures
            r@ == repo_display(*self),
    {
        let mut s = self.owner.clone();
        s.append("/");
        s.append(self.name.as_str());
        proof {
            reveal_strlit("/");
            assert(s@ =~= repo_display(*self));
        }
        s
    }
}

/// The display form of a repository identity: `owner/name`.
pub open spec fn repo_display(r: Repository) -> Seq<char> {
    r.owner@ + seq!['/'] + r.name@
}

/// An open issue of a repository on the forge's issue tracker.
pub struct Issue {
    /// Repository where this issue comes from.
    pub repo: Repository,
    /// Issue number, assigned by the tracker; always positive.
    pub number: usize,
    /// Issue title.
    pub title: String,
}

impl Issue {
    /// The tracker assigns issue numbers starting at one.
    pub open spec fn wf(self) -> bool {
        self.repo.wf() && self.number >= 1
    }

    /// Display form `[owner/name] #number: title`.
    pub fn to_string(&self) -> (r: String)
        ensures
            r@ == issue_display(*self),
    {
        let mut s = String::from_str("[");
        let repo_part = self.repo.to_string();
        s.append(repo_part.as_str());
        s.append("] #");
        let number_part = usize_to_decimal(self.number);
        s.append(number_part.as_str());
        s.append(": ");
        s.append(self.title.as_str());
        proof {
            reveal_strlit("[");
            reveal_strlit("] #");
            reveal_strlit(": ");
            assert(s@ =~= issue_display(*self));
        }
        s
    }
}

/// The display form of an issue: `[owner/name] #number: title`.
pub open spec fn issue_display(i: Issue) -> Seq<char> {
    seq!['['] + repo_display(i.repo) + seq![']', ' ', '#'] + dec_seq(i.number as nat) + seq![
        ':',
        ' ',
    ] + i.title@
}

} // verus!
