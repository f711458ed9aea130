//! The records of the bulk dump and the stored cache metadata, each with the
//! mathematical value that contracts speak of.

use vstd::prelude::*;
use crate::time::Timestamp;

verus! {

/// What kind of account an ownership edge points to.
#[allow(non_camel_case_types)]
#[derive(Clone, Copy, Debug, PartialEq, Eq, Structural)]
pub enum OwnerKind {
    user,
    team,
}

impl OwnerKind {
    /// The kind that the dump writes as `code`.
    pub open spec fn of_code(code: i32) -> Option<OwnerKind> {
        if code == 0 {
            Some(OwnerKind::user)
        } else if code == 1 {
            Some(OwnerKind::team)
        } else {
            None
        }
    }

    /// The number that the dump writes for this kind.
    pub open spec fn spec_code(self) -> i32 {
        match self {
            OwnerKind::user => 0,
            OwnerKind::team => 1,
        }
    }

    /// Reads the dump's number for a kind; any number but 0 and 1 is rejected.
    pub fn from_code(code: i32) -> (r: Option<OwnerKind>)
        ensures
            r == Self::of_code(code),
    {
        if code == 0 {
            Some(OwnerKind::user)
        } else if code == 1 {
            Some(OwnerKind::team)
        } else {
            None
        }
    }

    /// The number that the dump writes for this kind.
    pub fn code(&self) -> (r: i32)
        ensures
            r == self.spec_code(),
            Self::of_code(r) == Some(*self),
    {
        match self {
            OwnerKind::user => 0,
            OwnerKind::team => 1,
        }
    }
}

/// A package of the registry.
#[derive(Debug, PartialEq, Eq)]
pub struct Crate {
    pub name: String,
    pub id: u64,
    pub repository: Option<String>,
}

/// The mathematical value of a [`Crate`].
pub struct CrateView {
    pub name: Seq<char>,
    pub id: u64,
    pub repository: Option<Seq<char>>,
}

impl View for Crate {
    type V = CrateView;

    open spec fn view(&self) -> CrateView {
        CrateView { name: self.name@, id: self.id, repository: text_view(self.repository) }
    }
}

/// An edge from a package to an account that may publish it.
#[derive(Clone, Copy, Debug, PartialEq, Eq, Structural)]
pub struct CrateOwner {
    pub crate_id: u64,
    pub owner_id: u64,
    pub owner_kind: OwnerKind,
}

impl View for CrateOwner {
    type V = CrateOwner;

    open spec fn view(&self) -> CrateOwner {
        *self
    }
}

/// An edge from a package to the account that published one of its versions.
#[derive(Clone, Copy, Debug, PartialEq, Eq, Structural)]
pub struct Publisher {
    pub crate_id: u64,
    pub published_by: u64,
}

/// A group account.
#[derive(Debug, PartialEq, Eq)]
pub struct Team {
    pub id: u64,
    pub avatar: Option<String>,
    pub login: String,
    pub name: Option<String>,
}

/// The mathematical value of a [`Team`].
pub struct TeamView {
    pub id: u64,
    pub avatar: Option<Seq<char>>,
    pub login: Seq<char>,
    pub name: Option<Seq<char>>,
}

impl View for Team {
    type V = TeamView;

    open spec fn view(&self) -> TeamView {
        TeamView {
            id: self.id,
            avatar: text_view(self.avatar),
            login: self.login@,
            name: text_view(self.name),
        }
    }
}

/// An individual account.
#[derive(Debug, PartialEq, Eq)]
pub struct User {
    pub id: u64,
    pub gh_avatar: Option<String>,
    pub gh_id: Option<String>,
    pub gh_login: String,
    pub name: Option<String>,
}

/// The mathematical value of a [`User`].
pub struct UserView {
    pub id: u64,
    pub gh_avatar: Option<Seq<char>>,
    pub gh_id: Option<Seq<char>>,
    pub gh_login: Seq<char>,
    pub name: Option<Seq<char>>,
}

impl View for User {
    type V = UserView;

    open spec fn view(&self) -> UserView {
        UserView {
            id: self.id,
            gh_avatar: text_view(self.gh_avatar),
            gh_id: text_view(self.gh_id),
            gh_login: self.gh_login@,
            name: text_view(self.name),
        }
    }
}

/// The characters of an optional string.
pub open spec fn text_view(text: Option<String>) -> Option<Seq<char>> {
    match text {
        Some(s) => Some(s@),
        None => None,
    }
}

/// A copy of an optional string.
pub fn clone_text(text: &Option<String>) -> (r: Option<String>)
    ensures
        r == *text,
{
    match text {
        Some(s) => Some(s.clone()),
        None => None,
    }
}

/// Whether two optional strings hold the same characters, or both nothing.
pub fn same_text(a: &Option<String>, b: &Option<String>) -> (r: bool)
    ensures
        r <==> text_view(*a) == text_view(*b),
{
    match a {
        Some(x) => match b {
            Some(y) => *x == *y,
            None => false,
        },
        None => b.is_none(),
    }
}

impl Clone for Crate {
    fn clone(&self) -> (r: Self)
        ensures
            r == *self,
    {
        Crate { name: self.name.clone(), id: self.id, repository: clone_text(&self.repository) }
    }
}

impl Clone for Team {
    fn clone(&self) -> (r: Self)
        ensures
            r == *self,
    {
        Team {
            id: self.id,
            avatar: clone_text(&self.avatar),
            login: self.login.clone(),
            name: clone_text(&self.name),
        }
    }
}

impl Clone for User {
    fn clone(&self) -> (r: Self)
        ensures
            r == *self,
    {
        User {
            id: self.id,
            gh_avatar: clone_text(&self.gh_avatar),
            gh_id: clone_text(&self.gh_id),
            gh_login: self.gh_login.clone(),
            name: clone_text(&self.name),
        }
    }
}

/// The timestamp that the dump declares for itself.
#[derive(Clone, Copy, Debug, PartialEq, Eq)]
pub struct Metadata {
    pub timestamp: Timestamp,
}

/// What the cache remembers of the dump it was filled from: the dump's
/// timestamp and the validator token of the response that carried it.
#[derive(Debug, PartialEq, Eq)]
pub struct MetadataStored {
    pub timestamp: Timestamp,
    pub etag: Option<String>,
}

/// The mathematical value of a [`MetadataStored`].
pub struct MetadataView {
    pub timestamp: Timestamp,
    pub etag: Option<Seq<char>>,
}

impl View for MetadataStored {
    type V = MetadataView;

    open spec fn view(&self) -> MetadataView {
        MetadataView { timestamp: self.timestamp, etag: text_view(self.etag) }
    }
}

impl Clone for MetadataStored {
    fn clone(&self) -> (r: Self)
        ensures
            r == *self,
    {
        MetadataStored { timestamp: self.timestamp, etag: clone_text(&self.etag) }
    }
}

} // verus!
