//! Who may publish a package: the descriptor that lookups hand out.

use vstd::prelude::*;
use vstd::std_specs::cmp::PartialEqSpecImpl;
use vstd::std_specs::cmp::PartialOrdSpecImpl;
use std::cmp::Ordering;
use crate::records::{clone_text, text_view};

verus! {

/// Whether a publisher is a group or an individual account.
#[allow(non_camel_case_types)]
#[derive(Debug, Copy, Clone, Ord, PartialOrd, Eq, PartialEq, Structural)]
pub enum PublisherKind {
    team,
    user,
}

/// An account that may publish a package.
///
/// Two descriptors are equal, and ordered, by their `id` alone: the fields
/// meant for display are no part of an account's identity.
#[derive(Debug)]
pub struct PublisherData {
    pub id: u64,
    pub login: String,
    pub kind: PublisherKind,
    /// Display name. It is not guaranteed to be unique.
    pub name: Option<String>,
    /// Avatar image URL.
    pub avatar: Option<String>,
}

/// The mathematical value of a [`PublisherData`].
pub struct PublisherView {
    pub id: u64,
    pub login: Seq<char>,
    pub kind: PublisherKind,
    pub name: Option<Seq<char>>,
    pub avatar: Option<Seq<char>>,
}

impl View for PublisherData {
    type V = PublisherView;

    open spec fn view(&self) -> PublisherView {
        PublisherView {
            id: self.id,
            login: self.login@,
            kind: self.kind,
            name: text_view(self.name),
            avatar: text_view(self.avatar),
        }
    }
}

impl Clone for PublisherData {
    fn clone(&self) -> (r: Self)
        ensures
            r == *self,
    {
        PublisherData {
            id: self.id,
            login: self.login.clone(),
            kind: self.kind,
            name: clone_text(&self.name),
            avatar: clone_text(&self.avatar),
        }
    }
}

impl PartialEq for PublisherData {
    fn eq(&self, other: &Self) -> (r: bool) {
        self.id == other.id
    }
}

impl Eq for PublisherData {

}

impl PartialEqSpecImpl for PublisherData {
    open spec fn obeys_eq_spec() -> bool {
        true
    }

    open spec fn eq_spec(&self, other: &Self) -> bool {
        self.id == other.id
    }
}

impl PartialOrd for PublisherData {
    fn partial_cmp(&self, other: &Self) -> (r: Option<Ordering>) {
        if self.id < other.id {
            Some(Ordering::Less)
        } else if self.id == other.id {
            Some(Ordering::Equal)
        } else {
            Some(Ordering::Greater)
        }
    }
}

impl PartialOrdSpecImpl for PublisherData {
    open spec fn obeys_partial_cmp_spec() -> bool {
        true
    }

    open spec fn partial_cmp_spec(&self, other: &Self) -> Option<Ordering> {
        if self.id < other.id {
            Some(Ordering::Less)
        } else if self.id == other.id {
            Some(Ordering::Equal)
        } else {
            Some(Ordering::Greater)
        }
    }
}

} // verus!
