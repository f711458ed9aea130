//! The people behind a package, as the report of authors names them.

use vstd::prelude::*;
use vstd::string::StringExecFns;
use std::collections::HashSet;
use crate::common::{copy_strings, PkgSource, SourcedPackage};
use crate::records::text_view;

verus! {

/// Someone who wrote a package, or what stands in for them.
#[allow(inconsistent_fields)]
#[derive(Debug, PartialEq, Eq, Hash)]
pub enum Author {
    /// An account of the public registry.
    CratesUser { id: u64, login: String, name: Option<String>, mail: Option<String> },
    /// An author of a package of the workspace.
    Local { name: String },
    /// An author of a package from elsewhere.
    Foreign { name: String },
    /// A package of the registry whose authors could not be asked for.
    CrateError { crate_: String, version: String },
}

/// The mathematical value of an [`Author`].
#[allow(inconsistent_fields)]
pub enum AuthorView {
    CratesUser { id: u64, login: Seq<char>, name: Option<Seq<char>>, mail: Option<Seq<char>> },
    Local { name: Seq<char> },
    Foreign { name: Seq<char> },
    CrateError { crate_: Seq<char>, version: Seq<char> },
}

impl View for Author {
    type V = AuthorView;

    open spec fn view(&self) -> AuthorView {
        match self {
            Author::CratesUser { id, login, name, mail } => AuthorView::CratesUser {
                id: *id,
                login: login@,
                name: text_view(*name),
                mail: text_view(*mail),
            },
            Author::Local { name } => AuthorView::Local { name: name@ },
            Author::Foreign { name } => AuthorView::Foreign { name: name@ },
            Author::CrateError { crate_, version } => AuthorView::CrateError {
                crate_: crate_@,
                version: version@,
            },
        }
    }
}

impl AuthorView {
    /// The line that the report shows for the author: the name, the mail
    /// address if there is one, and where the author is known from, with
    /// tabs between them.
    pub open spec fn line(self) -> Seq<char> {
        match self {
            AuthorView::CratesUser { id, login, name, mail } => {
                let shown = match name {
                    Some(n) => n,
                    None => login,
                };
                match mail {
                    Some(m) => shown + "\t"@ + m + "\tcrates.io"@,
                    None => shown + "\t\tcrates.io"@,
                }
            },
            AuthorView::Local { name } => name + "\t\tlocal"@,
            AuthorView::Foreign { name } => name + "\t\tunknown registry"@,
            AuthorView::CrateError { crate_, version } => "Error resolving crate `"@ + crate_
                + ": "@ + version + "`"@,
        }
    }
}

impl Author {
    /// The line that the report shows for the author.
    pub fn describe(&self) -> (line: String)
        ensures
            line@ == self@.line(),
    {
        match self {
            Author::CratesUser { id: _, login, name, mail } => {
                let mut line = match name {
                    Some(n) => n.clone(),
                    None => login.clone(),
                };
                match mail {
                    Some(m) => {
                        line.append("\t");
                        line.append(m.as_str());
                        line.append("\tcrates.io");
                    },
                    None => {
                        line.append("\t\tcrates.io");
                    },
                }
                line
            },
            Author::Local { name } => {
                let mut line = name.clone();
                line.append("\t\tlocal");
                line
            },
            Author::Foreign { name } => {
                let mut line = name.clone();
                line.append("\t\tunknown registry");
                line
            },
            Author::CrateError { crate_, version } => {
                let mut line = String::from_str("Error resolving crate `");
                line.append(crate_.as_str());
                line.append(": ");
                line.append(version.as_str());
                line.append("`");
                line
            },
        }
    }
}

/// An account as the registry describes it when asked for the authors of
/// a package.
#[derive(Debug, PartialEq, Eq)]
pub struct RegistryUser {
    pub id: u64,
    pub login: String,
    pub name: Option<String>,
    pub email: Option<String>,
}

/// What the walk through the authors comes to next.
#[derive(Debug, PartialEq, Eq)]
pub enum Turn {
    /// The next author.
    Yield(Author),
    /// The registry has to be asked for the authors of this package, and
    /// its answer handed in, before the walk goes on.
    Ask { crate_: String, version: String },
    /// There are no more authors.
    Done,
}

/// The mathematical value of an [`AuthorIter`]: the packages not yet looked
/// at, the accounts already shown, and the authors waiting to be shown, of
/// which the last of a list is shown first.
pub struct Progress {
    pub rest: Seq<SourcedPackage>,
    pub named: Set<u64>,
    pub local_todo: Seq<String>,
    pub foreign_todo: Seq<String>,
    pub crates_todo: Seq<RegistryUser>,
}

impl Progress {
    /// The walk's next turn, and what is left of the walk after it. Authors
    /// that wait are shown first: local ones, then foreign ones, then
    /// accounts of the registry, of which each is shown once. After them the
    /// next package is looked at: its authors wait from then on, or, for a
    /// package of the registry, the registry is asked.
    pub open spec fn turn(self) -> (Progress, Turn)
        decreases self.rest.len(), self.crates_todo.len(),
    {
        if self.local_todo.len() > 0 {
            (
                Progress { local_todo: self.local_todo.drop_last(), ..self },
                Turn::Yield(Author::Local { name: self.local_todo.last() }),
            )
        } else if self.foreign_todo.len() > 0 {
            (
                Progress { foreign_todo: self.foreign_todo.drop_last(), ..self },
                Turn::Yield(Author::Foreign { name: self.foreign_todo.last() }),
            )
        } else if self.crates_todo.len() > 0 {
            let user = self.crates_todo.last();
            let left = Progress { crates_todo: self.crates_todo.drop_last(), ..self };
            if self.named.contains(user.id) {
                left.turn()
            } else {
                (
                    Progress { named: self.named.insert(user.id), ..left },
                    Turn::Yield(
                        Author::CratesUser {
                            id: user.id,
                            login: user.login,
                            name: user.name,
                            mail: user.email,
                        },
                    ),
                )
            }
        } else if self.rest.len() == 0 {
            (self, Turn::Done)
        } else {
            let first = self.rest[0];
            let left = Progress { rest: self.rest.skip(1), ..self };
            match first.source {
                PkgSource::Foreign => (Progress { foreign_todo: first.authors@, ..left }).turn(),
                PkgSource::Local => (Progress { local_todo: first.authors@, ..left }).turn(),
                PkgSource::CratesIo => (
                    left,
                    Turn::Ask { crate_: first.name, version: first.version },
                ),
            }
        }
    }

    /// What is left of the walk once the registry has answered for the
    /// package asked about, and the author to show for the package if the
    /// registry could not tell.
    pub open spec fn answered(
        self,
        crate_: String,
        version: String,
        users: Option<Seq<RegistryUser>>,
    ) -> (Progress, Option<Author>) {
        match users {
            Some(list) => (Progress { crates_todo: list, ..self }, None),
            None => (self, Some(Author::CrateError { crate_, version })),
        }
    }
}

/// A walk through the authors of the packages of a dependency graph.
pub struct AuthorIter {
    dependencies: Vec<SourcedPackage>,
    position: usize,
    named: HashSet<u64>,
    local_todo: Vec<String>,
    foreign_todo: Vec<String>,
    crates_todo: Vec<RegistryUser>,
}

impl View for AuthorIter {
    type V = Progress;

    closed spec fn view(&self) -> Progress {
        Progress {
            rest: if self.position <= self.dependencies.len() {
                self.dependencies@.skip(self.position as int)
            } else {
                Seq::empty()
            },
            named: self.named@,
            local_todo: self.local_todo@,
            foreign_todo: self.foreign_todo@,
            crates_todo: self.crates_todo@,
        }
    }
}

impl AuthorIter {
    /// The walk through the authors of `dependencies`, at its start.
    pub fn new(dependencies: Vec<SourcedPackage>) -> (walk: AuthorIter)
        ensures
            walk@ == (Progress {
                rest: dependencies@,
                named: Set::empty(),
                local_todo: Seq::empty(),
                foreign_todo: Seq::empty(),
                crates_todo: Seq::empty(),
            }),
    {
        assert(dependencies@.skip(0) =~= dependencies@);
        AuthorIter {
            dependencies,
            position: 0,
            named: HashSet::new(),
            local_todo: Vec::new(),
            foreign_todo: Vec::new(),
            crates_todo: Vec::new(),
        }
    }

    /// Takes the walk's next turn.
    pub fn next(&mut self) -> (turn: Turn)
        ensures
            (final(self)@, turn) == old(self)@.turn(),
    {
        loop
            invariant
                self@.turn() == old(self)@.turn(),
            decreases self.dependencies.len() - self.position, self.crates_todo.len(),
        {
            if let Some(name) = self.local_todo.pop() {
                return Turn::Yield(Author::Local { name });
            }
            if let Some(name) = self.foreign_todo.pop() {
                return Turn::Yield(Author::Foreign { name });
            }
            if let Some(user) = self.crates_todo.pop() {
                if self.named.contains(&user.id) {
                    continue ;
                }
                self.named.insert(user.id);
                return Turn::Yield(
                    Author::CratesUser {
                        id: user.id,
                        login: user.login,
                        name: user.name,
                        mail: user.email,
                    },
                );
            }
            if self.position >= self.dependencies.len() {
                return Turn::Done;
            }
            let ghost rest = self.dependencies@.skip(self.position as int);
            assert(rest.skip(1) =~= self.dependencies@.skip(self.position + 1));
            let first = &self.dependencies[self.position];
            match first.source {
                PkgSource::Foreign => {
                    let authors = copy_strings(&first.authors);
                    self.foreign_todo = authors;
                    self.position = self.position + 1;
                },
                PkgSource::Local => {
                    let authors = copy_strings(&first.authors);
                    self.local_todo = authors;
                    self.position = self.position + 1;
                },
                PkgSource::CratesIo => {
                    let crate_ = first.name.clone();
                    let version = first.version.clone();
                    self.position = self.position + 1;
                    return Turn::Ask { crate_, version };
                },
            }
        }
    }

    /// Hands in the registry's answer for the package asked about: its
    /// accounts wait to be shown from now on. Where the registry could not
    /// tell, `users` is `None`, and the author to show is the package itself
    /// as one that could not be resolved.
    pub fn answer(&mut self, crate_: String, version: String, users: Option<Vec<RegistryUser>>) -> (r:
        Option<Author>)
        ensures
            (final(self)@, r) == old(self)@.answered(
                crate_,
                version,
                match users {
                    Some(list) => Some(list@),
                    None => None,
                },
            ),
    {
        match users {
            Some(list) => {
                self.crates_todo = list;
                None
            },
            None => Some(Author::CrateError { crate_, version }),
        }
    }
}

} // verus!
