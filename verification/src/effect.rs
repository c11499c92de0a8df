//! The work that is done outside: what can be asked for, and what comes back.

use crate::process::{Invocation, InvocationView, SpawnResult, SpawnView};
use crate::process;
use crate::storage::EnvFile;
use crate::text;
use vstd::prelude::*;

verus! {

/// Something to be done outside.
pub enum Effect<T, I> {
    /// Tell whether something is at a path, following links.
    Exists { path: T },
    /// Remove the file at a path; a failure is ignored.
    RemoveFile { path: T },
    /// Make a directory and those above it.
    CreateDir { path: T },
    /// Write a file.
    WriteFile { path: T, content: T },
    /// Tell what the link at a path points to.
    ReadLink { path: T },
    /// Tell the path without links that a path stands for.
    Canonicalize { path: T },
    /// Tell the names of the files in a directory; none where it cannot be read.
    ListDir { path: T },
    /// Run a program.
    Run { invocation: I },
    /// Tell what is at the path of an environment's file.
    ReadEnv { path: T },
    /// Put a text out.
    Print { content: T },
    /// Become another program, with these values of `NIX_PATH` and `NIX_DEV`.
    Enter { program: T, nix_path: T, nix_dev: T },
}

/// Something to be done outside, in running code.
pub type Request = Effect<String, Invocation>;

/// Something to be done outside, in specifications.
pub type RequestView = Effect<Seq<char>, InvocationView>;

/// What came of something that was done outside.
pub enum Reply<T, L, R> {
    /// Of `Exists`.
    Found(bool),
    /// Of `RemoveFile`.
    Removed,
    /// Of `CreateDir` and `WriteFile`: what the system complains of, or nothing.
    Stored(Option<T>),
    /// Of `ReadLink`.
    Link(T),
    /// Of `Canonicalize`: nothing where it failed.
    Canonical(Option<T>),
    /// Of `ListDir`.
    Names(L),
    /// Of `Run`: nothing where the program could not be started.
    Ran(Option<R>),
    /// Of `ReadEnv`.
    File(EnvFile<T>),
    /// Of `Print`.
    Printed,
    /// Of `Enter`: what the system complains of. There is no reply where all is
    /// well.
    Refused(T),
}

impl Effect<Seq<char>, InvocationView> {
    /// A reply is one to this request.
    pub open spec fn fits(self, reply: AnswerView) -> bool {
        match self {
            Effect::Exists { .. } => reply is Found,
            Effect::RemoveFile { .. } => reply is Removed,
            Effect::CreateDir { .. } => reply is Stored,
            Effect::WriteFile { .. } => reply is Stored,
            Effect::ReadLink { .. } => reply is Link,
            Effect::Canonicalize { .. } => reply is Canonical,
            Effect::ListDir { .. } => reply is Names,
            Effect::Run { .. } => reply is Ran,
            Effect::ReadEnv { .. } => reply is File,
            Effect::Print { .. } => reply is Printed,
            Effect::Enter { .. } => reply is Refused,
        }
    }
}

/// What came of something that was done outside, in running code.
pub type Answer = Reply<String, Vec<String>, SpawnResult>;

/// What came of something that was done outside, in specifications.
pub type AnswerView = Reply<Seq<char>, Seq<Seq<char>>, SpawnView>;

impl View for Effect<String, Invocation> {
    type V = RequestView;

    open spec fn view(&self) -> RequestView {
        match self {
            Effect::Exists { path } => Effect::Exists { path: path@ },
            Effect::RemoveFile { path } => Effect::RemoveFile { path: path@ },
            Effect::CreateDir { path } => Effect::CreateDir { path: path@ },
            Effect::WriteFile { path, content } => Effect::WriteFile {
                path: path@,
                content: content@,
            },
            Effect::ReadLink { path } => Effect::ReadLink { path: path@ },
            Effect::Canonicalize { path } => Effect::Canonicalize { path: path@ },
            Effect::ListDir { path } => Effect::ListDir { path: path@ },
            Effect::Run { invocation } => Effect::Run { invocation: invocation@ },
            Effect::ReadEnv { path } => Effect::ReadEnv { path: path@ },
            Effect::Print { content } => Effect::Print { content: content@ },
            Effect::Enter { program, nix_path, nix_dev } => Effect::Enter {
                program: program@,
                nix_path: nix_path@,
                nix_dev: nix_dev@,
            },
        }
    }
}

/// What an optional request says.
pub open spec fn request_view(r: Option<Request>) -> Option<RequestView> {
    match r {
        Some(e) => Some(e@),
        None => None,
    }
}

impl View for Reply<String, Vec<String>, SpawnResult> {
    type V = AnswerView;

    open spec fn view(&self) -> AnswerView {
        match self {
            Reply::Found(found) => Reply::Found(*found),
            Reply::Removed => Reply::Removed,
            Reply::Stored(complaint) => Reply::Stored(
                match complaint {
                    Some(detail) => Some(detail@),
                    None => None,
                },
            ),
            Reply::Link(path) => Reply::Link(path@),
            Reply::Canonical(path) => Reply::Canonical(
                match path {
                    Some(path) => Some(path@),
                    None => None,
                },
            ),
            Reply::Names(names) => Reply::Names(text::texts(names@)),
            Reply::Ran(ran) => Reply::Ran(process::ran_view(*ran)),
            Reply::File(file) => Reply::File(file@),
            Reply::Printed => Reply::Printed,
            Reply::Refused(complaint) => Reply::Refused(complaint@),
        }
    }
}

} // verus!
