//! Making directories and writing an environment's file.

use crate::effect;
use crate::effect::{Answer, AnswerView, Effect, Reply, Request, RequestView};
use crate::failure::Failure;
use crate::sources::{GlobalSources, GlobalSourcesView, Sources, SourcesView};
use crate::storage::{Storage, StorageView};
use vstd::prelude::*;
use vstd::string::*;

verus! {

/// Something to put on disk.
pub enum Step<T> {
    Dir { path: T },
    File { path: T, content: T },
}

/// Putting several things on disk, one behind the other. `rest` holds those that
/// are still to come, the one at hand first.
pub enum Storing<L, T> {
    Going { rest: L },
    Failed { failure: Failure<T> },
}

/// Putting things on disk, in running code.
pub type Storer = Storing<Vec<Step<String>>, String>;

/// Putting things on disk, in specifications.
pub type StorerView = Storing<Seq<Step<Seq<char>>>, Seq<char>>;

impl View for Step<String> {
    type V = Step<Seq<char>>;

    open spec fn view(&self) -> Step<Seq<char>> {
        match self {
            Step::Dir { path } => Step::Dir { path: path@ },
            Step::File { path, content } => Step::File { path: path@, content: content@ },
        }
    }
}

/// What a list of things to put on disk says.
pub open spec fn steps_view(list: Seq<Step<String>>) -> Seq<Step<Seq<char>>> {
    Seq::new(list.len(), |i: int| list[i]@)
}

impl View for Storing<Vec<Step<String>>, String> {
    type V = StorerView;

    open spec fn view(&self) -> StorerView {
        match self {
            Storing::Going { rest } => Storing::Going { rest: steps_view(rest@) },
            Storing::Failed { failure } => Storing::Failed { failure: failure@ },
        }
    }
}

impl Step<Seq<char>> {
    /// What is asked for.
    pub open spec fn wanted(self) -> RequestView {
        match self {
            Step::Dir { path } => Effect::CreateDir { path },
            Step::File { path, content } => Effect::WriteFile { path, content },
        }
    }

    /// The failure where the system complains.
    pub open spec fn refusal(self, detail: Seq<char>) -> Failure<Seq<char>> {
        match self {
            Step::Dir { .. } => Failure::System { detail },
            Step::File { .. } => Failure::StorageWrite,
        }
    }
}

impl Storing<Seq<Step<Seq<char>>>, Seq<char>> {
    /// What is to be done next; nothing at the end.
    pub open spec fn wants(self) -> Option<RequestView> {
        match self {
            Storing::Going { rest } => if rest.len() > 0 {
                Some(rest.first().wanted())
            } else {
                None
            },
            Storing::Failed { .. } => None,
        }
    }

    /// The state behind a reply. Where one thing fails, those behind it are not
    /// tried.
    pub open spec fn after(self, reply: AnswerView) -> StorerView {
        match (self, reply) {
            (Storing::Going { rest }, Reply::Stored(complaint)) => if rest.len() == 0 {
                self
            } else {
                match complaint {
                    None => Storing::Going { rest: rest.drop_first() },
                    Some(detail) => Storing::Failed { failure: rest.first().refusal(detail) },
                }
            },
            _ => self,
        }
    }
}

/// The directories of an environment's sources.
pub open spec fn source_dirs(sources: SourcesView) -> StorerView {
    Storing::Going {
        rest: seq![
            Step::Dir { path: sources.channels_path },
            Step::Dir { path: sources.flakes_path },
        ],
    }
}

/// The directory of the global sources.
pub open spec fn global_dir(global: GlobalSourcesView) -> StorerView {
    Storing::Going { rest: seq![Step::Dir { path: global.path }] }
}

/// The file of an environment, and the directory that holds it.
pub open spec fn saving(config_dir: Seq<char>, storage: StorageView) -> StorerView {
    Storing::Going {
        rest: seq![
            Step::Dir { path: config_dir },
            Step::File { path: storage.disk_path, content: storage.written() },
        ],
    }
}

/// Begins to make the directories of an environment's sources.
pub fn open_sources(sources: &Sources) -> (r: Storer)
    ensures
        r@ == source_dirs(sources@),
{
    let mut rest: Vec<Step<String>> = Vec::new();
    rest.push(Step::Dir { path: sources.channels_path.clone() });
    rest.push(Step::Dir { path: sources.flakes_path.clone() });
    assert(steps_view(rest@) =~= source_dirs(sources@)->rest);
    Storing::Going { rest }
}

/// Begins to make the directory of the global sources.
pub fn open_global(global: &GlobalSources) -> (r: Storer)
    ensures
        r@ == global_dir(global@),
{
    let mut rest: Vec<Step<String>> = Vec::new();
    rest.push(Step::Dir { path: global.path.clone() });
    assert(steps_view(rest@) =~= global_dir(global@)->rest);
    Storing::Going { rest }
}

/// Begins to save the packages of an environment.
pub fn save(config_dir: &str, storage: &Storage) -> (r: Storer)
    ensures
        r@ == saving(config_dir@, storage@),
{
    let mut rest: Vec<Step<String>> = Vec::new();
    rest.push(Step::Dir { path: config_dir.to_owned() });
    rest.push(Step::File { path: storage.disk_path.clone(), content: storage.write() });
    assert(steps_view(rest@) =~= saving(config_dir@, storage@)->rest);
    Storing::Going { rest }
}

impl Storing<Vec<Step<String>>, String> {
    /// What is to be done next.
    pub fn request(&self) -> (r: Option<Request>)
        ensures
            effect::request_view(r) == self@.wants(),
    {
        match self {
            Storing::Going { rest } => if rest.len() > 0 {
                Some(
                    match &rest[0] {
                        Step::Dir { path } => Effect::CreateDir { path: path.clone() },
                        Step::File { path, content } => Effect::WriteFile {
                            path: path.clone(),
                            content: content.clone(),
                        },
                    },
                )
            } else {
                None
            },
            Storing::Failed { .. } => None,
        }
    }

    /// Goes on with a reply.
    pub fn advance(self, reply: Answer) -> (r: Self)
        ensures
            r@ == self@.after(reply@),
    {
        match (self, reply) {
            (Storing::Going { rest }, Reply::Stored(complaint)) => {
                let mut rest = rest;
                if rest.len() == 0 {
                    return Storing::Going { rest };
                }
                let ghost before = steps_view(rest@);
                let step = rest.remove(0);
                assert(steps_view(rest@) =~= before.drop_first());
                match complaint {
                    None => Storing::Going { rest },
                    Some(detail) => Storing::Failed {
                        failure: match step {
                            Step::Dir { .. } => Failure::System { detail },
                            Step::File { .. } => Failure::StorageWrite,
                        },
                    },
                }
            },
            (this, _) => this,
        }
    }
}

/// Saving makes the directory of the environment's file first and then writes just
/// that file, with just the packages at hand. A complaint of the system about
/// either is a failure.
pub proof fn law_saving(config_dir: Seq<char>, storage: StorageView, detail: Seq<char>)
    ensures
        ({
            let begun = saving(config_dir, storage);
            let made = begun.after(Reply::Stored(None));
            &&& begun.wants() == Some(RequestView::CreateDir { path: config_dir })
            &&& begun.after(Reply::Stored(Some(detail))) == (StorerView::Failed {
                failure: Failure::System { detail },
            })
            &&& made.wants() == Some(
                RequestView::WriteFile { path: storage.disk_path, content: storage.written() },
            )
            &&& made.after(Reply::Stored(Some(detail))) == (StorerView::Failed {
                failure: Failure::StorageWrite,
            })
            &&& made.after(Reply::Stored(None)).wants() is None
        }),
{
}

} // verus!
