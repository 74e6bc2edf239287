//! What a run needs to know of the repository: where it lives, and how
//! the index differs from the last commit.

use crate::errors::Error;
use crate::errors::ErrorView;
use crate::run::FileTask;
use crate::world::framed;
use crate::world::WriterWorld;
use git2::Delta;
use vstd::prelude::*;
use vstd::string::StringExecFns;

verus! {

#[verifier::external_type_specification]
pub struct ExDelta(Delta);

/// One difference between the last commit and the index.
#[derive(Debug)]
pub struct FileDelta {
    /// What happened to the file.
    pub status: Delta,
    /// The path of the file in the index, where it has one.
    pub path: Option<Vec<u8>>,
    /// The name of the object that holds the file's content in the index.
    pub id: String,
}

/// An object of the repository as it was read: its name, and its content
/// or why that could not be had.
#[derive(Debug)]
pub struct Object {
    pub id: String,
    pub contents: Result<Vec<u8>, Error>,
}

/// Whether a difference brings content to check: the file was added or
/// modified.
pub open spec fn is_change(status: Delta) -> bool {
    status == Delta::Added || status == Delta::Modified
}

/// Tells whether a difference brings content to check.
pub fn brings_content(status: Delta) -> (changed: bool)
    ensures
        changed == is_change(status),
{
    match status {
        Delta::Added => true,
        Delta::Modified => true,
        _ => false,
    }
}

/// A changed file: its path, and the name of the object that holds its
/// content.
#[derive(Debug, Clone, PartialEq, Eq)]
pub struct Changed {
    pub path: Vec<u8>,
    pub id: String,
}

/// The changed files among the differences, in their order: those added
/// or modified that have a path.
pub open spec fn changed_paths(deltas: Seq<FileDelta>) -> Seq<(Seq<u8>, Seq<char>)>
    decreases deltas.len(),
{
    if deltas.len() == 0 {
        Seq::empty()
    } else {
        let earlier = changed_paths(deltas.drop_last());
        let delta = deltas.last();
        if is_change(delta.status) && delta.path.is_some() {
            earlier.push((delta.path.unwrap()@, delta.id@))
        } else {
            earlier
        }
    }
}

/// The line that warns of a changed file without a path.
pub open spec fn pathless_line(id: Seq<char>) -> Seq<u8> {
    framed("\x1b[0;1;33m", "Could not find a path for object "@ + id + ", ignoring"@)
}

/// The warnings on the changed files that have no path, in their order.
pub open spec fn pathless_warnings(deltas: Seq<FileDelta>) -> Seq<u8>
    decreases deltas.len(),
{
    if deltas.len() == 0 {
        Seq::empty()
    } else {
        let delta = deltas.last();
        pathless_warnings(deltas.drop_last()) + if is_change(delta.status)
            && delta.path.is_none() {
            pathless_line(delta.id@)
        } else {
            Seq::empty()
        }
    }
}

/// Changed files as plain values: the path and the name of the object.
pub open spec fn changed_view(files: Seq<Changed>) -> Seq<(Seq<u8>, Seq<char>)> {
    Seq::new(files.len(), |at: int| (files[at].path@, files[at].id@))
}

/// Files to check as plain values: the path and the content.
pub open spec fn tasks_view(tasks: Seq<FileTask>) -> Seq<(Seq<u8>, Seq<u8>)> {
    Seq::new(tasks.len(), |at: int| (tasks[at].path@, tasks[at].contents@))
}

/// What reading an object came to, as plain values.
pub open spec fn read_of(contents: Result<Vec<u8>, Error>) -> Result<Seq<u8>, ErrorView> {
    match contents {
        Ok(bytes) => Ok(bytes@),
        Err(error) => Err(error@),
    }
}

/// What reading the files to check came to, as plain values.
pub open spec fn tasks_read(res: Result<Vec<FileTask>, Error>) -> Result<
    Seq<(Seq<u8>, Seq<u8>)>,
    ErrorView,
> {
    match res {
        Ok(tasks) => Ok(tasks_view(tasks@)),
        Err(error) => Err(error@),
    }
}

/// The content of the object of the given name: what the first object of
/// that name was read as. An object that is not among those read is
/// missing.
pub open spec fn content_of(objects: Seq<Object>, id: Seq<char>) -> Result<Seq<u8>, ErrorView>
    decreases objects.len(),
{
    if objects.len() == 0 {
        Err(ErrorView::missing_object())
    } else if objects[0].id@ == id {
        read_of(objects[0].contents)
    } else {
        content_of(objects.skip(1), id)
    }
}

/// The files to check, each changed file with its content. The first
/// content that cannot be had ends the reading with its error.
pub open spec fn tasks_of(objects: Seq<Object>, files: Seq<(Seq<u8>, Seq<char>)>) -> Result<
    Seq<(Seq<u8>, Seq<u8>)>,
    ErrorView,
>
    decreases files.len(),
{
    if files.len() == 0 {
        Ok(Seq::empty())
    } else {
        match tasks_of(objects, files.drop_last()) {
            Err(error) => Err(error),
            Ok(earlier) => match content_of(objects, files.last().1) {
                Err(error) => Err(error),
                Ok(contents) => Ok(earlier.push((files.last().0, contents))),
            },
        }
    }
}

/// Once reading has failed on some of the files, it fails in the same way
/// on all of them.
pub proof fn lemma_reading_stays_failed(
    objects: Seq<Object>,
    files: Seq<(Seq<u8>, Seq<char>)>,
    upto: int,
)
    requires
        0 <= upto <= files.len(),
        tasks_of(objects, files.take(upto)).is_err(),
    ensures
        tasks_of(objects, files) == tasks_of(objects, files.take(upto)),
    decreases files.len() - upto,
{
    if upto < files.len() {
        assert(files.drop_last().take(upto) == files.take(upto));
        lemma_reading_stays_failed(objects, files.drop_last(), upto);
    } else {
        assert(files.take(upto) == files);
    }
}

/// A repository as a run sees it.
pub struct Repo {
    workdir: Option<Vec<u8>>,
    deltas: Vec<FileDelta>,
    objects: Vec<Object>,
}

impl Repo {
    /// The working directory, where the repository has one.
    pub closed spec fn workdir(&self) -> Option<Vec<u8>> {
        self.workdir
    }

    /// The differences between the last commit and the index.
    pub closed spec fn deltas(&self) -> Seq<FileDelta> {
        self.deltas@
    }

    /// The objects that were read from the repository.
    pub closed spec fn objects(&self) -> Seq<Object> {
        self.objects@
    }

    /// A repository with the given working directory, differences and
    /// objects.
    pub fn new(workdir: Option<Vec<u8>>, deltas: Vec<FileDelta>, objects: Vec<Object>) -> (repo:
        Self)
        ensures
            repo.workdir() == workdir,
            repo.deltas() == deltas@,
            repo.objects() == objects@,
    {
        Repo { workdir, deltas, objects }
    }

    /// The directory in which the commands run. A repository without a
    /// working directory has none, which is an error.
    pub fn root_dir(&self) -> (res: Result<&Vec<u8>, Error>)
        ensures
            match res {
                Ok(dir) => self.workdir() == Some(*dir),
                Err(error) => self.workdir().is_none() && error.is_bare_repository(),
            },
    {
        match &self.workdir {
            Some(dir) => Ok(dir),
            None => Err(Error::bare_repository()),
        }
    }

    /// The changed files, in the order of the differences. A changed file
    /// without a path is left out with a warning.
    pub fn fetch_changed_paths(&self, world: &mut WriterWorld) -> (files: Vec<Changed>)
        ensures
            changed_view(files@) == changed_paths(self.deltas()),
            final(world).err() == old(world).err() + pathless_warnings(self.deltas()),
            final(world).out() == old(world).out(),
    {
        let mut files: Vec<Changed> = Vec::new();
        let mut at: usize = 0;
        assert(changed_view(files@) =~= changed_paths(self.deltas@.take(0)));
        while at < self.deltas.len()
            invariant
                at <= self.deltas@.len(),
                changed_view(files@) == changed_paths(self.deltas@.take(at as int)),
                world.err() == old(world).err() + pathless_warnings(self.deltas@.take(at as int)),
                world.out() == old(world).out(),
            decreases self.deltas@.len() - at,
        {
            assert(self.deltas@.take(at + 1).drop_last() == self.deltas@.take(at as int));
            let ghost earlier = changed_view(files@);
            let delta = &self.deltas[at];
            if brings_content(delta.status) {
                match &delta.path {
                    Some(path) => {
                        files.push(Changed { path: path.clone(), id: delta.id.clone() });
                        assert(changed_view(files@) =~= earlier.push((path@, delta.id@)));
                        assert(world.err() + Seq::<u8>::empty() == world.err());
                    },
                    None => {
                        let mut line = String::from_str("Could not find a path for object ");
                        line.append(delta.id.as_str());
                        line.append(", ignoring");
                        world.warning(line.as_str());
                    },
                }
            } else {
                assert(world.err() + Seq::<u8>::empty() == world.err());
            }
            at += 1;
        }
        assert(self.deltas@.take(at as int) == self.deltas@);
        files
    }

    /// The content of an object, by its name: what the object was read as,
    /// and an error of its own for an object that was not read.
    pub fn read_oid(&self, id: &String) -> (res: Result<Vec<u8>, Error>)
        ensures
            read_of(res) == content_of(self.objects(), id@),
    {
        let mut at: usize = 0;
        assert(self.objects@.skip(0) == self.objects@);
        while at < self.objects.len()
            invariant
                at <= self.objects@.len(),
                content_of(self.objects@, id@) == content_of(self.objects@.skip(at as int), id@),
            decreases self.objects@.len() - at,
        {
            assert(self.objects@.skip(at as int).skip(1) == self.objects@.skip(at + 1));
            if self.objects[at].id == *id {
                return match &self.objects[at].contents {
                    Ok(contents) => Ok(contents.clone()),
                    Err(error) => Err(error.duplicate()),
                };
            }
            at += 1;
        }
        Err(Error::missing_object())
    }

    /// The files to check: each changed file with its content. The first
    /// content that cannot be had is an error, and no file is checked.
    pub fn tasks(&self, files: &Vec<Changed>) -> (res: Result<Vec<FileTask>, Error>)
        ensures
            tasks_read(res) == tasks_of(self.objects(), changed_view(files@)),
    {
        let mut tasks: Vec<FileTask> = Vec::new();
        let mut at: usize = 0;
        let ghost all = changed_view(files@);
        assert(tasks_view(tasks@) =~= Seq::empty());
        assert(all.take(0) =~= Seq::empty());
        while at < files.len()
            invariant
                at <= files@.len(),
                all == changed_view(files@),
                tasks_of(self.objects(), all.take(at as int)) == Ok::<
                    Seq<(Seq<u8>, Seq<u8>)>,
                    ErrorView,
                >(tasks_view(tasks@)),
            decreases files@.len() - at,
        {
            assert(all.take(at + 1).drop_last() == all.take(at as int));
            let ghost earlier = tasks_view(tasks@);
            match self.read_oid(&files[at].id) {
                Ok(contents) => {
                    tasks.push(FileTask { path: files[at].path.clone(), contents });
                    assert(tasks_view(tasks@) =~= earlier.push((files@[at as int].path@, contents@)));
                },
                Err(error) => {
                    proof {
                        lemma_reading_stays_failed(self.objects(), all, at + 1);
                    }
                    return Err(error);
                },
            }
            at += 1;
        }
        assert(all.take(at as int) == all);
        Ok(tasks)
    }
}

} // verus!
