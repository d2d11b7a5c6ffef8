//! Views of repository content: of a live directory, of the tree of a commit,
//! or of what lies under a prefix in another view.

use crate::commit::classifies_a_blob;
use crate::commit::CommitReader;
use crate::commit::TreeError;
use crate::content::Content;
use crate::content::FromError;
use crate::dir::location;
use crate::git::oid_of;
use crate::dir::DirReader;
use crate::dir::DirWalk;
use crate::dir::FileProbe;
use crate::path::components;
use crate::path::lemma_components_around_slash;
use crate::path::RelPath;
use vstd::prelude::*;
use vstd::std_specs::convert::FromSpecImpl;

verus! {

/// Why a view could not hand out content.
#[derive(Debug)]
pub enum ReadError {
    /// Nothing is there under the path in the view.
    NotFound,
    /// The disk failed.
    Io(std::io::Error),
    /// The content is there but cannot be turned into the type asked for.
    From(FromError),
}

impl From<std::io::Error> for ReadError {
    fn from(cause: std::io::Error) -> (error: ReadError) {
        ReadError::Io(cause)
    }
}

impl FromSpecImpl<std::io::Error> for ReadError {
    open spec fn obeys_from_spec() -> bool {
        true
    }

    open spec fn from_spec(cause: std::io::Error) -> ReadError {
        ReadError::Io(cause)
    }
}

impl From<FromError> for ReadError {
    fn from(cause: FromError) -> (error: ReadError) {
        ReadError::From(cause)
    }
}

impl FromSpecImpl<FromError> for ReadError {
    open spec fn obeys_from_spec() -> bool {
        true
    }

    open spec fn from_spec(cause: FromError) -> ReadError {
        ReadError::From(cause)
    }
}

/// What a view replies: the answer, where the view holds it itself, or the
/// question that has to be put to the disk.
pub enum Answer<T, Q> {
    /// The view knew the answer.
    Known(T),
    /// The view is backed by a live directory: the disk has to be asked.
    Ask(Q),
}

/// Where a view keeps what a path names.
pub enum Target {
    /// At a place on disk.
    Disk(Seq<char>),
    /// In the tree of a commit, under a path.
    Tree { commit: git2::Oid, path: Seq<Seq<char>> },
}

/// A view of repository content.
pub enum Reader<'reader> {
    /// A view of a live directory.
    Dir(DirReader),
    /// A view of the tree of a commit.
    Commit(CommitReader<'reader>),
    /// A view of what lies under a prefix in another view.
    Sub(SubReader<'reader>),
}

/// A view of what lies under a prefix in another view. It holds nothing of
/// its own: every question goes to the other view, with the prefix put
/// before the path.
pub struct SubReader<'r> {
    reader: &'r Reader<'r>,
    prefix: RelPath,
}

impl<'r> SubReader<'r> {
    /// Where the view keeps what the names `names` lead to: where the view
    /// behind it keeps what the prefix followed by `names` leads to.
    pub closed spec fn target(&self, names: Seq<Seq<char>>) -> Target
        decreases self,
    {
        self.reader.target(self.prefix@ + names)
    }

    /// The view of what lies under `prefix` in `reader`.
    pub fn new(reader: &'r Reader<'r>, prefix: &str) -> (sub: SubReader<'r>)
        ensures
            forall|names: Seq<Seq<char>>|
                #[trigger] sub.target(names) == reader.target(components(prefix@) + names),
    {
        SubReader { reader, prefix: RelPath::parse(prefix) }
    }

    /// What the view behind replies on the content under the prefix
    /// followed by `path`.
    pub fn read(&self, path: &RelPath) -> (answer: Answer<Result<Content, ReadError>, FileProbe>)
        ensures
            match self.target(path@) {
                Target::Disk(place) => answer matches Answer::Ask(probe) && probe@ == place,
                Target::Tree { .. } => answer matches Answer::Known(content) && (
                content matches Err(e) ==> e is NotFound) && (content matches Ok(c)
                    ==> classifies_a_blob(c@)),
            },
        decreases self,
    {
        self.reader.read_at(&self.prefix.join(path))
    }

    /// What the view behind replies on the files under the prefix followed
    /// by `dir_path`.
    pub fn list_files(&self, dir_path: &RelPath) -> (answer: Answer<
        Result<Vec<RelPath>, TreeError>,
        DirWalk,
    >)
        ensures
            match self.target(dir_path@) {
                Target::Disk(place) => answer matches Answer::Ask(walk) && walk@ == place,
                Target::Tree { .. } => answer matches Answer::Known(files) && (
                files matches Err(e) ==> e is WalkFailed),
            },
        decreases self,
    {
        self.reader.list_files_at(&self.prefix.join(dir_path))
    }

    /// What the view behind replies on whether anything is there under the
    /// prefix followed by `path`.
    pub fn has_entry(&self, path: &RelPath) -> (answer: Answer<bool, FileProbe>)
        ensures
            match self.target(path@) {
                Target::Disk(place) => answer matches Answer::Ask(probe) && probe@ == place,
                Target::Tree { .. } => answer is Known,
            },
        decreases self,
    {
        self.reader.has_entry_at(&self.prefix.join(path))
    }
}

impl<'reader> Reader<'reader> {
    /// Where the view keeps what the names `names` lead to.
    pub closed spec fn target(&self, names: Seq<Seq<char>>) -> Target
        decreases self,
    {
        match self {
            Reader::Dir(reader) => Target::Disk(location(reader@, names)),
            Reader::Commit(reader) => Target::Tree { commit: reader.commit_oid(), path: names },
            Reader::Sub(reader) => reader.target(names),
        }
    }

    /// A view of the live directory at `root`.
    pub fn open(root: &str) -> (reader: Reader<'reader>)
        ensures
            forall|names: Seq<Seq<char>>|
                #[trigger] reader.target(names) == Target::Disk(location(root@, names)),
    {
        Reader::Dir(DirReader::open(root.to_owned()))
    }

    /// The view of what lies under `prefix` in this view: what a path names
    /// there is what the prefix, a `/` and the path name here.
    pub fn sub(&'reader self, prefix: &str) -> (reader: Reader<'reader>)
        ensures
            forall|names: Seq<Seq<char>>|
                #[trigger] reader.target(names) == self.target(components(prefix@) + names),
            forall|path: Seq<char>| #[trigger]
                reader.target(components(path)) == self.target(
                    components(prefix@ + seq!['/'] + path),
                ),
    {
        let sub = SubReader::new(self, prefix);
        let ghost inner = sub;
        let reader = Reader::Sub(sub);
        assert forall|names: Seq<Seq<char>>| #[trigger]
            reader.target(names) == self.target(components(prefix@) + names) by {
            assert(reader.target(names) == inner.target(names));
        }
        assert forall|path: Seq<char>| #[trigger]
            reader.target(components(path)) == self.target(
                components(prefix@ + seq!['/'] + path),
            ) by {
            lemma_components_around_slash(prefix@, path);
        }
        reader
    }

    /// The id of the commit whose tree backs the view; none where a live
    /// directory backs it.
    pub fn commit_id(&self) -> (id: Option<git2::Oid>)
        ensures
            match self.target(Seq::<Seq<char>>::empty()) {
                Target::Disk(_) => id is None,
                Target::Tree { commit, .. } => id == Some(commit),
            },
        decreases self,
    {
        match self {
            Reader::Dir(_) => None,
            Reader::Commit(reader) => Some(reader.get_commit_oid()),
            Reader::Sub(reader) => {
                proof {
                    reader.reader.lemma_same_backing(
                        reader.prefix@ + Seq::<Seq<char>>::empty(),
                        Seq::<Seq<char>>::empty(),
                    );
                }
                reader.reader.commit_id()
            },
        }
    }

    /// The store behind a view is the same for every path: a live directory
    /// for all of them, or the tree of one commit for all of them.
    pub proof fn lemma_same_backing(&self, first: Seq<Seq<char>>, second: Seq<Seq<char>>)
        ensures
            self.target(first) is Disk <==> self.target(second) is Disk,
            self.target(first) is Tree ==> self.target(second) is Tree && self.target(
                second,
            )->commit == self.target(first)->commit,
        decreases self,
    {
        match self {
            Reader::Sub(reader) => {
                reader.reader.lemma_same_backing(reader.prefix@ + first, reader.prefix@ + second);
            },
            _ => {},
        }
    }

    /// A view of the tree of `commit`: what a path names in it lies under
    /// that path in the tree of that commit. Where the tree cannot be had,
    /// `TreeNotFound` with the id of the commit.
    pub fn from_commit(
        repository: &'reader git2::Repository,
        commit: &git2::Commit<'reader>,
    ) -> (reader: Result<Reader<'reader>, TreeError>)
        ensures
            reader matches Ok(view) ==> forall|names: Seq<Seq<char>>| #[trigger]
                view.target(names) == (Target::Tree { commit: oid_of(*commit), path: names }),
            reader matches Err(e) ==> e matches TreeError::TreeNotFound(of, _) && of == oid_of(
                *commit,
            ),
    {
        match CommitReader::new(repository, commit) {
            Ok(reader) => Ok(Reader::Commit(reader)),
            Err(e) => Err(e),
        }
    }

    /// Whether something is there under `file_path`: whether a read of it
    /// would not end in `NotFound`. A view of a commit knows; a view of a
    /// live directory hands back the question for the disk, the same with
    /// which a read begins, whose answer is the result.
    pub fn has_entry(&self, file_path: &str) -> (answer: Answer<bool, FileProbe>)
        ensures
            match self.target(components(file_path@)) {
                Target::Disk(place) => answer matches Answer::Ask(probe) && probe@ == place,
                Target::Tree { .. } => answer is Known,
            },
    {
        self.has_entry_at(&RelPath::parse(file_path))
    }

    /// `has_entry`, for a path already read.
    pub fn has_entry_at(&self, path: &RelPath) -> (answer: Answer<bool, FileProbe>)
        ensures
            match self.target(path@) {
                Target::Disk(place) => answer matches Answer::Ask(probe) && probe@ == place,
                Target::Tree { .. } => answer is Known,
            },
        decreases self,
    {
        match self {
            Reader::Dir(reader) => Answer::Ask(reader.has_entry(path)),
            Reader::Commit(reader) => Answer::Known(reader.has_entry(path)),
            Reader::Sub(reader) => reader.has_entry(path),
        }
    }

    /// The content under `path`. A view of a commit knows it, or that
    /// nothing is there; a view of a live directory hands back the first
    /// question for the disk.
    pub fn read(&self, path: &str) -> (answer: Answer<Result<Content, ReadError>, FileProbe>)
        ensures
            match self.target(components(path@)) {
                Target::Disk(place) => answer matches Answer::Ask(probe) && probe@ == place,
                Target::Tree { .. } => answer matches Answer::Known(content) && (
                content matches Err(e) ==> e is NotFound) && (content matches Ok(c)
                    ==> classifies_a_blob(c@)),
            },
    {
        self.read_at(&RelPath::parse(path))
    }

    /// `read`, for a path already read.
    pub fn read_at(&self, path: &RelPath) -> (answer: Answer<Result<Content, ReadError>, FileProbe>)
        ensures
            match self.target(path@) {
                Target::Disk(place) => answer matches Answer::Ask(probe) && probe@ == place,
                Target::Tree { .. } => answer matches Answer::Known(content) && (
                content matches Err(e) ==> e is NotFound) && (content matches Ok(c)
                    ==> classifies_a_blob(c@)),
            },
        decreases self,
    {
        match self {
            Reader::Dir(reader) => Answer::Ask(reader.read(path)),
            Reader::Commit(reader) => Answer::Known(reader.read(path)),
            Reader::Sub(reader) => reader.read(path),
        }
    }

    /// The files under `dir_path`, by their paths relative to it. A view of
    /// a commit knows them; a view of a live directory hands back the walk
    /// that the disk has to make.
    pub fn list_files(&self, dir_path: &str) -> (answer: Answer<
        Result<Vec<RelPath>, TreeError>,
        DirWalk,
    >)
        ensures
            match self.target(components(dir_path@)) {
                Target::Disk(place) => answer matches Answer::Ask(walk) && walk@ == place,
                Target::Tree { .. } => answer matches Answer::Known(files) && (
                files matches Err(e) ==> e is WalkFailed),
            },
    {
        self.list_files_at(&RelPath::parse(dir_path))
    }

    /// `list_files`, for a path already read.
    pub fn list_files_at(&self, dir_path: &RelPath) -> (answer: Answer<
        Result<Vec<RelPath>, TreeError>,
        DirWalk,
    >)
        ensures
            match self.target(dir_path@) {
                Target::Disk(place) => answer matches Answer::Ask(walk) && walk@ == place,
                Target::Tree { .. } => answer matches Answer::Known(files) && (
                files matches Err(e) ==> e is WalkFailed),
            },
        decreases self,
    {
        match self {
            Reader::Dir(reader) => Answer::Ask(reader.list_files(dir_path)),
            Reader::Commit(reader) => Answer::Known(reader.list_files(dir_path)),
            Reader::Sub(reader) => reader.list_files(dir_path),
        }
    }
}

} // verus!
