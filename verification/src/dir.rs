//! Views of a live directory. Such a view never touches the file system:
//! it says what has to be asked of the disk, and decides from the answer.

use crate::content::classify;
use crate::content::Content;
use crate::content::ContentView;
use crate::content::MAX_SIZE;
use crate::path::joined;
use crate::path::RelPath;
use crate::reader::ReadError;
use vstd::prelude::*;
use vstd::string::StringExecFns;
use vstd::string::StrSliceExecFns;

verus! {

/// `std::io::Error`, carried as it comes.
#[verifier::external_type_specification]
#[verifier::external_body]
pub struct ExIoError(std::io::Error);

/// The place on disk that the names `names` lead to from `root`: the root
/// itself without names, else the root, a `/` where the root does not end
/// in one, and the names.
pub open spec fn location(root: Seq<char>, names: Seq<Seq<char>>) -> Seq<char> {
    if names.len() == 0 {
        root
    } else if root.len() == 0 {
        joined(names)
    } else if root.last() == '/' {
        root + joined(names)
    } else {
        root + seq!['/'] + joined(names)
    }
}

/// The name of the directory in which git keeps its own data.
pub open spec fn reserved_name() -> Seq<char> {
    ".git"@
}

/// Whether a path leads into the reserved directory, or is it.
pub open spec fn in_reserved(names: Seq<Seq<char>>) -> bool {
    names.len() > 0 && names[0] == reserved_name()
}

/// One entry that a walk of a directory came by.
#[derive(Debug)]
pub struct DirEntry {
    /// The path of the entry, relative to the directory that was walked.
    pub path: RelPath,
    /// Whether the entry is itself a directory.
    pub is_dir: bool,
}

/// What a listing hands out for one entry of a walk: the path of a file
/// outside the reserved directory, nothing for anything else.
pub open spec fn listed_entry(entry: DirEntry) -> Option<Seq<Seq<char>>> {
    if !entry.is_dir && !in_reserved(entry.path@) {
        Some(entry.path@)
    } else {
        None
    }
}

/// The listing of a directory from the entries of its walk, in their order.
pub open spec fn dir_files(entries: Seq<DirEntry>) -> Seq<Seq<Seq<char>>> {
    entries.filter_map(|entry: DirEntry| listed_entry(entry))
}

/// Whether `file` is the path of an entry that a listing hands out.
pub open spec fn comes_from(file: Seq<Seq<char>>, entries: Seq<DirEntry>) -> bool {
    !in_reserved(file) && exists|i: int|
        0 <= i < entries.len() && !(#[trigger] entries[i]).is_dir && entries[i].path@ == file
}

/// The question whether anything exists at a place on disk.
pub struct FileProbe {
    target: String,
}

/// The question how many bytes the file at a place on disk holds.
pub struct FileStat {
    target: String,
}

/// The request for the bytes of the file at a place on disk.
pub struct FileFetch {
    target: String,
}

/// The request to walk the directory at a place on disk, through all the
/// directories below it.
pub struct DirWalk {
    target: String,
}

impl View for FileProbe {
    type V = Seq<char>;

    closed spec fn view(&self) -> Seq<char> {
        self.target@
    }
}

impl View for FileStat {
    type V = Seq<char>;

    closed spec fn view(&self) -> Seq<char> {
        self.target@
    }
}

impl View for FileFetch {
    type V = Seq<char>;

    closed spec fn view(&self) -> Seq<char> {
        self.target@
    }
}

impl View for DirWalk {
    type V = Seq<char>;

    closed spec fn view(&self) -> Seq<char> {
        self.target@
    }
}

/// How a read goes on once the size of the file is known.
pub enum Measured {
    /// The file is too large to be read: this is its content.
    Done(Content),
    /// The file is to be read.
    Read(FileFetch),
}

impl FileProbe {
    /// The place on disk that is asked about.
    pub fn target(&self) -> (place: &str)
        ensures
            place@ == self@,
    {
        self.target.as_str()
    }

    /// A read goes on with the size of the file where something is there,
    /// and ends with `NotFound` where nothing is.
    pub fn found(self, exists: bool) -> (next: Result<FileStat, ReadError>)
        ensures
            exists ==> (next matches Ok(stat) && stat@ == self@),
            !exists ==> (next matches Err(ReadError::NotFound)),
    {
        if exists {
            Ok(FileStat { target: self.target })
        } else {
            Err(ReadError::NotFound)
        }
    }
}

impl FileStat {
    /// The place on disk that is asked about.
    pub fn target(&self) -> (place: &str)
        ensures
            place@ == self@,
    {
        self.target.as_str()
    }

    /// A file of `MAX_SIZE` bytes or more is `Large` and is not read; a
    /// shorter one is read; a size that could not be had ends the read with
    /// the error of the disk.
    pub fn sized(self, size: Result<u64, std::io::Error>) -> (next: Result<Measured, ReadError>)
        ensures
            match size {
                Ok(n) => if n >= MAX_SIZE {
                    next matches Ok(Measured::Done(content)) && content@ == ContentView::Large
                } else {
                    next matches Ok(Measured::Read(fetch)) && fetch@ == self@
                },
                Err(e) => next matches Err(ReadError::Io(cause)) && cause == e,
            },
    {
        match size {
            Ok(n) => {
                if n >= MAX_SIZE as u64 {
                    Ok(Measured::Done(Content::Large))
                } else {
                    Ok(Measured::Read(FileFetch { target: self.target }))
                }
            },
            Err(e) => Err(ReadError::Io(e)),
        }
    }
}

impl FileFetch {
    /// The place on disk that is asked about.
    pub fn target(&self) -> (place: &str)
        ensures
            place@ == self@,
    {
        self.target.as_str()
    }

    /// The content of the file from its bytes, or the error of the disk
    /// where they could not be had.
    pub fn fetched(self, bytes: Result<Vec<u8>, std::io::Error>) -> (content: Result<
        Content,
        ReadError,
    >)
        ensures
            match bytes {
                Ok(read) => content matches Ok(c) && c@ == classify(read@),
                Err(e) => content matches Err(ReadError::Io(cause)) && cause == e,
            },
    {
        match bytes {
            Ok(read) => Ok(Content::from_bytes(read.as_slice())),
            Err(e) => Err(ReadError::Io(e)),
        }
    }
}

impl DirWalk {
    /// The place on disk that is to be walked.
    pub fn target(&self) -> (place: &str)
        ensures
            place@ == self@,
    {
        self.target.as_str()
    }

    /// The listing from the entries of the walk: every file outside the
    /// reserved directory, in the order of the walk, by its path relative
    /// to the directory walked. No directory is listed, and nothing in the
    /// reserved directory.
    pub fn walked(self, entries: &Vec<DirEntry>) -> (files: Vec<RelPath>)
        ensures
            files.deep_view() == dir_files(entries@),
            forall|k: int| 0 <= k < files.len() ==> comes_from(#[trigger] files[k]@, entries@),
    {
        let ghost pick = |entry: DirEntry| listed_entry(entry);
        let mut files: Vec<RelPath> = Vec::new();
        let mut i: usize = 0;
        assert(entries@.take(0) =~= Seq::<DirEntry>::empty());
        assert(files.deep_view() =~= entries@.take(0).filter_map(pick));
        while i < entries.len()
            invariant
                i <= entries.len(),
                pick == (|entry: DirEntry| listed_entry(entry)),
                files.deep_view() == entries@.take(i as int).filter_map(pick),
                forall|k: int| 0 <= k < files.len() ==> comes_from(#[trigger] files[k]@, entries@),
            decreases entries.len() - i,
        {
            let ghost before = files.deep_view();
            let ghost old_files = files@;
            proof {
                entries@.lemma_filter_map_take_succ(pick, i as int);
            }
            let entry = &entries[i];
            if !entry.is_dir && !entry.path.first_is(".git") {
                files.push(entry.path.clone());
                proof {
                    assert(files.deep_view() =~= before.push(entry.path@));
                    assert(before.push(entry.path@) =~= before + seq![entry.path@]);
                    assert forall|k: int| 0 <= k < files.len() implies comes_from(
                        #[trigger] files[k]@,
                        entries@,
                    ) by {
                        if k < old_files.len() {
                            assert(files[k] == old_files[k]);
                        } else {
                            assert(!entries@[i as int].is_dir);
                            assert(files[k]@ == entries@[i as int].path@);
                        }
                    }
                }
            } else {
                assert(before + Seq::<Seq<Seq<char>>>::empty() =~= before);
            }
            i = i + 1;
        }
        assert(entries@.take(i as int) =~= entries@);
        files
    }
}

/// A view of a live directory.
pub struct DirReader {
    root: String,
}

impl View for DirReader {
    type V = Seq<char>;

    closed spec fn view(&self) -> Seq<char> {
        self.root@
    }
}

impl DirReader {
    /// A view of the directory at `root`.
    pub fn open(root: String) -> (reader: DirReader)
        ensures
            reader@ == root@,
    {
        DirReader { root }
    }

    /// The place on disk of the directory that is viewed.
    pub fn root(&self) -> (root: &str)
        ensures
            root@ == self@,
    {
        self.root.as_str()
    }

    /// The place on disk that `path` leads to.
    pub fn locate(&self, path: &RelPath) -> (place: String)
        ensures
            place@ == location(self@, path@),
    {
        let root = self.root.as_str();
        let length = root.unicode_len();
        if path.is_empty() {
            self.root.clone()
        } else if length == 0 {
            path.to_string()
        } else {
            let mut place = self.root.clone();
            if root.get_char(length - 1) != '/' {
                place.append("/");
                proof {
                    reveal_strlit("/");
                    assert("/"@ =~= seq!['/']);
                }
            }
            let names = path.to_string();
            place.append(names.as_str());
            place
        }
    }

    /// Whether `path` exists is for the disk to say: the question to ask.
    pub fn has_entry(&self, path: &RelPath) -> (probe: FileProbe)
        ensures
            probe@ == location(self@, path@),
    {
        FileProbe { target: self.locate(path) }
    }

    /// A read starts with the question whether `path` exists.
    pub fn read(&self, path: &RelPath) -> (probe: FileProbe)
        ensures
            probe@ == location(self@, path@),
    {
        FileProbe { target: self.locate(path) }
    }

    /// A listing starts with a walk of the directory at `dir_path`.
    pub fn list_files(&self, dir_path: &RelPath) -> (walk: DirWalk)
        ensures
            walk@ == location(self@, dir_path@),
    {
        DirWalk { target: self.locate(dir_path) }
    }
}

} // verus!
