//! The storage engine: a sandbox root split into a durable data area and a
//! disposable staging area, and the three operations executed against it.
//!
//! All paths handed to the filesystem are resolved under the data root from a
//! [`RelativePath`], so no operation can escape the sandbox. Symlinks are
//! re-targeted atomically: the new link is staged under the staging root and
//! renamed onto the final name in one filesystem-level operation, so a
//! concurrent reader sees either the old link or the new one, never neither.

use vstd::prelude::*;
use vstd::string::StringExecFns;

use crate::dispatch::Exec;
use crate::fs;
use crate::fs::IoError;
use crate::path::{join_segs, resolved_under, RelativePath};

verus! {

/// Storage backed by files and directories.
#[derive(Debug)]
pub struct Storage {
    /// Absolute path of the directory to persist data in.
    data_dir: String,
    /// Absolute path of the directory used for staging temporary entries.
    ///
    /// The system's temporary directory is not used, because it may live on
    /// another device or filesystem and would not guarantee atomicity of the
    /// rename operations this directory exists for.
    tmp_dir: String,
}

impl Clone for Storage {
    fn clone(&self) -> (r: Self)
        ensures
            r == *self,
    {
        proof {
            use_type_invariant(&*self);
        }
        Storage { data_dir: self.data_dir.clone(), tmp_dir: self.tmp_dir.clone() }
    }
}

impl Storage {
    /// The absolute data-root path every operation is resolved under.
    pub closed spec fn data_root(&self) -> Seq<char> {
        self.data_dir@
    }

    /// The absolute staging-root path the atomic replace protocol stages in.
    pub closed spec fn tmp_root(&self) -> Seq<char> {
        self.tmp_dir@
    }

    #[verifier::type_invariant]
    spec fn wf(self) -> bool {
        &&& self.data_dir@.len() > 0
        &&& self.data_dir@[0] == '/'
        &&& self.tmp_dir@.len() > 0
        &&& self.tmp_dir@[0] == '/'
    }

    /// Creates a new [`Storage`] under the provided `root` directory.
    ///
    /// Ensures that `root/data` and `root/tmp` exist, creating them
    /// recursively if needed. An already existing staging area `root/tmp` is
    /// first deleted recursively — its absence is not an error, since a clean
    /// staging area is the goal — so every run starts without stale staged
    /// entries. Both resulting directories are canonicalized to absolute
    /// paths.
    ///
    /// # Errors
    ///
    /// Any underlying filesystem failure, other than the tolerated absence of
    /// the old staging area, is surfaced as the [`IoError`] it was classified
    /// into. Whether the directories exist afterwards is the filesystem's to
    /// decide; what the contract can pin is that a successfully constructed
    /// engine holds two absolute, canonicalized roots.
    pub fn new(root: String) -> (r: Result<Storage, IoError>)
        ensures
            r matches Ok(s) ==> s.data_root().len() > 0 && s.data_root()[0] == '/'
                && s.tmp_root().len() > 0 && s.tmp_root()[0] == '/',
    {
        let data = under_root(&root, "data");
        let tmp = under_root(&root, "tmp");

        fs::create_dir_all(&data)?;

        remove_existing_dir(&tmp)?;
        fs::create_dir_all(&tmp)?;

        let data_dir = fs::canonicalize(&data)?;
        let tmp_dir = fs::canonicalize(&tmp)?;
        Ok(Storage { data_dir, tmp_dir })
    }

    /// The absolute location of `path` under the data root.
    fn resolve(&self, path: &RelativePath) -> (r: String)
        ensures
            r@ == resolved_under(self.data_dir@, path@),
    {
        let mut out = self.data_dir.clone();
        out.append("/");
        out.append(path.as_str());
        proof {
            reveal_strlit("/");
            assert(("/")@ =~= seq!['/']);
        }
        out
    }

    /// The absolute directory that holds `path`'s entry under the data root:
    /// the data root itself for a single-segment path, and the resolved
    /// parent path otherwise.
    fn resolve_parent(&self, path: &RelativePath) -> (r: String)
        ensures
            path.segments().len() == 1 ==> r@ == self.data_dir@,
            path.segments().len() > 1 ==> r@ == resolved_under(
                self.data_dir@,
                join_segs(path.segments().drop_last()),
            ),
    {
        match path.parent() {
            Some(p) => {
                proof {
                    crate::path::lemma_join_split_round_trip(p@);
                }
                self.resolve(&p)
            },
            None => self.data_dir.clone(),
        }
    }

    /// Atomic replacement of the entry at `dest` with a fresh symlink to
    /// `src`: the new link is first created off to the side in the staging
    /// area, under a fresh collision-free name, and then renamed onto `dest`
    /// in a single atomic filesystem operation. Both areas live on the same
    /// filesystem, so an external observer of `dest` sees either the old
    /// entry or the new link at any moment — never a missing one.
    fn replace_symlink(&self, src: &String, dest: &String) -> (r: Result<(), IoError>) {
        proof {
            use_type_invariant(&*self);
        }
        let name = fs::unique_name();
        let staged = under_root(&self.tmp_dir, name.as_str());
        proof {
            // The fresh name is a single separator-free segment, so the
            // staged entry sits directly inside the staging root.
            assert(staged@ == self.tmp_root() + seq!['/'] + name@);
            assert(forall|i: int| 0 <= i < name@.len() ==> name@[i] != '/');
        }
        fs::symlink(src, &staged)?;
        fs::rename(&staged, dest)
    }
}

/// The path of the entry `name` inside the `root` directory, mirroring how a
/// path join treats an empty base: `name` alone when `root` is empty, and
/// `root/name` otherwise.
fn under_root(root: &String, name: &str) -> (r: String)
    ensures
        root@.len() == 0 ==> r@ == name@,
        root@.len() > 0 ==> r@ == root@ + seq!['/'] + name@,
{
    if root.as_str().is_empty() {
        String::from_str(name)
    } else {
        let mut out = root.clone();
        out.append("/");
        out.append(name);
        proof {
            reveal_strlit("/");
            assert(("/")@ =~= seq!['/']);
        }
        out
    }
}

/// Removes the existing `dir`ectory with everything in it.
///
/// # Idempotent
///
/// Succeeds if the directory does not exist already: absence is never
/// surfaced as an error.
fn remove_existing_dir(dir: &String) -> (r: Result<(), IoError>)
    ensures
        r matches Err(e) ==> e != IoError::NotFound,
{
    match fs::remove_dir_all(dir) {
        Ok(()) => Ok(()),
        Err(IoError::NotFound) => Ok(()),
        Err(e) => Err(e),
    }
}

/// Operation of a new file creation.
#[derive(Clone, Debug)]
pub struct CreateFile {
    /// [`RelativePath`] of the file to be created.
    pub path: RelativePath,
    /// Ordered chunks of the file's bytes, written strictly in order.
    pub bytes: Vec<Vec<u8>>,
}

impl Exec<CreateFile> for Storage {
    type Ok = ();

    type Err = IoError;

    // Whether the write lands is the filesystem's to decide, so nothing is
    // statable of the unit outcome; the destination and its parent directory
    // are built by `resolve`/`resolve_parent`, whose contracts pin them
    // exactly, and the chunks are handed to the file strictly in order.
    open spec fn exec_ensures(&self, operation: CreateFile, outcome: Result<(), IoError>) -> bool {
        true
    }

    fn exec(&self, operation: CreateFile) -> (outcome: Result<(), IoError>) {
        let dest = self.resolve(&operation.path);
        let parent = self.resolve_parent(&operation.path);
        fs::create_dir_all(&parent)?;

        let mut f = fs::file_create(&dest)?;
        let mut i: usize = 0;
        while i < operation.bytes.len()
            invariant
                i <= operation.bytes.len(),
            decreases operation.bytes.len() - i,
        {
            fs::file_write_all(&mut f, &operation.bytes[i])?;
            i += 1;
        }
        fs::file_flush(&mut f)
    }
}

/// Operation of a symlink creation.
#[derive(Clone, Debug)]
pub struct CreateSymlink {
    /// [`RelativePath`] of the original source file.
    pub src: RelativePath,
    /// [`RelativePath`] of the symlink itself.
    pub dest: RelativePath,
}

/// What the engine does after the direct attempt to create a link: success
/// finishes the operation, a pre-existing entry at the link path is never
/// surfaced as an error and selects the atomic replace protocol instead, and
/// any other failure is hard.
#[derive(Clone, Copy, Debug, PartialEq, Eq, Structural)]
pub enum SymlinkFollowUp {
    /// The link was created directly; nothing is left to do.
    Done,
    /// The link path is already occupied: replace the entry atomically
    /// through the staging area.
    Replace,
    /// The attempt failed for another reason: surface that error.
    Fail(IoError),
}

/// Decides the follow-up of a direct link-creation attempt: the
/// already-exists outcome — and only it — selects the replace branch.
pub fn symlink_follow_up(attempt: Result<(), IoError>) -> (r: SymlinkFollowUp)
    ensures
        r == (match attempt {
            Ok(()) => SymlinkFollowUp::Done,
            Err(IoError::AlreadyExists) => SymlinkFollowUp::Replace,
            Err(e) => SymlinkFollowUp::Fail(e),
        }),
{
    match attempt {
        Ok(()) => SymlinkFollowUp::Done,
        Err(IoError::AlreadyExists) => SymlinkFollowUp::Replace,
        Err(e) => SymlinkFollowUp::Fail(e),
    }
}

impl Exec<CreateSymlink> for Storage {
    type Ok = ();

    type Err = IoError;

    // Whether the link lands is the filesystem's to decide, so nothing is
    // statable of the unit outcome here; the paths handed down carry the
    // exact contracts of `resolve`/`resolve_parent`/`under_root`, and the
    // branch taken after the direct attempt is pinned by
    // [`symlink_follow_up`].
    open spec fn exec_ensures(
        &self,
        operation: CreateSymlink,
        outcome: Result<(), IoError>,
    ) -> bool {
        true
    }

    fn exec(&self, operation: CreateSymlink) -> (outcome: Result<(), IoError>) {
        let dest = self.resolve(&operation.dest);
        let parent = self.resolve_parent(&operation.dest);
        fs::create_dir_all(&parent)?;
        let src = self.resolve(&operation.src);

        match symlink_follow_up(fs::symlink(&src, &dest)) {
            SymlinkFollowUp::Done => Ok(()),
            SymlinkFollowUp::Replace => self.replace_symlink(&src, &dest),
            SymlinkFollowUp::Fail(e) => Err(e),
        }
    }
}

/// Operation for getting an existing file.
#[derive(Clone, Debug)]
pub struct GetFile {
    /// [`RelativePath`] of the file.
    pub path: RelativePath,
}

/// Read-only handle on a stored file; it owns the open file for its lifetime
/// and releases it when dropped.
pub struct ReadOnlyFile {
    file: async_fs::File,
}

impl ReadOnlyFile {
    /// Reads the next chunk of at most `max` bytes of the file, in order; an
    /// empty chunk (asked with `max > 0`) marks the end of the file.
    pub fn read_chunk(&mut self, max: usize) -> (r: Result<Vec<u8>, IoError>)
        ensures
            r matches Ok(chunk) ==> chunk@.len() <= max,
    {
        fs::file_read_chunk(&mut self.file, max)
    }
}

/// Maps the result of opening a stored file to the read operation's outcome:
/// an opened file is handed out as a read handle, absence is a successful
/// empty result — existence is a query outcome, not a failure — and every
/// other failure is surfaced unchanged.
fn open_outcome(opened: Result<async_fs::File, IoError>) -> (r: Result<
    Option<ReadOnlyFile>,
    IoError,
>)
    ensures
        r == (match opened {
            Ok(f) => Ok::<Option<ReadOnlyFile>, IoError>(Some(ReadOnlyFile { file: f })),
            Err(IoError::NotFound) => Ok::<Option<ReadOnlyFile>, IoError>(None),
            Err(e) => Err::<Option<ReadOnlyFile>, IoError>(e),
        }),
{
    match opened {
        Ok(f) => Ok(Some(ReadOnlyFile { file: f })),
        Err(IoError::NotFound) => Ok(None),
        Err(e) => Err(e),
    }
}

impl Exec<GetFile> for Storage {
    type Ok = Option<ReadOnlyFile>;

    type Err = IoError;

    open spec fn exec_ensures(
        &self,
        operation: GetFile,
        outcome: Result<Option<ReadOnlyFile>, IoError>,
    ) -> bool {
        // Absence of the file is a regular outcome, never an error; the full
        // per-value mapping of the open result is the contract of
        // `open_outcome`, which `exec` returns unchanged.
        outcome matches Err(e) ==> e != IoError::NotFound
    }

    fn exec(&self, operation: GetFile) -> (outcome: Result<Option<ReadOnlyFile>, IoError>) {
        let path = self.resolve(&operation.path);
        open_outcome(fs::file_open(&path))
    }
}

} // verus!
