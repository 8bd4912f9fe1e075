//! Filesystem-backed object storage engine.
//!
//! The crate stores objects as plain files under a sandboxed root directory.
//! Every externally supplied path must pass through [`RelativePath`], the
//! validated path type that rules out directory escape. The [`Storage`] engine
//! owns a durable data area and a disposable staging area and executes three
//! operation kinds — [`CreateFile`], [`CreateSymlink`] and [`GetFile`] —
//! through the typed dispatch interface [`Exec`]. Symlinks are created or
//! re-targeted atomically by staging the new link beside the data and renaming
//! it into place, so a concurrent reader never observes a missing link.

pub mod dispatch;
pub mod fs;
pub mod path;
pub mod runtime;
pub mod s3;
pub mod storage;

pub use dispatch::Exec;
pub use fs::IoError;
pub use path::{InvalidRelativePathError, RelativePath};
pub use runtime::Builder;
pub use s3::{parse_s3_path, put_object_op, PutObjectOp, S3, SYMLINK_META_KEY};
pub use storage::{
    symlink_follow_up, CreateFile, CreateSymlink, GetFile, ReadOnlyFile, Storage, SymlinkFollowUp,
};
