//! Trusted boundary to the real filesystem.
//!
//! Every function here wraps exactly one call into an outside crate (or std)
//! and is the only place where the library touches the world. Each wrapper
//! blocks on the asynchronous call and converts the raw `std::io::Error` into
//! the library's [`IoError`] classification; nothing else happens in a
//! wrapper's body.

use vstd::prelude::*;

verus! {

/// Classified failure of an underlying filesystem call.
///
/// The two distinguished cases are exactly the ones the engine branches on:
/// absence (tolerated when clearing the staging area, and a regular outcome
/// when reading) and prior existence (the trigger for the atomic symlink
/// replacement). Everything else is opaque to the caller.
#[derive(Clone, Copy, Debug, PartialEq, Eq, Structural)]
pub enum IoError {
    /// The target of the call was absent.
    NotFound,
    /// The path the call wanted to create was already occupied.
    AlreadyExists,
    /// Any other failure of the underlying call.
    Other,
}

#[verifier::external_type_specification]
#[verifier::external_body]
pub struct ExFile(async_fs::File);

#[verifier::external_type_specification]
#[verifier::external_body]
pub struct ExStdIoError(std::io::Error);

/// Relies on `std::io::Error::kind` to classify a raw I/O failure into the
/// library's [`IoError`].
#[verifier::external_body]
pub(crate) fn classify(e: std::io::Error) -> (r: IoError) {
    match e.kind() {
        std::io::ErrorKind::NotFound => IoError::NotFound,
        std::io::ErrorKind::AlreadyExists => IoError::AlreadyExists,
        _ => IoError::Other,
    }
}

/// Relies on `async_fs::create_dir_all`: creates the directory and every
/// missing parent; succeeding when the directory already exists.
#[verifier::external_body]
pub(crate) fn create_dir_all(path: &String) -> (r: Result<(), IoError>) {
    futures::executor::block_on(async_fs::create_dir_all(path.as_str())).map_err(classify)
}

/// Relies on `async_fs::remove_dir_all`: removes the directory and all of its
/// contents; fails with `NotFound` when it does not exist.
#[verifier::external_body]
pub(crate) fn remove_dir_all(path: &String) -> (r: Result<(), IoError>) {
    futures::executor::block_on(async_fs::remove_dir_all(path.as_str())).map_err(classify)
}

/// Relies on `async_fs::canonicalize`: on success the returned path is in
/// absolute form (it begins with the root separator on this platform) with
/// all intermediate components normalized and symbolic links resolved. A
/// non-unicode result is reported as a plain failure.
#[verifier::external_body]
pub(crate) fn canonicalize(path: &String) -> (r: Result<String, IoError>)
    ensures
        r matches Ok(p) ==> p@.len() > 0 && p@[0] == '/',
{
    match futures::executor::block_on(async_fs::canonicalize(path.as_str())) {
        Ok(p) => p.into_os_string().into_string().map_err(|_| IoError::Other),
        Err(e) => Err(classify(e)),
    }
}

/// Relies on `async_fs::rename`: atomically renames `src` onto `dst`,
/// replacing whatever entry was there; both must live on the same filesystem.
#[verifier::external_body]
pub(crate) fn rename(src: &String, dst: &String) -> (r: Result<(), IoError>) {
    futures::executor::block_on(async_fs::rename(src.as_str(), dst.as_str())).map_err(classify)
}

/// Relies on `async_fs::unix::symlink`: creates a symbolic link at `dst`
/// pointing to `src`; fails with `AlreadyExists` when `dst` is occupied.
#[verifier::external_body]
pub(crate) fn symlink(src: &String, dst: &String) -> (r: Result<(), IoError>) {
    futures::executor::block_on(async_fs::unix::symlink(src.as_str(), dst.as_str())).map_err(
        classify,
    )
}

/// Relies on `async_fs::File::create`: opens `path` in write-only mode,
/// creating the file if it is missing and truncating it otherwise.
#[verifier::external_body]
pub(crate) fn file_create(path: &String) -> (r: Result<async_fs::File, IoError>) {
    futures::executor::block_on(async_fs::File::create(path.as_str())).map_err(classify)
}

/// Relies on `async_fs::File::open`: opens `path` in read-only mode; fails
/// with `NotFound` when there is no such file.
#[verifier::external_body]
pub(crate) fn file_open(path: &String) -> (r: Result<async_fs::File, IoError>) {
    futures::executor::block_on(async_fs::File::open(path.as_str())).map_err(classify)
}

/// Relies on futures' `AsyncWriteExt::write_all`: writes the whole chunk to
/// the file, or fails with the first underlying error.
#[verifier::external_body]
pub(crate) fn file_write_all(f: &mut async_fs::File, chunk: &Vec<u8>) -> (r: Result<(), IoError>) {
    futures::executor::block_on(futures::io::AsyncWriteExt::write_all(f, chunk.as_slice()))
        .map_err(classify)
}

/// Relies on futures' `AsyncWriteExt::flush`: drives buffered contents to the
/// underlying file.
#[verifier::external_body]
pub(crate) fn file_flush(f: &mut async_fs::File) -> (r: Result<(), IoError>) {
    futures::executor::block_on(futures::io::AsyncWriteExt::flush(f)).map_err(classify)
}

/// Relies on futures' `AsyncReadExt::read`: reads at most `max` bytes from
/// the file's current position; a successful read returns at most as many
/// bytes as were asked for, and an empty result (with `max > 0`) means the
/// end of the file was reached.
#[verifier::external_body]
pub(crate) fn file_read_chunk(f: &mut async_fs::File, max: usize) -> (r: Result<Vec<u8>, IoError>)
    ensures
        r matches Ok(chunk) ==> chunk@.len() <= max,
{
    let mut buf: Vec<u8> = vec![0u8; max];
    match futures::executor::block_on(futures::io::AsyncReadExt::read(f, buf.as_mut_slice())) {
        Ok(n) => {
            buf.truncate(n);
            Ok(buf)
        },
        Err(e) => Err(classify(e)),
    }
}

/// Relies on `uuid::Uuid::new_v4` and its `Display` form: a fresh random
/// identifier rendered as 36 characters of lowercase hexadecimal digits and
/// hyphens — in particular the name never holds a path separator and is no
/// dot-segment, whatever was drawn.
#[verifier::external_body]
pub(crate) fn unique_name() -> (r: String)
    ensures
        r@.len() == 36,
        forall|i: int| 0 <= i < r@.len() ==> r@[i] != '/' && r@[i] != '.',
{
    uuid::Uuid::new_v4().to_string()
}

} // verus!
