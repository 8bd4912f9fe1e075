//! Decision logic of the object-storage protocol layer.
//!
//! The protocol host around this library only has to do three things with a
//! request: validate the untrusted bucket and key strings into a
//! [`RelativePath`], translate the request into one of the engine's
//! operations, and map the outcome back into protocol responses. The first
//! two are pure decisions and live here, verified; the host keeps only the
//! wire plumbing.

use vstd::prelude::*;

use crate::dispatch::Exec;
use crate::path::{path_str_valid, InvalidRelativePathError, RelativePath};
use crate::storage::{CreateFile, CreateSymlink};

verus! {

/// Request metadata key under which the source path of a
/// [`CreateSymlink`] is expected to be provided.
pub const SYMLINK_META_KEY: &'static str = "symlink-to";

/// A storage backend exposed through the object-storage protocol; every
/// operation is dispatched unchanged to the wrapped backend.
#[derive(Clone, Debug)]
pub struct S3<T>(pub T);

impl<Operation, T: Exec<Operation>> Exec<Operation> for S3<T> {
    type Ok = <T as Exec<Operation>>::Ok;

    type Err = <T as Exec<Operation>>::Err;

    open spec fn exec_ensures(
        &self,
        operation: Operation,
        outcome: Result<Self::Ok, Self::Err>,
    ) -> bool {
        self.0.exec_ensures(operation, outcome)
    }

    fn exec(&self, operation: Operation) -> (outcome: Result<Self::Ok, Self::Err>) {
        self.0.exec(operation)
    }
}

/// Parses the provided `bucket` and `key` into a single [`RelativePath`]
/// `bucket/key`. Succeeds exactly when both parts are well-formed relative
/// paths.
pub fn parse_s3_path(bucket: String, key: String) -> (r: Result<
    RelativePath,
    InvalidRelativePathError,
>)
    ensures
        r is Ok <==> path_str_valid(bucket@) && path_str_valid(key@),
        r matches Ok(p) ==> p@ == bucket@ + seq!['/'] + key@,
{
    let b = RelativePath::try_from(bucket)?;
    let k = RelativePath::try_from(key)?;
    Ok(b.join(k))
}

/// The engine operation a store-object request translates to.
pub enum PutObjectOp {
    /// A plain object: write the request body at the target path.
    File(CreateFile),
    /// A symlink request: make the target path point at the named source.
    Symlink(CreateSymlink),
}

/// Translates a store-object request into the engine operation it stands
/// for: a request carrying a source path under the symlink metadata key
/// becomes a [`CreateSymlink`] (after validating that source), every other
/// request becomes a [`CreateFile`] of the body.
pub fn put_object_op(path: RelativePath, symlink_src: Option<String>, body: Vec<Vec<u8>>) -> (r:
    Result<PutObjectOp, InvalidRelativePathError>)
    ensures
        symlink_src is None ==> r == Ok::<PutObjectOp, InvalidRelativePathError>(
            PutObjectOp::File(CreateFile { path: path, bytes: body }),
        ),
        symlink_src matches Some(s) ==> (r is Ok <==> path_str_valid(s@)),
        symlink_src matches Some(s) ==> (r matches Ok(op) ==> (op matches PutObjectOp::Symlink(cs)
            && cs.src@ == s@ && cs.dest == path)),
{
    match symlink_src {
        None => Ok(PutObjectOp::File(CreateFile { path, bytes: body })),
        Some(s) => {
            let src = RelativePath::try_from(s)?;
            Ok(PutObjectOp::Symlink(CreateSymlink { src, dest: path }))
        },
    }
}

} // verus!
