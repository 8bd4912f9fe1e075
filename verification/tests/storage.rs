use baza::{
    symlink_follow_up, CreateFile, CreateSymlink, Exec, GetFile, IoError, RelativePath, Storage,
    SymlinkFollowUp, S3,
};

fn rel(s: &str) -> RelativePath {
    RelativePath::try_from(s.to_string()).unwrap()
}

/// A root directory of its own per test, wiped before the test runs.
fn fresh_root(name: &str) -> String {
    let root = format!("/tmp/baza_test_{name}");
    let _ = futures::executor::block_on(async_fs::remove_dir_all(&root));
    root
}

/// Reads a stored file through the engine, streaming it chunk by chunk.
fn read_all(storage: &Storage, path: &str, max: usize) -> Option<Vec<u8>> {
    let handle = storage.exec(GetFile { path: rel(path) }).expect("get");
    let mut f = handle?;
    let mut out = Vec::new();
    loop {
        let chunk = f.read_chunk(max).expect("read_chunk");
        if chunk.is_empty() {
            break;
        }
        assert!(chunk.len() <= max);
        out.extend_from_slice(&chunk);
    }
    Some(out)
}

fn read_on_disk(path: &str) -> Vec<u8> {
    futures::executor::block_on(async_fs::read(path)).expect("on-disk read")
}

#[test]
fn create_file_writes_chunks_in_order() {
    let root = fresh_root("create_file");
    let storage = Storage::new(root.clone()).expect("storage");

    storage
        .exec(CreateFile { path: rel("a/b/c.txt"), bytes: vec![b"AB".to_vec(), b"CD".to_vec()] })
        .expect("create");

    assert_eq!(read_all(&storage, "a/b/c.txt", 1024).expect("present"), b"ABCD");
    assert_eq!(read_on_disk(&format!("{root}/data/a/b/c.txt")), b"ABCD");
}

#[test]
fn create_file_with_no_chunks_is_empty() {
    let root = fresh_root("create_empty");
    let storage = Storage::new(root).expect("storage");

    storage.exec(CreateFile { path: rel("empty.bin"), bytes: vec![] }).expect("create");

    assert_eq!(read_all(&storage, "empty.bin", 16).expect("present"), Vec::<u8>::new());
}

#[test]
fn create_file_replaces_previous_content() {
    let root = fresh_root("replace_file");
    let storage = Storage::new(root).expect("storage");

    storage
        .exec(CreateFile { path: rel("o.bin"), bytes: vec![b"long content".to_vec()] })
        .expect("create");
    storage.exec(CreateFile { path: rel("o.bin"), bytes: vec![b"x".to_vec()] }).expect("replace");

    assert_eq!(read_all(&storage, "o.bin", 64).expect("present"), b"x");
}

#[test]
fn symlink_resolves_to_source_content() {
    let root = fresh_root("symlink");
    let storage = Storage::new(root).expect("storage");

    storage
        .exec(CreateFile { path: rel("objects/a.bin"), bytes: vec![vec![1, 2], vec![3]] })
        .expect("create");
    storage
        .exec(CreateSymlink { src: rel("objects/a.bin"), dest: rel("objects/alias.bin") })
        .expect("symlink");

    assert_eq!(read_all(&storage, "objects/alias.bin", 1024).expect("present"), vec![1, 2, 3]);
}

#[test]
fn recreating_symlink_switches_target() {
    let root = fresh_root("retarget");
    let storage = Storage::new(root).expect("storage");

    storage
        .exec(CreateFile { path: rel("objects/a.bin"), bytes: vec![vec![1, 2], vec![3]] })
        .expect("create a");
    storage
        .exec(CreateSymlink { src: rel("objects/a.bin"), dest: rel("objects/alias.bin") })
        .expect("first symlink");
    assert_eq!(read_all(&storage, "objects/alias.bin", 1024).expect("present"), vec![1, 2, 3]);

    storage
        .exec(CreateFile { path: rel("objects/b.bin"), bytes: vec![vec![9, 9]] })
        .expect("create b");
    storage
        .exec(CreateSymlink { src: rel("objects/b.bin"), dest: rel("objects/alias.bin") })
        .expect("re-create symlink");

    // The link path stays continuously occupied and now serves b's bytes.
    assert_eq!(read_all(&storage, "objects/alias.bin", 1024).expect("present"), vec![9, 9]);
}

#[test]
fn symlink_source_need_not_exist() {
    let root = fresh_root("dangling");
    let storage = Storage::new(root).expect("storage");

    storage
        .exec(CreateSymlink { src: rel("not/yet/there.bin"), dest: rel("links/early.bin") })
        .expect("symlink");

    // Reading through the dangling link is absence, not an error.
    assert!(read_all(&storage, "links/early.bin", 64).is_none());

    // Once the source appears, the same link serves its bytes.
    storage
        .exec(CreateFile { path: rel("not/yet/there.bin"), bytes: vec![vec![7]] })
        .expect("create");
    assert_eq!(read_all(&storage, "links/early.bin", 64).expect("present"), vec![7]);
}

#[test]
fn read_missing_returns_absent() {
    let root = fresh_root("missing");
    let storage = Storage::new(root).expect("storage");

    let got = storage.exec(GetFile { path: rel("never/created.bin") }).expect("get");
    assert!(got.is_none());
}

#[test]
fn read_streams_exact_bytes_in_order() {
    let root = fresh_root("stream");
    let storage = Storage::new(root).expect("storage");

    let bytes: Vec<u8> = (0..5000u32).map(|i| (i % 251) as u8).collect();
    let chunks: Vec<Vec<u8>> = bytes.chunks(617).map(|c| c.to_vec()).collect();
    storage.exec(CreateFile { path: rel("big.bin"), bytes: chunks }).expect("create");

    assert_eq!(read_all(&storage, "big.bin", 7).expect("present"), bytes);
    assert_eq!(read_all(&storage, "big.bin", 4096).expect("present"), bytes);
}

#[test]
fn restart_clears_staging_and_keeps_data() {
    let root = fresh_root("restart");
    let storage = Storage::new(root.clone()).expect("storage");

    storage.exec(CreateFile { path: rel("keep.bin"), bytes: vec![vec![5]] }).expect("create");

    let marker = format!("{root}/tmp/stale_entry");
    futures::executor::block_on(async_fs::write(&marker, b"stale")).expect("marker");

    let storage2 = Storage::new(root).expect("storage again");
    let gone = futures::executor::block_on(async_fs::read(&marker));
    assert!(gone.is_err(), "staging area must be cleared on startup");
    assert_eq!(read_all(&storage2, "keep.bin", 64).expect("present"), vec![5]);
}

#[test]
fn read_error_other_than_absence_is_surfaced() {
    let root = fresh_root("not_a_dir");
    let storage = Storage::new(root).expect("storage");

    storage.exec(CreateFile { path: rel("plain.bin"), bytes: vec![vec![1]] }).expect("create");

    // `plain.bin/inner` runs through a regular file: not absence, a hard error.
    match storage.exec(GetFile { path: rel("plain.bin/inner") }) {
        Err(e) => assert_eq!(e, IoError::Other),
        Ok(_) => panic!("expected a hard error"),
    }
}

#[test]
fn create_file_under_a_file_errors() {
    let root = fresh_root("blocked_parent");
    let storage = Storage::new(root).expect("storage");

    storage.exec(CreateFile { path: rel("block"), bytes: vec![vec![1]] }).expect("create");

    let res = storage.exec(CreateFile { path: rel("block/x/y.bin"), bytes: vec![vec![2]] });
    assert!(res.is_err());
}

#[test]
fn storage_new_fails_when_data_area_is_blocked() {
    let root = fresh_root("blocked_data");
    futures::executor::block_on(async_fs::create_dir_all(&root)).expect("mk root");
    futures::executor::block_on(async_fs::write(format!("{root}/data"), b"file")).expect("block");

    assert!(Storage::new(root).is_err());
}

#[test]
fn symlink_follow_up_selects_the_replace_branch() {
    assert_eq!(symlink_follow_up(Ok(())), SymlinkFollowUp::Done);
    assert_eq!(symlink_follow_up(Err(IoError::AlreadyExists)), SymlinkFollowUp::Replace);
    assert_eq!(symlink_follow_up(Err(IoError::NotFound)), SymlinkFollowUp::Fail(IoError::NotFound));
    assert_eq!(symlink_follow_up(Err(IoError::Other)), SymlinkFollowUp::Fail(IoError::Other));
}

#[test]
fn s3_wrapper_dispatches_to_backend() {
    let root = fresh_root("s3_wrap");
    let s3 = S3(Storage::new(root).expect("storage"));

    s3.exec(CreateFile { path: rel("via/s3.bin"), bytes: vec![b"ok".to_vec()] }).expect("create");

    let mut f = s3.exec(GetFile { path: rel("via/s3.bin") }).expect("get").expect("present");
    let chunk = f.read_chunk(16).expect("read");
    assert_eq!(chunk, b"ok");
}
