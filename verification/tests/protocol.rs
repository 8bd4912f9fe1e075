use baza::{parse_s3_path, put_object_op, Builder, PutObjectOp, RelativePath, SYMLINK_META_KEY};

fn rel(s: &str) -> RelativePath {
    RelativePath::try_from(s.to_string()).unwrap()
}

#[test]
fn parse_s3_path_joins_bucket_and_key() {
    let p = parse_s3_path("data".to_string(), "x/y.jpg".to_string()).unwrap();
    assert_eq!(p.as_str(), "data/x/y.jpg");
}

#[test]
fn parse_s3_path_rejects_invalid_key() {
    assert!(parse_s3_path("data".to_string(), "/invalid/../".to_string()).is_err());
    assert!(parse_s3_path("data".to_string(), "".to_string()).is_err());
    assert!(parse_s3_path("/data".to_string(), "x".to_string()).is_err());
}

#[test]
fn put_object_without_metadata_is_a_file_write() {
    let chunks = vec![b"bytes".to_vec()];
    let op = put_object_op(rel("data/my.jpg"), None, chunks.clone()).unwrap();
    match op {
        PutObjectOp::File(cf) => {
            assert_eq!(cf.path.as_str(), "data/my.jpg");
            assert_eq!(cf.bytes, chunks);
        },
        PutObjectOp::Symlink(_) => panic!("expected a file write"),
    }
}

#[test]
fn put_object_with_symlink_metadata_is_a_symlink() {
    assert_eq!(SYMLINK_META_KEY, "symlink-to");
    let op = put_object_op(
        rel("links/alias.jpg"),
        Some("objects/my.jpg".to_string()),
        vec![],
    )
    .unwrap();
    match op {
        PutObjectOp::Symlink(cs) => {
            assert_eq!(cs.src.as_str(), "objects/my.jpg");
            assert_eq!(cs.dest.as_str(), "links/alias.jpg");
        },
        PutObjectOp::File(_) => panic!("expected a symlink"),
    }
}

#[test]
fn put_object_with_invalid_symlink_source_errors() {
    assert!(put_object_op(rel("links/alias.jpg"), Some("../up".to_string()), vec![]).is_err());
    assert!(put_object_op(rel("links/alias.jpg"), Some("".to_string()), vec![]).is_err());
}

#[test]
fn builder_calls_are_identities() {
    let b = Builder::new_current_thread();
    assert_eq!(b.enable_all(), b);
    assert_eq!(b.enable_all().enable_all(), b);
    assert_eq!(Builder::new_current_thread().enable_all(), b);
}
