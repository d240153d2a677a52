use import_access::control::{Lsn, PgMajorVersion};
use import_access::error::DownloadError;
use import_access::path::{children_in_listing, files_in_listing, Listing, ListingObject, RemotePath};
use import_access::store::{
    control_file_from_fetched, control_file_path, decode_fetched, finish_range, listing_prefix,
    pgdata, range_len, range_request, GetControlFileError,
};

fn path(s: &str) -> RemotePath {
    RemotePath::from_string(s).unwrap()
}

#[test]
fn range_of_exact_length_is_returned() {
    let object: Vec<u8> = (0u8..32).collect();
    let served = object[4..12].to_vec();
    assert_eq!(range_len(4, 12), 8);
    assert_eq!(finish_range(4, 12, 32, served.clone()), Ok(served));
    assert_eq!(finish_range(5, 5, 32, Vec::new()), Ok(Vec::new()));
    assert_eq!(finish_range(0, 32, 32, object.clone()), Ok(object));
}

#[test]
fn short_range_fails() {
    let object: Vec<u8> = (0u8..10).collect();
    let served = object[4..10].to_vec();
    assert_eq!(finish_range(4, 12, 10, served), Err(DownloadError::Other));
}

#[test]
fn empty_range_past_end_fails() {
    assert_eq!(finish_range(5, 5, 3, Vec::new()), Err(DownloadError::Other));
    assert_eq!(finish_range(0, 0, 0, Vec::new()), Ok(Vec::new()));
}

#[test]
fn wrong_served_length_fails() {
    assert_eq!(finish_range(0, 4, 100, vec![1, 2, 3]), Err(DownloadError::Other));
}

#[test]
fn reversed_range_is_refused() {
    assert_eq!(range_request(12, 4), None);
    assert_eq!(range_request(4, 12), Some(8));
    assert_eq!(range_request(7, 7), Some(0));
}

#[test]
fn decode_absent_is_none() {
    assert!(matches!(decode_fetched(Err(DownloadError::NotFound)), Ok(None)));
}

#[test]
fn decode_well_formed_is_some() {
    let v = decode_fetched(Ok(br#"{"a": 1, "b": [true]}"#.to_vec())).unwrap().unwrap();
    assert_eq!(v["a"], serde_json::Value::from(1));
}

#[test]
fn decode_malformed_is_decode_error() {
    assert!(matches!(decode_fetched(Ok(b"{\"a\": ".to_vec())), Err(DownloadError::Decode)));
    assert!(matches!(decode_fetched(Ok(Vec::new())), Err(DownloadError::Decode)));
}

#[test]
fn decode_passes_other_failures_through() {
    assert!(matches!(decode_fetched(Err(DownloadError::Cancelled)), Err(DownloadError::Cancelled)));
    assert!(matches!(decode_fetched(Err(DownloadError::Other)), Err(DownloadError::Other)));
}

#[test]
fn remote_path_rules() {
    assert!(RemotePath::from_string("/abs").is_none());
    assert!(RemotePath::from_string("").is_some());
    assert!(path("pgdata/base/1").has_object_name());
    assert!(!path("pgdata/base/").has_object_name());
    assert!(!path("").has_object_name());
    assert_eq!(path("a/b").add_trailing_slash().as_str(), "a/b/");
    assert_eq!(path("a/b/").add_trailing_slash().as_str(), "a/b/");
    assert_eq!(path("a").join("b/c").as_str(), "a/b/c");
    assert_eq!(path("").join("b").as_str(), "b");
    assert_eq!(pgdata().as_str(), "pgdata");
    assert_eq!(control_file_path().as_str(), "pgdata/global/pg_control");
    assert_eq!(listing_prefix(&path("pgdata/base/1")).as_str(), "pgdata/base/1/");
}

fn sample_listing() -> Listing {
    let mut l = Listing::new();
    l.append_page(Listing {
        keys: vec![ListingObject { key: path("d/a"), size: 3 }],
        prefixes: vec![path("d/x/")],
    });
    l.append_page(Listing {
        keys: vec![ListingObject { key: path("d/b"), size: 0 }],
        prefixes: vec![path("d/y/")],
    });
    l
}

#[test]
fn pages_merge_in_order() {
    let l = sample_listing();
    let files = files_in_listing(&l);
    let files: Vec<(&str, usize)> = files.iter().map(|(p, s)| (p.as_str(), *s)).collect();
    assert_eq!(files, vec![("d/a", 3), ("d/b", 0)]);
    let children = children_in_listing(&l);
    let children: Vec<&str> = children.iter().map(|p| p.as_str()).collect();
    assert_eq!(children, vec!["d/a", "d/b", "d/x/", "d/y/"]);
}

#[test]
fn empty_listing() {
    let l = Listing::new();
    assert!(files_in_listing(&l).is_empty());
    assert!(children_in_listing(&l).is_empty());
}

#[test]
fn import_reads_listing_and_control_file() {
    let dir = path("pgdata/base/1");
    assert!(dir.has_object_name());
    let prefix = listing_prefix(&dir);
    assert_eq!(prefix.as_str(), "pgdata/base/1/");
    let mut listing = Listing::new();
    listing.append_page(Listing {
        keys: vec![ListingObject { key: prefix.join("1"), size: 8192 }],
        prefixes: Vec::new(),
    });
    let files = files_in_listing(&listing);
    assert_eq!(files.len(), 1);
    assert_eq!(files[0].0.as_str(), "pgdata/base/1/1");
    assert_eq!(files[0].1, 8192);

    let mut buf = vec![0u8; 8192];
    buf[12..16].copy_from_slice(&202307071u32.to_le_bytes());
    buf[32..40].copy_from_slice(&0x0000_0000_0149_F0D3u64.to_le_bytes());
    assert_eq!(control_file_path().as_str(), "pgdata/global/pg_control");
    let cf = control_file_from_fetched(Ok(buf)).unwrap();
    assert_eq!(cf.pg_version(), PgMajorVersion::PG16);
    assert_eq!(cf.pg_version().major(), 16);
    assert_eq!(cf.base_lsn(), Lsn(0x0000_0000_0149_F0D0));
}

#[test]
fn control_file_fetch_failures() {
    assert!(matches!(
        control_file_from_fetched(Err(DownloadError::NotFound)),
        Err(GetControlFileError::Download(DownloadError::NotFound))
    ));
    assert!(matches!(
        control_file_from_fetched(Ok(vec![0u8; 64])),
        Err(GetControlFileError::Decode(_))
    ));
}
