use import_access::control::{ControlFile, ControlFileError, Lsn, PgMajorVersion};

fn control_bytes(catalog_version: u32, checkpoint: u64, len: usize) -> Vec<u8> {
    let mut b = vec![0u8; len];
    b[12..16].copy_from_slice(&catalog_version.to_le_bytes());
    b[32..40].copy_from_slice(&checkpoint.to_le_bytes());
    b
}

#[test]
fn recognized_catalog_versions_decode() {
    let table = [
        (202107181u32, PgMajorVersion::PG14, 14u32),
        (202209061, PgMajorVersion::PG15, 15),
        (202307071, PgMajorVersion::PG16, 16),
        (202406281, PgMajorVersion::PG17, 17),
    ];
    for (catalog, version, major) in table {
        let cf = ControlFile::new(control_bytes(catalog, 0x100, 8192)).unwrap();
        assert_eq!(cf.pg_version(), version);
        assert_eq!(cf.pg_version().major(), major);
        assert_eq!(cf.catalog_version(), catalog);
    }
}

#[test]
fn unrecognized_catalog_version_is_refused() {
    for catalog in [0u32, 202107180, 202107182, 202406282, u32::MAX] {
        let r = ControlFile::new(control_bytes(catalog, 0x100, 8192));
        assert_eq!(
            r.err(),
            Some(ControlFileError::UnrecognizedCatalogVersion { catalog_version: catalog })
        );
    }
}

#[test]
fn truncated_control_file_is_refused() {
    let r = ControlFile::new(vec![0u8; 39]);
    assert_eq!(r.err(), Some(ControlFileError::Truncated { len: 39 }));
    let r = ControlFile::new(Vec::new());
    assert_eq!(r.err(), Some(ControlFileError::Truncated { len: 0 }));
}

#[test]
fn shortest_control_file_decodes() {
    let cf = ControlFile::new(control_bytes(202307071, 0x28, 40)).unwrap();
    assert_eq!(cf.base_lsn(), Lsn(0x28));
    assert_eq!(cf.control_file_buf().len(), 40);
}

#[test]
fn base_lsn_is_aligned_down() {
    let cf = ControlFile::new(control_bytes(202307071, 0x0000_0001_6B37_4D4F, 8192)).unwrap();
    assert_eq!(cf.base_lsn(), Lsn(0x0000_0001_6B37_4D48));
    let cf = ControlFile::new(control_bytes(202307071, 0x0123_4567_89AB_CDE8, 8192)).unwrap();
    assert_eq!(cf.base_lsn(), Lsn(0x0123_4567_89AB_CDE8));
    let cf = ControlFile::new(control_bytes(202307071, u64::MAX, 8192)).unwrap();
    assert_eq!(cf.base_lsn(), Lsn(u64::MAX - 7));
}

#[test]
fn lsn_floor_aligned() {
    assert_eq!(Lsn(0).floor_aligned(), Lsn(0));
    assert_eq!(Lsn(7).floor_aligned(), Lsn(0));
    assert_eq!(Lsn(8).floor_aligned(), Lsn(8));
    assert_eq!(Lsn(17).floor_aligned(), Lsn(16));
}

#[test]
fn control_file_keeps_its_bytes() {
    let b = control_bytes(202406281, 0x1234, 64);
    let cf = ControlFile::new(b.clone()).unwrap();
    assert_eq!(cf.control_file_buf(), &b);
}
