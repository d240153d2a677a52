use vstd::prelude::*;

verus! {

/// Offset of `catalog_version_no` (little-endian `u32`) in the control file.
pub const CATALOG_VERSION_OFFSET: usize = 12;

/// Offset of `checkPoint` (little-endian `u64`) in the control file.
pub const CHECKPOINT_OFFSET: usize = 32;

/// Shortest control file that holds both fields read here.
pub const MIN_CONTROL_FILE_LEN: usize = 40;

/// WAL records start on boundaries of this many bytes.
pub const LSN_ALIGNMENT: u64 = 8;

/// Database major versions whose control files are understood.
#[derive(Clone, Copy, Debug, PartialEq, Eq, Structural)]
pub enum PgMajorVersion {
    PG14,
    PG15,
    PG16,
    PG17,
}

impl PgMajorVersion {
    pub open spec fn spec_major(self) -> u32 {
        match self {
            PgMajorVersion::PG14 => 14,
            PgMajorVersion::PG15 => 15,
            PgMajorVersion::PG16 => 16,
            PgMajorVersion::PG17 => 17,
        }
    }

    /// The major version number, e.g. 16.
    pub fn major(&self) -> (r: u32)
        ensures
            r == self.spec_major(),
    {
        match self {
            PgMajorVersion::PG14 => 14,
            PgMajorVersion::PG15 => 15,
            PgMajorVersion::PG16 => 16,
            PgMajorVersion::PG17 => 17,
        }
    }
}

/// The catalog versions of each supported release (from catversion.h).
pub open spec fn version_of_catalog(catalog_version: u32) -> Option<PgMajorVersion> {
    if catalog_version == 202107181 {
        Some(PgMajorVersion::PG14)
    } else if catalog_version == 202209061 {
        Some(PgMajorVersion::PG15)
    } else if catalog_version == 202307071 {
        Some(PgMajorVersion::PG16)
    } else if catalog_version == 202406281 {
        Some(PgMajorVersion::PG17)
    } else {
        None
    }
}

/// Maps a catalog version to its major version, by exact match.
pub fn pg_version_of_catalog(catalog_version: u32) -> (r: Option<PgMajorVersion>)
    ensures
        r == version_of_catalog(catalog_version),
{
    match catalog_version {
        202107181 => Some(PgMajorVersion::PG14),
        202209061 => Some(PgMajorVersion::PG15),
        202307071 => Some(PgMajorVersion::PG16),
        202406281 => Some(PgMajorVersion::PG17),
        _ => None,
    }
}

/// A position in the write-ahead log.
#[derive(Clone, Copy, Debug, PartialEq, Eq, Structural)]
pub struct Lsn(pub u64);

pub open spec fn align_down(v: u64) -> u64 {
    (v as int - (v as int) % (LSN_ALIGNMENT as int)) as u64
}

impl Lsn {
    /// The nearest record boundary at or below this position.
    pub fn floor_aligned(self) -> (r: Lsn)
        ensures
            r.0 == align_down(self.0),
            r.0 <= self.0,
            r.0 % LSN_ALIGNMENT == 0,
            self.0 - r.0 < LSN_ALIGNMENT,
    {
        Lsn(self.0 - self.0 % LSN_ALIGNMENT)
    }
}

/// Little-endian `u32` at `off`.
pub open spec fn le_u32(b: Seq<u8>, off: int) -> u32 {
    (b[off] as int + 256 * b[off + 1] as int + 65536 * b[off + 2] as int + 16777216
        * b[off + 3] as int) as u32
}

/// Little-endian `u64` at `off`.
pub open spec fn le_u64(b: Seq<u8>, off: int) -> u64 {
    (le_u32(b, off) as int + 4294967296 * le_u32(b, off + 4) as int) as u64
}

fn read_le_u32(b: &Vec<u8>, off: usize) -> (r: u32)
    requires
        off + 4 <= b@.len(),
        off <= CHECKPOINT_OFFSET + 4,
    ensures
        r == le_u32(b@, off as int),
{
    let b0 = b[off] as u64;
    let b1 = b[off + 1] as u64;
    let b2 = b[off + 2] as u64;
    let b3 = b[off + 3] as u64;
    assert(b0 + 256 * b1 + 65536 * b2 + 16777216 * b3 < 4294967296) by (nonlinear_arith)
        requires
            b0 < 256,
            b1 < 256,
            b2 < 256,
            b3 < 256,
    ;
    (b0 + 256 * b1 + 65536 * b2 + 16777216 * b3) as u32
}

fn read_le_u64(b: &Vec<u8>, off: usize) -> (r: u64)
    requires
        off + 8 <= b@.len(),
        off <= CHECKPOINT_OFFSET,
    ensures
        r == le_u64(b@, off as int),
{
    let lo = read_le_u32(b, off) as u64;
    let hi = read_le_u32(b, off + 4) as u64;
    assert(lo + 4294967296 * hi <= u64::MAX) by (nonlinear_arith)
        requires
            lo < 4294967296,
            hi < 4294967296,
    ;
    lo + 4294967296 * hi
}

/// Catalog version recorded in a control file's bytes.
pub open spec fn catalog_version_of(b: Seq<u8>) -> u32 {
    le_u32(b, CATALOG_VERSION_OFFSET as int)
}

/// Raw checkpoint position recorded in a control file's bytes.
pub open spec fn checkpoint_of(b: Seq<u8>) -> u64 {
    le_u64(b, CHECKPOINT_OFFSET as int)
}

/// The bytes hold both fields and a supported catalog version.
pub open spec fn decodable(b: Seq<u8>) -> bool {
    b.len() >= MIN_CONTROL_FILE_LEN && version_of_catalog(catalog_version_of(b)) is Some
}

/// A control file long enough to hold its fields decodes exactly when its
/// catalog version is one of the four known ones, and each of them names
/// its release: 14, 15, 16 and 17 in turn.
pub proof fn lemma_catalog_version_table(b: Seq<u8>)
    requires
        b.len() >= MIN_CONTROL_FILE_LEN,
    ensures
        decodable(b) <==> (catalog_version_of(b) == 202107181 || catalog_version_of(b) == 202209061
            || catalog_version_of(b) == 202307071 || catalog_version_of(b) == 202406281),
        catalog_version_of(b) == 202107181 ==> version_of_catalog(catalog_version_of(b)).unwrap().spec_major() == 14,
        catalog_version_of(b) == 202209061 ==> version_of_catalog(catalog_version_of(b)).unwrap().spec_major() == 15,
        catalog_version_of(b) == 202307071 ==> version_of_catalog(catalog_version_of(b)).unwrap().spec_major() == 16,
        catalog_version_of(b) == 202406281 ==> version_of_catalog(catalog_version_of(b)).unwrap().spec_major() == 17,
{
}

/// Why a control file was refused.
#[derive(Clone, Copy, Debug, PartialEq, Eq, Structural)]
pub enum ControlFileError {
    /// Too few bytes to hold the fields read.
    Truncated { len: usize },
    /// The catalog version matches no supported release.
    UnrecognizedCatalogVersion { catalog_version: u32 },
}

/// A decoded control file whose version was validated at construction.
pub struct ControlFile {
    buf: Vec<u8>,
    catalog_version: u32,
    check_point: u64,
    pg_version: PgMajorVersion,
}

impl View for ControlFile {
    type V = Seq<u8>;

    closed spec fn view(&self) -> Seq<u8> {
        self.buf@
    }
}

impl ControlFile {
    #[verifier::type_invariant]
    spec fn inv(&self) -> bool {
        &&& self.buf@.len() >= MIN_CONTROL_FILE_LEN
        &&& self.catalog_version == catalog_version_of(self.buf@)
        &&& self.check_point == checkpoint_of(self.buf@)
        &&& version_of_catalog(self.catalog_version) == Some(self.pg_version)
    }

    /// Decodes a control file; fails unless it is long enough and its
    /// catalog version is one of the supported ones.
    pub fn new(control_file_buf: Vec<u8>) -> (r: Result<ControlFile, ControlFileError>)
        ensures
            r is Ok <==> decodable(control_file_buf@),
            r matches Ok(c) ==> c@ == control_file_buf@,
            control_file_buf@.len() < MIN_CONTROL_FILE_LEN ==> r == Err::<ControlFile, _>(
                ControlFileError::Truncated { len: control_file_buf@.len() as usize },
            ),
            control_file_buf@.len() >= MIN_CONTROL_FILE_LEN && !decodable(control_file_buf@)
                ==> r == Err::<ControlFile, _>(
                ControlFileError::UnrecognizedCatalogVersion {
                    catalog_version: catalog_version_of(control_file_buf@),
                },
            ),
    {
        if control_file_buf.len() < MIN_CONTROL_FILE_LEN {
            return Err(ControlFileError::Truncated { len: control_file_buf.len() });
        }
        let catalog_version = read_le_u32(&control_file_buf, CATALOG_VERSION_OFFSET);
        let check_point = read_le_u64(&control_file_buf, CHECKPOINT_OFFSET);
        match pg_version_of_catalog(catalog_version) {
            Some(pg_version) => Ok(
                ControlFile { buf: control_file_buf, catalog_version, check_point, pg_version },
            ),
            None => Err(ControlFileError::UnrecognizedCatalogVersion { catalog_version }),
        }
    }

    /// The checkpoint position, aligned down to a record boundary.
    pub fn base_lsn(&self) -> (r: Lsn)
        ensures
            r.0 == align_down(checkpoint_of(self@)),
    {
        proof {
            use_type_invariant(self);
        }
        Lsn(self.check_point).floor_aligned()
    }

    /// The major version; infallible, as construction validated it.
    pub fn pg_version(&self) -> (r: PgMajorVersion)
        ensures
            version_of_catalog(catalog_version_of(self@)) == Some(r),
            decodable(self@),
    {
        proof {
            use_type_invariant(self);
        }
        self.pg_version
    }

    /// The catalog version read from the file.
    pub fn catalog_version(&self) -> (r: u32)
        ensures
            r == catalog_version_of(self@),
    {
        proof {
            use_type_invariant(self);
        }
        self.catalog_version
    }

    /// The bytes the control file was decoded from.
    pub fn control_file_buf(&self) -> (r: &Vec<u8>)
        ensures
            r@ == self@,
    {
        &self.buf
    }
}

} // verus!
