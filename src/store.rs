use vstd::prelude::*;

use crate::control::{ControlFile, ControlFileError, decodable};
use crate::error::DownloadError;
use crate::path::{RemotePath, has_object_name_spec, join_spec, with_trailing_slash};

verus! {

#[verifier::external_type_specification]
#[verifier::external_body]
pub struct ExJsonValue(serde_json::Value);

#[verifier::external_type_specification]
#[verifier::external_body]
pub struct ExJsonError(serde_json::Error);

/// Whether `serde_json::from_slice` accepts the bytes as one JSON document.
pub uninterp spec fn json_well_formed(b: Seq<u8>) -> bool;

/// Relies on `serde_json::from_slice`: parses the bytes as a JSON document,
/// and whether it succeeds depends on the bytes alone.
#[verifier::external_body]
fn parse_json(b: &[u8]) -> (r: Result<serde_json::Value, serde_json::Error>)
    ensures
        r is Ok <==> json_well_formed(b@),
{
    serde_json::from_slice::<serde_json::Value>(b)
}

/// Root of the imported data directory in the store.
pub fn pgdata() -> (r: RemotePath)
    ensures
        r@ == "pgdata"@,
{
    proof {
        reveal_strlit("pgdata");
    }
    RemotePath::from_relative("pgdata")
}

/// Fixed location of the control file in the store.
pub fn control_file_path() -> (r: RemotePath)
    ensures
        r@ == "pgdata/global/pg_control"@,
{
    let p = pgdata().join("global/pg_control");
    proof {
        reveal_strlit("pgdata");
        reveal_strlit("global/pg_control");
        reveal_strlit("pgdata/global/pg_control");
        assert(join_spec("pgdata"@, "global/pg_control"@) =~= "pgdata/global/pg_control"@);
    }
    p
}

/// The prefix under which a directory is listed. The directory must have a
/// non-empty final component.
pub fn listing_prefix(dir: &RemotePath) -> (r: RemotePath)
    requires
        has_object_name_spec(dir@),
    ensures
        r@ == dir@.push('/'),
{
    dir.add_trailing_slash()
}

/// Number of bytes in the range `[start, end)`.
pub fn range_len(start_inclusive: u64, end_exclusive: u64) -> (r: u64)
    requires
        start_inclusive <= end_exclusive,
    ensures
        r == end_exclusive - start_inclusive,
{
    end_exclusive - start_inclusive
}

/// The bytes a backend serves for the range `[start, end)` of `object`:
/// those from `start` up to `end` or the object's end, whichever is first.
pub open spec fn served_range(object: Seq<u8>, start: nat, end: nat) -> Seq<u8> {
    let stop = if end <= object.len() {
        end
    } else {
        object.len()
    };
    if start >= stop {
        Seq::empty()
    } else {
        object.subrange(start as int, stop as int)
    }
}

/// A ranged read succeeds exactly when the object reaches `end` and the
/// whole range was served.
pub open spec fn range_result(start: u64, end: u64, object_len: nat, served: Seq<u8>) -> Result<Seq<u8>, DownloadError> {
    if object_len >= end && served.len() == end - start {
        Ok(served)
    } else {
        Err(DownloadError::Other)
    }
}

/// The length of `[start, end)`, or `None` when `start > end`; a range so
/// given is refused before any read.
pub fn range_request(start_inclusive: u64, end_exclusive: u64) -> (r: Option<u64>)
    ensures
        r == if start_inclusive <= end_exclusive {
            Some((end_exclusive - start_inclusive) as u64)
        } else {
            None::<u64>
        },
{
    if start_inclusive <= end_exclusive {
        Some(range_len(start_inclusive, end_exclusive))
    } else {
        None
    }
}

/// Checks a ranged read of `[start, end)` from an object of `object_len`
/// bytes: the served bytes are handed back when the object reaches `end`
/// and there are exactly `end - start` of them; otherwise the read fails.
pub fn finish_range(start_inclusive: u64, end_exclusive: u64, object_len: u64, served: Vec<u8>) -> (r: Result<Vec<u8>, DownloadError>)
    requires
        start_inclusive <= end_exclusive,
    ensures
        r is Ok <==> object_len >= end_exclusive && served@.len() == end_exclusive - start_inclusive,
        r matches Ok(v) ==> v@ == served@,
        r matches Ok(v) ==> range_result(start_inclusive, end_exclusive, object_len as nat, served@) == Ok::<Seq<u8>, DownloadError>(v@),
        r matches Err(e) ==> range_result(start_inclusive, end_exclusive, object_len as nat, served@) == Err::<Seq<u8>, DownloadError>(e),
{
    let len = range_len(start_inclusive, end_exclusive);
    if object_len >= end_exclusive && served.len() as u64 == len {
        Ok(served)
    } else {
        Err(DownloadError::Other)
    }
}

/// A ranged read of `[s, e)` from an object of at least `e` bytes yields
/// exactly the `e - s` bytes from `s`; a read from an object shorter than
/// `e` fails, empty ranges included.
pub proof fn lemma_range_read_exact(object: Seq<u8>, s: u64, e: u64)
    requires
        s <= e,
    ensures
        object.len() >= e ==> range_result(s, e, object.len(), served_range(object, s as nat, e as nat))
            == Ok::<Seq<u8>, DownloadError>(object.subrange(s as int, e as int)),
        object.len() >= e ==> object.subrange(s as int, e as int).len() == e - s,
        object.len() < e ==> range_result(s, e, object.len(), served_range(object, s as nat, e as nat))
            == Err::<Seq<u8>, DownloadError>(DownloadError::Other),
{
    if object.len() >= e {
        assert(served_range(object, s as nat, e as nat) =~= object.subrange(s as int, e as int));
    }
}

/// The outcome of a structured-decode read, given the outcome of the
/// plain read: absent is `None`, well-formed is `Some`, malformed is a
/// decode failure, and any other failure passes through.
pub fn decode_fetched(fetched: Result<Vec<u8>, DownloadError>) -> (r: Result<Option<serde_json::Value>, DownloadError>)
    ensures
        fetched == Err::<Vec<u8>, DownloadError>(DownloadError::NotFound) ==> r matches Ok(None),
        fetched matches Err(e) ==> (e != DownloadError::NotFound ==> r == Err::<Option<serde_json::Value>, DownloadError>(e)),
        fetched matches Ok(b) ==> (json_well_formed(b@) ==> r matches Ok(Some(_))),
        fetched matches Ok(b) ==> (!json_well_formed(b@) ==> r == Err::<Option<serde_json::Value>, DownloadError>(DownloadError::Decode)),
{
    match fetched {
        Ok(buf) => match parse_json(buf.as_slice()) {
            Ok(v) => Ok(Some(v)),
            Err(_) => Err(DownloadError::Decode),
        },
        Err(DownloadError::NotFound) => Ok(None),
        Err(e) => Err(e),
    }
}

/// Why the control file could not be had.
#[derive(Clone, Copy, Debug, PartialEq, Eq, Structural)]
pub enum GetControlFileError {
    Download(DownloadError),
    Decode(ControlFileError),
}

/// Builds the control file from the outcome of reading it.
pub fn control_file_from_fetched(fetched: Result<Vec<u8>, DownloadError>) -> (r: Result<ControlFile, GetControlFileError>)
    ensures
        fetched matches Err(e) ==> r == Err::<ControlFile, GetControlFileError>(GetControlFileError::Download(e)),
        fetched matches Ok(b) ==> (r is Ok <==> decodable(b@)),
        fetched matches Ok(b) ==> (r matches Ok(c) ==> c@ == b@),
        fetched matches Ok(b) ==> (r matches Err(e) ==> e is Decode),
{
    match fetched {
        Ok(buf) => match ControlFile::new(buf) {
            Ok(c) => Ok(c),
            Err(e) => Err(GetControlFileError::Decode(e)),
        },
        Err(e) => Err(GetControlFileError::Download(e)),
    }
}

} // verus!
