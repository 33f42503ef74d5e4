//! The Quiesce-Transfer-Resume migration protocol and the checks made when
//! a `.nail` archive is unpacked: the BLAKE3 checksum of what was
//! transferred, zstd decompression of the archive, the checksums recorded in
//! its manifest, and the tables its database must hold.  Reading and
//! writing files, and the database itself, are outside the library.

use vstd::prelude::*;
use crate::text::str_eq;

verus! {

/// The current phase of a QTR migration.
#[derive(Debug, Clone, Copy, PartialEq, Eq, Structural)]
pub enum MigrationPhase {
    Quiesce,
    Transfer,
    Resume,
}

/// The errors of `std::io`.
#[verifier::external_type_specification]
#[verifier::external_body]
pub struct ExIoError(std::io::Error);

/// The BLAKE3 digest of a byte string (32 bytes).
pub uninterp spec fn blake3_digest(data: Seq<u8>) -> Seq<u8>;

/// What zstd decompresses a frame to, when it decompresses it within
/// `capacity` bytes.
pub uninterp spec fn zstd_decoded(data: Seq<u8>, capacity: usize) -> Seq<u8>;

/// zstd decompresses these bytes as a frame of at most `capacity` bytes.
pub uninterp spec fn zstd_accepts(data: Seq<u8>, capacity: usize) -> bool;

/// A hexadecimal digit, lowercase.
pub open spec fn hex_digit(d: int) -> char {
    if d < 10 {
        (48 + d) as char
    } else {
        (87 + d) as char
    }
}

/// Bytes in lowercase hexadecimal, two digits per byte, high nibble first.
pub open spec fn lower_hex(bytes: Seq<u8>) -> Seq<char>
    decreases bytes.len(),
{
    if bytes.len() == 0 {
        Seq::empty()
    } else {
        lower_hex(bytes.drop_last()) + seq![hex_digit((bytes.last() / 16) as int), hex_digit((bytes.last() % 16) as int)]
    }
}

/// `blake3::hash`, as its 32 bytes.
#[verifier::external_body]
fn blake3_bytes(data: &[u8]) -> (h: [u8; 32])
    ensures
        h@ == blake3_digest(data@),
{
    *blake3::hash(data).as_bytes()
}

/// `blake3::hash(..).to_hex()`: the digest in lowercase hexadecimal.
#[verifier::external_body]
fn blake3_hex(data: &[u8]) -> (s: String)
    ensures
        s@ == lower_hex(blake3_digest(data@)),
{
    blake3::hash(data).to_hex().to_string()
}

/// `zstd::bulk::decompress(data, capacity)`: whether it succeeds depends on
/// the bytes and the capacity alone (a well-formed frame whose content fits);
/// when it succeeds the output is the frame's content, of at most `capacity`
/// bytes.
#[verifier::external_body]
fn zstd_decompress(data: &[u8], capacity: usize) -> (r: Result<Vec<u8>, std::io::Error>)
    ensures
        r is Ok <==> zstd_accepts(data@, capacity),
        r matches Ok(v) ==> v@ == zstd_decoded(data@, capacity) && v@.len() <= capacity,
{
    zstd::bulk::decompress(data, capacity)
}

/// The QTR protocol.
pub struct QtrProtocol;

impl QtrProtocol {
    /// The checksum the Transfer phase computes over the bytes it copies.
    pub fn transfer_checksum(data: &[u8]) -> (h: [u8; 32])
        ensures
            h@ == blake3_digest(data@),
    {
        blake3_bytes(data)
    }
}

/// The file a checksum belongs to.
#[derive(Debug, Clone, Copy, PartialEq, Eq, Structural)]
pub enum ChecksumTarget {
    /// `reflexes.db`
    Database,
    /// `config.toml`
    Config,
}

/// Why a `.nail` archive was refused.
#[derive(Debug, Clone)]
pub enum UnpackError {
    /// The archive is not a zstd frame of at most 64 MiB.
    Decompress,
    /// A file's BLAKE3 checksum differs from the manifest's.
    ChecksumMismatch { target: ChecksumTarget, expected: String, got: String },
    /// The database lacks a table the engine needs.
    MissingTable(String),
}

/// The largest archive content accepted: 64 MiB.
pub const MAX_ARCHIVE_BYTES: usize = 67108864;

/// The tables a reflex database must hold, in the order they are checked.
pub open spec fn required_tables() -> Seq<Seq<char>> {
    seq!["reflexes"@, "sessions"@, "shells"@]
}

/// `tables` holds a table named `name`.
pub open spec fn has_table(tables: Seq<String>, name: Seq<char>) -> bool {
    exists|i: int| 0 <= i < tables.len() && (#[trigger] tables[i])@ == name
}

/// The `.nail` archive extractor.
pub struct NailUnpack;

impl NailUnpack {
    /// Decompress an archive; its content may hold at most 64 MiB.
    pub fn decompress(compressed: &[u8]) -> (r: Result<Vec<u8>, UnpackError>)
        ensures
            r is Ok <==> zstd_accepts(compressed@, MAX_ARCHIVE_BYTES),
            r matches Ok(v) ==> v@ == zstd_decoded(compressed@, MAX_ARCHIVE_BYTES) && v@.len()
                <= MAX_ARCHIVE_BYTES,
            r matches Err(e) ==> e is Decompress,
    {
        match zstd_decompress(compressed, MAX_ARCHIVE_BYTES) {
            Ok(v) => Ok(v),
            Err(_) => Err(UnpackError::Decompress),
        }
    }

    /// Check a file against the checksum its manifest records (lowercase
    /// hexadecimal BLAKE3): success exactly when they agree, else a
    /// mismatch naming both.
    pub fn verify_checksum(target: ChecksumTarget, data: &[u8], expected: &str) -> (r: Result<(), UnpackError>)
        ensures
            r is Ok <==> lower_hex(blake3_digest(data@)) == expected@,
            r matches Err(e) ==> e matches UnpackError::ChecksumMismatch { target: t, expected: x, got: g } && t
                == target && x@ == expected@ && g@ == lower_hex(blake3_digest(data@)),
    {
        let got = blake3_hex(data);
        if str_eq(got.as_str(), expected) {
            Ok(())
        } else {
            Err(UnpackError::ChecksumMismatch { target, expected: expected.to_owned(), got })
        }
    }

    /// Check that the database holds the tables `reflexes`, `sessions` and
    /// `shells`; the first one missing, in that order, is reported.
    pub fn check_required_tables(tables: &Vec<String>) -> (r: Result<(), UnpackError>)
        ensures
            r is Ok <==> forall|k: int| 0 <= k < 3 ==> has_table(tables@, #[trigger] required_tables()[k]),
            r matches Err(e) ==> exists|k: int|
                0 <= k < 3 && e == UnpackError::MissingTable(e->MissingTable_0) && e->MissingTable_0@
                    == #[trigger] required_tables()[k] && !has_table(tables@, required_tables()[k])
                    && forall|m: int| 0 <= m < k ==> has_table(tables@, #[trigger] required_tables()[m]),
    {
        proof {
            reveal_strlit("reflexes");
            reveal_strlit("sessions");
            reveal_strlit("shells");
        }
        let names: [&str; 3] = ["reflexes", "sessions", "shells"];
        assert(names@.map_values(|s: &str| s@) =~= required_tables());
        let mut k: usize = 0;
        while k < 3
            invariant
                k <= 3,
                names@.map_values(|s: &str| s@) == required_tables(),
                forall|m: int| 0 <= m < k ==> has_table(tables@, #[trigger] required_tables()[m]),
            decreases 3 - k,
        {
            let name = names[k];
            assert(name@ == required_tables()[k as int]);
            if !Self::holds_table(tables, name) {
                return Err(UnpackError::MissingTable(name.to_owned()));
            }
            k += 1;
        }
        Ok(())
    }

    /// `tables` holds a table named `name`.
    fn holds_table(tables: &Vec<String>, name: &str) -> (b: bool)
        ensures
            b == has_table(tables@, name@),
    {
        let mut i: usize = 0;
        while i < tables.len()
            invariant
                i <= tables@.len(),
                forall|j: int| 0 <= j < i ==> (#[trigger] tables@[j])@ != name@,
            decreases tables@.len() - i,
        {
            if str_eq(tables[i].as_str(), name) {
                return true;
            }
            i += 1;
        }
        false
    }
}

} // verus!
