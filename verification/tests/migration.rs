use pincher_core::migration::{ChecksumTarget, NailUnpack, QtrProtocol, UnpackError, MAX_ARCHIVE_BYTES};

#[test]
fn transfer_checksum_is_blake3() {
    let h = QtrProtocol::transfer_checksum(b"");
    let hex: String = h.iter().map(|b| format!("{b:02x}")).collect();
    assert_eq!(hex, "af1349b9f5f9a1a6a0404dea36dcc9499bcb25c9adc112b7cc9a93cae41f3262");
    assert_eq!(QtrProtocol::transfer_checksum(b"reflexes"), *blake3::hash(b"reflexes").as_bytes());
}

#[test]
fn checksum_verification() {
    let data = b"config";
    let good = blake3::hash(data).to_hex().to_string();
    assert!(NailUnpack::verify_checksum(ChecksumTarget::Config, data, &good).is_ok());
    match NailUnpack::verify_checksum(ChecksumTarget::Database, data, "00") {
        Err(UnpackError::ChecksumMismatch { target, expected, got }) => {
            assert_eq!(target, ChecksumTarget::Database);
            assert_eq!(expected, "00");
            assert_eq!(got, good);
        },
        other => panic!("unexpected {other:?}"),
    }
    // Upper-case hex does not match: the manifest records lowercase.
    assert!(NailUnpack::verify_checksum(ChecksumTarget::Config, data, &good.to_uppercase()).is_err());
}

#[test]
fn required_tables() {
    let all: Vec<String> = ["meta", "reflexes", "sessions", "shells"].iter().map(|s| s.to_string()).collect();
    assert!(NailUnpack::check_required_tables(&all).is_ok());
    let missing: Vec<String> = ["shells", "meta"].iter().map(|s| s.to_string()).collect();
    match NailUnpack::check_required_tables(&missing) {
        Err(UnpackError::MissingTable(t)) => assert_eq!(t, "reflexes"),
        other => panic!("unexpected {other:?}"),
    }
    let no_shells: Vec<String> = ["reflexes", "sessions"].iter().map(|s| s.to_string()).collect();
    match NailUnpack::check_required_tables(&no_shells) {
        Err(UnpackError::MissingTable(t)) => assert_eq!(t, "shells"),
        other => panic!("unexpected {other:?}"),
    }
}

#[test]
fn archives_decompress() {
    let payload = b"tar bytes".repeat(100);
    let compressed = zstd::bulk::compress(&payload, 3).unwrap();
    assert_eq!(NailUnpack::decompress(&compressed).unwrap(), payload);
    assert!(matches!(NailUnpack::decompress(b"not zstd"), Err(UnpackError::Decompress)));
    assert_eq!(MAX_ARCHIVE_BYTES, 64 * 1024 * 1024);
}
