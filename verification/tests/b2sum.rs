use artsum::checksum::{Checksum, ChecksumAlgorithm, ChecksumMode};
use artsum::manifest::b2sum::{B2SUMParser, DEFAULT_MANIFEST_FILENAME};
use artsum::manifest::{standard_to_string, Manifest};

const HELLO_B2: &str = "e4cfa39a3d37be31c59609e807970799caa68a19bfaa15135f165085e01d41a65ba1e1b146aeb6bd0092b49eac214c103ccfa3a365954bbbe52f74a2b3620c94";
const WORLD_B2: &str = "267b2e02b6af3d5bff52397f238c3a240e5d1319375dc5c60ef9f0df5ae9511761968f33a2ce17a0952d85fed231e6103c867f0432c250dd52baf959c7fc4759";

fn fake_manifest(algorithm: ChecksumAlgorithm, mode: ChecksumMode) -> Manifest {
    let mut manifest = Manifest::new();
    manifest.insert(
        "docs/readme.md".to_string(),
        Checksum::from_hex(algorithm, mode, HELLO_B2).unwrap(),
    );
    manifest.insert(
        "src/main file.rs".to_string(),
        Checksum::from_hex(algorithm, mode, WORLD_B2).unwrap(),
    );
    manifest.insert(
        "*starred".to_string(),
        Checksum::new(algorithm, mode, vec![0xab; 64]),
    );
    manifest
}

#[test]
fn default_filename() {
    assert_eq!(
        B2SUMParser::default().default_filename(),
        DEFAULT_MANIFEST_FILENAME
    );
}

#[test]
fn algorithm() {
    assert_eq!(
        B2SUMParser::default().algorithm(),
        Some(ChecksumAlgorithm::BLAKE2B512)
    );
}

#[test]
fn can_handle_filepath_default() {
    assert!(B2SUMParser::default().can_handle_filepath(DEFAULT_MANIFEST_FILENAME));
}

#[test]
fn can_handle_filepath_extension() {
    for name in ["backup.b2", "backup.b2sum", "a b.b2sum", ".b2"] {
        assert!(B2SUMParser::default().can_handle_filepath(name));
    }
}

#[test]
fn can_handle_filepath_unsupported_extension() {
    for name in ["backup.txt", "backup.b2x", "b2sum", "backup.sha512", "backup.b2sum.old", ""] {
        assert!(!B2SUMParser::default().can_handle_filepath(name));
    }
}

#[test]
fn parse_str_reads_standard_format_binary() {
    let expected = fake_manifest(ChecksumAlgorithm::BLAKE2B512, ChecksumMode::Binary);
    let actual = B2SUMParser::default()
        .parse_str(
            standard_to_string(&expected, ChecksumAlgorithm::BLAKE2B512)
                .unwrap()
                .as_str(),
        )
        .unwrap();

    assert_eq!(actual.version(), expected.version());
    assert_eq!(actual.artifacts(), expected.artifacts());
}

#[test]
fn parse_str_reads_standard_format_text() {
    let expected = fake_manifest(ChecksumAlgorithm::BLAKE2B512, ChecksumMode::Text);
    let actual = B2SUMParser::default()
        .parse_str(
            standard_to_string(&expected, ChecksumAlgorithm::BLAKE2B512)
                .unwrap()
                .as_str(),
        )
        .unwrap();

    assert_eq!(actual.version(), expected.version());
    assert_eq!(actual.artifacts(), expected.artifacts());
}

#[test]
fn to_string_produces_standard_format_binary() {
    let manifest = fake_manifest(ChecksumAlgorithm::BLAKE2B512, ChecksumMode::Binary);
    let expected = standard_to_string(&manifest, ChecksumAlgorithm::BLAKE2B512).unwrap();

    let actual = B2SUMParser::default().to_string(&manifest).unwrap();
    assert_eq!(actual, expected);
}

#[test]
fn to_string_produces_standard_format_text() {
    let manifest = fake_manifest(ChecksumAlgorithm::BLAKE2B512, ChecksumMode::Text);
    let expected = standard_to_string(&manifest, ChecksumAlgorithm::BLAKE2B512).unwrap();

    let actual = B2SUMParser::default().to_string(&manifest).unwrap();
    assert_eq!(actual, expected);
}

#[test]
fn to_string_writes_digest_mark_and_path() {
    let mut manifest = Manifest::new();
    manifest.insert(
        "a.txt".to_string(),
        Checksum::from_hex(ChecksumAlgorithm::BLAKE2B512, ChecksumMode::Binary, HELLO_B2).unwrap(),
    );
    manifest.insert(
        "b.txt".to_string(),
        Checksum::from_hex(ChecksumAlgorithm::BLAKE2B512, ChecksumMode::Text, WORLD_B2).unwrap(),
    );
    let text = B2SUMParser::default().to_string(&manifest).unwrap();
    assert_eq!(text, format!("{} *a.txt\n{}  b.txt\n", HELLO_B2, WORLD_B2));
}
