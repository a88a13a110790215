use artsum::checksum::{Checksum, ChecksumAlgorithm, ChecksumMode};
use artsum::hex::encode;
use artsum::manifest::format::ManifestFormat;
use artsum::manifest::sha512sum::{SHA512SUMParser, DEFAULT_MANIFEST_FILENAME};
use artsum::manifest::source::{Located, ManifestSource};
use artsum::manifest::{
    default_from_str, default_to_string, standard_from_str, standard_to_string, Manifest,
    ManifestError,
};

const HELLO: &str = "9b71d224bd62f3785d96d46ad3ea3d73319bfbc2890caadae2dff72519673ca72323c3d99ba5c11d7c7acc6e14b8c5da0c4663475c2e5c3adef46f73bcdec043";
const WORLD: &str = "11853df40f4b2b919d3815f64792e58d08663767a494bcbb38c0b2389d9140bbb170281b4a847be7757bde12c9cd0054ce3652d0ad3a1a0c92babb69798246ee";

fn sha512(hex: &str, mode: ChecksumMode) -> Checksum {
    Checksum::from_hex(ChecksumAlgorithm::SHA512, mode, hex).unwrap()
}

fn hello_world() -> Manifest {
    let mut manifest = Manifest::new();
    manifest.insert("a.txt".to_string(), sha512(HELLO, ChecksumMode::Binary));
    manifest.insert("b.txt".to_string(), sha512(WORLD, ChecksumMode::Binary));
    manifest
}

#[test]
fn hex_is_lowercase_two_digits_per_byte() {
    let text: String = encode(&vec![0x00, 0x9b, 0xff, 0x0a]).into_iter().collect();
    assert_eq!(text, "009bff0a");
}

#[test]
fn checksum_hex_round_trip() {
    let checksum = sha512(HELLO, ChecksumMode::Binary);
    assert_eq!(checksum.digest.len(), 64);
    assert_eq!(checksum.digest[0], 0x9b);
    assert_eq!(checksum.digest[63], 0x43);
    assert!(checksum.is_canonical());
    assert_eq!(checksum.to_hex(), HELLO);
}

#[test]
fn checksum_from_hex_takes_both_cases_and_nothing_else() {
    let upper = Checksum::from_hex(ChecksumAlgorithm::SHA512, ChecksumMode::Binary, "AbCd").unwrap();
    assert_eq!(upper.digest, vec![0xab, 0xcd]);
    assert!(!upper.is_canonical());
    assert!(Checksum::from_hex(ChecksumAlgorithm::SHA512, ChecksumMode::Binary, "abc").is_none());
    assert!(Checksum::from_hex(ChecksumAlgorithm::SHA512, ChecksumMode::Binary, "zz").is_none());
    assert!(Checksum::from_hex(ChecksumAlgorithm::SHA512, ChecksumMode::Binary, "a b ").is_none());
}

#[test]
fn checksums_are_equal_when_all_three_parts_are() {
    let a = sha512(HELLO, ChecksumMode::Binary);
    assert_eq!(a, a.duplicate());
    assert_ne!(a, sha512(HELLO, ChecksumMode::Text));
    assert_ne!(a, sha512(WORLD, ChecksumMode::Binary));
    assert_ne!(
        a,
        Checksum::from_hex(ChecksumAlgorithm::BLAKE2B512, ChecksumMode::Binary, HELLO).unwrap()
    );
    assert!(a.same_as(&sha512(HELLO, ChecksumMode::Binary)));
    assert!(!a.same_as(&sha512(HELLO, ChecksumMode::Text)));
}

#[test]
fn algorithm_names_and_lengths() {
    assert_eq!(ChecksumAlgorithm::SHA512.name(), "sha512");
    assert_eq!(ChecksumAlgorithm::BLAKE2B512.name(), "blake2b512");
    assert_eq!(ChecksumAlgorithm::SHA512.digest_len(), 64);
    assert_eq!(ChecksumAlgorithm::BLAKE2B512.digest_len(), 64);
    assert_eq!(ChecksumAlgorithm::default(), ChecksumAlgorithm::SHA512);
    assert_eq!(ChecksumMode::default(), ChecksumMode::Binary);
}

#[test]
fn manifest_insert_replaces_and_keeps_place() {
    let mut manifest = hello_world();
    assert_eq!(manifest.len(), 2);
    let previous = manifest.insert("a.txt".to_string(), sha512(WORLD, ChecksumMode::Binary));
    assert_eq!(previous, Some(sha512(HELLO, ChecksumMode::Binary)));
    assert_eq!(manifest.len(), 2);
    assert_eq!(manifest.artifact(0).path, "a.txt");
    assert_eq!(manifest.artifact(0).checksum, sha512(WORLD, ChecksumMode::Binary));
    assert_eq!(manifest.find(&"b.txt".to_string()), Some(1));
    assert_eq!(
        manifest.insert("c.txt".to_string(), sha512(HELLO, ChecksumMode::Binary)),
        None
    );
    assert_eq!(manifest.artifact(2).path, "c.txt");
}

#[test]
fn manifest_get_and_contains() {
    let manifest = hello_world();
    assert_eq!(
        manifest.get(&"b.txt".to_string()),
        Some(&sha512(WORLD, ChecksumMode::Binary))
    );
    assert_eq!(manifest.get(&"c.txt".to_string()), None);
    assert!(manifest.contains(&"a.txt".to_string()));
    assert!(!manifest.contains(&"A.txt".to_string()));
    assert!(!manifest.is_empty());
    assert!(Manifest::new().is_empty());
    assert_eq!(Manifest::new().version(), &None);
}

#[test]
fn simple_dialect_writes_path_then_digest() {
    let text = default_to_string(&hello_world(), ChecksumAlgorithm::SHA512).unwrap();
    assert_eq!(text, format!("a.txt {}\nb.txt {}\n", HELLO, WORLD));
}

#[test]
fn simple_dialect_writes_version_first() {
    let mut manifest = hello_world();
    manifest.set_version(Some("1.2.0".to_string()));
    let text = default_to_string(&manifest, ChecksumAlgorithm::SHA512).unwrap();
    assert_eq!(
        text,
        format!("; version 1.2.0\na.txt {}\nb.txt {}\n", HELLO, WORLD)
    );
    let back = default_from_str(&text, ChecksumAlgorithm::SHA512).unwrap();
    assert_eq!(back.version(), &Some("1.2.0".to_string()));
    assert_eq!(back.artifacts(), manifest.artifacts());
}

#[test]
fn empty_manifest_is_empty_text() {
    assert_eq!(
        default_to_string(&Manifest::new(), ChecksumAlgorithm::SHA512).unwrap(),
        ""
    );
    assert_eq!(
        standard_to_string(&Manifest::new(), ChecksumAlgorithm::SHA512).unwrap(),
        ""
    );
    let back = default_from_str("", ChecksumAlgorithm::SHA512).unwrap();
    assert!(back.is_empty());
    assert_eq!(back.version(), &None);
}

#[test]
fn simple_dialect_reads_remarks_blank_lines_and_spaces_in_paths() {
    let text = format!(
        "; a remark\n\nmy file.txt {}\n; version 9\nb.txt {}",
        HELLO, WORLD
    );
    let manifest = default_from_str(&text, ChecksumAlgorithm::SHA512).unwrap();
    assert_eq!(manifest.version(), &None);
    assert_eq!(manifest.len(), 2);
    assert_eq!(manifest.artifact(0).path, "my file.txt");
    assert_eq!(manifest.artifact(0).checksum, sha512(HELLO, ChecksumMode::Binary));
    assert_eq!(manifest.artifact(1).path, "b.txt");
    assert_eq!(manifest.artifact(1).checksum, sha512(WORLD, ChecksumMode::Binary));
}

#[test]
fn standard_dialect_reads_both_modes() {
    let text = format!("{} *a.txt\n{}  b.txt\n", HELLO, WORLD.to_uppercase());
    let manifest = standard_from_str(&text, ChecksumAlgorithm::SHA512).unwrap();
    assert_eq!(manifest.len(), 2);
    assert_eq!(manifest.artifact(0).checksum, sha512(HELLO, ChecksumMode::Binary));
    assert_eq!(manifest.artifact(1).path, "b.txt");
    assert_eq!(manifest.artifact(1).checksum, sha512(WORLD, ChecksumMode::Text));
}

#[test]
fn later_line_wins_for_a_repeated_path() {
    let text = format!("a.txt {}\nb.txt {}\na.txt {}\n", HELLO, HELLO, WORLD);
    let manifest = default_from_str(&text, ChecksumAlgorithm::SHA512).unwrap();
    assert_eq!(manifest.len(), 2);
    assert_eq!(manifest.artifact(0).path, "a.txt");
    assert_eq!(manifest.artifact(0).checksum, sha512(WORLD, ChecksumMode::Binary));
}

#[test]
fn malformed_line_is_named() {
    let short = &HELLO[..126];
    for bad in [
        format!("a.txt {}\nb.txt {}\n", HELLO, short),
        format!("a.txt {}\nb.txt{}\n", HELLO, WORLD),
        format!("a.txt {}\n {}\n", HELLO, WORLD),
        format!("a.txt {}\nb.txt {}\n", HELLO, WORLD.replace('1', "g")),
    ] {
        match default_from_str(&bad, ChecksumAlgorithm::SHA512) {
            Err(ManifestError::Malformed { line }) => assert_eq!(line, 2),
            other => panic!("unexpected: {:?}", other),
        }
    }
    for bad in [
        format!("{} a.txt\n", HELLO),
        format!("{}  \n", HELLO),
        format!("{} +a.txt\n", HELLO),
        format!("{}* a.txt\n", HELLO),
        "a.txt\n".to_string(),
    ] {
        match standard_from_str(&bad, ChecksumAlgorithm::SHA512) {
            Err(ManifestError::Malformed { line }) => assert_eq!(line, 1),
            other => panic!("unexpected: {:?}", other),
        }
    }
    match standard_from_str(&format!("\n\n{} *a\nx\n", HELLO), ChecksumAlgorithm::SHA512) {
        Err(ManifestError::Malformed { line }) => assert_eq!(line, 4),
        other => panic!("unexpected: {:?}", other),
    }
}

#[test]
fn unrepresentable_artifact_is_named() {
    let binary = sha512(HELLO, ChecksumMode::Binary);
    let cases: Vec<(String, Checksum)> = vec![
        ("line\nbreak".to_string(), binary.duplicate()),
        ("".to_string(), binary.duplicate()),
        (";remark".to_string(), binary.duplicate()),
        ("text.txt".to_string(), sha512(HELLO, ChecksumMode::Text)),
        (
            "short.txt".to_string(),
            Checksum::new(ChecksumAlgorithm::SHA512, ChecksumMode::Binary, vec![1, 2, 3]),
        ),
        (
            "other.txt".to_string(),
            Checksum::from_hex(ChecksumAlgorithm::BLAKE2B512, ChecksumMode::Binary, HELLO).unwrap(),
        ),
    ];
    for (path, checksum) in cases {
        let mut manifest = Manifest::new();
        manifest.insert("fine.txt".to_string(), binary.duplicate());
        manifest.insert(path, checksum);
        match default_to_string(&manifest, ChecksumAlgorithm::SHA512) {
            Err(ManifestError::Unrepresentable { index }) => assert_eq!(index, 1),
            other => panic!("unexpected: {:?}", other),
        }
    }
    let mut manifest = Manifest::new();
    manifest.insert(";remark".to_string(), sha512(HELLO, ChecksumMode::Text));
    assert!(standard_to_string(&manifest, ChecksumAlgorithm::SHA512).is_ok());
}

#[test]
fn unrepresentable_version_is_an_error() {
    let mut manifest = hello_world();
    manifest.set_version(Some("1".to_string()));
    assert!(matches!(
        standard_to_string(&manifest, ChecksumAlgorithm::SHA512),
        Err(ManifestError::Version)
    ));
    manifest.set_version(Some("1\n2".to_string()));
    assert!(matches!(
        default_to_string(&manifest, ChecksumAlgorithm::SHA512),
        Err(ManifestError::Version)
    ));
    manifest.set_version(None);
    assert!(standard_to_string(&manifest, ChecksumAlgorithm::SHA512).is_ok());
}

#[test]
fn round_trip_in_every_format() {
    for format in [ManifestFormat::SFV, ManifestFormat::B2SUM] {
        let algorithm = format.algorithm().unwrap();
        let mut manifest = Manifest::new();
        manifest.insert(
            "dir/a b.txt".to_string(),
            Checksum::from_hex(algorithm, ChecksumMode::Binary, HELLO).unwrap(),
        );
        manifest.insert(
            "z".to_string(),
            Checksum::from_hex(algorithm, ChecksumMode::Binary, WORLD).unwrap(),
        );
        manifest.insert(
            " lead".to_string(),
            Checksum::new(algorithm, ChecksumMode::Binary, vec![0; 64]),
        );
        let text = format.to_string(&manifest).unwrap();
        let back = format.parse_str(&text).unwrap();
        assert_eq!(back.version(), manifest.version());
        assert_eq!(back.artifacts(), manifest.artifacts());
        assert_eq!(format.to_string(&back).unwrap(), text);
    }
}

#[test]
fn sha512sum_parser_is_the_simple_dialect() {
    let parser = SHA512SUMParser::default();
    assert_eq!(parser.default_filename(), DEFAULT_MANIFEST_FILENAME);
    assert_eq!(parser.default_filename(), "sfv.sha512");
    assert_eq!(parser.algorithm(), Some(ChecksumAlgorithm::SHA512));
    assert_eq!(parser.filename_patterns().len(), 1);
    assert!(parser.can_handle_filepath("sfv.sha512"));
    assert!(!parser.can_handle_filepath("sfv_sha512"));
    assert!(!parser.can_handle_filepath("my.sfv.sha512"));
    let text = parser.to_string(&hello_world()).unwrap();
    assert_eq!(text, format!("a.txt {}\nb.txt {}\n", HELLO, WORLD));
    let back = parser.from_str(&text).unwrap();
    assert_eq!(back.artifacts(), hello_world().artifacts());
}

#[test]
fn formats_have_names_and_defaults() {
    assert_eq!(ManifestFormat::default(), ManifestFormat::SFV);
    assert_eq!(ManifestFormat::SFV.name(), "sfv");
    assert_eq!(ManifestFormat::B2SUM.name(), "b2sum");
    assert_eq!(ManifestFormat::SFV.default_filename(), "sfv.sha512");
    assert_eq!(ManifestFormat::B2SUM.default_filename(), "artsum.b2sum");
    assert_eq!(ManifestFormat::SFV.algorithm(), Some(ChecksumAlgorithm::SHA512));
    assert_eq!(
        ManifestFormat::B2SUM.algorithm(),
        Some(ChecksumAlgorithm::BLAKE2B512)
    );
}

#[test]
fn detection_goes_by_file_name() {
    assert_eq!(ManifestFormat::detect("sfv.sha512"), Some(ManifestFormat::SFV));
    assert_eq!(ManifestFormat::detect("artsum.b2sum"), Some(ManifestFormat::B2SUM));
    assert_eq!(ManifestFormat::detect("photos.b2"), Some(ManifestFormat::B2SUM));
    assert_eq!(ManifestFormat::detect("photos.txt"), None);
    assert_eq!(ManifestFormat::detect("photos\n.b2"), None);
    assert_eq!(ManifestFormat::first_of(true, true), Some(ManifestFormat::SFV));
    assert_eq!(ManifestFormat::first_of(false, true), Some(ManifestFormat::B2SUM));
    assert_eq!(ManifestFormat::first_of(false, false), None);
}

#[test]
fn first_manifest_of_a_directory_is_found() {
    let names: Vec<String> = ["a.txt", "notes.b2", "sfv.sha512"]
        .iter()
        .map(|s| s.to_string())
        .collect();
    assert_eq!(
        ManifestSource::locate(&names),
        Some(Located { index: 1, format: ManifestFormat::B2SUM })
    );
    let none: Vec<String> = vec!["a.txt".to_string(), "b.txt".to_string()];
    assert_eq!(ManifestSource::locate(&none), None);
    assert_eq!(ManifestSource::locate(&Vec::new()), None);
    let inside = ManifestSource::in_directory("/data", &names).unwrap();
    assert_eq!(inside.filepath, "/data/notes.b2");
    assert_eq!(inside.format, ManifestFormat::B2SUM);
    assert!(ManifestSource::in_directory("/data", &none).is_none());
    let named = ManifestSource::from_path("backup/artsum.b2sum".to_string()).unwrap();
    assert_eq!(named.filepath, "backup/artsum.b2sum");
    assert_eq!(named.format, ManifestFormat::B2SUM);
    assert!(ManifestSource::from_path("sfv.sha512/readme".to_string()).is_none());
    assert_eq!(ManifestFormat::SFV.build_manifest_filepath("/data"), "/data/sfv.sha512");
    assert_eq!(ManifestFormat::B2SUM.build_manifest_filepath("/data/"), "/data/artsum.b2sum");
    let source = ManifestSource::from_filename("/data/sfv.sha512".to_string(), "sfv.sha512").unwrap();
    assert_eq!(source.filepath, "/data/sfv.sha512");
    assert_eq!(source.format, ManifestFormat::SFV);
    assert!(ManifestSource::from_filename("/data/x.txt".to_string(), "x.txt").is_none());
}
