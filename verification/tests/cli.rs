use artsum::checksum::{ChecksumAlgorithm, ChecksumMode, DEFAULT_CHUNK_SIZE};
use artsum::cli::{Cli, Commands, Invocation};
use artsum::manifest::format::ManifestFormat;
use artsum::text::decimal;

#[test]
fn generate_command_becomes_a_generate_run() {
    let cli = Cli {
        command: Some(Commands::Generate {
            dirpath: "/data".to_string(),
            output: Some("/tmp/m.b2".to_string()),
            algorithm: Some(ChecksumAlgorithm::BLAKE2B512),
            format: Some(ManifestFormat::B2SUM),
            mode: Some(ChecksumMode::Text),
            chunk_size: 512,
            max_workers: 4,
            verbosity: None,
        }),
        verbosity: 2,
        no_color: true,
        no_progress: true,
    };
    assert!(cli.colors_disabled());
    match cli.invocation("/home".to_string(), 16) {
        Invocation::Generate(options) => {
            assert_eq!(options.dirpath, "/data");
            assert_eq!(options.output.as_deref(), Some("/tmp/m.b2"));
            assert_eq!(options.algorithm, Some(ChecksumAlgorithm::BLAKE2B512));
            assert_eq!(options.format, Some(ManifestFormat::B2SUM));
            assert_eq!(options.mode, Some(ChecksumMode::Text));
            assert_eq!(options.chunk_size, 512);
            assert_eq!(options.max_workers, 4);
            assert_eq!(options.verbosity, 2);
            assert!(!options.show_progress);
            assert!(!options.debug);
        }
        other => panic!("unexpected: {:?}", other),
    }
}

#[test]
fn verify_command_becomes_a_verify_run() {
    let cli = Cli {
        command: Some(Commands::Verify {
            dirpath: "/data".to_string(),
            manifest: None,
            chunk_size: 512,
            max_workers: 4,
            verbosity: Some(0),
        }),
        verbosity: 2,
        no_color: false,
        no_progress: false,
    };
    assert!(!cli.colors_disabled());
    match cli.invocation("/home".to_string(), 16) {
        Invocation::Verify(options) => {
            assert_eq!(options.dirpath, "/data");
            assert_eq!(options.manifest, None);
            assert_eq!(options.chunk_size, 512);
            assert_eq!(options.max_workers, 4);
            assert_eq!(options.verbosity, 0);
            assert!(!options.no_progress && !options.no_display && !options.debug);
        }
        other => panic!("unexpected: {:?}", other),
    }
}

#[test]
fn no_command_verifies_the_current_directory() {
    let cli = Cli { command: None, verbosity: 1, no_color: false, no_progress: true };
    match cli.invocation("/home/me".to_string(), 16) {
        Invocation::Verify(options) => {
            assert_eq!(options.dirpath, "/home/me");
            assert_eq!(options.manifest, None);
            assert_eq!(options.chunk_size, DEFAULT_CHUNK_SIZE);
            assert_eq!(options.max_workers, 16);
            assert_eq!(options.verbosity, 1);
            assert!(options.no_progress);
        }
        other => panic!("unexpected: {:?}", other),
    }
}

#[test]
fn numbers_in_decimal() {
    assert_eq!(decimal(0), "0");
    assert_eq!(decimal(7), "7");
    assert_eq!(decimal(10), "10");
    assert_eq!(decimal(1024), "1024");
    assert_eq!(decimal(90210), "90210");
    assert_eq!(decimal(usize::MAX), usize::MAX.to_string());
}
