use artsum::checksum::{Checksum, ChecksumAlgorithm, ChecksumError, ChecksumMode};
use artsum::cli::generate::{DisplayManager, DisplayMessage, GenerateChecksumCounters};
use artsum::cli::generate_run::{GenerateRun, GenerateStep};
use artsum::cli::verify::run::{VerifyRun, VerifyStep};
use artsum::cli::verify::task::{FileProbe, VerifyTaskCounters, VerifyTaskStatus};
use artsum::manifest::format::ManifestFormat;
use artsum::manifest::Manifest;
use artsum::text_mode::DigestFeed;
use sha2::{Digest, Sha512};

const HELLO: &str = "9b71d224bd62f3785d96d46ad3ea3d73319bfbc2890caadae2dff72519673ca72323c3d99ba5c11d7c7acc6e14b8c5da0c4663475c2e5c3adef46f73bcdec043";
const WORLD: &str = "11853df40f4b2b919d3815f64792e58d08663767a494bcbb38c0b2389d9140bbb170281b4a847be7757bde12c9cd0054ce3652d0ad3a1a0c92babb69798246ee";

fn sha512(hex: &str) -> Checksum {
    Checksum::from_hex(ChecksumAlgorithm::SHA512, ChecksumMode::Binary, hex).unwrap()
}

fn manifest_of(count: usize) -> Manifest {
    let mut manifest = Manifest::new();
    for i in 0..count {
        manifest.insert(format!("f{}", i), sha512(if i % 2 == 0 { HELLO } else { WORLD }));
    }
    manifest
}

#[test]
fn verify_run_classifies_every_file_once() {
    let mut run = VerifyRun::new("/base/dir".to_string(), manifest_of(7), 3, 512);
    let mut out: Vec<usize> = Vec::new();
    let mut seen = 0;
    loop {
        match run.step() {
            VerifyStep::Probe { index, request } => {
                assert_eq!(request.filepath, format!("/base/dir/f{}", index));
                assert_eq!(request.algorithm, ChecksumAlgorithm::SHA512);
                assert_eq!(request.mode, ChecksumMode::Binary);
                assert_eq!(request.chunk_size, Some(512));
                out.push(index);
                assert!(run.running() <= 3);
            }
            VerifyStep::Wait => {
                // The worker that was started last comes back first.
                let index = out.pop().unwrap();
                let probe = match index % 3 {
                    0 => FileProbe::Computed(sha512(HELLO)),
                    1 => FileProbe::NotAFile,
                    _ => FileProbe::Failed(ChecksumError { filepath: "x".to_string(), cause: "y".to_string() }),
                };
                let outcome = run.finished(index, probe).unwrap();
                match index % 3 {
                    0 => {
                        let result = outcome.unwrap();
                        assert_eq!(result.filename, format!("f{}", index));
                        let expected = if index % 2 == 0 { VerifyTaskStatus::Valid } else { VerifyTaskStatus::Invalid };
                        assert_eq!(result.status, expected);
                    }
                    1 => assert_eq!(outcome.unwrap().status, VerifyTaskStatus::Missing),
                    _ => assert!(outcome.is_err()),
                }
                seen += 1;
                assert_eq!(run.counts().valid + run.counts().invalid + run.counts().missing + run.counts().errored, seen);
            }
            VerifyStep::Finished => break,
        }
    }
    assert_eq!(seen, 7);
    // Files 0 and 6 are valid, 3 is invalid, 1 and 4 are missing, 2 and 5 failed.
    assert_eq!(run.counts(), VerifyTaskCounters { valid: 2, invalid: 1, missing: 2, errored: 2 });
    assert_eq!(run.counts().exit_status(), 1);
    assert_eq!(run.manifest_ref().len(), 7);
}

#[test]
fn verify_run_takes_no_answer_twice() {
    let mut run = VerifyRun::new(".".to_string(), manifest_of(2), 2, 512);
    assert!(run.finished(0, FileProbe::NotAFile).is_none());
    assert!(matches!(run.step(), VerifyStep::Probe { index: 0, .. }));
    assert!(run.finished(1, FileProbe::NotAFile).is_none());
    assert!(run.finished(5, FileProbe::NotAFile).is_none());
    assert!(run.finished(0, FileProbe::NotAFile).is_some());
    assert!(run.finished(0, FileProbe::NotAFile).is_none());
    assert_eq!(run.counts(), VerifyTaskCounters { valid: 0, invalid: 0, missing: 1, errored: 0 });
    assert_eq!(run.running(), 0);
}

#[test]
fn verify_run_without_files_is_finished() {
    let mut run = VerifyRun::new(".".to_string(), Manifest::new(), 4, 512);
    assert!(matches!(run.step(), VerifyStep::Finished));
    assert_eq!(run.counts().exit_status(), 0);
}

#[test]
fn generate_run_records_answers_in_file_order() {
    let files: Vec<String> = ["/d/a.txt", "/d/b.txt", "/d/c.txt", "/d/sub/e.txt"]
        .iter()
        .map(|s| s.to_string())
        .collect();
    let manager = DisplayManager::new(16, 1, false);
    let mut run = GenerateRun::new(
        "/d".to_string(),
        files,
        ChecksumAlgorithm::SHA512,
        ChecksumMode::Binary,
        64,
        4,
        manager,
    );
    assert!(matches!(
        run.report_start(ManifestFormat::SFV, "/d/sfv.sha512".to_string()),
        Some(DisplayMessage::Start { .. })
    ));
    for expected in 0..4 {
        match run.step() {
            GenerateStep::Compute { index, request } => {
                assert_eq!(index, expected);
                assert_eq!(request.algorithm, ChecksumAlgorithm::SHA512);
                assert_eq!(request.chunk_size, Some(64));
            }
            other => panic!("unexpected: {:?}", other),
        }
    }
    assert!(matches!(run.step(), GenerateStep::Wait));
    assert_eq!(run.running(), 4);
    // The workers come back out of order; nothing is recorded before its turn.
    assert_eq!(run.finished(2, Ok(sha512(WORLD))).unwrap().len(), 0);
    assert_eq!(run.manifest_ref().len(), 0);
    let failure = ChecksumError { filepath: "/d/b.txt".to_string(), cause: "denied".to_string() };
    assert_eq!(run.finished(1, Err(failure)).unwrap().len(), 0);
    assert!(run.finished(1, Ok(sha512(HELLO))).is_none());
    let messages = run.finished(0, Ok(sha512(HELLO))).unwrap();
    assert_eq!(messages.len(), 3);
    assert!(matches!(&messages[0], DisplayMessage::Result(r) if r.filepath == "/d/a.txt"));
    assert!(matches!(&messages[1], DisplayMessage::Error(e) if e.filepath == "/d/b.txt"));
    assert!(matches!(&messages[2], DisplayMessage::Result(r) if r.filepath == "/d/c.txt"));
    assert_eq!(run.counts(), GenerateChecksumCounters { success: 2, error: 1 });
    assert!(matches!(run.step(), GenerateStep::Wait));
    assert_eq!(run.finished(3, Ok(sha512(WORLD))).unwrap().len(), 1);
    assert!(matches!(run.step(), GenerateStep::Finished));
    let manifest = run.manifest_ref();
    assert_eq!(manifest.len(), 3);
    assert_eq!(manifest.artifact(0).path, "a.txt");
    assert_eq!(manifest.artifact(1).path, "c.txt");
    assert_eq!(manifest.artifact(2).path, "sub/e.txt");
    assert_eq!(
        ManifestFormat::SFV.to_string(manifest).unwrap(),
        format!("a.txt {}\nc.txt {}\nsub/e.txt {}\n", HELLO, WORLD, WORLD)
    );
    assert_eq!(run.counts(), GenerateChecksumCounters { success: 3, error: 1 });
    let plan = run.report_exit();
    assert!(matches!(plan.message, Some(DisplayMessage::Exit)));
    assert!(plan.stop_display);
}

#[test]
fn generate_run_never_exceeds_its_workers() {
    let files: Vec<String> = (0..20).map(|i| format!("/d/{}", i)).collect();
    let mut run = GenerateRun::new(
        "/d".to_string(),
        files,
        ChecksumAlgorithm::BLAKE2B512,
        ChecksumMode::Text,
        1,
        2,
        DisplayManager::new(8, 0, true),
    );
    assert!(!run.start_progress_worker());
    assert!(!run.stop_progress_worker());
    let mut out = std::collections::VecDeque::new();
    loop {
        match run.step() {
            GenerateStep::Compute { index, request } => {
                assert_eq!(request.mode, ChecksumMode::Text);
                assert_eq!(request.filepath, format!("/d/{}", index));
                out.push_back(index);
            }
            GenerateStep::Wait => {
                let index = out.pop_front().unwrap();
                let answer = Checksum::from_hex(ChecksumAlgorithm::BLAKE2B512, ChecksumMode::Text, HELLO).unwrap();
                assert!(run.finished(index, Ok(answer)).unwrap().is_empty());
            }
            GenerateStep::Finished => break,
        }
        assert!(run.running() <= 2);
    }
    assert_eq!(run.manifest_ref().len(), 20);
    assert_eq!(run.counts(), GenerateChecksumCounters { success: 20, error: 0 });
}

#[test]
fn reference_digests_are_sha512() {
    assert_eq!(sha512(HELLO).digest, Sha512::digest(b"hello").to_vec());
    assert_eq!(sha512(WORLD).digest, Sha512::digest(b"world").to_vec());
    assert_eq!(
        Checksum::new(ChecksumAlgorithm::SHA512, ChecksumMode::Binary, Sha512::digest(b"hello").to_vec()).to_hex(),
        HELLO
    );
}

#[test]
fn text_mode_digest_does_not_depend_on_the_chunks() {
    let content = b"first line\r\nsecond line\r\n\r\nlast\r";
    let whole = Sha512::digest(b"first line\nsecond line\n\nlast\r").to_vec();
    for size in [1usize, 2, 3, 7, 11, 64] {
        let mut feed = DigestFeed::new(ChecksumMode::Text);
        let mut hasher = Sha512::new();
        for chunk in content.chunks(size) {
            hasher.update(feed.feed(chunk));
        }
        hasher.update(feed.finish());
        assert_eq!(hasher.finalize().to_vec(), whole);
    }
}

fn feed_in_chunks(mode: ChecksumMode, content: &[u8], size: usize) -> Vec<u8> {
    let mut feed = DigestFeed::new(mode);
    let mut out = Vec::new();
    for chunk in content.chunks(size) {
        out.extend(feed.feed(chunk));
    }
    out.extend(feed.finish());
    out
}

#[test]
fn text_mode_takes_out_carriage_returns_before_line_feeds() {
    let content = b"one\r\ntwo\rthree\n\r\r\nfour\r";
    let expected = b"one\ntwo\rthree\n\r\nfour\r".to_vec();
    for size in 1..=content.len() {
        assert_eq!(feed_in_chunks(ChecksumMode::Text, content, size), expected);
        assert_eq!(feed_in_chunks(ChecksumMode::Binary, content, size), content.to_vec());
    }
    assert_eq!(feed_in_chunks(ChecksumMode::Text, b"", 4), Vec::<u8>::new());
    assert_eq!(feed_in_chunks(ChecksumMode::Text, b"\r", 4), b"\r".to_vec());
    assert_eq!(feed_in_chunks(ChecksumMode::Text, b"\r\n", 1), b"\n".to_vec());
    assert_eq!(feed_in_chunks(ChecksumMode::Text, b"\n\r", 1), b"\n\r".to_vec());
}
