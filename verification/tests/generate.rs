use artsum::checksum::{Checksum, ChecksumAlgorithm, ChecksumError, ChecksumMode};
use artsum::cli::generate::{
    absorb, admits, algorithm_warning, display_worker, plan, progress_worker, record_relative,
    resolve_algorithm, should_hash, task_outcome, walk_pattern, DisplayManager, DisplayMessage,
    GenerateChecksumCounters, GenerateChecksumError, GenerateChecksumProgress,
    GenerateChecksumResult, GenerateOptions, GenerateOutcome,
};
use artsum::cli::generate_run::{GenerateRun, GenerateStep};
use artsum::display::{DisplayWorker, ProgressTicker, Shown, Span, Style};
use artsum::manifest::format::ManifestFormat;
use artsum::manifest::Manifest;

const HELLO: &str = "9b71d224bd62f3785d96d46ad3ea3d73319bfbc2890caadae2dff72519673ca72323c3d99ba5c11d7c7acc6e14b8c5da0c4663475c2e5c3adef46f73bcdec043";
const WORLD: &str = "11853df40f4b2b919d3815f64792e58d08663767a494bcbb38c0b2389d9140bbb170281b4a847be7757bde12c9cd0054ce3652d0ad3a1a0c92babb69798246ee";

fn sha512(hex: &str) -> Checksum {
    Checksum::from_hex(ChecksumAlgorithm::SHA512, ChecksumMode::Binary, hex).unwrap()
}

fn options() -> GenerateOptions {
    GenerateOptions {
        dirpath: "/data".to_string(),
        output: None,
        algorithm: None,
        format: None,
        mode: None,
        chunk_size: 4096,
        max_workers: 8,
        debug: false,
        show_progress: true,
        verbosity: 0,
    }
}

struct Collected {
    manifest: Manifest,
    messages: Vec<DisplayMessage>,
}

/// Takes the ends of the tasks into a new manifest, one after the other.
fn collect(dirpath: &str, outcomes: Vec<GenerateOutcome>, manager: &mut DisplayManager) -> Collected {
    let mut manifest = Manifest::new();
    let mut messages = Vec::new();
    for outcome in outcomes {
        messages.extend(absorb(dirpath, outcome, &mut manifest, manager));
    }
    Collected { manifest, messages }
}

fn span(text: &str, style: Style) -> Span {
    Span { text: text.to_string(), style }
}

#[test]
fn scenario_generate_two_files() {
    let mut options = options();
    options.algorithm = Some(ChecksumAlgorithm::SHA512);
    options.mode = Some(ChecksumMode::Binary);
    let plan = plan(&options);
    assert_eq!(plan.format, ManifestFormat::SFV);
    assert_eq!(plan.algorithm, ChecksumAlgorithm::SHA512);
    assert_eq!(plan.mode, ChecksumMode::Binary);
    assert!(plan.warning.is_none());
    assert_eq!(plan.manifest_filepath, "/data/sfv.sha512");
    // The directory holds a.txt, b.txt and the manifest itself, which is left out.
    assert!(admits(&plan.manifest_filepath, "/data/a.txt", true, false, false));
    assert!(admits(&plan.manifest_filepath, "/data/b.txt", true, false, false));
    assert!(!admits(&plan.manifest_filepath, "/data/sfv.sha512", true, false, false));
    assert!(should_hash(true, false, false, false));
    assert!(!should_hash(true, false, false, true));
    let outcomes = vec![
        task_outcome("/data/a.txt".to_string(), Ok(sha512(HELLO))),
        task_outcome("/data/b.txt".to_string(), Ok(sha512(WORLD))),
    ];
    let mut manager = DisplayManager::new(plan.buffer_size, options.verbosity, options.debug);
    let collected = collect("/data", outcomes, &mut manager);
    let manifest = collected.manifest;
    assert_eq!(manifest.len(), 2);
    assert_eq!(manifest.get(&"a.txt".to_string()), Some(&sha512(HELLO)));
    assert_eq!(manifest.get(&"b.txt".to_string()), Some(&sha512(WORLD)));
    assert!(!manifest.contains(&"sfv.sha512".to_string()));
    assert_eq!(manifest.version(), &None);
    assert_eq!(
        plan.format.to_string(&manifest).unwrap(),
        format!("a.txt {}\nb.txt {}\n", HELLO, WORLD)
    );
    assert_eq!(manager.counters, GenerateChecksumCounters { success: 2, error: 0 });
    assert!(collected.messages.is_empty());
}

#[test]
fn scenario_format_forces_its_algorithm() {
    let mut options = options();
    options.algorithm = Some(ChecksumAlgorithm::SHA512);
    options.format = Some(ManifestFormat::B2SUM);
    let plan = plan(&options);
    assert_eq!(plan.algorithm, ChecksumAlgorithm::BLAKE2B512);
    assert_eq!(
        plan.warning.as_deref(),
        Some("Unsupported algorithm sha512 for format b2sum, using algorithm blake2b512")
    );
    let mut run = GenerateRun::new(
        options.dirpath.clone(),
        vec!["/data/a.txt".to_string()],
        plan.algorithm,
        plan.mode,
        options.chunk_size,
        options.max_workers,
        DisplayManager::new(plan.buffer_size, options.verbosity, options.debug),
    );
    match run.step() {
        GenerateStep::Compute { index, request } => {
            assert_eq!(index, 0);
            assert_eq!(request.algorithm, ChecksumAlgorithm::BLAKE2B512);
            assert_eq!(request.mode, ChecksumMode::Binary);
            assert_eq!(request.chunk_size, Some(4096));
            assert_eq!(request.filepath, "/data/a.txt");
        }
        other => panic!("unexpected: {:?}", other),
    }
    let b2 = "e4cfa39a3d37be31c59609e807970799caa68a19bfaa15135f165085e01d41a65ba1e1b146aeb6bd0092b49eac214c103ccfa3a365954bbbe52f74a2b3620c94";
    let answer = Checksum::from_hex(plan.algorithm, plan.mode, b2).unwrap();
    assert!(run.finished(0, Ok(answer)).is_some());
    assert!(matches!(run.step(), GenerateStep::Finished));
    assert_eq!(
        plan.format.to_string(run.manifest_ref()).unwrap(),
        format!("{} *a.txt\n", b2)
    );
    assert_eq!(plan.manifest_filepath, "/data/artsum.b2sum");
}

#[test]
fn plan_takes_what_the_user_gave() {
    let mut options = options();
    options.output = Some("/tmp/out.b2".to_string());
    options.format = Some(ManifestFormat::B2SUM);
    options.algorithm = Some(ChecksumAlgorithm::BLAKE2B512);
    options.mode = Some(ChecksumMode::Text);
    options.max_workers = 3;
    let plan = plan(&options);
    assert!(plan.warning.is_none());
    assert_eq!(plan.mode, ChecksumMode::Text);
    assert_eq!(plan.buffer_size, 12);
    assert_eq!(plan.manifest_filepath, "/tmp/out.b2");
}

#[test]
fn algorithm_resolution() {
    let sha = ChecksumAlgorithm::SHA512;
    let b2 = ChecksumAlgorithm::BLAKE2B512;
    assert_eq!(resolve_algorithm(Some(b2), Some(sha)), b2);
    assert_eq!(resolve_algorithm(Some(b2), None), b2);
    assert_eq!(resolve_algorithm(None, Some(b2)), b2);
    assert_eq!(resolve_algorithm(None, None), sha);
    assert_eq!(algorithm_warning(None, ManifestFormat::SFV, sha), None);
    assert_eq!(algorithm_warning(Some(sha), ManifestFormat::SFV, sha), None);
    assert_eq!(
        algorithm_warning(Some(b2), ManifestFormat::SFV, sha),
        Some("Unsupported algorithm blake2b512 for format sfv, using algorithm sha512".to_string())
    );
}

#[test]
fn walk_pattern_covers_every_depth() {
    assert_eq!(walk_pattern("/data"), "/data/**/*");
    assert_eq!(walk_pattern(""), "/**/*");
}

#[test]
fn the_manifest_of_the_run_gets_no_checksum() {
    assert!(!admits("/data/out/sfv.sha512", "out/sfv.sha512", true, false, false));
    assert!(!admits("/data/out/sfv.sha512", "sfv.sha512", true, false, false));
    assert!(admits("/data/out/sfv.sha512", "/data/sfv.sha512", true, false, false));
    assert!(admits("/data/out/sfv.sha512", "fv.sha512", true, false, false));
    assert!(!admits("/data/a", "/data/b", true, true, false));
    assert!(!admits("/data/a", "/data/b", false, false, false));
    assert!(!admits("/data/a", "/data/b", true, false, true));
}

#[test]
fn entries_that_get_no_checksum() {
    assert!(!should_hash(false, false, false, false));
    assert!(!should_hash(true, true, false, false));
    assert!(!should_hash(true, false, true, false));
    assert!(!should_hash(true, true, true, true));
}

#[test]
fn relative_paths_come_from_the_directory() {
    let outcomes = vec![
        task_outcome("/data/sub/deep/c.txt".to_string(), Ok(sha512(HELLO))),
        task_outcome("/other/d.txt".to_string(), Ok(sha512(WORLD))),
        task_outcome("relative/e.txt".to_string(), Ok(sha512(WORLD))),
    ];
    let mut manager = DisplayManager::new(8, 0, true);
    let manifest = collect("/data", outcomes, &mut manager).manifest;
    assert_eq!(manifest.len(), 2);
    assert_eq!(manifest.artifact(0).path, "sub/deep/c.txt");
    assert_eq!(manifest.artifact(1).path, "../other/d.txt");
    assert_eq!(manager.counters, GenerateChecksumCounters { success: 3, error: 0 });
}

#[test]
fn record_relative_skips_a_file_without_a_path() {
    let mut manifest = Manifest::new();
    assert!(!record_relative(&mut manifest, None, sha512(HELLO)));
    assert!(manifest.is_empty());
    assert!(record_relative(&mut manifest, Some("a".to_string()), sha512(HELLO)));
    assert_eq!(manifest.len(), 1);
}

#[test]
fn errors_are_counted_and_always_shown() {
    let failure = ChecksumError { filepath: "/data/b.txt".to_string(), cause: "denied".to_string() };
    let outcomes = vec![
        task_outcome("/data/a.txt".to_string(), Ok(sha512(HELLO))),
        task_outcome("/data/b.txt".to_string(), Err(failure)),
        task_outcome("/data/c.txt".to_string(), Ok(sha512(WORLD))),
    ];
    let mut manager = DisplayManager::new(32, 0, false);
    let collected = collect("/data", outcomes, &mut manager);
    assert_eq!(manager.counters, GenerateChecksumCounters { success: 2, error: 1 });
    assert_eq!(collected.manifest.len(), 2);
    assert_eq!(collected.messages.len(), 1);
    match &collected.messages[0] {
        DisplayMessage::Error(error) => {
            assert_eq!(error.filepath, "/data/b.txt");
            assert_eq!(error.message, "Failed to calculate checksum");
            assert_eq!(error.error.as_ref().unwrap().cause, "denied");
        }
        other => panic!("unexpected: {:?}", other),
    }
}

#[test]
fn results_are_shown_to_a_verbose_user() {
    let failure = ChecksumError { filepath: "/data/b.txt".to_string(), cause: "denied".to_string() };
    let outcomes = vec![
        task_outcome("/data/a.txt".to_string(), Ok(sha512(HELLO))),
        task_outcome("/data/b.txt".to_string(), Err(failure)),
    ];
    let mut manager = DisplayManager::new(32, 1, false);
    let messages = collect("/data", outcomes, &mut manager).messages;
    assert_eq!(messages.len(), 2);
    assert!(matches!(messages[0], DisplayMessage::Result(_)));
    assert!(matches!(messages[1], DisplayMessage::Error(_)));

    let failure = ChecksumError { filepath: "/data/b.txt".to_string(), cause: "denied".to_string() };
    let outcomes = vec![
        task_outcome("/data/a.txt".to_string(), Ok(sha512(HELLO))),
        task_outcome("/data/b.txt".to_string(), Err(failure)),
    ];
    let mut disabled = DisplayManager::new(32, 5, true);
    assert!(collect("/data", outcomes, &mut disabled).messages.is_empty());
    assert_eq!(disabled.counters, GenerateChecksumCounters { success: 1, error: 1 });
}

#[test]
fn manager_reports() {
    let mut manager = DisplayManager::new(16, 0, false);
    assert!(manager.display_running);
    assert!(matches!(
        manager.report_start(ManifestFormat::SFV, "/data/sfv.sha512".to_string()),
        Some(DisplayMessage::Start { .. })
    ));
    assert!(manager.start_progress_worker());
    assert!(manager.progress_running);
    assert!(manager.stop_progress_worker());
    assert!(!manager.stop_progress_worker());
    let plan = manager.report_exit();
    assert!(matches!(plan.message, Some(DisplayMessage::Exit)));
    assert!(plan.stop_display);
    assert!(!manager.display_running);

    let mut disabled = DisplayManager::new(16, 0, true);
    assert!(!disabled.display_running);
    assert!(disabled.report_start(ManifestFormat::SFV, "x".to_string()).is_none());
    assert!(!disabled.start_progress_worker());
    assert!(!disabled.progress_running);
    let plan = disabled.report_exit();
    assert!(plan.message.is_none());
    assert!(!plan.stop_display);
}

#[test]
fn progress_ticks_only_on_change() {
    let mut ticker = ProgressTicker::new();
    let mut counters = GenerateChecksumCounters { success: 0, error: 0 };
    assert!(progress_worker(&mut ticker, &counters).is_none());
    counters.success = 2;
    counters.error = 1;
    match progress_worker(&mut ticker, &counters) {
        Some(DisplayMessage::Progress(progress)) => {
            assert_eq!(progress, GenerateChecksumProgress { success: 2, error: 1 })
        }
        other => panic!("unexpected: {:?}", other),
    }
    assert!(progress_worker(&mut ticker, &counters).is_none());
    counters.success = 1;
    counters.error = 2;
    assert!(progress_worker(&mut ticker, &counters).is_none());
    counters.error = 3;
    assert!(progress_worker(&mut ticker, &counters).is_some());
    assert_eq!(ticker.last_progress, 4);
}

#[test]
fn display_worker_wipes_progress_before_the_next_output() {
    let mut worker = DisplayWorker::new();
    let step = display_worker(
        &mut worker,
        DisplayMessage::Start { format: ManifestFormat::B2SUM, filepath: "/data/artsum.b2sum".to_string() },
    );
    assert!(!step.clear_progress);
    assert!(step.newline && step.flush && !step.stop);
    assert_eq!(step.spans, vec![span("Generating /data/artsum.b2sum (b2sum)", Style::Plain)]);

    let step = display_worker(
        &mut worker,
        DisplayMessage::Progress(GenerateChecksumProgress { success: 12, error: 0 }),
    );
    assert!(!step.clear_progress && !step.newline && step.flush && !step.stop);
    assert_eq!(step.spans, vec![span("12 added", Style::Green)]);
    assert!(worker.progress_visible);

    let step = display_worker(
        &mut worker,
        DisplayMessage::Progress(GenerateChecksumProgress { success: 13, error: 2 }),
    );
    assert!(step.clear_progress);
    assert_eq!(
        step.spans,
        vec![span("13 added", Style::Green), span(" ", Style::Plain), span("2 errors", Style::Red)]
    );

    let result = GenerateChecksumResult { filepath: "/data/a.txt".to_string(), checksum: sha512(HELLO) };
    let step = display_worker(&mut worker, DisplayMessage::Result(result));
    assert!(step.clear_progress && step.newline);
    assert_eq!(step.spans, vec![span(&format!("{} /data/a.txt", HELLO), Style::Dimmed)]);
    assert!(!worker.progress_visible);

    let error = GenerateChecksumError {
        filepath: "/data/b.txt".to_string(),
        message: "Failed to calculate checksum".to_string(),
        error: None,
    };
    let step = display_worker(&mut worker, DisplayMessage::Error(error));
    assert!(!step.clear_progress);
    assert_eq!(
        step.spans,
        vec![
            span("/data/b.txt", Style::Dimmed),
            span(": ", Style::Plain),
            span("Failed to calculate checksum", Style::Red),
        ]
    );

    display_worker(&mut worker, DisplayMessage::Progress(GenerateChecksumProgress { success: 1, error: 0 }));
    let step = display_worker(&mut worker, DisplayMessage::Exit);
    assert!(step.clear_progress && step.stop && !step.flush && !step.newline);
    assert!(step.spans.is_empty());
    assert!(matches!(DisplayMessage::Exit.shown(), Shown::Exit));
}
