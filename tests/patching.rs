use codex_xtreme::{
    apply_all_events, classify_patch_file, eased_progress, is_patch_compatible, patch_file_events, patch_progress, strip_tag_prefix,
    Event, FileReport, OptimizationFlags, OptimizationMode, PatchEntry, PatchFileOutcome, PatchStatus,
    PROGRESS_SCALE,
};

#[test]
fn patch_compatibility_strips_rust_prefix() {
    assert!(is_patch_compatible(Some(">=0.100.0-alpha.1"), "rust-v0.100.0-alpha.2"));
}

#[test]
fn patch_compatibility_fails_closed_on_invalid_requirement() {
    assert!(!is_patch_compatible(Some(">=not-a-version"), "rust-v0.100.0-alpha.2"));
}

#[test]
fn compatibility_without_range_accepts_every_version() {
    assert!(is_patch_compatible(None, "rust-v0.1.0"));
}

#[test]
fn compatibility_rejects_version_outside_range() {
    assert!(!is_patch_compatible(Some(">=0.90.0"), "rust-v0.88.0"));
    assert!(is_patch_compatible(Some(">=0.88.0, <0.90.0"), "0.89.0"));
}

#[test]
fn malformed_ranges_are_never_compatible() {
    for target in ["rust-v0.1.0", "0.99.0", "rust-v1.0.0-beta.1"] {
        assert!(!is_patch_compatible(Some("not a range"), target));
        assert!(!is_patch_compatible(Some(">=1.x.y.z"), target));
    }
}

#[test]
fn tag_prefix_is_stripped_once() {
    assert_eq!(strip_tag_prefix("rust-v0.99.0"), "0.99.0");
    assert_eq!(strip_tag_prefix("0.99.0"), "0.99.0");
    assert_eq!(strip_tag_prefix("rust-vrust-v1"), "rust-v1");
}

#[test]
fn enforcing_invariants_drops_the_fast_linker() {
    for mold in [false, true] {
        for bolt in [false, true] {
            let mut f = OptimizationFlags { use_mold: mold, use_bolt: bolt };
            f.enforce_invariants();
            assert!(!(f.use_bolt && f.use_mold));
            assert_eq!(f.use_bolt, bolt);
            assert_eq!(f.use_mold, mold && !bolt);
        }
    }
}

#[test]
fn modes_never_enable_missing_tools() {
    for mode in [OptimizationMode::BuildFast, OptimizationMode::RunFast, OptimizationMode::Custom] {
        for has_mold in [false, true] {
            for has_bolt in [false, true] {
                let mut f = OptimizationFlags::from_mode(mode, has_mold, has_bolt);
                f.enforce_invariants();
                assert!(!f.use_mold || has_mold);
                assert!(!f.use_bolt || has_bolt);
            }
        }
    }
    let f = OptimizationFlags::from_mode(OptimizationMode::BuildFast, true, true);
    assert!(f.use_mold && !f.use_bolt);
    let f = OptimizationFlags::from_mode(OptimizationMode::RunFast, true, true);
    assert!(!f.use_mold && f.use_bolt);
    let f = OptimizationFlags::from_mode(OptimizationMode::Custom, true, true);
    assert!(!f.use_mold && f.use_bolt);
    let f = OptimizationFlags::from_mode(OptimizationMode::Custom, true, false);
    assert!(f.use_mold && !f.use_bolt);
}

#[test]
fn ease_out_curve_bounds_and_shape() {
    assert_eq!(eased_progress(500, 9800, 0, 350), 500);
    assert_eq!(eased_progress(500, 9800, 350, 350), 9800);
    assert_eq!(eased_progress(500, 9800, 1000, 350), 9800);
    assert_eq!(eased_progress(500, 9800, 175, 350), 8637);
    let mut last = 0;
    for c in 0..400 {
        let p = eased_progress(500, 9800, c, 350);
        assert!(p >= last);
        last = p;
    }
    assert_eq!(eased_progress(0, PROGRESS_SCALE, 0, 0), PROGRESS_SCALE);
}

fn entry(id: &str, status: PatchStatus) -> PatchEntry {
    PatchEntry { id: id.to_string(), status }
}

#[test]
fn file_with_one_applied_patch_counts_as_applied() {
    let report = FileReport::Results(vec![
        entry("a1", PatchStatus::Failed { file: "x.rs".to_string(), reason: "anchor missing".to_string() }),
        entry("a2", PatchStatus::Applied { file: "y.rs".to_string() }),
    ]);
    assert_eq!(classify_patch_file(&"A".to_string(), &report), PatchFileOutcome::Applied("A".to_string()));
}

#[test]
fn file_with_no_applied_patch_reports_first_reason() {
    let report = FileReport::Results(vec![
        entry("b1", PatchStatus::SkippedVersion { reason: "needs >=0.99".to_string() }),
        entry("b2", PatchStatus::Error { message: "io".to_string() }),
    ]);
    assert_eq!(
        classify_patch_file(&"B".to_string(), &report),
        PatchFileOutcome::Skipped { name: "B".to_string(), reason: "needs >=0.99".to_string() }
    );
    let empty = FileReport::Results(vec![]);
    assert_eq!(classify_patch_file(&"C".to_string(), &empty), PatchFileOutcome::Untouched);
    let fault = FileReport::Fault("patch routine crashed".to_string());
    assert_eq!(
        classify_patch_file(&"D".to_string(), &fault),
        PatchFileOutcome::Skipped { name: "D".to_string(), reason: "patch routine crashed".to_string() }
    );
    let already = FileReport::Results(vec![entry("e1", PatchStatus::AlreadyApplied { file: "z.rs".to_string() })]);
    assert_eq!(classify_patch_file(&"E".to_string(), &already), PatchFileOutcome::Applied("E".to_string()));
}

#[test]
fn apply_all_emits_file_outcomes_and_reaches_full_progress() {
    let names = vec!["A".to_string(), "B".to_string()];
    let reports = vec![
        FileReport::Results(vec![
            entry("a1", PatchStatus::Applied { file: "x.rs".to_string() }),
            entry("a2", PatchStatus::Failed { file: "y.rs".to_string(), reason: "no match".to_string() }),
        ]),
        FileReport::Results(vec![entry("b1", PatchStatus::SkippedVersion { reason: "version".to_string() })]),
    ];
    let mut events = Vec::new();
    for i in 0..names.len() {
        events.extend(patch_file_events(i, names.len(), 0, PROGRESS_SCALE, &names[i], &reports[i]));
    }
    assert!(matches!(&events[0], Event::PatchFileApplied(n) if n == "A"));
    assert!(matches!(&events[1], Event::Progress(5000)));
    assert!(matches!(&events[2], Event::PatchFileSkipped { name, reason } if name == "B" && reason == "version"));
    assert!(matches!(events.last(), Some(Event::Progress(p)) if *p == PROGRESS_SCALE));
}

#[test]
fn patch_progress_is_monotone_within_band() {
    assert_eq!(patch_progress(200, 500, 0, 3), 200);
    assert_eq!(patch_progress(200, 500, 1, 3), 300);
    assert_eq!(patch_progress(200, 500, 3, 3), 500);
    assert_eq!(patch_progress(200, 500, 0, 0), 500);
}

#[test]
fn apply_all_opens_at_zero_and_ends_at_full() {
    let names = vec!["A".to_string(), "B".to_string()];
    let reports = vec![
        FileReport::Results(vec![
            entry("a1", PatchStatus::Applied { file: "x.rs".to_string() }),
            entry("a2", PatchStatus::Failed { file: "y.rs".to_string(), reason: "no match".to_string() }),
        ]),
        FileReport::Results(vec![entry("b1", PatchStatus::SkippedVersion { reason: "version".to_string() })]),
    ];
    let events = apply_all_events(&names, &reports, 0, PROGRESS_SCALE);
    let progress: Vec<u32> = events.iter().filter_map(|e| if let Event::Progress(p) = e { Some(*p) } else { None }).collect();
    assert_eq!(progress, vec![0, 5000, 10000]);
    assert!(events.iter().any(|e| matches!(e, Event::PatchFileApplied(n) if n == "A")));
    assert!(events.iter().any(|e| matches!(e, Event::PatchFileSkipped { name, reason } if name == "B" && reason == "version")));
    assert!(matches!(apply_all_events(&vec![], &vec![], 0, PROGRESS_SCALE).as_slice(), [Event::Progress(0)]));
}
