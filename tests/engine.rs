use codex_xtreme::{
    after_apply, after_build, after_fixes, cherry_pick_outcome, compile_start, convert_failure_message,
    convert_needs_no_lbr_flag, is_executable_path_exec, optimized_path, rewrite_next, rewrite_start, rustflags,
    unfixable_text, Action, AttemptResult, BuildOptions, BuildRequest, BuildRun, BuildStream, CherryPickOutcome,
    CompileStep, Event, OptimizationFlags, Outcome, Phase, RewriteStage, StageResult, TestRun, MAX_FIX_ATTEMPTS,
    RUN_DONE,
};

#[test]
fn cherry_pick_skips_only_conflicting_commits() {
    let shas = vec!["ok1".to_string(), "conflict1".to_string(), "ok2".to_string()];
    let out = cherry_pick_outcome(&shas, &vec![true, false, true]);
    assert_eq!(out.skipped, vec!["conflict1".to_string()]);
    let mut o = CherryPickOutcome::new();
    o.record(&"a".to_string(), true);
    o.record(&"b".to_string(), false);
    assert_eq!(o.skipped, vec!["b".to_string()]);
}

#[test]
fn autofix_succeeds_on_second_attempt() {
    let mut step = compile_start();
    let mut attempts = 0;
    let results = [AttemptResult::CompileFailed, AttemptResult::Built("/w/target/xtreme/codex".to_string())];
    let mut next_result = results.into_iter();
    loop {
        step = match step {
            CompileStep::Build { attempt } => {
                attempts = attempt;
                after_build(attempt, next_result.next().unwrap()).0
            }
            CompileStep::Fix { attempt } => after_fixes(attempt, 3, &vec![]),
            CompileStep::Apply { attempt } => after_apply(attempt, None, 0).0,
            done => break step = done,
        };
    }
    assert_eq!(attempts, 2);
    assert!(matches!(step, CompileStep::Succeeded(p) if p == "/w/target/xtreme/codex"));
}

#[test]
fn autofix_stops_when_no_edits_are_proposed() {
    let (step, events) = after_build(1, AttemptResult::CompileFailed);
    assert!(matches!(step, CompileStep::Fix { attempt: 1 }));
    assert!(matches!(&events[0], Event::Log(t) if t == "Build failed (attempt 1/5), trying auto-fixes..."));
    let step = after_fixes(1, 0, &vec!["error[E0425]: x".to_string()]);
    match step {
        CompileStep::Failed(m) => {
            assert_eq!(m, "Build failed with 1 unfixable error(s).\n\n--- error 1 ---\nerror[E0425]: x");
        }
        other => panic!("unexpected {:?}", other),
    }
}

#[test]
fn autofix_never_exceeds_attempt_bound() {
    let mut step = compile_start();
    let mut builds = 0;
    loop {
        step = match step {
            CompileStep::Build { attempt } => {
                builds += 1;
                assert!(attempt <= MAX_FIX_ATTEMPTS);
                after_build(attempt, AttemptResult::CompileFailed).0
            }
            CompileStep::Fix { attempt } => after_fixes(attempt, 1, &vec![]),
            CompileStep::Apply { attempt } => after_apply(attempt, None, 0).0,
            done => break step = done,
        };
    }
    assert_eq!(builds, 5);
    assert!(matches!(step, CompileStep::Failed(m) if m == "Build failed after 5 auto-fix attempts."));
}

#[test]
fn edit_batch_failure_is_fatal() {
    let (step, _) = after_apply(2, Some("stale file".to_string()), 0);
    assert!(matches!(step, CompileStep::Failed(m) if m == "Failed to apply auto-fixes: stale file"));
}

#[test]
fn unfixable_message_shows_at_most_two_errors() {
    let m = unfixable_text(&vec!["e1".to_string(), "e2".to_string(), "e3".to_string()]);
    assert_eq!(m, "Build failed with 3 unfixable error(s).\n\n--- error 1 ---\ne1\n\n--- error 2 ---\ne2");
    assert_eq!(unfixable_text(&vec![]), "Build failed with 1 unfixable error(s).");
}

#[test]
fn rustflags_join_the_chosen_flags() {
    assert_eq!(rustflags(None, false, false), None);
    assert_eq!(
        rustflags(Some("znver4"), true, false),
        Some("-C target-cpu=znver4 -C link-arg=-fuse-ld=mold".to_string())
    );
    assert_eq!(rustflags(None, false, true), Some("-C link-arg=-Wl,--emit-relocs".to_string()));
}

#[test]
fn executable_paths_are_recognised() {
    assert!(is_executable_path_exec("/w/target/xtreme/codex"));
    assert!(is_executable_path_exec("C:\\w\\codex.EXE"));
    assert!(is_executable_path_exec("/w/target/.hidden"));
    assert!(!is_executable_path_exec("/w/target/xtreme/codex.d"));
    assert!(!is_executable_path_exec("/w/target/xtreme/libcodex.rlib"));
}

const ARTIFACT: &str = r#"{"reason":"compiler-artifact","package_id":"codex-cli 0.1.0 (path+file:///w/cli)","manifest_path":"/w/cli/Cargo.toml","target":{"kind":["bin"],"crate_types":["bin"],"name":"codex","src_path":"/w/cli/src/main.rs","edition":"2021","doc":true,"doctest":false,"test":true,"required-features":[]},"profile":{"opt_level":"3","debuginfo":0,"debug_assertions":false,"overflow_checks":false,"test":false},"features":[],"filenames":["/w/target/xtreme/codex.d","/w/target/xtreme/codex"],"executable":"/w/target/xtreme/codex","fresh":false}"#;

#[test]
fn build_stream_reads_artifacts_and_failures() {
    let mut s = BuildStream::new();
    assert!(s.consume_line("   Compiling foo v0.1.0", "codex", 500, 9800).is_empty());
    assert_eq!(s.artifact_count, 0);
    let events = s.consume_line(ARTIFACT, "codex", 500, 9800);
    assert_eq!(s.artifact_count, 1);
    assert_eq!(s.binary_path.as_deref(), Some("/w/target/xtreme/codex"));
    assert!(matches!(&events[0], Event::CurrentItem(t) if t == "[1] codex"));
    assert!(matches!(&events[1], Event::Progress(p) if *p > 500));
    assert!(!s.failed);
    s.consume_line(r#"{"reason":"build-finished","success":false}"#, "codex", 500, 9800);
    assert!(s.failed);
    s.consume_line("{not json", "codex", 500, 9800);
    assert_eq!(s.artifact_count, 1);
}

fn stage(success: bool, stderr: &str) -> StageResult {
    StageResult { success, stderr: stderr.to_string(), status: "exit status: 1".to_string() }
}

#[test]
fn rewrite_falls_back_to_plain_sampling_once() {
    let (s, ev) = rewrite_start();
    assert!(matches!(s, RewriteStage::ProfileBranchRecords));
    assert_eq!(ev.len(), 1);
    let (s, ev) = rewrite_next(&s, &stage(false, ""));
    assert!(matches!(s, RewriteStage::ProfilePlain));
    assert!(matches!(&ev[0], Event::Log(_)));
    let (s, _) = rewrite_next(&s, &stage(true, ""));
    assert!(matches!(s, RewriteStage::Convert { branch_records: false }));
    assert!(convert_needs_no_lbr_flag(&s));
    let (s, _) = rewrite_next(&s, &stage(true, ""));
    assert!(matches!(s, RewriteStage::Rewrite));
    let (s, _) = rewrite_next(&s, &stage(false, "  boom \n"));
    assert!(matches!(s, RewriteStage::Failed(m) if m == "llvm-bolt optimization failed: boom"));
    let (s, _) = rewrite_next(&RewriteStage::ProfilePlain, &stage(false, "   "));
    assert!(matches!(s, RewriteStage::Failed(m) if m == "perf record failed: exit status: 1"));
    assert_eq!(optimized_path("/w/codex"), "/w/codex-optimized");
}

#[test]
fn plt_conversion_failure_gets_actionable_hint() {
    let r = stage(false, "BOLT-ERROR: unable to disassemble instruction in PLT section .plt at offset 0x10\n");
    let m = convert_failure_message(&r);
    assert!(m.contains("rebuild without mold"));
    assert!(m.starts_with("perf2bolt conversion failed: BOLT-ERROR"));
    let other = convert_failure_message(&stage(false, "other"));
    assert_eq!(other, "perf2bolt conversion failed: other");
}

fn request(flags: OptimizationFlags, patches: Vec<String>) -> BuildRequest {
    BuildRequest {
        repo: "/w".to_string(),
        workspace: "/w/codex-rs".to_string(),
        revision: "rust-v0.99.0".to_string(),
        cherry_picks: vec![],
        patch_files: patches,
        options: BuildOptions {
            profile: "xtreme".to_string(),
            cpu_target: None,
            optimization: flags,
            strip_symbols: false,
            run_tests: false,
            setup_alias: false,
            cargo_jobs: None,
        },
    }
}

fn phases(events: &[Event]) -> Vec<Phase> {
    events.iter().filter_map(|e| if let Event::Phase(p) = e { Some(*p) } else { None }).collect()
}

#[test]
fn build_fast_run_reaches_complete_without_optimizing() {
    let flags = OptimizationFlags::from_mode(codex_xtreme::OptimizationMode::BuildFast, true, true);
    let (mut run, mut events) = BuildRun::start(request(flags, vec![]));
    assert_eq!(run.next_action(), Action::InspectTree);
    events.extend(run.advance(Outcome::TreeInspected { dirty: false }, 0));
    assert_eq!(run.next_action(), Action::Checkout);
    events.extend(run.advance(Outcome::CheckedOut(Ok(())), 0));
    assert_eq!(run.next_action(), Action::InjectProfile);
    events.extend(run.advance(Outcome::ProfileInjected(Ok(())), 0));
    assert_eq!(run.next_action(), Action::Compile);
    events.extend(run.advance(Outcome::Compiled(Ok("/w/codex-rs/target/xtreme/codex".to_string())), 42));
    assert!(run.is_done());
    assert_eq!(phases(&events), vec![Phase::Patching, Phase::Compiling]);
    let progress: Vec<u32> = events.iter().filter_map(|e| if let Event::Progress(p) = e { Some(*p) } else { None }).collect();
    assert!(progress.windows(2).all(|w| w[0] <= w[1]));
    assert_eq!(*progress.last().unwrap(), RUN_DONE);
    assert!(matches!(events.last(), Some(Event::Complete { binary_path, elapsed_secs: 42 }) if binary_path == "/w/codex-rs/target/xtreme/codex"));
    assert!(run.advance(Outcome::TreeInspected { dirty: true }, 0).is_empty());
}

#[test]
fn run_fast_survives_plt_conversion_failure() {
    let flags = OptimizationFlags::from_mode(codex_xtreme::OptimizationMode::RunFast, true, true);
    let (mut run, mut events) = BuildRun::start(request(flags, vec![]));
    events.extend(run.advance(Outcome::TreeInspected { dirty: true }, 0));
    assert_eq!(run.next_action(), Action::Stash);
    events.extend(run.advance(Outcome::Stashed(Ok(())), 0));
    events.extend(run.advance(Outcome::CheckedOut(Ok(())), 0));
    events.extend(run.advance(Outcome::ProfileInjected(Ok(())), 0));
    events.extend(run.advance(Outcome::Compiled(Ok("/w/codex".to_string())), 0));
    assert_eq!(run.next_action(), Action::Optimize("/w/codex".to_string()));
    let (mut stage_now, ev) = rewrite_start();
    events.extend(ev);
    let mut failure = None;
    for r in [stage(true, ""), stage(false, "unable to disassemble instruction in PLT section .plt at offset 0x10")] {
        let (next, ev) = rewrite_next(&stage_now, &r);
        events.extend(ev);
        stage_now = next;
        if let RewriteStage::Failed(m) = &stage_now {
            failure = Some(m.clone());
        }
    }
    events.extend(run.advance(Outcome::Optimized(Err(failure.unwrap())), 7));
    assert!(run.is_done());
    assert!(events.iter().any(|e| matches!(e, Event::Log(t) if t.contains("rebuild without mold"))));
    assert!(!events.iter().any(|e| matches!(e, Event::Error { .. })));
    assert!(matches!(events.last(), Some(Event::Complete { binary_path, .. }) if binary_path == "/w/codex"));
    assert_eq!(phases(&events), vec![Phase::Patching, Phase::Compiling, Phase::Optimizing]);
}

#[test]
fn checkout_failure_is_the_single_terminal_event() {
    let (mut run, _) = BuildRun::start(request(OptimizationFlags { use_mold: true, use_bolt: true }, vec![]));
    assert!(!run.request().options.optimization.use_mold);
    run.advance(Outcome::TreeInspected { dirty: false }, 0);
    let ev = run.advance(Outcome::CheckedOut(Err("no such revision".to_string())), 0);
    assert_eq!(ev.len(), 1);
    assert!(matches!(&ev[0], Event::Error { message } if message == "Checkout failed: no such revision"));
    assert!(run.is_done());
    assert!(run.advance(Outcome::CheckedOut(Ok(())), 0).is_empty());
}

#[test]
fn compile_failure_ends_the_run() {
    let (mut run, _) = BuildRun::start(request(OptimizationFlags { use_mold: false, use_bolt: false }, vec![]));
    run.advance(Outcome::TreeInspected { dirty: false }, 0);
    run.advance(Outcome::CheckedOut(Ok(())), 0);
    run.advance(Outcome::ProfileInjected(Ok(())), 0);
    let ev = run.advance(Outcome::Compiled(Err("Build failed after 5 auto-fix attempts.".to_string())), 0);
    assert_eq!(ev.len(), 1);
    assert!(matches!(&ev[0], Event::Error { .. }));
}

#[test]
fn full_run_with_patches_and_finishing_steps() {
    let mut req = request(OptimizationFlags { use_mold: true, use_bolt: false }, vec!["p/a.toml".to_string()]);
    req.cherry_picks = vec!["abc".to_string()];
    req.options.strip_symbols = true;
    req.options.run_tests = true;
    req.options.setup_alias = true;
    let (mut run, mut events) = BuildRun::start(req);
    events.extend(run.advance(Outcome::TreeInspected { dirty: false }, 0));
    events.extend(run.advance(Outcome::CheckedOut(Ok(())), 0));
    assert_eq!(run.next_action(), Action::CherryPick);
    events.extend(run.advance(Outcome::CherryPicked(Ok(CherryPickOutcome { skipped: vec!["abc".to_string()] })), 0));
    assert_eq!(run.next_action(), Action::ApplyPatchFile(0));
    let report = codex_xtreme::FileReport::Results(vec![]);
    events.extend(run.advance(Outcome::PatchFileDone { name: "a".to_string(), report }, 0));
    assert_eq!(run.next_action(), Action::InjectProfile);
    events.extend(run.advance(Outcome::ProfileInjected(Ok(())), 0));
    events.extend(run.advance(Outcome::Compiled(Ok("/w/codex".to_string())), 0));
    assert_eq!(run.next_action(), Action::Strip("/w/codex".to_string()));
    events.extend(run.advance(Outcome::Stripped(Err("strip missing".to_string())), 0));
    assert_eq!(run.next_action(), Action::Test);
    events.extend(run.advance(Outcome::Tested(vec![TestRun { name: "cargo check".to_string(), passed: false }]), 0));
    assert_eq!(run.next_action(), Action::Install("/w/codex".to_string()));
    events.extend(run.advance(Outcome::Installed(Err("read-only rc".to_string())), 3));
    assert!(run.is_done());
    assert_eq!(phases(&events), vec![Phase::Patching, Phase::Compiling, Phase::Testing, Phase::Installing]);
    assert!(events.iter().any(|e| matches!(e, Event::Log(t) if t == "Skipped conflicting commit abc")));
    assert!(!events.iter().any(|e| matches!(e, Event::Error { .. })));
    assert!(matches!(events.last(), Some(Event::Complete { elapsed_secs: 3, .. })));
}

#[test]
fn run_view_detects_completion_by_content() {
    let mut v = codex_xtreme::RunView::new();
    let batch = vec![Event::Phase(Phase::Compiling), Event::Progress(500), Event::Log("x".to_string())];
    assert!(!v.apply_batch(&batch));
    assert_eq!(v.progress, 500);
    assert_eq!(v.phase, Some(Phase::Compiling));
    let end = vec![Event::Complete { binary_path: "/b".to_string(), elapsed_secs: 9 }, Event::Log("late".to_string())];
    assert!(v.apply_batch(&end));
    assert_eq!(v.completed, Some(("/b".to_string(), 9)));
    assert_eq!(v.logs, vec!["x".to_string()]);
}
