//! Build orchestration engine for producing optimized, source-patched binaries.
//!
//! The library holds the decision logic of the build wizard: optimization
//! flag derivation, patch outcome classification, the compile auto-fix state
//! machine, the profile-guided rewrite pipeline, the top-level phase machine,
//! and the state of the interactive screens. Everything that touches processes,
//! files or the terminal stays with the caller, which feeds outcomes back in.

pub mod flags;
pub mod progress;
pub mod text;
pub mod events;
pub mod patching;
pub mod compile;
pub mod optimize;
pub mod git;
pub mod orchestrator;
mod text_field;
pub mod frame;
pub mod input;
pub mod cherry_pick;
pub mod clone;
pub mod patch_select;
pub mod repo_select;
pub mod version_select;
pub mod boot;
pub mod build_config;
pub mod list;
pub mod cpu;
pub mod repo;
pub mod screen;
pub mod workspace;
pub mod bridge;
pub mod wizard;

pub use flags::{OptimizationFlags, OptimizationMode};
pub use progress::{eased_progress, PROGRESS_SCALE};
pub use events::{Event, Phase};
pub use patching::{
    apply_all_events, classify_patch_file, is_patch_compatible, patch_file_events, patch_progress, strip_tag_prefix, FileReport,
    PatchEntry, PatchFileOutcome, PatchStatus,
};
pub use compile::{
    after_apply, after_build, after_fixes, cargo_build_args, compile_start, fallback_binary_path, is_executable_path_exec, rustflags, unfixable_text,
    AttemptResult, BuildStream, CargoMessage, CompileStep, DiagLevel, ESTIMATED_UNITS, MAX_FIX_ATTEMPTS,
};
pub use optimize::{
    convert_failure_message, convert_needs_no_lbr_flag, optimized_path, rewrite_next, rewrite_start,
    temporary_output_path, RewriteStage, StageResult,
};
pub use git::{cherry_pick_outcome, CherryPickOutcome};
pub use orchestrator::{
    Action, BuildOptions, BuildRequest, BuildRun, Outcome, TestRun, CHECKOUT_DONE, COMPILE_DONE, PATCHING_DONE,
    RUN_DONE,
};
pub use boot::{BootScreen, CheckStatus, SystemCheck};
pub use build_config::{BuildConfigScreen, ConfigOption};
pub use cherry_pick::CherryPickScreen;
pub use clone::{CloneScreen, CloneStatus};
pub use cpu::{cpu_display_name, detect_cpu_family, detect_cpu_target, CpuTarget, DetectionMethod};
pub use input::InputScreen;
pub use list::{CheckList, ListItem, ListStatus, Panel, SelectList, Spinner};
pub use patch_select::{PatchInfo, PatchSelectScreen};
pub use repo::{clone_target, current_version_from, parse_releases, repo_age, CloneTarget, PrerequisiteError, Release};
pub use workspace::{updated_rc, version_from_manifest, with_build_profile};
pub use repo_select::RepoSelectScreen;
pub use screen::Screen;
pub use version_select::{VersionInfo, VersionSelectScreen};
pub use bridge::RunView;
pub use wizard::{Key, Request, Wizard};
