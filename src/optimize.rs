use vstd::prelude::*;
use crate::events::Event;
use crate::text::{chars_of, string_of, join, push_text, trim_ascii, trimmed, contains, contains_seq};

verus! {

/// How one subprocess stage of the rewrite pipeline ended.
#[derive(Clone, Debug)]
pub struct StageResult {
    /// The process started and exited successfully.
    pub success: bool,
    /// Its standard error output.
    pub stderr: String,
    /// Its exit status, as text, for when `stderr` is empty.
    pub status: String,
}

/// State of the profile-guided rewrite pipeline.
#[derive(Clone, Debug)]
pub enum RewriteStage {
    /// Sample the program with branch records.
    ProfileBranchRecords,
    /// Sample the program with plain cycle sampling.
    ProfilePlain,
    /// Convert the samples; `branch_records` tells whether they have them.
    Convert { branch_records: bool },
    /// Rewrite the program into a temporary file and move it into place.
    Rewrite,
    Done,
    Failed(String),
}

/// Stage error text: the trimmed standard error, or the exit status when
/// the tool printed nothing.
pub open spec fn tool_error(r: StageResult) -> Seq<char> {
    if trimmed(r.stderr@).len() == 0 { r.status@ } else { trimmed(r.stderr@) }
}

/// The error text by which the converter reports a fast-linker PLT it cannot
/// disassemble.
pub open spec fn plt_error_text() -> Seq<char> {
    "unable to disassemble instruction in PLT section .plt at offset 0x10"@
}

pub open spec fn plt_hint() -> Seq<char> {
    " (known issue with mold-linked binaries; rebuild without mold to use BOLT)"@
}

/// The message for a failed profile conversion.
pub open spec fn convert_failure(r: StageResult) -> Seq<char> {
    if contains_seq(trimmed(r.stderr@), plt_error_text()) {
        "perf2bolt conversion failed: "@ + trimmed(r.stderr@) + plt_hint()
    } else {
        "perf2bolt conversion failed: "@ + tool_error(r)
    }
}

fn tool_error_text(r: &StageResult) -> (t: String)
    ensures
        t@ == tool_error(*r),
{
    let e = trim_ascii(&chars_of(r.stderr.as_str()));
    if e.len() == 0 {
        r.status.clone()
    } else {
        string_of(&e)
    }
}

/// The failure message of the conversion stage; the known fast-linker
/// incompatibility gets an actionable hint.
pub fn convert_failure_message(r: &StageResult) -> (m: String)
    ensures
        m@ == convert_failure(*r),
{
    let e = trim_ascii(&chars_of(r.stderr.as_str()));
    let known = chars_of("unable to disassemble instruction in PLT section .plt at offset 0x10");
    if contains(&e, &known) {
        let mut m = join("perf2bolt conversion failed: ", string_of(&e).as_str());
        push_text(&mut m, " (known issue with mold-linked binaries; rebuild without mold to use BOLT)");
        m
    } else {
        join("perf2bolt conversion failed: ", tool_error_text(r).as_str())
    }
}

/// The pipeline's first state and the event that announces profiling.
pub fn rewrite_start() -> (r: (RewriteStage, Vec<Event>))
    ensures
        r.0 is ProfileBranchRecords,
        r.1@.len() == 1,
        r.1@[0] is CurrentItem,
{
    let mut v: Vec<Event> = Vec::new();
    v.push(Event::CurrentItem(String::from_str("Profiling binary with perf LBR (run some typical commands)...")));
    (RewriteStage::ProfileBranchRecords, v)
}

/// Next state of the pipeline after the current stage ended with `r`.
///
/// Branch-record sampling that fails falls back once to plain sampling; any
/// later failure ends the pipeline with a message. A finished or failed
/// pipeline stays where it is.
pub fn rewrite_next(stage: &RewriteStage, r: &StageResult) -> (out: (RewriteStage, Vec<Event>))
    ensures
        stage is ProfileBranchRecords && r.success ==> out.0 == (RewriteStage::Convert { branch_records: true }),
        stage is ProfileBranchRecords && !r.success ==> out.0 is ProfilePlain
            && out.1@.len() == 1 && out.1@[0] is Log,
        stage is ProfilePlain && r.success ==> out.0 == (RewriteStage::Convert { branch_records: false }),
        stage is ProfilePlain && !r.success ==> (out.0 matches RewriteStage::Failed(m)
            && m@ == "perf record failed: "@ + tool_error(*r)),
        stage is Convert && r.success ==> out.0 is Rewrite,
        stage is Convert && !r.success ==> (out.0 matches RewriteStage::Failed(m) && m@ == convert_failure(*r)),
        stage is Rewrite && r.success ==> out.0 is Done,
        stage is Rewrite && !r.success ==> (out.0 matches RewriteStage::Failed(m)
            && m@ == "llvm-bolt optimization failed: "@ + tool_error(*r)),
        stage is Done ==> out.0 is Done && out.1@.len() == 0,
        stage is Failed ==> out.0 == *stage && out.1@.len() == 0,
{
    let mut v: Vec<Event> = Vec::new();
    match stage {
        RewriteStage::ProfileBranchRecords => {
            if r.success {
                v.push(Event::CurrentItem(String::from_str("Converting perf profile (perf2bolt)...")));
                (RewriteStage::Convert { branch_records: true }, v)
            } else {
                v.push(Event::Log(String::from_str("perf LBR record failed; falling back to non-LBR profiling")));
                (RewriteStage::ProfilePlain, v)
            }
        },
        RewriteStage::ProfilePlain => {
            if r.success {
                v.push(Event::CurrentItem(String::from_str("Converting perf profile (perf2bolt)...")));
                (RewriteStage::Convert { branch_records: false }, v)
            } else {
                (RewriteStage::Failed(join("perf record failed: ", tool_error_text(r).as_str())), v)
            }
        },
        RewriteStage::Convert { .. } => {
            if r.success {
                v.push(Event::CurrentItem(String::from_str("Optimizing with llvm-bolt...")));
                (RewriteStage::Rewrite, v)
            } else {
                (RewriteStage::Failed(convert_failure_message(r)), v)
            }
        },
        RewriteStage::Rewrite => {
            if r.success {
                (RewriteStage::Done, v)
            } else {
                (RewriteStage::Failed(join("llvm-bolt optimization failed: ", tool_error_text(r).as_str())), v)
            }
        },
        RewriteStage::Done => (RewriteStage::Done, v),
        RewriteStage::Failed(m) => (RewriteStage::Failed(m.clone()), v),
    }
}

/// Whether the converter must be told that the samples carry no branch
/// records.
pub fn convert_needs_no_lbr_flag(stage: &RewriteStage) -> (r: bool)
    ensures
        r <==> (*stage matches RewriteStage::Convert { branch_records } && !branch_records),
{
    match stage {
        RewriteStage::Convert { branch_records } => if *branch_records { false } else { true },
        _ => false,
    }
}

/// Path of the rewritten program, next to the program it was made from.
pub fn optimized_path(binary: &str) -> (r: String)
    ensures
        r@ == binary@ + "-optimized"@,
{
    join(binary, "-optimized")
}

/// Path of the rewriter's temporary output, moved into place on success.
pub fn temporary_output_path(binary: &str) -> (r: String)
    ensures
        r@ == binary@ + ".bolt.tmp"@,
{
    join(binary, ".bolt.tmp")
}

/// A failed conversion that reports the fast-linker PLT error always carries
/// the hint to rebuild without the fast linker.
pub proof fn lemma_plt_failure_is_actionable(r: StageResult)
    requires
        contains_seq(trimmed(r.stderr@), plt_error_text()),
    ensures
        convert_failure(r) == "perf2bolt conversion failed: "@ + trimmed(r.stderr@) + plt_hint(),
{
}

} // verus!
