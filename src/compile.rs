use vstd::prelude::*;
use cargo_metadata::Message;
use cargo_metadata::diagnostic::DiagnosticLevel as Lv;
use crate::events::Event;
use crate::progress::{eased_progress, band_progress, PROGRESS_SCALE};
use crate::text::{chars_of, string_of, join, decimal, decimal_digits, push_text};

verus! {

/// Upper bound on build attempts of the auto-fix loop.
pub const MAX_FIX_ATTEMPTS: usize = 5;

/// Estimated number of compiled units of a full build, for progress.
pub const ESTIMATED_UNITS: u32 = 350;

/// Severity of a compiler diagnostic.
#[derive(Clone, Copy, Debug, PartialEq, Eq, Structural)]
pub enum DiagLevel {
    InternalError,
    Error,
    Warning,
    FailureNote,
    Note,
    Help,
    /// A severity this library does not know.
    Unknown,
}

/// Only error diagnostics are handed to the auto-fixer.
pub open spec fn is_error_level(l: DiagLevel) -> bool {
    l == DiagLevel::Error
}

/// One message of the build tool's structured output, reduced to what the
/// build loop reads.
#[derive(Clone, Debug)]
pub enum CargoMessage {
    Artifact { target: String, filenames: Vec<String> },
    Diagnostic { level: DiagLevel },
    BuildFinished { success: bool },
    Other,
}

/// The mathematical content of a `CargoMessage`.
pub enum MessageView {
    Artifact { target: Seq<char>, filenames: Seq<Seq<char>> },
    Diagnostic { level: DiagLevel },
    BuildFinished { success: bool },
    Other,
}

pub open spec fn message_view(m: CargoMessage) -> MessageView {
    match m {
        CargoMessage::Artifact { target, filenames } =>
            MessageView::Artifact { target: target@, filenames: filenames@.map_values(|f: String| f@) },
        CargoMessage::Diagnostic { level } => MessageView::Diagnostic { level },
        CargoMessage::BuildFinished { success } => MessageView::BuildFinished { success },
        CargoMessage::Other => MessageView::Other,
    }
}

/// What the build tool's message decoder makes of one line: `None` where the
/// line is not a message it knows.
pub uninterp spec fn cargo_message_of(line: Seq<char>) -> Option<MessageView>;

/// Relies on `serde_json::from_str` into `cargo_metadata::Message`: the
/// decoded message depends on the line alone.
#[verifier::external_body]
fn parse_cargo_message(line: &str) -> (r: Option<CargoMessage>)
    ensures
        r is None <==> cargo_message_of(line@) is None,
        r is Some ==> cargo_message_of(line@) == Some(message_view(r->Some_0)),
{
    match serde_json::from_str::<Message>(line).ok()? {
        Message::CompilerArtifact(a) => Some(CargoMessage::Artifact {
            target: a.target.name,
            filenames: a.filenames.into_iter().map(|f| f.into_string()).collect(),
        }),
        Message::CompilerMessage(m) => Some(CargoMessage::Diagnostic { level: match m.message.level {
            Lv::Ice => DiagLevel::InternalError, Lv::Error => DiagLevel::Error, Lv::Warning => DiagLevel::Warning,
            Lv::FailureNote => DiagLevel::FailureNote, Lv::Note => DiagLevel::Note, Lv::Help => DiagLevel::Help,
            _ => DiagLevel::Unknown,
        } }),
        Message::BuildFinished(f) => Some(CargoMessage::BuildFinished { success: f.success }),
        _ => Some(CargoMessage::Other),
    }
}

/// Index of the last occurrence of `c` in `s`, or -1.
pub open spec fn last_index_of(s: Seq<char>, c: char) -> int
    decreases s.len(),
{
    if s.len() == 0 {
        -1
    } else if s.last() == c {
        s.len() - 1
    } else {
        last_index_of(s.drop_last(), c)
    }
}

proof fn lemma_last_index_bounds(s: Seq<char>, c: char)
    ensures
        -1 <= last_index_of(s, c) < s.len(),
        last_index_of(s, c) >= 0 ==> s[last_index_of(s, c)] == c,
    decreases s.len(),
{
    if s.len() > 0 && s.last() != c {
        lemma_last_index_bounds(s.drop_last(), c);
    }
}

/// One past the index of the last occurrence of `c`, or 0.
fn find_last(s: &Vec<char>, c: char) -> (r: usize)
    ensures
        r == last_index_of(s@, c) + 1,
{
    let mut i: usize = s.len();
    assert(s@.subrange(0, i as int) == s@);
    while i > 0
        invariant
            i <= s.len(),
            last_index_of(s@, c) == last_index_of(s@.subrange(0, i as int), c),
        decreases i,
    {
        let pre = Ghost(s@.subrange(0, i as int));
        if s[i - 1] == c {
            assert(pre@.last() == c);
            return i;
        }
        assert(pre@.drop_last() == s@.subrange(0, i - 1));
        i = i - 1;
    }
    assert(s@.subrange(0, 0).len() == 0);
    0
}

/// The last path component.
pub open spec fn file_name(p: Seq<char>) -> Seq<char> {
    p.subrange(last_index_of(p, '/') + 1, p.len() as int)
}

pub open spec fn is_exe_extension(e: Seq<char>) -> bool {
    e.len() == 3 && (e[0] == 'e' || e[0] == 'E') && (e[1] == 'x' || e[1] == 'X') && (e[2] == 'e' || e[2] == 'E')
}

/// A file that can be the built program: its name has no extension, an
/// empty one, or `exe` in any letter case.
pub open spec fn is_executable_path(p: Seq<char>) -> bool {
    let n = file_name(p);
    let d = last_index_of(n, '.');
    d <= 0 || is_exe_extension(n.subrange(d + 1, n.len() as int)) || d == n.len() - 1
}

/// Whether a produced file is the program itself rather than a library or
/// debug-info artifact.
pub fn is_executable_path_exec(p: &str) -> (r: bool)
    ensures
        r == is_executable_path(p@),
{
    let cs = chars_of(p);
    let slash = find_last(&cs, '/');
    proof {
        lemma_last_index_bounds(cs@, '/');
    }
    let start: usize = slash;
    let mut name: Vec<char> = Vec::new();
    let mut i: usize = start;
    while i < cs.len()
        invariant
            start <= i <= cs.len(),
            name@ == cs@.subrange(start as int, i as int),
        decreases cs.len() - i,
    {
        name.push(cs[i]);
        assert(cs@.subrange(start as int, i + 1) == cs@.subrange(start as int, i as int).push(cs@[i as int]));
        i = i + 1;
    }
    let dot = find_last(&name, '.');
    proof {
        lemma_last_index_bounds(name@, '.');
    }
    if dot <= 1 {
        return true;
    }
    let d: usize = dot - 1;
    if d == name.len() - 1 {
        return true;
    }
    if name.len() - d - 1 != 3 {
        return false;
    }
    let a = name[d + 1];
    let b = name[d + 2];
    let c = name[d + 3];
    proof {
        let e = name@.subrange(d + 1, name@.len() as int);
        assert(e[0] == a && e[1] == b && e[2] == c);
    }
    (a == 'e' || a == 'E') && (b == 'x' || b == 'X') && (c == 'e' || c == 'E')
}

/// The path picked among a target's produced files: the last executable one,
/// else what was picked before.
pub open spec fn last_executable(files: Seq<Seq<char>>, prev: Option<Seq<char>>) -> Option<Seq<char>>
    decreases files.len(),
{
    if files.len() == 0 {
        prev
    } else if is_executable_path(files.last()) {
        Some(files.last())
    } else {
        last_executable(files.drop_last(), prev)
    }
}

pub open spec fn opt_view(o: Option<String>) -> Option<Seq<char>> {
    match o {
        Some(s) => Some(s@),
        None => None,
    }
}

/// What the build loop has read so far of one build attempt's output.
#[derive(Clone, Debug)]
pub struct BuildStream {
    pub artifact_count: u32,
    pub binary_path: Option<String>,
    pub error_lines: Vec<String>,
    pub failed: bool,
}

/// The message a line carries: only lines that open a JSON object are decoded;
/// others (stray output of build scripts) are skipped.
pub open spec fn line_message(line: Seq<char>) -> Option<MessageView> {
    if line.len() > 0 && line[0] == '{' { cargo_message_of(line) } else { None }
}

pub open spec fn bumped(n: u32) -> u32 {
    if n < u32::MAX { (n + 1) as u32 } else { n }
}

impl BuildStream {
    pub fn new() -> (r: Self)
        ensures
            r.artifact_count == 0,
            r.binary_path is None,
            r.error_lines@.len() == 0,
            !r.failed,
    {
        BuildStream { artifact_count: 0, binary_path: None, error_lines: Vec::new(), failed: false }
    }

    /// Reads one line of the build tool's output. Produced artifacts are
    /// counted and reported with the eased progress within `[lo, hi]`; the
    /// program's path is recorded when `binary_name`'s artifact arrives;
    /// error diagnostics are kept for the auto-fixer; a failed build-finished
    /// message marks the attempt failed.
    pub fn consume_line(&mut self, line: &str, binary_name: &str, lo: u32, hi: u32) -> (r: Vec<Event>)
        requires
            lo <= hi <= PROGRESS_SCALE,
        ensures
            line_message(line@) is None ==> *final(self) == *old(self) && r@.len() == 0,
            line_message(line@) matches Some(MessageView::Artifact { target, filenames }) ==> {
                &&& final(self).artifact_count == bumped(old(self).artifact_count)
                &&& opt_view(final(self).binary_path) == if target == binary_name@ {
                        last_executable(filenames, opt_view(old(self).binary_path))
                    } else {
                        opt_view(old(self).binary_path)
                    }
                &&& final(self).error_lines == old(self).error_lines
                &&& final(self).failed == old(self).failed
                &&& r@.len() == 2
                &&& r@[0] matches Event::CurrentItem(t) && t@ == seq!['['] + decimal_digits(final(self).artifact_count as nat) + seq![']', ' '] + target
                &&& r@[1] == Event::Progress(band_progress(lo as int, hi as int, final(self).artifact_count as int, ESTIMATED_UNITS as int) as u32)
            },
            line_message(line@) matches Some(MessageView::Diagnostic { level }) ==> {
                &&& final(self).artifact_count == old(self).artifact_count
                &&& final(self).binary_path == old(self).binary_path
                &&& final(self).error_lines@.map_values(|s: String| s@) == if is_error_level(level) {
                        old(self).error_lines@.map_values(|s: String| s@).push(line@)
                    } else {
                        old(self).error_lines@.map_values(|s: String| s@)
                    }
                &&& final(self).failed == old(self).failed
                &&& r@.len() == 0
            },
            line_message(line@) matches Some(MessageView::BuildFinished { success }) ==> {
                &&& final(self).artifact_count == old(self).artifact_count
                &&& final(self).binary_path == old(self).binary_path
                &&& final(self).error_lines == old(self).error_lines
                &&& final(self).failed == (old(self).failed || !success)
                &&& r@.len() == 0
            },
            line_message(line@) matches Some(MessageView::Other) ==> *final(self) == *old(self) && r@.len() == 0,
    {
        let mut out: Vec<Event> = Vec::new();
        let cs = chars_of(line);
        if cs.len() == 0 || cs[0] != '{' {
            return out;
        }
        let msg = parse_cargo_message(line);
        match msg {
            None => {},
            Some(CargoMessage::Artifact { target, filenames }) => {
                if self.artifact_count < u32::MAX {
                    self.artifact_count = self.artifact_count + 1;
                }
                let tc = chars_of(target.as_str());
                let bc = chars_of(binary_name);
                if vec_eq(&tc, &bc) {
                    self.pick_binary(&filenames);
                }
                let mut item = join("[", decimal(self.artifact_count as u64).as_str());
                push_text(&mut item, "] ");
                push_text(&mut item, target.as_str());
                proof {
                    reveal_strlit("[");
                    reveal_strlit("] ");
                }
                out.push(Event::CurrentItem(item));
                out.push(Event::Progress(eased_progress(lo, hi, self.artifact_count, ESTIMATED_UNITS)));
            },
            Some(CargoMessage::Diagnostic { level }) => {
                if level == DiagLevel::Error {
                    let owned = String::from_str(line);
                    self.error_lines.push(owned);
                    proof {
                        assert(self.error_lines@.map_values(|s: String| s@)
                            =~= old(self).error_lines@.map_values(|s: String| s@).push(line@));
                    }
                }
            },
            Some(CargoMessage::BuildFinished { success }) => {
                if !success {
                    self.failed = true;
                }
            },
            Some(CargoMessage::Other) => {},
        }
        out
    }

    fn pick_binary(&mut self, files: &Vec<String>)
        ensures
            opt_view(final(self).binary_path) == last_executable(files@.map_values(|f: String| f@), opt_view(old(self).binary_path)),
            final(self).artifact_count == old(self).artifact_count,
            final(self).error_lines == old(self).error_lines,
            final(self).failed == old(self).failed,
    {
        let ghost fv = files@.map_values(|f: String| f@);
        let mut i: usize = 0;
        let mut k: Option<usize> = None;
        while i < files.len()
            invariant
                i <= files.len(),
                fv == files@.map_values(|f: String| f@),
                k is None ==> last_executable(fv.subrange(0, i as int), opt_view(old(self).binary_path)) == opt_view(old(self).binary_path),
                k is Some ==> k->Some_0 < i && last_executable(fv.subrange(0, i as int), opt_view(old(self).binary_path)) == Some(fv[k->Some_0 as int]),
            decreases files.len() - i,
        {
            let ghost pre = fv.subrange(0, i + 1);
            assert(pre.drop_last() == fv.subrange(0, i as int));
            assert(pre.last() == files@[i as int]@);
            if is_executable_path_exec(files[i].as_str()) {
                k = Some(i);
            }
            i = i + 1;
        }
        assert(fv.subrange(0, files@.len() as int) == fv);
        match k {
            Some(j) => {
                self.binary_path = Some(files[j].clone());
            },
            None => {},
        }
    }
}

/// Equality of two character sequences.
pub fn vec_eq(a: &Vec<char>, b: &Vec<char>) -> (r: bool)
    ensures
        r == (a@ == b@),
{
    if a.len() != b.len() {
        return false;
    }
    let mut i: usize = 0;
    while i < a.len()
        invariant
            a.len() == b.len(),
            i <= a.len(),
            forall|j: int| 0 <= j < i ==> a@[j] == b@[j],
        decreases a.len() - i,
    {
        if a[i] != b[i] {
            return false;
        }
        i = i + 1;
    }
    assert(a@ =~= b@);
    true
}

} // verus!

verus! {

/// How one run of the build tool ended.
#[derive(Clone, Debug)]
pub enum AttemptResult {
    /// The build succeeded and produced the program at this path.
    Built(String),
    /// The tool could not run or its output could not be read.
    ToolFailed(String),
    /// The build failed with compiler diagnostics.
    CompileFailed,
}

/// State of the compile-with-auto-fix loop.
#[derive(Clone, Debug)]
pub enum CompileStep {
    /// Run the build tool; this is attempt number `attempt`.
    Build { attempt: usize },
    /// Ask the auto-fixer for edits for the diagnostics of this attempt.
    Fix { attempt: usize },
    /// Apply the proposed edits as one batch.
    Apply { attempt: usize },
    Succeeded(String),
    Failed(String),
}

/// Every state of the loop names an attempt within the bound.
pub open spec fn in_bound(s: CompileStep) -> bool {
    match s {
        CompileStep::Build { attempt } => 1 <= attempt <= MAX_FIX_ATTEMPTS,
        CompileStep::Fix { attempt } => 1 <= attempt <= MAX_FIX_ATTEMPTS,
        CompileStep::Apply { attempt } => 1 <= attempt <= MAX_FIX_ATTEMPTS,
        _ => true,
    }
}

/// Position of a running state in the loop's order: each transition
/// between running states moves strictly up.
pub open spec fn step_rank(s: CompileStep) -> int {
    match s {
        CompileStep::Build { attempt } => 3 * attempt,
        CompileStep::Fix { attempt } => 3 * attempt + 1,
        CompileStep::Apply { attempt } => 3 * attempt + 2,
        _ => 0,
    }
}

pub open spec fn is_running(s: CompileStep) -> bool {
    s is Build || s is Fix || s is Apply
}

pub open spec fn attempt_log(attempt: nat) -> Seq<char> {
    "Build failed (attempt "@ + decimal_digits(attempt) + "/"@ + decimal_digits(MAX_FIX_ATTEMPTS as nat)
        + "), trying auto-fixes..."@
}

pub open spec fn error_section(texts: Seq<Seq<char>>, i: int) -> Seq<char> {
    "\n\n--- error "@ + decimal_digits((i + 1) as nat) + " ---\n"@ + texts[i]
}

/// The message for a build whose diagnostics cannot be fixed: the count, and
/// the text of at most the first two.
pub open spec fn unfixable_message(texts: Seq<Seq<char>>) -> Seq<char> {
    let n: nat = if texts.len() == 0 { 1 } else { texts.len() };
    let head = "Build failed with "@ + decimal_digits(n) + " unfixable error(s)."@;
    if texts.len() == 0 {
        head
    } else if texts.len() == 1 {
        head + error_section(texts, 0)
    } else {
        head + error_section(texts, 0) + error_section(texts, 1)
    }
}

pub open spec fn bound_message() -> Seq<char> {
    "Build failed after "@ + decimal_digits(MAX_FIX_ATTEMPTS as nat) + " auto-fix attempts."@
}

/// The loop's first state.
pub fn compile_start() -> (r: CompileStep)
    ensures
        r == (CompileStep::Build { attempt: 1 }),
        in_bound(r),
{
    CompileStep::Build { attempt: 1 }
}

/// Next state after a build attempt ended.
pub fn after_build(attempt: usize, result: AttemptResult) -> (r: (CompileStep, Vec<Event>))
    requires
        1 <= attempt <= MAX_FIX_ATTEMPTS,
    ensures
        in_bound(r.0),
        result matches AttemptResult::Built(p) ==> r.0 == CompileStep::Succeeded(p) && r.1@.len() == 0,
        result matches AttemptResult::ToolFailed(m) ==> r.0 == CompileStep::Failed(m) && r.1@.len() == 0,
        is_running(r.0) ==> step_rank(r.0) > step_rank(CompileStep::Build { attempt }),
        result is CompileFailed ==> r.0 == (CompileStep::Fix { attempt }) && r.1@.len() == 1
            && (r.1@[0] matches Event::Log(t) && t@ == attempt_log(attempt as nat)),
{
    match result {
        AttemptResult::Built(p) => (CompileStep::Succeeded(p), Vec::new()),
        AttemptResult::ToolFailed(m) => (CompileStep::Failed(m), Vec::new()),
        AttemptResult::CompileFailed => {
            let mut t = join("Build failed (attempt ", decimal(attempt as u64).as_str());
            push_text(&mut t, "/");
            push_text(&mut t, decimal(MAX_FIX_ATTEMPTS as u64).as_str());
            push_text(&mut t, "), trying auto-fixes...");
            let mut v: Vec<Event> = Vec::new();
            v.push(Event::Log(t));
            (CompileStep::Fix { attempt }, v)
        },
    }
}

fn push_error_section(msg: &mut String, texts: &Vec<String>, i: usize)
    requires
        i < texts.len(),
        i < 2,
    ensures
        final(msg)@ == old(msg)@ + error_section(texts@.map_values(|s: String| s@), i as int),
{
    push_text(msg, "\n\n--- error ");
    push_text(msg, decimal((i + 1) as u64).as_str());
    push_text(msg, " ---\n");
    push_text(msg, texts[i].as_str());
}

/// The user-facing message for diagnostics the auto-fixer cannot resolve.
pub fn unfixable_text(texts: &Vec<String>) -> (r: String)
    ensures
        r@ == unfixable_message(texts@.map_values(|s: String| s@)),
{
    let n: usize = if texts.len() == 0 { 1 } else { texts.len() };
    let mut msg = join("Build failed with ", decimal(n as u64).as_str());
    push_text(&mut msg, " unfixable error(s).");
    if texts.len() >= 1 {
        push_error_section(&mut msg, texts, 0);
    }
    if texts.len() >= 2 {
        push_error_section(&mut msg, texts, 1);
    }
    msg
}

/// Next state once the auto-fixer proposed `edit_count` edits and left the
/// diagnostics with texts `unfixable` unresolved. No edits end the loop.
pub fn after_fixes(attempt: usize, edit_count: usize, unfixable: &Vec<String>) -> (r: CompileStep)
    requires
        1 <= attempt <= MAX_FIX_ATTEMPTS,
    ensures
        in_bound(r),
        edit_count == 0 ==> (r matches CompileStep::Failed(m)
            && m@ == unfixable_message(unfixable@.map_values(|s: String| s@))),
        edit_count > 0 ==> r == (CompileStep::Apply { attempt }),
        is_running(r) ==> step_rank(r) > step_rank(CompileStep::Fix { attempt }),
{
    if edit_count == 0 {
        CompileStep::Failed(unfixable_text(unfixable))
    } else {
        CompileStep::Apply { attempt }
    }
}

/// Next state after the edit batch was applied (`apply_error` is `None`) or
/// failed. A failed batch is fatal; otherwise the build runs again while
/// attempts remain.
pub fn after_apply(attempt: usize, apply_error: Option<String>, unfixable_count: usize) -> (r: (CompileStep, Vec<Event>))
    requires
        1 <= attempt <= MAX_FIX_ATTEMPTS,
    ensures
        in_bound(r.0),
        apply_error matches Some(e) ==> (r.0 matches CompileStep::Failed(m)
            && m@ == "Failed to apply auto-fixes: "@ + e@),
        apply_error is None && attempt < MAX_FIX_ATTEMPTS ==> r.0 == (CompileStep::Build { attempt: (attempt + 1) as usize }),
        apply_error is None && attempt == MAX_FIX_ATTEMPTS ==> (r.0 matches CompileStep::Failed(m) && m@ == bound_message()),
        is_running(r.0) ==> step_rank(r.0) > step_rank(CompileStep::Apply { attempt }),
        unfixable_count == 0 || apply_error is Some ==> r.1@.len() == 0,
        unfixable_count > 0 && apply_error is None ==> r.1@.len() == 1 && r.1@[0] is Log,
{
    match apply_error {
        Some(e) => (CompileStep::Failed(join("Failed to apply auto-fixes: ", e.as_str())), Vec::new()),
        None => {
            let mut v: Vec<Event> = Vec::new();
            if unfixable_count > 0 {
                let t = join(decimal(unfixable_count as u64).as_str(), " error(s) could not be auto-fixed; retrying build anyway");
                v.push(Event::Log(t));
            }
            if attempt < MAX_FIX_ATTEMPTS {
                (CompileStep::Build { attempt: attempt + 1 }, v)
            } else {
                let mut m = join("Build failed after ", decimal(MAX_FIX_ATTEMPTS as u64).as_str());
                push_text(&mut m, " auto-fix attempts.");
                (CompileStep::Failed(m), v)
            }
        },
    }
}

/// The loop is bounded: every transition between running states raises the
/// rank, and running states within the attempt bound have ranks between 3
/// and `3 * MAX_FIX_ATTEMPTS + 2`, so at most `3 * MAX_FIX_ATTEMPTS`
/// transitions happen and at most `MAX_FIX_ATTEMPTS` builds run, whatever
/// the build tool and the auto-fixer report.
pub proof fn lemma_loop_bounded(s: CompileStep)
    requires
        in_bound(s),
        is_running(s),
    ensures
        3 <= step_rank(s) <= 3 * MAX_FIX_ATTEMPTS + 2,
        s is Build ==> step_rank(s) / 3 <= MAX_FIX_ATTEMPTS,
{
}

/// The compiler flags for the chosen target and linker knobs, separated by
/// spaces; `None` when there are none.
pub open spec fn rustflags_parts(cpu: Option<Seq<char>>, use_mold: bool, use_bolt: bool) -> Seq<Seq<char>> {
    let a: Seq<Seq<char>> = match cpu { Some(c) => seq!["-C target-cpu="@ + c], None => Seq::empty() };
    let b: Seq<Seq<char>> = if use_mold { seq!["-C link-arg=-fuse-ld=mold"@] } else { Seq::empty() };
    let c: Seq<Seq<char>> = if use_bolt { seq!["-C link-arg=-Wl,--emit-relocs"@] } else { Seq::empty() };
    a + b + c
}

pub open spec fn joined_with_spaces(parts: Seq<Seq<char>>) -> Seq<char>
    decreases parts.len(),
{
    if parts.len() == 0 {
        Seq::empty()
    } else if parts.len() == 1 {
        parts[0]
    } else {
        joined_with_spaces(parts.drop_last()) + seq![' '] + parts.last()
    }
}

/// The flag string handed to the compiler: CPU target, fast linker, and the
/// relocations the rewrite pass needs.
pub fn rustflags(cpu_target: Option<&str>, use_mold: bool, use_bolt: bool) -> (r: Option<String>)
    ensures
        rustflags_parts(match cpu_target { Some(c) => Some(c@), None => None }, use_mold, use_bolt).len() == 0 <==> r is None,
        r matches Some(s) ==> s@ == joined_with_spaces(rustflags_parts(match cpu_target { Some(c) => Some(c@), None => None }, use_mold, use_bolt)),
{
    let ghost cpu = match cpu_target { Some(c) => Some(c@), None => None::<Seq<char>> };
    let mut parts: Vec<String> = Vec::new();
    match cpu_target {
        Some(c) => parts.push(join("-C target-cpu=", c)),
        None => {},
    }
    if use_mold {
        parts.push(String::from_str("-C link-arg=-fuse-ld=mold"));
    }
    if use_bolt {
        parts.push(String::from_str("-C link-arg=-Wl,--emit-relocs"));
    }
    let ghost pv = parts@.map_values(|s: String| s@);
    assert(pv =~= rustflags_parts(cpu, use_mold, use_bolt));
    if parts.len() == 0 {
        return None;
    }
    let mut out = parts[0].clone();
    let mut i: usize = 1;
    assert(pv.subrange(0, 1) =~= seq![pv[0]]);
    while i < parts.len()
        invariant
            1 <= i <= parts.len(),
            pv == parts@.map_values(|s: String| s@),
            out@ == joined_with_spaces(pv.subrange(0, i as int)),
        decreases parts.len() - i,
    {
        push_text(&mut out, " ");
        push_text(&mut out, parts[i].as_str());
        proof {
            reveal_strlit(" ");
            let pre = pv.subrange(0, i + 1);
            assert(pre.drop_last() =~= pv.subrange(0, i as int));
            assert(pre.last() == pv[i as int]);
        }
        i = i + 1;
    }
    assert(pv.subrange(0, parts.len() as int) == pv);
    Some(out)
}


/// The build tool's arguments: build the package with the profile, stream
/// structured messages, and cap the parallel jobs when a cap is set.
pub open spec fn build_args_spec(profile: Seq<char>, package: Seq<char>, jobs: Option<usize>) -> Seq<Seq<char>> {
    let base = seq!["build"@, "--profile"@, profile, "-p"@, package, "--message-format=json"@];
    match jobs {
        Some(n) => base + seq!["--jobs"@, decimal_digits(n as nat)],
        None => base,
    }
}

pub fn cargo_build_args(profile: &str, package: &str, jobs: Option<usize>) -> (r: Vec<String>)
    ensures
        r@.map_values(|s: String| s@) == build_args_spec(profile@, package@, jobs),
{
    let mut v: Vec<String> = Vec::new();
    v.push(String::from_str("build"));
    v.push(String::from_str("--profile"));
    v.push(String::from_str(profile));
    v.push(String::from_str("-p"));
    v.push(String::from_str(package));
    v.push(String::from_str("--message-format=json"));
    match jobs {
        Some(n) => {
            v.push(String::from_str("--jobs"));
            v.push(decimal(n as u64));
        },
        None => {},
    }
    assert(v@.map_values(|s: String| s@) =~= build_args_spec(profile@, package@, jobs));
    v
}

/// Where the build tool puts the program by convention, for when its
/// messages did not name it.
pub fn fallback_binary_path(workspace: &str, profile: &str, file_name: &str) -> (r: String)
    ensures
        r@ == workspace@ + "/target/"@ + profile@ + "/"@ + file_name@,
{
    let mut p = join(workspace, "/target/");
    push_text(&mut p, profile);
    push_text(&mut p, "/");
    push_text(&mut p, file_name);
    p
}
} // verus!
