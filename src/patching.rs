use vstd::prelude::*;
use crate::events::Event;
use crate::progress::PROGRESS_SCALE;
use crate::text::{chars_of, string_of, starts_with, has_prefix, join, decimal};

verus! {

/// The result the patch library reports for one patch of a file.
#[derive(Clone, Debug)]
pub enum PatchStatus {
    Applied { file: String },
    AlreadyApplied { file: String },
    SkippedVersion { reason: String },
    Failed { file: String, reason: String },
    Error { message: String },
}

/// One patch of a file, with the library's verdict on it.
#[derive(Clone, Debug)]
pub struct PatchEntry {
    pub id: String,
    pub status: PatchStatus,
}

/// What applying one patch-definition file produced: its per-patch results,
/// or a fault that kept the patch library from reporting any.
#[derive(Clone, Debug)]
pub enum FileReport {
    Results(Vec<PatchEntry>),
    Fault(String),
}

/// The aggregate outcome of one patch-definition file.
#[derive(Clone, Debug, PartialEq, Eq)]
pub enum PatchFileOutcome {
    Applied(String),
    Skipped { name: String, reason: String },
    Untouched,
}

pub open spec fn is_success(s: PatchStatus) -> bool {
    s is Applied || s is AlreadyApplied
}

pub open spec fn status_reason(s: PatchStatus) -> Seq<char> {
    match s {
        PatchStatus::SkippedVersion { reason } => reason@,
        PatchStatus::Failed { reason, .. } => reason@,
        PatchStatus::Error { message } => message@,
        _ => Seq::empty(),
    }
}

pub open spec fn any_success(es: Seq<PatchEntry>) -> bool {
    exists|i: int| 0 <= i < es.len() && is_success(#[trigger] es[i].status)
}

/// The reason of the first patch that did not apply, in file order.
pub open spec fn first_reason(es: Seq<PatchEntry>) -> Seq<char>
    decreases es.len(),
{
    if es.len() == 0 {
        Seq::empty()
    } else if !is_success(es[0].status) {
        status_reason(es[0].status)
    } else {
        first_reason(es.drop_first())
    }
}

/// A file counts as applied when at least one of its patches applied or was
/// already applied; it counts as skipped when none did.
pub open spec fn file_outcome(name: Seq<char>, r: FileReport) -> (Seq<char>, int, Seq<char>) {
    match r {
        FileReport::Fault(m) => (name, 2, m@),
        FileReport::Results(es) => {
            if any_success(es@) {
                (name, 1, Seq::empty())
            } else if es@.len() > 0 {
                (name, 2, first_reason(es@))
            } else {
                (name, 0, Seq::empty())
            }
        }
    }
}

pub open spec fn outcome_view(o: PatchFileOutcome) -> (Seq<char>, int, Seq<char>) {
    match o {
        PatchFileOutcome::Applied(n) => (n@, 1, Seq::empty()),
        PatchFileOutcome::Skipped { name, reason } => (name@, 2, reason@),
        PatchFileOutcome::Untouched => (Seq::empty(), 0, Seq::empty()),
    }
}

fn reason_of(s: &PatchStatus) -> (r: String)
    ensures
        r@ == status_reason(*s),
{
    match s {
        PatchStatus::SkippedVersion { reason } => reason.clone(),
        PatchStatus::Failed { reason, .. } => reason.clone(),
        PatchStatus::Error { message } => message.clone(),
        _ => String::new(),
    }
}

proof fn lemma_first_reason_skip(es: Seq<PatchEntry>, i: int)
    requires
        0 <= i <= es.len(),
        forall|k: int| 0 <= k < i ==> is_success(#[trigger] es[k].status),
    ensures
        first_reason(es) == first_reason(es.subrange(i, es.len() as int)),
    decreases i,
{
    if i > 0 {
        assert(is_success(es[0].status));
        let t = es.drop_first();
        assert forall|k: int| 0 <= k < i - 1 implies is_success(#[trigger] t[k].status) by {
            assert(t[k] == es[k + 1]);
            assert(is_success(es[k + 1].status));
        }
        lemma_first_reason_skip(t, i - 1);
        assert(t.subrange(i - 1, t.len() as int) == es.subrange(i, es.len() as int));
    } else {
        assert(es.subrange(0, es.len() as int) == es);
    }
}

/// Folds the per-patch results of one file into the file's outcome.
pub fn classify_patch_file(name: &String, report: &FileReport) -> (r: PatchFileOutcome)
    ensures
        r is Untouched ==> file_outcome(name@, *report).1 == 0,
        !(r is Untouched) ==> outcome_view(r) == file_outcome(name@, *report),
{
    match report {
        FileReport::Fault(m) => PatchFileOutcome::Skipped { name: name.clone(), reason: m.clone() },
        FileReport::Results(es) => {
            let mut i: usize = 0;
            let mut first_fail: Option<usize> = None;
            let mut applied = false;
            while i < es.len()
                invariant
                    i <= es.len(),
                    applied <==> exists|k: int| 0 <= k < i && is_success(#[trigger] es@[k].status),
                    first_fail.is_none() ==> forall|k: int| 0 <= k < i ==> is_success(#[trigger] es@[k].status),
                    first_fail.is_some() ==> first_fail.unwrap() < i && !is_success(es@[first_fail.unwrap() as int].status)
                        && forall|k: int| 0 <= k < first_fail.unwrap() ==> is_success(#[trigger] es@[k].status),
                decreases es.len() - i,
            {
                match &es[i].status {
                    PatchStatus::Applied { .. } | PatchStatus::AlreadyApplied { .. } => {
                        applied = true;
                    },
                    _ => {
                        if first_fail.is_none() {
                            first_fail = Some(i);
                        }
                    },
                }
                i = i + 1;
            }
            if applied {
                PatchFileOutcome::Applied(name.clone())
            } else {
                match first_fail {
                    None => {
                        assert(es@.len() == 0 || is_success(es@[0].status));
                        PatchFileOutcome::Untouched
                    },
                    Some(k) => {
                        proof {
                            lemma_first_reason_skip(es@, k as int);
                            let t = es@.subrange(k as int, es@.len() as int);
                            assert(t[0] == es@[k as int]);
                        }
                        let reason = reason_of(&es[k].status);
                        PatchFileOutcome::Skipped { name: name.clone(), reason }
                    },
                }
            }
        },
    }
}

/// Progress after `done` of `total` files, within the band `[lo, hi]`.
pub open spec fn file_progress(lo: int, hi: int, done: int, total: int) -> int {
    if total <= 0 { hi } else { lo + (hi - lo) * done / total }
}

/// Progress after a patch file is done, within `[lo, hi]`.
pub fn patch_progress(lo: u32, hi: u32, done: usize, total: usize) -> (r: u32)
    requires
        lo <= hi <= PROGRESS_SCALE,
        done <= total,
    ensures
        r == file_progress(lo as int, hi as int, done as int, total as int),
        lo <= r <= hi,
{
    if total == 0 {
        return hi;
    }
    let span: u128 = (hi - lo) as u128;
    proof {
        assert(span * (done as u128) <= span * (total as u128)) by (nonlinear_arith)
            requires done <= total;
        assert(span * (total as u128) <= 10000 * 0xffff_ffff_ffff_ffffu128) by (nonlinear_arith)
            requires span <= 10000, total <= 0xffff_ffff_ffff_ffffu128;
        vstd::arithmetic::div_mod::lemma_div_is_ordered((span * done as u128) as int, (span * total as u128) as int, total as int);
        vstd::arithmetic::div_mod::lemma_div_multiples_vanish(span as int, total as int);
        assert(span * total as u128 == total * span) by (nonlinear_arith);
    }
    let q: u128 = span * (done as u128) / (total as u128);
    (lo as u128 + q) as u32
}

/// Progress reported after each file never decreases and ends at the top of
/// the band.
pub proof fn lemma_patch_progress_monotone(lo: int, hi: int, i: int, j: int, total: int)
    requires
        0 <= lo <= hi,
        0 <= i <= j <= total,
        0 < total,
    ensures
        file_progress(lo, hi, i, total) <= file_progress(lo, hi, j, total),
        file_progress(lo, hi, total, total) == hi,
{
    assert((hi - lo) * i <= (hi - lo) * j) by (nonlinear_arith)
        requires i <= j, 0 <= hi - lo;
    vstd::arithmetic::div_mod::lemma_div_is_ordered((hi - lo) * i, (hi - lo) * j, total);
    vstd::arithmetic::div_mod::lemma_div_multiples_vanish(hi - lo, total);
    assert((hi - lo) * total == total * (hi - lo)) by (nonlinear_arith);
}

/// Outcome and progress events for the file at `idx` of `total`.
pub fn patch_file_events(
    idx: usize,
    total: usize,
    lo: u32,
    hi: u32,
    name: &String,
    report: &FileReport,
) -> (r: Vec<Event>)
    requires
        idx < total,
        lo <= hi <= PROGRESS_SCALE,
    ensures
        file_outcome(name@, *report).1 == 0 ==> r@.len() == 1,
        file_outcome(name@, *report).1 == 1 ==> r@.len() == 2 && r@[0] == Event::PatchFileApplied(*name),
        file_outcome(name@, *report).1 == 2 ==> r@.len() == 2 && (r@[0] matches Event::PatchFileSkipped { name: n, reason }
            && n == *name && reason@ == file_outcome(name@, *report).2),
        r@.last() == Event::Progress(file_progress(lo as int, hi as int, idx + 1, total as int) as u32),
{
    let o = classify_patch_file(name, report);
    let p = patch_progress(lo, hi, idx + 1, total);
    let mut v: Vec<Event> = Vec::new();
    match &o {
        PatchFileOutcome::Applied(_) => v.push(Event::PatchFileApplied(name.clone())),
        PatchFileOutcome::Skipped { reason, .. } =>
            v.push(Event::PatchFileSkipped { name: name.clone(), reason: reason.clone() }),
        PatchFileOutcome::Untouched => {},
    }
    v.push(Event::Progress(p));
    v
}


/// The progress values among some events, in order.
pub open spec fn progress_values(evs: Seq<Event>) -> Seq<u32>
    decreases evs.len(),
{
    if evs.len() == 0 {
        Seq::empty()
    } else {
        match evs.last() {
            Event::Progress(p) => progress_values(evs.drop_last()).push(p),
            _ => progress_values(evs.drop_last()),
        }
    }
}

proof fn lemma_progress_values_append(a: Seq<Event>, b: Seq<Event>)
    ensures
        progress_values(a + b) == progress_values(a) + progress_values(b),
    decreases b.len(),
{
    if b.len() == 0 {
        assert(a + b =~= a);
        assert(progress_values(a) + progress_values(b) =~= progress_values(a));
    } else {
        lemma_progress_values_append(a, b.drop_last());
        assert((a + b).drop_last() =~= a + b.drop_last());
        assert((a + b).last() == b.last());
        match b.last() {
            Event::Progress(p) => {
                assert(progress_values(a) + progress_values(b) =~= (progress_values(a) + progress_values(b.drop_last())).push(p));
            },
            _ => {},
        }
    }
}

/// The progress reached after each of `total` files, within `[lo, hi]`.
pub open spec fn file_progress_values(lo: int, hi: int, count: int, total: int) -> Seq<u32> {
    Seq::new(count as nat, |k: int| file_progress(lo, hi, k + 1, total) as u32)
}

/// The events of applying a list of patch files, given what each produced:
/// the band's opening progress, then each file's outcome and progress.
pub fn apply_all_events(names: &Vec<String>, reports: &Vec<FileReport>, lo: u32, hi: u32) -> (r: Vec<Event>)
    requires
        names.len() == reports.len(),
        lo <= hi <= PROGRESS_SCALE,
    ensures
        r@[0] == Event::Progress(lo),
        progress_values(r@) == seq![lo] + file_progress_values(lo as int, hi as int, names.len() as int, names.len() as int),
        r@.last() == Event::Progress(if names.len() == 0 { lo } else { hi }),
{
    let n = names.len();
    let mut out: Vec<Event> = Vec::new();
    out.push(Event::Progress(lo));
    assert(out@ =~= seq![Event::Progress(lo)]);
    assert(progress_values(out@) =~= seq![lo]) by {
        assert(out@.drop_last() =~= Seq::<Event>::empty());
        assert(out@.last() == Event::Progress(lo));
        assert(progress_values(out@.drop_last()) =~= Seq::<u32>::empty());
    }
    assert(file_progress_values(lo as int, hi as int, 0, n as int) =~= Seq::<u32>::empty());
    let mut i: usize = 0;
    while i < n
        invariant
            n == names.len(),
            n == reports.len(),
            lo <= hi <= PROGRESS_SCALE,
            i <= n,
            out@.len() > 0,
            out@[0] == Event::Progress(lo),
            progress_values(out@) == seq![lo] + file_progress_values(lo as int, hi as int, i as int, n as int),
            out@.last() == Event::Progress(if i == 0 { lo } else { file_progress(lo as int, hi as int, i as int, n as int) as u32 }),
        decreases n - i,
    {
        let evs = patch_file_events(i, n, lo, hi, &names[i], &reports[i]);
        let ghost before = out@;
        let mut k: usize = 0;
        while k < evs.len()
            invariant
                k <= evs.len(),
                out@ == before + evs@.subrange(0, k as int),
            decreases evs.len() - k,
        {
            out.push(clone_event(&evs[k]));
            assert(evs@.subrange(0, k + 1) =~= evs@.subrange(0, k as int).push(evs@[k as int]));
            k = k + 1;
        }
        proof {
            assert(evs@.subrange(0, evs@.len() as int) == evs@);
            let p = file_progress(lo as int, hi as int, i + 1, n as int) as u32;
            lemma_progress_values_append(before, evs@);
            assert(evs@.last() == Event::Progress(p));
            if evs@.len() == 1 {
                assert(evs@.drop_last() =~= Seq::<Event>::empty());
                assert(progress_values(evs@.drop_last()) =~= Seq::<u32>::empty());
            } else {
                let d = evs@.drop_last();
                assert(d =~= seq![evs@[0]]);
                assert(d.drop_last() =~= Seq::<Event>::empty());
                assert(!(evs@[0] is Progress));
                assert(d.last() == evs@[0]);
                assert(progress_values(d.drop_last()) =~= Seq::<u32>::empty());
                assert(progress_values(d) =~= Seq::<u32>::empty());
            }
            assert((before + evs@).last() == evs@.last());
            assert(progress_values(evs@) =~= seq![p]);
            assert(file_progress_values(lo as int, hi as int, i + 1, n as int)
                =~= file_progress_values(lo as int, hi as int, i as int, n as int).push(p));
            assert(out@[0] == before[0]);
            lemma_patch_progress_monotone(lo as int, hi as int, i + 1, n as int, n as int);
        }
        i = i + 1;
    }
    if n > 0 {
        proof {
            lemma_patch_progress_monotone(lo as int, hi as int, n as int, n as int, n as int);
        }
    }
    out
}

pub(crate) fn clone_event(e: &Event) -> (r: Event)
    ensures
        r == *e,
{
    match e {
        Event::Phase(p) => Event::Phase(*p),
        Event::Progress(x) => Event::Progress(*x),
        Event::CurrentItem(t) => Event::CurrentItem(t.clone()),
        Event::Log(t) => Event::Log(t.clone()),
        Event::PatchFileApplied(t) => Event::PatchFileApplied(t.clone()),
        Event::PatchFileSkipped { name, reason } => Event::PatchFileSkipped { name: name.clone(), reason: reason.clone() },
        Event::Complete { binary_path, elapsed_secs } => Event::Complete { binary_path: binary_path.clone(), elapsed_secs: *elapsed_secs },
        Event::Error { message } => Event::Error { message: message.clone() },
    }
}

} // verus!

verus! {

#[verifier::external_type_specification]
#[verifier::external_body]
pub struct ExVersionError(codex_patcher::VersionError);

/// The verdict of the patch library's version matcher on a version and a
/// non-empty requirement: `Some(matches)`, or `None` where it rejects either.
pub uninterp spec fn requirement_verdict(version: Seq<char>, requirement: Seq<char>) -> Option<bool>;

/// Relies on `codex_patcher::matches_requirement`: no requirement matches
/// every version; otherwise the verdict depends on the two strings alone, and
/// a malformed version or requirement is an error.
#[verifier::external_body]
fn matches_requirement(version: &str, requirement: Option<&str>) -> (r: Result<bool, codex_patcher::VersionError>)
    ensures
        requirement.is_none() ==> (r is Ok && r->Ok_0),
        requirement.is_some() ==> (r is Ok <==> requirement_verdict(version@, requirement.unwrap()@) is Some),
        (requirement.is_some() && r is Ok) ==> requirement_verdict(version@, requirement.unwrap()@) == Some(r->Ok_0),
{
    codex_patcher::matches_requirement(version, requirement)
}

pub open spec fn tag_prefix() -> Seq<char> {
    seq!['r', 'u', 's', 't', '-', 'v']
}

/// A release tag with its naming prefix removed, if it has one.
pub open spec fn without_tag_prefix(t: Seq<char>) -> Seq<char> {
    if has_prefix(t, tag_prefix()) { t.subrange(6, t.len() as int) } else { t }
}

/// Whether a patch with the given version range may be applied to the target.
pub open spec fn compatible(range: Option<Seq<char>>, target: Seq<char>) -> bool {
    match range {
        None => true,
        Some(q) => requirement_verdict(without_tag_prefix(target), q) == Some(true),
    }
}

pub fn tag_prefix_chars() -> (r: Vec<char>)
    ensures
        r@ == tag_prefix(),
{
    let mut v: Vec<char> = Vec::new();
    v.push('r');
    v.push('u');
    v.push('s');
    v.push('t');
    v.push('-');
    v.push('v');
    assert(v@ =~= tag_prefix());
    v
}

/// The characters of `s` from index `from` on.
pub fn chars_from(s: &Vec<char>, from: usize) -> (r: Vec<char>)
    requires
        from <= s.len(),
    ensures
        r@ == s@.subrange(from as int, s@.len() as int),
{
    let mut out: Vec<char> = Vec::new();
    let mut i: usize = from;
    while i < s.len()
        invariant
            from <= i <= s.len(),
            out@ == s@.subrange(from as int, i as int),
        decreases s.len() - i,
    {
        out.push(s[i]);
        assert(s@.subrange(from as int, i + 1) == s@.subrange(from as int, i as int).push(s@[i as int]));
        i = i + 1;
    }
    out
}

/// Removes the release-tag prefix from a version string, if present.
pub fn strip_tag_prefix(t: &str) -> (r: String)
    ensures
        r@ == without_tag_prefix(t@),
{
    let cs = chars_of(t);
    let p = tag_prefix_chars();
    if starts_with(&cs, &p) {
        string_of(&chars_from(&cs, 6))
    } else {
        string_of(&cs)
    }
}

/// Checks whether a patch is compatible with a target version. A malformed
/// range is never compatible.
pub fn is_patch_compatible(version_range: Option<&str>, target_version: &str) -> (r: bool)
    ensures
        r == compatible(match version_range { None => None, Some(q) => Some(q@) }, target_version@),
{
    let version = strip_tag_prefix(target_version);
    match matches_requirement(version.as_str(), version_range) {
        Ok(b) => b,
        Err(_) => false,
    }
}

/// Fail-closed: a range the version matcher rejects is incompatible with
/// every target version.
pub proof fn lemma_malformed_range_incompatible(range: Seq<char>, target: Seq<char>)
    requires
        requirement_verdict(without_tag_prefix(target), range) is None,
    ensures
        !compatible(Some(range), target),
{
}

} // verus!
