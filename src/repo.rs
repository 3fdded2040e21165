use vstd::prelude::*;
use crate::text::{join, decimal, decimal_digits, lines, lines_of, split_on, split_char, has_prefix, starts_with, string_of, chars_of, trim_ascii, trimmed};
use crate::compile::vec_eq;
use crate::patching::{tag_prefix, tag_prefix_chars, chars_from};

verus! {

/// A local checkout of the source repository.
#[derive(Clone, Debug)]
pub struct RepoInfo {
    pub path: String,
    pub age: String,
    pub branch: String,
}

impl RepoInfo {
    /// The build workspace inside the repository.
    pub fn workspace_path(&self) -> (r: String)
        ensures
            r@ == self.path@ + "/codex-rs"@,
    {
        join(self.path.as_str(), "/codex-rs")
    }
}

/// A release tag with its version and creation date.
#[derive(Clone, Debug)]
pub struct Release {
    pub tag: String,
    pub version: String,
    pub published: String,
}

/// Why the wizard cannot run.
#[derive(Clone, Debug)]
pub enum PrerequisiteError {
    GitMissing(String),
}

impl PrerequisiteError {
    /// The message shown to the user.
    pub fn message(&self) -> (r: String)
        ensures
            self matches PrerequisiteError::GitMissing(m) && r@ == m@,
    {
        match self {
            PrerequisiteError::GitMissing(m) => m.clone(),
        }
    }
}

/// How long ago something happened, in the largest whole unit: seconds
/// under a minute, minutes under an hour, hours under a day, else days.
pub open spec fn age_text(secs: u64) -> Seq<char> {
    if secs < 60 {
        decimal_digits(secs as nat) + "s ago"@
    } else if secs < 3600 {
        decimal_digits((secs / 60) as nat) + "m ago"@
    } else if secs < 86400 {
        decimal_digits((secs / 3600) as nat) + "h ago"@
    } else {
        decimal_digits((secs / 86400) as nat) + "d ago"@
    }
}

/// The age of a repository's last fetch, given the seconds since then.
pub fn repo_age(secs: u64) -> (r: String)
    ensures
        r@ == age_text(secs),
{
    if secs < 60 {
        join(decimal(secs).as_str(), "s ago")
    } else if secs < 3600 {
        join(decimal(secs / 60).as_str(), "m ago")
    } else if secs < 86400 {
        join(decimal(secs / 3600).as_str(), "h ago")
    } else {
        join(decimal(secs / 86400).as_str(), "d ago")
    }
}


/// A tag that follows the release naming convention, without the malformed
/// repeated prefixes.
pub open spec fn is_release_tag(t: Seq<char>) -> bool {
    has_prefix(t, tag_prefix()) && !has_prefix(t, tag_prefix().push('v')) && !has_prefix(t, tag_prefix() + seq!['r', 'u', 's', 't'])
}

/// A release as plain values: tag, version and creation date.
pub open spec fn release_view(r: Release) -> (Seq<char>, Seq<char>, Seq<char>) {
    (r.tag@, r.version@, r.published@)
}

/// The releases listed by lines of the form `tag|date`, in order, each tag
/// once, malformed tags left out.
pub open spec fn releases_of(ls: Seq<Seq<char>>) -> Seq<(Seq<char>, Seq<char>, Seq<char>)>
    decreases ls.len(),
{
    if ls.len() == 0 {
        Seq::empty()
    } else {
        let prev = releases_of(ls.drop_last());
        let parts = split_char(ls.last(), '|');
        let tag = parts[0];
        if is_release_tag(tag) && !(exists|k: int| 0 <= k < prev.len() && (#[trigger] prev[k]).0 == tag) {
            prev.push((tag, tag.subrange(6, tag.len() as int), if parts.len() > 1 { parts[1] } else { Seq::empty() }))
        } else {
            prev
        }
    }
}

/// Reads the release tags from the listing the version-control tool prints,
/// one `tag|date` per line, already sorted newest first.
pub fn parse_releases(listing: &str) -> (r: Vec<Release>)
    ensures
        r@.map_values(|x: Release| release_view(x)) == releases_of(lines_of(listing@)),
{
    let ls = lines(listing);
    let ghost lv = ls@.map_values(|v: Vec<char>| v@);
    let prefix = tag_prefix_chars();
    let mut vv = tag_prefix_chars();
    vv.push('v');
    let mut vrust = tag_prefix_chars();
    vrust.push('r');
    vrust.push('u');
    vrust.push('s');
    vrust.push('t');
    assert(vrust@ =~= tag_prefix() + seq!['r', 'u', 's', 't']);
    let mut out: Vec<Release> = Vec::new();
    let mut i: usize = 0;
    while i < ls.len()
        invariant
            i <= ls.len(),
            lv == ls@.map_values(|v: Vec<char>| v@),
            prefix@ == tag_prefix(),
            vv@ == tag_prefix().push('v'),
            vrust@ == tag_prefix() + seq!['r', 'u', 's', 't'],
            out@.map_values(|x: Release| release_view(x)) == releases_of(lv.subrange(0, i as int)),
        decreases ls.len() - i,
    {
        let ghost prev = releases_of(lv.subrange(0, i as int));
        proof {
            let pre = lv.subrange(0, i + 1);
            assert(pre.drop_last() =~= lv.subrange(0, i as int));
            assert(pre.last() == ls@[i as int]@);
            crate::text::lemma_split_len(ls@[i as int]@, '|');
        }
        let parts = split_on(&ls[i], '|');
        let ghost pv = parts@.map_values(|v: Vec<char>| v@);
        assert(parts.len() >= 1);
        let tag = &parts[0];
        let valid = starts_with(tag, &prefix) && !starts_with(tag, &vv) && !starts_with(tag, &vrust);
        if valid {
            let mut seen = false;
            let mut k: usize = 0;
            while k < out.len()
                invariant
                    k <= out.len(),
                    out@.map_values(|x: Release| release_view(x)) == prev,
                    tag@ == pv[0],
                    seen <==> exists|j: int| 0 <= j < k && (#[trigger] prev[j]).0 == tag@,
                decreases out.len() - k,
            {
                let ghost pk = prev[k as int];
                assert(pk.0 == out@[k as int].tag@);
                if vec_eq(&chars_of(out[k].tag.as_str()), tag) {
                    seen = true;
                }
                k = k + 1;
            }
            if !seen {
                let published = if parts.len() > 1 { string_of(&parts[1]) } else { String::new() };
                let rel = Release {
                    tag: string_of(tag),
                    version: string_of(&chars_from(tag, 6)),
                    published,
                };
                let ghost before = out@.map_values(|x: Release| release_view(x));
                out.push(rel);
                assert(out@.map_values(|x: Release| release_view(x)) =~= before.push(release_view(rel)));
            }
        }
        i = i + 1;
    }
    assert(lv.subrange(0, ls.len() as int) == lv);
    out
}

/// The version that a tag describing the checkout names, if it names one.
pub open spec fn described_version(output: Seq<char>) -> Option<Seq<char>> {
    let t = trimmed(output);
    if t.len() == 0 {
        None
    } else {
        Some(crate::patching::without_tag_prefix(t))
    }
}

/// Reads the current version from the output of the tag description the
/// version-control tool prints for the checkout.
pub fn current_version_from(output: &str) -> (r: Option<String>)
    ensures
        r is None <==> described_version(output@) is None,
        r is Some ==> r->Some_0@ == described_version(output@)->Some_0,
{
    let t = trim_ascii(&chars_of(output));
    if t.len() == 0 {
        None
    } else {
        Some(crate::patching::strip_tag_prefix(string_of(&t).as_str()))
    }
}
/// What to do with an existing clone destination before cloning.
#[derive(Clone, Copy, Debug, PartialEq, Eq, Structural)]
pub enum CloneTarget {
    /// Nothing is there: clone directly.
    Fresh,
    /// An old checkout or an empty directory is there: remove it first.
    Replace,
    /// A symbolic link is there: refuse.
    RefuseSymlink,
    /// Something that is neither a checkout nor empty is there: refuse.
    RefuseForeign,
}

/// Decides whether a clone may go to a destination. Only an old checkout or
/// an empty directory is ever replaced.
pub fn clone_target(exists: bool, is_symlink: bool, is_git_repo: bool, is_empty: bool) -> (r: CloneTarget)
    ensures
        !exists ==> r == CloneTarget::Fresh,
        exists && is_symlink ==> r == CloneTarget::RefuseSymlink,
        exists && !is_symlink && (is_git_repo || is_empty) ==> r == CloneTarget::Replace,
        exists && !is_symlink && !is_git_repo && !is_empty ==> r == CloneTarget::RefuseForeign,
{
    if !exists {
        CloneTarget::Fresh
    } else if is_symlink {
        CloneTarget::RefuseSymlink
    } else if is_git_repo || is_empty {
        CloneTarget::Replace
    } else {
        CloneTarget::RefuseForeign
    }
}

} // verus!
