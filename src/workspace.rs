use vstd::prelude::*;
use crate::text::{
    chars_of, string_of, join, push_text, contains, contains_seq, has_prefix, starts_with, lines, lines_of, split_on,
    split_char, trim_ascii, trimmed, trim_start_index, is_ascii_space, ascii_space, first_index_of, stripped,
    strip_char, lemma_first_index_range, lemma_split_two,
};

verus! {

/// The build profile added to a workspace manifest that lacks it: fat LTO,
/// one codegen unit, abort on panic.
pub open spec fn profile_block() -> Seq<char> {
    "\n\n[profile.xtreme]\ninherits = \"release\"\nlto = \"fat\"\ncodegen-units = 1\nopt-level = 3\nstrip = false\ndebug = 1\npanic = \"abort\"\noverflow-checks = false\n\n[profile.xtreme.build-override]\nopt-level = 3\n\n[profile.xtreme.package.\"*\"]\nopt-level = 3\n"@
}

pub open spec fn profile_header() -> Seq<char> {
    "[profile.xtreme]"@
}

/// The manifest with the build profile appended, or `None` when it already
/// defines it.
pub fn with_build_profile(contents: &str) -> (r: Option<String>)
    ensures
        contains_seq(contents@, profile_header()) ==> r is None,
        !contains_seq(contents@, profile_header()) ==> (r matches Some(s) && s@ == contents@ + profile_block()),
{
    if contains(&chars_of(contents), &chars_of("[profile.xtreme]")) {
        None
    } else {
        Some(join(contents, "\n\n[profile.xtreme]\ninherits = \"release\"\nlto = \"fat\"\ncodegen-units = 1\nopt-level = 3\nstrip = false\ndebug = 1\npanic = \"abort\"\noverflow-checks = false\n\n[profile.xtreme.build-override]\nopt-level = 3\n\n[profile.xtreme.package.\"*\"]\nopt-level = 3\n"))
    }
}

pub open spec fn joined_lines(parts: Seq<Seq<char>>) -> Seq<char>
    decreases parts.len(),
{
    if parts.len() == 0 {
        Seq::empty()
    } else if parts.len() == 1 {
        parts[0]
    } else {
        joined_lines(parts.drop_last()) + seq!['\n'] + parts.last()
    }
}

pub open spec fn alias_marker() -> Seq<char> {
    "alias codex="@
}

/// A line that sets the alias, after optional indentation.
pub open spec fn is_alias_line(l: Seq<char>) -> bool {
    has_prefix(l.subrange(trim_start_index(l), l.len() as int), alias_marker())
}

pub open spec fn replaced_line(l: Seq<char>, alias: Seq<char>) -> Seq<char> {
    if is_alias_line(l) { alias } else { l }
}

/// A shell rc file with the alias set: an existing alias line is replaced
/// in place; otherwise the alias is appended under a marker comment.
pub open spec fn rc_with_alias(contents: Seq<char>, alias: Seq<char>) -> Seq<char> {
    if contains_seq(contents, alias_marker()) {
        joined_lines(lines_of(contents).map_values(|l: Seq<char>| replaced_line(l, alias))) + seq!['\n']
    } else {
        contents + "\n\n# Added by codex-xtreme\n"@ + alias + seq!['\n']
    }
}

proof fn lemma_trim_start_at(s: Seq<char>, i: int)
    requires
        0 <= i <= s.len(),
        forall|k: int| 0 <= k < i ==> is_ascii_space(s[k]),
        i == s.len() || !is_ascii_space(s[i]),
    ensures
        trim_start_index(s) == i,
    decreases i,
{
    if i > 0 {
        let t = s.drop_first();
        assert forall|k: int| 0 <= k < i - 1 implies is_ascii_space(t[k]) by {
            assert(t[k] == s[k + 1]);
        }
        if i < s.len() {
            assert(t[i - 1] == s[i]);
        }
        lemma_trim_start_at(t, i - 1);
    }
}

fn alias_line_exec(l: &Vec<char>, marker: &Vec<char>) -> (r: bool)
    requires
        marker@ == alias_marker(),
    ensures
        r == is_alias_line(l@),
{
    let mut a: usize = 0;
    while a < l.len() && ascii_space(l[a])
        invariant
            a <= l.len(),
            forall|k: int| 0 <= k < a ==> is_ascii_space(l@[k]),
        decreases l.len() - a,
    {
        a = a + 1;
    }
    proof {
        lemma_trim_start_at(l@, a as int);
    }
    let mut rest: Vec<char> = Vec::new();
    let mut i: usize = a;
    while i < l.len()
        invariant
            a <= i <= l.len(),
            rest@ == l@.subrange(a as int, i as int),
        decreases l.len() - i,
    {
        rest.push(l[i]);
        assert(l@.subrange(a as int, i + 1) == l@.subrange(a as int, i as int).push(l@[i as int]));
        i = i + 1;
    }
    starts_with(&rest, marker)
}

/// Sets the alias line in a shell rc file's text.
pub fn updated_rc(contents: &str, alias_line: &str) -> (r: String)
    ensures
        r@ == rc_with_alias(contents@, alias_line@),
{
    let marker = chars_of("alias codex=");
    if !contains(&chars_of(contents), &marker) {
        let mut out = join(contents, "\n\n# Added by codex-xtreme\n");
        push_text(&mut out, alias_line);
        push_text(&mut out, "\n");
        proof {
            reveal_strlit("\n");
            assert("\n"@ =~= seq!['\n']);
        }
        return out;
    }
    let ls = lines(contents);
    let ghost lv = ls@.map_values(|v: Vec<char>| v@);
    let ghost mapped = lv.map_values(|l: Seq<char>| replaced_line(l, alias_line@));
    let alias_chars = chars_of(alias_line);
    let mut out: Vec<char> = Vec::new();
    let mut i: usize = 0;
    while i < ls.len()
        invariant
            i <= ls.len(),
            lv == ls@.map_values(|v: Vec<char>| v@),
            mapped == lv.map_values(|l: Seq<char>| replaced_line(l, alias_line@)),
            marker@ == alias_marker(),
            alias_chars@ == alias_line@,
            out@ == joined_lines(mapped.subrange(0, i as int)),
        decreases ls.len() - i,
    {
        let piece: &Vec<char> = if alias_line_exec(&ls[i], &marker) { &alias_chars } else { &ls[i] };
        assert(piece@ == mapped[i as int]);
        let ghost before = out@;
        if i > 0 {
            out.push('\n');
        }
        let mut k: usize = 0;
        let ghost mid = out@;
        while k < piece.len()
            invariant
                k <= piece.len(),
                out@ == mid + piece@.subrange(0, k as int),
            decreases piece.len() - k,
        {
            out.push(piece[k]);
            assert(piece@.subrange(0, k + 1) == piece@.subrange(0, k as int).push(piece@[k as int]));
            k = k + 1;
        }
        proof {
            assert(piece@.subrange(0, piece@.len() as int) == piece@);
            let pre = mapped.subrange(0, i + 1);
            assert(pre.drop_last() =~= mapped.subrange(0, i as int));
            assert(pre.last() == mapped[i as int]);
            if i == 0 {
                assert(pre.len() == 1);
                assert(out@ =~= pre[0]);
            } else {
                assert(out@ =~= before + seq!['\n'] + piece@);
            }
        }
        i = i + 1;
    }
    out.push('\n');
    assert(mapped.subrange(0, ls.len() as int) == mapped);
    assert(lv == lines_of(contents@));
    string_of(&out)
}


/// The version a manifest line sets, if it is a non-empty `version = ...`.
pub open spec fn line_version(l: Seq<char>) -> Option<Seq<char>> {
    let t = trimmed(l);
    if has_prefix(t, "version"@) && first_index_of(t, '=') >= 0 {
        let v = stripped(stripped(trimmed(split_char(t, '=')[1]), '"'), '\'');
        if v.len() > 0 { Some(v) } else { None }
    } else {
        None
    }
}

/// The version the first such line of a manifest sets.
pub open spec fn manifest_version(ls: Seq<Seq<char>>) -> Option<Seq<char>>
    decreases ls.len(),
{
    if ls.len() == 0 {
        None
    } else if line_version(ls[0]) is Some {
        line_version(ls[0])
    } else {
        manifest_version(ls.drop_first())
    }
}

fn find_char(s: &Vec<char>, c: char) -> (r: bool)
    ensures
        r == (first_index_of(s@, c) >= 0),
{
    let mut i: usize = 0;
    while i < s.len()
        invariant
            i <= s.len(),
            forall|k: int| 0 <= k < i ==> s@[k] != c,
        decreases s.len() - i,
    {
        if s[i] == c {
            proof {
                crate::text::lemma_first_index_pub(s@, c, i as int);
            }
            return true;
        }
        i = i + 1;
    }
    proof {
        crate::text::lemma_first_index_pub(s@, c, s@.len() as int);
    }
    false
}

fn version_of_line(l: &Vec<char>) -> (r: Option<Vec<char>>)
    ensures
        r is None <==> line_version(l@) is None,
        r is Some ==> r->Some_0@ == line_version(l@)->Some_0,
{
    let t = trim_ascii(l);
    let key = chars_of("version");
    if !starts_with(&t, &key) || !find_char(&t, '=') {
        return None;
    }
    let parts = split_on(&t, '=');
    proof {
        lemma_split_two(t@, '=');
    }
    assert(parts@.map_values(|v: Vec<char>| v@)[1] == parts@[1]@);
    let v = strip_char(&strip_char(&trim_ascii(&parts[1]), '"'), '\'');
    if v.len() > 0 { Some(v) } else { None }
}

/// The version a workspace manifest sets on its first `version = ...`
/// line, quotes removed.
pub fn version_from_manifest(contents: &str) -> (r: Option<String>)
    ensures
        r is None <==> manifest_version(lines_of(contents@)) is None,
        r is Some ==> r->Some_0@ == manifest_version(lines_of(contents@))->Some_0,
{
    let ls = lines(contents);
    let ghost lv = ls@.map_values(|v: Vec<char>| v@);
    let mut i: usize = 0;
    assert(lv.subrange(0, lv.len() as int) == lv);
    while i < ls.len()
        invariant
            i <= ls.len(),
            lv == ls@.map_values(|v: Vec<char>| v@),
            lv == lines_of(contents@),
            manifest_version(lv) == manifest_version(lv.subrange(i as int, lv.len() as int)),
        decreases ls.len() - i,
    {
        let ghost rest = lv.subrange(i as int, lv.len() as int);
        assert(rest[0] == ls@[i as int]@);
        assert(rest.drop_first() =~= lv.subrange(i + 1, lv.len() as int));
        match version_of_line(&ls[i]) {
            Some(v) => {
                return Some(string_of(&v));
            },
            None => {},
        }
        i = i + 1;
    }
    None
}
} // verus!
