use vstd::prelude::*;
use crate::compile::vec_eq;
use crate::text::{chars_of, string_of, contains, contains_seq, str_contains, lines, lines_of, split_on, split_char, has_prefix, starts_with, trim_ascii, trimmed, first_index_of, lemma_first_index_range, lemma_split_len, lemma_split_two};
use crate::patching::chars_from;

verus! {

/// How the CPU name was found.
#[derive(Clone, Copy, Debug, PartialEq, Eq, Structural)]
pub enum DetectionMethod {
    PowerShell,
    Wmic,
    Env,
    Sysctl,
    Procfs,
    Rustc,
    Fallback,
}

impl DetectionMethod {
    pub fn as_str(self) -> (r: &'static str)
        ensures
            self == DetectionMethod::PowerShell ==> r@ == "PowerShell"@,
            self == DetectionMethod::Wmic ==> r@ == "WMIC"@,
            self == DetectionMethod::Env ==> r@ == "Env"@,
            self == DetectionMethod::Sysctl ==> r@ == "Sysctl"@,
            self == DetectionMethod::Procfs ==> r@ == "Procfs"@,
            self == DetectionMethod::Rustc ==> r@ == "Rustc"@,
            self == DetectionMethod::Fallback ==> r@ == "Fallback"@,
    {
        match self {
            DetectionMethod::PowerShell => "PowerShell",
            DetectionMethod::Wmic => "WMIC",
            DetectionMethod::Env => "Env",
            DetectionMethod::Sysctl => "Sysctl",
            DetectionMethod::Procfs => "Procfs",
            DetectionMethod::Rustc => "Rustc",
            DetectionMethod::Fallback => "Fallback",
        }
    }
}

/// The compiler's name for the host CPU, and how it was found.
#[derive(Clone, Debug)]
pub struct CpuTarget {
    pub name: String,
    pub detected_by: DetectionMethod,
}

/// A human-readable name for a compiler CPU name; unknown names stay as
/// they are.
pub open spec fn display_of(name: Seq<char>) -> Seq<char> {
    if name == "znver5"@ {
        "AMD Zen 5 (Ryzen 9000 / EPYC Turin)"@
    } else
    if name == "znver4"@ {
        "AMD Zen 4 (Ryzen 7000-8000 / EPYC Genoa)"@
    } else
    if name == "znver3"@ {
        "AMD Zen 3 (Ryzen 5000-6000 / EPYC Milan)"@
    } else
    if name == "znver2"@ {
        "AMD Zen 2 (Ryzen 3000-4000 / EPYC Rome)"@
    } else
    if name == "znver1"@ {
        "AMD Zen 1 (Ryzen 1000/2000)"@
    } else
    if name == "arrowlake"@ {
        "Intel Arrow Lake (15th Gen)"@
    } else
    if name == "alderlake"@ {
        "Intel Alder Lake (12th Gen)"@
    } else
    if name == "raptorlake"@ {
        "Intel Raptor Lake (13th/14th Gen)"@
    } else
    if name == "tigerlake"@ {
        "Intel Tiger Lake (11th Gen)"@
    } else
    if name == "icelake"@ {
        "Intel Ice Lake (10th Gen)"@
    } else
    if name == "skylake"@ {
        "Intel Skylake (6th-9th Gen)"@
    } else
    if name == "haswell"@ {
        "Intel Haswell (4th Gen)"@
    } else
    if name == "apple-m1"@ {
        "Apple M1"@
    } else
    if name == "apple-m2"@ {
        "Apple M2"@
    } else
    if name == "apple-m3"@ {
        "Apple M3"@
    } else
    if name == "apple-m4"@ {
        "Apple M4"@
    } else
    if name == "x86-64-v3"@ {
        "Modern x86-64 (AVX2, ~2015+)"@
    } else
    if name == "x86-64-v4"@ {
        "Recent x86-64 (AVX-512)"@
    } else
    if name == "native"@ {
        "Native (auto-detect)"@
    } else
    if name == "unknown"@ {
        "Unknown"@
    } else {
        name
    }
}

pub fn cpu_display_name(name: &str) -> (r: String)
    ensures
        r@ == display_of(name@),
{
    let cs = chars_of(name);
    if vec_eq(&cs, &chars_of("znver5")) {
        String::from_str("AMD Zen 5 (Ryzen 9000 / EPYC Turin)")
    } else
    if vec_eq(&cs, &chars_of("znver4")) {
        String::from_str("AMD Zen 4 (Ryzen 7000-8000 / EPYC Genoa)")
    } else
    if vec_eq(&cs, &chars_of("znver3")) {
        String::from_str("AMD Zen 3 (Ryzen 5000-6000 / EPYC Milan)")
    } else
    if vec_eq(&cs, &chars_of("znver2")) {
        String::from_str("AMD Zen 2 (Ryzen 3000-4000 / EPYC Rome)")
    } else
    if vec_eq(&cs, &chars_of("znver1")) {
        String::from_str("AMD Zen 1 (Ryzen 1000/2000)")
    } else
    if vec_eq(&cs, &chars_of("arrowlake")) {
        String::from_str("Intel Arrow Lake (15th Gen)")
    } else
    if vec_eq(&cs, &chars_of("alderlake")) {
        String::from_str("Intel Alder Lake (12th Gen)")
    } else
    if vec_eq(&cs, &chars_of("raptorlake")) {
        String::from_str("Intel Raptor Lake (13th/14th Gen)")
    } else
    if vec_eq(&cs, &chars_of("tigerlake")) {
        String::from_str("Intel Tiger Lake (11th Gen)")
    } else
    if vec_eq(&cs, &chars_of("icelake")) {
        String::from_str("Intel Ice Lake (10th Gen)")
    } else
    if vec_eq(&cs, &chars_of("skylake")) {
        String::from_str("Intel Skylake (6th-9th Gen)")
    } else
    if vec_eq(&cs, &chars_of("haswell")) {
        String::from_str("Intel Haswell (4th Gen)")
    } else
    if vec_eq(&cs, &chars_of("apple-m1")) {
        String::from_str("Apple M1")
    } else
    if vec_eq(&cs, &chars_of("apple-m2")) {
        String::from_str("Apple M2")
    } else
    if vec_eq(&cs, &chars_of("apple-m3")) {
        String::from_str("Apple M3")
    } else
    if vec_eq(&cs, &chars_of("apple-m4")) {
        String::from_str("Apple M4")
    } else
    if vec_eq(&cs, &chars_of("x86-64-v3")) {
        String::from_str("Modern x86-64 (AVX2, ~2015+)")
    } else
    if vec_eq(&cs, &chars_of("x86-64-v4")) {
        String::from_str("Recent x86-64 (AVX-512)")
    } else
    if vec_eq(&cs, &chars_of("native")) {
        String::from_str("Native (auto-detect)")
    } else
    if vec_eq(&cs, &chars_of("unknown")) {
        String::from_str("Unknown")
    } else {
        String::from_str(name)
    }
}

impl CpuTarget {
    pub fn display_name(&self) -> (r: String)
        ensures
            r@ == display_of(self.name@),
    {
        cpu_display_name(self.name.as_str())
    }

    /// The value handed to the compiler as target CPU: `native` when the
    /// CPU is unknown.
    pub fn rustc_target_cpu(&self) -> (r: &str)
        ensures
            self.name@ == "unknown"@ ==> r@ == "native"@,
            self.name@ != "unknown"@ ==> r@ == self.name@,
    {
        if vec_eq(&chars_of(self.name.as_str()), &chars_of("unknown")) {
            "native"
        } else {
            self.name.as_str()
        }
    }
}

/// Picks the detected CPU: the platform's own detection first, then the
/// compiler's report, else `unknown`.
pub fn detect_cpu_target(family: Option<(String, DetectionMethod)>, from_rustc: Option<String>) -> (r: CpuTarget)
    ensures
        family matches Some((n, m)) ==> r.name == n && r.detected_by == m,
        family is None ==> (from_rustc matches Some(n) ==> r.name == n && r.detected_by == DetectionMethod::Rustc),
        family is None && from_rustc is None ==> r.name@ == "unknown"@ && r.detected_by == DetectionMethod::Fallback,
{
    match family {
        Some((name, detected_by)) => CpuTarget { name, detected_by },
        None => match from_rustc {
            Some(name) => CpuTarget { name, detected_by: DetectionMethod::Rustc },
            None => CpuTarget { name: String::from_str("unknown"), detected_by: DetectionMethod::Fallback },
        },
    }
}

/// ASCII upper case of one character, as `char::to_ascii_uppercase` defines it.
pub open spec fn upper_char(c: char) -> char {
    if c == 'a' { 'A' } else if c == 'b' { 'B' } else if c == 'c' { 'C' } else if c == 'd' { 'D' } else if c == 'e' { 'E' } else if c == 'f' { 'F' } else if c == 'g' { 'G' } else if c == 'h' { 'H' } else if c == 'i' { 'I' } else if c == 'j' { 'J' } else if c == 'k' { 'K' } else if c == 'l' { 'L' } else if c == 'm' { 'M' } else if c == 'n' { 'N' } else if c == 'o' { 'O' } else if c == 'p' { 'P' } else if c == 'q' { 'Q' } else if c == 'r' { 'R' } else if c == 's' { 'S' } else if c == 't' { 'T' } else if c == 'u' { 'U' } else if c == 'v' { 'V' } else if c == 'w' { 'W' } else if c == 'x' { 'X' } else if c == 'y' { 'Y' } else if c == 'z' { 'Z' } else { c }
}

pub fn to_upper_char(c: char) -> (r: char)
    ensures
        r == upper_char(c),
{
    if c == 'a' { 'A' } else if c == 'b' { 'B' } else if c == 'c' { 'C' } else if c == 'd' { 'D' } else if c == 'e' { 'E' } else if c == 'f' { 'F' } else if c == 'g' { 'G' } else if c == 'h' { 'H' } else if c == 'i' { 'I' } else if c == 'j' { 'J' } else if c == 'k' { 'K' } else if c == 'l' { 'L' } else if c == 'm' { 'M' } else if c == 'n' { 'N' } else if c == 'o' { 'O' } else if c == 'p' { 'P' } else if c == 'q' { 'Q' } else if c == 'r' { 'R' } else if c == 's' { 'S' } else if c == 't' { 'T' } else if c == 'u' { 'U' } else if c == 'v' { 'V' } else if c == 'w' { 'W' } else if c == 'x' { 'X' } else if c == 'y' { 'Y' } else if c == 'z' { 'Z' } else { c }
}

/// The ASCII upper case of a text.
pub open spec fn upper_of(s: Seq<char>) -> Seq<char> {
    s.map_values(|c: char| upper_char(c))
}

/// ASCII upper case of a text.
pub fn ascii_uppercase(s: &str) -> (r: Vec<char>)
    ensures
        r@ == s@.map_values(|c: char| upper_char(c)),
{
    let cs = chars_of(s);
    let mut out: Vec<char> = Vec::new();
    let mut i: usize = 0;
    while i < cs.len()
        invariant
            i <= cs.len(),
            out@ == cs@.subrange(0, i as int).map_values(|c: char| upper_char(c)),
        decreases cs.len() - i,
    {
        out.push(to_upper_char(cs[i]));
        assert(cs@.subrange(0, i + 1).map_values(|c: char| upper_char(c))
            =~= cs@.subrange(0, i as int).map_values(|c: char| upper_char(c)).push(upper_char(cs@[i as int])));
        i = i + 1;
    }
    assert(cs@.subrange(0, cs.len() as int) == cs@);
    out
}

/// The compiler CPU name for an upper-cased Intel model name.
pub open spec fn intel_target(upper: Seq<char>) -> Seq<char> {
    if contains_seq(upper, "15TH GEN"@) || contains_seq(upper, "ARROW LAKE"@) {
        "arrowlake"@
    } else if contains_seq(upper, "14TH GEN"@) || contains_seq(upper, "13TH GEN"@) {
        "raptorlake"@
    } else if contains_seq(upper, "12TH GEN"@) {
        "alderlake"@
    } else if contains_seq(upper, "11TH GEN"@) {
        "tigerlake"@
    } else if contains_seq(upper, "10TH GEN"@) {
        "icelake"@
    } else if contains_seq(upper, "9TH GEN"@) || contains_seq(upper, "8TH GEN"@) || contains_seq(upper, "7TH GEN"@)
        || contains_seq(upper, "6TH GEN"@) {
        "skylake"@
    } else {
        "native"@
    }
}

/// Maps an upper-cased Intel model name to a compiler CPU name by its
/// generation.
pub fn map_intel_name(upper: &str) -> (r: Option<String>)
    ensures
        r matches Some(s) && s@ == intel_target(upper@),
{
    let s = if str_contains(upper, "15TH GEN") || str_contains(upper, "ARROW LAKE") {
        "arrowlake"
    } else if str_contains(upper, "14TH GEN") || str_contains(upper, "13TH GEN") {
        "raptorlake"
    } else if str_contains(upper, "12TH GEN") {
        "alderlake"
    } else if str_contains(upper, "11TH GEN") {
        "tigerlake"
    } else if str_contains(upper, "10TH GEN") {
        "icelake"
    } else if str_contains(upper, "9TH GEN") || str_contains(upper, "8TH GEN") || str_contains(upper, "7TH GEN")
        || str_contains(upper, "6TH GEN") {
        "skylake"
    } else {
        "native"
    };
    Some(String::from_str(s))
}

pub open spec fn is_digit(c: char) -> bool {
    '0' <= c && c <= '9'
}

pub open spec fn digit_value(c: char) -> int {
    (c as int) - ('0' as int)
}

/// Four digits start at `i`.
pub open spec fn four_digits_at(s: Seq<char>, i: int) -> bool {
    0 <= i && i + 4 <= s.len() && is_digit(s[i]) && is_digit(s[i + 1]) && is_digit(s[i + 2]) && is_digit(s[i + 3])
}

pub open spec fn four_digit_value(s: Seq<char>, i: int) -> int {
    digit_value(s[i]) * 1000 + digit_value(s[i + 1]) * 100 + digit_value(s[i + 2]) * 10 + digit_value(s[i + 3])
}

/// The first four consecutive digits of a text, as a number.
pub fn extract_first_4digit_number(text: &str) -> (r: Option<u32>)
    ensures
        r is None <==> forall|i: int| !four_digits_at(text@, i),
        r matches Some(v) ==> exists|i: int| four_digits_at(text@, i) && v == four_digit_value(text@, i)
            && forall|j: int| 0 <= j < i ==> !four_digits_at(text@, j),
{
    let cs = chars_of(text);
    let mut run: usize = 0;
    let mut i: usize = 0;
    while i < cs.len()
        invariant
            cs@ == text@,
            i <= cs.len(),
            run <= 3,
            run <= i,
            forall|k: int| i - run <= k < i ==> is_digit(cs@[k]),
            i > run ==> !is_digit(cs@[i - run - 1]),
            forall|j: int| 0 <= j && j + 4 <= i ==> !four_digits_at(cs@, j),
        decreases cs.len() - i,
    {
        let c = cs[i];
        if '0' <= c && c <= '9' {
            if run == 3 {
                let a = i - 3;
                let v = (cs[a] as u32 - '0' as u32) * 1000 + (cs[a + 1] as u32 - '0' as u32) * 100
                    + (cs[a + 2] as u32 - '0' as u32) * 10 + (c as u32 - '0' as u32);
                proof {
                    assert(four_digits_at(cs@, a as int));
                    assert(v == four_digit_value(cs@, a as int));
                    assert(cs@ == text@);
                    assert(four_digits_at(text@, a as int));
                    assert(v == four_digit_value(text@, a as int));
                    assert forall|j: int| 0 <= j < a implies !four_digits_at(cs@, j) by {
                        if j + 4 > i && four_digits_at(cs@, j) {
                            assert(i - run - 1 >= j);
                            assert(is_digit(cs@[i - run - 1]));
                        }
                    }
                }
                return Some(v);
            }
            run = run + 1;
        } else {
            proof {
                assert forall|j: int| 0 <= j && j + 4 <= i + 1 implies !four_digits_at(cs@, j) by {
                    if j + 4 == i + 1 {
                        assert(!is_digit(cs@[i as int]));
                    }
                }
            }
            run = 0;
        }
        proof {
            assert forall|j: int| 0 <= j && j + 4 <= i + 1 implies !four_digits_at(cs@, j) by {
                if j + 4 == i + 1 && four_digits_at(cs@, j) {
                    if run == 0 {
                        assert(!is_digit(cs@[i as int]));
                    } else {
                        assert(i + 1 - run - 1 >= j);
                        assert(is_digit(cs@[i + 1 - run - 1]));
                    }
                }
            }
        }
        i = i + 1;
    }
    None
}

/// The compiler CPU name for an AMD model series number.
pub open spec fn amd_series_target(series: int) -> Seq<char> {
    if 9000 <= series <= 9999 {
        "znver5"@
    } else if 7000 <= series <= 8999 {
        "znver4"@
    } else if 5000 <= series <= 6999 {
        "znver3"@
    } else if 3000 <= series <= 4999 {
        "znver2"@
    } else if 1000 <= series <= 2999 {
        "znver1"@
    } else {
        "native"@
    }
}

/// Maps an upper-cased AMD model name to a compiler CPU name by its series
/// number; `None` when the name holds no four-digit number.
pub fn map_amd_series(upper: &str) -> (r: Option<String>)
    ensures
        r is None <==> forall|i: int| !four_digits_at(upper@, i),
        r matches Some(s) ==> exists|i: int| four_digits_at(upper@, i)
            && s@ == amd_series_target(four_digit_value(upper@, i))
            && forall|j: int| 0 <= j < i ==> !four_digits_at(upper@, j),
{
    match extract_first_4digit_number(upper) {
        None => None,
        Some(series) => {
            let cpu = if 9000 <= series && series <= 9999 {
                "znver5"
            } else if 7000 <= series && series <= 8999 {
                "znver4"
            } else if 5000 <= series && series <= 6999 {
                "znver3"
            } else if 3000 <= series && series <= 4999 {
                "znver2"
            } else if 1000 <= series && series <= 2999 {
                "znver1"
            } else {
                "native"
            };
            Some(String::from_str(cpu))
        },
    }
}

/// The compiler CPU name for a model name as the Windows tools report it.
pub open spec fn windows_target(upper: Seq<char>, amd: Option<Seq<char>>) -> Seq<char> {
    if contains_seq(upper, "AMD"@) {
        match amd { Some(s) => s, None => "native"@ }
    } else if contains_seq(upper, "INTEL"@) {
        intel_target(upper)
    } else {
        "native"@
    }
}

/// Maps a model name as the Windows tools report it to a compiler CPU name.
pub fn map_windows_cpu_name(name: &str) -> (r: Option<String>)
    ensures
        r is Some,
        !contains_seq(upper_of(name@), "AMD"@)
            ==> r->Some_0@ == windows_target(upper_of(name@), None),
        contains_seq(upper_of(name@), "AMD"@)
            && (forall|i: int| !four_digits_at(upper_of(name@), i)) ==> r->Some_0@ == "native"@,
        contains_seq(upper_of(name@), "AMD"@)
            && !(forall|i: int| !four_digits_at(upper_of(name@), i)) ==>
            exists|i: int| four_digits_at(upper_of(name@), i)
                && r->Some_0@ == amd_series_target(four_digit_value(upper_of(name@), i))
                && forall|j: int| 0 <= j < i ==> !four_digits_at(upper_of(name@), j),
{
    let upper = string_of(&ascii_uppercase(name));
    if str_contains(upper.as_str(), "AMD") {
        return match map_amd_series(upper.as_str()) {
            Some(s) => Some(s),
            None => Some(String::from_str("native")),
        };
    }
    if str_contains(upper.as_str(), "INTEL") {
        return map_intel_name(upper.as_str());
    }
    Some(String::from_str("native"))
}


/// The value of a run of ASCII digits.
pub open spec fn digits_value(s: Seq<char>) -> int
    decreases s.len(),
{
    if s.len() == 0 { 0 } else { digits_value(s.drop_last()) * 10 + digit_value(s.last()) }
}

pub open spec fn all_digits(s: Seq<char>) -> bool {
    forall|i: int| 0 <= i < s.len() ==> is_digit(s[i])
}

/// What `str::parse::<u32>` makes of a text: an optional `+`, then at least
/// one digit, and nothing else, with a value that fits.
pub open spec fn parsed_u32(s: Seq<char>) -> Option<u32> {
    let d = if s.len() > 0 && s[0] == '+' { s.drop_first() } else { s };
    if d.len() > 0 && all_digits(d) && digits_value(d) <= u32::MAX {
        Some(digits_value(d) as u32)
    } else {
        None
    }
}

/// Parses a decimal `u32` as `str::parse` does.
pub fn parse_u32(s: &Vec<char>) -> (r: Option<u32>)
    ensures
        r == parsed_u32(s@),
{
    let start: usize = if s.len() > 0 && s[0] == '+' { 1 } else { 0 };
    let ghost d = if s@.len() > 0 && s@[0] == '+' { s@.drop_first() } else { s@ };
    assert(d =~= s@.subrange(start as int, s@.len() as int));
    if start >= s.len() {
        return None;
    }
    let mut v: u64 = 0;
    let mut i: usize = start;
    while i < s.len()
        invariant
            start <= i <= s.len(),
            start < s.len(),
            d == s@.subrange(start as int, s@.len() as int),
            d == (if s@.len() > 0 && s@[0] == '+' { s@.drop_first() } else { s@ }),
            all_digits(s@.subrange(start as int, i as int)),
            v == digits_value(s@.subrange(start as int, i as int)),
            v <= u32::MAX,
        decreases s.len() - i,
    {
        let c = s[i];
        let pre = Ghost(s@.subrange(start as int, i + 1));
        assert(pre@.drop_last() =~= s@.subrange(start as int, i as int));
        if !('0' <= c && c <= '9') {
            assert(d[i - start] == c);
            assert(!is_digit(d[i - start]));
            assert(!all_digits(d));
            return None;
        }
        let nv = v * 10 + (c as u64 - '0' as u64);
        assert(all_digits(pre@)) by {
            assert forall|k: int| 0 <= k < pre@.len() implies is_digit(pre@[k]) by {
                if k < pre@.len() - 1 {
                    assert(pre@[k] == s@.subrange(start as int, i as int)[k]);
                }
            }
        }
        assert(pre@.last() == c);
        assert(digits_value(pre@) == v * 10 + digit_value(c));
        if nv > 0xffff_ffff {
            proof {
                assert(d.subrange(0, i + 1 - start) =~= pre@);
                lemma_value_grows(d, (i + 1 - start) as int);
            }
            return None;
        }
        v = nv;
        i = i + 1;
    }
    Some(v as u32)
}

proof fn lemma_value_grows(d: Seq<char>, k: int)
    requires
        0 < k <= d.len(),
        all_digits(d.subrange(0, k)),
        digits_value(d.subrange(0, k)) > u32::MAX,
    ensures
        !(all_digits(d) && digits_value(d) <= u32::MAX),
    decreases d.len() - k,
{
    if k < d.len() && all_digits(d) {
        let a = d.subrange(0, k + 1);
        assert(a.drop_last() =~= d.subrange(0, k));
        assert(all_digits(a)) by {
            assert forall|i: int| 0 <= i < a.len() implies is_digit(a[i]) by {
                assert(a[i] == d[i]);
            }
        }
        assert(digits_value(a) >= digits_value(d.subrange(0, k)) * 10);
        lemma_value_grows(d, k + 1);
    } else if k == d.len() {
        assert(d.subrange(0, k) =~= d);
    }
}

/// The text between the first and second `:` of a line, if it has one.
pub open spec fn field_value(l: Seq<char>) -> Option<Seq<char>> {
    if first_index_of(l, ':') >= 0 { Some(split_char(l, ':')[1]) } else { None }
}

/// The number the first line starting with `field` gives after its colon.
pub open spec fn cpuinfo_field(ls: Seq<Seq<char>>, field: Seq<char>) -> Option<u32>
    decreases ls.len(),
{
    if ls.len() == 0 {
        None
    } else if has_prefix(ls[0], field) {
        match field_value(ls[0]) {
            Some(v) => parsed_u32(trimmed(v)),
            None => None,
        }
    } else {
        cpuinfo_field(ls.drop_first(), field)
    }
}

fn colon_field(l: &Vec<char>) -> (r: Option<Vec<char>>)
    ensures
        r is None <==> field_value(l@) is None,
        r is Some ==> r->Some_0@ == field_value(l@)->Some_0,
{
    let parts = split_on(l, ':');
    proof {
        lemma_split_len(l@, ':');
        lemma_first_index_range(l@, ':');
    }
    if parts.len() < 2 {
        proof {
            if first_index_of(l@, ':') >= 0 {
                lemma_split_two(l@, ':');
            }
        }
        return None;
    }
    proof {
        let k = first_index_of(l@, ':');
        if k < 0 {
            assert(split_char(l@, ':') == seq![l@]);
        }
    }
    assert(parts@.map_values(|v: Vec<char>| v@)[1] == parts@[1]@);
    Some(parts[1].clone())
}

/// Reads a numeric field of the kernel's CPU description.
pub fn parse_cpuinfo_field(cpuinfo: &str, field: &str) -> (r: Option<u32>)
    ensures
        r == cpuinfo_field(lines_of(cpuinfo@), field@),
{
    let ls = lines(cpuinfo);
    let ghost lv = ls@.map_values(|v: Vec<char>| v@);
    let f = chars_of(field);
    let mut i: usize = 0;
    assert(lv.subrange(0, lv.len() as int) == lv);
    while i < ls.len()
        invariant
            i <= ls.len(),
            f@ == field@,
            lv == ls@.map_values(|v: Vec<char>| v@),
            lv == lines_of(cpuinfo@),
            cpuinfo_field(lv, field@) == cpuinfo_field(lv.subrange(i as int, lv.len() as int), field@),
        decreases ls.len() - i,
    {
        let ghost rest = lv.subrange(i as int, lv.len() as int);
        assert(rest[0] == ls@[i as int]@);
        assert(rest.drop_first() =~= lv.subrange(i + 1, lv.len() as int));
        if starts_with(&ls[i], &f) {
            return match colon_field(&ls[i]) {
                Some(v) => parse_u32(&trim_ascii(&v)),
                None => None,
            };
        }
        i = i + 1;
    }
    None
}

/// The first non-empty model name in the kernel's CPU description.
pub open spec fn model_name_of(ls: Seq<Seq<char>>) -> Option<Seq<char>>
    decreases ls.len(),
{
    if ls.len() == 0 {
        None
    } else if has_prefix(ls[0], "model name"@) {
        match field_value(ls[0].subrange(10, ls[0].len() as int)) {
            None => None,
            Some(v) => if trimmed(v).len() > 0 { Some(trimmed(v)) } else { model_name_of(ls.drop_first()) },
        }
    } else {
        model_name_of(ls.drop_first())
    }
}

pub fn first_model_name(cpuinfo: &str) -> (r: Option<String>)
    ensures
        r is None <==> model_name_of(lines_of(cpuinfo@)) is None,
        r is Some ==> r->Some_0@ == model_name_of(lines_of(cpuinfo@))->Some_0,
{
    let ls = lines(cpuinfo);
    let ghost lv = ls@.map_values(|v: Vec<char>| v@);
    let key = chars_of("model name");
    proof {
        reveal_strlit("model name");
    }
    let mut i: usize = 0;
    assert(lv.subrange(0, lv.len() as int) == lv);
    while i < ls.len()
        invariant
            i <= ls.len(),
            key@ == "model name"@,
            key@.len() == 10,
            lv == ls@.map_values(|v: Vec<char>| v@),
            lv == lines_of(cpuinfo@),
            model_name_of(lv) == model_name_of(lv.subrange(i as int, lv.len() as int)),
        decreases ls.len() - i,
    {
        let ghost rest = lv.subrange(i as int, lv.len() as int);
        assert(rest[0] == ls@[i as int]@);
        assert(rest.drop_first() =~= lv.subrange(i + 1, lv.len() as int));
        if starts_with(&ls[i], &key) {
            let tail = chars_from(&ls[i], 10);
            match colon_field(&tail) {
                None => {
                    return None;
                },
                Some(v) => {
                    let t = trim_ascii(&v);
                    if t.len() > 0 {
                        return Some(string_of(&t));
                    }
                },
            }
        }
        i = i + 1;
    }
    None
}

/// The compiler CPU name for an AMD family and model number.
pub open spec fn amd_family_target(family: u32, model: u32) -> Seq<char> {
    if family == 26 {
        "znver5"@
    } else if family == 25 {
        if model >= 97 { "znver4"@ } else { "znver3"@ }
    } else if family == 24 {
        "znver3"@
    } else if family == 23 {
        if model >= 49 { "znver2"@ } else { "znver1"@ }
    } else {
        "native"@
    }
}

/// The CPU family the kernel's CPU description names: by family and model
/// number for AMD, by generation in the model name for Intel.
pub open spec fn cpuinfo_target(cpuinfo: Seq<char>) -> Option<Seq<char>> {
    let ls = lines_of(cpuinfo);
    if contains_seq(cpuinfo, "AuthenticAMD"@) {
        match cpuinfo_field(ls, "cpu family"@) {
            None => None,
            Some(f) => Some(amd_family_target(f, match cpuinfo_field(ls, "model"@) { Some(m) => m, None => 0 })),
        }
    } else if contains_seq(cpuinfo, "GenuineIntel"@) {
        match model_name_of(ls) {
            Some(n) => Some(intel_target(n.map_values(|c: char| upper_char(c)))),
            None => Some("native"@),
        }
    } else {
        None
    }
}

/// Detects the CPU family from the kernel's CPU description.
pub fn detect_cpu_family(cpuinfo: &str) -> (r: Option<(String, DetectionMethod)>)
    ensures
        r is None <==> cpuinfo_target(cpuinfo@) is None,
        r is Some ==> (r->Some_0).0@ == cpuinfo_target(cpuinfo@)->Some_0 && (r->Some_0).1 == DetectionMethod::Procfs,
{
    if str_contains(cpuinfo, "AuthenticAMD") {
        let family = match parse_cpuinfo_field(cpuinfo, "cpu family") {
            Some(f) => f,
            None => {
                return None;
            },
        };
        let model = match parse_cpuinfo_field(cpuinfo, "model") {
            Some(m) => m,
            None => 0,
        };
        let name = if family == 26 {
            "znver5"
        } else if family == 25 {
            if model >= 97 { "znver4" } else { "znver3" }
        } else if family == 24 {
            "znver3"
        } else if family == 23 {
            if model >= 49 { "znver2" } else { "znver1" }
        } else {
            "native"
        };
        return Some((String::from_str(name), DetectionMethod::Procfs));
    }
    if str_contains(cpuinfo, "GenuineIntel") {
        return match first_model_name(cpuinfo) {
            Some(n) => {
                let upper = string_of(&ascii_uppercase(n.as_str()));
                match map_intel_name(upper.as_str()) {
                    Some(t) => Some((t, DetectionMethod::Procfs)),
                    None => Some((String::from_str("native"), DetectionMethod::Procfs)),
                }
            },
            None => Some((String::from_str("native"), DetectionMethod::Procfs)),
        };
    }
    None
}
/// The compiler CPU name for a processor brand string as the macOS system
/// reports it; `None` for a brand it does not know.
pub open spec fn brand_target(upper: Seq<char>) -> Option<Seq<char>> {
    if contains_seq(upper, "APPLE M4"@) {
        Some("apple-m4"@)
    } else if contains_seq(upper, "APPLE M3"@) {
        Some("apple-m3"@)
    } else if contains_seq(upper, "APPLE M2"@) {
        Some("apple-m2"@)
    } else if contains_seq(upper, "APPLE M1"@) {
        Some("apple-m1"@)
    } else if contains_seq(upper, "INTEL"@) {
        Some("native"@)
    } else {
        None
    }
}

/// Maps a processor brand string to a compiler CPU name.
pub fn cpu_from_brand(brand: &str) -> (r: Option<(String, DetectionMethod)>)
    ensures
        r is None <==> brand_target(upper_of(brand@)) is None,
        r is Some ==> (r->Some_0).0@ == brand_target(upper_of(brand@))->Some_0 && (r->Some_0).1 == DetectionMethod::Sysctl,
{
    let upper = string_of(&ascii_uppercase(brand));
    let u = upper.as_str();
    let name = if str_contains(u, "APPLE M4") {
        "apple-m4"
    } else if str_contains(u, "APPLE M3") {
        "apple-m3"
    } else if str_contains(u, "APPLE M2") {
        "apple-m2"
    } else if str_contains(u, "APPLE M1") {
        "apple-m1"
    } else if str_contains(u, "INTEL") {
        "native"
    } else {
        return None;
    };
    Some((String::from_str(name), DetectionMethod::Sysctl))
}

} // verus!
