use codex_xtreme::text::{decimal, lines, trim_ascii};
use codex_xtreme::{
    cpu_display_name, current_version_from, detect_cpu_family, detect_cpu_target, parse_releases, repo_age,
    updated_rc, version_from_manifest, with_build_profile, DetectionMethod,
};
use codex_xtreme::cpu::{cpu_from_brand, extract_first_4digit_number, map_amd_series, map_intel_name, map_windows_cpu_name, parse_cpuinfo_field, first_model_name};
use codex_xtreme::repo::RepoInfo;

#[test]
fn lines_follow_str_lines() {
    let ls: Vec<String> = lines("a\r\nb\n\nc\n").into_iter().map(|v| v.into_iter().collect()).collect();
    assert_eq!(ls, vec!["a", "b", "", "c"]);
    assert!(lines("").is_empty());
}

#[test]
fn trimming_and_decimal() {
    let t: String = trim_ascii(&"  x y \t\n".chars().collect()).into_iter().collect();
    assert_eq!(t, "x y");
    assert_eq!(decimal(0), "0");
    assert_eq!(decimal(1234567890), "1234567890");
}

#[test]
fn alias_line_is_replaced_in_place() {
    let rc = "export A=1\n  alias codex=\"/old\"\nexport B=2\n";
    assert_eq!(updated_rc(rc, "alias codex=\"/new\""), "export A=1\nalias codex=\"/new\"\nexport B=2\n");
}

#[test]
fn alias_line_is_appended_under_marker() {
    assert_eq!(
        updated_rc("export A=1", "alias codex=\"/new\""),
        "export A=1\n\n# Added by codex-xtreme\nalias codex=\"/new\"\n"
    );
}

#[test]
fn build_profile_is_added_once() {
    let with = with_build_profile("[workspace]\n").unwrap();
    assert!(with.starts_with("[workspace]\n\n\n[profile.xtreme]\n"));
    assert!(with.contains("lto = \"fat\"") && with.contains("codegen-units = 1") && with.contains("panic = \"abort\""));
    assert_eq!(with_build_profile(&with), None);
}

#[test]
fn workspace_version_is_read_from_manifest() {
    let m = "[workspace]\nmembers = []\n\n[workspace.package]\nversion = \"0.99.0\"\n";
    assert_eq!(version_from_manifest(m), Some("0.99.0".to_string()));
    assert_eq!(version_from_manifest("  version='1.2.3'  \n"), Some("1.2.3".to_string()));
    assert_eq!(version_from_manifest("version = \"\"\nname = \"x\"\n"), None);
    assert_eq!(version_from_manifest("[package]\nname = \"x\"\n"), None);
}

#[test]
fn releases_are_filtered_and_deduplicated() {
    let listing = "rust-v0.99.0|2025-01-02\nrust-vv0.98.0|2025-01-01\nrust-vrust-v1|2025-01-01\nrust-v0.99.0|2025-01-03\nv0.5|2024-12-12\nrust-v0.98.0\n";
    let rs = parse_releases(listing);
    assert_eq!(rs.len(), 2);
    assert_eq!((rs[0].tag.as_str(), rs[0].version.as_str(), rs[0].published.as_str()), ("rust-v0.99.0", "0.99.0", "2025-01-02"));
    assert_eq!((rs[1].tag.as_str(), rs[1].version.as_str(), rs[1].published.as_str()), ("rust-v0.98.0", "0.98.0", ""));
}

#[test]
fn current_version_strips_tag_prefix() {
    assert_eq!(current_version_from("rust-v0.99.0\n"), Some("0.99.0".to_string()));
    assert_eq!(current_version_from("  \n"), None);
}

#[test]
fn repo_age_uses_largest_unit() {
    assert_eq!(repo_age(59), "59s ago");
    assert_eq!(repo_age(60), "1m ago");
    assert_eq!(repo_age(7200), "2h ago");
    assert_eq!(repo_age(86400 * 3), "3d ago");
    let r = RepoInfo { path: "/home/u/dev/codex".to_string(), age: "1d ago".to_string(), branch: "main".to_string() };
    assert_eq!(r.workspace_path(), "/home/u/dev/codex/codex-rs");
}

#[test]
fn cpu_names_are_mapped() {
    assert_eq!(cpu_display_name("znver4"), "AMD Zen 4 (Ryzen 7000-8000 / EPYC Genoa)");
    assert_eq!(cpu_display_name("mystery"), "mystery");
    let t = detect_cpu_target(None, None);
    assert_eq!(t.name, "unknown");
    assert_eq!(t.rustc_target_cpu(), "native");
    assert_eq!(t.display_name(), "Unknown");
    assert_eq!(t.detected_by.as_str(), "Fallback");
    let t = detect_cpu_target(None, Some("skylake".to_string()));
    assert_eq!(t.detected_by, DetectionMethod::Rustc);
    assert_eq!(t.rustc_target_cpu(), "skylake");
}

#[test]
fn amd_and_intel_names_map_to_targets() {
    assert_eq!(extract_first_4digit_number("AMD RYZEN 9 7950X"), Some(7950));
    assert_eq!(extract_first_4digit_number("AB 123 45678"), Some(4567));
    assert_eq!(extract_first_4digit_number("NO DIGITS 123"), None);
    assert_eq!(map_amd_series("AMD RYZEN 7 5800X3D").as_deref(), Some("znver3"));
    assert_eq!(map_intel_name("13TH GEN INTEL(R) CORE(TM) I7").as_deref(), Some("raptorlake"));
    assert_eq!(map_windows_cpu_name("Intel(R) Core(TM) i9-9900K 9th Gen").as_deref(), Some("skylake"));
    assert_eq!(map_windows_cpu_name("AMD Ryzen 9 9950X").as_deref(), Some("znver5"));
    assert_eq!(map_windows_cpu_name("Some ARM chip").as_deref(), Some("native"));
}

#[test]
fn cpuinfo_is_parsed() {
    let amd = "vendor_id\t: AuthenticAMD\ncpu family\t: 25\nmodel\t\t: 97\nmodel name\t: AMD Ryzen 9 7950X\n";
    assert_eq!(parse_cpuinfo_field(amd, "cpu family"), Some(25));
    assert_eq!(parse_cpuinfo_field(amd, "model"), Some(97));
    let r = detect_cpu_family(amd).unwrap();
    assert_eq!(r.0, "znver4");
    assert_eq!(r.1, DetectionMethod::Procfs);
    let intel = "vendor_id\t: GenuineIntel\nmodel name\t: 12th Gen Intel(R) Core(TM) i7-12700K\n";
    assert_eq!(first_model_name(intel).as_deref(), Some("12th Gen Intel(R) Core(TM) i7-12700K"));
    assert_eq!(detect_cpu_family(intel).unwrap().0, "alderlake");
    assert_eq!(detect_cpu_family("vendor_id : Other\n"), None);
}

#[test]
fn brand_strings_map_to_targets() {
    assert_eq!(cpu_from_brand("Apple M3 Max").map(|t| t.0), Some("apple-m3".to_string()));
    assert_eq!(cpu_from_brand("Intel(R) Core(TM) i9").map(|t| t.1), Some(DetectionMethod::Sysctl));
    assert!(cpu_from_brand("Unknown Vendor").is_none());
}
