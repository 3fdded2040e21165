use codex_xtreme::{
    BootScreen, BuildConfigScreen, CheckList, CheckStatus, CherryPickScreen, CloneScreen, InputScreen, ListItem,
    ListStatus, OptimizationMode, Panel, PatchInfo, PatchSelectScreen, RepoSelectScreen, SelectList, Spinner,
    VersionInfo, VersionSelectScreen,
};
use codex_xtreme::repo_select::RepoInfo;
use codex_xtreme::{clone_target, CloneTarget};

#[test]
fn input_screen_edits_at_cursor() {
    let mut s = InputScreen::new("Clone destination".to_string()).initial_value("ab".to_string());
    s.move_left();
    s.insert_char('é');
    assert_eq!(s.value(), "aéb");
    s.move_home();
    s.delete_char();
    assert_eq!(s.value(), "aéb");
    s.delete_forward();
    assert_eq!(s.value(), "éb");
    s.move_end();
    s.delete_char();
    assert_eq!(s.value(), "é");
    s.move_right();
    s.insert_char('!');
    assert_eq!(s.value(), "é!");
    s.tick();
    assert_eq!(s.frame(), 1);
}

#[test]
fn cherry_pick_screen_keeps_value_and_status() {
    let mut s = CherryPickScreen::new("rust-v0.99.0".to_string());
    s.set_value("abc1234".to_string());
    s.insert_char(',');
    assert_eq!(s.value(), "abc1234,");
    assert_eq!(s.status(), None);
    s.set_status(Some("bad sha".to_string()));
    assert_eq!(s.status(), Some("bad sha"));
}

#[test]
fn clone_screen_counts_down_after_completion() {
    let mut s = CloneScreen::new("/tmp/codex".to_string());
    assert_eq!(s.countdown(), 0);
    s.set_complete();
    assert!(s.is_complete());
    assert_eq!(s.countdown(), 2);
    for _ in 0..121 {
        s.tick();
    }
    assert_eq!(s.countdown(), 0);
    assert!(s.should_auto_advance());
    let mut e = CloneScreen::new("/x".to_string());
    e.set_error("denied".to_string());
    assert!(e.is_error());
    assert_eq!(e.destination(), "/x");
}

fn patch(name: &str, selected: bool) -> PatchInfo {
    PatchInfo {
        path: format!("/p/{name}.toml"),
        name: name.to_string(),
        description: String::new(),
        patch_count: 1,
        selected,
        compatible: true,
    }
}

#[test]
fn patch_selection_toggles_and_collects() {
    let mut s = PatchSelectScreen::new(vec![patch("a", true), patch("b", false), patch("c", true)], "0.99.0".to_string());
    s.select_next();
    s.toggle_current();
    let names: Vec<&str> = s.selected_patches().iter().map(|p| p.name.as_str()).collect();
    assert_eq!(names, vec!["a", "b", "c"]);
    s.select_none();
    assert!(s.selected_patch_paths().is_empty());
    s.select_all();
    assert_eq!(s.selected_patch_paths().len(), 3);
    s.select_next();
    s.select_next();
    s.select_next();
    s.toggle_current();
    let paths: Vec<&str> = s.selected_patch_paths().iter().map(|p| p.as_str()).collect();
    assert_eq!(paths, vec!["/p/a.toml", "/p/b.toml"]);
}

#[test]
fn repo_selection_reaches_clone_entry() {
    let repo = RepoInfo { path: "/r".to_string(), branch: "main".to_string(), age: "1h ago".to_string(), is_modified: false };
    let mut s = RepoSelectScreen::new(vec![repo]);
    assert_eq!(s.selected_repo().map(|r| r.display_path()), Some("/r".to_string()));
    s.select_next();
    assert!(s.is_clone_selected());
    assert!(s.selected_repo().is_none());
    s.select_next();
    assert!(s.is_clone_selected());
    s.select_prev();
    assert!(!s.is_clone_selected());
}

#[test]
fn version_selection_stays_in_range() {
    let v = |t: &str| VersionInfo { tag: t.to_string(), date: String::new(), is_latest: false, is_current: false, changelog: vec![] };
    let mut s = VersionSelectScreen::new(vec![v("rust-v2"), v("rust-v1")]);
    s.select_prev();
    assert_eq!(s.selected_version().unwrap().tag, "rust-v2");
    s.select_next();
    s.select_next();
    assert_eq!(s.selected_version().unwrap().tag, "rust-v1");
    assert!(VersionSelectScreen::new(vec![]).selected_version().is_none());
}

#[test]
fn boot_screen_animates_and_completes() {
    let mut b = BootScreen::new(false);
    b.add_check("git".to_string());
    assert_eq!(b.progress(), 0);
    for _ in 0..40 {
        b.tick();
    }
    assert!(b.is_complete());
    assert_eq!(b.progress(), 10000);
    assert_eq!(b.countdown(), 3);
    for _ in 0..200 {
        b.tick();
    }
    assert!(b.should_auto_advance());
    let mut c = BootScreen::new(true);
    c.add_check("a".to_string());
    c.add_check_with_detail("b".to_string(), "found".to_string());
    c.set_check_status(0, CheckStatus::Warning, Some("slow".to_string()));
    c.complete();
    assert!(c.is_complete());
    assert_eq!(CheckStatus::Pending.indicator(0), "○");
    assert_eq!(CheckStatus::Checking.indicator(4), "⠙");
}

#[test]
fn build_config_respects_tool_availability() {
    let mut s = BuildConfigScreen::new("znver4".to_string(), "Procfs".to_string(), true, true);
    assert_eq!(s.optimization_mode(), OptimizationMode::RunFast);
    let f = s.optimization_flags();
    assert!(f.use_bolt && !f.use_mold);
    s.toggle_current();
    assert_eq!(s.optimization_mode(), OptimizationMode::Custom);
    s.toggle_current();
    assert_eq!(s.optimization_mode(), OptimizationMode::BuildFast);
    let f = s.optimization_flags();
    assert!(f.use_mold && !f.use_bolt);
    let none = BuildConfigScreen::new("x".to_string(), "Fallback".to_string(), false, false);
    assert_eq!(none.optimization_mode(), OptimizationMode::Custom);
    assert!(!none.use_mold() && !none.use_bolt());
    assert!(none.optimize_cpu() && none.use_xtreme_profile() && none.strip_symbols() && none.run_tests() && none.setup_alias());
    assert_eq!(none.cpu_target(), "x");
}

#[test]
fn custom_mode_keeps_rewrite_over_linker() {
    let mut s = BuildConfigScreen::new("x".to_string(), "Procfs".to_string(), true, true);
    s.toggle_current();
    assert_eq!(s.optimization_mode(), OptimizationMode::Custom);
    s.select_next();
    s.select_next();
    s.toggle_current();
    assert!(s.use_mold() != s.use_bolt() || !s.use_mold());
    let f = s.optimization_flags();
    assert!(!(f.use_mold && f.use_bolt));
}

#[test]
fn widgets_build_up() {
    let items = vec![ListItem::new("a".to_string()).status(ListStatus::Latest).description("d".to_string()).secondary("s".to_string())];
    assert_eq!(items[0].status.indicator(), "★ ");
    let l = SelectList::new(&items).selected(0).frame(3).show_indices(true);
    assert!(l.show_indices && l.frame == 3);
    let checks = vec![("x".to_string(), true)];
    let c = CheckList::new(&checks).cursor(0).frame(2);
    assert_eq!(c.frame, 2);
    let p = Panel::new().title("T").title_jp("J").focused(true).double_border();
    assert!(p.double_border && p.focused && p.title == Some("T"));
    let sp = Spinner::new().frame(5).label("working".to_string());
    assert_eq!(sp.label.as_deref(), Some("working"));
}

#[test]
fn screen_tick_advances_the_shown_screen() {
    let mut s = codex_xtreme::Screen::VersionSelect(VersionSelectScreen::new(vec![]));
    s.tick();
    s.tick();
    match s {
        codex_xtreme::Screen::VersionSelect(v) => assert_eq!(v.frame(), 2),
        _ => panic!("screen changed"),
    }
}

#[test]
fn clone_destination_rules() {
    assert_eq!(clone_target(false, false, false, false), CloneTarget::Fresh);
    assert_eq!(clone_target(true, true, true, true), CloneTarget::RefuseSymlink);
    assert_eq!(clone_target(true, false, true, false), CloneTarget::Replace);
    assert_eq!(clone_target(true, false, false, true), CloneTarget::Replace);
    assert_eq!(clone_target(true, false, false, false), CloneTarget::RefuseForeign);
    let e = codex_xtreme::PrerequisiteError::GitMissing("Git is required".to_string());
    assert_eq!(e.message(), "Git is required");
}

#[test]
fn build_config_toggles_plain_options_and_keeps_missing_tools_off() {
    let mut s = BuildConfigScreen::new("x".to_string(), "Procfs".to_string(), true, true);
    let mode = s.optimization_mode();
    s.select_next();
    s.toggle_current();
    assert!(!s.optimize_cpu());
    assert_eq!(s.optimization_mode(), mode);
    assert!(s.use_bolt() && !s.use_mold() && s.use_xtreme_profile());
    let mut t = BuildConfigScreen::new("x".to_string(), "Procfs".to_string(), false, true);
    for step in 0..24 {
        if step % 3 == 0 {
            t.select_next();
        } else if step % 5 == 0 {
            t.select_prev();
        }
        t.toggle_current();
        assert!(!t.use_mold());
        assert!(!(t.use_mold() && t.use_bolt()));
    }
}
