use codex_xtreme::repo_select::RepoInfo;
use codex_xtreme::{BootScreen, Event, Key, PatchInfo, Request, Screen, VersionInfo, Wizard};

fn repo(path: &str) -> RepoInfo {
    RepoInfo { path: path.to_string(), branch: "main".to_string(), age: "1h ago".to_string(), is_modified: false }
}

#[test]
fn wizard_walks_from_boot_to_build() {
    let mut boot = BootScreen::new(false);
    boot.add_check_with_detail("git".to_string(), "found".to_string());
    let mut w = Wizard::new(false, boot);
    let mut req = None;
    for _ in 0..300 {
        if let Some(r) = w.tick() {
            req = Some(r);
            break;
        }
    }
    assert_eq!(req, Some(Request::ShowRepos));
    w.show_repos(vec![repo("/r")]);
    assert_eq!(w.handle_key(Key::Enter), Some(Request::ShowVersions("/r".to_string())));
    assert_eq!(w.selected_repo.as_deref(), Some("/r"));
    let v = VersionInfo { tag: "rust-v0.99.0".to_string(), date: String::new(), is_latest: true, is_current: false, changelog: vec![] };
    w.show_versions(vec![v]);
    assert_eq!(w.handle_key(Key::Enter), Some(Request::ShowPatches("rust-v0.99.0".to_string())));
    let p = PatchInfo {
        path: "/p/a.toml".to_string(),
        name: "a".to_string(),
        description: String::new(),
        patch_count: 1,
        selected: true,
        compatible: true,
    };
    w.show_patches(vec![p], "rust-v0.99.0".to_string());
    assert_eq!(w.handle_key(Key::Enter), Some(Request::ShowBuildConfig(vec!["a".to_string()])));
    w.show_build_config(vec!["/p/a.toml".to_string()], "Native".to_string(), "Procfs".to_string(), false, false);
    assert_eq!(w.handle_key(Key::Esc), Some(Request::ShowPatches("rust-v0.99.0".to_string())));
    assert_eq!(w.handle_key(Key::Enter), Some(Request::StartBuild));
    w.show_build();
    assert!(!w.build_events(&vec![Event::Progress(100)]));
    assert!(w.build_events(&vec![Event::Error { message: "x".to_string() }]));
    assert_eq!(w.handle_key(Key::Char('r')), Some(Request::StartBuild));
    assert_eq!(w.handle_key(Key::Esc), None);
    assert!(w.should_quit);
}

#[test]
fn wizard_clone_flow_and_quit() {
    let mut w = Wizard::new(true, BootScreen::new(true));
    w.show_repos(vec![]);
    assert_eq!(w.handle_key(Key::Enter), Some(Request::ShowCloneInput));
    w.show_clone_input("/home/u/dev/codex".to_string());
    w.handle_key(Key::Backspace);
    assert_eq!(w.handle_key(Key::Enter), Some(Request::StartClone("/home/u/dev/code".to_string())));
    assert_eq!(w.handle_key(Key::Esc), Some(Request::ShowRepos));
    w.show_cloning("/tmp/c".to_string());
    let mut req = None;
    for _ in 0..10 {
        if let Some(r) = w.tick() {
            req = Some(r);
            break;
        }
    }
    assert_eq!(req, Some(Request::RunClone("/tmp/c".to_string())));
    w.clone_finished(Err("network".to_string()));
    assert_eq!(w.handle_key(Key::Char('R')), Some(Request::StartClone("/tmp/c".to_string())));
    w.clone_finished(Ok(()));
    assert!(matches!(&w.screen, Screen::Cloning(c) if c.is_complete()));
    assert_eq!(w.handle_key(Key::Enter), Some(Request::ShowVersions("/tmp/c".to_string())));
    assert_eq!(w.handle_key(Key::Char('q')), None);
    assert!(w.should_quit);
}
