use fastlane_desktop::containers::{find_first_with_ext, TreeEntry, MAX_DEPTH};

fn entry(depth: usize, is_dir: bool, relative: &str) -> TreeEntry {
    let name = relative.rsplit('/').next().unwrap_or("");
    let extension = match name.rfind('.') {
        Some(dot) if dot > 0 => Some(name[dot + 1..].to_string()),
        _ => None,
    };
    TreeEntry {
        depth,
        is_dir,
        extension,
        relative: relative.to_string(),
    }
}

#[test]
fn the_depth_bound_is_four() {
    assert_eq!(MAX_DEPTH, 4);
}

#[test]
fn a_workspace_two_levels_deep_is_found() {
    let entries = vec![
        entry(0, true, ""),
        entry(1, true, "ios"),
        entry(2, true, "ios/MyApp.xcworkspace"),
        entry(2, true, "ios/MyApp.xcodeproj"),
    ];
    assert_eq!(
        find_first_with_ext(&entries, "xcworkspace"),
        Some("ios/MyApp.xcworkspace".to_string())
    );
    assert_eq!(
        find_first_with_ext(&entries, "xcodeproj"),
        Some("ios/MyApp.xcodeproj".to_string())
    );
}

#[test]
fn a_workspace_beyond_the_depth_bound_is_not_found() {
    let entries = vec![
        entry(0, true, ""),
        entry(1, true, "a"),
        entry(2, true, "a/b"),
        entry(3, true, "a/b/c"),
        entry(4, true, "a/b/c/d"),
        entry(5, true, "a/b/c/d/MyApp.xcworkspace"),
    ];
    assert_eq!(find_first_with_ext(&entries, "xcworkspace"), None);
}

#[test]
fn a_workspace_at_the_depth_bound_is_found() {
    let entries = vec![
        entry(5, true, "a/b/c/d/Deep.xcworkspace"),
        entry(4, true, "a/b/c/MyApp.xcworkspace"),
    ];
    assert_eq!(
        find_first_with_ext(&entries, "xcworkspace"),
        Some("a/b/c/MyApp.xcworkspace".to_string())
    );
}

#[test]
fn the_first_container_wins() {
    let entries = vec![
        entry(1, true, "B.xcworkspace"),
        entry(1, true, "A.xcworkspace"),
    ];
    assert_eq!(
        find_first_with_ext(&entries, "xcworkspace"),
        Some("B.xcworkspace".to_string())
    );
}

#[test]
fn a_file_is_no_container() {
    let entries = vec![
        entry(1, false, "Notes.xcworkspace"),
        entry(2, true, "ios/App.xcworkspace"),
    ];
    assert_eq!(
        find_first_with_ext(&entries, "xcworkspace"),
        Some("ios/App.xcworkspace".to_string())
    );
    assert_eq!(find_first_with_ext(&entries[..1], "xcworkspace"), None);
}

#[test]
fn the_extension_must_be_the_same() {
    let entries = vec![
        entry(1, true, "App.xcworkspaces"),
        entry(1, true, "App.XCWORKSPACE"),
        entry(1, true, "xcworkspace"),
        entry(1, true, ".xcworkspace"),
    ];
    assert_eq!(find_first_with_ext(&entries, "xcworkspace"), None);
    assert_eq!(find_first_with_ext(&[], "xcworkspace"), None);
}

#[test]
fn the_root_itself_may_be_the_container() {
    let entries = vec![TreeEntry {
        depth: 0,
        is_dir: true,
        extension: Some("xcodeproj".to_string()),
        relative: String::new(),
    }];
    assert_eq!(find_first_with_ext(&entries, "xcodeproj"), Some(String::new()));
}

#[test]
fn none_is_found_exactly_when_there_is_no_container() {
    let entries = vec![
        entry(0, true, ""),
        entry(1, true, "Sources"),
        entry(1, false, "App.xcodeproj"),
        entry(5, true, "a/b/c/d/App.xcodeproj"),
    ];
    assert_eq!(find_first_with_ext(&entries, "xcodeproj"), None);
    let mut more = entries.clone();
    more.push(entry(3, true, "a/b/App.xcodeproj"));
    assert_eq!(
        find_first_with_ext(&more, "xcodeproj"),
        Some("a/b/App.xcodeproj".to_string())
    );
}
