use fastlane_desktop::containers::TreeEntry;
use fastlane_desktop::identity::IdentityResult;
use fastlane_desktop::scan::{resolve_identity, scan_project, Event, Request, ScanResult};
use fastlane_desktop::tool::ToolOutput;

fn dir(depth: usize, relative: &str, extension: Option<&str>) -> TreeEntry {
    TreeEntry {
        depth,
        is_dir: true,
        extension: extension.map(|e| e.to_string()),
        relative: relative.to_string(),
    }
}

fn ran(success: bool, stdout: &str) -> Event {
    Event::Ran(Some(ToolOutput {
        success,
        exit_code: Some(if success { 0 } else { 1 }),
        stdout: stdout.to_string(),
        stderr: String::new(),
    }))
}

fn run(command: &str) -> Request {
    Request::Run(command.to_string())
}

const LISTING: &str = "Information about workspace \"App\":\n    Schemes:\n        App-Dev\n        App-Prod\n\n";
const DEV: &str = "    DEVELOPMENT_TEAM = DEVTEAM\n    PRODUCT_BUNDLE_IDENTIFIER = com.example.dev\n";
const DIS: &str = "    DEVELOPMENT_TEAM = DISTEAM\n    PRODUCT_BUNDLE_IDENTIFIER = com.example.app\n";

#[test]
fn a_scan_without_containers_is_empty_and_no_error() {
    let job = scan_project("/work/MyApp".to_string());
    assert_eq!(job.project_path(), "/work/MyApp");
    assert_eq!(job.pending(), Request::CheckRoot);
    assert_eq!(job.scan_result(), None);
    let job = job.advance(Event::RootChecked(true));
    assert_eq!(job.pending(), Request::Walk);
    assert_eq!(job.scan_result(), None);
    let job = job.advance(Event::Walked(vec![
        dir(0, "", None),
        dir(1, "Sources", None),
    ]));
    assert_eq!(job.pending(), Request::Finished);
    assert_eq!(
        job.scan_result(),
        Some(Ok(ScanResult {
            project_name: "MyApp".to_string(),
            workspace: None,
            xcodeproj: None,
            schemes: vec![],
            bundle_id_dev: None,
            bundle_id_dis: None,
            team_id: None,
        }))
    );
}

#[test]
fn a_scan_of_a_missing_root_fails() {
    let job = scan_project("/no/such/place".to_string());
    let job = job.advance(Event::RootChecked(false));
    assert_eq!(job.pending(), Request::Finished);
    assert_eq!(
        job.scan_result(),
        Some(Err("Project path not found: /no/such/place".to_string()))
    );
    assert_eq!(
        job.identity_result(),
        Some(Err("Project path not found: /no/such/place".to_string()))
    );
}

#[test]
fn a_full_scan_runs_the_tool_five_times() {
    let job = scan_project("/work/App".to_string());
    let job = job.advance(Event::RootChecked(true));
    let job = job.advance(Event::Walked(vec![
        dir(0, "", None),
        dir(1, "App.xcodeproj", Some("xcodeproj")),
        dir(1, "App.xcworkspace", Some("xcworkspace")),
    ]));
    assert_eq!(
        job.pending(),
        run("cd '/work/App' && xcodebuild -list -workspace 'App.xcworkspace'")
    );
    let job = job.advance(ran(true, LISTING));
    let dev = "cd '/work/App' && xcodebuild -showBuildSettings -workspace 'App.xcworkspace' -scheme 'App-Dev'";
    let dis = "cd '/work/App' && xcodebuild -showBuildSettings -workspace 'App.xcworkspace' -scheme 'App-Prod'";
    assert_eq!(job.pending(), run(dev));
    let job = job.advance(ran(true, DEV));
    assert_eq!(job.pending(), run(dis));
    let job = job.advance(ran(true, DIS));
    assert_eq!(job.pending(), run(dev));
    assert_eq!(job.scan_result(), None);
    let job = job.advance(ran(true, DEV));
    assert_eq!(job.pending(), run(dis));
    let job = job.advance(ran(true, DIS));
    assert_eq!(job.pending(), Request::Finished);
    assert_eq!(
        job.scan_result(),
        Some(Ok(ScanResult {
            project_name: "App".to_string(),
            workspace: Some("App.xcworkspace".to_string()),
            xcodeproj: Some("App.xcodeproj".to_string()),
            schemes: vec!["App-Dev".to_string(), "App-Prod".to_string()],
            bundle_id_dev: Some("com.example.dev".to_string()),
            bundle_id_dis: Some("com.example.app".to_string()),
            team_id: Some("DISTEAM".to_string()),
        }))
    );
}

#[test]
fn a_scan_whose_runs_fail_is_sparse_and_no_error() {
    let job = scan_project("/work/App".to_string());
    let job = job.advance(Event::RootChecked(true));
    let job = job.advance(Event::Walked(vec![dir(
        2,
        "ios/App.xcodeproj",
        Some("xcodeproj"),
    )]));
    assert_eq!(
        job.pending(),
        run("cd '/work/App' && xcodebuild -list -project 'ios/App.xcodeproj'")
    );
    let job = job.advance(Event::Ran(None));
    assert_eq!(job.pending(), Request::Finished);
    assert_eq!(
        job.scan_result(),
        Some(Ok(ScanResult {
            project_name: "App".to_string(),
            workspace: None,
            xcodeproj: Some("ios/App.xcodeproj".to_string()),
            schemes: vec![],
            bundle_id_dev: None,
            bundle_id_dis: None,
            team_id: None,
        }))
    );
}

#[test]
fn failed_settings_runs_leave_the_identity_empty() {
    let job = scan_project("/work/App".to_string());
    let job = job.advance(Event::RootChecked(true));
    let job = job.advance(Event::Walked(vec![dir(
        1,
        "App.xcworkspace",
        Some("xcworkspace"),
    )]));
    let job = job.advance(ran(true, "Schemes:\n    Only\n"));
    let only = "cd '/work/App' && xcodebuild -showBuildSettings -workspace 'App.xcworkspace' -scheme 'Only'";
    assert_eq!(job.pending(), run(only));
    let job = job.advance(ran(false, DEV));
    assert_eq!(job.pending(), run(only));
    let job = job.advance(Event::Ran(None));
    assert_eq!(job.pending(), run(only));
    let job = job.advance(ran(false, DEV));
    assert_eq!(job.pending(), run(only));
    let job = job.advance(Event::Ran(None));
    assert_eq!(job.pending(), Request::Finished);
    assert_eq!(
        job.scan_result(),
        Some(Ok(ScanResult {
            project_name: "App".to_string(),
            workspace: Some("App.xcworkspace".to_string()),
            xcodeproj: None,
            schemes: vec!["Only".to_string()],
            bundle_id_dev: None,
            bundle_id_dis: None,
            team_id: None,
        }))
    );
}

#[test]
fn a_failed_list_run_ends_the_scan_without_schemes() {
    let job = scan_project("/work/App".to_string());
    let job = job.advance(Event::RootChecked(true));
    let job = job.advance(Event::Walked(vec![dir(
        1,
        "App.xcworkspace",
        Some("xcworkspace"),
    )]));
    let job = job.advance(ran(false, LISTING));
    assert_eq!(job.pending(), Request::Finished);
    assert_eq!(
        job.scan_result(),
        Some(Ok(ScanResult {
            project_name: "App".to_string(),
            workspace: Some("App.xcworkspace".to_string()),
            xcodeproj: None,
            schemes: vec![],
            bundle_id_dev: None,
            bundle_id_dis: None,
            team_id: None,
        }))
    );
}

#[test]
fn a_single_scheme_gives_the_same_identity_twice() {
    let job = scan_project("/work/App".to_string());
    let job = job.advance(Event::RootChecked(true));
    let job = job.advance(Event::Walked(vec![dir(
        1,
        "App.xcworkspace",
        Some("xcworkspace"),
    )]));
    let job = job.advance(ran(true, "Schemes:\n    Only\n"));
    let job = job.advance(ran(true, DEV));
    let job = job.advance(ran(true, DEV));
    let job = job.advance(ran(true, DEV));
    let job = job.advance(ran(true, DEV));
    assert_eq!(
        job.identity_result(),
        Some(Ok(IdentityResult {
            bundle_id_dev: Some("com.example.dev".to_string()),
            bundle_id_dis: Some("com.example.dev".to_string()),
            team_id: Some("DEVTEAM".to_string()),
        }))
    );
}

#[test]
fn an_event_out_of_turn_changes_nothing() {
    let job = scan_project("/work/App".to_string());
    let job = job.advance(Event::Walked(vec![dir(
        1,
        "App.xcworkspace",
        Some("xcworkspace"),
    )]));
    assert_eq!(job.pending(), Request::CheckRoot);
    let job = job.advance(ran(true, LISTING));
    assert_eq!(job.pending(), Request::CheckRoot);
    let job = job.advance(Event::RootChecked(true));
    let job = job.advance(Event::RootChecked(false));
    assert_eq!(job.pending(), Request::Walk);
    let job = job.advance(Event::Walked(vec![]));
    assert_eq!(job.pending(), Request::Finished);
    let job = job.advance(ran(true, LISTING));
    let job = job.advance(Event::RootChecked(false));
    assert_eq!(job.pending(), Request::Finished);
    assert!(matches!(job.scan_result(), Some(Ok(_))));
}

#[test]
fn the_name_is_the_last_component_of_the_path() {
    let done = |path: &str| {
        scan_project(path.to_string())
            .advance(Event::RootChecked(true))
            .advance(Event::Walked(vec![]))
            .scan_result()
    };
    let name = |path: &str| match done(path) {
        Some(Ok(result)) => result.project_name,
        other => panic!("{:?}", other),
    };
    assert_eq!(name("/work/My App"), "My App");
    assert_eq!(name("/work/MyApp/"), "MyApp");
    assert_eq!(name("relative"), "relative");
    assert_eq!(name("/"), "iOSProject");
    assert_eq!(name("/work/.."), "iOSProject");
    assert_eq!(name(""), "iOSProject");
}

#[test]
fn the_identity_is_resolved_for_given_containers() {
    let job = resolve_identity(
        "/work/App".to_string(),
        Some("App.xcworkspace".to_string()),
        Some("App.xcodeproj".to_string()),
        "Dev".to_string(),
        "Store".to_string(),
    );
    assert_eq!(job.pending(), Request::CheckRoot);
    let job = job.advance(Event::RootChecked(true));
    let dev = "cd '/work/App' && xcodebuild -showBuildSettings -workspace 'App.xcworkspace' -scheme 'Dev'";
    let dis = "cd '/work/App' && xcodebuild -showBuildSettings -workspace 'App.xcworkspace' -scheme 'Store'";
    assert_eq!(job.pending(), run(dev));
    let job = job.advance(ran(true, DEV));
    assert_eq!(job.pending(), run(dis));
    let job = job.advance(ran(true, DIS));
    assert_eq!(job.pending(), run(dev));
    let job = job.advance(ran(true, DEV));
    assert_eq!(job.pending(), run(dis));
    assert_eq!(job.identity_result(), None);
    let job = job.advance(ran(false, DIS));
    assert_eq!(job.pending(), Request::Finished);
    assert_eq!(
        job.identity_result(),
        Some(Ok(IdentityResult {
            bundle_id_dev: Some("com.example.dev".to_string()),
            bundle_id_dis: Some("com.example.app".to_string()),
            team_id: Some("DEVTEAM".to_string()),
        }))
    );
}

#[test]
fn a_container_left_out_is_looked_for() {
    let job = resolve_identity(
        "/work/App".to_string(),
        Some("  ".to_string()),
        None,
        "Dev".to_string(),
        "Store".to_string(),
    );
    let job = job.advance(Event::RootChecked(true));
    assert_eq!(job.pending(), Request::Walk);
    let job = job.advance(Event::Walked(vec![dir(
        1,
        "Found.xcodeproj",
        Some("xcodeproj"),
    )]));
    assert_eq!(
        job.pending(),
        run("cd '/work/App' && xcodebuild -showBuildSettings -project 'Found.xcodeproj' -scheme 'Dev'")
    );
}

#[test]
fn a_given_container_is_kept_over_a_found_one() {
    let job = resolve_identity(
        "/work/App".to_string(),
        None,
        Some("Given.xcodeproj".to_string()),
        "Dev".to_string(),
        "Store".to_string(),
    );
    let job = job.advance(Event::RootChecked(true));
    assert_eq!(job.pending(), Request::Walk);
    let job = job.advance(Event::Walked(vec![dir(
        1,
        "Found.xcodeproj",
        Some("xcodeproj"),
    )]));
    assert_eq!(
        job.pending(),
        run("cd '/work/App' && xcodebuild -showBuildSettings -project 'Given.xcodeproj' -scheme 'Dev'")
    );
}

#[test]
fn an_identity_without_containers_runs_nothing() {
    let job = resolve_identity(
        "/work/App".to_string(),
        None,
        None,
        "Dev".to_string(),
        "Store".to_string(),
    );
    let job = job.advance(Event::RootChecked(true));
    let job = job.advance(Event::Walked(vec![]));
    assert_eq!(job.pending(), Request::Finished);
    assert_eq!(
        job.identity_result(),
        Some(Ok(IdentityResult {
            bundle_id_dev: None,
            bundle_id_dis: None,
            team_id: None,
        }))
    );
}

#[test]
fn an_identity_of_a_missing_root_fails() {
    let job = resolve_identity(
        "/gone".to_string(),
        Some("App.xcworkspace".to_string()),
        Some("App.xcodeproj".to_string()),
        "Dev".to_string(),
        "Store".to_string(),
    );
    let job = job.advance(Event::RootChecked(false));
    assert_eq!(
        job.identity_result(),
        Some(Err("Project path not found: /gone".to_string()))
    );
}
