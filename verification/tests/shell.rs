use fastlane_desktop::lane::{lane_command, run_lane, LaneRunResult};
use fastlane_desktop::shell::{escape_single_quote, list_command, settings_command};
use fastlane_desktop::tool::ToolOutput;

#[test]
fn single_quotes_are_escaped() {
    assert_eq!(escape_single_quote(""), "");
    assert_eq!(escape_single_quote("plain text"), "plain text");
    assert_eq!(escape_single_quote("it's"), "it'\\''s");
    assert_eq!(escape_single_quote("''"), "'\\'''\\''");
    assert_eq!(escape_single_quote("a\"b\\c"), "a\"b\\c");
    for s in ["", "x", "'", "a'b'c", "Bob's App.xcworkspace"] {
        assert_eq!(escape_single_quote(s), s.replace('\'', "'\\''"));
    }
}

#[test]
fn the_list_command_prefers_the_workspace() {
    assert_eq!(
        list_command("/work/App", Some("App.xcworkspace"), Some("App.xcodeproj")),
        Some("cd '/work/App' && xcodebuild -list -workspace 'App.xcworkspace'".to_string())
    );
    assert_eq!(
        list_command("/work/App", None, Some("App.xcodeproj")),
        Some("cd '/work/App' && xcodebuild -list -project 'App.xcodeproj'".to_string())
    );
    assert_eq!(list_command("/work/App", None, None), None);
}

#[test]
fn the_list_command_escapes_its_paths() {
    assert_eq!(
        list_command("/work/Bob's", Some("ios/Bob's App.xcworkspace"), None),
        Some(
            "cd '/work/Bob'\\''s' && xcodebuild -list -workspace 'ios/Bob'\\''s App.xcworkspace'"
                .to_string()
        )
    );
}

#[test]
fn the_settings_command_names_the_scheme() {
    assert_eq!(
        settings_command("/work/App", Some("App.xcworkspace"), Some("App.xcodeproj"), "App Dev"),
        Some(
            "cd '/work/App' && xcodebuild -showBuildSettings -workspace 'App.xcworkspace' -scheme 'App Dev'"
                .to_string()
        )
    );
    assert_eq!(
        settings_command("/work/App", None, Some("App.xcodeproj"), "It's"),
        Some(
            "cd '/work/App' && xcodebuild -showBuildSettings -project 'App.xcodeproj' -scheme 'It'\\''s'"
                .to_string()
        )
    );
    assert_eq!(settings_command("/work/App", None, None, "App"), None);
}

#[test]
fn the_lane_command_runs_in_the_project() {
    assert_eq!(
        lane_command("/work/App", "beta"),
        "cd '/work/App' && bundle exec fastlane ios beta"
    );
    assert_eq!(
        lane_command("/work/Bob's", "release"),
        "cd '/work/Bob'\\''s' && bundle exec fastlane ios release"
    );
}

#[test]
fn a_lane_that_ran_is_reported() {
    let run = Ok(ToolOutput {
        success: true,
        exit_code: Some(0),
        stdout: "done".to_string(),
        stderr: "warn".to_string(),
    });
    assert_eq!(
        run_lane("beta".to_string(), &run),
        Ok(LaneRunResult {
            status: "success".to_string(),
            exit_code: 0,
            output: "done\\nwarn".to_string(),
            lane: "beta".to_string(),
        })
    );
    let failed = Ok(ToolOutput {
        success: false,
        exit_code: Some(2),
        stdout: String::new(),
        stderr: "boom".to_string(),
    });
    assert_eq!(
        run_lane("beta".to_string(), &failed),
        Ok(LaneRunResult {
            status: "failed".to_string(),
            exit_code: 2,
            output: "\\nboom".to_string(),
            lane: "beta".to_string(),
        })
    );
    let killed = Ok(ToolOutput {
        success: false,
        exit_code: None,
        stdout: "a".to_string(),
        stderr: "b".to_string(),
    });
    assert_eq!(
        run_lane("x".to_string(), &killed),
        Ok(LaneRunResult {
            status: "failed".to_string(),
            exit_code: -1,
            output: "a\\nb".to_string(),
            lane: "x".to_string(),
        })
    );
}

#[test]
fn a_lane_that_did_not_start_is_an_error() {
    assert_eq!(
        run_lane("beta".to_string(), &Err("No such file".to_string())),
        Err("Failed to run lane: No such file".to_string())
    );
}
