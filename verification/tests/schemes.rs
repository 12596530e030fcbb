use fastlane_desktop::schemes::{
    extract_schemes, parse_schemes_from_xcodebuild, pick_dev_dis_schemes, select_schemes,
};
use fastlane_desktop::tool::ToolOutput;

fn names(list: &[&str]) -> Vec<String> {
    list.iter().map(|s| s.to_string()).collect()
}

fn picked(dev: &str, dis: &str) -> (Option<String>, Option<String>) {
    (Some(dev.to_string()), Some(dis.to_string()))
}

#[test]
fn schemes_follow_the_heading_in_order() {
    let text = "Information about project \"App\":\n    Targets:\n        App\n        AppTests\n\n    Build Configurations:\n        Debug\n        Release\n\n    If no build configuration is specified \"Release\" is used.\n\n    Schemes:\n        App\n        App Staging\n        App Release\n\n";
    assert_eq!(
        extract_schemes(text),
        names(&["App", "App Staging", "App Release"])
    );
}

#[test]
fn a_listing_without_heading_has_no_schemes() {
    assert_eq!(extract_schemes(""), names(&[]));
    assert_eq!(extract_schemes("    App\n    Other\n"), names(&[]));
    assert_eq!(extract_schemes("Schemes\n    App\n"), names(&[]));
}

#[test]
fn the_heading_is_found_in_any_case() {
    assert_eq!(extract_schemes("SCHEMES:\n  A\n"), names(&["A"]));
    assert_eq!(extract_schemes("  schemes:  \n\tB\n"), names(&["B"]));
}

#[test]
fn blank_lines_before_the_first_scheme_are_passed_over() {
    assert_eq!(
        extract_schemes("Schemes:\n\n   \n    A\n    B\n"),
        names(&["A", "B"])
    );
}

#[test]
fn a_blank_line_after_a_scheme_ends_the_list() {
    assert_eq!(
        extract_schemes("Schemes:\n    A\n\n    B\n"),
        names(&["A"])
    );
    assert_eq!(
        extract_schemes("Schemes:\n    A\n  \t \n    B\n"),
        names(&["A"])
    );
}

#[test]
fn a_line_that_is_not_indented_ends_the_list() {
    assert_eq!(
        extract_schemes("Schemes:\n    A\nTargets:\n    B\n"),
        names(&["A"])
    );
    assert_eq!(extract_schemes("Schemes:\nA\n    B\n"), names(&[]));
}

#[test]
fn duplicates_are_kept() {
    assert_eq!(
        extract_schemes("Schemes:\n  A\n  B\n  A\n"),
        names(&["A", "B", "A"])
    );
}

#[test]
fn a_repeated_heading_is_passed_over() {
    assert_eq!(
        extract_schemes("Schemes:\n  A\nSchemes:\n  B\n"),
        names(&["A", "B"])
    );
}

#[test]
fn names_are_trimmed_and_line_endings_do_not_matter() {
    assert_eq!(
        extract_schemes("Schemes:\r\n    My App  \r\n\tOther\r\n\r\n    Late\r\n"),
        names(&["My App", "Other"])
    );
    assert_eq!(extract_schemes("Schemes:\n    Last"), names(&["Last"]));
}

#[test]
fn only_space_and_tab_indent() {
    assert_eq!(
        extract_schemes("Schemes:\n  A\n\u{A0}B\n  C\n"),
        names(&["A"])
    );
}

#[test]
fn a_run_is_read_from_both_streams() {
    let failed = Some(ToolOutput {
        success: false,
        exit_code: Some(65),
        stdout: "Schemes:\n    A".to_string(),
        stderr: "    B\n\nnote".to_string(),
    });
    assert_eq!(parse_schemes_from_xcodebuild(&failed), names(&[]));
    let run = Some(ToolOutput {
        success: true,
        exit_code: Some(0),
        stdout: "Schemes:\n    A".to_string(),
        stderr: "    B\n\nnote".to_string(),
    });
    assert_eq!(parse_schemes_from_xcodebuild(&run), names(&["A", "B"]));
    assert_eq!(parse_schemes_from_xcodebuild(&None), names(&[]));
    let quiet = Some(ToolOutput {
        success: true,
        exit_code: Some(0),
        stdout: String::new(),
        stderr: "Schemes:\n    C\n".to_string(),
    });
    assert_eq!(parse_schemes_from_xcodebuild(&quiet), names(&["C"]));
}

#[test]
fn a_failed_run_lists_no_schemes() {
    let listing = "Information about project \"App\":\n    Schemes:\n        App\n        App-Dev\n\n";
    let run = |success: bool, exit_code: Option<i32>| {
        Some(ToolOutput {
            success,
            exit_code,
            stdout: listing.to_string(),
            stderr: String::new(),
        })
    };
    assert_eq!(
        parse_schemes_from_xcodebuild(&run(true, Some(0))),
        names(&["App", "App-Dev"])
    );
    assert_eq!(parse_schemes_from_xcodebuild(&run(false, Some(1))), names(&[]));
    assert_eq!(parse_schemes_from_xcodebuild(&run(false, Some(65))), names(&[]));
    assert_eq!(parse_schemes_from_xcodebuild(&run(false, None)), names(&[]));
}

#[test]
fn selection_of_no_schemes_is_empty() {
    assert_eq!(pick_dev_dis_schemes(&[]), (None, None));
    assert_eq!(select_schemes(&[], &[]), (None, None));
}

#[test]
fn selection_of_one_scheme_takes_it_twice() {
    assert_eq!(pick_dev_dis_schemes(&names(&["Foo"])), picked("Foo", "Foo"));
}

#[test]
fn selection_by_keywords() {
    assert_eq!(
        pick_dev_dis_schemes(&names(&["Debug", "Release"])),
        picked("Debug", "Release")
    );
}

#[test]
fn selection_without_keywords_falls_back() {
    assert_eq!(
        pick_dev_dis_schemes(&names(&["Alpha", "Beta"])),
        picked("Alpha", "Beta")
    );
    assert_eq!(
        pick_dev_dis_schemes(&names(&["Same", "Same"])),
        picked("Same", "Same")
    );
    assert_eq!(
        pick_dev_dis_schemes(&names(&["Same", "Same", "Other"])),
        picked("Same", "Other")
    );
}

#[test]
fn selection_looks_at_lower_case_forms() {
    assert_eq!(
        pick_dev_dis_schemes(&names(&["Alpha", "APPSTORE", "MyApp-STAGING"])),
        picked("MyApp-STAGING", "APPSTORE")
    );
    assert_eq!(
        pick_dev_dis_schemes(&names(&["Alpha", "Beta DEV"])),
        picked("Beta DEV", "Alpha")
    );
}

#[test]
fn selection_takes_the_first_match() {
    assert_eq!(
        pick_dev_dis_schemes(&names(&["App", "App-Dev", "App-Debug", "App-Prod", "App-Release"])),
        picked("App-Dev", "App-Prod")
    );
    assert_eq!(
        pick_dev_dis_schemes(&names(&["DevProd"])),
        picked("DevProd", "DevProd")
    );
    assert_eq!(
        pick_dev_dis_schemes(&names(&["Dev", "Other"])),
        picked("Dev", "Other")
    );
    assert_eq!(
        pick_dev_dis_schemes(&names(&["Release", "Other"])),
        picked("Release", "Release")
    );
}

#[test]
fn selection_by_given_lower_case_forms() {
    let s = names(&["Debug", "Release"]);
    assert_eq!(
        select_schemes(&s, &names(&["debug", "release"])),
        picked("Debug", "Release")
    );
    assert_eq!(
        select_schemes(&s, &names(&["x", "staging"])),
        picked("Release", "Debug")
    );
    assert_eq!(select_schemes(&s, &names(&[])), picked("Debug", "Release"));
    assert_eq!(
        select_schemes(&s, &names(&["a", "b", "prod"])),
        picked("Debug", "Release")
    );
}
