use cibergit::open_with::{
    default_roots, detect, failure_text, icon_for_preference, label_for_preference,
    launch_outcome, open_in, preference_key, ExternalApp, Launch,
};

#[test]
fn only_present_bundles_are_offered_and_the_default_always_is() {
    // Only directories are listed: a file named like a bundle is not an application.
    let root: Vec<String> = vec!["Visual Studio Code.app".into(), "Zed.app".into()];

    let apps = detect(&vec![root]);
    let labels: Vec<&str> = apps.iter().map(|app| app.label).collect();
    assert_eq!(labels, ["VS Code", "Zed", "Default app"]);
    assert_eq!(apps[0].bundle_id, Some("com.microsoft.VSCode"));
    assert_eq!(
        apps.last().unwrap().bundle_id,
        None,
        "the default handler carries no bundle identifier"
    );
}

#[test]
fn detection_reports_nothing_but_the_default_when_no_bundle_exists() {
    let apps = detect(&vec![vec![]]);
    assert_eq!(apps.len(), 1);
    assert_eq!(apps[0].label, "Default app");
}

fn code() -> ExternalApp {
    ExternalApp {
        label: "VS Code",
        bundle_id: Some("com.microsoft.VSCode"),
        icon: "vscode",
    }
}

#[test]
fn relative_and_missing_paths_are_refused_before_launching_anything() {
    assert!(open_in(&code(), "relative/path", true).is_err());
    let error = open_in(&code(), "/tmp/gone", false).unwrap_err();
    assert!(error.contains("no longer a directory"), "{error}");
}

#[test]
fn the_path_is_the_last_argument() {
    assert_eq!(
        open_in(&code(), "/checkout", true).unwrap(),
        ["-b", "com.microsoft.VSCode", "--", "/checkout"]
    );
    let system = ExternalApp {
        label: "Default app",
        bundle_id: None,
        icon: "folder",
    };
    assert_eq!(open_in(&system, "/checkout", true).unwrap(), ["--", "/checkout"]);
}

#[test]
fn failures_are_reported_as_written() {
    assert!(launch_outcome(&code(), &Launch::Ran(true, b"noise".to_vec())).is_ok());
    assert_eq!(
        launch_outcome(&code(), &Launch::Ran(false, b" \n".to_vec())),
        Err("VS Code could not open this checkout".into())
    );
    assert_eq!(
        launch_outcome(&code(), &Launch::Ran(false, b" no such app\n".to_vec())),
        Err("no such app".into())
    );
    assert_eq!(
        launch_outcome(&code(), &Launch::Ran(false, vec![0xff, b'a'])),
        Err("\u{fffd}a".into())
    );
    assert_eq!(
        launch_outcome(&code(), &Launch::NotRun("missing".into())),
        Err("Cannot run open: missing".into())
    );
    assert_eq!(failure_text(&code(), " x "), "x");
}

#[test]
fn preferences_name_known_applications_only() {
    assert_eq!(preference_key(&code()), "com.microsoft.VSCode");
    assert_eq!(icon_for_preference("com.microsoft.VSCode"), Some("vscode"));
    assert_eq!(label_for_preference("dev.zed.Zed"), Some("Zed"));
    assert_eq!(icon_for_preference(""), Some("folder"));
    assert_eq!(label_for_preference(""), Some("Default app"));
    assert_eq!(icon_for_preference("com.example.future"), None);
    assert_eq!(label_for_preference("com.example.future"), None);
}

#[test]
fn the_home_directory_has_its_own_applications() {
    assert_eq!(
        default_roots(&Some("/Users/ada".into())),
        [
            "/Applications",
            "/Users/ada/Applications",
            "/System/Applications",
            "/System/Applications/Utilities",
            "/System/Library/CoreServices",
        ]
    );
    assert_eq!(default_roots(&Some("/".into()))[1], "/Applications");
    assert_eq!(default_roots(&None).len(), 4);
}
