use perf_tester::app_selection::{select_apps, SelectedApp, SelectionError};

fn pairs(apps: &[SelectedApp]) -> Vec<(String, String)> {
    apps.iter().map(|a| (a.path.clone(), a.name.clone())).collect()
}

#[test]
fn all_three_slots_are_selected_in_order() {
    let r = select_apps(Some("a.exe".to_string()), Some("b.exe".to_string()), Some("c.exe".to_string()));
    let apps = r.ok().unwrap();
    assert_eq!(
        pairs(&apps),
        vec![
            ("a.exe".to_string(), "Dev".to_string()),
            ("b.exe".to_string(), "New Branch".to_string()),
            ("c.exe".to_string(), "MetaScalp".to_string()),
        ]
    );
}

#[test]
fn blank_slots_are_skipped_and_names_stay_with_their_slot() {
    let r = select_apps(Some("  \t".to_string()), Some("b.exe".to_string()), Some("c.exe".to_string()));
    let apps = r.ok().unwrap();
    assert_eq!(
        pairs(&apps),
        vec![("b.exe".to_string(), "New Branch".to_string()), ("c.exe".to_string(), "MetaScalp".to_string())]
    );
}

#[test]
fn fewer_than_two_paths_is_an_error() {
    let r = select_apps(Some("a.exe".to_string()), None, Some(" ".to_string()));
    assert_eq!(r.err(), Some(SelectionError::TooFewApps));
    assert_eq!(select_apps(None, None, None).err(), Some(SelectionError::TooFewApps));
    assert_eq!(
        SelectionError::TooFewApps.message(),
        "At least 2 app paths must be provided in .env (e.g. APP_1_PATH, APP_2_PATH, APP_3_PATH)"
    );
}
