use ksud_susfs::config::{default_config, SusfsConfig};
use ksud_susfs::restore::{restore_if_needed, RestoreAction, RestoreEvent};

/// Runs a restore in the given surroundings; returns the kinds of actions
/// asked for, as short names, and the configuration saved, if any.
fn run(marker: bool, loaded: Option<SusfsConfig>, file: bool) -> (Vec<&'static str>, Option<SusfsConfig>, usize) {
    let mut m = restore_if_needed();
    let mut ev = RestoreEvent::Begin;
    let mut loaded = Some(loaded);
    let mut names = Vec::new();
    let mut saved = None;
    let mut calls = 0;
    loop {
        let a = m.step(ev);
        ev = match a {
            RestoreAction::CheckMarker => {
                names.push("check-marker");
                RestoreEvent::MarkerChecked { exists: marker }
            }
            RestoreAction::LoadConfig => {
                names.push("load");
                RestoreEvent::Loaded { config: loaded.take().unwrap() }
            }
            RestoreAction::Apply { plan } => {
                names.push("apply");
                calls = plan.len();
                RestoreEvent::Applied
            }
            RestoreAction::CheckConfigFile => {
                names.push("check-file");
                RestoreEvent::ConfigFileChecked { exists: file }
            }
            RestoreAction::Save => {
                names.push("save");
                saved = Some(m.config().unwrap().clone());
                RestoreEvent::Saved
            }
            RestoreAction::WriteMarker => {
                names.push("write-marker");
                RestoreEvent::MarkerWritten
            }
            RestoreAction::Done => {
                names.push("done");
                return (names, saved, calls);
            }
        };
    }
}

#[test]
fn marker_present_does_nothing() {
    let (names, saved, _) = run(true, Some(default_config()), false);
    assert_eq!(names, vec!["check-marker", "done"]);
    assert!(saved.is_none());
}

#[test]
fn first_boot_applies_and_saves_defaults() {
    let (names, saved, calls) = run(false, Some(default_config()), false);
    assert_eq!(names, vec!["check-marker", "load", "apply", "check-file", "save", "write-marker", "done"]);
    assert_eq!(saved, Some(default_config()));
    assert_eq!(calls, 34);
}

#[test]
fn existing_file_is_not_rewritten() {
    let (names, saved, _) = run(false, Some(default_config()), true);
    assert_eq!(names, vec!["check-marker", "load", "apply", "check-file", "write-marker", "done"]);
    assert!(saved.is_none());
}

#[test]
fn load_failure_still_writes_marker() {
    let (names, _, _) = run(false, None, false);
    assert_eq!(names, vec!["check-marker", "load", "write-marker", "done"]);
}

#[test]
fn config_without_rules_is_not_applied() {
    let (names, saved, _) = run(false, Some(SusfsConfig::default()), false);
    assert_eq!(names, vec!["check-marker", "load", "write-marker", "done"]);
    assert!(saved.is_none());
}

#[test]
fn saved_mounts_alone_are_restored() {
    let mut c = SusfsConfig::default();
    c.sus_mounts.push("/vendor".to_string());
    let (names, _, calls) = run(false, Some(c), true);
    assert_eq!(names, vec!["check-marker", "load", "apply", "check-file", "write-marker", "done"]);
    assert_eq!(calls, 1);
}

#[test]
fn saved_loops_and_uname_version_are_restored() {
    let mut c = SusfsConfig::default();
    c.sus_path_loops.push("/sdcard/x".to_string());
    c.uname_version = "#2".to_string();
    let (names, _, calls) = run(false, Some(c), true);
    assert_eq!(names, vec!["check-marker", "load", "apply", "check-file", "write-marker", "done"]);
    assert_eq!(calls, 2);
}
