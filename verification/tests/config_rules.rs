use ksud_susfs::config::{
    append_sus_map, append_sus_mount, append_sus_path, apply, default_config, from_susfs_state,
    has_rules, set_toggle, set_uname, ConfigToggle, SusfsAction, SusfsConfig, SusfsState,
};

fn s(x: &str) -> String {
    x.to_string()
}

#[test]
fn default_config_values() {
    let c = default_config();
    assert_eq!(c.uname_release, "4.19.304");
    assert_eq!(c.uname_version, "#1 SMP PREEMPT Fri Feb 9 00:58:10 UTC 2024");
    assert_eq!(c.sus_paths, vec!["/system/bin/su", "/odm/bin/su", "/data/adb/ksu/su", "/system/addon.d", "/system/build.prop"]);
    assert!(c.sus_path_loops.is_empty());
    assert_eq!(c.sus_maps, vec!["/data/adb/"]);
    assert_eq!(c.sus_mounts, vec!["/vendor", "/odm"]);
    assert!(!c.enable_log);
    assert!(c.enable_avc_log_spoofing);
    assert!(c.hide_sus_mnts);
    assert_eq!(c.set_props.len(), 23);
    assert!(c.set_props.contains(&(s("ro.build.type"), s("user"))));
    assert!(c.set_props.contains(&(s("ro.boot.verifiedbootstate"), s("green"))));
    assert!(c.set_props.contains(&(s("ro.modversion"), s(""))));
    assert!(c.delete_props.is_empty());
}

#[test]
fn default_config_names_each_property_once() {
    let c = default_config();
    let mut keys: Vec<&String> = c.set_props.iter().map(|(k, _)| k).collect();
    keys.sort();
    keys.dedup();
    assert_eq!(keys.len(), c.set_props.len());
}

#[test]
fn default_config_is_restorable() {
    assert!(has_rules(&default_config()));
}

#[test]
fn empty_config_has_no_rules() {
    let e = SusfsConfig::default();
    assert!(!has_rules(&e));
    assert!(apply(&e).is_empty());
}

#[test]
fn has_rules_counts_every_field() {
    let mut c = SusfsConfig::default();
    c.sus_path_loops.push(s("/a"));
    assert!(has_rules(&c));
    let mut c = SusfsConfig::default();
    c.sus_mounts.push(s("/b"));
    assert!(has_rules(&c));
    assert_eq!(apply(&c), vec![SusfsAction::AddSusMount { path: s("/b") }]);
    let mut c = SusfsConfig::default();
    c.uname_version = s("v");
    assert!(has_rules(&c));
    assert_eq!(apply(&c), vec![SusfsAction::SetUname { release: s("default"), version: s("v") }]);
    let mut c = SusfsConfig::default();
    c.delete_props.push(s("ro.x"));
    assert!(has_rules(&c));
    let mut c = SusfsConfig::default();
    c.set_props.push((s("ro.x"), s("1")));
    assert!(has_rules(&c));
    let mut c = SusfsConfig::default();
    c.hide_sus_mnts = true;
    assert!(has_rules(&c));
}

#[test]
fn append_sus_path_is_idempotent() {
    let mut c = SusfsConfig::default();
    assert!(append_sus_path(&mut c, "/a"));
    assert!(append_sus_path(&mut c, "/b"));
    let once = c.sus_paths.clone();
    assert!(!append_sus_path(&mut c, "/a"));
    assert_eq!(c.sus_paths, once);
    assert_eq!(c.sus_paths, vec!["/a", "/b"]);
}

#[test]
fn append_touches_only_its_list() {
    let mut c = default_config();
    assert!(append_sus_map(&mut c, "/data/local/tmp"));
    assert!(!append_sus_map(&mut c, "/data/adb/"));
    assert_eq!(c.sus_maps, vec!["/data/adb/", "/data/local/tmp"]);
    assert!(append_sus_mount(&mut c, "/product"));
    assert_eq!(c.sus_mounts, vec!["/vendor", "/odm", "/product"]);
    let d = default_config();
    assert_eq!(c.sus_paths, d.sus_paths);
    assert_eq!(c.set_props, d.set_props);
}

#[test]
fn set_uname_and_toggles() {
    let mut c = SusfsConfig::default();
    set_uname(&mut c, "5.10.1", "#2");
    assert_eq!((c.uname_release.as_str(), c.uname_version.as_str()), ("5.10.1", "#2"));
    set_toggle(&mut c, ConfigToggle::EnableLog, true);
    set_toggle(&mut c, ConfigToggle::HideSusMnts, true);
    assert!(c.enable_log && c.hide_sus_mnts && !c.enable_avc_log_spoofing);
    set_toggle(&mut c, ConfigToggle::EnableAvcLogSpoofing, true);
    set_toggle(&mut c, ConfigToggle::EnableLog, false);
    assert!(!c.enable_log && c.enable_avc_log_spoofing);
}

#[test]
fn apply_plans_in_order() {
    let mut c = SusfsConfig::default();
    c.uname_release = s("r");
    c.sus_paths = vec![s("/p1"), s("/p2")];
    c.sus_path_loops = vec![s("/l")];
    c.sus_maps = vec![s("/m")];
    c.sus_mounts = vec![s("/n")];
    c.enable_log = true;
    c.hide_sus_mnts = true;
    c.set_props = vec![(s("a"), s("1"))];
    c.delete_props = vec![s("b")];
    let plan = apply(&c);
    assert_eq!(plan, vec![
        SusfsAction::SetUname { release: s("r"), version: s("default") },
        SusfsAction::AddSusPath { path: s("/p1") },
        SusfsAction::AddSusPath { path: s("/p2") },
        SusfsAction::AddSusPathLoop { path: s("/l") },
        SusfsAction::AddSusMap { path: s("/m") },
        SusfsAction::AddSusMount { path: s("/n") },
        SusfsAction::EnableLog,
        SusfsAction::HideSusMnts,
        SusfsAction::SetProp { key: s("a"), value: s("1") },
        SusfsAction::DeleteProp { key: s("b") },
    ]);
}

#[test]
fn apply_substitutes_default_for_blank_uname_fields() {
    let mut c = SusfsConfig::default();
    c.uname_version = s("#9");
    assert_eq!(apply(&c), vec![SusfsAction::SetUname { release: s("default"), version: s("#9") }]);
}

#[test]
fn apply_rewrites_before_deletions_on_defaults() {
    let mut c = default_config();
    c.delete_props.push(s("ro.x"));
    let plan = apply(&c);
    let last_set = plan.iter().rposition(|a| matches!(a, SusfsAction::SetProp { .. })).unwrap();
    let first_del = plan.iter().position(|a| matches!(a, SusfsAction::DeleteProp { .. })).unwrap();
    assert!(last_set < first_del);
    assert_eq!(plan[0], SusfsAction::SetUname {
        release: s("4.19.304"),
        version: s("#1 SMP PREEMPT Fri Feb 9 00:58:10 UTC 2024"),
    });
    assert_eq!(plan.len(), 1 + 5 + 1 + 2 + 2 + 23 + 1);
}

fn state(paths: &[&str], mounts: &[&str], hide: bool) -> SusfsState {
    SusfsState {
        uname_release: s("5.10.1"),
        uname_version: String::new(),
        sus_paths: paths.iter().map(|p| s(p)).collect(),
        sus_path_loops: Vec::new(),
        sus_maps: vec![s("/data/adb/")],
        sus_mounts: mounts.iter().map(|p| s(p)).collect(),
        enable_log: false,
        enable_avc_log_spoofing: true,
        hide_sus_mnts: hide,
    }
}

#[test]
fn from_susfs_state_keeps_every_reported_rule() {
    let c = from_susfs_state(state(&["/a", "/b"], &["/vendor"], true));
    assert_eq!(c.uname_release, "5.10.1");
    assert_eq!(c.uname_version, "");
    assert_eq!(c.sus_paths, vec!["/a", "/b"]);
    assert_eq!(c.sus_maps, vec!["/data/adb/"]);
    assert_eq!(c.sus_mounts, vec!["/vendor"]);
    assert!(!c.enable_log && c.enable_avc_log_spoofing && c.hide_sus_mnts);
    assert!(c.set_props.is_empty() && c.delete_props.is_empty());
    assert_eq!(apply(&c).len(), 7);
}

#[test]
fn from_susfs_state_with_nothing_reported_is_empty() {
    let empty = SusfsState {
        uname_release: String::new(),
        uname_version: String::new(),
        sus_paths: Vec::new(),
        sus_path_loops: Vec::new(),
        sus_maps: Vec::new(),
        sus_mounts: Vec::new(),
        enable_log: false,
        enable_avc_log_spoofing: false,
        hide_sus_mnts: false,
    };
    assert_eq!(from_susfs_state(empty), SusfsConfig::default());
}
