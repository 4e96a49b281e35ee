//! The persisted SUSFS configuration and the pure operations on it: the
//! built-in defaults, the read-modify-write updates, and the plan of kernel
//! calls that restores a configuration.

use vstd::prelude::*;
use vstd::string::StringExecFns;

verus! {

/// The rules the running SUSFS module reports holding: its spoofed uname,
/// its path, map and mount lists, and its switches.
#[derive(Clone, Debug, PartialEq, Eq)]
pub struct SusfsState {
    pub uname_release: String,
    pub uname_version: String,
    pub sus_paths: Vec<String>,
    pub sus_path_loops: Vec<String>,
    pub sus_maps: Vec<String>,
    pub sus_mounts: Vec<String>,
    pub enable_log: bool,
    pub enable_avc_log_spoofing: bool,
    pub hide_sus_mnts: bool,
}

/// The persisted SUSFS rules. `set_props` holds the properties to rewrite as
/// (name, value) pairs; a well-formed configuration names each property once.
#[derive(Clone, Debug, PartialEq, Eq)]
pub struct SusfsConfig {
    pub uname_release: String,
    pub uname_version: String,
    pub sus_paths: Vec<String>,
    pub sus_path_loops: Vec<String>,
    pub sus_maps: Vec<String>,
    pub sus_mounts: Vec<String>,
    pub enable_log: bool,
    pub enable_avc_log_spoofing: bool,
    pub hide_sus_mnts: bool,
    pub set_props: Vec<(String, String)>,
    pub delete_props: Vec<String>,
}

/// The abstract value of a configuration: every string as its characters.
pub struct ConfigView {
    pub uname_release: Seq<char>,
    pub uname_version: Seq<char>,
    pub sus_paths: Seq<Seq<char>>,
    pub sus_path_loops: Seq<Seq<char>>,
    pub sus_maps: Seq<Seq<char>>,
    pub sus_mounts: Seq<Seq<char>>,
    pub enable_log: bool,
    pub enable_avc_log_spoofing: bool,
    pub hide_sus_mnts: bool,
    pub set_props: Seq<(Seq<char>, Seq<char>)>,
    pub delete_props: Seq<Seq<char>>,
}

impl View for SusfsConfig {
    type V = ConfigView;

    open spec fn view(&self) -> ConfigView {
        ConfigView {
            uname_release: self.uname_release@,
            uname_version: self.uname_version@,
            sus_paths: self.sus_paths.deep_view(),
            sus_path_loops: self.sus_path_loops.deep_view(),
            sus_maps: self.sus_maps.deep_view(),
            sus_mounts: self.sus_mounts.deep_view(),
            enable_log: self.enable_log,
            enable_avc_log_spoofing: self.enable_avc_log_spoofing,
            hide_sus_mnts: self.hide_sus_mnts,
            set_props: self.set_props.deep_view(),
            delete_props: self.delete_props.deep_view(),
        }
    }
}

/// No property is named twice among the rewrites.
pub open spec fn props_unique(props: Seq<(Seq<char>, Seq<char>)>) -> bool {
    forall|i: int, j: int|
        0 <= i < props.len() && 0 <= j < props.len() && i != j
            ==> #[trigger] props[i].0 != #[trigger] props[j].0
}

impl ConfigView {
    /// The configuration's invariant.
    pub open spec fn wf(self) -> bool {
        props_unique(self.set_props)
    }

    /// The configuration with nothing in it.
    pub open spec fn empty() -> ConfigView {
        ConfigView {
            uname_release: Seq::empty(),
            uname_version: Seq::empty(),
            sus_paths: Seq::empty(),
            sus_path_loops: Seq::empty(),
            sus_maps: Seq::empty(),
            sus_mounts: Seq::empty(),
            enable_log: false,
            enable_avc_log_spoofing: false,
            hide_sus_mnts: false,
            set_props: Seq::empty(),
            delete_props: Seq::empty(),
        }
    }

    /// Whether the configuration holds any rule at all: a path, a map, a
    /// mount, a uname field, a switch that is on, or a property change.
    pub open spec fn has_rules(self) -> bool {
        ||| self.sus_paths.len() != 0
        ||| self.sus_path_loops.len() != 0
        ||| self.sus_maps.len() != 0
        ||| self.sus_mounts.len() != 0
        ||| self.uname_release.len() != 0
        ||| self.uname_version.len() != 0
        ||| self.enable_log
        ||| self.enable_avc_log_spoofing
        ||| self.hide_sus_mnts
        ||| self.set_props.len() != 0
        ||| self.delete_props.len() != 0
    }
}

impl Default for SusfsConfig {
    /// The empty configuration.
    fn default() -> (r: SusfsConfig)
        ensures
            r@ == ConfigView::empty(),
            r@.wf(),
    {
        let r = SusfsConfig {
            uname_release: String::new(),
            uname_version: String::new(),
            sus_paths: Vec::new(),
            sus_path_loops: Vec::new(),
            sus_maps: Vec::new(),
            sus_mounts: Vec::new(),
            enable_log: false,
            enable_avc_log_spoofing: false,
            hide_sus_mnts: false,
            set_props: Vec::new(),
            delete_props: Vec::new(),
        };
        assert(r@.sus_paths =~= Seq::empty());
        assert(r@.sus_path_loops =~= Seq::empty());
        assert(r@.sus_maps =~= Seq::empty());
        assert(r@.sus_mounts =~= Seq::empty());
        assert(r@.set_props =~= Seq::empty());
        assert(r@.delete_props =~= Seq::empty());
        r
    }
}

/// The configuration that holds exactly the rules the running SUSFS module
/// reported in `state` (so that saving it persists the live rules). The
/// module holds no property rules, so none are recorded.
pub fn from_susfs_state(state: SusfsState) -> (r: SusfsConfig)
    ensures
        r@ == (ConfigView {
            uname_release: state.uname_release@,
            uname_version: state.uname_version@,
            sus_paths: state.sus_paths.deep_view(),
            sus_path_loops: state.sus_path_loops.deep_view(),
            sus_maps: state.sus_maps.deep_view(),
            sus_mounts: state.sus_mounts.deep_view(),
            enable_log: state.enable_log,
            enable_avc_log_spoofing: state.enable_avc_log_spoofing,
            hide_sus_mnts: state.hide_sus_mnts,
            set_props: Seq::empty(),
            delete_props: Seq::empty(),
        }),
        r@.wf(),
{
    let r = SusfsConfig {
        uname_release: state.uname_release,
        uname_version: state.uname_version,
        sus_paths: state.sus_paths,
        sus_path_loops: state.sus_path_loops,
        sus_maps: state.sus_maps,
        sus_mounts: state.sus_mounts,
        enable_log: state.enable_log,
        enable_avc_log_spoofing: state.enable_avc_log_spoofing,
        hide_sus_mnts: state.hide_sus_mnts,
        set_props: Vec::new(),
        delete_props: Vec::new(),
    };
    assert(r@.set_props =~= Seq::empty());
    assert(r@.delete_props =~= Seq::empty());
    r
}

/// Whether `config` holds any rule, that is, whether restoring it makes
/// any call at all.
pub fn has_rules(config: &SusfsConfig) -> (r: bool)
    ensures
        r == config@.has_rules(),
        r == (apply_plan(config@).len() > 0),
{
    proof {
        lemma_rules_iff_plan(config@);
    }
    !config.sus_paths.is_empty()
        || !config.sus_path_loops.is_empty()
        || !config.sus_maps.is_empty()
        || !config.sus_mounts.is_empty()
        || !config.uname_release.as_str().is_empty()
        || !config.uname_version.as_str().is_empty()
        || config.enable_log
        || config.enable_avc_log_spoofing
        || config.hide_sus_mnts
        || !config.set_props.is_empty()
        || !config.delete_props.is_empty()
}

/// The property rewrites of the built-in configuration: they make the build
/// look like a stock user build and clear the LineageOS fingerprint
/// properties to empty strings (clearing, unlike deleting, leaves no hole in
/// the property area).
pub open spec fn default_props() -> Seq<(Seq<char>, Seq<char>)> {
    seq![
            ("ro.build.type"@, "user"@),
            ("ro.build.flavor"@, "OnePlus8T-user"@),
            ("ro.build.display.id"@, "RKQ1.211119.001"@),
            ("ro.debuggable"@, "0"@),
            ("ro.build.user"@, "jenkins"@),
            ("ro.build.host"@, "rd-build-193"@),
            ("ro.product.build.type"@, "user"@),
            ("ro.system.build.type"@, "user"@),
            ("ro.system_ext.build.type"@, "user"@),
            ("ro.vendor.build.type"@, "user"@),
            ("ro.vendor_dlkm.build.type"@, "user"@),
            ("ro.odm.build.type"@, "user"@),
            ("ro.product.build.tags"@, "release-keys"@),
            ("ro.boot.verifiedbootstate"@, "green"@),
            ("ro.lineage.version"@, ""@),
            ("ro.lineage.build.version"@, ""@),
            ("ro.lineage.build.version.plat.rev"@, ""@),
            ("ro.lineage.build.version.plat.sdk"@, ""@),
            ("ro.lineage.device"@, ""@),
            ("ro.lineage.display.version"@, ""@),
            ("ro.lineage.releasetype"@, ""@),
            ("ro.lineagelegal.url"@, ""@),
            ("ro.modversion"@, ""@),
    ]
}

/// The built-in configuration, in effect whenever no configuration file exists.
pub open spec fn default_view() -> ConfigView {
    ConfigView {
        uname_release: "4.19.304"@,
        uname_version: "#1 SMP PREEMPT Fri Feb 9 00:58:10 UTC 2024"@,
        sus_paths: seq!["/system/bin/su"@, "/odm/bin/su"@, "/data/adb/ksu/su"@, "/system/addon.d"@, "/system/build.prop"@],
        sus_path_loops: Seq::empty(),
        sus_maps: seq!["/data/adb/"@],
        sus_mounts: seq!["/vendor"@, "/odm"@],
        enable_log: false,
        enable_avc_log_spoofing: true,
        hide_sus_mnts: true,
        set_props: default_props(),
        delete_props: Seq::empty(),
    }
}

/// The built-in configuration (used when the configuration file is absent,
/// for instance after /data was formatted).
pub fn default_config() -> (r: SusfsConfig)
    ensures
        r@ == default_view(),
        r@.wf(),
{
    proof {
        lemma_default_wf();
    }
    let mut paths: Vec<String> = Vec::new();
    paths.push(String::from_str("/system/bin/su"));
    paths.push(String::from_str("/odm/bin/su"));
    paths.push(String::from_str("/data/adb/ksu/su"));
    paths.push(String::from_str("/system/addon.d"));
    paths.push(String::from_str("/system/build.prop"));
    let mut maps: Vec<String> = Vec::new();
    maps.push(String::from_str("/data/adb/"));
    let mut mounts: Vec<String> = Vec::new();
    mounts.push(String::from_str("/vendor"));
    mounts.push(String::from_str("/odm"));
    let mut props: Vec<(String, String)> = Vec::new();
    props.push((String::from_str("ro.build.type"), String::from_str("user")));
    props.push((String::from_str("ro.build.flavor"), String::from_str("OnePlus8T-user")));
    props.push((String::from_str("ro.build.display.id"), String::from_str("RKQ1.211119.001")));
    props.push((String::from_str("ro.debuggable"), String::from_str("0")));
    props.push((String::from_str("ro.build.user"), String::from_str("jenkins")));
    props.push((String::from_str("ro.build.host"), String::from_str("rd-build-193")));
    props.push((String::from_str("ro.product.build.type"), String::from_str("user")));
    props.push((String::from_str("ro.system.build.type"), String::from_str("user")));
    props.push((String::from_str("ro.system_ext.build.type"), String::from_str("user")));
    props.push((String::from_str("ro.vendor.build.type"), String::from_str("user")));
    props.push((String::from_str("ro.vendor_dlkm.build.type"), String::from_str("user")));
    props.push((String::from_str("ro.odm.build.type"), String::from_str("user")));
    props.push((String::from_str("ro.product.build.tags"), String::from_str("release-keys")));
    props.push((String::from_str("ro.boot.verifiedbootstate"), String::from_str("green")));
    props.push((String::from_str("ro.lineage.version"), String::from_str("")));
    props.push((String::from_str("ro.lineage.build.version"), String::from_str("")));
    props.push((String::from_str("ro.lineage.build.version.plat.rev"), String::from_str("")));
    props.push((String::from_str("ro.lineage.build.version.plat.sdk"), String::from_str("")));
    props.push((String::from_str("ro.lineage.device"), String::from_str("")));
    props.push((String::from_str("ro.lineage.display.version"), String::from_str("")));
    props.push((String::from_str("ro.lineage.releasetype"), String::from_str("")));
    props.push((String::from_str("ro.lineagelegal.url"), String::from_str("")));
    props.push((String::from_str("ro.modversion"), String::from_str("")));
    let r = SusfsConfig {
        uname_release: String::from_str("4.19.304"),
        uname_version: String::from_str("#1 SMP PREEMPT Fri Feb 9 00:58:10 UTC 2024"),
        sus_paths: paths,
        sus_path_loops: Vec::new(),
        sus_maps: maps,
        sus_mounts: mounts,
        enable_log: false,
        enable_avc_log_spoofing: true,
        hide_sus_mnts: true,
        set_props: props,
        delete_props: Vec::new(),
    };
    assert(r@.sus_paths =~= default_view().sus_paths);
    assert(r@.sus_path_loops =~= Seq::empty());
    assert(r@.sus_maps =~= default_view().sus_maps);
    assert(r@.sus_mounts =~= default_view().sus_mounts);
    assert(r@.set_props =~= default_props());
    assert(r@.delete_props =~= Seq::empty());
    r
}

/// Length, fourth and last character: enough to tell the built-in
/// property names apart.
spec fn key_sig(s: Seq<char>) -> (int, char, char) {
    (s.len() as int, s[3], s[s.len() - 1])
}

/// The built-in configuration names every property at most once.
pub proof fn lemma_default_wf()
    ensures
        default_view().wf(),
{
    reveal_strlit("ro.build.type");
    reveal_strlit("ro.build.flavor");
    reveal_strlit("ro.build.display.id");
    reveal_strlit("ro.debuggable");
    reveal_strlit("ro.build.user");
    reveal_strlit("ro.build.host");
    reveal_strlit("ro.product.build.type");
    reveal_strlit("ro.system.build.type");
    reveal_strlit("ro.system_ext.build.type");
    reveal_strlit("ro.vendor.build.type");
    reveal_strlit("ro.vendor_dlkm.build.type");
    reveal_strlit("ro.odm.build.type");
    reveal_strlit("ro.product.build.tags");
    reveal_strlit("ro.boot.verifiedbootstate");
    reveal_strlit("ro.lineage.version");
    reveal_strlit("ro.lineage.build.version");
    reveal_strlit("ro.lineage.build.version.plat.rev");
    reveal_strlit("ro.lineage.build.version.plat.sdk");
    reveal_strlit("ro.lineage.device");
    reveal_strlit("ro.lineage.display.version");
    reveal_strlit("ro.lineage.releasetype");
    reveal_strlit("ro.lineagelegal.url");
    reveal_strlit("ro.modversion");
    let p = default_props();
    assert(key_sig(p[0].0) == (13int, 'b', 'e'));
    assert(key_sig(p[1].0) == (15int, 'b', 'r'));
    assert(key_sig(p[2].0) == (19int, 'b', 'd'));
    assert(key_sig(p[3].0) == (13int, 'd', 'e'));
    assert(key_sig(p[4].0) == (13int, 'b', 'r'));
    assert(key_sig(p[5].0) == (13int, 'b', 't'));
    assert(key_sig(p[6].0) == (21int, 'p', 'e'));
    assert(key_sig(p[7].0) == (20int, 's', 'e'));
    assert(key_sig(p[8].0) == (24int, 's', 'e'));
    assert(key_sig(p[9].0) == (20int, 'v', 'e'));
    assert(key_sig(p[10].0) == (25int, 'v', 'e'));
    assert(key_sig(p[11].0) == (17int, 'o', 'e'));
    assert(key_sig(p[12].0) == (21int, 'p', 's'));
    assert(key_sig(p[13].0) == (25int, 'b', 'e'));
    assert(key_sig(p[14].0) == (18int, 'l', 'n'));
    assert(key_sig(p[15].0) == (24int, 'l', 'n'));
    assert(key_sig(p[16].0) == (33int, 'l', 'v'));
    assert(key_sig(p[17].0) == (33int, 'l', 'k'));
    assert(key_sig(p[18].0) == (17int, 'l', 'e'));
    assert(key_sig(p[19].0) == (26int, 'l', 'n'));
    assert(key_sig(p[20].0) == (22int, 'l', 'e'));
    assert(key_sig(p[21].0) == (19int, 'l', 'l'));
    assert(key_sig(p[22].0) == (13int, 'm', 'n'));
    assert forall|i: int, j: int|
        0 <= i < p.len() && 0 <= j < p.len() && i != j implies #[trigger] p[i].0 != #[trigger] p[j].0 by {
        if p[i].0 == p[j].0 {
            assert(key_sig(p[i].0) == key_sig(p[j].0));
        }
    }
}

/// `list` with `item` appended unless it is already there.
pub open spec fn with_item(list: Seq<Seq<char>>, item: Seq<char>) -> Seq<Seq<char>> {
    if list.contains(item) { list } else { list.push(item) }
}

/// Appends `item` to `list` unless an equal string is already there;
/// returns whether it was appended.
fn append_unique(list: &mut Vec<String>, item: &str) -> (added: bool)
    ensures
        added == !old(list).deep_view().contains(item@),
        final(list).deep_view() == with_item(old(list).deep_view(), item@),
{
    let owned = String::from_str(item);
    let mut i: usize = 0;
    while i < list.len()
        invariant
            i <= list@.len(),
            list@ == old(list)@,
            owned@ == item@,
            forall|j: int| 0 <= j < i ==> list.deep_view()[j] != item@,
        decreases list@.len() - i,
    {
        if list[i] == owned {
            assert(list.deep_view()[i as int] == item@);
            return false;
        }
        i = i + 1;
    }
    let ghost before = list.deep_view();
    assert(!before.contains(item@));
    list.push(owned);
    assert(list.deep_view() =~= before.push(item@));
    true
}

/// Records `path` as a sus path; returns whether the configuration changed
/// (and so needs saving).
pub fn append_sus_path(config: &mut SusfsConfig, path: &str) -> (changed: bool)
    ensures
        changed == !old(config)@.sus_paths.contains(path@),
        final(config)@ == (ConfigView { sus_paths: with_item(old(config)@.sus_paths, path@), ..old(config)@ }),
        old(config)@.wf() ==> final(config)@.wf(),
{
    append_unique(&mut config.sus_paths, path)
}

/// Records `path` as a sus map; returns whether the configuration changed
/// (and so needs saving).
pub fn append_sus_map(config: &mut SusfsConfig, path: &str) -> (changed: bool)
    ensures
        changed == !old(config)@.sus_maps.contains(path@),
        final(config)@ == (ConfigView { sus_maps: with_item(old(config)@.sus_maps, path@), ..old(config)@ }),
        old(config)@.wf() ==> final(config)@.wf(),
{
    append_unique(&mut config.sus_maps, path)
}

/// Records `path` as a sus mount; returns whether the configuration changed
/// (and so needs saving).
pub fn append_sus_mount(config: &mut SusfsConfig, path: &str) -> (changed: bool)
    ensures
        changed == !old(config)@.sus_mounts.contains(path@),
        final(config)@ == (ConfigView { sus_mounts: with_item(old(config)@.sus_mounts, path@), ..old(config)@ }),
        old(config)@.wf() ==> final(config)@.wf(),
{
    append_unique(&mut config.sus_mounts, path)
}

/// Records the spoofed uname.
pub fn set_uname(config: &mut SusfsConfig, release: &str, version: &str)
    ensures
        final(config)@ == (ConfigView { uname_release: release@, uname_version: version@, ..old(config)@ }),
        old(config)@.wf() ==> final(config)@.wf(),
{
    config.uname_release = String::from_str(release);
    config.uname_version = String::from_str(version);
}

/// The on/off switches of the configuration.
#[derive(Clone, Copy, Debug, PartialEq, Eq)]
pub enum ConfigToggle {
    EnableLog,
    EnableAvcLogSpoofing,
    HideSusMnts,
}

/// `c` with switch `toggle` set to `enabled`.
pub open spec fn with_toggle(c: ConfigView, toggle: ConfigToggle, enabled: bool) -> ConfigView {
    match toggle {
        ConfigToggle::EnableLog => ConfigView { enable_log: enabled, ..c },
        ConfigToggle::EnableAvcLogSpoofing => ConfigView { enable_avc_log_spoofing: enabled, ..c },
        ConfigToggle::HideSusMnts => ConfigView { hide_sus_mnts: enabled, ..c },
    }
}

/// Records the state of one switch.
pub fn set_toggle(config: &mut SusfsConfig, toggle: ConfigToggle, enabled: bool)
    ensures
        final(config)@ == with_toggle(old(config)@, toggle, enabled),
        old(config)@.wf() ==> final(config)@.wf(),
        final(config).enable_log == (if toggle == ConfigToggle::EnableLog { enabled } else { old(config).enable_log }),
        final(config).enable_avc_log_spoofing == (if toggle == ConfigToggle::EnableAvcLogSpoofing { enabled } else {
            old(config).enable_avc_log_spoofing }),
        final(config).hide_sus_mnts == (if toggle == ConfigToggle::HideSusMnts { enabled } else { old(config).hide_sus_mnts }),
{
    match toggle {
        ConfigToggle::EnableLog => config.enable_log = enabled,
        ConfigToggle::EnableAvcLogSpoofing => config.enable_avc_log_spoofing = enabled,
        ConfigToggle::HideSusMnts => config.hide_sus_mnts = enabled,
    }
}

/// One kernel or property call made while restoring a configuration.
#[derive(Debug, PartialEq, Eq)]
pub enum SusfsAction {
    SetUname { release: String, version: String },
    AddSusPath { path: String },
    AddSusPathLoop { path: String },
    AddSusMap { path: String },
    AddSusMount { path: String },
    EnableLog,
    EnableAvcLogSpoofing,
    HideSusMnts,
    SetProp { key: String, value: String },
    DeleteProp { key: String },
}

/// The abstract value of an action.
pub enum ActionView {
    SetUname { release: Seq<char>, version: Seq<char> },
    AddSusPath { path: Seq<char> },
    AddSusPathLoop { path: Seq<char> },
    AddSusMap { path: Seq<char> },
    AddSusMount { path: Seq<char> },
    EnableLog,
    EnableAvcLogSpoofing,
    HideSusMnts,
    SetProp { key: Seq<char>, value: Seq<char> },
    DeleteProp { key: Seq<char> },
}

impl View for SusfsAction {
    type V = ActionView;

    open spec fn view(&self) -> ActionView {
        match self {
            SusfsAction::SetUname { release, version } => ActionView::SetUname { release: release@, version: version@ },
            SusfsAction::AddSusPath { path } => ActionView::AddSusPath { path: path@ },
            SusfsAction::AddSusPathLoop { path } => ActionView::AddSusPathLoop { path: path@ },
            SusfsAction::AddSusMap { path } => ActionView::AddSusMap { path: path@ },
            SusfsAction::AddSusMount { path } => ActionView::AddSusMount { path: path@ },
            SusfsAction::EnableLog => ActionView::EnableLog,
            SusfsAction::EnableAvcLogSpoofing => ActionView::EnableAvcLogSpoofing,
            SusfsAction::HideSusMnts => ActionView::HideSusMnts,
            SusfsAction::SetProp { key, value } => ActionView::SetProp { key: key@, value: value@ },
            SusfsAction::DeleteProp { key } => ActionView::DeleteProp { key: key@ },
        }
    }
}

/// The abstract value of a list of actions.
pub open spec fn actions_view(v: Seq<SusfsAction>) -> Seq<ActionView> {
    v.map_values(|a: SusfsAction| a@)
}

/// `s` itself, or "default" when `s` is empty: what the uname command is
/// given for a field the configuration leaves blank.
pub open spec fn or_default(s: Seq<char>) -> Seq<char> {
    if s.len() == 0 { "default"@ } else { s }
}

/// The uname step of a restore: present when either uname field is set.
pub open spec fn uname_step(c: ConfigView) -> Seq<ActionView> {
    if c.uname_release.len() != 0 || c.uname_version.len() != 0 {
        seq![ActionView::SetUname { release: or_default(c.uname_release), version: or_default(c.uname_version) }]
    } else {
        Seq::empty()
    }
}

/// The switch steps of a restore: each switch that is on is turned on.
pub open spec fn toggle_steps(c: ConfigView) -> Seq<ActionView> {
    (if c.enable_log { seq![ActionView::EnableLog] } else { Seq::empty() })
        + (if c.enable_avc_log_spoofing { seq![ActionView::EnableAvcLogSpoofing] } else { Seq::empty() })
        + (if c.hide_sus_mnts { seq![ActionView::HideSusMnts] } else { Seq::empty() })
}

/// Every call a restore of `c` makes, in order: uname, sus paths, sus path
/// loops, sus maps, sus mounts, the switches, then the property rewrites,
/// and the property deletions last so that no deletion is undone by a rewrite.
pub open spec fn apply_plan(c: ConfigView) -> Seq<ActionView> {
    uname_step(c)
        + c.sus_paths.map_values(|p: Seq<char>| ActionView::AddSusPath { path: p })
        + c.sus_path_loops.map_values(|p: Seq<char>| ActionView::AddSusPathLoop { path: p })
        + c.sus_maps.map_values(|p: Seq<char>| ActionView::AddSusMap { path: p })
        + c.sus_mounts.map_values(|p: Seq<char>| ActionView::AddSusMount { path: p })
        + toggle_steps(c)
        + c.set_props.map_values(|kv: (Seq<char>, Seq<char>)| ActionView::SetProp { key: kv.0, value: kv.1 })
        + c.delete_props.map_values(|k: Seq<char>| ActionView::DeleteProp { key: k })
}

/// The uname value handed to the kernel for one field.
fn or_default_string(s: &String) -> (r: String)
    ensures
        r@ == or_default(s@),
{
    if s.as_str().is_empty() {
        String::from_str("default")
    } else {
        s.clone()
    }
}

/// Appends one `make(item)` per string of `items` to `plan`.
fn push_paths(plan: &mut Vec<SusfsAction>, items: &Vec<String>, kind: u8)
    requires
        kind < 4,
    ensures
        actions_view(final(plan)@) == actions_view(old(plan)@) + items.deep_view().map_values(
            |p: Seq<char>| path_action(kind, p)),
{
    let mut i: usize = 0;
    while i < items.len()
        invariant
            kind < 4,
            i <= items@.len(),
            actions_view(plan@) == actions_view(old(plan)@) + items.deep_view().take(i as int).map_values(
                |p: Seq<char>| path_action(kind, p)),
        decreases items@.len() - i,
    {
        let path = items[i].clone();
        let a = if kind == 0 {
            SusfsAction::AddSusPath { path }
        } else if kind == 1 {
            SusfsAction::AddSusPathLoop { path }
        } else if kind == 2 {
            SusfsAction::AddSusMap { path }
        } else {
            SusfsAction::AddSusMount { path }
        };
        let ghost before = plan@;
        plan.push(a);
        assert(items.deep_view().take(i + 1) =~= items.deep_view().take(i as int).push(items.deep_view()[i as int]));
        assert(actions_view(plan@) =~= actions_view(before).push(a@));
        i = i + 1;
    }
    assert(items.deep_view().take(items@.len() as int) =~= items.deep_view());
}

/// The action of path kind `kind` (sus path, sus path loop, sus map, sus mount) for `p`.
pub open spec fn path_action(kind: u8, p: Seq<char>) -> ActionView {
    if kind == 0 {
        ActionView::AddSusPath { path: p }
    } else if kind == 1 {
        ActionView::AddSusPathLoop { path: p }
    } else if kind == 2 {
        ActionView::AddSusMap { path: p }
    } else {
        ActionView::AddSusMount { path: p }
    }
}

/// The calls that restore `config` into the kernel, in the order they are
/// made. Each call's outcome is ignored, so the plan depends on the
/// configuration alone. A well-formed configuration rewrites each property
/// once.
pub fn apply(config: &SusfsConfig) -> (plan: Vec<SusfsAction>)
    requires
        config@.wf(),
    ensures
        actions_view(plan@) == apply_plan(config@),
{
    let mut plan: Vec<SusfsAction> = Vec::new();
    assert(actions_view(plan@) =~= Seq::empty());
    if !config.uname_release.as_str().is_empty() || !config.uname_version.as_str().is_empty() {
        let release = or_default_string(&config.uname_release);
        let version = or_default_string(&config.uname_version);
        plan.push(SusfsAction::SetUname { release, version });
    }
    assert(actions_view(plan@) =~= uname_step(config@));
    push_paths(&mut plan, &config.sus_paths, 0);
    push_paths(&mut plan, &config.sus_path_loops, 1);
    push_paths(&mut plan, &config.sus_maps, 2);
    push_paths(&mut plan, &config.sus_mounts, 3);
    let ghost before_toggles = actions_view(plan@);
    if config.enable_log {
        plan.push(SusfsAction::EnableLog);
    }
    if config.enable_avc_log_spoofing {
        plan.push(SusfsAction::EnableAvcLogSpoofing);
    }
    if config.hide_sus_mnts {
        plan.push(SusfsAction::HideSusMnts);
    }
    assert(actions_view(plan@) =~= before_toggles + toggle_steps(config@));
    let ghost before_props = actions_view(plan@);
    let mut i: usize = 0;
    while i < config.set_props.len()
        invariant
            i <= config.set_props@.len(),
            actions_view(plan@) == before_props + config.set_props.deep_view().take(i as int).map_values(
                |kv: (Seq<char>, Seq<char>)| ActionView::SetProp { key: kv.0, value: kv.1 }),
        decreases config.set_props@.len() - i,
    {
        let key = config.set_props[i].0.clone();
        let value = config.set_props[i].1.clone();
        let ghost before = plan@;
        let a = SusfsAction::SetProp { key, value };
        plan.push(a);
        assert(config.set_props.deep_view().take(i + 1) =~= config.set_props.deep_view().take(i as int).push(
            config.set_props.deep_view()[i as int]));
        assert(actions_view(plan@) =~= actions_view(before).push(a@));
        i = i + 1;
    }
    assert(config.set_props.deep_view().take(config.set_props@.len() as int) =~= config.set_props.deep_view());
    let ghost before_deletes = actions_view(plan@);
    let mut i: usize = 0;
    while i < config.delete_props.len()
        invariant
            i <= config.delete_props@.len(),
            actions_view(plan@) == before_deletes + config.delete_props.deep_view().take(i as int).map_values(
                |k: Seq<char>| ActionView::DeleteProp { key: k }),
        decreases config.delete_props@.len() - i,
    {
        let key = config.delete_props[i].clone();
        let ghost before = plan@;
        let a = SusfsAction::DeleteProp { key };
        plan.push(a);
        assert(config.delete_props.deep_view().take(i + 1) =~= config.delete_props.deep_view().take(i as int).push(
            config.delete_props.deep_view()[i as int]));
        assert(actions_view(plan@) =~= actions_view(before).push(a@));
        i = i + 1;
    }
    assert(config.delete_props.deep_view().take(config.delete_props@.len() as int) =~= config.delete_props.deep_view());
    proof {
        let c = config@;
        assert(c.sus_paths.map_values(|p: Seq<char>| path_action(0, p)) =~= c.sus_paths.map_values(|p: Seq<char>| ActionView::AddSusPath { path: p }));
        assert(c.sus_path_loops.map_values(|p: Seq<char>| path_action(1, p)) =~= c.sus_path_loops.map_values(|p: Seq<char>| ActionView::AddSusPathLoop { path: p }));
        assert(c.sus_maps.map_values(|p: Seq<char>| path_action(2, p)) =~= c.sus_maps.map_values(|p: Seq<char>| ActionView::AddSusMap { path: p }));
        assert(c.sus_mounts.map_values(|p: Seq<char>| path_action(3, p)) =~= c.sus_mounts.map_values(|p: Seq<char>| ActionView::AddSusMount { path: p }));
    }
    assert(actions_view(plan@) =~= apply_plan(config@));
    plan
}

/// No string occurs twice in `list`.
pub open spec fn no_duplicates(list: Seq<Seq<char>>) -> bool {
    forall|i: int, j: int| 0 <= i < list.len() && 0 <= j < list.len() && i != j
        ==> #[trigger] list[i] != #[trigger] list[j]
}

/// Recording a path is idempotent: recording it again changes nothing.
/// After recording, the path is in the list, everything that was there stays
/// in place, and a list without duplicates stays without duplicates.
pub proof fn lemma_append_idempotent(list: Seq<Seq<char>>, item: Seq<char>)
    ensures
        with_item(with_item(list, item), item) == with_item(list, item),
        with_item(list, item).contains(item),
        with_item(list, item).take(list.len() as int) == list,
        no_duplicates(list) ==> no_duplicates(with_item(list, item)),
{
    let l2 = with_item(list, item);
    if !list.contains(item) {
        assert(l2[list.len() as int] == item);
        assert(l2.contains(item));
    }
    assert(l2.take(list.len() as int) =~= list);
}

/// The built-in configuration is well formed and has rules, so the first
/// boot without a configuration file restores (and then saves) it.
pub proof fn lemma_default_restorable()
    ensures
        default_view().wf(),
        default_view().has_rules(),
{
    lemma_default_wf();
}

/// A configuration has rules exactly when restoring it makes at least one
/// call: nothing saved is skipped at restore, and an empty configuration
/// makes no call.
pub proof fn lemma_rules_iff_plan(c: ConfigView)
    ensures
        c.has_rules() <==> apply_plan(c).len() > 0,
{
    assert(apply_plan(c).len() == uname_step(c).len() + c.sus_paths.len() + c.sus_path_loops.len()
        + c.sus_maps.len() + c.sus_mounts.len() + toggle_steps(c).len() + c.set_props.len()
        + c.delete_props.len());
}

/// Recording a switch is read back as recorded: after setting switch
/// `toggle` to `enabled` (off as well as on), that switch reads `enabled`,
/// the other two switches keep their values, and nothing else changes.
pub proof fn lemma_toggle_recorded(c: ConfigView, toggle: ConfigToggle, enabled: bool)
    ensures
        with_toggle(c, toggle, enabled).enable_log == (if toggle == ConfigToggle::EnableLog { enabled } else { c.enable_log }),
        with_toggle(c, toggle, enabled).enable_avc_log_spoofing
            == (if toggle == ConfigToggle::EnableAvcLogSpoofing { enabled } else { c.enable_avc_log_spoofing }),
        with_toggle(c, toggle, enabled).hide_sus_mnts
            == (if toggle == ConfigToggle::HideSusMnts { enabled } else { c.hide_sus_mnts }),
        with_toggle(c, toggle, enabled).uname_release == c.uname_release,
        with_toggle(c, toggle, enabled).uname_version == c.uname_version,
        with_toggle(c, toggle, enabled).sus_paths == c.sus_paths,
        with_toggle(c, toggle, enabled).sus_path_loops == c.sus_path_loops,
        with_toggle(c, toggle, enabled).sus_maps == c.sus_maps,
        with_toggle(c, toggle, enabled).sus_mounts == c.sus_mounts,
        with_toggle(c, toggle, enabled).set_props == c.set_props,
        with_toggle(c, toggle, enabled).delete_props == c.delete_props,
{
}

/// Whether `a` is one of the three switch calls.
pub open spec fn is_switch_action(a: ActionView) -> bool {
    a is EnableLog || a is EnableAvcLogSpoofing || a is HideSusMnts
}

proof fn lemma_concat_contains(a: Seq<ActionView>, b: Seq<ActionView>, x: ActionView)
    ensures
        (a + b).contains(x) <==> (a.contains(x) || b.contains(x)),
{
    if a.contains(x) {
        let i = choose|i: int| 0 <= i < a.len() && a[i] == x;
        assert((a + b)[i] == x);
    }
    if b.contains(x) {
        let i = choose|i: int| 0 <= i < b.len() && b[i] == x;
        assert((a + b)[a.len() + i] == x);
    }
    if (a + b).contains(x) {
        let i = choose|i: int| 0 <= i < (a + b).len() && (a + b)[i] == x;
        if i < a.len() {
            assert(a[i] == x);
        } else {
            assert(b[i - a.len()] == x);
        }
    }
}

/// A segment none of whose calls is a switch contains no switch call.
proof fn lemma_no_switch(a: Seq<ActionView>, x: ActionView)
    requires
        is_switch_action(x),
        forall|i: int| 0 <= i < a.len() ==> !is_switch_action(#[trigger] a[i]),
    ensures
        !a.contains(x),
{
    if a.contains(x) {
        let i = choose|i: int| 0 <= i < a.len() && a[i] == x;
        assert(!is_switch_action(a[i]));
    }
}

/// Restoring turns on exactly the switches the configuration has on: the
/// plan turns on the kernel log iff `enable_log`, AVC log spoofing iff
/// `enable_avc_log_spoofing`, and hiding of sus mounts iff `hide_sus_mnts`,
/// each switch decided by its own field alone.
pub proof fn lemma_plan_switches(c: ConfigView)
    ensures
        apply_plan(c).contains(ActionView::EnableLog) <==> c.enable_log,
        apply_plan(c).contains(ActionView::EnableAvcLogSpoofing) <==> c.enable_avc_log_spoofing,
        apply_plan(c).contains(ActionView::HideSusMnts) <==> c.hide_sus_mnts,
{
    let u = uname_step(c);
    let a = c.sus_paths.map_values(|p: Seq<char>| ActionView::AddSusPath { path: p });
    let b = c.sus_path_loops.map_values(|p: Seq<char>| ActionView::AddSusPathLoop { path: p });
    let m = c.sus_maps.map_values(|p: Seq<char>| ActionView::AddSusMap { path: p });
    let n = c.sus_mounts.map_values(|p: Seq<char>| ActionView::AddSusMount { path: p });
    let t = toggle_steps(c);
    let sp = c.set_props.map_values(|kv: (Seq<char>, Seq<char>)| ActionView::SetProp { key: kv.0, value: kv.1 });
    let dp = c.delete_props.map_values(|k: Seq<char>| ActionView::DeleteProp { key: k });
    let t1 = if c.enable_log { seq![ActionView::EnableLog] } else { Seq::<ActionView>::empty() };
    let t2 = if c.enable_avc_log_spoofing { seq![ActionView::EnableAvcLogSpoofing] } else { Seq::<ActionView>::empty() };
    let t3 = if c.hide_sus_mnts { seq![ActionView::HideSusMnts] } else { Seq::<ActionView>::empty() };
    assert(t == t1 + t2 + t3);
    let plan = apply_plan(c);
    assert(plan == u + a + b + m + n + t + sp + dp);
    assert forall|x: ActionView| is_switch_action(x) implies (plan.contains(x) <==> t.contains(x)) by {
        lemma_no_switch(u, x);
        lemma_no_switch(a, x);
        lemma_no_switch(b, x);
        lemma_no_switch(m, x);
        lemma_no_switch(n, x);
        lemma_no_switch(sp, x);
        lemma_no_switch(dp, x);
        lemma_concat_contains(u, a, x);
        lemma_concat_contains(u + a, b, x);
        lemma_concat_contains(u + a + b, m, x);
        lemma_concat_contains(u + a + b + m, n, x);
        lemma_concat_contains(u + a + b + m + n, t, x);
        lemma_concat_contains(u + a + b + m + n + t, sp, x);
        lemma_concat_contains(u + a + b + m + n + t + sp, dp, x);
    }
    assert forall|x: ActionView| is_switch_action(x) implies (t.contains(x) <==> (t1.contains(x) || t2.contains(x)
        || t3.contains(x))) by {
        lemma_concat_contains(t1, t2, x);
        lemma_concat_contains(t1 + t2, t3, x);
    }
    assert(is_switch_action(ActionView::EnableLog));
    assert(is_switch_action(ActionView::EnableAvcLogSpoofing));
    assert(is_switch_action(ActionView::HideSusMnts));
    if c.enable_log {
        assert(t1[0] == ActionView::EnableLog);
    }
    if c.enable_avc_log_spoofing {
        assert(t2[0] == ActionView::EnableAvcLogSpoofing);
    }
    if c.hide_sus_mnts {
        assert(t3[0] == ActionView::HideSusMnts);
    }
}

/// The built-in configuration, field by field: uname 4.19.304 with its
/// build string; the five su and build paths hidden, /data/adb/ hidden from
/// maps, /vendor and /odm hidden as mounts; the kernel log off, AVC log
/// spoofing and mount hiding on; and these 23 property rewrites, in order,
/// with no deletion.
pub proof fn lemma_default_values()
    ensures
        default_view().uname_release == "4.19.304"@,
        default_view().uname_version == "#1 SMP PREEMPT Fri Feb 9 00:58:10 UTC 2024"@,
        default_view().sus_paths == seq!["/system/bin/su"@, "/odm/bin/su"@, "/data/adb/ksu/su"@,
            "/system/addon.d"@, "/system/build.prop"@],
        default_view().sus_path_loops.len() == 0,
        default_view().sus_maps == seq!["/data/adb/"@],
        default_view().sus_mounts == seq!["/vendor"@, "/odm"@],
        !default_view().enable_log,
        default_view().enable_avc_log_spoofing,
        default_view().hide_sus_mnts,
        default_view().delete_props.len() == 0,
        default_view().set_props == seq![
            ("ro.build.type"@, "user"@),
            ("ro.build.flavor"@, "OnePlus8T-user"@),
            ("ro.build.display.id"@, "RKQ1.211119.001"@),
            ("ro.debuggable"@, "0"@),
            ("ro.build.user"@, "jenkins"@),
            ("ro.build.host"@, "rd-build-193"@),
            ("ro.product.build.type"@, "user"@),
            ("ro.system.build.type"@, "user"@),
            ("ro.system_ext.build.type"@, "user"@),
            ("ro.vendor.build.type"@, "user"@),
            ("ro.vendor_dlkm.build.type"@, "user"@),
            ("ro.odm.build.type"@, "user"@),
            ("ro.product.build.tags"@, "release-keys"@),
            ("ro.boot.verifiedbootstate"@, "green"@),
            ("ro.lineage.version"@, ""@),
            ("ro.lineage.build.version"@, ""@),
            ("ro.lineage.build.version.plat.rev"@, ""@),
            ("ro.lineage.build.version.plat.sdk"@, ""@),
            ("ro.lineage.device"@, ""@),
            ("ro.lineage.display.version"@, ""@),
            ("ro.lineage.releasetype"@, ""@),
            ("ro.lineagelegal.url"@, ""@),
            ("ro.modversion"@, ""@),
        ],
{
}

/// In every restore plan all property rewrites come before all property
/// deletions.
pub proof fn lemma_rewrites_before_deletions(c: ConfigView)
    ensures
        forall|i: int, j: int|
            0 <= i < apply_plan(c).len() && 0 <= j < apply_plan(c).len()
                && #[trigger] apply_plan(c)[i] is SetProp && #[trigger] apply_plan(c)[j] is DeleteProp
                ==> i < j,
{
    let head = uname_step(c)
        + c.sus_paths.map_values(|p: Seq<char>| ActionView::AddSusPath { path: p })
        + c.sus_path_loops.map_values(|p: Seq<char>| ActionView::AddSusPathLoop { path: p })
        + c.sus_maps.map_values(|p: Seq<char>| ActionView::AddSusMap { path: p })
        + c.sus_mounts.map_values(|p: Seq<char>| ActionView::AddSusMount { path: p })
        + toggle_steps(c);
    let sets = c.set_props.map_values(|kv: (Seq<char>, Seq<char>)| ActionView::SetProp { key: kv.0, value: kv.1 });
    let dels = c.delete_props.map_values(|k: Seq<char>| ActionView::DeleteProp { key: k });
    let plan = apply_plan(c);
    assert(plan == head + sets + dels);
    assert forall|i: int| 0 <= i < head.len() implies !(#[trigger] head[i] is SetProp) && !(head[i] is DeleteProp) by {
        let u = uname_step(c);
        let a = c.sus_paths.map_values(|p: Seq<char>| ActionView::AddSusPath { path: p });
        let b = c.sus_path_loops.map_values(|p: Seq<char>| ActionView::AddSusPathLoop { path: p });
        let m = c.sus_maps.map_values(|p: Seq<char>| ActionView::AddSusMap { path: p });
        let n = c.sus_mounts.map_values(|p: Seq<char>| ActionView::AddSusMount { path: p });
        let t = toggle_steps(c);
        let e1 = u + a;
        let e2 = e1 + b;
        let e3 = e2 + m;
        let e4 = e3 + n;
        assert(head == e4 + t);
        if i < u.len() {
        } else if i < e1.len() {
            assert(head[i] == a[i - u.len()]);
        } else if i < e2.len() {
            assert(head[i] == b[i - e1.len()]);
        } else if i < e3.len() {
            assert(head[i] == m[i - e2.len()]);
        } else if i < e4.len() {
            assert(head[i] == n[i - e3.len()]);
        } else {
            assert(head[i] == t[i - e4.len()]);
        }
    }
    assert forall|i: int, j: int|
        0 <= i < plan.len() && 0 <= j < plan.len()
            && #[trigger] plan[i] is SetProp && #[trigger] plan[j] is DeleteProp implies i < j by {
        if i < head.len() {
            assert(plan[i] == head[i]);
        } else if i >= head.len() + sets.len() {
            assert(plan[i] == dels[i - head.len() - sets.len()]);
        }
        if j < head.len() {
            assert(plan[j] == head[j]);
        } else if j < head.len() + sets.len() {
            assert(plan[j] == sets[j - head.len()]);
        }
    }
}

} // verus!
