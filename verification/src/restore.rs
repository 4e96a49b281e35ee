//! The once-per-boot restore of the saved SUSFS configuration, as a state
//! machine: the daemon performs each requested action (file checks, loading,
//! kernel calls, saving, writing the boot marker) and reports what happened.

use vstd::prelude::*;
use crate::config::{apply, apply_plan, actions_view, has_rules, lemma_rules_iff_plan, SusfsAction, SusfsConfig};

verus! {

/// Where a restore run stands.
#[derive(Clone, Copy, Debug, PartialEq, Eq)]
pub enum RestorePhase {
    Idle,
    CheckingMarker,
    Loading,
    Applying,
    CheckingConfigFile,
    Saving,
    WritingMarker,
    Finished,
}

/// What the daemon reports back after performing an action.
#[derive(Debug)]
pub enum RestoreEvent {
    /// Starts the run.
    Begin,
    /// Whether this boot's marker file exists.
    MarkerChecked { exists: bool },
    /// The loaded configuration (well formed), or `None` when loading failed.
    Loaded { config: Option<SusfsConfig> },
    /// The plan was carried out (each call's outcome is ignored).
    Applied,
    /// Whether the configuration file exists.
    ConfigFileChecked { exists: bool },
    /// The configuration was written out (failures are ignored).
    Saved,
    /// The marker was written (failures are ignored).
    MarkerWritten,
}

/// What the daemon is asked to do next.
#[derive(Debug)]
pub enum RestoreAction {
    CheckMarker,
    LoadConfig,
    /// Make these calls, in order.
    Apply { plan: Vec<SusfsAction> },
    CheckConfigFile,
    /// Save the loaded configuration (see `RestoreMachine::config`).
    Save,
    WriteMarker,
    Done,
}

/// The kind of an action, without its payload.
#[derive(Clone, Copy, Debug, PartialEq, Eq)]
pub enum RestoreStep {
    CheckMarker,
    LoadConfig,
    Apply,
    CheckConfigFile,
    Save,
    WriteMarker,
    Done,
}

/// The kind of `a`.
pub open spec fn step_of(a: RestoreAction) -> RestoreStep {
    match a {
        RestoreAction::CheckMarker => RestoreStep::CheckMarker,
        RestoreAction::LoadConfig => RestoreStep::LoadConfig,
        RestoreAction::Apply { .. } => RestoreStep::Apply,
        RestoreAction::CheckConfigFile => RestoreStep::CheckConfigFile,
        RestoreAction::Save => RestoreStep::Save,
        RestoreAction::WriteMarker => RestoreStep::WriteMarker,
        RestoreAction::Done => RestoreStep::Done,
    }
}

/// Whether `e` answers the action that phase `p` is waiting on.
pub open spec fn expects(p: RestorePhase, e: RestoreEvent) -> bool {
    match (p, e) {
        (RestorePhase::Idle, RestoreEvent::Begin) => true,
        (RestorePhase::CheckingMarker, RestoreEvent::MarkerChecked { .. }) => true,
        (RestorePhase::Loading, RestoreEvent::Loaded { .. }) => true,
        (RestorePhase::Applying, RestoreEvent::Applied) => true,
        (RestorePhase::CheckingConfigFile, RestoreEvent::ConfigFileChecked { .. }) => true,
        (RestorePhase::Saving, RestoreEvent::Saved) => true,
        (RestorePhase::WritingMarker, RestoreEvent::MarkerWritten) => true,
        _ => false,
    }
}

/// The transition table: the next phase and the kind of the next action.
/// The marker is checked first and ends the run when present; otherwise the
/// configuration is loaded, applied if it holds any rule, saved only if it
/// was applied and no configuration file exists yet, and the marker is then
/// written whether or not loading succeeded.
pub open spec fn next(p: RestorePhase, e: RestoreEvent) -> (RestorePhase, RestoreStep) {
    match (p, e) {
        (RestorePhase::Idle, RestoreEvent::Begin) => (RestorePhase::CheckingMarker, RestoreStep::CheckMarker),
        (RestorePhase::CheckingMarker, RestoreEvent::MarkerChecked { exists }) =>
            if exists {
                (RestorePhase::Finished, RestoreStep::Done)
            } else {
                (RestorePhase::Loading, RestoreStep::LoadConfig)
            },
        (RestorePhase::Loading, RestoreEvent::Loaded { config }) => match config {
            Some(c) => if c@.has_rules() {
                (RestorePhase::Applying, RestoreStep::Apply)
            } else {
                (RestorePhase::WritingMarker, RestoreStep::WriteMarker)
            },
            None => (RestorePhase::WritingMarker, RestoreStep::WriteMarker),
        },
        (RestorePhase::Applying, RestoreEvent::Applied) => (RestorePhase::CheckingConfigFile, RestoreStep::CheckConfigFile),
        (RestorePhase::CheckingConfigFile, RestoreEvent::ConfigFileChecked { exists }) =>
            if exists {
                (RestorePhase::WritingMarker, RestoreStep::WriteMarker)
            } else {
                (RestorePhase::Saving, RestoreStep::Save)
            },
        (RestorePhase::Saving, RestoreEvent::Saved) => (RestorePhase::WritingMarker, RestoreStep::WriteMarker),
        (RestorePhase::WritingMarker, RestoreEvent::MarkerWritten) => (RestorePhase::Finished, RestoreStep::Done),
        _ => (p, RestoreStep::Done),
    }
}

/// Starts the once-per-boot restore of the saved configuration; the caller
/// drives the returned machine with `RestoreMachine::step`, beginning with
/// `RestoreEvent::Begin`.
pub fn restore_if_needed() -> (m: RestoreMachine)
    ensures
        m.phase() == RestorePhase::Idle,
        m.loaded() is None,
{
    RestoreMachine::new()
}

/// A restore run in progress.
pub struct RestoreMachine {
    phase: RestorePhase,
    config: Option<SusfsConfig>,
}

impl RestoreMachine {
    pub closed spec fn phase(&self) -> RestorePhase {
        self.phase
    }

    pub closed spec fn loaded(&self) -> Option<SusfsConfig> {
        self.config
    }

    /// A run that has not begun.
    pub fn new() -> (m: RestoreMachine)
        ensures
            m.phase() == RestorePhase::Idle,
            m.loaded() is None,
    {
        RestoreMachine { phase: RestorePhase::Idle, config: None }
    }

    /// The configuration loaded in this run, if any.
    pub fn config(&self) -> (r: Option<&SusfsConfig>)
        ensures
            r == match self.loaded() { Some(c) => Some(&c), None => None::<&SusfsConfig> },
    {
        match &self.config {
            Some(c) => Some(c),
            None => None,
        }
    }

    /// Takes the daemon's report `e` and returns the next action.
    pub fn step(&mut self, e: RestoreEvent) -> (a: RestoreAction)
        requires
            expects(old(self).phase(), e),
            e matches RestoreEvent::Loaded { config: Some(c) } ==> c@.wf(),
        ensures
            (final(self).phase(), step_of(a)) == next(old(self).phase(), e),
            e matches RestoreEvent::Loaded { config } ==> final(self).loaded() == config,
            !(e is Loaded) ==> final(self).loaded() == old(self).loaded(),
            a matches RestoreAction::Apply { plan } ==> (final(self).loaded() matches Some(c)
                && actions_view(plan@) == apply_plan(c@)),
    {
        match e {
            RestoreEvent::Begin => {
                self.phase = RestorePhase::CheckingMarker;
                RestoreAction::CheckMarker
            },
            RestoreEvent::MarkerChecked { exists } => {
                if exists {
                    self.phase = RestorePhase::Finished;
                    RestoreAction::Done
                } else {
                    self.phase = RestorePhase::Loading;
                    RestoreAction::LoadConfig
                }
            },
            RestoreEvent::Loaded { config } => {
                let a = match &config {
                    Some(c) => if has_rules(c) {
                        self.phase = RestorePhase::Applying;
                        RestoreAction::Apply { plan: apply(c) }
                    } else {
                        self.phase = RestorePhase::WritingMarker;
                        RestoreAction::WriteMarker
                    },
                    None => {
                        self.phase = RestorePhase::WritingMarker;
                        RestoreAction::WriteMarker
                    },
                };
                self.config = config;
                a
            },
            RestoreEvent::Applied => {
                self.phase = RestorePhase::CheckingConfigFile;
                RestoreAction::CheckConfigFile
            },
            RestoreEvent::ConfigFileChecked { exists } => {
                if exists {
                    self.phase = RestorePhase::WritingMarker;
                    RestoreAction::WriteMarker
                } else {
                    self.phase = RestorePhase::Saving;
                    RestoreAction::Save
                }
            },
            RestoreEvent::Saved => {
                self.phase = RestorePhase::WritingMarker;
                RestoreAction::WriteMarker
            },
            RestoreEvent::MarkerWritten => {
                self.phase = RestorePhase::Finished;
                RestoreAction::Done
            },
        }
    }
}

/// The report a daemon gives for an action of kind `s`, when this boot's
/// marker exists iff `marker`, loading yields `loaded`, and the
/// configuration file exists iff `file`.
pub open spec fn answer(s: RestoreStep, marker: bool, loaded: Option<SusfsConfig>, file: bool) -> RestoreEvent {
    match s {
        RestoreStep::CheckMarker => RestoreEvent::MarkerChecked { exists: marker },
        RestoreStep::LoadConfig => RestoreEvent::Loaded { config: loaded },
        RestoreStep::Apply => RestoreEvent::Applied,
        RestoreStep::CheckConfigFile => RestoreEvent::ConfigFileChecked { exists: file },
        RestoreStep::Save => RestoreEvent::Saved,
        RestoreStep::WriteMarker => RestoreEvent::MarkerWritten,
        RestoreStep::Done => RestoreEvent::Begin,
    }
}

/// The kinds of the actions a run asks for, from phase `p` on receiving `e`,
/// up to and including `Done` (at most `fuel` of them).
pub open spec fn run(p: RestorePhase, e: RestoreEvent, marker: bool, loaded: Option<SusfsConfig>, file: bool, fuel: nat) -> Seq<RestoreStep>
    decreases fuel,
{
    if fuel == 0 {
        Seq::empty()
    } else {
        let (p2, s) = next(p, e);
        if s == RestoreStep::Done {
            seq![RestoreStep::Done]
        } else {
            seq![s] + run(p2, answer(s, marker, loaded, file), marker, loaded, file, (fuel - 1) as nat)
        }
    }
}

/// The whole run of a restore in the given surroundings.
pub open spec fn restore_trace(marker: bool, loaded: Option<SusfsConfig>, file: bool) -> Seq<RestoreStep> {
    run(RestorePhase::Idle, RestoreEvent::Begin, marker, loaded, file, 8)
}

/// Whether `loaded` is a configuration that holds any rule.
pub open spec fn loaded_with_rules(loaded: Option<SusfsConfig>) -> bool {
    loaded matches Some(c) && c@.has_rules()
}

/// Every restore run, spelled out: with this boot's marker present nothing
/// but the check happens; otherwise the configuration is loaded, applied when
/// it has rules (and then saved when no configuration file exists yet), and
/// the marker is written at the end whether loading succeeded or not.
pub proof fn lemma_restore_trace(marker: bool, loaded: Option<SusfsConfig>, file: bool)
    ensures
        restore_trace(marker, loaded, file) == if marker {
            seq![RestoreStep::CheckMarker, RestoreStep::Done]
        } else if !loaded_with_rules(loaded) {
            seq![RestoreStep::CheckMarker, RestoreStep::LoadConfig, RestoreStep::WriteMarker, RestoreStep::Done]
        } else if file {
            seq![RestoreStep::CheckMarker, RestoreStep::LoadConfig, RestoreStep::Apply,
                RestoreStep::CheckConfigFile, RestoreStep::WriteMarker, RestoreStep::Done]
        } else {
            seq![RestoreStep::CheckMarker, RestoreStep::LoadConfig, RestoreStep::Apply,
                RestoreStep::CheckConfigFile, RestoreStep::Save, RestoreStep::WriteMarker, RestoreStep::Done]
        },
{
    reveal_with_fuel(run, 9);
    let t = restore_trace(marker, loaded, file);
    if marker {
        assert(t =~= seq![RestoreStep::CheckMarker, RestoreStep::Done]);
    } else if !loaded_with_rules(loaded) {
        assert(t =~= seq![RestoreStep::CheckMarker, RestoreStep::LoadConfig, RestoreStep::WriteMarker, RestoreStep::Done]);
    } else if file {
        assert(t =~= seq![RestoreStep::CheckMarker, RestoreStep::LoadConfig, RestoreStep::Apply,
            RestoreStep::CheckConfigFile, RestoreStep::WriteMarker, RestoreStep::Done]);
    } else {
        assert(t =~= seq![RestoreStep::CheckMarker, RestoreStep::LoadConfig, RestoreStep::Apply,
            RestoreStep::CheckConfigFile, RestoreStep::Save, RestoreStep::WriteMarker, RestoreStep::Done]);
    }
}

/// Once per boot: when this boot's marker exists, a run does nothing but
/// look at it; when it does not, the run always ends by writing it, and
/// writes it exactly once.
pub proof fn lemma_marker_once_per_boot(marker: bool, loaded: Option<SusfsConfig>, file: bool)
    ensures
        marker ==> restore_trace(marker, loaded, file) == seq![RestoreStep::CheckMarker, RestoreStep::Done],
        !marker ==> {
            let t = restore_trace(marker, loaded, file);
            &&& t.len() >= 2
            &&& t[t.len() - 2] == RestoreStep::WriteMarker
            &&& t.last() == RestoreStep::Done
            &&& forall|i: int| 0 <= i < t.len() - 2 ==> t[i] != RestoreStep::WriteMarker
        },
{
    lemma_restore_trace(marker, loaded, file);
}

/// The configuration is applied exactly when loading succeeded and it holds
/// rules, that is, exactly when its plan makes at least one call (so every
/// saved rule is restored, and an empty configuration is not applied); it is
/// saved exactly when it was applied and no configuration file existed (the
/// built-in defaults reach the disk on first boot).
pub proof fn lemma_apply_and_save(marker: bool, loaded: Option<SusfsConfig>, file: bool)
    ensures
        restore_trace(marker, loaded, file).contains(RestoreStep::Apply)
            <==> (!marker && loaded_with_rules(loaded)),
        restore_trace(marker, loaded, file).contains(RestoreStep::Apply)
            <==> (!marker && (loaded matches Some(c) && apply_plan(c@).len() > 0)),
        restore_trace(marker, loaded, file).contains(RestoreStep::Save)
            <==> (!marker && loaded_with_rules(loaded) && !file),
{
    lemma_restore_trace(marker, loaded, file);
    if let Some(c) = loaded {
        lemma_rules_iff_plan(c@);
    }
    let t = restore_trace(marker, loaded, file);
    if !marker && loaded_with_rules(loaded) {
        assert(t[2] == RestoreStep::Apply);
        if !file {
            assert(t[4] == RestoreStep::Save);
        }
    }
}

} // verus!
