//! The wizard that creates an instance in three steps: a name, an icon, a
//! version. A step is checked when the user moves forward from it; moving
//! back is always possible.

use vstd::prelude::*;
use vstd::utf8::encode_utf8;
use crate::instance::{clone_version, version_view, InstanceView, LauncherInstance};
use crate::settings::{has_name, LauncherSettings};
use crate::steps::Steps;
use crate::text::{same_text, string_views};
use crate::toast::{OpenMCToastKind, Toast, ToastView};
use crate::version::{MinecraftVersion, VersionKind, VersionView};

verus! {

/// The place of the wizard's last step.
pub const LAST_STEP: u8 = 2;

/// The least number of bytes that a name must have.
pub const MIN_NAME_LEN: usize = 5;

/// The state of the wizard.
#[derive(Debug, PartialEq, Eq)]
pub struct CreateInstance {
    curr_step: u8,
    name: String,
    icon_selected: String,
    version_selected: Option<MinecraftVersion>,
}

/// What a [`CreateInstance`] stands for.
pub struct WizardView {
    pub step: u8,
    pub name: Seq<char>,
    pub icon: Seq<char>,
    pub version: Option<VersionView>,
}

impl View for CreateInstance {
    type V = WizardView;

    closed spec fn view(&self) -> WizardView {
        WizardView {
            step: self.curr_step,
            name: self.name@,
            icon: self.icon_selected@,
            version: version_view(self.version_selected),
        }
    }
}

/// What moving forward leads to.
#[derive(Debug, PartialEq, Eq)]
pub enum StepOutcome {
    /// The step was accepted and the next one is shown.
    Advanced,
    /// The step was refused; the notification says why.
    Rejected(Toast),
    /// The last step was accepted: this instance is to be registered, with
    /// the icon found at the given path.
    Finished { instance: LauncherInstance, icon: String },
}

/// What a [`StepOutcome`] stands for.
pub enum OutcomeView {
    Advanced,
    Rejected(ToastView),
    Finished { instance: InstanceView, icon: Seq<char> },
}

impl View for StepOutcome {
    type V = OutcomeView;

    open spec fn view(&self) -> OutcomeView {
        match *self {
            StepOutcome::Advanced => OutcomeView::Advanced,
            StepOutcome::Rejected(t) => OutcomeView::Rejected(t@),
            StepOutcome::Finished { instance, icon } => OutcomeView::Finished {
                instance: instance@,
                icon: icon@,
            },
        }
    }
}

/// One version of the manifest: the word of its channel and its id.
#[derive(Debug, PartialEq, Eq)]
pub struct ManifestEntry {
    pub version_type: String,
    pub id: String,
}

/// The number of bytes that a name takes.
pub open spec fn byte_len(name: Seq<char>) -> nat {
    encode_utf8(name).len()
}

/// Why a name is refused, if it is: it is empty, it is shorter than
/// [`MIN_NAME_LEN`] bytes, or the registry holds an instance of exactly that
/// name.
pub open spec fn name_fault(name: Seq<char>, registry: Seq<InstanceView>) -> Option<Seq<char>> {
    if name.len() == 0 {
        Some("The name cannot empty"@)
    } else if byte_len(name) < MIN_NAME_LEN {
        Some("The name size need more than 5"@)
    } else if has_name(registry, name) {
        Some("An instance of this name already exists"@)
    } else {
        None
    }
}

/// Why an icon is refused, if it is: none was chosen, or the file of the one
/// chosen is not there.
pub open spec fn icon_fault(icon: Seq<char>, icon_exists: bool) -> Option<Seq<char>> {
    if icon.len() == 0 {
        Some("Please select one icon"@)
    } else if !icon_exists {
        Some("The icon file not exists"@)
    } else {
        None
    }
}

/// Why a version is refused, if it is: none was chosen.
pub open spec fn version_fault(version: Option<VersionView>) -> Option<Seq<char>> {
    if version is None {
        Some("Please select one version"@)
    } else {
        None
    }
}

/// Why the wizard's current step is refused, if it is.
pub open spec fn step_fault(w: WizardView, registry: Seq<InstanceView>, icon_exists: bool) -> Option<
    Seq<char>,
> {
    if w.step == 0 {
        name_fault(w.name, registry)
    } else if w.step == 1 {
        icon_fault(w.icon, icon_exists)
    } else {
        version_fault(w.version)
    }
}

/// What a check's answer stands for: the reason of a refusal, if it is one.
pub open spec fn fault_of(r: Result<(), String>) -> Option<Seq<char>> {
    match r {
        Ok(_) => None,
        Err(e) => Some(e@),
    }
}

/// The notification that tells of a refused step.
pub open spec fn rejection(reason: Seq<char>) -> ToastView {
    ToastView { kind: OpenMCToastKind::Error, title: "Invalid Input"@, desc: reason }
}

/// The instance that the wizard's entries describe: not registered, not
/// downloaded.
pub open spec fn described(w: WizardView) -> InstanceView {
    InstanceView {
        name: w.name,
        path: Seq::<char>::empty(),
        version: w.version,
        downloaded: false,
        downloading: false,
    }
}

/// The wizard after the user moved forward: on to the next step where the
/// current one is accepted and is not the last, and unchanged otherwise.
pub open spec fn moved_forward(
    w: WizardView,
    registry: Seq<InstanceView>,
    icon_exists: bool,
) -> WizardView {
    if step_fault(w, registry, icon_exists) is None && w.step < LAST_STEP {
        WizardView { step: (w.step + 1) as u8, ..w }
    } else {
        w
    }
}

/// What moving forward leads to.
pub open spec fn forward_outcome(
    w: WizardView,
    registry: Seq<InstanceView>,
    icon_exists: bool,
) -> OutcomeView {
    match step_fault(w, registry, icon_exists) {
        Some(reason) => OutcomeView::Rejected(rejection(reason)),
        None => if w.step < LAST_STEP {
            OutcomeView::Advanced
        } else {
            OutcomeView::Finished { instance: described(w), icon: w.icon }
        },
    }
}

/// The version that a choice in the version list stands for: the tab gives
/// the channel, in the order release, snapshot, old beta, old alpha.
pub open spec fn version_of_tab(tab: u8, id: Seq<char>) -> Option<VersionView> {
    if tab == 0 {
        Some(VersionView { kind: VersionKind::Release, id })
    } else if tab == 1 {
        Some(VersionView { kind: VersionKind::Snapshot, id })
    } else if tab == 2 {
        Some(VersionView { kind: VersionKind::OldBeta, id })
    } else if tab == 3 {
        Some(VersionView { kind: VersionKind::OldAlpha, id })
    } else {
        None
    }
}

/// The ids of the manifest's versions of one channel, in the manifest's order.
pub open spec fn ids_of_channel(manifest: Seq<ManifestEntry>, word: Seq<char>) -> Seq<Seq<char>>
    decreases manifest.len(),
{
    if manifest.len() == 0 {
        Seq::<Seq<char>>::empty()
    } else if manifest.last().version_type@ == word {
        ids_of_channel(manifest.drop_last(), word).push(manifest.last().id@)
    } else {
        ids_of_channel(manifest.drop_last(), word)
    }
}

/// Checks a name for a new instance against the registry.
pub fn validate_name(data: &CreateInstance, cfg: &LauncherSettings) -> (r: Result<(), String>)
    ensures
        fault_of(r) == name_fault(data@.name, cfg@.instances),
{
    if data.name.as_str().is_empty() {
        return Err(String::from_str("The name cannot empty"));
    }
    if data.name.as_str().as_bytes().len() < MIN_NAME_LEN {
        return Err(String::from_str("The name size need more than 5"));
    }
    if cfg.position(data.name.as_str()).is_some() {
        return Err(String::from_str("An instance of this name already exists"));
    }
    Ok(())
}

/// Checks the icon that was chosen. Whether its file is there is for the
/// caller to find out.
pub fn validate_icon(data: &CreateInstance, icon_exists: bool) -> (r: Result<(), String>)
    ensures
        fault_of(r) == icon_fault(data@.icon, icon_exists),
{
    if data.icon_selected.as_str().is_empty() {
        return Err(String::from_str("Please select one icon"));
    }
    if !icon_exists {
        return Err(String::from_str("The icon file not exists"));
    }
    Ok(())
}

/// Checks that a version was chosen.
pub fn validate_version(data: &CreateInstance) -> (r: Result<(), String>)
    ensures
        fault_of(r) == version_fault(data@.version),
{
    if data.version_selected.is_none() {
        return Err(String::from_str("Please select one version"));
    }
    Ok(())
}

/// The ids of the manifest's versions of one channel, in the manifest's order.
pub fn versions_of_channel(manifest: &Vec<ManifestEntry>, word: &str) -> (r: Vec<String>)
    ensures
        string_views(r@) == ids_of_channel(manifest@, word@),
{
    let mut r: Vec<String> = Vec::new();
    let mut i: usize = 0;
    while i < manifest.len()
        invariant
            i <= manifest.len(),
            string_views(r@) == ids_of_channel(
                manifest@.subrange(0, i as int),
                word@,
            ),
        decreases manifest.len() - i,
    {
        let ghost more = manifest@.subrange(0, i + 1);
        assert(more.drop_last() =~= manifest@.subrange(0, i as int));
        if same_text(manifest[i].version_type.as_str(), word) {
            r.push(manifest[i].id.clone());
        }
        i += 1;
    }
    assert(manifest@.subrange(0, manifest@.len() as int) =~= manifest@);
    r
}

impl CreateInstance {
    /// A wizard at its first step, with nothing entered.
    pub fn new() -> (r: Self)
        ensures
            r@ == (WizardView {
                step: 0,
                name: Seq::<char>::empty(),
                icon: Seq::<char>::empty(),
                version: None,
            }),
    {
        CreateInstance {
            curr_step: 0,
            name: String::new(),
            icon_selected: String::new(),
            version_selected: None,
        }
    }

    /// Takes the wizard back to its first step and forgets what was entered.
    pub fn reset(&mut self)
        ensures
            final(self)@ == (WizardView {
                step: 0,
                name: Seq::<char>::empty(),
                icon: Seq::<char>::empty(),
                version: None,
            }),
    {
        self.curr_step = 0;
        self.version_selected = None;
        self.icon_selected = String::new();
        self.name = String::new();
    }

    /// The place of the current step.
    pub fn current_step(&self) -> (r: u8)
        ensures
            r == self@.step,
    {
        self.curr_step
    }

    /// The name entered.
    pub fn name(&self) -> (r: String)
        ensures
            r@ == self@.name,
    {
        self.name.clone()
    }

    /// The path of the icon chosen; empty if none was.
    pub fn icon_selected(&self) -> (r: String)
        ensures
            r@ == self@.icon,
    {
        self.icon_selected.clone()
    }

    /// The version chosen.
    pub fn version_selected(&self) -> (r: Option<MinecraftVersion>)
        ensures
            version_view(r) == self@.version,
    {
        clone_version(&self.version_selected)
    }

    /// The row of steps above the wizard, with the current step marked.
    pub fn steps(&self) -> (r: Steps)
        ensures
            r@.current == self@.step,
            r@.steps.len() == 3,
            r@.steps[0] == "Name"@,
            r@.steps[1] == "Icon"@,
            r@.steps[2] == "Version"@,
    {
        let mut labels: Vec<&str> = Vec::new();
        labels.push("Name");
        labels.push("Icon");
        labels.push("Version");
        let mut r = Steps::with_steps(labels);
        r.set_current(self.curr_step as usize);
        r
    }

    /// Takes the name that the user typed.
    pub fn set_name(&mut self, name: &str)
        ensures
            final(self)@ == (WizardView { name: name@, ..old(self)@ }),
    {
        self.name = String::from_str(name);
    }

    /// Takes the icon that the user chose. An empty path chooses nothing and
    /// leaves an earlier choice in place.
    pub fn set_icon(&mut self, path: &str)
        ensures
            final(self)@ == if path@.len() == 0 {
                old(self)@
            } else {
                WizardView { icon: path@, ..old(self)@ }
            },
    {
        if !path.is_empty() {
            self.icon_selected = String::from_str(path);
        }
    }

    /// Takes the version that the user chose in the list of the given tab. An
    /// empty id chooses nothing and leaves an earlier choice in place; a tab
    /// that does not exist clears the choice.
    pub fn set_version(&mut self, tab: u8, id: &str)
        ensures
            final(self)@ == if id@.len() == 0 {
                old(self)@
            } else {
                WizardView { version: version_of_tab(tab, id@), ..old(self)@ }
            },
    {
        if !id.is_empty() {
            self.version_selected = if tab == 0 {
                Some(MinecraftVersion::Release(String::from_str(id)))
            } else if tab == 1 {
                Some(MinecraftVersion::Snapshot(String::from_str(id)))
            } else if tab == 2 {
                Some(MinecraftVersion::OldBeta(String::from_str(id)))
            } else if tab == 3 {
                Some(MinecraftVersion::OldAlpha(String::from_str(id)))
            } else {
                None
            };
        }
    }

    /// Checks the current step.
    pub fn validate(&self, cfg: &LauncherSettings, icon_exists: bool) -> (r: Result<(), String>)
        ensures
            fault_of(r) == step_fault(self@, cfg@.instances, icon_exists),
    {
        if self.curr_step == 0 {
            validate_name(self, cfg)
        } else if self.curr_step == 1 {
            validate_icon(self, icon_exists)
        } else {
            validate_version(self)
        }
    }

    /// Moves forward from the current step. The step is checked first; a
    /// refused step stays, and the outcome carries the notification. From the
    /// last step an accepted wizard hands out the instance to register and
    /// stays as it is.
    pub fn next(&mut self, cfg: &LauncherSettings, icon_exists: bool) -> (r: StepOutcome)
        ensures
            final(self)@ == moved_forward(old(self)@, cfg@.instances, icon_exists),
            r@ == forward_outcome(old(self)@, cfg@.instances, icon_exists),
    {
        match self.validate(cfg, icon_exists) {
            Err(e) => StepOutcome::Rejected(
                Toast {
                    kind: OpenMCToastKind::Error,
                    title: String::from_str("Invalid Input"),
                    desc: e,
                },
            ),
            Ok(_) => {
                if self.curr_step < LAST_STEP {
                    self.curr_step = self.curr_step + 1;
                    StepOutcome::Advanced
                } else {
                    StepOutcome::Finished {
                        instance: LauncherInstance::new(
                            self.name.clone(),
                            clone_version(&self.version_selected),
                        ),
                        icon: self.icon_selected.clone(),
                    }
                }
            },
        }
    }

    /// Moves back one step, unchecked; the first step stays.
    pub fn prev(&mut self)
        ensures
            final(self)@ == if old(self)@.step > 0 {
                WizardView { step: (old(self)@.step - 1) as u8, ..old(self)@ }
            } else {
                old(self)@
            },
    {
        if self.curr_step > 0 {
            self.curr_step = self.curr_step - 1;
        }
    }
}

/// A name that the registry holds is refused, however long it is, and a name
/// of enough bytes that the registry does not hold is accepted: a name that
/// differs from a registered one in the case of a letter is another name.
pub proof fn lemma_name_rule(name: Seq<char>, registry: Seq<InstanceView>)
    ensures
        has_name(registry, name) ==> name_fault(name, registry) is Some,
        !has_name(registry, name) && byte_len(name) >= MIN_NAME_LEN ==> name_fault(name, registry)
            is None,
{
    if byte_len(name) >= MIN_NAME_LEN {
        if name.len() == 0 {
            assert(encode_utf8(name).len() == 0) by {
                reveal_with_fuel(encode_utf8, 2);
            }
        }
    }
}

/// The wizard never leaves its three steps, and it moves on only from a step
/// that is accepted.
pub proof fn lemma_forward_is_gated(w: WizardView, registry: Seq<InstanceView>, icon_exists: bool)
    requires
        w.step <= LAST_STEP,
    ensures
        moved_forward(w, registry, icon_exists).step <= LAST_STEP,
        moved_forward(w, registry, icon_exists).step != w.step ==> step_fault(
            w,
            registry,
            icon_exists,
        ) is None,
        forward_outcome(w, registry, icon_exists) is Finished ==> w.step == LAST_STEP && w.version
            is Some,
{
}

/// An instance whose name the wizard accepted can join a registry of
/// distinct names without breaking that: the new name is not among them.
pub proof fn lemma_accepted_name_is_new(name: Seq<char>, registry: Seq<InstanceView>)
    requires
        name_fault(name, registry) is None,
    ensures
        !has_name(registry, name),
        byte_len(name) >= MIN_NAME_LEN,
        name.len() > 0,
{
}

} // verus!
