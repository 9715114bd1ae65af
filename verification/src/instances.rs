//! The panel of the selected instance: it follows the download of the
//! instance and decides what a press of one of its buttons does.
//!
//! The panel neither starts a thread nor reads a channel. Its caller drains
//! the progress channel without blocking and hands over what it found, and
//! carries out the action that a press returns.

use vstd::prelude::*;
use crate::download_svc::{
    announced, chunk_sum, complete_trace, lemma_worker_trace_complete, worker_trace,
    DownloadProgressMessage,
};
use crate::instance::{
    download_state, optional_instance_view, DownloadState, InstanceView, LauncherInstance,
};
use crate::settings::{has_name, removed, replaced, LauncherSettings, SettingsView};
use crate::toast::{optional_toast_view, toast_views, OpenMCToastKind, Toast, ToastView};
use crate::version::kind_word;

verus! {

/// The button that starts the download and, once that is done, the game. It
/// shows a text and is filled to the fraction `filled / full`.
#[derive(Debug, PartialEq, Eq)]
pub struct ProgressButton {
    pub text: String,
    pub filled: u64,
    pub full: u64,
}

/// What a [`ProgressButton`] stands for.
pub struct ButtonView {
    pub text: Seq<char>,
    pub filled: u64,
    pub full: u64,
}

impl View for ProgressButton {
    type V = ButtonView;

    open spec fn view(&self) -> ButtonView {
        ButtonView { text: self.text@, filled: self.filled, full: self.full }
    }
}

/// The button as it invites to start the game: empty, and labelled so.
pub open spec fn launch_button() -> ButtonView {
    ButtonView { text: "Launch"@, filled: 0, full: 0 }
}

/// A fraction in thousandths, rounded down; nothing of nothing counts as zero.
pub open spec fn per_mille(part: u64, whole: u64) -> int {
    if whole == 0 {
        0
    } else {
        part * 1000 / (whole as int)
    }
}

impl Clone for ProgressButton {
    fn clone(&self) -> (r: Self)
        ensures
            r == *self,
    {
        ProgressButton { text: self.text.clone(), filled: self.filled, full: self.full }
    }
}

impl Default for ProgressButton {
    /// An empty button without a text.
    fn default() -> (r: Self)
        ensures
            r@ == (ButtonView { text: Seq::<char>::empty(), filled: 0, full: 0 }),
    {
        ProgressButton { text: String::new(), filled: 0, full: 0 }
    }
}

impl ProgressButton {
    /// Empties the button.
    pub fn reset_progress(&mut self)
        ensures
            final(self)@ == (ButtonView { filled: 0, full: 0, ..old(self)@ }),
    {
        self.filled = 0;
        self.full = 0;
    }

    /// Fills the button to `curr` of `max`.
    pub fn calcule_progress(&mut self, curr: u64, max: u64)
        ensures
            final(self)@ == (ButtonView { filled: curr, full: max, ..old(self)@ }),
    {
        self.filled = curr;
        self.full = max;
    }

    /// Changes the button's text.
    pub fn set_text(&mut self, text: &str)
        ensures
            final(self)@ == (ButtonView { text: text@, ..old(self)@ }),
    {
        self.text = String::from_str(text);
    }

    /// How far the button is filled, in thousandths.
    pub fn fill_per_mille(&self) -> (r: u128)
        ensures
            r == per_mille(self@.filled, self@.full),
    {
        fraction_per_mille(self.filled, self.full)
    }
}

/// A fraction in thousandths, rounded down; nothing of nothing counts as zero.
pub fn fraction_per_mille(part: u64, whole: u64) -> (r: u128)
    ensures
        r == per_mille(part, whole),
{
    if whole == 0 {
        0
    } else {
        let scaled: u128 = (part as u128) * 1000;
        scaled / (whole as u128)
    }
}

/// The panel of the selected instance.
#[derive(Debug, PartialEq, Eq)]
pub struct Instances {
    /// A working copy of the selected instance, if one is selected.
    pub selected: Option<LauncherInstance>,
    pub download_button: ProgressButton,
    /// What the progress channel last said was fetched.
    pub seen_done: u64,
    /// What the progress channel last said there was to fetch.
    pub seen_total: u64,
}

/// What an [`Instances`] stands for.
pub struct PanelView {
    pub selected: Option<InstanceView>,
    pub button: ButtonView,
    pub seen_done: u64,
    pub seen_total: u64,
}

impl View for Instances {
    type V = PanelView;

    open spec fn view(&self) -> PanelView {
        PanelView {
            selected: optional_instance_view(self.selected),
            button: self.download_button@,
            seen_done: self.seen_done,
            seen_total: self.seen_total,
        }
    }
}

/// One of the panel's buttons.
#[derive(Clone, Copy, Debug, PartialEq, Eq, Structural)]
pub enum PanelButton {
    /// The button that starts the download or the game.
    Primary,
    /// The button that opens the instance's folder.
    Open,
    /// The button that removes the instance.
    Delete,
    /// The button that closes the panel.
    Close,
}

/// What the caller is to do after a press.
#[derive(Debug, PartialEq, Eq)]
pub enum PanelAction {
    Nothing,
    /// Start one worker that fetches this version and reports its progress.
    StartDownload { version_id: String },
    /// Start the game of the selected instance.
    Launch,
    /// Show this folder in the file manager.
    OpenFolder { path: String },
    /// Delete the folder of the instance of this name, and store the settings.
    RemoveFolder { name: String },
}

/// What a [`PanelAction`] stands for.
pub enum ActionView {
    Nothing,
    StartDownload { version_id: Seq<char> },
    Launch,
    OpenFolder { path: Seq<char> },
    RemoveFolder { name: Seq<char> },
}

impl View for PanelAction {
    type V = ActionView;

    open spec fn view(&self) -> ActionView {
        match *self {
            PanelAction::Nothing => ActionView::Nothing,
            PanelAction::StartDownload { version_id } => ActionView::StartDownload {
                version_id: version_id@,
            },
            PanelAction::Launch => ActionView::Launch,
            PanelAction::OpenFolder { path } => ActionView::OpenFolder { path: path@ },
            PanelAction::RemoveFolder { name } => ActionView::RemoveFolder { name: name@ },
        }
    }
}

/// The panel after one message of the worker was seen. The opening message
/// records the size; an announcement fills the button; the closing message
/// marks the instance as downloaded and no longer downloading, and turns the
/// button into the one that starts the game. Without a selected instance
/// nothing changes.
pub open spec fn after_message(p: PanelView, m: DownloadProgressMessage) -> PanelView {
    match p.selected {
        None => p,
        Some(i) => match m {
            DownloadProgressMessage::Setup(total) => PanelView {
                seen_done: 0,
                seen_total: total,
                ..p
            },
            DownloadProgressMessage::Update(done, total) => PanelView {
                button: ButtonView { text: "Downloading..."@, filled: done, full: total },
                seen_done: done,
                seen_total: total,
                ..p
            },
            DownloadProgressMessage::End => PanelView {
                selected: Some(InstanceView { downloading: false, downloaded: true, ..i }),
                button: launch_button(),
                ..p
            },
        },
    }
}

/// The notification that a message of the worker brings up, if any.
pub open spec fn toast_for(p: PanelView, m: DownloadProgressMessage) -> Option<ToastView> {
    match p.selected {
        None => None,
        Some(i) => match m {
            DownloadProgressMessage::Setup(_) => Some(
                ToastView {
                    kind: OpenMCToastKind::Info,
                    title: "Instance"@,
                    desc: "Downloading resources for instance: "@ + i.name,
                },
            ),
            DownloadProgressMessage::Update(_, _) => None,
            DownloadProgressMessage::End => Some(
                ToastView {
                    kind: OpenMCToastKind::Info,
                    title: "Instance"@,
                    desc: "Resources for instance are Downloaded: "@ + i.name,
                },
            ),
        },
    }
}

/// The panel after the messages were seen one after the other.
pub open spec fn after_messages(p: PanelView, msgs: Seq<DownloadProgressMessage>) -> PanelView
    decreases msgs.len(),
{
    if msgs.len() == 0 {
        p
    } else {
        after_message(after_messages(p, msgs.drop_last()), msgs.last())
    }
}

/// The notifications that the messages bring up, in order.
pub open spec fn toasts_for(p: PanelView, msgs: Seq<DownloadProgressMessage>) -> Seq<ToastView>
    decreases msgs.len(),
{
    if msgs.len() == 0 {
        Seq::<ToastView>::empty()
    } else {
        let before = toasts_for(p, msgs.drop_last());
        match toast_for(after_messages(p, msgs.drop_last()), msgs.last()) {
            Some(t) => before.push(t),
            None => before,
        }
    }
}

/// Whether the panel listens to the progress channel: an instance is selected
/// and its download is under way.
pub open spec fn listening(p: PanelView) -> bool {
    p.selected is Some && p.selected->Some_0.downloading
}

/// The panel after one frame in which the messages were found on the channel.
/// The button of an instance that is not downloaded invites to download it;
/// a listening panel then sees the messages; and the button of an instance
/// that is downloaded by then invites to start the game.
pub open spec fn polled(p: PanelView, msgs: Seq<DownloadProgressMessage>) -> PanelView {
    let invited = if p.selected is Some && !p.selected->Some_0.downloaded {
        PanelView { button: ButtonView { text: "Start Download"@, ..p.button }, ..p }
    } else {
        p
    };
    let heard = if listening(p) {
        after_messages(invited, msgs)
    } else {
        invited
    };
    if heard.selected is Some && heard.selected->Some_0.downloaded {
        PanelView { button: launch_button(), ..heard }
    } else {
        heard
    }
}

/// The notifications of one frame.
pub open spec fn polled_toasts(p: PanelView, msgs: Seq<DownloadProgressMessage>) -> Seq<
    ToastView,
> {
    if listening(p) {
        toasts_for(p, msgs)
    } else {
        Seq::<ToastView>::empty()
    }
}

/// Whether a press of the primary button finds what it needs: an instance
/// that can be downloaded or started has a version.
pub open spec fn can_press(p: PanelView) -> bool {
    p.selected is Some && !p.selected->Some_0.downloading ==> p.selected->Some_0.version is Some
}

/// The panel after a press of the primary button. Only an instance that is
/// neither downloaded nor downloading changes: its download is under way from
/// then on.
pub open spec fn pressed(p: PanelView) -> PanelView {
    match p.selected {
        Some(i) if !i.downloaded && !i.downloading => PanelView {
            selected: Some(InstanceView { downloading: true, ..i }),
            button: ButtonView { text: "Downloading..."@, ..p.button },
            ..p
        },
        _ => p,
    }
}

/// What the caller is to do after a press of the primary button: start the
/// download of an instance that is neither downloaded nor downloading, start
/// the game of one that is downloaded, and nothing while a download is under
/// way.
pub open spec fn press_action(p: PanelView) -> ActionView {
    match p.selected {
        Some(i) if !i.downloading && i.version is Some => if i.downloaded {
            ActionView::Launch
        } else {
            ActionView::StartDownload { version_id: i.version->Some_0.id }
        },
        _ => ActionView::Nothing,
    }
}

/// Whether the instance can be removed or the panel closed: an instance is
/// selected and no download is under way.
pub open spec fn idle(p: PanelView) -> bool {
    p.selected is Some && !p.selected->Some_0.downloading
}

/// The settings after the instance's working copy was written back.
pub open spec fn written_back(s: SettingsView, p: PanelView) -> SettingsView {
    match p.selected {
        Some(i) => SettingsView { instances: replaced(s.instances, i), ..s },
        None => s,
    }
}

/// The settings after a press of the button that removes the instance: the
/// first instance of the selected name is gone, and what is left under that
/// name, if anything, is a copy of what was selected.
pub open spec fn deleted(s: SettingsView, p: PanelView) -> SettingsView {
    if idle(p) {
        written_back(removed(s, p.selected->Some_0.name), p)
    } else {
        s
    }
}

/// What there is to start the game with.
#[derive(Debug, PartialEq, Eq)]
pub struct LaunchParams {
    pub access_token: String,
    pub game_dir: String,
    pub java_path: String,
    pub username: String,
    pub uuid: String,
    pub version_id: String,
    pub version_type: String,
}

/// What a [`LaunchParams`] stands for.
pub struct LaunchView {
    pub access_token: Seq<char>,
    pub game_dir: Seq<char>,
    pub java_path: Seq<char>,
    pub username: Seq<char>,
    pub uuid: Seq<char>,
    pub version_id: Seq<char>,
    pub version_type: Seq<char>,
}

impl View for LaunchParams {
    type V = LaunchView;

    open spec fn view(&self) -> LaunchView {
        LaunchView {
            access_token: self.access_token@,
            game_dir: self.game_dir@,
            java_path: self.java_path@,
            username: self.username@,
            uuid: self.uuid@,
            version_id: self.version_id@,
            version_type: self.version_type@,
        }
    }
}

/// The Java runtime that starts the game.
pub open spec fn java_runtime() -> Seq<char> {
    "/usr/lib/jvm/java-8-openjdk/bin/java"@
}

/// Whether an instance can be started: it is downloaded and has a version.
pub open spec fn launchable(i: InstanceView) -> bool {
    i.downloaded && i.version is Some
}

/// Puts together what the game of a downloaded instance is started with: the
/// session's credentials and name, the data folder, the Java runtime, and the
/// id and channel of the instance's version.
pub fn launch_instance(instance: &LauncherInstance, cfg: &LauncherSettings, data_root: &str) -> (r:
    LaunchParams)
    requires
        launchable(instance@),
    ensures
        r@ == (LaunchView {
            access_token: cfg@.session.access_token,
            game_dir: data_root@,
            java_path: java_runtime(),
            username: cfg@.session.name,
            uuid: cfg@.session.uuid,
            version_id: instance@.version->Some_0.id,
            version_type: kind_word(instance@.version->Some_0.kind),
        }),
{
    let v = instance.version.as_ref().unwrap();
    LaunchParams {
        access_token: cfg.session.access_token.clone(),
        game_dir: String::from_str(data_root),
        java_path: String::from_str("/usr/lib/jvm/java-8-openjdk/bin/java"),
        username: cfg.session.name.clone(),
        uuid: cfg.session.uuid.clone(),
        version_id: v.get_version_id(),
        version_type: v.get_version_type(),
    }
}

/// The same as [`launch_instance`] for any instance: nothing where the
/// instance cannot be started.
pub fn try_launch_instance(
    instance: &LauncherInstance,
    cfg: &LauncherSettings,
    data_root: &str,
) -> (r: Option<LaunchParams>)
    ensures
        r is Some == launchable(instance@),
        r is Some ==> r->Some_0@ == (LaunchView {
            access_token: cfg@.session.access_token,
            game_dir: data_root@,
            java_path: java_runtime(),
            username: cfg@.session.name,
            uuid: cfg@.session.uuid,
            version_id: instance@.version->Some_0.id,
            version_type: kind_word(instance@.version->Some_0.kind),
        }),
{
    if instance.downloaded && instance.version.is_some() {
        Some(launch_instance(instance, cfg, data_root))
    } else {
        None
    }
}

impl Default for Instances {
    /// A panel without a selected instance, its button inviting to start the game.
    fn default() -> (r: Self)
        ensures
            r@ == (PanelView {
                selected: None,
                button: launch_button(),
                seen_done: 0,
                seen_total: 0,
            }),
    {
        Instances {
            selected: None,
            download_button: ProgressButton { text: String::from_str("Launch"), filled: 0, full: 0 },
            seen_done: 0,
            seen_total: 0,
        }
    }
}

impl Instances {
    /// Whether the panel listens to the progress channel. Only then does the
    /// caller drain the channel.
    pub fn is_listening(&self) -> (r: bool)
        ensures
            r == listening(self@),
    {
        match &self.selected {
            Some(i) => i.downloading,
            None => false,
        }
    }

    /// Whether the list of instances beside the panel takes input: it does
    /// not while the selected instance is downloading.
    pub fn grid_enabled(&self) -> (r: bool)
        ensures
            r == !listening(self@),
    {
        !self.is_listening()
    }

    /// Selects the instance at the given place of the registry and empties
    /// the button. Nothing is selected while the list takes no input, nor at
    /// a place beyond the registry's end. Says whether an instance was
    /// selected.
    pub fn select(&mut self, cfg: &LauncherSettings, index: usize) -> (r: bool)
        ensures
            r == (!listening(old(self)@) && index < cfg@.instances.len()),
            final(self)@ == if r {
                PanelView {
                    selected: Some(cfg@.instances[index as int]),
                    button: ButtonView { filled: 0, full: 0, ..old(self)@.button },
                    ..old(self)@
                }
            } else {
                old(self)@
            },
    {
        if self.grid_enabled() && index < cfg.instances.len() {
            self.selected = Some(cfg.instances[index].clone());
            self.download_button.reset_progress();
            true
        } else {
            false
        }
    }

    /// Sees one message of the worker and returns the notification that it
    /// brings up.
    pub fn observe(&mut self, msg: DownloadProgressMessage) -> (r: Option<Toast>)
        ensures
            final(self)@ == after_message(old(self)@, msg),
            optional_toast_view(r) == toast_for(old(self)@, msg),
    {
        let mut instance = match &self.selected {
            None => {
                return None;
            },
            Some(i) => i.clone(),
        };
        match msg {
            DownloadProgressMessage::Setup(total) => {
                self.seen_done = 0;
                self.seen_total = total;
                Some(
                    Toast {
                        kind: OpenMCToastKind::Info,
                        title: String::from_str("Instance"),
                        desc: String::from_str("Downloading resources for instance: ").concat(
                            instance.name.as_str(),
                        ),
                    },
                )
            },
            DownloadProgressMessage::Update(done, total) => {
                self.download_button.calcule_progress(done, total);
                self.download_button.set_text("Downloading...");
                self.seen_done = done;
                self.seen_total = total;
                None
            },
            DownloadProgressMessage::End => {
                let toast = Toast {
                    kind: OpenMCToastKind::Info,
                    title: String::from_str("Instance"),
                    desc: String::from_str("Resources for instance are Downloaded: ").concat(
                        instance.name.as_str(),
                    ),
                };
                instance.downloading = false;
                instance.downloaded = true;
                self.selected = Some(instance);
                self.download_button.reset_progress();
                self.download_button.set_text("Launch");
                Some(toast)
            },
        }
    }

    /// Runs one frame of the panel on the messages that were found on the
    /// progress channel, and returns the notifications that they bring up. A
    /// panel that does not listen leaves the messages unseen.
    pub fn poll(&mut self, msgs: &Vec<DownloadProgressMessage>) -> (r: Vec<Toast>)
        ensures
            final(self)@ == polled(old(self)@, msgs@),
            toast_views(r@) == polled_toasts(old(self)@, msgs@),
    {
        let mut toasts: Vec<Toast> = Vec::new();
        let was_listening = self.is_listening();
        let invite = match &self.selected {
            Some(i) => !i.downloaded,
            None => false,
        };
        if invite {
            self.download_button.set_text("Start Download");
        }
        let ghost invited = self@;
        if was_listening {
            let mut k: usize = 0;
            while k < msgs.len()
                invariant
                    k <= msgs.len(),
                    self@ == after_messages(invited, msgs@.subrange(0, k as int)),
                    toast_views(toasts@) == toasts_for(invited, msgs@.subrange(0, k as int)),
                decreases msgs.len() - k,
            {
                let ghost seen = msgs@.subrange(0, k as int);
                let ghost more = msgs@.subrange(0, k + 1);
                assert(more.drop_last() =~= seen);
                match self.observe(msgs[k]) {
                    Some(t) => {
                        toasts.push(t);
                    },
                    None => {},
                }
                k += 1;
            }
            assert(msgs@.subrange(0, msgs@.len() as int) =~= msgs@);
            proof {
                lemma_toasts_ignore_button(old(self)@, invited, msgs@);
            }
        }
        let relabel = match &self.selected {
            Some(i) => i.downloaded,
            None => false,
        };
        if relabel {
            self.download_button.reset_progress();
            self.download_button.set_text("Launch");
        }
        toasts
    }

    /// Whether a press of the primary button finds what it needs.
    pub fn can_press(&self) -> (r: bool)
        ensures
            r == can_press(self@),
    {
        match &self.selected {
            Some(i) => i.downloading || i.version.is_some(),
            None => true,
        }
    }

    /// Takes a press of the primary button and returns what the caller is to
    /// do: for an instance that is neither downloaded nor downloading, start
    /// the worker, and the download counts as under way from now on; for a
    /// downloaded instance, start the game.
    pub fn press(&mut self) -> (r: PanelAction)
        requires
            can_press(old(self)@),
        ensures
            final(self)@ == pressed(old(self)@),
            r@ == press_action(old(self)@),
    {
        let mut instance = match &self.selected {
            None => {
                return PanelAction::Nothing;
            },
            Some(i) => i.clone(),
        };
        if instance.downloading {
            return PanelAction::Nothing;
        }
        if instance.downloaded {
            return PanelAction::Launch;
        }
        let version_id = instance.version.as_ref().unwrap().get_version_id();
        instance.downloading = true;
        self.selected = Some(instance);
        self.download_button.set_text("Downloading...");
        PanelAction::StartDownload { version_id }
    }

    /// Takes a press of the primary button where that is possible, and does
    /// nothing where the selected instance has no version.
    pub fn try_press(&mut self) -> (r: Option<PanelAction>)
        ensures
            r is Some == can_press(old(self)@),
            r is Some ==> final(self)@ == pressed(old(self)@) && r->Some_0@ == press_action(
                old(self)@,
            ),
            r is None ==> final(self)@ == old(self)@,
    {
        if self.can_press() {
            Some(self.press())
        } else {
            None
        }
    }

    /// Writes the working copy of the selected instance back into the registry.
    pub fn write_back(&self, cfg: &mut LauncherSettings)
        ensures
            final(cfg)@ == written_back(old(cfg)@, self@),
    {
        match &self.selected {
            Some(i) => {
                cfg.update_instance(i);
            },
            None => {},
        }
    }

    /// Takes a press of the button that removes the instance. While a
    /// download is under way, or without a selected instance, nothing
    /// happens. Otherwise the panel closes, the instance leaves the registry,
    /// and the caller is told to delete its folder if it was registered.
    pub fn delete(&mut self, cfg: &mut LauncherSettings) -> (r: PanelAction)
        ensures
            final(cfg)@ == deleted(old(cfg)@, old(self)@),
            final(self)@ == if idle(old(self)@) {
                PanelView { selected: None, ..old(self)@ }
            } else {
                old(self)@
            },
            r@ == if idle(old(self)@) && has_name(
                old(cfg)@.instances,
                old(self)@.selected->Some_0.name,
            ) {
                ActionView::RemoveFolder { name: old(self)@.selected->Some_0.name }
            } else {
                ActionView::Nothing
            },
    {
        let instance = match &self.selected {
            Some(i) => {
                if i.downloading {
                    return PanelAction::Nothing;
                }
                i.clone()
            },
            None => {
                return PanelAction::Nothing;
            },
        };
        self.selected = None;
        let was_there = cfg.remove_instance(instance.name.as_str());
        cfg.update_instance(&instance);
        if was_there {
            PanelAction::RemoveFolder { name: instance.name }
        } else {
            PanelAction::Nothing
        }
    }

    /// Takes a press of the button that closes the panel: the selection is
    /// dropped unless its download is under way.
    pub fn close(&mut self)
        ensures
            final(self)@ == if idle(old(self)@) {
                PanelView { selected: None, ..old(self)@ }
            } else {
                old(self)@
            },
    {
        let busy = match &self.selected {
            Some(i) => i.downloading,
            None => true,
        };
        if !busy {
            self.selected = None;
        }
    }
}

/// The notifications that messages bring up do not depend on the button.
pub proof fn lemma_toasts_ignore_button(
    p: PanelView,
    q: PanelView,
    msgs: Seq<DownloadProgressMessage>,
)
    requires
        q.selected == p.selected,
    ensures
        after_messages(q, msgs).selected == after_messages(p, msgs).selected,
        toasts_for(q, msgs) == toasts_for(p, msgs),
    decreases msgs.len(),
{
    if msgs.len() > 0 {
        lemma_toasts_ignore_button(p, q, msgs.drop_last());
    }
}

/// The panel after a press of one of its buttons, or of none.
pub open spec fn after_button(p: PanelView, button: Option<PanelButton>) -> PanelView {
    match button {
        Some(PanelButton::Primary) => if can_press(p) {
            pressed(p)
        } else {
            p
        },
        Some(PanelButton::Delete) | Some(PanelButton::Close) => if idle(p) {
            PanelView { selected: None, ..p }
        } else {
            p
        },
        _ => p,
    }
}

/// What the caller is to do after a press of one of the buttons, or of none,
/// on a panel beside the settings `s`.
pub open spec fn button_action(
    p: PanelView,
    s: SettingsView,
    button: Option<PanelButton>,
) -> ActionView {
    match button {
        Some(PanelButton::Primary) => if can_press(p) {
            press_action(p)
        } else {
            ActionView::Nothing
        },
        Some(PanelButton::Open) => match p.selected {
            Some(i) => ActionView::OpenFolder { path: i.path },
            None => ActionView::Nothing,
        },
        Some(PanelButton::Delete) => if idle(p) && has_name(
            s.instances,
            p.selected->Some_0.name,
        ) {
            ActionView::RemoveFolder { name: p.selected->Some_0.name }
        } else {
            ActionView::Nothing
        },
        _ => ActionView::Nothing,
    }
}

/// The settings after a press of one of the buttons, or of none: the
/// instance leaves the registry where it was removed, and the working copy is
/// written back, as it was before the panel closed where it did.
pub open spec fn settings_after_button(
    s: SettingsView,
    p: PanelView,
    button: Option<PanelButton>,
) -> SettingsView {
    match button {
        Some(PanelButton::Delete) => if idle(p) {
            deleted(s, p)
        } else {
            written_back(s, p)
        },
        Some(PanelButton::Primary) => written_back(s, after_button(p, button)),
        _ => written_back(s, p),
    }
}

impl Instances {
    /// Runs one frame of the panel: sees the messages found on the progress
    /// channel, takes the press of a button if there was one, and writes the
    /// working copy of the instance back into the registry. Returns the
    /// notifications to show and what the caller is to do. A press of the
    /// primary button on an instance without a version does nothing.
    pub fn action_buttons(
        &mut self,
        cfg: &mut LauncherSettings,
        msgs: &Vec<DownloadProgressMessage>,
        button: Option<PanelButton>,
    ) -> (r: (Vec<Toast>, PanelAction))
        ensures
            final(self)@ == after_button(polled(old(self)@, msgs@), button),
            final(cfg)@ == settings_after_button(old(cfg)@, polled(old(self)@, msgs@), button),
            toast_views(r.0@) == polled_toasts(old(self)@, msgs@),
            r.1@ == button_action(polled(old(self)@, msgs@), old(cfg)@, button),
    {
        let toasts = self.poll(msgs);
        let action = match button {
            Some(PanelButton::Primary) => {
                let a = match self.try_press() {
                    Some(a) => a,
                    None => PanelAction::Nothing,
                };
                self.write_back(cfg);
                a
            },
            Some(PanelButton::Open) => {
                self.write_back(cfg);
                match &self.selected {
                    Some(i) => PanelAction::OpenFolder { path: i.path.clone() },
                    None => PanelAction::Nothing,
                }
            },
            Some(PanelButton::Delete) => {
                if self.is_listening() || self.selected.is_none() {
                    self.write_back(cfg);
                    PanelAction::Nothing
                } else {
                    self.delete(cfg)
                }
            },
            Some(PanelButton::Close) => {
                self.write_back(cfg);
                self.close();
                PanelAction::Nothing
            },
            None => {
                self.write_back(cfg);
                PanelAction::Nothing
            },
        };
        (toasts, action)
    }
}

/// Seeing messages changes nothing of the selected instance but its two
/// flags, and those only if the closing message is among them: the instance is
/// then downloaded and no download is under way.
pub proof fn lemma_after_messages_selected(p: PanelView, msgs: Seq<DownloadProgressMessage>)
    requires
        p.selected is Some,
    ensures
        after_messages(p, msgs).selected == Some(
            if msgs.contains(DownloadProgressMessage::End) {
                InstanceView { downloaded: true, downloading: false, ..p.selected->Some_0 }
            } else {
                p.selected->Some_0
            },
        ),
    decreases msgs.len(),
{
    if msgs.len() > 0 {
        let init = msgs.drop_last();
        lemma_after_messages_selected(p, init);
        if msgs.contains(DownloadProgressMessage::End) {
            let k = choose|k: int| 0 <= k < msgs.len() && msgs[k] == DownloadProgressMessage::End;
            if k < msgs.len() - 1 {
                assert(init[k] == DownloadProgressMessage::End);
            }
        }
    }
}

/// An instance that is not downloaded comes out of a frame as downloaded only
/// if its download was under way when the frame began and the closing message
/// was among those seen. A press of a button never marks it so.
pub proof fn lemma_downloaded_only_after_end(
    p: PanelView,
    msgs: Seq<DownloadProgressMessage>,
    button: Option<PanelButton>,
)
    requires
        p.selected is Some,
        !p.selected->Some_0.downloaded,
    ensures
        polled(p, msgs).selected is Some,
        polled(p, msgs).selected->Some_0.downloaded <==> listening(p) && msgs.contains(
            DownloadProgressMessage::End,
        ),
        after_button(polled(p, msgs), button).selected is Some ==> (after_button(
            polled(p, msgs),
            button,
        ).selected->Some_0.downloaded <==> listening(p) && msgs.contains(
            DownloadProgressMessage::End,
        )),
{
    let invited = PanelView { button: ButtonView { text: "Start Download"@, ..p.button }, ..p };
    lemma_after_messages_selected(invited, msgs);
}

/// The closing message ends the download: whatever was seen before it, the
/// instance is then downloaded and no download is under way.
pub proof fn lemma_end_completes(p: PanelView)
    requires
        p.selected is Some,
    ensures
        after_message(p, DownloadProgressMessage::End).selected is Some,
        download_state(
            after_message(p, DownloadProgressMessage::End).selected->Some_0,
        ) == DownloadState::Downloaded,
{
}

/// A panel that listens while it sees all of a completed download ends with
/// its instance downloaded and no download under way, and with nothing else
/// of the instance changed.
pub proof fn lemma_complete_trace_downloads(p: PanelView, msgs: Seq<DownloadProgressMessage>)
    requires
        listening(p),
        complete_trace(msgs),
    ensures
        polled(p, msgs).selected == Some(
            InstanceView { downloaded: true, downloading: false, ..p.selected->Some_0 },
        ),
        download_state(polled(p, msgs).selected->Some_0)
            == DownloadState::Downloaded,
        polled(p, msgs).button == launch_button(),
{
    let invited = if !p.selected->Some_0.downloaded {
        PanelView { button: ButtonView { text: "Start Download"@, ..p.button }, ..p }
    } else {
        p
    };
    lemma_after_messages_selected(invited, msgs);
}

/// The three states follow one another in one direction only. A press of the
/// primary button takes an instance that is not downloaded into its
/// download and leaves every other instance in its state; messages leave the
/// state of an instance alone unless its download is under way.
pub proof fn lemma_state_transitions(p: PanelView, msgs: Seq<DownloadProgressMessage>)
    requires
        p.selected is Some,
    ensures
        download_state(pressed(p).selected->Some_0) == if
            download_state(p.selected->Some_0)
            == DownloadState::NotDownloaded {
            DownloadState::Downloading
        } else {
            download_state(p.selected->Some_0)
        },
        !listening(p) ==> polled(p, msgs).selected == p.selected,
{
}

/// What a listening panel has seen of a completed download after the first
/// `k` messages: the size that the opening message gave, and the total that
/// the last announcement so far gave, or nothing before the first one.
pub proof fn lemma_seen_progress(p: PanelView, msgs: Seq<DownloadProgressMessage>, k: int)
    requires
        p.selected is Some,
        complete_trace(msgs),
        1 <= k <= msgs.len(),
    ensures
        after_messages(p, msgs.take(k)).seen_total == msgs[0]->Setup_0,
        k == 1 ==> after_messages(p, msgs.take(k)).seen_done == 0,
        1 < k < msgs.len() ==> after_messages(p, msgs.take(k)).seen_done == announced(msgs[k - 1]),
        1 < k == msgs.len() ==> after_messages(p, msgs.take(k)).seen_done == after_messages(
            p,
            msgs.take(k - 1),
        ).seen_done,
    decreases k,
{
    let now = msgs.take(k);
    assert(now.drop_last() =~= msgs.take(k - 1));
    lemma_after_messages_selected(p, msgs.take(k - 1));
    if k > 1 {
        lemma_seen_progress(p, msgs, k - 1);
    }
}

/// While a listening panel sees a completed download, the fraction that it
/// has seen never goes back and never passes the whole.
pub proof fn lemma_seen_fraction_grows(
    p: PanelView,
    msgs: Seq<DownloadProgressMessage>,
    j: int,
    k: int,
)
    requires
        p.selected is Some,
        complete_trace(msgs),
        1 <= j <= k <= msgs.len(),
    ensures
        per_mille(
            after_messages(p, msgs.take(j)).seen_done,
            after_messages(p, msgs.take(j)).seen_total,
        ) <= per_mille(
            after_messages(p, msgs.take(k)).seen_done,
            after_messages(p, msgs.take(k)).seen_total,
        ) <= 1000,
{
    let total = msgs[0]->Setup_0;
    let last = msgs.len() - 1;
    let jj = if j == msgs.len() {
        last
    } else {
        j
    };
    let kk = if k == msgs.len() {
        last
    } else {
        k
    };
    lemma_seen_progress(p, msgs, j);
    lemma_seen_progress(p, msgs, k);
    lemma_seen_progress(p, msgs, jj);
    lemma_seen_progress(p, msgs, kk);
    let a = after_messages(p, msgs.take(j)).seen_done;
    let b = after_messages(p, msgs.take(k)).seen_done;
    if total > 0 {
        assert(a * 1000 / (total as int) <= b * 1000 / (total as int) <= 1000) by (nonlinear_arith)
            requires
                0 <= a <= b <= total,
                total > 0,
        ;
    }
}

/// Whatever the chunks, as long as together they do not pass the size given
/// at the opening: a panel that listens while it sees all that the worker
/// sends for one download ends with its instance downloaded.
pub proof fn lemma_download_completes(p: PanelView, total: u64, chunks: Seq<u64>)
    requires
        listening(p),
        chunk_sum(chunks) <= total,
    ensures
        download_state(polled(p, worker_trace(total, chunks)).selected->Some_0)
            == DownloadState::Downloaded,
{
    lemma_worker_trace_complete(total, chunks);
    lemma_complete_trace_downloads(p, worker_trace(total, chunks));
}

} // verus!
