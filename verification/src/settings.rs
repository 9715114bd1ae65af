//! The launcher's settings and, within them, the registry of instances.

use vstd::prelude::*;
use crate::args::{OpenMCArgs, OpenMCommands};
use crate::instance::{
    instance_views, optional_instance_view, stored, InstanceView, LauncherInstance,
};
use crate::session::{drawn_session, logged, unset_word, SessionView, UserSession};
use crate::text::same_text;
use crate::theme::{ThemeType, ThemeView};

verus! {

/// All that the launcher keeps between runs, and one flag that it does not.
#[derive(Debug, PartialEq, Eq)]
pub struct LauncherSettings {
    pub theme: ThemeType,
    pub session: UserSession,
    /// The instance that the play button starts.
    pub last_launched: Option<LauncherInstance>,
    pub instances: Vec<LauncherInstance>,
    /// Whether the stock icons are on disk. Never stored.
    pub exists_icons: bool,
}

/// What a [`LauncherSettings`] stands for.
pub struct SettingsView {
    pub theme: ThemeView,
    pub session: SessionView,
    pub last_launched: Option<InstanceView>,
    pub instances: Seq<InstanceView>,
    pub exists_icons: bool,
}

impl View for LauncherSettings {
    type V = SettingsView;

    open spec fn view(&self) -> SettingsView {
        SettingsView {
            theme: self.theme@,
            session: self.session@,
            last_launched: optional_instance_view(self.last_launched),
            instances: instance_views(self.instances@),
            exists_icons: self.exists_icons,
        }
    }
}

/// How the launcher goes on after it has read its settings and its command line.
#[derive(Debug, PartialEq, Eq)]
pub enum Startup {
    /// Print the message and leave with the code.
    Exit { code: i32, message: String },
    /// Open the window on these settings.
    Run(LauncherSettings),
}

/// Whether `i` is the place of the first instance of that name in the list.
pub open spec fn is_first(list: Seq<InstanceView>, name: Seq<char>, i: int) -> bool {
    &&& 0 <= i < list.len()
    &&& list[i].name == name
    &&& forall|k: int| 0 <= k < i ==> (#[trigger] list[k]).name != name
}

/// Whether the list holds an instance of that name. Names are compared
/// character by character, so two names that differ only in case are two names.
pub open spec fn has_name(list: Seq<InstanceView>, name: Seq<char>) -> bool {
    exists|i: int| 0 <= i < list.len() && (#[trigger] list[i]).name == name
}

/// The place of the first instance of that name, where there is one.
pub open spec fn first_index(list: Seq<InstanceView>, name: Seq<char>) -> int {
    choose|i: int| is_first(list, name, i)
}

/// The first instance of that name, if there is one.
pub open spec fn found(list: Seq<InstanceView>, name: Seq<char>) -> Option<InstanceView> {
    if has_name(list, name) {
        Some(list[first_index(list, name)])
    } else {
        None
    }
}

/// Whether no two instances of the list share a name.
pub open spec fn names_distinct(list: Seq<InstanceView>) -> bool {
    forall|i: int, j: int|
        0 <= i < j < list.len() ==> (#[trigger] list[i]).name != (#[trigger] list[j]).name
}

/// The instance as the registry holds it: with its folder filled in.
pub open spec fn registered(i: InstanceView, path: Seq<char>) -> InstanceView {
    InstanceView { path, ..i }
}

/// The settings after an instance was added under the given folder: the
/// instance comes last in the list, and the play button starts it if the list
/// was empty or the button started nothing.
pub open spec fn added(s: SettingsView, i: InstanceView, path: Seq<char>) -> SettingsView {
    SettingsView {
        instances: s.instances.push(registered(i, path)),
        last_launched: if s.instances.len() == 0 || s.last_launched is None {
            Some(registered(i, path))
        } else {
            s.last_launched
        },
        ..s
    }
}

/// The settings after the first instance of that name was removed. The play
/// button then starts nothing, whichever instance it started before. Without
/// an instance of that name the settings stay as they are.
pub open spec fn removed(s: SettingsView, name: Seq<char>) -> SettingsView {
    if has_name(s.instances, name) {
        SettingsView {
            instances: s.instances.remove(first_index(s.instances, name)),
            last_launched: None,
            ..s
        }
    } else {
        s
    }
}

/// The list in which every instance that bears the name of `i` is replaced by `i`.
pub open spec fn replaced(list: Seq<InstanceView>, i: InstanceView) -> Seq<InstanceView> {
    Seq::new(
        list.len(),
        |k: int|
            if list[k].name == i.name {
                i
            } else {
                list[k]
            },
    )
}

/// The settings as they are read back after they were stored: no download is
/// under way, and nothing is known of the stock icons.
pub open spec fn stored_settings(s: SettingsView) -> SettingsView {
    SettingsView {
        last_launched: match s.last_launched {
            Some(i) => Some(stored(i)),
            None => None,
        },
        instances: Seq::new(s.instances.len(), |k: int| stored(s.instances[k])),
        exists_icons: false,
        ..s
    }
}

/// The folder of an instance, below the launcher's data folder.
pub open spec fn folder_of(name: Seq<char>) -> Seq<char> {
    "instances/"@ + name
}

/// The line that is printed when the command line asks for an instance.
pub open spec fn launch_message(list: Seq<InstanceView>, name: Seq<char>) -> Seq<char> {
    if has_name(list, name) {
        "Launching Instance '"@ + name + "'"@
    } else {
        "Instance '"@ + name + "' not exists"@
    }
}

/// How the launcher goes on from the settings it read, what the command line
/// holds, and the number of entries of the stock icons' folder (none where
/// that folder is missing).
pub open spec fn startup_of(
    loaded: SettingsView,
    opts: OpenMCArgs,
    icon_entries: Option<usize>,
) -> StartupView {
    match opts.command {
        Some(OpenMCommands::Launch { instance }) => StartupView::Exit {
            code: if has_name(loaded.instances, instance@) {
                0
            } else {
                1
            },
            message: launch_message(loaded.instances, instance@),
        },
        None => StartupView::Run(
            SettingsView {
                exists_icons: icon_entries is Some && icon_entries->Some_0 > 1,
                theme: match opts.theme {
                    Some(t) => t@,
                    None => loaded.theme,
                },
                ..loaded
            },
        ),
    }
}

/// What a [`Startup`] stands for.
pub enum StartupView {
    Exit { code: int, message: Seq<char> },
    Run(SettingsView),
}

impl View for Startup {
    type V = StartupView;

    open spec fn view(&self) -> StartupView {
        match *self {
            Startup::Exit { code, message } => StartupView::Exit {
                code: code as int,
                message: message@,
            },
            Startup::Run(s) => StartupView::Run(s@),
        }
    }
}

/// The first place of a name is the only one that [`is_first`] accepts.
pub proof fn lemma_first_index(list: Seq<InstanceView>, name: Seq<char>, i: int)
    requires
        is_first(list, name, i),
    ensures
        has_name(list, name),
        first_index(list, name) == i,
{
}

/// A list that holds a name has a first place for it.
pub proof fn lemma_has_first(list: Seq<InstanceView>, name: Seq<char>)
    requires
        has_name(list, name),
    ensures
        is_first(list, name, first_index(list, name)),
{
    let w = choose|i: int| 0 <= i < list.len() && (#[trigger] list[i]).name == name;
    lemma_first_below(list, name, w);
}

/// Below any place that holds the name there is a first place that holds it.
proof fn lemma_first_below(list: Seq<InstanceView>, name: Seq<char>, w: int)
    requires
        0 <= w < list.len(),
        list[w].name == name,
    ensures
        exists|i: int| is_first(list, name, i),
    decreases w,
{
    if exists|k: int| 0 <= k < w && (#[trigger] list[k]).name == name {
        let k = choose|k: int| 0 <= k < w && (#[trigger] list[k]).name == name;
        lemma_first_below(list, name, k);
    } else {
        assert(is_first(list, name, w));
    }
}

impl Clone for LauncherSettings {
    fn clone(&self) -> (r: Self)
        ensures
            r@ == self@,
    {
        let mut instances: Vec<LauncherInstance> = Vec::new();
        let mut i: usize = 0;
        while i < self.instances.len()
            invariant
                i <= self.instances.len(),
                instances@ == self.instances@.subrange(0, i as int),
            decreases self.instances.len() - i,
        {
            instances.push(self.instances[i].clone());
            i += 1;
        }
        assert(instances@ =~= self.instances@);
        LauncherSettings {
            theme: self.theme.clone(),
            session: self.session.clone(),
            last_launched: match &self.last_launched {
                Some(l) => Some(l.clone()),
                None => None,
            },
            instances,
            exists_icons: self.exists_icons,
        }
    }
}

impl Default for LauncherSettings {
    /// The settings of a fresh installation: the light theme, an
    /// unauthenticated session under a randomly drawn name, no instance.
    fn default() -> (r: Self)
        ensures
            r@.theme == ThemeView::Light,
            r@.last_launched is None,
            r@.instances.len() == 0,
            !r@.exists_icons,
            drawn_session(r@.session),
            r@.session.name.len() > 0,
            r@.session.uuid == unset_word(),
            r@.session.access_token == unset_word(),
            r@.session.origin.len() == 0,
            !logged(r@.session),
    {
        LauncherSettings {
            theme: ThemeType::Light,
            session: UserSession::default(),
            last_launched: None,
            instances: Vec::new(),
            exists_icons: false,
        }
    }
}

impl LauncherSettings {
    /// Decides how the launcher goes on once the settings are read. A command
    /// to launch an instance ends the run: with code 0 and a line that names
    /// the instance where the registry holds it, with code 1 where it does
    /// not. Without a command the window opens on the settings read, with the
    /// theme of the command line in place of the stored one where one was
    /// given, and with the stock icons counted as present where their folder
    /// holds more than one entry.
    pub fn new(loaded: LauncherSettings, opts: OpenMCArgs, icon_entries: Option<usize>) -> (r:
        Startup)
        ensures
            r@ == startup_of(loaded@, opts, icon_entries),
    {
        let mut cfg = loaded;
        let theme = opts.theme;
        match opts.command {
            Some(OpenMCommands::Launch { instance }) => {
                match cfg.position(instance.as_str()) {
                    Some(_) => Startup::Exit {
                        code: 0,
                        message: String::from_str("Launching Instance '").concat(
                            instance.as_str(),
                        ).concat("'"),
                    },
                    None => Startup::Exit {
                        code: 1,
                        message: String::from_str("Instance '").concat(instance.as_str()).concat(
                            "' not exists",
                        ),
                    },
                }
            },
            None => {
                cfg.exists_icons = match icon_entries {
                    Some(n) => n > 1,
                    None => false,
                };
                match theme {
                    Some(t) => {
                        cfg.theme = t;
                    },
                    None => {},
                }
                Startup::Run(cfg)
            },
        }
    }

    /// The place of the first instance of that name.
    pub fn position(&self, name: &str) -> (r: Option<usize>)
        ensures
            match r {
                Some(i) => is_first(self@.instances, name@, i as int),
                None => !has_name(self@.instances, name@),
            },
    {
        let mut i: usize = 0;
        while i < self.instances.len()
            invariant
                i <= self.instances.len(),
                forall|k: int| 0 <= k < i ==> (#[trigger] self@.instances[k]).name != name@,
            decreases self.instances.len() - i,
        {
            if same_text(self.instances[i].name.as_str(), name) {
                return Some(i);
            }
            i += 1;
        }
        None
    }

    /// Makes the instance of the given name the one that the play button
    /// starts, as the list beside that button does when the user picks a
    /// name. Nothing changes where the button starts nothing, where it starts
    /// an instance of that name already, or where the registry holds no
    /// instance of that name. Says whether the button's instance changed.
    pub fn choose_last_launched(&mut self, name: &str) -> (r: bool)
        ensures
            r == (old(self)@.last_launched is Some && old(self)@.last_launched->Some_0.name
                != name@ && has_name(old(self)@.instances, name@)),
            final(self)@ == if r {
                SettingsView { last_launched: found(old(self)@.instances, name@), ..old(self)@ }
            } else {
                old(self)@
            },
    {
        let differs = match &self.last_launched {
            Some(ins) => !same_text(ins.name.as_str(), name),
            None => false,
        };
        if !differs {
            return false;
        }
        match self.find_instance(name) {
            Some(instance) => {
                self.last_launched = Some(instance);
                true
            },
            None => false,
        }
    }

    /// A copy of the first instance of that name.
    pub fn find_instance(&self, name: &str) -> (r: Option<LauncherInstance>)
        ensures
            optional_instance_view(r) == found(self@.instances, name@),
    {
        match self.position(name) {
            Some(i) => {
                proof {
                    lemma_first_index(self@.instances, name@, i as int);
                }
                Some(self.instances[i].clone())
            },
            None => None,
        }
    }

    /// Registers an instance whose folder was made at `path`, and returns the
    /// folder. A registered instance has its folder filled in, so the path is
    /// not empty.
    pub fn add_instance(&mut self, instance: LauncherInstance, path: String) -> (r: String)
        requires
            path@.len() > 0,
        ensures
            final(self)@ == added(old(self)@, instance@, path@),
            r@ == path@,
            paths_set(old(self)@.instances) ==> paths_set(final(self)@.instances),
    {
        proof {
            if paths_set(self@.instances) {
                lemma_added_keeps_paths(self@, instance@, path@);
            }
        }
        let instance = LauncherInstance {
            name: instance.name,
            path: path.clone(),
            version: instance.version,
            downloaded: instance.downloaded,
            downloading: instance.downloading,
        };
        if self.instances.len() == 0 || self.last_launched.is_none() {
            self.last_launched = Some(instance.clone());
        }
        self.instances.push(instance);
        assert(final(self)@.instances =~= old(self)@.instances.push(instance@));
        path
    }

    /// Registers an instance as [`LauncherSettings::add_instance`] does where
    /// the path is not empty, and returns the folder. With an empty path
    /// nothing is registered and nothing is returned.
    pub fn try_add_instance(&mut self, instance: LauncherInstance, path: String) -> (r: Option<
        String,
    >)
        ensures
            r is Some == (path@.len() > 0),
            r is Some ==> r->Some_0@ == path@ && final(self)@ == added(
                old(self)@,
                instance@,
                path@,
            ),
            r is None ==> final(self)@ == old(self)@,
            paths_set(old(self)@.instances) ==> paths_set(final(self)@.instances),
    {
        if path.as_str().is_empty() {
            None
        } else {
            Some(self.add_instance(instance, path))
        }
    }

    /// Removes the first instance of that name and says whether there was one.
    pub fn remove_instance(&mut self, name: &str) -> (r: bool)
        ensures
            final(self)@ == removed(old(self)@, name@),
            r == has_name(old(self)@.instances, name@),
            paths_set(old(self)@.instances) ==> paths_set(final(self)@.instances),
    {
        proof {
            if paths_set(self@.instances) {
                lemma_removed_keeps_paths(self@, name@);
            }
        }
        match self.position(name) {
            Some(pos) => {
                proof {
                    lemma_first_index(self@.instances, name@, pos as int);
                }
                self.instances.remove(pos);
                self.last_launched = None;
                assert(final(self)@.instances =~= old(self)@.instances.remove(pos as int));
                true
            },
            None => false,
        }
    }

    /// Writes an instance back into the registry: every instance that bears
    /// its name becomes a copy of it.
    pub fn update_instance(&mut self, instance: &LauncherInstance)
        ensures
            final(self)@ == (SettingsView {
                instances: replaced(old(self)@.instances, instance@),
                ..old(self)@
            }),
    {
        let n: usize = self.instances.len();
        let mut i: usize = 0;
        while i < n
            invariant
                i <= n,
                n == self.instances.len(),
                n == old(self).instances.len(),
                self.theme == old(self).theme,
                self.session == old(self).session,
                self.last_launched == old(self).last_launched,
                self.exists_icons == old(self).exists_icons,
                forall|k: int|
                    0 <= k < i ==> (#[trigger] self.instances@[k])@ == replaced(
                        old(self)@.instances,
                        instance@,
                    )[k],
                forall|k: int| i <= k < n ==> self.instances@[k] == old(self).instances@[k],
            decreases n - i,
        {
            if same_text(self.instances[i].name.as_str(), instance.name.as_str()) {
                self.instances.set(i, instance.clone());
            }
            i += 1;
        }
        assert(final(self)@.instances =~= replaced(old(self)@.instances, instance@));
    }

    /// The settings as they are read back after they were stored.
    pub fn persisted(&self) -> (r: Self)
        ensures
            r@ == stored_settings(self@),
    {
        let mut instances: Vec<LauncherInstance> = Vec::new();
        let mut i: usize = 0;
        while i < self.instances.len()
            invariant
                i <= self.instances.len(),
                instances@.len() == i,
                forall|k: int| 0 <= k < i ==> (#[trigger] instances@[k])@ == stored(self.instances@[k]@),
            decreases self.instances.len() - i,
        {
            instances.push(self.instances[i].persisted());
            i += 1;
        }
        let r = LauncherSettings {
            theme: self.theme.clone(),
            session: self.session.clone(),
            last_launched: match &self.last_launched {
                Some(l) => Some(l.persisted()),
                None => None,
            },
            instances,
            exists_icons: false,
        };
        assert(r@.instances =~= stored_settings(self@).instances);
        r
    }
}

/// The folder of an instance of that name, below the launcher's data folder.
pub fn instance_folder(name: &str) -> (r: String)
    ensures
        r@ == folder_of(name@),
{
    String::from_str("instances/").concat(name)
}

/// The folders that an instance of that name needs, below the launcher's data
/// folder: its own folder first, then the four that it holds.
pub fn instance_folders(name: &str) -> (r: Vec<String>)
    ensures
        r@.len() == 5,
        r@[0]@ == folder_of(name@),
        r@[1]@ == folder_of(name@) + "/mods"@,
        r@[2]@ == folder_of(name@) + "/resourcepacks"@,
        r@[3]@ == folder_of(name@) + "/saves"@,
        r@[4]@ == folder_of(name@) + "/shaderpacks"@,
{
    let mut r: Vec<String> = Vec::new();
    r.push(instance_folder(name));
    r.push(instance_folder(name).concat("/mods"));
    r.push(instance_folder(name).concat("/resourcepacks"));
    r.push(instance_folder(name).concat("/saves"));
    r.push(instance_folder(name).concat("/shaderpacks"));
    r
}

/// An instance that was added under a name that the registry did not hold is
/// found under that name, as it was given but with its folder filled in.
pub proof fn lemma_added_is_found(s: SettingsView, i: InstanceView, path: Seq<char>)
    requires
        !has_name(s.instances, i.name),
    ensures
        found(added(s, i, path).instances, i.name) == Some(registered(i, path)),
        registered(i, path).path == path,
        registered(i, path).downloaded == i.downloaded,
{
    let list = added(s, i, path).instances;
    let at = s.instances.len() as int;
    lemma_first_index(list, i.name, at);
}

/// Once an instance was removed from a registry in which no two instances
/// share a name, removing that name again changes nothing.
pub proof fn lemma_remove_twice(s: SettingsView, name: Seq<char>)
    requires
        names_distinct(s.instances),
    ensures
        !has_name(removed(s, name).instances, name),
        removed(removed(s, name), name) == removed(s, name),
{
    if has_name(s.instances, name) {
        lemma_has_first(s.instances, name);
        let at = first_index(s.instances, name);
        let rest = s.instances.remove(at);
        assert forall|k: int| 0 <= k < rest.len() implies (#[trigger] rest[k]).name != name by {}
    }
}

/// Storing the settings and reading them back keeps every instance in its
/// place with its name, folder, version and downloaded flag; only the mark of
/// a download under way is gone. Doing so twice is the same as doing so once.
pub proof fn lemma_stored_roundtrip(s: SettingsView)
    ensures
        stored_settings(s).instances.len() == s.instances.len(),
        forall|k: int|
            0 <= k < s.instances.len() ==> {
                let before = #[trigger] s.instances[k];
                let after = stored_settings(s).instances[k];
                &&& after.name == before.name
                &&& after.path == before.path
                &&& after.version == before.version
                &&& after.downloaded == before.downloaded
                &&& !after.downloading
            },
        stored_settings(stored_settings(s)) == stored_settings(s),
{
    assert(stored_settings(stored_settings(s)).instances =~= stored_settings(s).instances);
}

/// Whether every instance of the list has its folder filled in.
pub open spec fn paths_set(list: Seq<InstanceView>) -> bool {
    forall|k: int| 0 <= k < list.len() ==> (#[trigger] list[k]).path.len() > 0
}

/// A registry in which every instance has its folder filled in stays so when
/// an instance is added under a folder.
pub proof fn lemma_added_keeps_paths(s: SettingsView, i: InstanceView, path: Seq<char>)
    requires
        paths_set(s.instances),
        path.len() > 0,
    ensures
        paths_set(added(s, i, path).instances),
{
    let more = added(s, i, path).instances;
    assert forall|k: int| 0 <= k < more.len() implies (#[trigger] more[k]).path.len() > 0 by {}
}

/// A registry in which every instance has its folder filled in stays so when
/// an instance is removed.
pub proof fn lemma_removed_keeps_paths(s: SettingsView, name: Seq<char>)
    requires
        paths_set(s.instances),
    ensures
        paths_set(removed(s, name).instances),
{
    if has_name(s.instances, name) {
        lemma_has_first(s.instances, name);
        let at = first_index(s.instances, name);
        let fewer = s.instances.remove(at);
        assert forall|k: int| 0 <= k < fewer.len() implies (#[trigger] fewer[k]).path.len()
            > 0 by {}
    }
}

/// A registry in which no two instances share a name stays so when an
/// instance is added under a name that it does not hold, and when one is
/// removed.
pub proof fn lemma_names_stay_distinct(
    s: SettingsView,
    i: InstanceView,
    path: Seq<char>,
    name: Seq<char>,
)
    requires
        names_distinct(s.instances),
    ensures
        !has_name(s.instances, i.name) ==> names_distinct(added(s, i, path).instances),
        names_distinct(removed(s, name).instances),
{
    if !has_name(s.instances, i.name) {
        let more = added(s, i, path).instances;
        assert forall|a: int, b: int| 0 <= a < b < more.len() implies (#[trigger] more[a]).name != (
        #[trigger] more[b]).name by {}
    }
    if has_name(s.instances, name) {
        lemma_has_first(s.instances, name);
        let at = first_index(s.instances, name);
        let fewer = s.instances.remove(at);
        assert forall|a: int, b: int| 0 <= a < b < fewer.len() implies (#[trigger] fewer[a]).name
            != (#[trigger] fewer[b]).name by {
        }
    }
}

} // verus!
