//! A game instance and the state of its download.

use vstd::prelude::*;
use crate::version::{MinecraftVersion, VersionView};

verus! {

/// A named game installation with its own folder and version.
#[derive(Debug, PartialEq, Eq)]
pub struct LauncherInstance {
    pub name: String,
    /// The instance's folder; empty until the instance is registered.
    pub path: String,
    pub version: Option<MinecraftVersion>,
    /// Whether the version's files have been fetched. Stored with the settings.
    pub downloaded: bool,
    /// Whether a download is under way. Never stored.
    pub downloading: bool,
}

/// What a [`LauncherInstance`] stands for.
pub struct InstanceView {
    pub name: Seq<char>,
    pub path: Seq<char>,
    pub version: Option<VersionView>,
    pub downloaded: bool,
    pub downloading: bool,
}

/// Where an instance stands in its download.
#[derive(Clone, Copy, Debug, PartialEq, Eq, Structural)]
pub enum DownloadState {
    NotDownloaded,
    Downloading,
    Downloaded,
}

/// What an optional version stands for.
pub open spec fn version_view(version: Option<MinecraftVersion>) -> Option<VersionView> {
    match version {
        Some(v) => Some(v@),
        None => None,
    }
}

impl View for LauncherInstance {
    type V = InstanceView;

    open spec fn view(&self) -> InstanceView {
        InstanceView {
            name: self.name@,
            path: self.path@,
            version: version_view(self.version),
            downloaded: self.downloaded,
            downloading: self.downloading,
        }
    }
}

/// The views of a list of instances, in order.
pub open spec fn instance_views(list: Seq<LauncherInstance>) -> Seq<InstanceView> {
    Seq::new(list.len(), |i: int| list[i]@)
}

/// What an optional instance stands for.
pub open spec fn optional_instance_view(instance: Option<LauncherInstance>) -> Option<
    InstanceView,
> {
    match instance {
        Some(i) => Some(i@),
        None => None,
    }
}

/// The download state that an instance's two flags encode. A download under
/// way takes precedence.
pub open spec fn download_state(i: InstanceView) -> DownloadState {
    if i.downloading {
        DownloadState::Downloading
    } else if i.downloaded {
        DownloadState::Downloaded
    } else {
        DownloadState::NotDownloaded
    }
}

/// The instance as it is read back after it was stored: the same, but with no
/// download under way.
pub open spec fn stored(i: InstanceView) -> InstanceView {
    InstanceView { downloading: false, ..i }
}

/// Copies an optional version.
pub fn clone_version(version: &Option<MinecraftVersion>) -> (r: Option<MinecraftVersion>)
    ensures
        r == *version,
{
    match version {
        Some(v) => Some(v.clone()),
        None => None,
    }
}

impl Clone for LauncherInstance {
    fn clone(&self) -> (r: Self)
        ensures
            r == *self,
    {
        LauncherInstance {
            name: self.name.clone(),
            path: self.path.clone(),
            version: clone_version(&self.version),
            downloaded: self.downloaded,
            downloading: self.downloading,
        }
    }
}

impl Default for LauncherInstance {
    /// An instance without a name, a folder or a version, not downloaded.
    fn default() -> (r: Self)
        ensures
            r@ == (InstanceView {
                name: Seq::<char>::empty(),
                path: Seq::<char>::empty(),
                version: None,
                downloaded: false,
                downloading: false,
            }),
    {
        LauncherInstance {
            name: String::new(),
            path: String::new(),
            version: None,
            downloaded: false,
            downloading: false,
        }
    }
}

impl LauncherInstance {
    /// A new instance under the given name and version, not yet registered
    /// and not downloaded.
    pub fn new(name: String, version: Option<MinecraftVersion>) -> (r: Self)
        ensures
            r@ == (InstanceView {
                name: name@,
                path: Seq::<char>::empty(),
                version: version_view(version),
                downloaded: false,
                downloading: false,
            }),
    {
        LauncherInstance { name, path: String::new(), version, downloaded: false, downloading: false }
    }

    /// Where the instance stands in its download.
    pub fn state(&self) -> (r: DownloadState)
        ensures
            r == download_state(self@),
    {
        if self.downloading {
            DownloadState::Downloading
        } else if self.downloaded {
            DownloadState::Downloaded
        } else {
            DownloadState::NotDownloaded
        }
    }

    /// The instance as it is read back after it was stored.
    pub fn persisted(&self) -> (r: Self)
        ensures
            r@ == stored(self@),
    {
        LauncherInstance {
            name: self.name.clone(),
            path: self.path.clone(),
            version: clone_version(&self.version),
            downloaded: self.downloaded,
            downloading: false,
        }
    }

    /// The name under which the instance is listed.
    pub fn to_string(&self) -> (r: String)
        ensures
            r@ == self@.name,
    {
        self.name.clone()
    }
}

} // verus!
