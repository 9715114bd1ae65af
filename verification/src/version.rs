//! The game version an instance is bound to.

use vstd::prelude::*;
use crate::text::same_text;

verus! {

/// The release channel of a game version.
#[derive(Clone, Copy, Debug, PartialEq, Eq, Structural)]
pub enum VersionKind {
    Release,
    Snapshot,
    OldBeta,
    OldAlpha,
}

/// A game version: its release channel together with its version id.
#[derive(Debug, PartialEq, Eq)]
pub enum MinecraftVersion {
    Release(String),
    Snapshot(String),
    OldBeta(String),
    OldAlpha(String),
}

/// What a [`MinecraftVersion`] stands for: a channel and the characters of the id.
pub struct VersionView {
    pub kind: VersionKind,
    pub id: Seq<char>,
}

impl View for MinecraftVersion {
    type V = VersionView;

    open spec fn view(&self) -> VersionView {
        match *self {
            MinecraftVersion::Release(v) => VersionView { kind: VersionKind::Release, id: v@ },
            MinecraftVersion::Snapshot(v) => VersionView { kind: VersionKind::Snapshot, id: v@ },
            MinecraftVersion::OldBeta(v) => VersionView { kind: VersionKind::OldBeta, id: v@ },
            MinecraftVersion::OldAlpha(v) => VersionView { kind: VersionKind::OldAlpha, id: v@ },
        }
    }
}

/// The manifest's word for a release channel.
pub open spec fn kind_word(kind: VersionKind) -> Seq<char> {
    match kind {
        VersionKind::Release => "release"@,
        VersionKind::Snapshot => "snapshot"@,
        VersionKind::OldBeta => "old_beta"@,
        VersionKind::OldAlpha => "old_alpha"@,
    }
}

/// The channel's name as it is shown to the user, in parentheses after a space.
pub open spec fn kind_suffix(kind: VersionKind) -> Seq<char> {
    match kind {
        VersionKind::Release => " (Release)"@,
        VersionKind::Snapshot => " (Snapshot)"@,
        VersionKind::OldBeta => " (Old Beta)"@,
        VersionKind::OldAlpha => " (Old Alpha)"@,
    }
}

/// The channel that a manifest's word names. A word that names none of the
/// first three is taken as the oldest channel.
pub open spec fn kind_of_word(word: Seq<char>) -> VersionKind {
    if word == "release"@ {
        VersionKind::Release
    } else if word == "snapshot"@ {
        VersionKind::Snapshot
    } else if word == "old_beta"@ {
        VersionKind::OldBeta
    } else {
        VersionKind::OldAlpha
    }
}

impl Clone for MinecraftVersion {
    fn clone(&self) -> (r: Self)
        ensures
            r == *self,
    {
        match self {
            MinecraftVersion::Release(v) => MinecraftVersion::Release(v.clone()),
            MinecraftVersion::Snapshot(v) => MinecraftVersion::Snapshot(v.clone()),
            MinecraftVersion::OldBeta(v) => MinecraftVersion::OldBeta(v.clone()),
            MinecraftVersion::OldAlpha(v) => MinecraftVersion::OldAlpha(v.clone()),
        }
    }
}

impl MinecraftVersion {
    /// Builds the version that a manifest entry describes, from the entry's
    /// channel word and its version id.
    pub fn from_manifest(version_type: &str, id: String) -> (r: Self)
        ensures
            r@ == (VersionView { kind: kind_of_word(version_type@), id: id@ }),
    {
        if same_text(version_type, "release") {
            MinecraftVersion::Release(id)
        } else if same_text(version_type, "snapshot") {
            MinecraftVersion::Snapshot(id)
        } else if same_text(version_type, "old_beta") {
            MinecraftVersion::OldBeta(id)
        } else {
            MinecraftVersion::OldAlpha(id)
        }
    }

    /// Builds the version of the given channel and id.
    pub fn of_kind(kind: VersionKind, id: String) -> (r: Self)
        ensures
            r@ == (VersionView { kind, id: id@ }),
    {
        match kind {
            VersionKind::Release => MinecraftVersion::Release(id),
            VersionKind::Snapshot => MinecraftVersion::Snapshot(id),
            VersionKind::OldBeta => MinecraftVersion::OldBeta(id),
            VersionKind::OldAlpha => MinecraftVersion::OldAlpha(id),
        }
    }

    /// The release channel.
    pub fn kind(&self) -> (r: VersionKind)
        ensures
            r == self@.kind,
    {
        match self {
            MinecraftVersion::Release(_) => VersionKind::Release,
            MinecraftVersion::Snapshot(_) => VersionKind::Snapshot,
            MinecraftVersion::OldBeta(_) => VersionKind::OldBeta,
            MinecraftVersion::OldAlpha(_) => VersionKind::OldAlpha,
        }
    }

    /// The version id, such as `1.20.1`.
    pub fn get_version_id(&self) -> (r: String)
        ensures
            r@ == self@.id,
    {
        match self {
            MinecraftVersion::Release(v) => v.clone(),
            MinecraftVersion::Snapshot(v) => v.clone(),
            MinecraftVersion::OldBeta(v) => v.clone(),
            MinecraftVersion::OldAlpha(v) => v.clone(),
        }
    }

    /// The manifest's word for the release channel.
    pub fn get_version_type(&self) -> (r: String)
        ensures
            r@ == kind_word(self@.kind),
    {
        match self {
            MinecraftVersion::Release(_) => String::from_str("release"),
            MinecraftVersion::Snapshot(_) => String::from_str("snapshot"),
            MinecraftVersion::OldBeta(_) => String::from_str("old_beta"),
            MinecraftVersion::OldAlpha(_) => String::from_str("old_alpha"),
        }
    }

    /// The version as it is shown to the user: the id, then the channel's name
    /// in parentheses.
    pub fn to_string(&self) -> (r: String)
        ensures
            r@ == self@.id + kind_suffix(self@.kind),
    {
        match self {
            MinecraftVersion::Release(v) => v.clone().concat(" (Release)"),
            MinecraftVersion::Snapshot(v) => v.clone().concat(" (Snapshot)"),
            MinecraftVersion::OldBeta(v) => v.clone().concat(" (Old Beta)"),
            MinecraftVersion::OldAlpha(v) => v.clone().concat(" (Old Alpha)"),
        }
    }
}

} // verus!
