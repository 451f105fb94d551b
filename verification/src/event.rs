//! The kinds of file-system events, the operations each monitor mode drops, and the
//! routing decision taken for every event that the watcher reports.

use vstd::prelude::*;
use crate::paths::{
    is_normal, lemma_nested_starts_with, no_separator, path_is_under, path_starts_with,
    string_views,
};

verus! {

/// How a file was accessed.
#[derive(Clone, Copy, Debug, PartialEq, Eq, Structural)]
pub enum AccessMode {
    Any,
    Execute,
    Read,
    Write,
    Other,
}

/// An access that does not change the file.
#[derive(Clone, Copy, Debug, PartialEq, Eq, Structural)]
pub enum AccessKind {
    Any,
    Read,
    Open(AccessMode),
    Close(AccessMode),
    Other,
}

/// What was created.
#[derive(Clone, Copy, Debug, PartialEq, Eq, Structural)]
pub enum CreateKind {
    Any,
    File,
    Folder,
    Other,
}

/// Which part of a file's data changed.
#[derive(Clone, Copy, Debug, PartialEq, Eq, Structural)]
pub enum DataChange {
    Any,
    Size,
    Content,
    Other,
}

/// Which metadata changed.
#[derive(Clone, Copy, Debug, PartialEq, Eq, Structural)]
pub enum MetadataKind {
    Any,
    AccessTime,
    WriteTime,
    Permissions,
    Ownership,
    Extended,
    Other,
}

/// Which side of a rename an event reports.
#[derive(Clone, Copy, Debug, PartialEq, Eq, Structural)]
pub enum RenameMode {
    Any,
    To,
    From,
    Both,
    Other,
}

/// A change to a file or folder.
#[derive(Clone, Copy, Debug, PartialEq, Eq, Structural)]
pub enum ModifyKind {
    Any,
    Data(DataChange),
    Metadata(MetadataKind),
    Name(RenameMode),
    Other,
}

/// What was removed.
#[derive(Clone, Copy, Debug, PartialEq, Eq, Structural)]
pub enum RemoveKind {
    Any,
    File,
    Folder,
    Other,
}

/// The kind of a file-system event, in the shape in which the watcher reports it.
#[derive(Clone, Copy, Debug, PartialEq, Eq, Structural)]
pub enum EventKind {
    Any,
    Access(AccessKind),
    Create(CreateKind),
    Modify(ModifyKind),
    Remove(RemoveKind),
    Other,
}

/// Which events a monitor passes on to its subscribers.
#[derive(Clone, Copy, Debug, PartialEq, Eq, Structural)]
pub enum MonitorMode {
    /// Every event is passed on.
    ALL,
    /// File modifications only: every access is dropped, and so is the metadata change
    /// of unspecified kind.
    Modify,
    /// File accesses only: every other event is dropped.
    Access,
}

/// Whether a monitor in `mode` drops events of kind `kind`: a monitor of all events drops
/// none; one of modifications drops every access, and the metadata change of unspecified
/// kind that a plain access also causes; one of accesses drops everything but accesses.
pub open spec fn mode_drops(mode: MonitorMode, kind: EventKind) -> bool {
    match mode {
        MonitorMode::ALL => false,
        MonitorMode::Modify => kind is Access || kind == EventKind::Modify(
            ModifyKind::Metadata(MetadataKind::Any),
        ),
        MonitorMode::Access => !(kind is Access),
    }
}

impl MonitorMode {
    /// Whether a monitor in this mode drops events of kind `kind`.
    pub fn drops(&self, kind: &EventKind) -> (r: bool)
        ensures
            r == mode_drops(*self, *kind),
    {
        match self {
            MonitorMode::ALL => false,
            MonitorMode::Modify => match kind {
                EventKind::Access(_) => true,
                EventKind::Modify(ModifyKind::Metadata(MetadataKind::Any)) => true,
                _ => false,
            },
            MonitorMode::Access => match kind {
                EventKind::Access(_) => false,
                _ => true,
            },
        }
    }
}

/// What becomes of one event reported by the watcher.
#[derive(Clone, Copy, Debug, PartialEq, Eq, Structural)]
pub enum EventRoute {
    /// The event is passed on to the subscribers.
    Forward,
    /// The event's kind is one that the monitor mode drops.
    IgnoredOperation,
    /// One of the event's paths lies under an ignored directory.
    IgnoredPath,
}

/// Some path of `paths` lies under some directory of `dirs`.
pub open spec fn touches_ignored_dir(paths: Seq<Seq<char>>, dirs: Seq<Seq<char>>) -> bool {
    exists|i: int, j: int|
        0 <= i < paths.len() && 0 <= j < dirs.len() && #[trigger] path_starts_with(paths[i], dirs[j])
}

/// The route of an event of kind `kind` on `paths`, for a monitor in `mode` that ignores
/// the paths under the directories in `dirs`: a dropped kind wins over an ignored path.
pub open spec fn spec_route(
    kind: EventKind,
    paths: Seq<Seq<char>>,
    mode: MonitorMode,
    dirs: Seq<Seq<char>>,
) -> EventRoute {
    if mode_drops(mode, kind) {
        EventRoute::IgnoredOperation
    } else if touches_ignored_dir(paths, dirs) {
        EventRoute::IgnoredPath
    } else {
        EventRoute::Forward
    }
}

/// The rules by which a running monitor routes events: the ignored directories (already
/// joined onto the watched directory), the monitor mode that decides which kinds are
/// dropped, and the delay before the event loop listens again after its source failed.
pub struct EventFilter {
    pub ignored_dirs: Vec<String>,
    pub mode: MonitorMode,
    pub retry_secs: u64,
}

impl EventFilter {
    /// Whether events of kind `kind` are dropped.
    pub fn drops_kind(&self, kind: &EventKind) -> (r: bool)
        ensures
            r == mode_drops(self.mode, *kind),
    {
        self.mode.drops(kind)
    }

    /// Whether some path of `paths` lies under some ignored directory.
    pub fn touches_ignored(&self, paths: &Vec<String>) -> (r: bool)
        ensures
            r == touches_ignored_dir(string_views(paths@), string_views(self.ignored_dirs@)),
    {
        let ghost ps = string_views(paths@);
        let ghost ds = string_views(self.ignored_dirs@);
        let np = paths.len();
        let nd = self.ignored_dirs.len();
        let mut i: usize = 0;
        while i < np
            invariant
                np == paths@.len(),
                nd == self.ignored_dirs@.len(),
                ps == string_views(paths@),
                ds == string_views(self.ignored_dirs@),
                0 <= i <= np,
                forall|a: int, b: int|
                    0 <= a < i && 0 <= b < nd ==> !#[trigger] path_starts_with(ps[a], ds[b]),
            decreases np - i,
        {
            let mut j: usize = 0;
            while j < nd
                invariant
                    np == paths@.len(),
                    nd == self.ignored_dirs@.len(),
                    ps == string_views(paths@),
                    ds == string_views(self.ignored_dirs@),
                    0 <= i < np,
                    0 <= j <= nd,
                    forall|a: int, b: int|
                        0 <= a < i && 0 <= b < nd ==> !#[trigger] path_starts_with(ps[a], ds[b]),
                    forall|b: int| 0 <= b < j ==> !#[trigger] path_starts_with(ps[i as int], ds[b]),
                decreases nd - j,
            {
                if path_is_under(&paths[i], &self.ignored_dirs[j]) {
                    assert(path_starts_with(ps[i as int], ds[j as int]));
                    return true;
                }
                j = j + 1;
            }
            i = i + 1;
        }
        assert(!touches_ignored_dir(ps, ds));
        false
    }

    /// The route of an event of kind `kind` that concerns `paths`.
    pub fn route(&self, kind: &EventKind, paths: &Vec<String>) -> (r: EventRoute)
        ensures
            r == spec_route(
                *kind,
                string_views(paths@),
                self.mode,
                string_views(self.ignored_dirs@),
            ),
    {
        if self.drops_kind(kind) {
            EventRoute::IgnoredOperation
        } else if self.touches_ignored(paths) {
            EventRoute::IgnoredPath
        } else {
            EventRoute::Forward
        }
    }
}


/// An event is passed on exactly when its kind is not dropped and none of its paths lies
/// under an ignored directory.
pub proof fn lemma_forward_exactly(
    kind: EventKind,
    paths: Seq<Seq<char>>,
    mode: MonitorMode,
    dirs: Seq<Seq<char>>,
)
    ensures
        spec_route(kind, paths, mode, dirs) == EventRoute::Forward <==> !mode_drops(mode, kind)
            && !touches_ignored_dir(paths, dirs),
{
}

/// A monitor that passes on all events never drops one for its kind.
pub proof fn lemma_all_mode_drops_no_kind(
    kind: EventKind,
    paths: Seq<Seq<char>>,
    dirs: Seq<Seq<char>>,
)
    ensures
        spec_route(kind, paths, MonitorMode::ALL, dirs) != EventRoute::IgnoredOperation,
{
}

/// Without ignored directories no event is dropped for its paths.
pub proof fn lemma_no_dirs_drop_no_path(kind: EventKind, paths: Seq<Seq<char>>, mode: MonitorMode)
    ensures
        spec_route(kind, paths, mode, seq![]) != EventRoute::IgnoredPath,
{
}

/// A monitor of modifications passes on no access of any kind.
pub proof fn lemma_modify_mode_forwards_no_access(
    kind: EventKind,
    paths: Seq<Seq<char>>,
    dirs: Seq<Seq<char>>,
)
    requires
        kind is Access,
    ensures
        spec_route(kind, paths, MonitorMode::Modify, dirs) == EventRoute::IgnoredOperation,
{
}

/// A monitor of modifications never drops a creation, a removal, a change of data or a
/// rename for its kind.
pub proof fn lemma_modify_mode_keeps_changes(kind: EventKind)
    requires
        kind is Create || kind is Remove || (kind matches EventKind::Modify(mk) && (
        mk is Data || mk is Name)),
    ensures
        !mode_drops(MonitorMode::Modify, kind),
{
}

/// A monitor of accesses passes on accesses only, and never drops an access for its kind.
pub proof fn lemma_access_mode_forwards_only_accesses(
    kind: EventKind,
    paths: Seq<Seq<char>>,
    dirs: Seq<Seq<char>>,
)
    ensures
        spec_route(kind, paths, MonitorMode::Access, dirs) == EventRoute::Forward ==> kind is Access,
        kind is Access ==> !mode_drops(MonitorMode::Access, kind),
{
}

/// An event on a path at any depth below an ignored directory is never passed on: it is
/// dropped for its kind or for its path. Shown for a path one and two normal components
/// below the directory; `paths::lemma_starts_with_below` carries it to any depth.
pub proof fn lemma_nested_event_dropped(
    kind: EventKind,
    mode: MonitorMode,
    dirs: Seq<Seq<char>>,
    j: int,
    a: Seq<char>,
    b: Seq<char>,
)
    requires
        0 <= j < dirs.len(),
        dirs[j].len() > 0,
        is_normal(a),
        no_separator(a),
        is_normal(b),
        no_separator(b),
    ensures
        spec_route(kind, seq![dirs[j].push('/') + a], mode, dirs) != EventRoute::Forward,
        spec_route(kind, seq![(dirs[j].push('/') + a).push('/') + b], mode, dirs)
            != EventRoute::Forward,
{
    lemma_nested_starts_with(dirs[j], a, b);
    let p1 = dirs[j].push('/') + a;
    let p2 = p1.push('/') + b;
    assert(path_starts_with(seq![p1][0], dirs[j]));
    assert(path_starts_with(seq![p2][0], dirs[j]));
}

} // verus!
