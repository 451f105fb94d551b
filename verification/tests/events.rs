use dir_watcher::event::{
    AccessKind, AccessMode, CreateKind, DataChange, MetadataKind, ModifyKind, RemoveKind,
    RenameMode,
};
use dir_watcher::{EventFilter, EventKind, EventRoute, MonitorMode};

fn filter(dirs: &[&str], mode: MonitorMode) -> EventFilter {
    EventFilter {
        ignored_dirs: dirs.iter().map(|d| d.to_string()).collect(),
        mode,
        retry_secs: 30,
    }
}

fn paths(ps: &[&str]) -> Vec<String> {
    ps.iter().map(|p| p.to_string()).collect()
}

fn all_kinds() -> Vec<EventKind> {
    let modes = [
        AccessMode::Any,
        AccessMode::Execute,
        AccessMode::Read,
        AccessMode::Write,
        AccessMode::Other,
    ];
    let mut v = vec![EventKind::Any, EventKind::Other];
    v.push(EventKind::Access(AccessKind::Any));
    v.push(EventKind::Access(AccessKind::Read));
    v.push(EventKind::Access(AccessKind::Other));
    for m in modes {
        v.push(EventKind::Access(AccessKind::Open(m)));
        v.push(EventKind::Access(AccessKind::Close(m)));
    }
    for c in [CreateKind::Any, CreateKind::File, CreateKind::Folder, CreateKind::Other] {
        v.push(EventKind::Create(c));
    }
    for r in [RemoveKind::Any, RemoveKind::File, RemoveKind::Folder, RemoveKind::Other] {
        v.push(EventKind::Remove(r));
    }
    v.push(EventKind::Modify(ModifyKind::Any));
    v.push(EventKind::Modify(ModifyKind::Other));
    for d in [DataChange::Any, DataChange::Size, DataChange::Content, DataChange::Other] {
        v.push(EventKind::Modify(ModifyKind::Data(d)));
    }
    for m in [
        MetadataKind::Any,
        MetadataKind::AccessTime,
        MetadataKind::WriteTime,
        MetadataKind::Permissions,
        MetadataKind::Ownership,
        MetadataKind::Extended,
        MetadataKind::Other,
    ] {
        v.push(EventKind::Modify(ModifyKind::Metadata(m)));
    }
    for r in [RenameMode::Any, RenameMode::To, RenameMode::From, RenameMode::Both, RenameMode::Other] {
        v.push(EventKind::Modify(ModifyKind::Name(r)));
    }
    v
}

#[test]
fn all_mode_drops_no_kind() {
    for k in all_kinds() {
        assert!(!MonitorMode::ALL.drops(&k), "{:?}", k);
    }
}

#[test]
fn modify_mode_drops_every_access() {
    for k in all_kinds() {
        let is_access = matches!(k, EventKind::Access(_));
        let is_any_metadata = k == EventKind::Modify(ModifyKind::Metadata(MetadataKind::Any));
        assert_eq!(MonitorMode::Modify.drops(&k), is_access || is_any_metadata, "{:?}", k);
    }
}

#[test]
fn access_mode_passes_on_accesses_only() {
    for k in all_kinds() {
        assert_eq!(MonitorMode::Access.drops(&k), !matches!(k, EventKind::Access(_)), "{:?}", k);
    }
}

#[test]
fn modify_mode_drops_reads_and_forwards_writes() {
    let f = filter(&[], MonitorMode::Modify);
    let p = paths(&["/tmp/a.txt"]);
    assert_eq!(f.route(&EventKind::Access(AccessKind::Read), &p), EventRoute::IgnoredOperation);
    assert_eq!(
        f.route(&EventKind::Access(AccessKind::Close(AccessMode::Read)), &p),
        EventRoute::IgnoredOperation
    );
    assert_eq!(
        f.route(&EventKind::Modify(ModifyKind::Data(DataChange::Content)), &p),
        EventRoute::Forward
    );
    assert_eq!(f.route(&EventKind::Create(CreateKind::File), &p), EventRoute::Forward);
    assert_eq!(f.route(&EventKind::Remove(RemoveKind::Folder), &p), EventRoute::Forward);
    assert_eq!(
        f.route(&EventKind::Modify(ModifyKind::Name(RenameMode::Both)), &p),
        EventRoute::Forward
    );
}

#[test]
fn access_mode_drops_changes_and_forwards_accesses() {
    let f = filter(&[], MonitorMode::Access);
    let p = paths(&["/tmp/a.txt"]);
    assert_eq!(f.route(&EventKind::Remove(RemoveKind::Any), &p), EventRoute::IgnoredOperation);
    assert_eq!(f.route(&EventKind::Create(CreateKind::File), &p), EventRoute::IgnoredOperation);
    assert_eq!(
        f.route(&EventKind::Modify(ModifyKind::Data(DataChange::Size)), &p),
        EventRoute::IgnoredOperation
    );
    assert_eq!(f.route(&EventKind::Access(AccessKind::Read), &p), EventRoute::Forward);
    assert_eq!(
        f.route(&EventKind::Access(AccessKind::Close(AccessMode::Write)), &p),
        EventRoute::Forward
    );
}

#[test]
fn all_mode_forwards_every_kind() {
    let f = filter(&[], MonitorMode::ALL);
    let p = paths(&["/tmp/a"]);
    for k in all_kinds() {
        assert_eq!(f.route(&k, &p), EventRoute::Forward);
    }
}

#[test]
fn path_under_ignored_dir_is_dropped() {
    let f = filter(&["/tmp/cache"], MonitorMode::ALL);
    let k = EventKind::Create(CreateKind::File);
    assert_eq!(f.route(&k, &paths(&["/tmp/cache/x.bin"])), EventRoute::IgnoredPath);
    assert_eq!(f.route(&k, &paths(&["/tmp/cache"])), EventRoute::IgnoredPath);
    assert_eq!(f.route(&k, &paths(&["/tmp/other/x", "/tmp/cache/y"])), EventRoute::IgnoredPath);
}

#[test]
fn prefix_is_by_whole_components() {
    let f = filter(&["/tmp/cache"], MonitorMode::ALL);
    let k = EventKind::Create(CreateKind::File);
    assert_eq!(f.route(&k, &paths(&["/tmp/cachex/x.bin"])), EventRoute::Forward);
    assert_eq!(f.route(&k, &paths(&["/tmp/cach"])), EventRoute::Forward);
}

#[test]
fn dropped_kind_wins_over_ignored_path() {
    let f = filter(&["/tmp/cache"], MonitorMode::Modify);
    let r = f.route(&EventKind::Access(AccessKind::Read), &paths(&["/tmp/cache/x"]));
    assert_eq!(r, EventRoute::IgnoredOperation);
}

#[test]
fn no_ignored_dirs_no_path_drop() {
    let f = filter(&[], MonitorMode::ALL);
    let r = f.route(&EventKind::Create(CreateKind::File), &paths(&["/", "/tmp/cache/x"]));
    assert_eq!(r, EventRoute::Forward);
}

#[test]
fn event_without_paths_is_forwarded() {
    let f = filter(&["/tmp/cache"], MonitorMode::ALL);
    assert_eq!(f.route(&EventKind::Other, &Vec::new()), EventRoute::Forward);
}

#[test]
fn filter_drops_kind_and_touches_ignored() {
    let f = filter(&["/a/b"], MonitorMode::Modify);
    assert!(f.drops_kind(&EventKind::Access(AccessKind::Read)));
    assert!(f.drops_kind(&EventKind::Access(AccessKind::Any)));
    assert!(!f.drops_kind(&EventKind::Create(CreateKind::Any)));
    assert!(f.touches_ignored(&paths(&["/a/b/c"])));
    assert!(!f.touches_ignored(&paths(&["/a/bc"])));
}
