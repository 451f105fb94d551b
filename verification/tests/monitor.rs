use dir_watcher::monitor::{ChannelState, ErrorKind, HandleState, HealthPhase};
use dir_watcher::{
    EventKind, HealthAction, HealthEvent, MonitorMode, Options, RawFileMonitor, RecursiveMode,
};

fn options(validate: bool) -> Options {
    let mut o = Options::default();
    o.set_target_dir("/srv/w".to_string())
        .set_interval(12)
        .set_validation(validate)
        .set_mode(RecursiveMode::NonRecursive)
        .set_monitor_mode(MonitorMode::Access);
    o
}

fn errors(m: &RawFileMonitor) -> Vec<(ErrorKind, String)> {
    m.errors().iter().map(|e| (e.kind, e.message.clone())).collect()
}

#[test]
fn new_monitor_is_paused_and_clean() {
    let m = RawFileMonitor::new(options(false), false);
    assert!(m.is_paused());
    assert!(!m.is_poisoned());
    assert!(!m.is_missing());
    assert_eq!(m.events(), 0);
    assert!(m.errors().is_empty());
    assert_eq!(m.dir(), "/srv/w");
    assert_eq!(m.recursive_mode(), RecursiveMode::NonRecursive);
}

#[test]
fn new_with_validation_and_absent_dir_is_poisoned() {
    let m = RawFileMonitor::new(options(true), false);
    assert!(m.is_poisoned());
    assert_eq!(errors(&m), vec![(ErrorKind::NotFound, "/srv/w: Not found".to_string())]);
}

#[test]
fn new_with_validation_and_present_dir_is_clean() {
    let m = RawFileMonitor::new(options(true), true);
    assert!(!m.is_poisoned());
    assert!(m.errors().is_empty());
}

#[test]
fn ignored_dirs_are_joined_onto_the_target() {
    let dirs = RawFileMonitor::sanitize_ignored_dirs(
        &"/srv/w".to_string(),
        vec!["cache".to_string(), "logs/old".to_string()],
    );
    assert_eq!(dirs, vec!["/srv/w/cache", "/srv/w/logs/old"]);
    let dirs = RawFileMonitor::sanitize_ignored_dirs(
        &"/srv/w/".to_string(),
        vec!["cache".to_string(), "/var/log".to_string(), "".to_string()],
    );
    assert_eq!(dirs, vec!["/srv/w/cache", "/var/log", "/srv/w/"]);
    let dirs = RawFileMonitor::sanitize_ignored_dirs(&"".to_string(), vec!["cache".to_string()]);
    assert_eq!(dirs, vec!["cache"]);
    let dirs = RawFileMonitor::sanitize_ignored_dirs(&"/srv".to_string(), vec!["".to_string()]);
    assert_eq!(dirs, vec!["/srv/"]);
    assert!(RawFileMonitor::sanitize_ignored_dirs(&"/srv/w".to_string(), Vec::new()).is_empty());
}

#[test]
fn event_filter_follows_the_options() {
    let mut o = options(false);
    o.add_ignored_dir("cache".to_string());
    let m = RawFileMonitor::new(o, true);
    let f = m.event_filter();
    assert_eq!(f.ignored_dirs, vec!["/srv/w/cache"]);
    assert_eq!(f.mode, MonitorMode::Access);
    assert_eq!(f.retry_secs, 12);
    assert!(f.drops_kind(&EventKind::Create(dir_watcher::event::CreateKind::File)));
}

#[test]
fn poison_appends_an_io_error() {
    let mut m = RawFileMonitor::new(options(true), false);
    m.poison("boom".to_string());
    assert!(m.is_poisoned());
    assert_eq!(
        errors(&m),
        vec![
            (ErrorKind::NotFound, "/srv/w: Not found".to_string()),
            (ErrorKind::InputOutput, "boom".to_string()),
        ]
    );
}

#[test]
fn start_resumes_or_poisons() {
    let mut m = RawFileMonitor::new(options(false), true);
    m.start(None);
    assert!(!m.is_paused());
    let mut m = RawFileMonitor::new(options(false), true);
    m.start(Some("watch failed".to_string()));
    assert!(m.is_paused());
    assert!(m.is_poisoned());
    assert_eq!(errors(&m), vec![(ErrorKind::InputOutput, "watch failed".to_string())]);
}

#[test]
fn pause_and_resume_round_trip() {
    let mut m = RawFileMonitor::new(options(false), true);
    m.start(None);
    m.pause();
    assert!(m.is_paused());
    m.resume();
    assert!(!m.is_paused());
    m.resume();
    assert!(!m.is_paused());
}

#[test]
fn stop_failure_poisons() {
    let mut m = RawFileMonitor::new(options(false), true);
    m.stop(None);
    assert!(!m.is_poisoned());
    m.stop(None);
    assert!(!m.is_poisoned());
    assert!(m.errors().is_empty());
    m.stop(Some("lock held".to_string()));
    assert_eq!(errors(&m), vec![(ErrorKind::InputOutput, "lock held".to_string())]);
}

#[test]
fn healthy_check_only_counts() {
    let mut m = RawFileMonitor::new(options(false), true);
    let (mut c, a) = m.health_check(false);
    assert_eq!(a, HealthAction::CheckTargetDir);
    let a = c.advance(&mut m, HealthEvent::TargetDir { exists: true });
    assert_eq!(a, HealthAction::Done);
    assert_eq!(c.phase, HealthPhase::Finished);
    assert_eq!(m.events(), 1);
    assert!(!m.is_poisoned());
    let (mut c, _) = m.health_check(false);
    c.advance(&mut m, HealthEvent::TargetDir { exists: true });
    assert_eq!(m.events(), 2);
}

#[test]
fn poisoned_check_with_live_task_restores() {
    let mut m = RawFileMonitor::new(options(true), false);
    let (mut c, _) = m.health_check(true);
    assert_eq!(c.advance(&mut m, HealthEvent::TargetDir { exists: true }), HealthAction::InspectHandle);
    assert_eq!(c.advance(&mut m, HealthEvent::Handle(HandleState::Running)), HealthAction::InspectChannel);
    assert_eq!(
        c.advance(&mut m, HealthEvent::Channel(ChannelState::Open)),
        HealthAction::ShowErrors { die_on_fail: true }
    );
    assert_eq!(m.errors().len(), 1);
    assert_eq!(c.advance(&mut m, HealthEvent::ErrorsShown), HealthAction::Done);
    assert!(!m.is_poisoned());
    assert!(m.errors().is_empty());
    assert_eq!(m.events(), 0);
}

#[test]
fn dead_task_and_closed_channel_are_rebuilt() {
    let mut m = RawFileMonitor::new(options(false), true);
    m.poison("channel lost".to_string());
    let (mut c, _) = m.health_check(false);
    c.advance(&mut m, HealthEvent::TargetDir { exists: true });
    assert_eq!(c.advance(&mut m, HealthEvent::Handle(HandleState::Finished)), HealthAction::InspectChannel);
    assert_eq!(c.advance(&mut m, HealthEvent::Channel(ChannelState::Closed)), HealthAction::AbortHandle);
    assert_eq!(c.advance(&mut m, HealthEvent::Aborted { had_handle: true }), HealthAction::Reinitialize);
    assert_eq!(
        c.advance(&mut m, HealthEvent::Reinitialized { failure: None }),
        HealthAction::ShowErrors { die_on_fail: false }
    );
    assert_eq!(c.advance(&mut m, HealthEvent::ErrorsShown), HealthAction::Done);
    assert!(!m.is_poisoned());
}

#[test]
fn failed_rebuild_records_both_errors() {
    let mut m = RawFileMonitor::new(options(false), true);
    m.poison("channel lost".to_string());
    let (mut c, _) = m.health_check(false);
    c.advance(&mut m, HealthEvent::TargetDir { exists: true });
    c.advance(&mut m, HealthEvent::Handle(HandleState::Absent));
    c.advance(&mut m, HealthEvent::Channel(ChannelState::Closed));
    c.advance(&mut m, HealthEvent::Aborted { had_handle: false });
    let a = c.advance(&mut m, HealthEvent::Reinitialized { failure: Some("watch: denied".to_string()) });
    assert_eq!(a, HealthAction::ShowErrors { die_on_fail: true });
    assert!(c.die_on_fail);
    assert_eq!(
        errors(&m),
        vec![
            (ErrorKind::InputOutput, "channel lost".to_string()),
            (ErrorKind::InputOutput, "watch: denied".to_string()),
            (ErrorKind::InputOutput, "Failed establishing new channels".to_string()),
        ]
    );
    assert_eq!(c.advance(&mut m, HealthEvent::ErrorsShown), HealthAction::Done);
    assert!(m.errors().is_empty());
}

#[test]
fn closed_channel_with_running_task_aborts_it_then_rebuilds() {
    let mut m = RawFileMonitor::new(options(false), true);
    m.poison("x".to_string());
    let (mut c, _) = m.health_check(false);
    c.advance(&mut m, HealthEvent::TargetDir { exists: true });
    c.advance(&mut m, HealthEvent::Handle(HandleState::Running));
    c.advance(&mut m, HealthEvent::Channel(ChannelState::Closed));
    assert!(!c.bad_handle);
    assert_eq!(c.advance(&mut m, HealthEvent::Aborted { had_handle: true }), HealthAction::Reinitialize);
    assert!(c.bad_handle);
}

#[test]
fn closed_channel_without_task_after_abort_is_not_rebuilt_if_handle_was_running_and_none_aborted() {
    let mut m = RawFileMonitor::new(options(false), true);
    m.poison("x".to_string());
    let (mut c, _) = m.health_check(false);
    c.advance(&mut m, HealthEvent::TargetDir { exists: true });
    c.advance(&mut m, HealthEvent::Handle(HandleState::Busy));
    c.advance(&mut m, HealthEvent::Channel(ChannelState::Closed));
    let a = c.advance(&mut m, HealthEvent::Aborted { had_handle: false });
    assert_eq!(a, HealthAction::ShowErrors { die_on_fail: false });
}

#[test]
fn gone_directory_marks_missing_and_is_not_rewatched() {
    let mut m = RawFileMonitor::new(options(false), true);
    let (mut c, _) = m.health_check(false);
    assert_eq!(c.advance(&mut m, HealthEvent::TargetDir { exists: false }), HealthAction::InspectHandle);
    assert!(m.is_missing());
    assert_eq!(
        errors(&m),
        vec![(ErrorKind::InputOutput, "Target dir gone".to_string())]
    );
    c.advance(&mut m, HealthEvent::Handle(HandleState::Absent));
    c.advance(&mut m, HealthEvent::Channel(ChannelState::Closed));
    let a = c.advance(&mut m, HealthEvent::Aborted { had_handle: false });
    assert_eq!(a, HealthAction::Done);
    assert!(m.is_poisoned());
    // The next check does not look for the directory again.
    let (_, a) = m.health_check(false);
    assert_eq!(a, HealthAction::InspectHandle);
    assert!(m.is_missing());
}

#[test]
fn missing_directory_with_good_task_still_restores() {
    let mut m = RawFileMonitor::new(options(false), true);
    let (mut c, _) = m.health_check(false);
    c.advance(&mut m, HealthEvent::TargetDir { exists: false });
    c.advance(&mut m, HealthEvent::Handle(HandleState::Running));
    c.advance(&mut m, HealthEvent::Channel(ChannelState::Open));
    assert_eq!(c.advance(&mut m, HealthEvent::ErrorsShown), HealthAction::Done);
    assert!(!m.is_poisoned());
    assert!(m.is_missing());
    let (_, a) = m.health_check(false);
    assert_eq!(a, HealthAction::Done);
}

#[test]
fn unanswered_request_is_repeated() {
    let mut m = RawFileMonitor::new(options(false), true);
    let (mut c, _) = m.health_check(false);
    let a = c.advance(&mut m, HealthEvent::ErrorsShown);
    assert_eq!(a, HealthAction::CheckTargetDir);
    assert_eq!(c.phase, HealthPhase::AwaitTargetDir);
    assert_eq!(m.events(), 1);
    assert_eq!(c.awaited(), HealthAction::CheckTargetDir);
}

#[test]
fn finished_check_stays_finished() {
    let mut m = RawFileMonitor::new(options(false), true);
    let (mut c, _) = m.health_check(false);
    c.advance(&mut m, HealthEvent::TargetDir { exists: true });
    let a = c.advance(&mut m, HealthEvent::TargetDir { exists: false });
    assert_eq!(a, HealthAction::Done);
    assert!(!m.is_missing());
}

#[test]
fn second_stop_changes_nothing() {
    let mut m = RawFileMonitor::new(options(false), true);
    m.stop(None);
    let before = errors(&m);
    m.stop(None);
    assert_eq!(errors(&m), before);
    assert!(!m.is_poisoned());
    m.stop(Some("a".to_string()));
    m.stop(Some("b".to_string()));
    assert_eq!(
        errors(&m),
        vec![(ErrorKind::InputOutput, "a".to_string()), (ErrorKind::InputOutput, "b".to_string())]
    );
}
