//! The bookkeeping of a directory monitor: its configuration once created, whether it is
//! paused, the errors that poison it, whether its directory has gone missing, and the
//! health check that inspects a poisoned monitor and restores it.
//!
//! The monitor holds its error array and the control on which its event loop pauses, but
//! no channels, tasks or watchers: the runtime that owns those asks the monitor what to
//! do, does it, and reports back what it observed.

use vstd::prelude::*;
use crate::control::{new_control, pause_control, resume_control, PauseControl};
use crate::event::{EventFilter, MonitorMode};
use crate::options::{Options, RecursiveMode};
use crate::paths::{clone_strings, join_path, joined_path, string_views};

verus! {

/// The kind of an error recorded by a monitor.
#[derive(Clone, Copy, Debug, PartialEq, Eq, Structural)]
pub enum ErrorKind {
    /// The watched directory does not exist.
    NotFound,
    /// Watching, forwarding or stopping failed.
    InputOutput,
    /// Any other kind of `dusa_collection_utils` error.
    Other,
}

/// An error recorded by a monitor.
#[derive(Debug)]
pub struct MonitorError {
    pub kind: ErrorKind,
    pub message: String,
}

impl View for MonitorError {
    type V = (ErrorKind, Seq<char>);

    open spec fn view(&self) -> (ErrorKind, Seq<char>) {
        (self.kind, self.message@)
    }
}

/// The abstract state of a [`RawFileMonitor`].
pub struct MonitorView {
    /// Health checks begun since the monitor was last restored (wrapping at `u64::MAX`).
    pub events: u64,
    /// Whether event forwarding is paused.
    pub paused: bool,
    /// Whether something went wrong since the monitor was last restored.
    pub poisoned: bool,
    /// Whether the watched directory was found gone; it is not looked for again.
    pub missing: bool,
    /// The recorded errors, oldest first.
    pub errors: Seq<(ErrorKind, Seq<char>)>,
    /// The watched directory.
    pub dir: Seq<char>,
    /// The ignored directories, joined onto the watched directory.
    pub ignored: Seq<Seq<char>>,
    /// The delay in seconds before the event loop listens again after its source failed.
    pub timeout: u64,
    pub recursive: RecursiveMode,
    pub monitor: MonitorMode,
}

impl MonitorView {
    /// A monitor is poisoned exactly when it holds recorded errors.
    pub open spec fn wf(self) -> bool {
        self.poisoned == (self.errors.len() > 0)
    }
}

/// `m` after `reason` poisoned it: the error is recorded last, as an input/output error.
pub open spec fn poisoned_by(m: MonitorView, reason: Seq<char>) -> MonitorView {
    MonitorView {
        poisoned: true,
        errors: m.errors.push((ErrorKind::InputOutput, reason)),
        ..m
    }
}

/// `m` after the runtime reported the outcome `failure` of stopping the event loop:
/// unchanged when the loop was stopped (or there was none), else poisoned by the
/// failure's message.
pub open spec fn stopped(m: MonitorView, failure: Option<String>) -> MonitorView {
    match failure {
        None => m,
        Some(msg) => poisoned_by(m, msg@),
    }
}

/// `m` with one more health check counted.
pub open spec fn counted(m: MonitorView) -> MonitorView {
    MonitorView { events: if m.events == u64::MAX { 0 } else { (m.events + 1) as u64 }, ..m }
}

/// `m` restored: no errors, not poisoned, no health checks counted.
pub open spec fn cleared(m: MonitorView) -> MonitorView {
    MonitorView { errors: seq![], poisoned: false, events: 0, ..m }
}

/// The ignored directories of a new monitor on `dir`: each of `dirs` joined onto `dir`,
/// in order.
pub open spec fn sanitized(dir: Seq<char>, dirs: Seq<Seq<char>>) -> Seq<Seq<char>> {
    dirs.map_values(|p: Seq<char>| joined_path(dir, p))
}

/// The monitor that `RawFileMonitor::new` makes from `o`, where `dir_exists` tells
/// whether the watched directory exists (looked at only when `o` asks for validation).
pub open spec fn created(o: crate::options::OptionsView, dir_exists: bool) -> MonitorView {
    let failed = o.validate_path && !dir_exists;
    MonitorView {
        events: 0,
        paused: true,
        poisoned: failed,
        missing: false,
        errors: if failed {
            seq![(ErrorKind::NotFound, o.target_dir + ": Not found"@)]
        } else {
            seq![]
        },
        dir: o.target_dir,
        ignored: sanitized(o.target_dir, o.ignored_subdirs),
        timeout: o.scan_interval,
        recursive: o.recursive_mode,
        monitor: o.monitor_mode,
    }
}

#[verifier::external_type_specification]
#[verifier::external_body]
pub struct ExErrorArray(dusa_collection_utils::core::errors::ErrorArray);

/// The errors held by an `ErrorArray`, oldest first, each as its kind and the text of its
/// message.
pub uninterp spec fn recorded_errors(
    a: dusa_collection_utils::core::errors::ErrorArray,
) -> Seq<(ErrorKind, Seq<char>)>;

/// `ErrorArray::new_container`: an array that holds no errors.
#[verifier::external_body]
fn new_error_array() -> (a: dusa_collection_utils::core::errors::ErrorArray)
    ensures
        recorded_errors(a) == Seq::<(ErrorKind, Seq<char>)>::empty(),
{
    dusa_collection_utils::core::errors::ErrorArray::new_container()
}

/// `ErrorArray::push` of `ErrorArrayItem::new(kind, message)`: the error is appended.
/// The push takes the array's write lock and panics if that lock is poisoned, which
/// needs a panic while it is held; the monitor never shares or hands out its array.
#[verifier::external_body]
fn push_error(
    a: &mut dusa_collection_utils::core::errors::ErrorArray,
    kind: ErrorKind,
    message: String,
)
    ensures
        recorded_errors(*final(a)) == recorded_errors(*old(a)).push((kind, message@)),
{
    let err_type = match kind {
        ErrorKind::NotFound => dusa_collection_utils::core::errors::Errors::NotFound,
        ErrorKind::InputOutput => dusa_collection_utils::core::errors::Errors::InputOutput,
        ErrorKind::Other => dusa_collection_utils::core::errors::Errors::GeneralError,
    };
    a.push(dusa_collection_utils::core::errors::ErrorArrayItem::new(err_type, message));
}

/// `ErrorArray::len`: the number of errors held (under the read lock; see `push_error`
/// on the lock).
#[verifier::external_body]
fn error_count(a: &dusa_collection_utils::core::errors::ErrorArray) -> (n: usize)
    ensures
        n == recorded_errors(*a).len(),
{
    a.len()
}

/// The errors held by an `ErrorArray`, read through the `RwLock` in its public field and
/// converted one by one: the kind by its variant, the message by `Stringy`'s `Display`
/// (see `push_error` on the lock).
#[verifier::external_body]
fn error_snapshot(a: &dusa_collection_utils::core::errors::ErrorArray) -> (v: Vec<MonitorError>)
    ensures
        v@.map_values(|e: MonitorError| e@) == recorded_errors(*a),
{
    let items = a.0.read().unwrap();
    items.iter().map(|item| MonitorError {
        kind: match item.err_type {
            dusa_collection_utils::core::errors::Errors::NotFound => ErrorKind::NotFound,
            dusa_collection_utils::core::errors::Errors::InputOutput => ErrorKind::InputOutput,
            _ => ErrorKind::Other,
        },
        message: item.err_mesg.to_string(),
    }).collect()
}

/// Whether a monitor is poisoned, and the errors that poison it.
#[derive(Debug)]
struct Status {
    poisoned: bool,
    errors: dusa_collection_utils::core::errors::ErrorArray,
}

impl Status {
    fn clean() -> (s: Self)
        ensures
            !s.poisoned,
            recorded_errors(s.errors) == Seq::<(ErrorKind, Seq<char>)>::empty(),
    {
        Status { poisoned: false, errors: new_error_array() }
    }

    fn record(&mut self, kind: ErrorKind, message: String)
        ensures
            final(self).poisoned,
            recorded_errors(final(self).errors) == recorded_errors(old(self).errors).push(
                (kind, message@),
            ),
    {
        push_error(&mut self.errors, kind, message);
        self.poisoned = true;
    }
}

/// The bookkeeping state of a directory monitor. It is poisoned exactly when it holds
/// errors (its type invariant).
#[derive(Debug)]
pub struct RawFileMonitor {
    events: u64,
    missing: bool,
    status: Status,
    dir: String,
    ignored: Vec<String>,
    timeout: u64,
    recursive: RecursiveMode,
    monitor: MonitorMode,
    controls: PauseControl,
}

impl RawFileMonitor {
    #[verifier::type_invariant]
    spec fn poisoned_iff_errors(self) -> bool {
        self.status.poisoned == (recorded_errors(self.status.errors).len() > 0)
    }
}

impl View for RawFileMonitor {
    type V = MonitorView;

    closed spec fn view(&self) -> MonitorView {
        MonitorView {
            events: self.events,
            paused: self.controls.is_paused(),
            poisoned: self.status.poisoned,
            missing: self.missing,
            errors: recorded_errors(self.status.errors),
            dir: self.dir@,
            ignored: string_views(self.ignored@),
            timeout: self.timeout,
            recursive: self.recursive,
            monitor: self.monitor,
        }
    }
}

impl RawFileMonitor {
    /// Each of `dirs` joined onto `dir`, in order.
    pub fn sanitize_ignored_dirs(dir: &String, dirs: Vec<String>) -> (r: Vec<String>)
        ensures
            string_views(r@) == sanitized(dir@, string_views(dirs@)),
    {
        let mut r: Vec<String> = Vec::new();
        let n = dirs.len();
        let mut i: usize = 0;
        while i < n
            invariant
                n == dirs@.len(),
                0 <= i <= n,
                r@.len() == i,
                forall|k: int| 0 <= k < i ==> #[trigger] r@[k]@ == joined_path(dir@, dirs@[k]@),
            decreases n - i,
        {
            r.push(join_path(dir, &dirs[i]));
            i = i + 1;
        }
        assert(string_views(r@) =~= sanitized(dir@, string_views(dirs@)));
        r
    }

    /// A paused monitor set up from `options`. When the options ask for validation and
    /// `dir_exists` says that the watched directory is absent, the monitor starts poisoned
    /// with a not-found error naming the directory.
    pub fn new(options: Options, dir_exists: bool) -> (m: Self)
        ensures
            m@ == created(options@, dir_exists),
            m@.wf(),
            m.control_paused(),
    {
        let dir = options.base_dir();
        let mut status = Status::clean();
        if options.get_validation() && !dir_exists {
            let message = dir.clone().concat(": Not found");
            status.record(ErrorKind::NotFound, message);
        }
        let ignored = Self::sanitize_ignored_dirs(&dir, options.ignored_dirs());
        let mut controls = new_control();
        pause_control(&mut controls);
        let m = RawFileMonitor {
            events: 0,
            missing: false,
            status,
            dir,
            ignored,
            timeout: options.get_interval(),
            recursive: options.get_mode(),
            monitor: options.get_monitor_mode(),
            controls,
        };
        assert(m@.errors =~= created(options@, dir_exists).errors);
        m
    }

    /// Records `reason` as an input/output error and marks the monitor poisoned.
    pub fn poison(&mut self, reason: String)
        ensures
            final(self)@ == poisoned_by(old(self)@, reason@),
            final(self)@.wf(),
            final(self).control() == old(self).control(),
            final(self).control_paused() == old(self).control_paused(),
    {
        let mut status = Status::clean();
        std::mem::swap(&mut self.status, &mut status);
        status.record(ErrorKind::InputOutput, reason);
        self.status = status;
        proof {
            use_type_invariant(&*self);
        }
    }

    /// Takes the outcome of setting up the watch: on success (`None`) forwarding resumes;
    /// a failure poisons the monitor with its message and leaves it paused.
    pub fn start(&mut self, failure: Option<String>)
        ensures
            final(self)@ == (match failure {
                None => MonitorView { paused: false, ..old(self)@ },
                Some(msg) => poisoned_by(old(self)@, msg@),
            }),
            final(self)@.wf(),
            failure is None ==> !final(self).control_paused(),
            final(self).control() == old(self).control(),
    {
        match failure {
            None => {
                self.resume();
            },
            Some(msg) => {
                self.poison(msg);
            },
        }
        proof {
            use_type_invariant(&*self);
        }
    }

    /// Pauses forwarding: records it and pauses the event loop's control.
    pub fn pause(&mut self)
        ensures
            final(self)@ == (MonitorView { paused: true, ..old(self)@ }),
            final(self).control() == old(self).control(),
            final(self).control_paused(),
    {
        proof {
            use_type_invariant(&*self);
        }
        pause_control(&mut self.controls);
    }

    /// Resumes forwarding: records it and resumes the event loop's control.
    pub fn resume(&mut self)
        ensures
            final(self)@ == (MonitorView { paused: false, ..old(self)@ }),
            final(self).control() == old(self).control(),
            !final(self).control_paused(),
    {
        proof {
            use_type_invariant(&*self);
        }
        resume_control(&mut self.controls);
    }

    /// The control on which the event loop waits while forwarding is paused.
    pub fn controls(&self) -> (c: &std::sync::Arc<
        dusa_collection_utils::core::types::controls::ToggleControl,
    >)
        ensures
            *c == self.control(),
    {
        self.controls.shared()
    }

    /// Whether the last call on the monitor's pause control (the one the event loop waits
    /// on) left it paused.
    pub closed spec fn control_paused(&self) -> bool {
        self.controls.is_paused()
    }

    /// The monitor's pause control.
    pub closed spec fn control(&self) -> std::sync::Arc<
        dusa_collection_utils::core::types::controls::ToggleControl,
    > {
        self.controls.shared_control()
    }

    /// Takes the outcome of stopping the event loop: `None` when it was stopped (or there
    /// was none), or the message of the failure, which poisons the monitor.
    pub fn stop(&mut self, failure: Option<String>)
        ensures
            final(self)@ == stopped(old(self)@, failure),
            final(self)@.wf(),
            final(self).control() == old(self).control(),
            final(self).control_paused() == old(self).control_paused(),
    {
        if let Some(msg) = failure {
            self.poison(msg);
        }
        proof {
            use_type_invariant(&*self);
        }
    }

    /// The rules by which the monitor's event loop routes events.
    pub fn event_filter(&self) -> (f: EventFilter)
        ensures
            string_views(f.ignored_dirs@) == self@.ignored,
            f.mode == self@.monitor,
            f.retry_secs == self@.timeout,
    {
        let ignored_dirs = clone_strings(&self.ignored);
        EventFilter { ignored_dirs, mode: self.monitor, retry_secs: self.timeout }
    }

    /// A copy of the recorded errors, oldest first.
    pub fn errors(&self) -> (e: Vec<MonitorError>)
        ensures
            e@.map_values(|x: MonitorError| x@) == self@.errors,
    {
        error_snapshot(&self.status.errors)
    }

    /// Whether the monitor is poisoned.
    pub fn is_poisoned(&self) -> (p: bool)
        ensures
            p == self@.poisoned,
    {
        self.status.poisoned
    }

    /// Whether the watched directory was found gone.
    pub fn is_missing(&self) -> (b: bool)
        ensures
            b == self@.missing,
    {
        self.missing
    }

    /// Whether forwarding is paused.
    pub fn is_paused(&self) -> (b: bool)
        ensures
            b == self@.paused,
    {
        self.controls.paused()
    }

    /// Health checks begun since the monitor was last restored.
    pub fn events(&self) -> (n: u64)
        ensures
            n == self@.events,
    {
        self.events
    }

    /// The watched directory.
    pub fn dir(&self) -> (d: &String)
        ensures
            d@ == self@.dir,
    {
        &self.dir
    }

    /// Whether the watch is recursive.
    pub fn recursive_mode(&self) -> (r: RecursiveMode)
        ensures
            r == self@.recursive,
    {
        self.recursive
    }
}


/// What the runtime saw of the event loop's task.
#[derive(Clone, Copy, Debug, PartialEq, Eq, Structural)]
pub enum HandleState {
    /// The task's slot could not be read just now.
    Busy,
    /// There is no task.
    Absent,
    /// The task is running.
    Running,
    /// The task has ended.
    Finished,
}

/// What the runtime saw of the channel on which events are forwarded.
#[derive(Clone, Copy, Debug, PartialEq, Eq, Structural)]
pub enum ChannelState {
    /// The channel's slot could not be read just now.
    Busy,
    /// There is no channel.
    Absent,
    /// The channel is open.
    Open,
    /// The channel is closed.
    Closed,
}

/// The stage that a health check has reached.
#[derive(Clone, Copy, Debug, PartialEq, Eq, Structural)]
pub enum HealthPhase {
    AwaitTargetDir,
    AwaitHandle,
    AwaitChannel,
    AwaitAbort,
    AwaitReinit,
    AwaitShown,
    Finished,
}

/// What a health check asks the runtime to do next.
#[derive(Clone, Copy, Debug, PartialEq, Eq, Structural)]
pub enum HealthAction {
    /// Look whether the watched directory exists; answer with `TargetDir`.
    CheckTargetDir,
    /// Look at the event loop's task; answer with `Handle`.
    InspectHandle,
    /// Look at the forwarding channel; answer with `Channel`.
    InspectChannel,
    /// Abort the event loop's task, if there is one; answer with `Aborted`.
    AbortHandle,
    /// Set up a new watch and event loop; answer with `Reinitialized`.
    Reinitialize,
    /// Report the monitor's errors, and end the process if `die_on_fail`; answer with
    /// `ErrorsShown`.
    ShowErrors { die_on_fail: bool },
    /// The health check is over.
    Done,
}

/// What the runtime reports back to a health check.
#[derive(Debug)]
pub enum HealthEvent {
    TargetDir { exists: bool },
    Handle(HandleState),
    Channel(ChannelState),
    Aborted { had_handle: bool },
    /// `None` when the new watch and event loop are in place, else the failure's message.
    Reinitialized { failure: Option<String> },
    ErrorsShown,
}

/// A health check in progress: its stage, what it found wrong so far, and whether
/// reporting errors ends the process.
#[derive(Clone, Copy, Debug)]
pub struct HealthCheck {
    pub phase: HealthPhase,
    pub bad_handle: bool,
    pub bad_channel: bool,
    pub bad_errors: bool,
    pub die_on_fail: bool,
}

/// The action that a health check in stage `c.phase` waits to see done.
pub open spec fn awaited_action(c: HealthCheck) -> HealthAction {
    match c.phase {
        HealthPhase::AwaitTargetDir => HealthAction::CheckTargetDir,
        HealthPhase::AwaitHandle => HealthAction::InspectHandle,
        HealthPhase::AwaitChannel => HealthAction::InspectChannel,
        HealthPhase::AwaitAbort => HealthAction::AbortHandle,
        HealthPhase::AwaitReinit => HealthAction::Reinitialize,
        HealthPhase::AwaitShown => HealthAction::ShowErrors { die_on_fail: c.die_on_fail },
        HealthPhase::Finished => HealthAction::Done,
    }
}

/// Move the check to stage `p` and ask for what that stage waits on.
pub open spec fn enter(m: MonitorView, c: HealthCheck, p: HealthPhase) -> (
    MonitorView,
    HealthCheck,
    HealthAction,
) {
    let c2 = HealthCheck { phase: p, ..c };
    (m, c2, awaited_action(c2))
}

/// Restore the monitor and end the check.
pub open spec fn finish_clearing(m: MonitorView, c: HealthCheck) -> (
    MonitorView,
    HealthCheck,
    HealthAction,
) {
    enter(cleared(m), c, HealthPhase::Finished)
}

/// Once the watch is (re)established or left alone: report errors if any were found,
/// else restore the monitor.
pub open spec fn after_reinit(m: MonitorView, c: HealthCheck) -> (
    MonitorView,
    HealthCheck,
    HealthAction,
) {
    if c.bad_errors {
        enter(m, c, HealthPhase::AwaitShown)
    } else {
        finish_clearing(m, c)
    }
}

/// Once the task was aborted (or left alone): with both the task and the channel bad,
/// set up a new watch, unless the directory is missing, which ends the check as it is.
pub open spec fn after_abort(m: MonitorView, c: HealthCheck) -> (
    MonitorView,
    HealthCheck,
    HealthAction,
) {
    if c.bad_channel && c.bad_handle {
        if m.missing {
            enter(m, c, HealthPhase::Finished)
        } else {
            enter(m, c, HealthPhase::AwaitReinit)
        }
    } else {
        after_reinit(m, c)
    }
}

/// Only a poisoned monitor is inspected further.
pub open spec fn poison_gate(m: MonitorView, c: HealthCheck) -> (
    MonitorView,
    HealthCheck,
    HealthAction,
) {
    if m.poisoned {
        enter(m, c, HealthPhase::AwaitHandle)
    } else {
        enter(m, c, HealthPhase::Finished)
    }
}

/// The start of a health check on `m`: the check is counted; a monitor whose directory
/// is not known to be missing first has the directory looked for.
pub open spec fn health_start(m: MonitorView, die_on_fail: bool) -> (
    MonitorView,
    HealthCheck,
    HealthAction,
) {
    let m1 = counted(m);
    let c = HealthCheck {
        phase: HealthPhase::Finished,
        bad_handle: false,
        bad_channel: false,
        bad_errors: false,
        die_on_fail,
    };
    if !m1.missing {
        enter(m1, c, HealthPhase::AwaitTargetDir)
    } else {
        poison_gate(m1, c)
    }
}

/// One step of a health check: the report `e` taken in stage `c.phase`. A report that
/// does not answer the stage's request changes nothing and repeats the request.
pub open spec fn health_step(m: MonitorView, c: HealthCheck, e: HealthEvent) -> (
    MonitorView,
    HealthCheck,
    HealthAction,
) {
    match (c.phase, e) {
        (HealthPhase::AwaitTargetDir, HealthEvent::TargetDir { exists }) => if exists {
            poison_gate(m, c)
        } else {
            poison_gate(MonitorView { missing: true, ..poisoned_by(m, "Target dir gone"@) }, c)
        },
        (HealthPhase::AwaitHandle, HealthEvent::Handle(h)) => enter(
            m,
            HealthCheck {
                bad_handle: h == HandleState::Absent || h == HandleState::Finished,
                ..c
            },
            HealthPhase::AwaitChannel,
        ),
        (HealthPhase::AwaitChannel, HealthEvent::Channel(ch)) => {
            let c1 = HealthCheck {
                bad_channel: ch == ChannelState::Closed,
                bad_errors: m.errors.len() > 0,
                ..c
            };
            if c1.bad_channel {
                enter(m, c1, HealthPhase::AwaitAbort)
            } else {
                after_abort(m, c1)
            }
        },
        (HealthPhase::AwaitAbort, HealthEvent::Aborted { had_handle }) => after_abort(
            m,
            HealthCheck { bad_handle: c.bad_handle || had_handle, ..c },
        ),
        (HealthPhase::AwaitReinit, HealthEvent::Reinitialized { failure }) => match failure {
            None => after_reinit(m, c),
            Some(msg) => enter(
                poisoned_by(poisoned_by(m, msg@), "Failed establishing new channels"@),
                HealthCheck { bad_errors: true, die_on_fail: true, ..c },
                HealthPhase::AwaitShown,
            ),
        },
        (HealthPhase::AwaitShown, HealthEvent::ErrorsShown) => finish_clearing(m, c),
        _ => (m, c, awaited_action(c)),
    }
}

impl RawFileMonitor {
    /// Begins a health check: counts it and says what to do first. A check that finds the
    /// monitor poisoned repairs it; when setting up a new watch fails, the monitor is
    /// poisoned again and the check ends fatally: it asks for the errors to be reported
    /// and the process ended, whatever `die_on_fail` says.
    pub fn health_check(&mut self, die_on_fail: bool) -> (r: (HealthCheck, HealthAction))
        ensures
            (final(self)@, r.0, r.1) == health_start(old(self)@, die_on_fail),
            final(self)@.wf(),
    {
        proof {
            use_type_invariant(&*self);
        }
        self.events = if self.events == u64::MAX { 0 } else { self.events + 1 };
        let mut c = HealthCheck {
            phase: HealthPhase::Finished,
            bad_handle: false,
            bad_channel: false,
            bad_errors: false,
            die_on_fail,
        };
        let a = if !self.missing {
            c.enter(HealthPhase::AwaitTargetDir)
        } else {
            c.poison_gate(self)
        };
        proof {
            use_type_invariant(&*self);
        }
        (c, a)
    }

    fn clear(&mut self)
        ensures
            final(self)@ == cleared(old(self)@),
    {
        self.status = Status::clean();
        self.events = 0;
    }
}

impl HealthCheck {
    /// The action awaited in the current stage.
    pub fn awaited(&self) -> (a: HealthAction)
        ensures
            a == awaited_action(*self),
    {
        match self.phase {
            HealthPhase::AwaitTargetDir => HealthAction::CheckTargetDir,
            HealthPhase::AwaitHandle => HealthAction::InspectHandle,
            HealthPhase::AwaitChannel => HealthAction::InspectChannel,
            HealthPhase::AwaitAbort => HealthAction::AbortHandle,
            HealthPhase::AwaitReinit => HealthAction::Reinitialize,
            HealthPhase::AwaitShown => HealthAction::ShowErrors { die_on_fail: self.die_on_fail },
            HealthPhase::Finished => HealthAction::Done,
        }
    }

    fn enter(&mut self, p: HealthPhase) -> (a: HealthAction)
        ensures
            *final(self) == (HealthCheck { phase: p, ..*old(self) }),
            a == awaited_action(*final(self)),
    {
        self.phase = p;
        self.awaited()
    }

    fn poison_gate(&mut self, m: &RawFileMonitor) -> (a: HealthAction)
        ensures
            (m@, *final(self), a) == poison_gate(m@, *old(self)),
    {
        if m.status.poisoned {
            self.enter(HealthPhase::AwaitHandle)
        } else {
            self.enter(HealthPhase::Finished)
        }
    }

    fn finish_clearing(&mut self, m: &mut RawFileMonitor) -> (a: HealthAction)
        ensures
            (final(m)@, *final(self), a) == finish_clearing(old(m)@, *old(self)),
    {
        m.clear();
        self.enter(HealthPhase::Finished)
    }

    fn after_reinit(&mut self, m: &mut RawFileMonitor) -> (a: HealthAction)
        ensures
            (final(m)@, *final(self), a) == after_reinit(old(m)@, *old(self)),
    {
        if self.bad_errors {
            self.enter(HealthPhase::AwaitShown)
        } else {
            self.finish_clearing(m)
        }
    }

    fn after_abort(&mut self, m: &mut RawFileMonitor) -> (a: HealthAction)
        ensures
            (final(m)@, *final(self), a) == after_abort(old(m)@, *old(self)),
    {
        if self.bad_channel && self.bad_handle {
            if m.missing {
                self.enter(HealthPhase::Finished)
            } else {
                self.enter(HealthPhase::AwaitReinit)
            }
        } else {
            self.after_reinit(m)
        }
    }

    /// Takes the runtime's report `event` and says what to do next.
    pub fn advance(&mut self, monitor: &mut RawFileMonitor, event: HealthEvent) -> (a:
        HealthAction)
        ensures
            (final(monitor)@, *final(self), a) == health_step(old(monitor)@, *old(self), event),
            final(monitor)@.wf(),
    {
        let a = self.step(monitor, event);
        proof {
            use_type_invariant(&*monitor);
        }
        a
    }

    fn step(&mut self, monitor: &mut RawFileMonitor, event: HealthEvent) -> (a: HealthAction)
        ensures
            (final(monitor)@, *final(self), a) == health_step(old(monitor)@, *old(self), event),
    {
        match self.phase {
            HealthPhase::AwaitTargetDir => {
                if let HealthEvent::TargetDir { exists } = event {
                    if !exists {
                        monitor.poison(String::from_str("Target dir gone"));
                        monitor.missing = true;
                    }
                    return self.poison_gate(monitor);
                }
            },
            HealthPhase::AwaitHandle => {
                if let HealthEvent::Handle(h) = event {
                    self.bad_handle = match h {
                        HandleState::Absent | HandleState::Finished => true,
                        _ => false,
                    };
                    return self.enter(HealthPhase::AwaitChannel);
                }
            },
            HealthPhase::AwaitChannel => {
                if let HealthEvent::Channel(ch) = event {
                    self.bad_channel = match ch {
                        ChannelState::Closed => true,
                        _ => false,
                    };
                    self.bad_errors = error_count(&monitor.status.errors) > 0;
                    if self.bad_channel {
                        return self.enter(HealthPhase::AwaitAbort);
                    } else {
                        return self.after_abort(monitor);
                    }
                }
            },
            HealthPhase::AwaitAbort => {
                if let HealthEvent::Aborted { had_handle } = event {
                    self.bad_handle = self.bad_handle || had_handle;
                    return self.after_abort(monitor);
                }
            },
            HealthPhase::AwaitReinit => {
                if let HealthEvent::Reinitialized { failure } = event {
                    if let Some(msg) = failure {
                        monitor.poison(msg);
                        monitor.poison(String::from_str("Failed establishing new channels"));
                        self.bad_errors = true;
                        self.die_on_fail = true;
                        return self.enter(HealthPhase::AwaitShown);
                    }
                    return self.after_reinit(monitor);
                }
            },
            HealthPhase::AwaitShown => {
                if let HealthEvent::ErrorsShown = event {
                    return self.finish_clearing(monitor);
                }
            },
            HealthPhase::Finished => {},
        }
        self.awaited()
    }
}

/// Whether report `e` answers what a check in stage `p` waits for.
pub open spec fn answers(p: HealthPhase, e: HealthEvent) -> bool {
    match (p, e) {
        (HealthPhase::AwaitTargetDir, HealthEvent::TargetDir { .. }) => true,
        (HealthPhase::AwaitHandle, HealthEvent::Handle(_)) => true,
        (HealthPhase::AwaitChannel, HealthEvent::Channel(_)) => true,
        (HealthPhase::AwaitAbort, HealthEvent::Aborted { .. }) => true,
        (HealthPhase::AwaitReinit, HealthEvent::Reinitialized { .. }) => true,
        (HealthPhase::AwaitShown, HealthEvent::ErrorsShown) => true,
        _ => false,
    }
}

/// The position of a stage in the order in which a check passes through the stages.
pub open spec fn rank(p: HealthPhase) -> nat {
    match p {
        HealthPhase::AwaitTargetDir => 0,
        HealthPhase::AwaitHandle => 1,
        HealthPhase::AwaitChannel => 2,
        HealthPhase::AwaitAbort => 3,
        HealthPhase::AwaitReinit => 4,
        HealthPhase::AwaitShown => 5,
        HealthPhase::Finished => 6,
    }
}

/// What holds of a monitor and a check in progress on it: a check that waits for a new
/// watch is never one on a monitor whose directory is missing.
pub open spec fn check_consistent(m: MonitorView, c: HealthCheck) -> bool {
    c.phase == HealthPhase::AwaitReinit ==> !m.missing
}

/// Every step of a health check keeps a monitor poisoned exactly when it holds errors.
pub proof fn lemma_health_keeps_wf(m: MonitorView, c: HealthCheck, e: HealthEvent, die: bool)
    requires
        m.wf(),
    ensures
        health_start(m, die).0.wf(),
        health_step(m, c, e).0.wf(),
{
}

/// A health check always makes progress: a report that answers the awaited request moves
/// the check to a later stage, and any other report changes nothing. So a check ends
/// after at most six answered requests.
pub proof fn lemma_health_progress(m: MonitorView, c: HealthCheck, e: HealthEvent)
    requires
        c.phase != HealthPhase::Finished,
    ensures
        answers(c.phase, e) ==> rank(health_step(m, c, e).1.phase) > rank(c.phase),
        !answers(c.phase, e) ==> health_step(m, c, e) == (m, c, awaited_action(c)),
        health_step(m, c, e).2 == awaited_action(health_step(m, c, e).1),
{
}

/// A health check that ends leaves the monitor restored (not poisoned), unless the
/// watched directory is missing.
pub proof fn lemma_finished_check_restores(
    m: MonitorView,
    c: HealthCheck,
    e: HealthEvent,
    die: bool,
)
    ensures
        health_start(m, die).2 == HealthAction::Done ==> !health_start(m, die).0.poisoned,
        c.phase != HealthPhase::Finished && health_step(m, c, e).2 == HealthAction::Done
            ==> !health_step(m, c, e).0.poisoned || health_step(m, c, e).0.missing,
{
}

/// Once the watched directory is found missing it stays missing, and no health check
/// sets up a new watch on it.
pub proof fn lemma_missing_is_final(m: MonitorView, c: HealthCheck, e: HealthEvent, die: bool)
    requires
        check_consistent(m, c),
    ensures
        check_consistent(health_start(m, die).0, health_start(m, die).1),
        check_consistent(health_step(m, c, e).0, health_step(m, c, e).1),
        m.missing ==> health_start(m, die).0.missing && health_step(m, c, e).0.missing,
        m.missing ==> health_start(m, die).2 != HealthAction::Reinitialize
            && health_step(m, c, e).2 != HealthAction::Reinitialize,
{
}

/// On a monitor that is not poisoned, a health check that finds the directory in place
/// only counts itself and ends.
pub proof fn lemma_healthy_check(m: MonitorView, die: bool)
    requires
        m.wf(),
        !m.poisoned,
        !m.missing,
    ensures
        ({
            let (m1, c1, a1) = health_start(m, die);
            &&& a1 == HealthAction::CheckTargetDir
            &&& health_step(m1, c1, HealthEvent::TargetDir { exists: true }).0 == counted(m)
            &&& health_step(m1, c1, HealthEvent::TargetDir { exists: true }).2
                == HealthAction::Done
        }),
{
}

/// A health check that finds the directory gone poisons the monitor with a record of it
/// and marks the directory missing.
pub proof fn lemma_gone_dir_poisons(m: MonitorView, die: bool)
    requires
        !m.missing,
    ensures
        ({
            let (m1, c1, a1) = health_start(m, die);
            let m2 = health_step(m1, c1, HealthEvent::TargetDir { exists: false }).0;
            &&& m2.poisoned
            &&& m2.missing
            &&& m2.errors.last() == (ErrorKind::InputOutput, "Target dir gone"@)
        }),
{
}

/// Every error recorded before poisoning stays, in its place, and the new one comes last.
pub proof fn lemma_poison_appends(m: MonitorView, reason: Seq<char>)
    ensures
        poisoned_by(m, reason).errors.len() == m.errors.len() + 1,
        poisoned_by(m, reason).errors.take(m.errors.len() as int) == m.errors,
        poisoned_by(m, reason).errors.last() == (ErrorKind::InputOutput, reason),
        poisoned_by(m, reason).wf(),
{
    assert(poisoned_by(m, reason).errors.take(m.errors.len() as int) =~= m.errors);
}

/// Resuming undoes pausing: pause then resume leaves a running monitor as it was.
pub proof fn lemma_pause_resume(m: MonitorView)
    requires
        !m.paused,
    ensures
        (MonitorView { paused: false, ..MonitorView { paused: true, ..m } }) == m,
{
}

/// A new monitor is paused, unpoisoned unless validation found its directory absent, and
/// ignores one joined directory for each ignored sub-directory of its options.
pub proof fn lemma_created(o: crate::options::OptionsView, dir_exists: bool)
    ensures
        created(o, dir_exists).wf(),
        created(o, dir_exists).paused,
        created(o, dir_exists).poisoned <==> o.validate_path && !dir_exists,
        created(o, dir_exists).ignored.len() == o.ignored_subdirs.len(),
        !o.validate_path ==> created(o, true) == created(o, false),
{
}

/// Stopping a second time changes nothing when both stops succeed; a failed stop records
/// its failure, so two failed stops record two errors, in order.
pub proof fn lemma_second_stop_changes_nothing(m: MonitorView, a: String, b: String)
    ensures
        stopped(stopped(m, None), None) == stopped(m, None),
        stopped(m, None) == m,
        stopped(stopped(m, Some(a)), Some(b)).errors == m.errors.push(
            (ErrorKind::InputOutput, a@),
        ).push((ErrorKind::InputOutput, b@)),
{
}

/// A failed set-up of a new watch during a health check is fatal: the monitor records the
/// failure and then that new channels could not be established, and the check asks for
/// the errors to be reported and the process ended.
pub proof fn lemma_failed_reinit_is_fatal(m: MonitorView, c: HealthCheck, msg: String)
    requires
        c.phase == HealthPhase::AwaitReinit,
    ensures
        ({
            let (m2, c2, a2) = health_step(m, c, HealthEvent::Reinitialized { failure: Some(msg) });
            &&& a2 == HealthAction::ShowErrors { die_on_fail: true }
            &&& m2.poisoned
            &&& m2.errors == m.errors.push((ErrorKind::InputOutput, msg@)).push(
                (ErrorKind::InputOutput, "Failed establishing new channels"@),
            )
        }),
{
}

/// A monitor counts as paused exactly when its pause control, the one its event loop
/// waits on, was left paused: pausing and resuming the monitor pause and resume the
/// event loop.
pub proof fn lemma_paused_is_the_control(m: RawFileMonitor)
    ensures
        m@.paused == m.control_paused(),
{
}

/// At the channel stage only a closed channel is bad. A closed channel has the task
/// aborted. Any other report (open, absent, or not readable just now) neither aborts the
/// task nor rebuilds the watch: a monitor holding errors has them reported, one without
/// errors is restored at once.
pub proof fn lemma_channel_stage(m: MonitorView, c: HealthCheck, ch: ChannelState)
    requires
        c.phase == HealthPhase::AwaitChannel,
    ensures
        ({
            let (m2, c2, a2) = health_step(m, c, HealthEvent::Channel(ch));
            &&& c2.bad_channel <==> ch == ChannelState::Closed
            &&& ch == ChannelState::Closed ==> a2 == HealthAction::AbortHandle && m2 == m
            &&& ch != ChannelState::Closed ==> a2 != HealthAction::AbortHandle
                && a2 != HealthAction::Reinitialize
            &&& ch != ChannelState::Closed && m.errors.len() > 0 ==> a2
                == HealthAction::ShowErrors { die_on_fail: c.die_on_fail } && m2 == m
            &&& ch != ChannelState::Closed && m.errors.len() == 0 ==> a2 == HealthAction::Done
                && !m2.poisoned && m2.errors.len() == 0
        }),
{
}

/// A poisoned monitor whose event loop has no channel (never started, or its start
/// failed) is not rebuilt by a health check: the check reports its errors and, once
/// they are shown, restores it.
pub proof fn lemma_absent_channel_restores(m: MonitorView, c: HealthCheck, h: HandleState)
    requires
        c.phase == HealthPhase::AwaitHandle,
        m.wf(),
        m.poisoned,
    ensures
        ({
            let (m1, c1, a1) = health_step(m, c, HealthEvent::Handle(h));
            let (m2, c2, a2) = health_step(m1, c1, HealthEvent::Channel(ChannelState::Absent));
            let (m3, c3, a3) = health_step(m2, c2, HealthEvent::ErrorsShown);
            &&& a1 == HealthAction::InspectChannel
            &&& a2 == HealthAction::ShowErrors { die_on_fail: c.die_on_fail }
            &&& m2 == m
            &&& a3 == HealthAction::Done
            &&& !m3.poisoned
            &&& m3.errors.len() == 0
        }),
{
}

/// At the task stage the check always goes on to the channel and changes nothing of the
/// monitor; the task counts as bad exactly when it is absent or has ended.
pub proof fn lemma_handle_stage(m: MonitorView, c: HealthCheck, h: HandleState)
    requires
        c.phase == HealthPhase::AwaitHandle,
    ensures
        ({
            let (m2, c2, a2) = health_step(m, c, HealthEvent::Handle(h));
            &&& a2 == HealthAction::InspectChannel
            &&& m2 == m
            &&& c2.bad_handle <==> (h == HandleState::Absent || h == HandleState::Finished)
        }),
{
}

} // verus!
