//! The configuration of a monitor, built in the builder style.

use vstd::prelude::*;
use crate::event::MonitorMode;
use crate::paths::{clone_strings, string_views};

verus! {

/// Whether a watch covers the sub-directories of the watched directory.
#[derive(Clone, Copy, Debug, PartialEq, Eq, Structural)]
pub enum RecursiveMode {
    /// Watch all sub-directories too, including those created later.
    Recursive,
    /// Watch only the directory itself.
    NonRecursive,
}

/// The abstract content of an [`Options`].
pub struct OptionsView {
    pub target_dir: Seq<char>,
    pub scan_interval: u64,
    pub ignored_subdirs: Seq<Seq<char>>,
    pub recursive_mode: RecursiveMode,
    pub monitor_mode: MonitorMode,
    pub validate_path: bool,
}

/// How a monitor is set up: the directory it watches, the delay (in seconds) before it
/// listens again after its event source failed, the sub-directories whose events it drops,
/// whether the watch is recursive, which events it passes on, and whether it checks on
/// creation that the directory exists.
#[derive(Debug)]
pub struct Options {
    target_dir: String,
    scan_interval: u64,
    ignored_subdirs: Vec<String>,
    recursive_mode: RecursiveMode,
    monitor_mode: MonitorMode,
    validate_path: bool,
}

impl View for Options {
    type V = OptionsView;

    closed spec fn view(&self) -> OptionsView {
        OptionsView {
            target_dir: self.target_dir@,
            scan_interval: self.scan_interval,
            ignored_subdirs: string_views(self.ignored_subdirs@),
            recursive_mode: self.recursive_mode,
            monitor_mode: self.monitor_mode,
            validate_path: self.validate_path,
        }
    }
}

/// The options that `Options::default` gives.
pub open spec fn default_options() -> OptionsView {
    OptionsView {
        target_dir: "/tmp"@,
        scan_interval: 30,
        ignored_subdirs: seq![],
        recursive_mode: RecursiveMode::Recursive,
        monitor_mode: MonitorMode::Modify,
        validate_path: false,
    }
}

impl Clone for Options {
    fn clone(&self) -> (r: Self)
        ensures
            r@ == self@,
    {
        Options {
            target_dir: self.target_dir.clone(),
            scan_interval: self.scan_interval,
            ignored_subdirs: clone_strings(&self.ignored_subdirs),
            recursive_mode: self.recursive_mode,
            monitor_mode: self.monitor_mode,
            validate_path: self.validate_path,
        }
    }
}

impl Options {
    /// Watch "/tmp", recursively, passing on modifications, with a 30-second retry delay,
    /// no ignored sub-directories and no check that the directory exists.
    pub fn default() -> (o: Self)
        ensures
            o@ == default_options(),
    {
        let o = Options {
            target_dir: String::from_str("/tmp"),
            scan_interval: 30,
            ignored_subdirs: Vec::new(),
            recursive_mode: RecursiveMode::Recursive,
            monitor_mode: MonitorMode::Modify,
            validate_path: false,
        };
        proof {
            reveal_strlit("/tmp");
        }
        assert(o@.ignored_subdirs =~= Seq::<Seq<char>>::empty());
        o
    }

    /// Sets the watched directory; returns the options, for further settings.
    pub fn set_target_dir(&mut self, path: String) -> (r: &mut Self)
        ensures
            (*r)@ == (OptionsView { target_dir: path@, ..old(self)@ }),
            *final(self) == *final(r),
    {
        self.target_dir = path;
        self
    }

    /// Sets the retry delay in seconds; returns the options, for further settings.
    pub fn set_interval(&mut self, interval: u64) -> (r: &mut Self)
        ensures
            (*r)@ == (OptionsView { scan_interval: interval, ..old(self)@ }),
            *final(self) == *final(r),
    {
        self.scan_interval = interval;
        self
    }

    /// Adds one ignored sub-directory at the end; returns the options, for further settings.
    pub fn add_ignored_dir(&mut self, path: String) -> (r: &mut Self)
        ensures
            (*r)@ == (OptionsView {
                ignored_subdirs: old(self)@.ignored_subdirs.push(path@),
                ..old(self)@
            }),
            *final(self) == *final(r),
    {
        let ghost before = self.ignored_subdirs@;
        self.ignored_subdirs.push(path);
        assert(string_views(self.ignored_subdirs@) =~= string_views(before).push(path@));
        self
    }

    /// Adds the sub-directories of `paths`, in their order, after those already ignored;
    /// returns the options, for further settings.
    pub fn add_ignored_dirs(&mut self, paths: Vec<String>) -> (r: &mut Self)
        ensures
            (*r)@ == (OptionsView {
                ignored_subdirs: old(self)@.ignored_subdirs + string_views(paths@),
                ..old(self)@
            }),
            *final(self) == *final(r),
    {
        let ghost before = self.ignored_subdirs@;
        let mut paths = paths;
        let ghost added = paths@;
        self.ignored_subdirs.append(&mut paths);
        assert(string_views(self.ignored_subdirs@) =~= string_views(before) + string_views(
            added,
        ));
        self
    }

    /// Sets whether the watch is recursive; returns the options, for further settings.
    pub fn set_mode(&mut self, recursive_mode: RecursiveMode) -> (r: &mut Self)
        ensures
            (*r)@ == (OptionsView { recursive_mode, ..old(self)@ }),
            *final(self) == *final(r),
    {
        self.recursive_mode = recursive_mode;
        self
    }

    /// Sets whether a monitor checks on creation that the directory exists; returns the
    /// options, for further settings.
    pub fn set_validation(&mut self, validate: bool) -> (r: &mut Self)
        ensures
            (*r)@ == (OptionsView { validate_path: validate, ..old(self)@ }),
            *final(self) == *final(r),
    {
        self.validate_path = validate;
        self
    }

    /// Sets which events are passed on; returns the options, for further settings.
    pub fn set_monitor_mode(&mut self, monitor_mode: MonitorMode) -> (r: &mut Self)
        ensures
            (*r)@ == (OptionsView { monitor_mode, ..old(self)@ }),
            *final(self) == *final(r),
    {
        self.monitor_mode = monitor_mode;
        self
    }

    /// Which events are passed on.
    pub fn get_monitor_mode(&self) -> (m: MonitorMode)
        ensures
            m == self@.monitor_mode,
    {
        self.monitor_mode
    }

    /// The watched directory.
    pub fn base_dir(&self) -> (d: String)
        ensures
            d@ == self@.target_dir,
    {
        self.target_dir.clone()
    }

    /// The ignored sub-directories, in the order in which they were added.
    pub fn ignored_dirs(&self) -> (d: Vec<String>)
        ensures
            string_views(d@) == self@.ignored_subdirs,
    {
        clone_strings(&self.ignored_subdirs)
    }

    /// The retry delay in seconds.
    pub fn get_interval(&self) -> (i: u64)
        ensures
            i == self@.scan_interval,
    {
        self.scan_interval
    }

    /// Whether the watch is recursive.
    pub fn get_mode(&self) -> (m: RecursiveMode)
        ensures
            m == self@.recursive_mode,
    {
        self.recursive_mode
    }

    /// Whether a monitor checks on creation that the directory exists.
    pub fn get_validation(&self) -> (v: bool)
        ensures
            v == self@.validate_path,
    {
        self.validate_path
    }
}


/// Adding one ignored sub-directory is adding a list that holds only it.
pub proof fn lemma_add_one_is_add_list(o: OptionsView, path: Seq<char>)
    ensures
        o.ignored_subdirs.push(path) == o.ignored_subdirs + seq![path],
{
    assert(o.ignored_subdirs.push(path) =~= o.ignored_subdirs + seq![path]);
}

/// Adding lists of ignored sub-directories one after the other is adding their
/// concatenation: the order in which they were added is kept.
pub proof fn lemma_add_lists_in_order(o: OptionsView, a: Seq<Seq<char>>, b: Seq<Seq<char>>)
    ensures
        (o.ignored_subdirs + a) + b == o.ignored_subdirs + (a + b),
{
    assert((o.ignored_subdirs + a) + b =~= o.ignored_subdirs + (a + b));
}
} // verus!
