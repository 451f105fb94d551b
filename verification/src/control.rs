//! The control on which a monitor's event loop waits while forwarding is paused: a
//! `ToggleControl` of `dusa_collection_utils`, shared with the event loop, held together
//! with the state in which the last call on it left it. Only the calls below change it.

use vstd::prelude::*;

verus! {

#[verifier::external_type_specification]
#[verifier::external_body]
pub struct ExToggleControl(dusa_collection_utils::core::types::controls::ToggleControl);

/// A shared `ToggleControl` and whether the last call on it paused it.
#[derive(Debug)]
pub struct PauseControl {
    shared: std::sync::Arc<dusa_collection_utils::core::types::controls::ToggleControl>,
    paused: bool,
}

impl PauseControl {
    /// Whether the last call on the control left it paused.
    pub closed spec fn is_paused(&self) -> bool {
        self.paused
    }

    /// The shared control itself.
    pub closed spec fn shared_control(&self) -> std::sync::Arc<
        dusa_collection_utils::core::types::controls::ToggleControl,
    > {
        self.shared
    }

    /// Whether the last call on the control left it paused.
    pub fn paused(&self) -> (p: bool)
        ensures
            p == self.is_paused(),
    {
        self.paused
    }

    /// The shared control, for the event loop to wait on.
    pub fn shared(&self) -> (c: &std::sync::Arc<
        dusa_collection_utils::core::types::controls::ToggleControl,
    >)
        ensures
            *c == self.shared_control(),
    {
        &self.shared
    }
}

/// `ToggleControl::new`, shared. The claim: a new control is not paused (it starts
/// resumed).
#[verifier::external_body]
pub(crate) fn new_control() -> (c: PauseControl)
    ensures
        !c.is_paused(),
{
    let shared = std::sync::Arc::new(
        dusa_collection_utils::core::types::controls::ToggleControl::new(),
    );
    PauseControl { shared, paused: false }
}

/// `ToggleControl::pause` on the shared control. The claim: the same control is left
/// paused (nothing but this library's calls pauses or resumes it), and the call does not
/// panic: it stores an atomic flag and wakes the waiting tasks.
#[verifier::external_body]
pub(crate) fn pause_control(c: &mut PauseControl)
    ensures
        final(c).is_paused(),
        final(c).shared_control() == old(c).shared_control(),
    no_unwind
{
    c.shared.pause();
    c.paused = true;
}

/// `ToggleControl::resume` on the shared control. The claim: the same control is left
/// resumed (nothing but this library's calls pauses or resumes it), and the call does not
/// panic: it stores an atomic flag and wakes the waiting tasks.
#[verifier::external_body]
pub(crate) fn resume_control(c: &mut PauseControl)
    ensures
        !final(c).is_paused(),
        final(c).shared_control() == old(c).shared_control(),
    no_unwind
{
    c.shared.resume();
    c.paused = false;
}

} // verus!
