//! The kinds of failure that the host knows, and what it does about each.

use vstd::prelude::*;

verus! {

/// What went wrong.
#[derive(Clone, Copy, Debug, PartialEq, Eq, Structural)]
pub enum Fault {
    /// The GPIO driver reported a failure.
    Hardware,
    /// A handle is unknown to its table, or its capability was deleted.
    Handle,
    /// The update service cannot be reached, or its answer cannot be read.
    Transport,
    /// A staged artifact has the wrong checksum or the wrong magic.
    Integrity,
    /// A directory or a file is missing or cannot be read.
    Filesystem,
    /// An artifact could not be loaded, instantiated or invoked.
    Sandbox,
}

/// The activity in which a fault came up.
#[derive(Clone, Copy, Debug, PartialEq, Eq, Structural)]
pub enum Activity {
    /// Running the plugins of the active directory.
    Execution,
    /// A cycle of the update pipeline.
    Update,
}

/// What the host does about a fault.
#[derive(Clone, Copy, Debug, PartialEq, Eq, Structural)]
pub enum Recovery {
    /// The capability operation reports a failure to the plugin; the host goes on.
    ReportToPlugin,
    /// The plugin's instantiation ends.
    EndInstantiation,
    /// The update cycle ends as if no update were there.
    NoUpdate,
    /// The staged artifact is deleted; nothing is promoted.
    Cleanup,
    /// The update cycle is skipped.
    SkipCycle,
    /// The whole host ends.
    EndHost,
}

/// The rule that says how each fault is met.
pub open spec fn recovery_of(fault: Fault, activity: Activity) -> Recovery {
    match fault {
        Fault::Hardware => Recovery::ReportToPlugin,
        Fault::Handle => Recovery::EndInstantiation,
        Fault::Transport => Recovery::NoUpdate,
        Fault::Integrity => Recovery::Cleanup,
        Fault::Filesystem => match activity {
            Activity::Execution => Recovery::EndHost,
            Activity::Update => Recovery::SkipCycle,
        },
        Fault::Sandbox => Recovery::EndHost,
    }
}

/// How the host meets `fault` when it comes up during `activity`.
pub fn recovery(fault: Fault, activity: Activity) -> (r: Recovery)
    ensures
        r == recovery_of(fault, activity),
{
    match fault {
        Fault::Hardware => Recovery::ReportToPlugin,
        Fault::Handle => Recovery::EndInstantiation,
        Fault::Transport => Recovery::NoUpdate,
        Fault::Integrity => Recovery::Cleanup,
        Fault::Filesystem => match activity {
            Activity::Execution => Recovery::EndHost,
            Activity::Update => Recovery::SkipCycle,
        },
        Fault::Sandbox => Recovery::EndHost,
    }
}

/// Whether `fault` ends the host when it comes up during `activity`.
pub fn is_fatal(fault: Fault, activity: Activity) -> (r: bool)
    ensures
        r == (recovery_of(fault, activity) == Recovery::EndHost || recovery_of(fault, activity)
            == Recovery::EndInstantiation),
{
    match recovery(fault, activity) {
        Recovery::EndHost => true,
        Recovery::EndInstantiation => true,
        _ => false,
    }
}

} // verus!
