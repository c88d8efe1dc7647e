//! The host capabilities that the shell registers, and their order.

use vstd::prelude::*;

verus! {

/// A host capability that the shell registers when it starts.
#[derive(Clone, Copy, Debug, PartialEq, Eq, Structural)]
pub enum Capability {
    /// Native file and message dialogs.
    Dialog,
    /// Access to the file system.
    FileSystem,
    /// Desktop notifications.
    Notification,
}

/// The capabilities in the order in which the shell registers them:
/// dialogs first, then the file system, then notifications.
pub open spec fn registration_order() -> Seq<Capability> {
    seq![Capability::Dialog, Capability::FileSystem, Capability::Notification]
}

/// Returns the capabilities to register, first to last.
pub fn capabilities() -> (plan: Vec<Capability>)
    ensures
        plan@ == registration_order(),
{
    let mut plan: Vec<Capability> = Vec::new();
    plan.push(Capability::Dialog);
    plan.push(Capability::FileSystem);
    plan.push(Capability::Notification);
    assert(plan@ =~= registration_order());
    plan
}

} // verus!
