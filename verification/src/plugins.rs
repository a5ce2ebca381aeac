//! The capabilities the shell attaches at startup, and their order.

use vstd::prelude::*;

verus! {

/// One capability module attached to the application builder.
#[derive(Clone, Copy, Debug, PartialEq, Eq, Structural)]
pub enum Plugin {
    /// Redirects a second launch to the instance already running.
    SingleInstance,
    /// File system access.
    Fs,
    /// Native dialogs.
    Dialog,
    /// Desktop notifications.
    Notification,
    /// The log sink.
    Log,
    /// SQL databases.
    Sql,
    /// Opening URLs and files with the system's handlers.
    Opener,
}

/// The order of attachment. The single-instance guard comes first, so that a
/// second launch is turned away before any other capability starts work.
pub open spec fn startup_order() -> Seq<Plugin> {
    seq![
        Plugin::SingleInstance,
        Plugin::Fs,
        Plugin::Dialog,
        Plugin::Notification,
        Plugin::Log,
        Plugin::Sql,
        Plugin::Opener,
    ]
}

/// In `order` the single-instance guard stands before every other plugin.
pub open spec fn guard_first(order: Seq<Plugin>) -> bool {
    &&& order.len() > 0
    &&& order[0] == Plugin::SingleInstance
    &&& forall|i: int| 0 < i < order.len() ==> order[i] != Plugin::SingleInstance
}

/// The plugins in the order in which they are attached: each of the seven
/// once, the single-instance guard first.
pub fn plugin_order() -> (order: Vec<Plugin>)
    ensures
        order@ == startup_order(),
        guard_first(order@),
        order@.no_duplicates(),
{
    let mut order: Vec<Plugin> = Vec::new();
    order.push(Plugin::SingleInstance);
    order.push(Plugin::Fs);
    order.push(Plugin::Dialog);
    order.push(Plugin::Notification);
    order.push(Plugin::Log);
    order.push(Plugin::Sql);
    order.push(Plugin::Opener);
    assert(order@ =~= startup_order());
    order
}

} // verus!
