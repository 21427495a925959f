//! The capability plugins that the application host is given.

use vstd::prelude::*;

verus! {

/// Minimum severity that a logger lets through, from `Off` (nothing) to
/// `Trace` (everything).
#[derive(PartialEq, Eq, Structural, Clone, Copy, Debug)]
pub enum LogFilter {
    Off,
    Error,
    Warn,
    Info,
    Debug,
    Trace,
}

/// A plugin attached to the application host.
#[derive(PartialEq, Eq, Structural, Clone, Copy, Debug)]
pub enum Plugin {
    /// Native open and save dialogs.
    Dialog,
    /// Leveled log output, filtered to `min_level` and above.
    Log { min_level: LogFilter },
}

/// The plugins handed to the host builder, before the host runs.
pub open spec fn build_time_plugins() -> Seq<Plugin> {
    seq![Plugin::Dialog]
}

/// The logging plugin of a debug build: informational messages and above.
pub open spec fn debug_log_plugin() -> Plugin {
    Plugin::Log { min_level: LogFilter::Info }
}

/// Returns the plugins that the host builder registers, in order.
pub fn builder_plugins() -> (r: Vec<Plugin>)
    ensures
        r@ == build_time_plugins(),
{
    let r = vec![Plugin::Dialog];
    assert(r@ =~= build_time_plugins());
    r
}

} // verus!
