use vstd::prelude::*;

use crate::routing::{names_of, planned_routing, RoutingTable, RoutingView};
use crate::severity::{resolve_level, resolved_level, Severity};

verus! {

/// What a call of `initialize` asks its caller to do.
pub enum InitStep {
    /// Logging was configured before: warn and leave everything as it is.
    AlreadyInitialized,
    /// Attach the sinks with this level and table, then install the panic bridge.
    Configure { level: Severity, table: RoutingTable },
}

/// Whether `initialize` asks for configuration from a guard in state `set`.
pub open spec fn configures(set: bool) -> bool {
    !set
}

/// The guard's state after `initialize` from state `set`: always set.
pub open spec fn guard_after(set: bool) -> bool {
    true
}

/// A write-once flag: unset when made, set by the first `initialize`, never
/// reset.
pub struct InitGuard {
    set: bool,
}

impl View for InitGuard {
    type V = bool;

    closed spec fn view(&self) -> bool {
        self.set
    }
}

/// The optional text of an environment level, as characters.
pub open spec fn text_view(t: Option<&str>) -> Option<Seq<char>> {
    match t {
        Some(s) => Some(s@),
        None => None,
    }
}

impl InitGuard {
    /// A guard that nothing has initialized yet.
    pub fn new() -> (r: InitGuard)
        ensures
            !r@,
    {
        InitGuard { set: false }
    }

    /// Whether logging has been configured through this guard.
    pub fn is_initialized(&self) -> (r: bool)
        ensures
            r == self@,
    {
        self.set
    }

    /// Decides the one-time configuration. The first call sets the guard and
    /// returns the resolved level with its routing table; every later call
    /// returns `AlreadyInitialized` and changes nothing.
    pub fn initialize(
        &mut self,
        level_override: Option<Severity>,
        env_text: Option<&str>,
        root: &str,
        elevated: &[&str],
        suppressed: &[&str],
    ) -> (step: InitStep)
        ensures
            final(self)@ == guard_after(old(self)@),
            configures(old(self)@) <==> step is Configure,
            match step {
                InitStep::AlreadyInitialized => true,
                InitStep::Configure { level, table } => {
                    &&& level == resolved_level(level_override, text_view(env_text))
                    &&& table@ == planned_routing(level, root@, names_of(elevated@), names_of(suppressed@))
                },
            },
    {
        if self.set {
            return InitStep::AlreadyInitialized;
        }
        let level = resolve_level(level_override, env_text);
        let table = RoutingTable::plan(level, root, elevated, suppressed);
        self.set = true;
        InitStep::Configure { level, table }
    }
}

/// Once `initialize` has run, running it again asks for no configuration
/// and leaves the guard as it was.
pub proof fn initialize_configures_once(set: bool)
    ensures
        !configures(guard_after(set)),
        guard_after(guard_after(set)) == guard_after(set),
{
}

} // verus!
