//! Boot configuration: the one mutable decision of the whole sequence, the
//! debug flag, held as an explicit value handed to the components that trace,
//! rather than a process-global cell.

use crate::cmdline::spec_cmdline_get;
use vstd::prelude::*;

verus! {

/// `"debug"` as bytes.
pub const DEBUG_KEY: [u8; 5] = [100u8, 101u8, 98u8, 117u8, 103u8];

/// Is the `debug` flag present on the command line (bare or as `debug=`)?
pub open spec fn spec_debug_enabled(cmdline: Seq<u8>) -> bool {
    spec_cmdline_get(cmdline, DEBUG_KEY@) is Some
}

/// Decide the debug flag from the command line.
pub fn debug_enabled(cmdline: &[u8]) -> (r: bool)
    ensures
        r == spec_debug_enabled(cmdline@),
{
    let v = crate::cmdline::cmdline_get(cmdline, DEBUG_KEY.as_slice());
    v.is_some()
}

/// The configuration threaded through the boot sequence.
pub struct BootConfig {
    /// Verbose tracing requested on the kernel command line.
    pub debug: bool,
}

impl BootConfig {
    /// A fresh configuration: tracing off.
    pub fn new() -> (r: BootConfig)
        ensures
            !r.debug,
    {
        BootConfig { debug: false }
    }

    /// Turn tracing on or off.
    pub fn set_debug(&mut self, enabled: bool)
        ensures
            final(self).debug == enabled,
    {
        self.debug = enabled;
    }

    /// The configuration a command line asks for.
    pub fn from_cmdline(cmdline: &[u8]) -> (r: BootConfig)
        ensures
            r.debug == spec_debug_enabled(cmdline@),
    {
        BootConfig { debug: debug_enabled(cmdline) }
    }
}

} // verus!
