//! The host's error taxonomy.

use vstd::prelude::*;

verus! {

/// Errors returned by lifecycle operations on the host.
///
/// Protocol-level malformed input from a plugin is never an `Error`: the
/// environment dispatcher reports "not handled" to the plugin instead.
#[derive(Clone, Copy, Debug, PartialEq, Eq, Structural)]
pub enum Error {
    /// Opening the plugin module or resolving one of its required symbols
    /// failed.
    LibError,
    /// Reading a content file for the plugin failed.
    IoError,
    /// The plugin reports an ABI version other than the one this host
    /// implements.
    InvalidLibRetroAPI { expected: u32, got: u32 },
    /// No plugin is currently loaded into the host.
    CoreNotLoaded,
    /// A plugin is already loaded into the host.
    CoreAlreadyLoaded,
    /// The plugin rejected the content it was asked to load.
    RomLoadFailed,
    /// A second host context was constructed while one is already active.
    /// The native plugin ABI is not reentrant, so exactly one host may be
    /// active process-wide at a time.
    HostAlreadyActive,
}

} // verus!
