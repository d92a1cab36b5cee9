//! Plugin module loading: the required entry-point table.
//!
//! A plugin module must export a fixed, ordered set of entry points, each
//! resolved strictly by exact symbol name. The shell opens the module and
//! resolves each name to an address; this module decides whether that
//! resolution yields a complete function table. Any missing symbol fails
//! the whole load with no partial table installed.

use vstd::prelude::*;

use crate::result::Error;

verus! {

broadcast use vstd::string::group_string_axioms;

/// How many entry points a plugin module must export.
pub const SYMBOL_COUNT: usize = 25;

/// The name of the `i`-th required entry point.
pub open spec fn spec_symbol_name(i: int) -> Seq<char> {
    if i == 0 {
        "retro_set_environment"@
    } else if i == 1 {
        "retro_set_video_refresh"@
    } else if i == 2 {
        "retro_set_audio_sample"@
    } else if i == 3 {
        "retro_set_audio_sample_batch"@
    } else if i == 4 {
        "retro_set_input_poll"@
    } else if i == 5 {
        "retro_set_input_state"@
    } else if i == 6 {
        "retro_init"@
    } else if i == 7 {
        "retro_deinit"@
    } else if i == 8 {
        "retro_api_version"@
    } else if i == 9 {
        "retro_get_system_info"@
    } else if i == 10 {
        "retro_get_system_av_info"@
    } else if i == 11 {
        "retro_set_controller_port_device"@
    } else if i == 12 {
        "retro_reset"@
    } else if i == 13 {
        "retro_run"@
    } else if i == 14 {
        "retro_serialize_size"@
    } else if i == 15 {
        "retro_serialize"@
    } else if i == 16 {
        "retro_unserialize"@
    } else if i == 17 {
        "retro_cheat_reset"@
    } else if i == 18 {
        "retro_cheat_set"@
    } else if i == 19 {
        "retro_load_game"@
    } else if i == 20 {
        "retro_load_game_special"@
    } else if i == 21 {
        "retro_unload_game"@
    } else if i == 22 {
        "retro_get_region"@
    } else if i == 23 {
        "retro_get_memory_data"@
    } else {
        "retro_get_memory_size"@
    }
}

/// The required entry points, in the fixed order of the table. The shell
/// resolves exactly these names, in this order.
pub fn required_symbols() -> (r: Vec<&'static str>)
    ensures
        r@.len() == SYMBOL_COUNT,
        forall|i: int| 0 <= i < SYMBOL_COUNT ==> r@[i]@ == #[trigger] spec_symbol_name(i),
{
    let r = vec![
        "retro_set_environment",
        "retro_set_video_refresh",
        "retro_set_audio_sample",
        "retro_set_audio_sample_batch",
        "retro_set_input_poll",
        "retro_set_input_state",
        "retro_init",
        "retro_deinit",
        "retro_api_version",
        "retro_get_system_info",
        "retro_get_system_av_info",
        "retro_set_controller_port_device",
        "retro_reset",
        "retro_run",
        "retro_serialize_size",
        "retro_serialize",
        "retro_unserialize",
        "retro_cheat_reset",
        "retro_cheat_set",
        "retro_load_game",
        "retro_load_game_special",
        "retro_unload_game",
        "retro_get_region",
        "retro_get_memory_data",
        "retro_get_memory_size",
    ];
    r
}

/// A plugin's fully resolved function table: one address for each required
/// entry point, in the fixed order. Only complete tables exist; a load
/// with any unresolved symbol installs nothing.
pub struct FunctionTable {
    pub addrs: Vec<u64>,
}

impl View for FunctionTable {
    type V = Seq<u64>;

    open spec fn view(&self) -> Seq<u64> {
        self.addrs@
    }
}

impl FunctionTable {
    /// A table is well formed when every required entry point is present.
    pub open spec fn wf(&self) -> bool {
        self.addrs@.len() == SYMBOL_COUNT
    }

    /// The resolved address of the `i`-th entry point.
    pub fn addr(&self, i: usize) -> (r: u64)
        requires
            self.wf(),
            i < SYMBOL_COUNT,
        ensures
            r == self@[i as int],
    {
        self.addrs[i]
    }
}

/// Whether a resolution outcome is complete: one address for every
/// required symbol.
pub open spec fn spec_resolution_complete(symbols: Seq<Option<u64>>) -> bool {
    &&& symbols.len() == SYMBOL_COUNT
    &&& forall|i: int| 0 <= i < symbols.len() ==> symbols[i] is Some
}

/// Builds the function table from the addresses the shell resolved,
/// atomically: a table exactly when every symbol resolved, and the whole
/// load fails otherwise.
pub fn build_function_table(symbols: &Vec<Option<u64>>) -> (r: Result<FunctionTable, Error>)
    ensures
        r is Ok <==> spec_resolution_complete(symbols@),
        match r {
            Ok(t) => t.wf() && forall|i: int|
                0 <= i < SYMBOL_COUNT ==> t@[i] == symbols@[i].unwrap(),
            Err(e) => e == Error::LibError,
        },
{
    if symbols.len() != SYMBOL_COUNT {
        return Err(Error::LibError);
    }
    let mut addrs: Vec<u64> = Vec::new();
    let mut i: usize = 0;
    while i < symbols.len()
        invariant
            i <= symbols@.len(),
            symbols@.len() == SYMBOL_COUNT,
            addrs@.len() == i,
            forall|j: int| 0 <= j < i ==> symbols@[j] is Some,
            forall|j: int| 0 <= j < i ==> addrs@[j] == symbols@[j].unwrap(),
        decreases symbols@.len() - i,
    {
        match symbols[i] {
            Some(addr) => {
                addrs.push(addr);
            }
            None => {
                return Err(Error::LibError);
            }
        }
        i = i + 1;
    }
    Ok(FunctionTable { addrs })
}

} // verus!
