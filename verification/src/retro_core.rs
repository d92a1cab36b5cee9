//! An owning wrapper over one loaded core, for callers that want the
//! host's lifecycle tied to a value's lifetime.

use vstd::prelude::*;

use crate::frontend::CoreLoadResult;
use crate::frontend::Frontend;
use crate::frontend::GameLoadOutcome;
use crate::frontend::LifecycleState;
use crate::libretro_abi::API_VERSION;
use crate::loader::spec_resolution_complete;
use crate::result::Error;

verus! {

/// A host context whose core was loaded when the value was made: holding
/// a `Core` means holding a loaded core, until the shell unloads it and
/// gives the value up.
pub struct Core {
    pub frontend: Frontend,
}

impl Core {
    /// Loads a core into a fresh host context from what the shell
    /// observed, exactly as [`Frontend::load_core`] decides it, and keeps
    /// the context. The value exists only when the whole load succeeded.
    pub fn load(load: CoreLoadResult) -> (r: Result<Core, Error>)
        ensures
            match r {
                Ok(c) => {
                    &&& c.frontend.wf()
                    &&& c.frontend.spec_core_loaded()
                    &&& c.frontend.lifecycle() == LifecycleState::CoreLoaded
                    &&& load.module is Some
                    &&& spec_resolution_complete(load.symbols@)
                    &&& load.api_version == API_VERSION
                },
                Err(e) => {
                    if load.module is None {
                        e == Error::LibError
                    } else if !spec_resolution_complete(load.symbols@) {
                        e == Error::LibError
                    } else {
                        &&& load.api_version != API_VERSION
                        &&& e == (Error::InvalidLibRetroAPI {
                            expected: API_VERSION,
                            got: load.api_version,
                        })
                    }
                },
            },
    {
        let mut frontend = Frontend::new();
        match frontend.load_core(load) {
            Ok(u) => Ok(Core { frontend }),
            Err(e) => Err(e),
        }
    }

    /// Loads a game into the held core, exactly as
    /// [`Frontend::load_game`] decides it.
    pub fn load_game(&mut self, outcome: GameLoadOutcome) -> (r: Result<(), Error>)
        requires
            old(self).frontend.wf(),
        ensures
            final(self).frontend.wf(),
            !old(self).frontend.spec_core_loaded() ==> r == Err::<(), Error>(Error::CoreNotLoaded)
                && final(self).frontend@ == old(self).frontend@,
            old(self).frontend.spec_core_loaded() ==> match outcome {
                GameLoadOutcome::ReadFailed => r == Err::<(), Error>(Error::IoError)
                    && final(self).frontend@ == old(self).frontend@,
                GameLoadOutcome::CoreRejected => r == Err::<(), Error>(Error::RomLoadFailed)
                    && final(self).frontend@ == old(self).frontend@,
                GameLoadOutcome::CoreAccepted => r == Ok::<(), Error>(())
                    && final(self).frontend.lifecycle() == LifecycleState::GameLoaded,
            },
    {
        self.frontend.load_game(outcome)
    }

    /// Unloads the game if one is loaded, exactly as
    /// [`Frontend::unload_game`] decides it: the returned flag says
    /// whether the shell must invoke the plugin's unload-game entry
    /// point.
    pub fn unload_game(&mut self) -> (r: Result<bool, Error>)
        requires
            old(self).frontend.wf(),
        ensures
            final(self).frontend.wf(),
            !old(self).frontend.spec_core_loaded() ==> r == Err::<bool, Error>(
                Error::CoreNotLoaded,
            ) && final(self).frontend@ == old(self).frontend@,
            old(self).frontend.spec_core_loaded() ==> r == Ok::<bool, Error>(
                old(self).frontend.game_loaded,
            ) && final(self).frontend.lifecycle() == LifecycleState::CoreLoaded,
    {
        self.frontend.unload_game()
    }
}

} // verus!
