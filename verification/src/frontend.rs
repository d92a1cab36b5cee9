//! The host context: lifecycle state machine, plugin loading decisions,
//! and input routing.
//!
//! A [`Frontend`] owns everything scoped to the lifetime of one active
//! plugin: the resolved function table, the cached plugin metadata, the
//! video conversion state, the declared configuration variables and the
//! plugged input devices. The shell performs the foreign calls; every
//! decision about them is made here, on their results as plain values.

use vstd::prelude::*;

use crate::input_devices::Device;
use crate::input_devices::InputDevice;
use crate::libretro_abi::API_VERSION;
use crate::libretro_abi::DEVICE_NONE;
use crate::libretro_abi::PixelFormat;
use crate::libretro_abi::SystemAvInfo;
use crate::libretro_abi::SystemInfo;
use crate::libretro_abi::SystemInfoV;
use crate::libretro_core_variable::CoreVariable;
use crate::libretro_core_variable::CoreVariableV;
use crate::loader::FunctionTable;
use crate::loader::build_function_table;
use crate::loader::spec_resolution_complete;
use crate::result::Error;

verus! {

/// The lifecycle states of the host. A game can only be loaded into a
/// loaded core, so `GameLoaded` implies a core is present.
#[derive(Clone, Copy, Debug, PartialEq, Eq, Structural)]
pub enum LifecycleState {
    Unloaded,
    CoreLoaded,
    GameLoaded,
}

/// The abstract state of a [`Frontend`].
#[verifier::ext_equal]
pub struct FrontendV {
    pub core_api: Option<Seq<u64>>,
    pub core_library: Option<u64>,
    pub game_loaded: bool,
    pub av_info: Option<SystemAvInfo>,
    pub sys_info: Option<SystemInfoV>,
    pub pixel_format: PixelFormat,
    pub converted_pixel_buffer: Seq<u32>,
    pub fb_width: u32,
    pub fb_height: u32,
    pub fb_pitch: u32,
    pub gl_fbo_id: u32,
    pub system_directory: Seq<char>,
    pub save_directory: Seq<char>,
    pub config_directory: Seq<char>,
    pub variables: Seq<(Seq<char>, CoreVariableV)>,
    pub input_devices: Seq<(u32, Device)>,
}

/// The host context. Exactly one may be active process-wide at a time
/// (see [`HostSlot`]): the plugin ABI's callbacks carry no user data
/// pointer, so the shell must reach the active context through a single
/// well-known slot.
pub struct Frontend {
    /// The loaded plugin's resolved entry-point table.
    pub core_api: Option<FunctionTable>,
    /// The shell's handle for the loaded plugin module.
    pub core_library: Option<u64>,
    /// Whether a game is loaded into the plugin.
    pub game_loaded: bool,
    /// Cached plugin audio/video metadata; present while a core is loaded.
    pub av_info: Option<SystemAvInfo>,
    /// Cached plugin static metadata; present while a core is loaded.
    pub sys_info: Option<SystemInfo>,
    /// The pixel format the plugin selected for its video output.
    pub pixel_format: PixelFormat,
    /// Scratch buffer for pixel-format conversion, kept to avoid
    /// reallocating for every frame.
    pub converted_pixel_buffer: Vec<u32>,
    /// Current framebuffer geometry.
    pub fb_width: u32,
    pub fb_height: u32,
    pub fb_pitch: u32,
    /// The render-target identifier handed to hardware-rendering plugins.
    pub gl_fbo_id: u32,
    /// Directory the plugin may read system data from; handed to the
    /// plugin as a stable string for its whole lifetime.
    pub system_directory: String,
    /// Directory the plugin may keep saves in.
    pub save_directory: String,
    /// Directory per-plugin configuration is kept under.
    pub config_directory: String,
    /// The plugin's declared configuration variables, keyed by name.
    /// Keys are unique; the last declaration of a name wins.
    pub variables: Vec<(String, CoreVariable)>,
    /// The plugged input devices, keyed by port. Ports are unique.
    pub input_devices: Vec<(u32, Device)>,
}

/// The abstract value of the variable table.
pub open spec fn vars_view(vars: Seq<(String, CoreVariable)>) -> Seq<(Seq<char>, CoreVariableV)> {
    vars.map_values(|p: (String, CoreVariable)| (p.0@, p.1@))
}

impl View for Frontend {
    type V = FrontendV;

    open spec fn view(&self) -> FrontendV {
        FrontendV {
            core_api: match self.core_api {
                Some(t) => Some(t@),
                None => None,
            },
            core_library: self.core_library,
            game_loaded: self.game_loaded,
            av_info: self.av_info,
            sys_info: match self.sys_info {
                Some(s) => Some(s@),
                None => None,
            },
            pixel_format: self.pixel_format,
            converted_pixel_buffer: self.converted_pixel_buffer@,
            fb_width: self.fb_width,
            fb_height: self.fb_height,
            fb_pitch: self.fb_pitch,
            gl_fbo_id: self.gl_fbo_id,
            system_directory: self.system_directory@,
            save_directory: self.save_directory@,
            config_directory: self.config_directory@,
            variables: vars_view(self.variables@),
            input_devices: self.input_devices@,
        }
    }
}

/// The first index holding variable `key`, or the table length if absent.
pub open spec fn var_index(vars: Seq<(Seq<char>, CoreVariableV)>, key: Seq<char>) -> nat
    decreases vars.len(),
{
    if vars.len() == 0 {
        0
    } else if vars[0].0 == key {
        0
    } else {
        1 + var_index(vars.skip(1), key)
    }
}

/// Whether the table declares variable `key`.
pub open spec fn has_var(vars: Seq<(Seq<char>, CoreVariableV)>, key: Seq<char>) -> bool {
    var_index(vars, key) < vars.len()
}

/// `var_index` returns exactly the position of the first entry for `key`.
pub proof fn lemma_var_index_is(vars: Seq<(Seq<char>, CoreVariableV)>, key: Seq<char>, k: nat)
    requires
        k <= vars.len(),
        forall|j: int| 0 <= j < k ==> vars[j].0 != key,
        k < vars.len() ==> vars[k as int].0 == key,
    ensures
        var_index(vars, key) == k,
    decreases vars.len(),
{
    if vars.len() == 0 {
    } else if vars[0].0 == key {
        assert(k == 0);
    } else {
        assert(k >= 1);
        lemma_var_index_is(vars.skip(1), key, (k - 1) as nat);
    }
}

/// Basic bounds of `var_index`: it never passes the end, what it finds
/// holds `key`, and nothing before it does.
pub proof fn lemma_var_index_bounds(vars: Seq<(Seq<char>, CoreVariableV)>, key: Seq<char>)
    ensures
        var_index(vars, key) <= vars.len(),
        var_index(vars, key) < vars.len() ==> vars[var_index(vars, key) as int].0 == key,
        forall|j: int| 0 <= j < var_index(vars, key) ==> vars[j].0 != key,
    decreases vars.len(),
{
    if vars.len() == 0 {
    } else if vars[0].0 == key {
    } else {
        lemma_var_index_bounds(vars.skip(1), key);
        assert forall|j: int| 0 <= j < var_index(vars, key) implies vars[j].0 != key by {
            if j >= 1 {
                assert(vars.skip(1)[j - 1].0 != key);
            }
        }
    }
}

/// The value a variable reports: its selected value, or its first choice
/// while none is selected.
pub open spec fn var_value(v: CoreVariableV) -> Seq<char> {
    match v.value {
        Some(s) => s,
        None => v.choices[0],
    }
}

/// The first index holding port `port`, or the list length if absent.
pub open spec fn port_index(devs: Seq<(u32, Device)>, port: u32) -> nat
    decreases devs.len(),
{
    if devs.len() == 0 {
        0
    } else if devs[0].0 == port {
        0
    } else {
        1 + port_index(devs.skip(1), port)
    }
}

/// `port_index` returns exactly the position of the first entry for
/// `port`.
pub proof fn lemma_port_index_is(devs: Seq<(u32, Device)>, port: u32, k: nat)
    requires
        k <= devs.len(),
        forall|j: int| 0 <= j < k ==> devs[j].0 != port,
        k < devs.len() ==> devs[k as int].0 == port,
    ensures
        port_index(devs, port) == k,
    decreases devs.len(),
{
    if devs.len() == 0 {
    } else if devs[0].0 == port {
        assert(k == 0);
    } else {
        assert(k >= 1);
        lemma_port_index_is(devs.skip(1), port, (k - 1) as nat);
    }
}

/// Basic bounds of `port_index`: it never passes the end, what it finds
/// holds `port`, and nothing before it does.
pub proof fn lemma_port_index_bounds(devs: Seq<(u32, Device)>, port: u32)
    ensures
        port_index(devs, port) <= devs.len(),
        port_index(devs, port) < devs.len() ==> devs[port_index(devs, port) as int].0 == port,
        forall|j: int| 0 <= j < port_index(devs, port) ==> devs[j].0 != port,
    decreases devs.len(),
{
    if devs.len() == 0 {
    } else if devs[0].0 == port {
    } else {
        lemma_port_index_bounds(devs.skip(1), port);
        assert forall|j: int| 0 <= j < port_index(devs, port) implies devs[j].0 != port by {
            if j >= 1 {
                assert(devs.skip(1)[j - 1].0 != port);
            }
        }
    }
}

/// Whether a device is plugged into `port`.
pub open spec fn has_port(devs: Seq<(u32, Device)>, port: u32) -> bool {
    port_index(devs, port) < devs.len()
}

/// What an input state query answers: zero if the port is unplugged or
/// the queried device class does not match the plugged device's declared
/// class, else that device's state for the queried button id.
pub open spec fn spec_input_state(
    devs: Seq<(u32, Device)>,
    port: u32,
    device_type: u32,
    id: u32,
) -> i16 {
    if has_port(devs, port) {
        let d = devs[port_index(devs, port) as int].1;
        if d.spec_device_type() == device_type {
            d.spec_button(id)
        } else {
            0i16
        }
    } else {
        0i16
    }
}

impl Frontend {
    /// Both halves of a loaded core are present: the module handle and the
    /// fully resolved function table. The well-formedness invariant keeps
    /// the two in step, so neither is ever present alone.
    pub open spec fn spec_core_loaded(&self) -> bool {
        self.core_library is Some && self.core_api is Some
    }

    /// The lifecycle state, derived from the owned state.
    pub open spec fn lifecycle(&self) -> LifecycleState {
        if self.game_loaded {
            LifecycleState::GameLoaded
        } else if self.spec_core_loaded() {
            LifecycleState::CoreLoaded
        } else {
            LifecycleState::Unloaded
        }
    }

    /// The host invariant: module handle and function table present
    /// together or not at all, an installed table complete, plugin
    /// metadata cached exactly while a core is loaded, a game only loaded
    /// into a loaded core, every declared variable well formed under a
    /// unique key, and at most one device per port.
    pub open spec fn wf(&self) -> bool {
        &&& self.core_library is Some <==> self.core_api is Some
        &&& self.core_api matches Some(t) ==> t.wf()
        &&& self.spec_core_loaded() ==> self.av_info is Some && self.sys_info is Some
        &&& self.game_loaded ==> self.spec_core_loaded()
        &&& forall|i: int| 0 <= i < self.variables@.len() ==> (#[trigger] self.variables@[i].1).wf()
        &&& forall|i: int, j: int|
            0 <= i < j < self.variables@.len() ==> self.variables@[i].0@ != self.variables@[j].0@
        &&& forall|i: int, j: int|
            0 <= i < j < self.input_devices@.len() ==> self.input_devices@[i].0
                != self.input_devices@[j].0
    }

    /// A fresh host context: nothing loaded, RGB565 selected (the ABI's
    /// compatibility default is superseded by this host before any frame
    /// is delivered), and the default directory layout.
    pub fn new() -> (r: Frontend)
        ensures
            r.wf(),
            r.lifecycle() == LifecycleState::Unloaded,
            r@.core_api is None,
            r@.core_library is None,
            !r@.game_loaded,
            r@.av_info is None,
            r@.sys_info is None,
            r@.pixel_format == PixelFormat::RGB565,
            r@.converted_pixel_buffer.len() == 0,
            r@.fb_width == 0 && r@.fb_height == 0 && r@.fb_pitch == 0,
            r@.gl_fbo_id == 0,
            r@.system_directory == "system"@,
            r@.save_directory == "save"@,
            r@.config_directory == "config"@,
            r@.variables.len() == 0,
            r@.input_devices.len() == 0,
    {
        let r = Frontend {
            core_api: None,
            core_library: None,
            game_loaded: false,
            av_info: None,
            sys_info: None,
            pixel_format: PixelFormat::RGB565,
            converted_pixel_buffer: Vec::new(),
            fb_width: 0,
            fb_height: 0,
            fb_pitch: 0,
            gl_fbo_id: 0,
            system_directory: <String as vstd::string::StringExecFns>::from_str("system"),
            save_directory: <String as vstd::string::StringExecFns>::from_str("save"),
            config_directory: <String as vstd::string::StringExecFns>::from_str("config"),
            variables: Vec::new(),
            input_devices: Vec::new(),
        };
        proof {
            assert(vars_view(r.variables@) =~= Seq::<(Seq<char>, CoreVariableV)>::empty());
        }
        r
    }

    /// Whether a core is loaded: true exactly when both the module handle
    /// and the fully resolved function table are present, never with only
    /// one of the two.
    pub fn core_loaded(&self) -> (r: bool)
        ensures
            r == self.spec_core_loaded(),
            r == (self.core_library is Some && self.core_api is Some),
    {
        self.core_library.is_some() && self.core_api.is_some()
    }

    /// The current lifecycle state.
    pub fn state(&self) -> (r: LifecycleState)
        ensures
            r == self.lifecycle(),
    {
        if self.game_loaded {
            LifecycleState::GameLoaded
        } else if self.core_loaded() {
            LifecycleState::CoreLoaded
        } else {
            LifecycleState::Unloaded
        }
    }

    /// The current framebuffer geometry.
    pub fn get_size(&self) -> (r: (u32, u32))
        ensures
            r.0 == self@.fb_width,
            r.1 == self@.fb_height,
    {
        (self.fb_width, self.fb_height)
    }

    /// Records the render-target identifier hardware-rendering plugins
    /// draw into.
    pub fn set_gl_fbo(&mut self, id: u32)
        ensures
            final(self)@ == (FrontendV { gl_fbo_id: id, ..old(self)@ }),
            old(self).wf() ==> final(self).wf(),
    {
        self.gl_fbo_id = id;
    }

    /// The render-target identifier a hardware-rendering plugin must draw
    /// into. The plugin may call this every frame.
    pub fn get_current_framebuffer(&self) -> (r: u32)
        ensures
            r == self@.gl_fbo_id,
    {
        self.gl_fbo_id
    }
}

/// What the shell observed while opening a plugin module and querying it,
/// handed to [`Frontend::load_core`] as plain values.
///
/// The shell proceeds in the ABI's fixed order — open the module, resolve
/// every required symbol by exact name, query the reported ABI version,
/// and only then register the environment callback, initialize the plugin
/// and query its metadata — and stops at the first failure, leaving the
/// later fields at placeholder values the contract never reads.
pub struct CoreLoadResult {
    /// The shell's handle for the opened module; `None` when opening
    /// failed.
    pub module: Option<u64>,
    /// The resolved address of each required symbol, in table order;
    /// `None` where resolution failed.
    pub symbols: Vec<Option<u64>>,
    /// The ABI version the plugin reports.
    pub api_version: u32,
    /// The plugin's static metadata, queried after initialization.
    pub system_info: SystemInfo,
    /// The plugin's audio/video metadata, queried after initialization.
    pub av_info: SystemAvInfo,
}

/// The plugin calls the shell must make, in order, to finish unloading a
/// core after [`Frontend::unload_core`] decided them.
#[derive(Clone, Copy, Debug, PartialEq, Eq, Structural)]
pub enum CoreCall {
    /// Invoke the plugin's unload-game entry point.
    UnloadGame,
    /// Invoke the plugin's deinitialization entry point.
    Deinit,
    /// Close the plugin module.
    CloseModule,
}

/// How the shell's part of loading a game went: reading the content file
/// (when the plugin wants a loaded buffer), then the plugin's load-game
/// entry point.
#[derive(Clone, Copy, Debug, PartialEq, Eq, Structural)]
pub enum GameLoadOutcome {
    /// The content file could not be read.
    ReadFailed,
    /// The plugin's load-game entry point returned failure.
    CoreRejected,
    /// The plugin accepted the game.
    CoreAccepted,
}

/// The addresses of a complete resolution, in table order.
pub open spec fn unwrap_symbols(symbols: Seq<Option<u64>>) -> Seq<u64> {
    Seq::new(symbols.len(), |i: int| symbols[i].unwrap())
}

impl Frontend {
    /// Loads a core from what the shell observed, atomically: either every
    /// step succeeded and the whole state of the load is installed, or the
    /// exact failure is reported and nothing changes.
    ///
    /// While a core is already loaded this fails with
    /// [`Error::CoreAlreadyLoaded`] and leaves all existing state — the
    /// function table, the cached metadata, the variables — unchanged.
    pub fn load_core(&mut self, load: CoreLoadResult) -> (r: Result<(), Error>)
        requires
            old(self).wf(),
        ensures
            final(self).wf(),
            old(self).spec_core_loaded() ==> r == Err::<(), Error>(Error::CoreAlreadyLoaded)
                && final(self)@ == old(self)@,
            !old(self).spec_core_loaded() ==> match r {
                Ok(u) => {
                    &&& load.module is Some
                    &&& spec_resolution_complete(load.symbols@)
                    &&& load.api_version == API_VERSION
                    &&& final(self)@ == (FrontendV {
                        core_library: load.module,
                        core_api: Some(unwrap_symbols(load.symbols@)),
                        av_info: Some(load.av_info),
                        sys_info: Some(load.system_info@),
                        ..old(self)@
                    })
                },
                Err(e) => {
                    &&& final(self)@ == old(self)@
                    &&& if load.module is None {
                        e == Error::LibError
                    } else if !spec_resolution_complete(load.symbols@) {
                        e == Error::LibError
                    } else {
                        &&& load.api_version != API_VERSION
                        &&& e == (Error::InvalidLibRetroAPI {
                            expected: API_VERSION,
                            got: load.api_version,
                        })
                    }
                },
            },
    {
        if self.core_loaded() {
            return Err(Error::CoreAlreadyLoaded);
        }
        let module = match load.module {
            Some(m) => m,
            None => {
                return Err(Error::LibError);
            }
        };
        let table = match build_function_table(&load.symbols) {
            Ok(t) => t,
            Err(e) => {
                return Err(e);
            }
        };
        if load.api_version != API_VERSION {
            return Err(
                Error::InvalidLibRetroAPI { expected: API_VERSION, got: load.api_version },
            );
        }
        self.core_library = Some(module);
        self.core_api = Some(table);
        self.sys_info = Some(load.system_info);
        self.av_info = Some(load.av_info);
        proof {
            assert(final(self)@.core_api.unwrap() =~= unwrap_symbols(load.symbols@));
            assert(final(self)@ =~= (FrontendV {
                core_library: load.module,
                core_api: Some(unwrap_symbols(load.symbols@)),
                av_info: Some(load.av_info),
                sys_info: Some(load.system_info@),
                ..old(self)@
            }));
        }
        Ok(())
    }

    /// Unloads the game if one is loaded. Returns whether the shell must
    /// invoke the plugin's unload-game entry point, which is exactly when
    /// a game was loaded.
    pub fn unload_game(&mut self) -> (r: Result<bool, Error>)
        requires
            old(self).wf(),
        ensures
            final(self).wf(),
            !old(self).spec_core_loaded() ==> r == Err::<bool, Error>(Error::CoreNotLoaded)
                && final(self)@ == old(self)@,
            old(self).spec_core_loaded() ==> r == Ok::<bool, Error>(old(self).game_loaded)
                && final(self)@ == (FrontendV { game_loaded: false, ..old(self)@ }),
            old(self).spec_core_loaded() ==> final(self).lifecycle()
                == LifecycleState::CoreLoaded,
    {
        if !self.core_loaded() {
            return Err(Error::CoreNotLoaded);
        }
        let was_loaded = self.game_loaded;
        if self.game_loaded {
            self.game_loaded = false;
        }
        proof {
            assert(final(self)@ =~= (FrontendV { game_loaded: false, ..old(self)@ }));
        }
        Ok(was_loaded)
    }

    /// Unloads the core, ending in `Unloaded` whether it starts in
    /// `CoreLoaded` or in `GameLoaded`. When a game is loaded it is
    /// unloaded first: the returned plugin calls the shell must make put
    /// the unload-game entry point ahead of deinitialization and module
    /// close. All plugin-scoped state — module handle, function table,
    /// cached metadata, framebuffer geometry, plugged devices — is
    /// dropped.
    pub fn unload_core(&mut self) -> (r: Result<Vec<CoreCall>, Error>)
        requires
            old(self).wf(),
        ensures
            final(self).wf(),
            !old(self).spec_core_loaded() ==> r == Err::<Vec<CoreCall>, Error>(
                Error::CoreNotLoaded,
            ) && final(self)@ == old(self)@,
            old(self).spec_core_loaded() ==> {
                &&& r is Ok
                &&& old(self).game_loaded ==> r.unwrap()@ == seq![
                    CoreCall::UnloadGame,
                    CoreCall::Deinit,
                    CoreCall::CloseModule,
                ]
                &&& !old(self).game_loaded ==> r.unwrap()@ == seq![
                    CoreCall::Deinit,
                    CoreCall::CloseModule,
                ]
                &&& final(self)@ == (FrontendV {
                    core_api: None,
                    core_library: None,
                    game_loaded: false,
                    av_info: None,
                    sys_info: None,
                    fb_width: 0,
                    fb_height: 0,
                    fb_pitch: 0,
                    input_devices: Seq::<(u32, Device)>::empty(),
                    ..old(self)@
                })
                &&& final(self).lifecycle() == LifecycleState::Unloaded
            },
    {
        if !self.core_loaded() {
            return Err(Error::CoreNotLoaded);
        }
        let mut calls: Vec<CoreCall> = Vec::new();
        match self.unload_game() {
            Ok(was_loaded) => {
                if was_loaded {
                    calls.push(CoreCall::UnloadGame);
                }
            }
            Err(u) => {
                return Err(Error::CoreNotLoaded);
            }
        }
        calls.push(CoreCall::Deinit);
        calls.push(CoreCall::CloseModule);
        self.core_api = None;
        self.core_library = None;
        self.av_info = None;
        self.sys_info = None;
        self.fb_width = 0;
        self.fb_height = 0;
        self.fb_pitch = 0;
        self.input_devices.clear();
        proof {
            if old(self).game_loaded {
                assert(calls@ =~= seq![
                    CoreCall::UnloadGame,
                    CoreCall::Deinit,
                    CoreCall::CloseModule,
                ]);
            } else {
                assert(calls@ =~= seq![CoreCall::Deinit, CoreCall::CloseModule]);
            }
            assert(final(self)@ =~= (FrontendV {
                core_api: None,
                core_library: None,
                game_loaded: false,
                av_info: None,
                sys_info: None,
                fb_width: 0,
                fb_height: 0,
                fb_pitch: 0,
                input_devices: Seq::<(u32, Device)>::empty(),
                ..old(self)@
            }));
        }
        Ok(calls)
    }

    /// Loads a game from how the shell's part went. While no core is
    /// loaded — in particular while `Unloaded` — this fails with
    /// [`Error::CoreNotLoaded`] before any outside work matters. A failed
    /// read reports an I/O error, a plugin rejection a load failure, and
    /// only an accepted load moves to `GameLoaded`.
    pub fn load_game(&mut self, outcome: GameLoadOutcome) -> (r: Result<(), Error>)
        requires
            old(self).wf(),
        ensures
            final(self).wf(),
            !old(self).spec_core_loaded() ==> r == Err::<(), Error>(Error::CoreNotLoaded)
                && final(self)@ == old(self)@,
            old(self).spec_core_loaded() ==> match outcome {
                GameLoadOutcome::ReadFailed => r == Err::<(), Error>(Error::IoError)
                    && final(self)@ == old(self)@,
                GameLoadOutcome::CoreRejected => r == Err::<(), Error>(Error::RomLoadFailed)
                    && final(self)@ == old(self)@,
                GameLoadOutcome::CoreAccepted => r == Ok::<(), Error>(()) && final(self)@
                    == (FrontendV { game_loaded: true, ..old(self)@ }) && final(self).lifecycle()
                    == LifecycleState::GameLoaded,
            },
    {
        if !self.core_loaded() {
            return Err(Error::CoreNotLoaded);
        }
        match outcome {
            GameLoadOutcome::ReadFailed => Err(Error::IoError),
            GameLoadOutcome::CoreRejected => Err(Error::RomLoadFailed),
            GameLoadOutcome::CoreAccepted => {
                self.game_loaded = true;
                proof {
                    assert(final(self)@ =~= (FrontendV { game_loaded: true, ..old(self)@ }));
                }
                Ok(())
            }
        }
    }

    /// The cached plugin audio/video metadata. Fails while no core is
    /// loaded; while one is, the cache is always present.
    pub fn get_av_info(&self) -> (r: Result<SystemAvInfo, Error>)
        requires
            self.wf(),
        ensures
            !self.spec_core_loaded() ==> r == Err::<SystemAvInfo, Error>(Error::CoreNotLoaded),
            self.spec_core_loaded() ==> r == Ok::<SystemAvInfo, Error>(self.av_info.unwrap()),
    {
        if !self.core_loaded() {
            return Err(Error::CoreNotLoaded);
        }
        match &self.av_info {
            Some(av) => Ok(*av),
            None => Err(Error::CoreNotLoaded),
        }
    }

    /// The cached plugin static metadata. Fails while no core is loaded;
    /// while one is, the cache is always present.
    pub fn get_system_info(&self) -> (r: Result<&SystemInfo, Error>)
        requires
            self.wf(),
        ensures
            !self.spec_core_loaded() ==> r == Err::<&SystemInfo, Error>(Error::CoreNotLoaded),
            self.spec_core_loaded() ==> r is Ok && r.unwrap()@ == self@.sys_info.unwrap(),
    {
        if !self.core_loaded() {
            return Err(Error::CoreNotLoaded);
        }
        match &self.sys_info {
            Some(sys) => Ok(sys),
            None => Err(Error::CoreNotLoaded),
        }
    }

    /// Finds the position of `port` in the plugged-device list, or its
    /// length if the port is unplugged.
    fn find_port(&self, port: u32) -> (r: usize)
        ensures
            r == port_index(self@.input_devices, port),
    {
        let n = self.input_devices.len();
        let mut i: usize = 0;
        while i < n
            invariant
                i <= n,
                n == self.input_devices@.len(),
                forall|j: int| 0 <= j < i ==> self.input_devices@[j].0 != port,
            decreases n - i,
        {
            if self.input_devices[i].0 == port {
                proof {
                    lemma_port_index_is(self@.input_devices, port, i as nat);
                }
                return i;
            }
            i = i + 1;
        }
        proof {
            lemma_port_index_is(self@.input_devices, port, n as nat);
        }
        n
    }

    /// Plugs a device into a port, replacing whatever was there: the last
    /// write for a port wins. Ignored while no core is loaded. Returns the
    /// device class the shell must report to the plugin's controller-port
    /// assignment entry point, or `None` when nothing is to be done.
    pub fn plug_input_device(&mut self, port: u32, device: Device) -> (r: Option<u32>)
        requires
            old(self).wf(),
        ensures
            final(self).wf(),
            !old(self).spec_core_loaded() ==> r is None && final(self)@ == old(self)@,
            old(self).spec_core_loaded() ==> {
                &&& r == Some(device.spec_device_type())
                &&& has_port(old(self)@.input_devices, port) ==> final(self)@ == (FrontendV {
                    input_devices: old(self)@.input_devices.update(
                        port_index(old(self)@.input_devices, port) as int,
                        (port, device),
                    ),
                    ..old(self)@
                })
                &&& !has_port(old(self)@.input_devices, port) ==> final(self)@ == (FrontendV {
                    input_devices: old(self)@.input_devices.push((port, device)),
                    ..old(self)@
                })
            },
            old(self).spec_core_loaded() ==> spec_input_state(
                final(self)@.input_devices,
                port,
                device.spec_device_type(),
                0,
            ) == device.spec_button(0),
    {
        if !self.core_loaded() {
            return None;
        }
        let device_type = device.device_type();
        let i = self.find_port(port);
        proof {
            lemma_port_index_bounds(self@.input_devices, port);
        }
        if i < self.input_devices.len() {
            self.input_devices[i] = (port, device);
            proof {
                assert(final(self)@ =~= (FrontendV {
                    input_devices: old(self)@.input_devices.update(i as int, (port, device)),
                    ..old(self)@
                }));
                lemma_port_index_is(final(self)@.input_devices, port, i as nat);
            }
        } else {
            self.input_devices.push((port, device));
            proof {
                assert(final(self)@ =~= (FrontendV {
                    input_devices: old(self)@.input_devices.push((port, device)),
                    ..old(self)@
                }));
                lemma_port_index_is(final(self)@.input_devices, port, i as nat);
            }
        }
        Some(device_type)
    }

    /// Unplugs whatever device sits in a port. Ignored while no core is
    /// loaded. Returns the device class the shell must report to the
    /// plugin — the "no device" class — or `None` when nothing is to be
    /// done.
    pub fn unplug_input_device(&mut self, port: u32) -> (r: Option<u32>)
        requires
            old(self).wf(),
        ensures
            final(self).wf(),
            !old(self).spec_core_loaded() ==> r is None && final(self)@ == old(self)@,
            old(self).spec_core_loaded() ==> {
                &&& r == Some(DEVICE_NONE)
                &&& has_port(old(self)@.input_devices, port) ==> final(self)@ == (FrontendV {
                    input_devices: old(self)@.input_devices.remove(
                        port_index(old(self)@.input_devices, port) as int,
                    ),
                    ..old(self)@
                })
                &&& !has_port(old(self)@.input_devices, port) ==> final(self)@ == old(self)@
            },
    {
        if !self.core_loaded() {
            return None;
        }
        let i = self.find_port(port);
        proof {
            lemma_port_index_bounds(self@.input_devices, port);
        }
        if i < self.input_devices.len() {
            self.input_devices.remove(i);
            proof {
                assert(final(self)@ =~= (FrontendV {
                    input_devices: old(self)@.input_devices.remove(i as int),
                    ..old(self)@
                }));
                let devs = old(self).input_devices@;
                let newdevs = final(self).input_devices@;
                assert forall|a: int, b: int| 0 <= a < b < newdevs.len() implies newdevs[a].0
                    != newdevs[b].0 by {
                    let aa = if a < i { a } else { a + 1 };
                    let bb = if b < i { b } else { b + 1 };
                    assert(newdevs[a] == devs[aa]);
                    assert(newdevs[b] == devs[bb]);
                }
            }
        }
        Some(DEVICE_NONE)
    }

    /// Answers the plugin's input state query for one port, device class
    /// and button id: zero for an unplugged port, zero when the queried
    /// class does not match the plugged device's declared class (so a
    /// plugin cannot read one device kind as another on the same port),
    /// else the device's stored state, zero for ids out of its declared
    /// range.
    pub fn input_state(&self, port: u32, device_type: u32, id: u32) -> (r: i16)
        ensures
            r == spec_input_state(self@.input_devices, port, device_type, id),
    {
        let i = self.find_port(port);
        proof {
            lemma_port_index_bounds(self@.input_devices, port);
        }
        if i < self.input_devices.len() {
            let device = &self.input_devices[i].1;
            if device.device_type() == device_type {
                return device.get_button(id);
            }
        }
        0
    }

    /// Gates a plugin reset: the shell may invoke the plugin's reset entry
    /// point exactly when this returns `Ok`.
    pub fn reset(&self) -> (r: Result<(), Error>)
        ensures
            r is Ok <==> self.spec_core_loaded(),
            r is Err ==> r == Err::<(), Error>(Error::CoreNotLoaded),
    {
        if !self.core_loaded() {
            return Err(Error::CoreNotLoaded);
        }
        Ok(())
    }

    /// Gates running one step: the shell may invoke the plugin's run entry
    /// point exactly when this returns `Ok`. All plugin-initiated
    /// callbacks happen synchronously nested inside that call, on the
    /// thread that made it.
    pub fn run_frame(&self) -> (r: Result<(), Error>)
        ensures
            r is Ok <==> self.spec_core_loaded(),
            r is Err ==> r == Err::<(), Error>(Error::CoreNotLoaded),
    {
        if !self.core_loaded() {
            return Err(Error::CoreNotLoaded);
        }
        Ok(())
    }
}

/// A core is loaded exactly when both halves are present: in a well
/// formed host the module handle and the resolved function table exist
/// together or not at all, so `core_loaded` is never true — and never
/// false — with only one of the two present.
pub proof fn lemma_core_halves_in_step(f: Frontend)
    requires
        f.wf(),
    ensures
        f.spec_core_loaded() <==> f.core_library is Some,
        f.spec_core_loaded() <==> f.core_api is Some,
{
}

/// The single well-known slot an active host lives in while the plugin
/// can call back into it. The native callbacks carry no user data, so the
/// shell keeps exactly one of these; activating a second host while one
/// is active fails loudly instead of silently replacing it.
pub struct HostSlot {
    pub active: Option<Frontend>,
}

impl HostSlot {
    /// An empty slot.
    pub fn new() -> (r: HostSlot)
        ensures
            r.active is None,
    {
        HostSlot { active: None }
    }

    /// Whether a host is active.
    pub fn is_active(&self) -> (r: bool)
        ensures
            r == (self.active is Some),
    {
        self.active.is_some()
    }

    /// Installs a host into the slot. While one is already active this
    /// fails with a typed error and leaves the active host untouched.
    pub fn activate(&mut self, host: Frontend) -> (r: Result<(), Error>)
        ensures
            old(self).active is None ==> r == Ok::<(), Error>(()) && final(self).active
                == Some(host),
            old(self).active is Some ==> r == Err::<(), Error>(Error::HostAlreadyActive)
                && *final(self) == *old(self),
    {
        if self.active.is_some() {
            return Err(Error::HostAlreadyActive);
        }
        self.active = Some(host);
        Ok(())
    }

    /// Takes the active host out of the slot, leaving it empty.
    pub fn deactivate(&mut self) -> (r: Option<Frontend>)
        ensures
            final(self).active is None,
            r == old(self).active,
    {
        self.active.take()
    }
}

} // verus!
