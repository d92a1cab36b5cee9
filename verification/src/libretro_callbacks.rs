//! The environment dispatch protocol: the synchronous channel through
//! which a plugin queries and configures the host.
//!
//! A plugin calls the host's single environment entry point with a
//! command identifier and an untyped payload whose layout the identifier
//! determines. The shell decodes the payload into the closed
//! [`EnvPayload`] shape for that identifier — it never blindly
//! reinterprets the pointer — and this module decides the outcome: every
//! command's effect on the host state, what the shell must write back or
//! do, and "not handled" for every unrecognized command or malformed
//! payload, because plugins probe capabilities speculatively and must
//! never crash the host.

use vstd::prelude::*;

use crate::frontend::Frontend;
use crate::frontend::FrontendV;
use crate::frontend::has_var;
use crate::frontend::lemma_var_index_bounds;
use crate::frontend::var_index;
use crate::frontend::var_value;
use crate::frontend::vars_view;
use crate::libretro_abi::ENVIRONMENT_GET_CAN_DUPE;
use crate::libretro_abi::ENVIRONMENT_GET_LOG_INTERFACE;
use crate::libretro_abi::ENVIRONMENT_GET_SAVE_DIRECTORY;
use crate::libretro_abi::ENVIRONMENT_GET_SYSTEM_DIRECTORY;
use crate::libretro_abi::ENVIRONMENT_GET_VARIABLE;
use crate::libretro_abi::ENVIRONMENT_GET_VARIABLE_UPDATE;
use crate::libretro_abi::ENVIRONMENT_SET_CONTROLLER_INFO;
use crate::libretro_abi::ENVIRONMENT_SET_GEOMETRY;
use crate::libretro_abi::ENVIRONMENT_SET_HW_RENDER;
use crate::libretro_abi::ENVIRONMENT_SET_INPUT_DESCRIPTORS;
use crate::libretro_abi::ENVIRONMENT_SET_PERFORMANCE_LEVEL;
use crate::libretro_abi::ENVIRONMENT_SET_PIXEL_FORMAT;
use crate::libretro_abi::ENVIRONMENT_SET_VARIABLES;
use crate::libretro_abi::HW_CONTEXT_OPENGL;
use crate::libretro_abi::HW_CONTEXT_OPENGL_CORE;
use crate::libretro_abi::PixelFormat;
use crate::libretro_abi::spec_pixel_format_from_uint;
use crate::libretro_core_variable::CoreVariable;
use crate::libretro_core_variable::CoreVariableV;
use crate::libretro_core_variable::spec_parse;
use crate::settings::pairs_view;
use crate::video::spec_resize;

verus! {

/// A plugin's environment request payload, decoded by the shell into the
/// closed shape the command identifier determines.
pub enum EnvPayload {
    /// The payload carries nothing the host itself reads: an output slot
    /// the shell will fill, or content the host ignores. The shell
    /// checked it is usable.
    Opaque,
    /// One platform-sized unsigned value.
    Uint(u32),
    /// A width/height pair.
    Geometry { width: u32, height: u32 },
    /// A variable key.
    Key(String),
    /// Sentinel-terminated variable declarations: key and declaration
    /// string pairs, in order.
    Variables(Vec<(String, String)>),
    /// The payload pointer was null, or its contents were undecodable.
    Invalid,
}

/// What one environment call decided: what the shell reports to the
/// plugin (only `NotHandled` reports failure) and what it must do before
/// returning control.
pub enum EnvOutcome {
    /// Report "not handled" to the plugin. Nothing changed.
    NotHandled,
    /// Report success; nothing further to do.
    Handled,
    /// Write this value into the plugin's boolean output slot.
    WriteBool(bool),
    /// Write this host-owned path, as a stable null-terminated string
    /// valid for the plugin's whole lifetime, into the output slot.
    WritePath(String),
    /// Write this variable value into the plugin's output slot; the
    /// backing storage stays valid until the key is next mutated.
    WriteVariable(String),
    /// Notify the video sink of the new geometry before returning
    /// control to the plugin.
    Resize { width: u32, height: u32 },
    /// Hardware rendering was negotiated: make sure an offscreen render
    /// target sized to the current geometry exists, fill the plugin's
    /// accessor and loader slots, then fire the plugin's context-reset
    /// callback exactly once.
    SetupHwRender,
    /// The variable table was (re)declared: load any persisted values
    /// through [`Frontend::apply_saved_values`], or persist the current
    /// defaults through [`Frontend::settings_snapshot`] when no document
    /// exists yet.
    LoadSettings,
    /// Fill the plugin's logging-interface slot with the host's logger.
    ProvideLogInterface,
}

/// The command identifiers this host recognizes. Dispatch of anything
/// else reports "not handled" and mutates nothing.
pub open spec fn spec_known_command(cmd: u32) -> bool {
    ||| cmd == ENVIRONMENT_GET_CAN_DUPE
    ||| cmd == ENVIRONMENT_SET_PERFORMANCE_LEVEL
    ||| cmd == ENVIRONMENT_GET_SYSTEM_DIRECTORY
    ||| cmd == ENVIRONMENT_SET_PIXEL_FORMAT
    ||| cmd == ENVIRONMENT_SET_INPUT_DESCRIPTORS
    ||| cmd == ENVIRONMENT_SET_HW_RENDER
    ||| cmd == ENVIRONMENT_GET_VARIABLE
    ||| cmd == ENVIRONMENT_SET_VARIABLES
    ||| cmd == ENVIRONMENT_GET_VARIABLE_UPDATE
    ||| cmd == ENVIRONMENT_GET_LOG_INTERFACE
    ||| cmd == ENVIRONMENT_GET_SAVE_DIRECTORY
    ||| cmd == ENVIRONMENT_SET_CONTROLLER_INFO
    ||| cmd == ENVIRONMENT_SET_GEOMETRY
}

/// The table after one declaration is installed under `key`: the last
/// declaration for a key wins, keys stay unique, new keys append.
pub open spec fn spec_insert_var(
    vars: Seq<(Seq<char>, CoreVariableV)>,
    key: Seq<char>,
    v: CoreVariableV,
) -> Seq<(Seq<char>, CoreVariableV)> {
    if has_var(vars, key) {
        vars.update(var_index(vars, key) as int, (key, v))
    } else {
        vars.push((key, v))
    }
}

/// The table after a whole declaration list is parsed and installed in
/// order, or `None` as soon as any declaration string is malformed.
pub open spec fn spec_set_variables(
    vars: Seq<(Seq<char>, CoreVariableV)>,
    decls: Seq<(Seq<char>, Seq<char>)>,
) -> Option<Seq<(Seq<char>, CoreVariableV)>>
    decreases decls.len(),
{
    if decls.len() == 0 {
        Some(vars)
    } else {
        match spec_parse(decls[0].1) {
            Some(v) => spec_set_variables(spec_insert_var(vars, decls[0].0, v), decls.skip(1)),
            None => None,
        }
    }
}

/// A declaration list in which every string parses installs a table.
proof fn lemma_set_variables_some(
    vars: Seq<(Seq<char>, CoreVariableV)>,
    decls: Seq<(Seq<char>, Seq<char>)>,
)
    requires
        forall|j: int| 0 <= j < decls.len() ==> spec_parse(decls[j].1) is Some,
    ensures
        spec_set_variables(vars, decls) is Some,
    decreases decls.len(),
{
    if decls.len() > 0 {
        assert(spec_parse(decls[0].1) is Some);
        let v = spec_parse(decls[0].1).unwrap();
        assert forall|j: int| 0 <= j < decls.skip(1).len() implies spec_parse(
            decls.skip(1)[j].1,
        ) is Some by {
            assert(decls.skip(1)[j] == decls[j + 1]);
        }
        lemma_set_variables_some(spec_insert_var(vars, decls[0].0, v), decls.skip(1));
    }
}

/// One malformed declaration string anywhere fails the whole list.
proof fn lemma_set_variables_none(
    vars: Seq<(Seq<char>, CoreVariableV)>,
    decls: Seq<(Seq<char>, Seq<char>)>,
    k: int,
)
    requires
        0 <= k < decls.len(),
        spec_parse(decls[k].1) is None,
    ensures
        spec_set_variables(vars, decls) is None,
    decreases decls.len(),
{
    if spec_parse(decls[0].1) is Some {
        assert(k >= 1);
        let v = spec_parse(decls[0].1).unwrap();
        assert(decls.skip(1)[k - 1] == decls[k]);
        lemma_set_variables_none(spec_insert_var(vars, decls[0].0, v), decls.skip(1), k - 1);
    }
}

impl Frontend {
    /// Installs one parsed variable under `key`: the last declaration for
    /// a key wins; a new key appends.
    fn insert_variable(&mut self, key: String, var: CoreVariable)
        requires
            old(self).wf(),
            var.wf(),
        ensures
            final(self).wf(),
            final(self)@ == (FrontendV {
                variables: spec_insert_var(old(self)@.variables, key@, var@),
                ..old(self)@
            }),
    {
        let i = self.find_variable(&key);
        proof {
            lemma_var_index_bounds(self@.variables, key@);
        }
        if i < self.variables.len() {
            self.variables[i] = (key, var);
            proof {
                assert(vars_view(final(self).variables@) =~= spec_insert_var(
                    old(self)@.variables,
                    key@,
                    var@,
                ));
                assert forall|a: int, b: int|
                    0 <= a < b < final(self).variables@.len() implies final(self).variables@[a].0@
                    != final(self).variables@[b].0@ by {
                    assert(vars_view(old(self).variables@)[a].0 == old(self).variables@[a].0@);
                    assert(vars_view(old(self).variables@)[b].0 == old(self).variables@[b].0@);
                    assert(vars_view(old(self).variables@)[i as int].0 == key@);
                }
                assert(final(self)@ =~= (FrontendV {
                    variables: spec_insert_var(old(self)@.variables, key@, var@),
                    ..old(self)@
                }));
            }
        } else {
            self.variables.push((key, var));
            proof {
                assert(vars_view(final(self).variables@) =~= spec_insert_var(
                    old(self)@.variables,
                    key@,
                    var@,
                ));
                assert forall|a: int, b: int|
                    0 <= a < b < final(self).variables@.len() implies final(self).variables@[a].0@
                    != final(self).variables@[b].0@ by {
                    assert(vars_view(old(self).variables@)[a].0 == old(self).variables@[a].0@);
                    if b < i {
                        assert(vars_view(old(self).variables@)[b].0 == old(self).variables@[b].0@);
                    }
                }
                assert(final(self)@ =~= (FrontendV {
                    variables: spec_insert_var(old(self)@.variables, key@, var@),
                    ..old(self)@
                }));
            }
        }
    }

    /// Parses and installs a whole declaration list, atomically: the
    /// table changes only when every declaration string is well formed,
    /// and a single malformed one leaves the table untouched.
    fn set_variables(&mut self, decls: Vec<(String, String)>) -> (r: EnvOutcome)
        requires
            old(self).wf(),
        ensures
            final(self).wf(),
            match spec_set_variables(old(self)@.variables, pairs_view(decls@)) {
                Some(newvars) => final(self)@ == (FrontendV {
                    variables: newvars,
                    ..old(self)@
                }) && r == EnvOutcome::LoadSettings,
                None => final(self)@ == old(self)@ && r == EnvOutcome::NotHandled,
            },
    {
        let n = decls.len();
        let mut parsed: Vec<CoreVariable> = Vec::new();
        let mut i: usize = 0;
        while i < n
            invariant
                i <= n,
                n == decls@.len(),
                *self == *old(self),
                old(self).wf(),
                parsed@.len() == i,
                forall|j: int| 0 <= j < i ==> spec_parse((#[trigger] pairs_view(decls@)[j]).1)
                    is Some,
                forall|j: int| 0 <= j < i ==> (#[trigger] parsed@[j])@ == spec_parse(
                    pairs_view(decls@)[j].1,
                ).unwrap() && parsed@[j].wf(),
            decreases n - i,
        {
            proof {
                assert(pairs_view(decls@)[i as int] == (decls@[i as int].0@, decls@[i as int].1@));
            }
            let s: &String = &decls[i].1;
            match CoreVariable::parse(s.as_str()) {
                Some(v) => {
                    parsed.push(v);
                    proof {
                        assert(s@ == pairs_view(decls@)[i as int].1);
                        assert(parsed@[i as int] == v);
                        assert(spec_parse(pairs_view(decls@)[i as int].1) is Some);
                        assert(parsed@[i as int]@ == spec_parse(
                            pairs_view(decls@)[i as int].1,
                        ).unwrap());
                    }
                }
                None => {
                    proof {
                        lemma_set_variables_none(
                            old(self)@.variables,
                            pairs_view(decls@),
                            i as int,
                        );
                    }
                    return EnvOutcome::NotHandled;
                }
            }
            i = i + 1;
        }
        proof {
            lemma_set_variables_some(old(self)@.variables, pairs_view(decls@));
        }
        let ghost dv = pairs_view(decls@);
        let ghost goal = spec_set_variables(old(self)@.variables, dv).unwrap();
        proof {
            assert(dv.skip(0) =~= dv);
        }
        let mut i: usize = 0;
        while i < n
            invariant
                i <= n,
                n == decls@.len(),
                parsed@.len() == n,
                dv == pairs_view(decls@),
                forall|j: int| 0 <= j < n ==> spec_parse(dv[j].1) is Some && (
                #[trigger] parsed@[j])@ == spec_parse(dv[j].1).unwrap() && parsed@[j].wf(),
                self.wf(),
                spec_set_variables(old(self)@.variables, dv) == spec_set_variables(
                    self@.variables,
                    dv.skip(i as int),
                ),
                self@ == (FrontendV { variables: self@.variables, ..old(self)@ }),
            decreases n - i,
        {
            proof {
                assert(dv[i as int] == (decls@[i as int].0@, decls@[i as int].1@));
                assert(dv.skip(i as int)[0] == dv[i as int]);
            }
            let key = decls[i].0.clone();
            let var = parsed[i].duplicate();
            let ghost before = self@.variables;
            self.insert_variable(key, var);
            proof {
                assert(dv.skip(i as int).skip(1) =~= dv.skip(i as int + 1));
                assert(spec_set_variables(before, dv.skip(i as int)) == spec_set_variables(
                    self@.variables,
                    dv.skip(i as int + 1),
                ));
            }
            i = i + 1;
        }
        proof {
            assert(dv.skip(n as int) =~= Seq::<(Seq<char>, Seq<char>)>::empty());
            assert(final(self)@.variables == goal);
            assert(final(self)@ =~= (FrontendV { variables: goal, ..old(self)@ }));
        }
        EnvOutcome::LoadSettings
    }

    /// Dispatches one environment call from the plugin.
    ///
    /// Exactly one such call is ever in flight at a time, on the thread
    /// that invoked the run entry point; the dispatcher never suspends.
    /// Every recognized command's effect is stated below; any
    /// unrecognized identifier, and any recognized one with a malformed
    /// payload, reports "not handled" and performs no state mutation.
    pub fn environment_callback(&mut self, cmd: u32, payload: EnvPayload) -> (r: EnvOutcome)
        requires
            old(self).wf(),
        ensures
            final(self).wf(),
            !spec_known_command(cmd) ==> r == EnvOutcome::NotHandled && final(self)@ == old(
                self,
            )@,
            cmd == ENVIRONMENT_GET_LOG_INTERFACE ==> final(self)@ == old(self)@ && r == (
            if payload is Opaque {
                EnvOutcome::ProvideLogInterface
            } else {
                EnvOutcome::NotHandled
            }),
            cmd == ENVIRONMENT_SET_PERFORMANCE_LEVEL ==> final(self)@ == old(self)@ && r == (
            if payload is Uint {
                EnvOutcome::Handled
            } else {
                EnvOutcome::NotHandled
            }),
            cmd == ENVIRONMENT_SET_CONTROLLER_INFO ==> final(self)@ == old(self)@ && r == (
            if payload is Opaque {
                EnvOutcome::Handled
            } else {
                EnvOutcome::NotHandled
            }),
            cmd == ENVIRONMENT_SET_INPUT_DESCRIPTORS ==> final(self)@ == old(self)@ && r == (
            if payload is Opaque {
                EnvOutcome::Handled
            } else {
                EnvOutcome::NotHandled
            }),
            cmd == ENVIRONMENT_GET_CAN_DUPE ==> final(self)@ == old(self)@ && r == (
            if payload is Opaque {
                EnvOutcome::WriteBool(true)
            } else {
                EnvOutcome::NotHandled
            }),
            cmd == ENVIRONMENT_GET_VARIABLE_UPDATE ==> final(self)@ == old(self)@ && r == (
            if payload is Opaque {
                EnvOutcome::WriteBool(false)
            } else {
                EnvOutcome::NotHandled
            }),
            cmd == ENVIRONMENT_GET_SYSTEM_DIRECTORY ==> final(self)@ == old(self)@ && (
            if payload is Opaque {
                r matches EnvOutcome::WritePath(p) && p@ == old(self)@.system_directory
            } else {
                r == EnvOutcome::NotHandled
            }),
            cmd == ENVIRONMENT_GET_SAVE_DIRECTORY ==> final(self)@ == old(self)@ && (
            if payload is Opaque {
                r matches EnvOutcome::WritePath(p) && p@ == old(self)@.save_directory
            } else {
                r == EnvOutcome::NotHandled
            }),
            cmd == ENVIRONMENT_SET_PIXEL_FORMAT ==> match payload {
                EnvPayload::Uint(v) => match spec_pixel_format_from_uint(v) {
                    Some(pf) => final(self)@ == (FrontendV {
                        pixel_format: pf,
                        ..old(self)@
                    }) && r == EnvOutcome::Handled,
                    None => final(self)@ == old(self)@ && r == EnvOutcome::NotHandled,
                },
                _ => final(self)@ == old(self)@ && r == EnvOutcome::NotHandled,
            },
            cmd == ENVIRONMENT_SET_GEOMETRY ==> match payload {
                EnvPayload::Geometry { width, height } => {
                    if (width as int) * (height as int) <= usize::MAX as int {
                        &&& final(self)@ == spec_resize(old(self)@, width, height)
                        &&& r == (if width != old(self)@.fb_width || height != old(
                            self,
                        )@.fb_height {
                            (EnvOutcome::Resize { width, height })
                        } else {
                            EnvOutcome::Handled
                        })
                    } else {
                        final(self)@ == old(self)@ && r == EnvOutcome::NotHandled
                    }
                },
                _ => final(self)@ == old(self)@ && r == EnvOutcome::NotHandled,
            },
            cmd == ENVIRONMENT_SET_HW_RENDER ==> match payload {
                EnvPayload::Uint(context_type) => {
                    if context_type == HW_CONTEXT_OPENGL || context_type
                        == HW_CONTEXT_OPENGL_CORE {
                        &&& final(self)@ == (FrontendV {
                            converted_pixel_buffer: Seq::<u32>::empty(),
                            ..old(self)@
                        })
                        &&& r == EnvOutcome::SetupHwRender
                    } else {
                        final(self)@ == old(self)@ && r == EnvOutcome::NotHandled
                    }
                },
                _ => final(self)@ == old(self)@ && r == EnvOutcome::NotHandled,
            },
            cmd == ENVIRONMENT_GET_VARIABLE ==> final(self)@ == old(self)@ && match payload {
                EnvPayload::Key(key) => {
                    if has_var(old(self)@.variables, key@) {
                        r matches EnvOutcome::WriteVariable(v) && v@ == var_value(
                            old(self)@.variables[var_index(old(self)@.variables, key@) as int].1,
                        )
                    } else {
                        r == EnvOutcome::NotHandled
                    }
                },
                _ => r == EnvOutcome::NotHandled,
            },
            cmd == ENVIRONMENT_SET_VARIABLES ==> match payload {
                EnvPayload::Variables(decls) => match spec_set_variables(
                    old(self)@.variables,
                    pairs_view(decls@),
                ) {
                    Some(newvars) => final(self)@ == (FrontendV {
                        variables: newvars,
                        ..old(self)@
                    }) && r == EnvOutcome::LoadSettings,
                    None => final(self)@ == old(self)@ && r == EnvOutcome::NotHandled,
                },
                _ => final(self)@ == old(self)@ && r == EnvOutcome::NotHandled,
            },
    {
        if cmd == ENVIRONMENT_GET_LOG_INTERFACE {
            match payload {
                EnvPayload::Opaque => EnvOutcome::ProvideLogInterface,
                _ => EnvOutcome::NotHandled,
            }
        } else if cmd == ENVIRONMENT_SET_PERFORMANCE_LEVEL {
            match payload {
                EnvPayload::Uint(level) => EnvOutcome::Handled,
                _ => EnvOutcome::NotHandled,
            }
        } else if cmd == ENVIRONMENT_SET_CONTROLLER_INFO {
            match payload {
                EnvPayload::Opaque => EnvOutcome::Handled,
                _ => EnvOutcome::NotHandled,
            }
        } else if cmd == ENVIRONMENT_SET_INPUT_DESCRIPTORS {
            match payload {
                EnvPayload::Opaque => EnvOutcome::Handled,
                _ => EnvOutcome::NotHandled,
            }
        } else if cmd == ENVIRONMENT_GET_CAN_DUPE {
            match payload {
                EnvPayload::Opaque => EnvOutcome::WriteBool(true),
                _ => EnvOutcome::NotHandled,
            }
        } else if cmd == ENVIRONMENT_GET_VARIABLE_UPDATE {
            match payload {
                EnvPayload::Opaque => EnvOutcome::WriteBool(false),
                _ => EnvOutcome::NotHandled,
            }
        } else if cmd == ENVIRONMENT_GET_SYSTEM_DIRECTORY {
            match payload {
                EnvPayload::Opaque => EnvOutcome::WritePath(self.system_directory.clone()),
                _ => EnvOutcome::NotHandled,
            }
        } else if cmd == ENVIRONMENT_GET_SAVE_DIRECTORY {
            match payload {
                EnvPayload::Opaque => EnvOutcome::WritePath(self.save_directory.clone()),
                _ => EnvOutcome::NotHandled,
            }
        } else if cmd == ENVIRONMENT_SET_PIXEL_FORMAT {
            match payload {
                EnvPayload::Uint(v) => match PixelFormat::from_uint(v) {
                    Some(pf) => {
                        self.pixel_format = pf;
                        proof {
                            assert(final(self)@ =~= (FrontendV {
                                pixel_format: pf,
                                ..old(self)@
                            }));
                        }
                        EnvOutcome::Handled
                    }
                    None => EnvOutcome::NotHandled,
                },
                _ => EnvOutcome::NotHandled,
            }
        } else if cmd == ENVIRONMENT_SET_GEOMETRY {
            match payload {
                EnvPayload::Geometry { width, height } => {
                    let fits = {
                        let w64: u64 = width as u64;
                        let h64: u64 = height as u64;
                        proof {
                            assert(w64 * h64 <= 0xffff_ffffu64 * 0xffff_ffffu64)
                                by (nonlinear_arith)
                                requires
                                    w64 <= 0xffff_ffffu64,
                                    h64 <= 0xffff_ffffu64,
                            ;
                        }
                        w64 * h64 <= usize::MAX as u64
                    };
                    if fits {
                        let resized = self.on_resize(width, height);
                        if resized {
                            EnvOutcome::Resize { width, height }
                        } else {
                            EnvOutcome::Handled
                        }
                    } else {
                        EnvOutcome::NotHandled
                    }
                }
                _ => EnvOutcome::NotHandled,
            }
        } else if cmd == ENVIRONMENT_SET_HW_RENDER {
            match payload {
                EnvPayload::Uint(context_type) => {
                    if context_type == HW_CONTEXT_OPENGL || context_type
                        == HW_CONTEXT_OPENGL_CORE {
                        self.converted_pixel_buffer.clear();
                        proof {
                            assert(final(self)@ =~= (FrontendV {
                                converted_pixel_buffer: Seq::<u32>::empty(),
                                ..old(self)@
                            }));
                        }
                        EnvOutcome::SetupHwRender
                    } else {
                        EnvOutcome::NotHandled
                    }
                }
                _ => EnvOutcome::NotHandled,
            }
        } else if cmd == ENVIRONMENT_GET_VARIABLE {
            match payload {
                EnvPayload::Key(key) => {
                    let i = self.find_variable(&key);
                    proof {
                        lemma_var_index_bounds(self@.variables, key@);
                    }
                    if i < self.variables.len() {
                        proof {
                            assert(vars_view(self.variables@)[i as int].1 == self.variables@[
                                i as int].1@);
                        }
                        EnvOutcome::WriteVariable(self.variables[i].1.get_value().clone())
                    } else {
                        EnvOutcome::NotHandled
                    }
                }
                _ => EnvOutcome::NotHandled,
            }
        } else if cmd == ENVIRONMENT_SET_VARIABLES {
            match payload {
                EnvPayload::Variables(decls) => self.set_variables(decls),
                _ => EnvOutcome::NotHandled,
            }
        } else {
            EnvOutcome::NotHandled
        }
    }
}

} // verus!
