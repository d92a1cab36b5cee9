//! The variable table and per-plugin settings persistence.
//!
//! A plugin declares its configuration variables through the environment
//! channel; the host keeps them keyed by name and persists them as plain
//! key/value pairs, one document per plugin, named after the plugin's
//! declared internal library name under the configured directory. The
//! shell does the file reading and writing; this module decides the
//! content: which values a snapshot holds, and how persisted values
//! overwrite declared defaults.

use vstd::prelude::*;
use vstd::string::StringExecFns;

use crate::frontend::Frontend;
use crate::frontend::FrontendV;
use crate::frontend::has_var;
use crate::frontend::lemma_var_index_bounds;
use crate::frontend::lemma_var_index_is;
use crate::frontend::var_index;
use crate::frontend::var_value;
use crate::frontend::vars_view;
use crate::libretro_core_variable::CoreVariable;
use crate::libretro_core_variable::CoreVariableV;
use crate::result::Error;

verus! {

/// The first index of `key` in a key/value list, or its length if absent.
pub open spec fn saved_index(saved: Seq<(Seq<char>, Seq<char>)>, key: Seq<char>) -> nat
    decreases saved.len(),
{
    if saved.len() == 0 {
        0
    } else if saved[0].0 == key {
        0
    } else {
        1 + saved_index(saved.skip(1), key)
    }
}

/// Whether a key/value list holds `key`.
pub open spec fn has_saved(saved: Seq<(Seq<char>, Seq<char>)>, key: Seq<char>) -> bool {
    saved_index(saved, key) < saved.len()
}

/// `saved_index` returns exactly the position of the first entry for
/// `key`.
pub proof fn lemma_saved_index_is(saved: Seq<(Seq<char>, Seq<char>)>, key: Seq<char>, k: nat)
    requires
        k <= saved.len(),
        forall|j: int| 0 <= j < k ==> saved[j].0 != key,
        k < saved.len() ==> saved[k as int].0 == key,
    ensures
        saved_index(saved, key) == k,
    decreases saved.len(),
{
    if saved.len() == 0 {
    } else if saved[0].0 == key {
        assert(k == 0);
    } else {
        assert(k >= 1);
        lemma_saved_index_is(saved.skip(1), key, (k - 1) as nat);
    }
}

/// The views of a list of owned key/value pairs.
pub open spec fn pairs_view(pairs: Seq<(String, String)>) -> Seq<(Seq<char>, Seq<char>)> {
    pairs.map_values(|p: (String, String)| (p.0@, p.1@))
}

/// The variable table after persisted values overwrite declared
/// defaults: every declared variable whose key has a persisted value
/// takes it as its selected value; the others keep what they had.
pub open spec fn spec_apply_saved(
    vars: Seq<(Seq<char>, CoreVariableV)>,
    saved: Seq<(Seq<char>, Seq<char>)>,
) -> Seq<(Seq<char>, CoreVariableV)> {
    Seq::new(
        vars.len(),
        |i: int|
            if has_saved(saved, vars[i].0) {
                (
                    vars[i].0,
                    CoreVariableV {
                        value: Some(saved[saved_index(saved, vars[i].0) as int].1),
                        ..vars[i].1
                    },
                )
            } else {
                vars[i]
            },
    )
}

impl Frontend {
    /// Finds the position of `key` in the variable table, or its length
    /// if the key is not declared.
    pub(crate) fn find_variable(&self, key: &String) -> (r: usize)
        ensures
            r == var_index(self@.variables, key@),
    {
        let n = self.variables.len();
        let mut i: usize = 0;
        while i < n
            invariant
                i <= n,
                n == self.variables@.len(),
                forall|j: int| 0 <= j < i ==> vars_view(self.variables@)[j].0 != key@,
            decreases n - i,
        {
            proof {
                assert(vars_view(self.variables@)[i as int].0 == self.variables@[i as int].0@);
            }
            if self.variables[i].0 == *key {
                proof {
                    lemma_var_index_is(self@.variables, key@, i as nat);
                }
                return i;
            }
            i = i + 1;
        }
        proof {
            lemma_var_index_is(self@.variables, key@, n as nat);
        }
        n
    }

    /// Looks a declared variable up by key and reports its value: the
    /// selected value, or the first declared choice while none is
    /// selected. `None` exactly when the key is not declared.
    pub fn get_variable(&self, key: &String) -> (r: Option<&String>)
        requires
            self.wf(),
        ensures
            has_var(self@.variables, key@) ==> r is Some && r.unwrap()@ == var_value(
                self@.variables[var_index(self@.variables, key@) as int].1,
            ),
            !has_var(self@.variables, key@) ==> r is None,
    {
        let i = self.find_variable(key);
        proof {
            lemma_var_index_bounds(self@.variables, key@);
        }
        if i < self.variables.len() {
            proof {
                assert(vars_view(self.variables@)[i as int].1 == self.variables@[i as int].1@);
            }
            Some(self.variables[i].1.get_value())
        } else {
            None
        }
    }

    /// The persistence file name for the loaded plugin: its declared
    /// internal library name with the settings extension, under the
    /// configured directory. Fails while no core is loaded.
    pub fn config_file_name(&self) -> (r: Result<String, Error>)
        requires
            self.wf(),
        ensures
            !self.spec_core_loaded() ==> r == Err::<String, Error>(Error::CoreNotLoaded),
            self.spec_core_loaded() ==> r is Ok && r.unwrap()@ == self@.config_directory + "/"@
                + self@.sys_info.unwrap().library_name + ".toml"@,
    {
        let sys = match self.get_system_info() {
            Ok(s) => s,
            Err(e) => {
                return Err(e);
            }
        };
        let mut path = String::new();
        path.append(self.config_directory.as_str());
        path.append("/");
        path.append(sys.library_name.as_str());
        path.append(".toml");
        Ok(path)
    }

    /// The key/value pairs a settings document for the current table
    /// holds: each declared variable's key with its reported value.
    pub fn settings_snapshot(&self) -> (r: Vec<(String, String)>)
        requires
            self.wf(),
        ensures
            r@.len() == self@.variables.len(),
            forall|i: int| 0 <= i < r@.len() ==> #[trigger] pairs_view(r@)[i] == (
                self@.variables[i].0,
                var_value(self@.variables[i].1),
            ),
    {
        let n = self.variables.len();
        let mut r: Vec<(String, String)> = Vec::new();
        let mut i: usize = 0;
        while i < n
            invariant
                i <= n,
                self.wf(),
                n == self.variables@.len(),
                r@.len() == i,
                forall|j: int| 0 <= j < i ==> (#[trigger] r@[j]).0@ == self@.variables[j].0
                    && r@[j].1@ == var_value(self@.variables[j].1),
            decreases n - i,
        {
            proof {
                assert(vars_view(self.variables@)[i as int] == (
                    self.variables@[i as int].0@,
                    self.variables@[i as int].1@,
                ));
            }
            let key = self.variables[i].0.clone();
            let value = self.variables[i].1.get_value().clone();
            r.push((key, value));
            i = i + 1;
        }
        proof {
            assert forall|j: int| 0 <= j < r@.len() implies #[trigger] pairs_view(r@)[j] == (
                self@.variables[j].0,
                var_value(self@.variables[j].1),
            ) by {
                assert(pairs_view(r@)[j] == (r@[j].0@, r@[j].1@));
            }
        }
        r
    }

    /// Overwrites declared defaults with persisted values: every declared
    /// variable whose key appears in `saved` takes the persisted value as
    /// its selected value; variables without one are untouched.
    pub fn apply_saved_values(&mut self, saved: &Vec<(String, String)>)
        requires
            old(self).wf(),
        ensures
            final(self).wf(),
            final(self)@ == (FrontendV {
                variables: spec_apply_saved(old(self)@.variables, pairs_view(saved@)),
                ..old(self)@
            }),
    {
        let ghost goal = spec_apply_saved(old(self)@.variables, pairs_view(saved@));
        let n = self.variables.len();
        let mut new_vars: Vec<(String, CoreVariable)> = Vec::new();
        let mut i: usize = 0;
        while i < n
            invariant
                i <= n,
                old(self).wf(),
                self == old(self),
                n == self.variables@.len(),
                goal == spec_apply_saved(old(self)@.variables, pairs_view(saved@)),
                new_vars@.len() == i,
                forall|j: int| 0 <= j < i ==> (#[trigger] new_vars@[j]).0 == self.variables@[j].0
                    && new_vars@[j].0@ == goal[j].0 && new_vars@[j].1@ == goal[j].1
                    && new_vars@[j].1.wf(),
            decreases n - i,
        {
            proof {
                assert(vars_view(self.variables@)[i as int] == (
                    self.variables@[i as int].0@,
                    self.variables@[i as int].1@,
                ));
            }
            let key = self.variables[i].0.clone();
            match self.find_saved(saved, i) {
                Some(value) => {
                    let mut var = self.variables[i].1.duplicate();
                    var.value = Some(value.clone());
                    new_vars.push((key, var));
                }
                None => {
                    new_vars.push((key, self.variables[i].1.duplicate()));
                }
            }
            i = i + 1;
        }
        self.variables = new_vars;
        proof {
            let fv = final(self)@.variables;
            assert forall|j: int| 0 <= j < fv.len() implies #[trigger] fv[j] == goal[j] by {
                assert(vars_view(new_vars@)[j] == (new_vars@[j].0@, new_vars@[j].1@));
            }
            assert(final(self)@.variables =~= goal);
            assert forall|a: int, b: int|
                0 <= a < b < final(self).variables@.len() implies final(self).variables@[a].0@
                != final(self).variables@[b].0@ by {
                assert(final(self).variables@[a].0 == old(self).variables@[a].0);
                assert(final(self).variables@[b].0 == old(self).variables@[b].0);
            }
            assert(final(self)@ =~= (FrontendV { variables: goal, ..old(self)@ }));
        }
    }

    /// Looks the key of the `i`-th declared variable up in a persisted
    /// key/value list, reporting the first value stored for it.
    fn find_saved<'a>(&self, saved: &'a Vec<(String, String)>, i: usize) -> (r: Option<&'a String>)
        requires
            i < self@.variables.len(),
        ensures
            has_saved(pairs_view(saved@), self@.variables[i as int].0) ==> r is Some
                && r.unwrap()@ == pairs_view(saved@)[saved_index(
                pairs_view(saved@),
                self@.variables[i as int].0,
            ) as int].1,
            !has_saved(pairs_view(saved@), self@.variables[i as int].0) ==> r is None,
    {
        let key = &self.variables[i].0;
        proof {
            assert(vars_view(self.variables@)[i as int].0 == self.variables@[i as int].0@);
        }
        let n = saved.len();
        let mut j: usize = 0;
        while j < n
            invariant
                j <= n,
                n == saved@.len(),
                i < self.variables@.len(),
                key@ == self@.variables[i as int].0,
                forall|k: int| 0 <= k < j ==> pairs_view(saved@)[k].0 != key@,
            decreases n - j,
        {
            proof {
                assert(pairs_view(saved@)[j as int] == (saved@[j as int].0@, saved@[j as int].1@));
            }
            if saved[j].0 == *key {
                proof {
                    lemma_saved_index_is(pairs_view(saved@), key@, j as nat);
                }
                return Some(&saved[j].1);
            }
            j = j + 1;
        }
        proof {
            lemma_saved_index_is(pairs_view(saved@), key@, n as nat);
        }
        None
    }
}

} // verus!
