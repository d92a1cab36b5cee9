//! Plugin-declared configuration variables.
//!
//! A plugin declares each variable as a single string of the shape
//! `"description; choice|choice|..."`: a description, a semicolon and one
//! space, then the ordered choices separated by `|`. The first choice is
//! the default value.

use vstd::prelude::*;
use vstd::string::StrSliceExecFns;
use vstd::string::StringExecFns;

verus! {

broadcast use vstd::string::group_string_axioms;

/// The first index at which `c` occurs in `s`, or `s.len()` if it does not
/// occur.
pub open spec fn find_char(s: Seq<char>, c: char) -> nat
    decreases s.len(),
{
    if s.len() == 0 {
        0
    } else if s[0] == c {
        0
    } else {
        1 + find_char(s.skip(1), c)
    }
}

/// `s` split on `sep`: the (possibly empty) segments between occurrences
/// of `sep`, in order. Always at least one segment.
pub open spec fn split_on(s: Seq<char>, sep: char) -> Seq<Seq<char>>
    decreases s.len(),
{
    let i = find_char(s, sep) as int;
    if i < s.len() {
        seq![s.take(i)] + split_on(s.skip(i + 1), sep)
    } else {
        seq![s]
    }
}

/// `find_char` returns exactly the position of the first occurrence: if no
/// occurrence lies before `k`, and `k` is either an occurrence or the end,
/// then `find_char` returns `k`.
proof fn lemma_find_char_is(s: Seq<char>, c: char, k: nat)
    requires
        k <= s.len(),
        forall|j: int| 0 <= j < k ==> s[j] != c,
        k < s.len() ==> s[k as int] == c,
    ensures
        find_char(s, c) == k,
    decreases s.len(),
{
    if s.len() == 0 {
    } else if s[0] == c {
        assert(k == 0);
    } else {
        assert(k >= 1);
        lemma_find_char_is(s.skip(1), c, (k - 1) as nat);
    }
}

/// One step of splitting: if `[start..j)` holds no separator and `j` is a
/// separator position (or the end), the split of the tail starting at
/// `start` begins with exactly the segment `[start..j)`.
proof fn lemma_split_on_step(s: Seq<char>, sep: char, start: int, j: int)
    requires
        0 <= start <= j <= s.len(),
        forall|k: int| start <= k < j ==> s[k] != sep,
        j < s.len() ==> s[j] == sep,
    ensures
        j < s.len() ==> split_on(s.skip(start), sep) == seq![s.subrange(start, j)] + split_on(
            s.skip(j + 1),
            sep,
        ),
        j == s.len() ==> split_on(s.skip(start), sep) == seq![s.subrange(start, s.len() as int)],
{
    let t = s.skip(start);
    assert forall|k: int| 0 <= k < j - start implies t[k] != sep by {
        assert(t[k] == s[start + k]);
    }
    if j < s.len() {
        assert(t[j - start] == s[j]);
        lemma_find_char_is(t, sep, (j - start) as nat);
        assert(t.take(j - start) =~= s.subrange(start, j));
        assert(t.skip(j - start + 1) =~= s.skip(j + 1));
    } else {
        lemma_find_char_is(t, sep, (j - start) as nat);
        assert(t =~= s.subrange(start, s.len() as int));
    }
}

/// The character views of a sequence of strings.
pub open spec fn views_of(v: Seq<String>) -> Seq<Seq<char>> {
    v.map_values(|x: String| x@)
}

/// Splits `s` on `sep`, returning owned segments.
fn split_exec(s: &str, sep: char) -> (r: Vec<String>)
    ensures
        views_of(r@) == split_on(s@, sep),
{
    let len = s.unicode_len();
    let mut r: Vec<String> = Vec::new();
    let mut start: usize = 0;
    let mut j: usize = 0;
    proof {
        assert(s@.skip(0) =~= s@);
        assert(views_of(r@) + split_on(s@, sep) =~= split_on(s@, sep));
    }
    while j < len
        invariant
            start <= j <= len,
            len == s@.len(),
            forall|k: int| start <= k < j ==> s@[k] != sep,
            split_on(s@, sep) == views_of(r@) + split_on(s@.skip(start as int), sep),
        decreases len - j,
    {
        if s.get_char(j) == sep {
            let seg = s.substring_char(start, j);
            let owned: String = <String as StringExecFns>::from_str(seg);
            proof {
                lemma_split_on_step(s@, sep, start as int, j as int);
                assert(views_of(r@.push(owned)) =~= views_of(r@) + seq![owned@]);
                assert(views_of(r@) + (seq![s@.subrange(start as int, j as int)] + split_on(
                    s@.skip(j as int + 1),
                    sep,
                )) =~= (views_of(r@) + seq![s@.subrange(start as int, j as int)]) + split_on(
                    s@.skip(j as int + 1),
                    sep,
                ));
            }
            r.push(owned);
            start = j + 1;
        }
        j = j + 1;
    }
    let seg = s.substring_char(start, len);
    let owned: String = <String as StringExecFns>::from_str(seg);
    proof {
        lemma_split_on_step(s@, sep, start as int, len as int);
        assert(views_of(r@.push(owned)) =~= views_of(r@) + seq![owned@]);
        assert(views_of(r@) + seq![s@.subrange(start as int, s@.len() as int)] =~= split_on(
            s@,
            sep,
        ));
    }
    r.push(owned);
    r
}

/// The abstract value of a [`CoreVariable`].
#[verifier::ext_equal]
pub struct CoreVariableV {
    pub description: Seq<char>,
    pub choices: Seq<Seq<char>>,
    pub value: Option<Seq<char>>,
}

/// One plugin-declared configuration variable: its description, its
/// ordered choices, and the currently selected value, absent meaning the
/// default (the first choice).
#[derive(Clone, Debug)]
pub struct CoreVariable {
    /// Description of the variable.
    pub description: String,
    /// The declared choices, in order; the first is the default.
    pub choices: Vec<String>,
    /// The selected value. Absent means the first choice.
    pub value: Option<String>,
}

impl View for CoreVariable {
    type V = CoreVariableV;

    open spec fn view(&self) -> CoreVariableV {
        CoreVariableV {
            description: self.description@,
            choices: views_of(self.choices@),
            value: match self.value {
                Some(v) => Some(v@),
                None => None,
            },
        }
    }
}

/// What parsing a declaration string yields: the description before the
/// first `';'`, which must be followed by one space, then the choices
/// split on `'|'`; `None` when the string is not of that shape.
pub open spec fn spec_parse(s: Seq<char>) -> Option<CoreVariableV> {
    let i = find_char(s, ';') as int;
    if i + 1 < s.len() && s[i + 1] == ' ' {
        Some(
            CoreVariableV {
                description: s.take(i),
                choices: split_on(s.skip(i + 2), '|'),
                value: None,
            },
        )
    } else {
        None
    }
}

impl CoreVariable {
    /// A variable is well formed when it has at least one choice, so the
    /// default is defined. Parsing always yields at least one choice.
    pub open spec fn wf(&self) -> bool {
        self.choices@.len() > 0
    }

    /// Parses a plugin's declaration string. A string without a
    /// `"; "`-separated choice list is malformed and yields `None`.
    pub fn parse(s: &str) -> (r: Option<CoreVariable>)
        ensures
            match spec_parse(s@) {
                Some(m) => r is Some && r.unwrap()@ == m && r.unwrap().wf(),
                None => r is None,
            },
    {
        let len = s.unicode_len();
        let mut i: usize = 0;
        while i < len && s.get_char(i) != ';'
            invariant
                i <= len,
                len == s@.len(),
                forall|j: int| 0 <= j < i ==> s@[j] != ';',
            decreases len - i,
        {
            i = i + 1;
        }
        proof {
            lemma_find_char_is(s@, ';', i as nat);
        }
        if i < len && i + 1 < len && s.get_char(i + 1) == ' ' {
            let description: String = <String as StringExecFns>::from_str(s.substring_char(0, i));
            let choices = split_exec(s.substring_char(i + 2, len), '|');
            proof {
                assert(s@.subrange(i as int + 2, len as int) =~= s@.skip(i as int + 2));
            }
            let parsed = CoreVariable { description, choices, value: None };
            proof {
                assert(split_on(s@.skip(i as int + 2), '|').len() >= 1);
                assert(parsed@ =~= spec_parse(s@).unwrap());
            }
            Some(parsed)
        } else {
            None
        }
    }

    /// The value this variable reports: the selected value if one is set,
    /// else the default (the first declared choice).
    pub open spec fn spec_value(&self) -> Seq<char> {
        match self.value {
            Some(v) => v@,
            None => self.choices@[0]@,
        }
    }

    /// Gets this variable's value.
    pub fn get_value(&self) -> (r: &String)
        requires
            self.wf(),
        ensures
            r@ == self.spec_value(),
    {
        match &self.value {
            Some(v) => v,
            None => &self.choices[0],
        }
    }

    /// An owned copy with the same abstract value.
    pub fn duplicate(&self) -> (r: CoreVariable)
        ensures
            r@ == self@,
            r.wf() == self.wf(),
    {
        let mut choices: Vec<String> = Vec::new();
        let n = self.choices.len();
        let mut i: usize = 0;
        while i < n
            invariant
                i <= n,
                n == self.choices@.len(),
                choices@.len() == i,
                forall|j: int| 0 <= j < i ==> choices@[j] == self.choices@[j],
            decreases n - i,
        {
            choices.push(self.choices[i].clone());
            i = i + 1;
        }
        let r = CoreVariable {
            description: self.description.clone(),
            choices,
            value: match &self.value {
                Some(v) => Some(v.clone()),
                None => None,
            },
        };
        proof {
            assert(r.choices@ =~= self.choices@);
            assert(r@ =~= self@);
        }
        r
    }

    /// Sets a new value.
    pub fn set_value(&mut self, value: &String)
        ensures
            final(self)@ == (CoreVariableV { value: Some(value@), ..old(self)@ }),
    {
        self.value = Some(value.clone());
    }
}

} // verus!
