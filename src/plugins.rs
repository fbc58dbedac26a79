//! The compiler plugins that the expander's macros become, and how they
//! join the plugins already registered.
use vstd::prelude::*;

use scarb_proc_macro_server_types::methods::defined_macros::DefinedMacrosResponse;

verus! {

/// The macro plugin of one expander instance: the attribute, derive and
/// executable-attribute names it answers for.
pub struct ProcMacroPlugin {
    pub defined_attributes: Vec<String>,
    pub defined_derives: Vec<String>,
    pub defined_executable_attributes: Vec<String>,
}

/// The plugins that an expander instance contributes: macro plugins, and
/// the names of the inline macros it expands.
pub struct PluginSuite {
    pub plugins: Vec<ProcMacroPlugin>,
    pub inline_macro_plugins: Vec<String>,
}

/// Whether some entry of `names` reads `name`.
pub open spec fn has_name(names: Seq<String>, name: Seq<char>) -> bool {
    exists|i: int| 0 <= i < names.len() && #[trigger] names[i]@ == name
}

/// No two entries of `names` read the same.
pub open spec fn distinct_names(names: Seq<String>) -> bool {
    forall|i: int, j: int|
        0 <= i < names.len() && 0 <= j < names.len() && i != j ==> #[trigger] names[i]@
            != #[trigger] names[j]@
}

/// The macro plugin made from the expander's defined macros.
pub open spec fn plugin_of(defined_macros: DefinedMacrosResponse) -> ProcMacroPlugin {
    ProcMacroPlugin {
        defined_attributes: defined_macros.attributes,
        defined_derives: defined_macros.derives,
        defined_executable_attributes: defined_macros.executables,
    }
}

/// Copies of the strings of `a` followed by those of `b`.
fn concat_names(a: &Vec<String>, b: &Vec<String>) -> (r: Vec<String>)
    ensures
        r@ == a@ + b@,
{
    let mut r: Vec<String> = Vec::new();
    let mut i: usize = 0;
    while i < a.len()
        invariant
            i <= a.len(),
            r@ == a@.subrange(0, i as int),
        decreases a.len() - i,
    {
        r.push(a[i].clone());
        i = i + 1;
    }
    let mut j: usize = 0;
    while j < b.len()
        invariant
            j <= b.len(),
            i == a.len(),
            r@ == a@ + b@.subrange(0, j as int),
        decreases b.len() - j,
    {
        r.push(b[j].clone());
        j = j + 1;
    }
    assert(a@.subrange(0, a.len() as int) == a@);
    assert(b@.subrange(0, b.len() as int) == b@);
    r
}

impl ProcMacroPlugin {
    /// The attributes it answers for: the defined attributes, then the
    /// executable ones.
    pub fn declared_attributes(&self) -> (r: Vec<String>)
        ensures
            r@ == self.defined_attributes@ + self.defined_executable_attributes@,
    {
        concat_names(&self.defined_attributes, &self.defined_executable_attributes)
    }

    /// The derives it answers for.
    pub fn declared_derives(&self) -> (r: Vec<String>)
        ensures
            r@ == self.defined_derives@,
    {
        let empty: Vec<String> = Vec::new();
        let r = concat_names(&self.defined_derives, &empty);
        assert(self.defined_derives@ + empty@ == self.defined_derives@);
        r
    }
}

/// The plugins of an expander instance: one macro plugin for its attribute,
/// derive and executable macros, and one inline plugin for each of its
/// inline macros.
pub fn proc_macro_plugin_suite(defined_macros: DefinedMacrosResponse) -> (r: PluginSuite)
    ensures
        r.plugins@ == seq![plugin_of(defined_macros)],
        r.inline_macro_plugins@ == defined_macros.inline_macros@,
{
    let DefinedMacrosResponse { attributes, inline_macros, derives, executables } = defined_macros;
    let mut plugins: Vec<ProcMacroPlugin> = Vec::new();
    plugins.push(
        ProcMacroPlugin {
            defined_attributes: attributes,
            defined_derives: derives,
            defined_executable_attributes: executables,
        },
    );
    assert(plugins@ == seq![plugin_of(defined_macros)]);
    PluginSuite { plugins, inline_macro_plugins: inline_macros }
}

/// Whether `names` holds `name`.
pub fn contains_name(names: &Vec<String>, name: &String) -> (r: bool)
    ensures
        r == has_name(names@, name@),
{
    let mut i: usize = 0;
    while i < names.len()
        invariant
            i <= names.len(),
            forall|k: int| 0 <= k < i ==> names@[k]@ != name@,
        decreases names.len() - i,
    {
        if names[i] == *name {
            assert(names@[i as int]@ == name@);
            return true;
        }
        i = i + 1;
    }
    false
}

/// Adds to `names` each name of `extra` that it does not hold yet, in the
/// order of `extra`; the names already there keep their places.
pub fn extend_names(names: &mut Vec<String>, extra: &Vec<String>)
    requires
        distinct_names(old(names)@),
    ensures
        distinct_names(final(names)@),
        final(names)@.len() >= old(names)@.len(),
        final(names)@.subrange(0, old(names)@.len() as int) == old(names)@,
        forall|n: Seq<char>|
            has_name(final(names)@, n) <==> (has_name(old(names)@, n) || has_name(extra@, n)),
{
    let ghost start = names@;
    let mut j: usize = 0;
    while j < extra.len()
        invariant
            j <= extra.len(),
            distinct_names(names@),
            names@.len() >= start.len(),
            names@.subrange(0, start.len() as int) == start,
            forall|n: Seq<char>|
                has_name(names@, n) <==> (has_name(start, n) || has_name(
                    extra@.subrange(0, j as int),
                    n,
                )),
        decreases extra.len() - j,
    {
        let ghost before = names@;
        let ghost done = extra@.subrange(0, j as int);
        let ghost next = extra@.subrange(0, j + 1);
        assert(next == done.push(extra@[j as int]));
        let present = contains_name(names, &extra[j]);
        if !present {
            names.push(extra[j].clone());
            assert(names@ == before.push(extra@[j as int]));
            assert forall|n: Seq<char>| has_name(names@, n) <==> (has_name(before, n) || n
                == extra@[j as int]@) by {
                if has_name(names@, n) {
                    let i = choose|i: int| 0 <= i < names@.len() && #[trigger] names@[i]@ == n;
                    if i < before.len() {
                        assert(before[i]@ == n);
                    }
                }
                if has_name(before, n) {
                    let i = choose|i: int| 0 <= i < before.len() && #[trigger] before[i]@ == n;
                    assert(names@[i]@ == n);
                }
                if n == extra@[j as int]@ {
                    assert(names@[before.len() as int]@ == n);
                }
            }
            assert(names@.subrange(0, start.len() as int) == before.subrange(0, start.len() as int));
        }
        assert forall|n: Seq<char>| has_name(next, n) <==> (has_name(done, n) || n
            == extra@[j as int]@) by {
            if has_name(next, n) {
                let i = choose|i: int| 0 <= i < next.len() && #[trigger] next[i]@ == n;
                if i < done.len() {
                    assert(done[i]@ == n);
                }
            }
            if has_name(done, n) {
                let i = choose|i: int| 0 <= i < done.len() && #[trigger] done[i]@ == n;
                assert(next[i]@ == n);
            }
            if n == extra@[j as int]@ {
                assert(next[j as int]@ == n);
            }
        }
        assert forall|n: Seq<char>| has_name(names@, n) <==> (has_name(start, n) || has_name(
            next,
            n,
        )) by {
            if n == extra@[j as int]@ {
                assert(has_name(names@, n));
            }
        }
        j = j + 1;
    }
    assert(extra@.subrange(0, extra.len() as int) == extra@);
}

} // verus!
