//! The inputs of the analysis database that macro expansion reads and
//! writes: the client's status, the three resolution maps and the
//! registered plugins.
use vstd::prelude::*;

use rustc_hash::FxHashMap;
use scarb_proc_macro_server_types::methods::expand::{
    ExpandAttributeParams, ExpandDeriveParams, ExpandInlineMacroParams,
};
use scarb_proc_macro_server_types::methods::ProcMacroResult;

use crate::controller::ClientStatus;
use crate::fx_map::fx_new;
use crate::plugins::{distinct_names, extend_names, has_name, PluginSuite, ProcMacroPlugin};

verus! {

/// The macro-expansion inputs of the analysis database.
pub struct ProcMacroInputs {
    pub proc_macro_client_status: ClientStatus,
    pub attribute_macro_resolution: FxHashMap<ExpandAttributeParams, ProcMacroResult>,
    pub derive_macro_resolution: FxHashMap<ExpandDeriveParams, ProcMacroResult>,
    pub inline_macro_resolution: FxHashMap<ExpandInlineMacroParams, ProcMacroResult>,
    /// Registered macro plugins, static ones and those of expander instances.
    pub macro_plugins: Vec<ProcMacroPlugin>,
    /// Names of the registered inline macro plugins.
    pub inline_macro_plugins: Vec<String>,
}

/// `after` holds the plugins of `before` with `plugins` and `inline_names`
/// added: macro plugins appended, inline names joined without duplicates,
/// the old ones first.
pub open spec fn plugins_merged(
    before: ProcMacroInputs,
    after: ProcMacroInputs,
    plugins: Seq<ProcMacroPlugin>,
    inline_names: Seq<String>,
) -> bool {
    &&& after.macro_plugins@ == before.macro_plugins@ + plugins
    &&& distinct_names(after.inline_macro_plugins@)
    &&& after.inline_macro_plugins@.len() >= before.inline_macro_plugins@.len()
    &&& after.inline_macro_plugins@.subrange(0, before.inline_macro_plugins@.len() as int)
        == before.inline_macro_plugins@
    &&& forall|n: Seq<char>|
        has_name(after.inline_macro_plugins@, n) <==> (has_name(
            before.inline_macro_plugins@,
            n,
        ) || has_name(inline_names, n))
}

impl ProcMacroInputs {
    /// Inline plugin names are distinct, as keys of the registry, and a
    /// ready client is well formed.
    pub open spec fn wf(&self) -> bool {
        &&& distinct_names(self.inline_macro_plugins@)
        &&& match self.proc_macro_client_status {
            ClientStatus::Ready(client) => client.wf(),
            _ => true,
        }
    }

    /// `self` with `status` as the client's status.
    pub open spec fn with_status(self, status: ClientStatus) -> ProcMacroInputs {
        ProcMacroInputs { proc_macro_client_status: status, ..self }
    }

    /// Fresh inputs: expansion disabled, nothing resolved, and the static plugins.
    pub fn new(static_plugins: PluginSuite) -> (r: Self)
        ensures
            r.wf(),
            r.proc_macro_client_status is Disabled,
            r.attribute_macro_resolution@ == Map::<ExpandAttributeParams, ProcMacroResult>::empty(),
            r.derive_macro_resolution@ == Map::<ExpandDeriveParams, ProcMacroResult>::empty(),
            r.inline_macro_resolution@ == Map::<ExpandInlineMacroParams, ProcMacroResult>::empty(),
            r.macro_plugins@ == static_plugins.plugins@,
            distinct_names(r.inline_macro_plugins@),
            forall|n: Seq<char>|
                has_name(r.inline_macro_plugins@, n) <==> has_name(
                    static_plugins.inline_macro_plugins@,
                    n,
                ),
    {
        let PluginSuite { plugins, inline_macro_plugins } = static_plugins;
        let mut names: Vec<String> = Vec::new();
        extend_names(&mut names, &inline_macro_plugins);
        ProcMacroInputs {
            proc_macro_client_status: ClientStatus::Disabled,
            attribute_macro_resolution: fx_new(),
            derive_macro_resolution: fx_new(),
            inline_macro_resolution: fx_new(),
            macro_plugins: plugins,
            inline_macro_plugins: names,
        }
    }

    /// Registers the plugins of `suite` beside those already registered:
    /// nothing registered before is dropped.
    pub fn merge_plugin_suite(&mut self, suite: PluginSuite)
        requires
            old(self).wf(),
        ensures
            final(self).wf(),
            plugins_merged(*old(self), *final(self), suite.plugins@, suite.inline_macro_plugins@),
            final(self).proc_macro_client_status == old(self).proc_macro_client_status,
            final(self).attribute_macro_resolution == old(self).attribute_macro_resolution,
            final(self).derive_macro_resolution == old(self).derive_macro_resolution,
            final(self).inline_macro_resolution == old(self).inline_macro_resolution,
    {
        let PluginSuite { plugins, inline_macro_plugins } = suite;
        let mut plugins = plugins;
        self.macro_plugins.append(&mut plugins);
        extend_names(&mut self.inline_macro_plugins, &inline_macro_plugins);
    }
}

/// Registrations accumulate: after a second expander instance registers,
/// the plugins of the first are all still there beside those of the second.
pub proof fn lemma_registrations_accumulate(
    start: ProcMacroInputs,
    after_first: ProcMacroInputs,
    after_second: ProcMacroInputs,
    first_plugins: Seq<ProcMacroPlugin>,
    first_names: Seq<String>,
    second_plugins: Seq<ProcMacroPlugin>,
    second_names: Seq<String>,
)
    requires
        plugins_merged(start, after_first, first_plugins, first_names),
        plugins_merged(after_first, after_second, second_plugins, second_names),
    ensures
        after_second.macro_plugins@ == start.macro_plugins@ + first_plugins + second_plugins,
        forall|n: Seq<char>|
            has_name(after_second.inline_macro_plugins@, n) <==> (has_name(
                start.inline_macro_plugins@,
                n,
            ) || has_name(first_names, n) || has_name(second_names, n)),
        forall|n: Seq<char>|
            has_name(first_names, n) ==> has_name(after_second.inline_macro_plugins@, n),
{
    assert(start.macro_plugins@ + first_plugins + second_plugins == (start.macro_plugins@
        + first_plugins) + second_plugins);
}

} // verus!
