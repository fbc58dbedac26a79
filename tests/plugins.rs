use std::collections::VecDeque;

use cairo_lang_language_server::client::ProcMacroClient;
use cairo_lang_language_server::controller::{
    ClientStatusChange, ProcMacroClientController, ProcMacroClientStatusChange,
};
use cairo_lang_language_server::db::ProcMacroInputs;
use cairo_lang_language_server::plugins::{
    contains_name, proc_macro_plugin_suite, PluginSuite, ProcMacroPlugin,
};
use scarb_proc_macro_server_types::methods::defined_macros::DefinedMacrosResponse;

fn strings(v: &[&str]) -> Vec<String> {
    v.iter().map(|s| s.to_string()).collect()
}

fn defined(attributes: &[&str], inline: &[&str]) -> DefinedMacrosResponse {
    DefinedMacrosResponse {
        attributes: strings(attributes),
        inline_macros: strings(inline),
        derives: strings(&["Drv"]),
        executables: strings(&["exec"]),
    }
}

#[test]
fn plugin_suite_from_defined_macros() {
    let suite = proc_macro_plugin_suite(defined(&["a", "b"], &["m1", "m2"]));
    assert_eq!(suite.plugins.len(), 1);
    assert_eq!(suite.plugins[0].declared_attributes(), strings(&["a", "b", "exec"]));
    assert_eq!(suite.plugins[0].declared_derives(), strings(&["Drv"]));
    assert_eq!(suite.inline_macro_plugins, strings(&["m1", "m2"]));
}

#[test]
fn contains_name_finds_equal_strings() {
    let names = strings(&["x", "y"]);
    assert!(contains_name(&names, &"y".to_string()));
    assert!(!contains_name(&names, &"z".to_string()));
}

#[test]
fn static_plugins_are_registered_without_duplicates() {
    let db = ProcMacroInputs::new(PluginSuite {
        plugins: vec![ProcMacroPlugin {
            defined_attributes: strings(&["static"]),
            defined_derives: vec![],
            defined_executable_attributes: vec![],
        }],
        inline_macro_plugins: strings(&["print", "print", "array"]),
    });
    assert_eq!(db.macro_plugins.len(), 1);
    assert_eq!(db.inline_macro_plugins, strings(&["print", "array"]));
}

#[test]
fn second_ready_merges_plugins() {
    let mut controller = ProcMacroClientController::new();
    let mut db = ProcMacroInputs::new(PluginSuite {
        plugins: vec![],
        inline_macro_plugins: strings(&["print"]),
    });
    let mut mailbox = ProcMacroClientStatusChange::new();
    controller.initialize(&mut db, false, &mut mailbox, || true);

    mailbox.update(ClientStatusChange::Ready(defined(&["first"], &["one", "shared"]), ProcMacroClient::new()));
    controller
        .maybe_update_state(&mut db, &mut mailbox, false, || true, VecDeque::new)
        .unwrap();
    mailbox.update(ClientStatusChange::Failed);
    controller
        .maybe_update_state(&mut db, &mut mailbox, false, || true, VecDeque::new)
        .unwrap();
    mailbox.update(ClientStatusChange::Ready(defined(&["second"], &["two", "shared"]), ProcMacroClient::new()));
    controller
        .maybe_update_state(&mut db, &mut mailbox, false, || true, VecDeque::new)
        .unwrap();

    assert_eq!(db.macro_plugins.len(), 2);
    assert_eq!(db.macro_plugins[0].defined_attributes, strings(&["first"]));
    assert_eq!(db.macro_plugins[1].defined_attributes, strings(&["second"]));
    assert_eq!(db.inline_macro_plugins, strings(&["print", "one", "shared", "two"]));
}
