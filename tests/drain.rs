use std::collections::VecDeque;

use cairo_lang_language_server::client::{ExpanderResponse, ProcMacroClient, RequestParams};
use cairo_lang_language_server::controller::{ClientStatus, ProcMacroClientStatusChange};
use cairo_lang_language_server::db::ProcMacroInputs;
use cairo_lang_language_server::idle_job::{
    apply_decoded_responses, apply_proc_macro_server_responses, drain_responses, UnknownResponse,
};
use cairo_lang_language_server::plugins::PluginSuite;
use cairo_lang_macro::TokenStream;
use scarb_proc_macro_server_types::methods::expand::{
    ExpandAttributeParams, ExpandDeriveParams,
};
use scarb_proc_macro_server_types::jsonrpc::{ResponseError, RpcResponse};
use scarb_proc_macro_server_types::methods::ProcMacroResult;

fn attribute() -> ExpandAttributeParams {
    ExpandAttributeParams {
        attr: "a".to_string(),
        args: TokenStream::new(String::new()),
        item: TokenStream::new("fn f() {}".to_string()),
    }
}

fn derive() -> ExpandDeriveParams {
    ExpandDeriveParams {
        derives: vec!["D".to_string()],
        item: TokenStream::new("struct S {}".to_string()),
    }
}

fn result(code: &str) -> ProcMacroResult {
    ProcMacroResult { token_stream: TokenStream::new(code.to_string()), diagnostics: vec![] }
}

fn resp(id: u64, payload: Option<ProcMacroResult>) -> ExpanderResponse<ProcMacroResult> {
    ExpanderResponse { id, payload }
}

fn rpc(id: u64, code: &str) -> RpcResponse {
    RpcResponse { id, result: Some(serde_json::to_value(result(code)).unwrap()), error: None }
}

/// A ready client whose requests 7 (attribute) and 9 (derive) are in flight.
fn ready_db() -> ProcMacroInputs {
    let mut client = ProcMacroClient::new();
    let mut mailbox = ProcMacroClientStatusChange::new();
    let send = |id: u64, _: &RequestParams| id == 7 || id == 9;
    for i in 0..10 {
        if i == 9 {
            client.request_derives(derive(), send, &mut mailbox);
        } else {
            client.request_attribute(attribute(), send, &mut mailbox);
        }
    }
    let mut db = ProcMacroInputs::new(PluginSuite { plugins: vec![], inline_macro_plugins: vec![] });
    db.proc_macro_client_status = ClientStatus::Ready(client);
    db
}

#[test]
fn out_of_order_responses_are_classified() {
    let mut db = ready_db();
    let ClientStatus::Ready(client) = &mut db.proc_macro_client_status else { panic!() };
    let report = drain_responses(
        client,
        &mut db.attribute_macro_resolution,
        &mut db.derive_macro_resolution,
        &mut db.inline_macro_resolution,
        VecDeque::from(vec![resp(9, Some(result("derived"))), resp(7, Some(result("attributed")))]),
    );
    assert!(report.attribute_changed);
    assert!(report.derive_changed);
    assert!(!report.inline_changed);
    assert_eq!(report.unknown_response, None);
    assert!(!client.has_pending_requests());
    assert_eq!(db.attribute_macro_resolution.get(&attribute()), Some(&result("attributed")));
    assert_eq!(db.derive_macro_resolution.get(&derive()), Some(&result("derived")));
    assert!(db.inline_macro_resolution.is_empty());
}

#[test]
fn apply_reports_change() {
    let mut db = ready_db();
    let r = apply_proc_macro_server_responses(&mut db, VecDeque::from(vec![rpc(9, "derived")]));
    assert_eq!(r, Ok(true));
    assert_eq!(db.derive_macro_resolution.len(), 1);
    assert!(db.attribute_macro_resolution.is_empty());
    assert!(db.proc_macro_client_status.ready().unwrap().has_pending_requests());
}

#[test]
fn empty_drain_changes_nothing() {
    let mut db = ready_db();
    db.attribute_macro_resolution.insert(attribute(), result("kept"));
    let r = apply_proc_macro_server_responses(&mut db, VecDeque::new());
    assert_eq!(r, Ok(false));
    assert_eq!(db.attribute_macro_resolution.len(), 1);
    assert_eq!(db.attribute_macro_resolution.get(&attribute()), Some(&result("kept")));
}

#[test]
fn unknown_response_is_reported() {
    let mut db = ready_db();
    let r = apply_proc_macro_server_responses(
        &mut db,
        VecDeque::from(vec![rpc(7, "x"), rpc(8, "y"), rpc(9, "z")]),
    );
    assert_eq!(r, Err(UnknownResponse { id: 8 }));
    assert!(db.attribute_macro_resolution.is_empty());
    assert!(db.derive_macro_resolution.is_empty());
    assert!(db.proc_macro_client_status.ready().unwrap().has_pending_requests());
}

#[test]
fn malformed_payload_is_dropped() {
    let mut db = ready_db();
    let r = apply_proc_macro_server_responses(
        &mut db,
        VecDeque::from(vec![RpcResponse {
            id: 7,
            result: Some(serde_json::Value::String("garbage".to_string())),
            error: None,
        }]),
    );
    assert_eq!(r, Ok(false));
    assert!(db.attribute_macro_resolution.is_empty());
    let ClientStatus::Ready(client) = &mut db.proc_macro_client_status else { panic!() };
    assert!(client.take_request(7).is_none());
    assert!(client.take_request(9).is_some());
}

#[test]
fn drain_needs_ready_client() {
    let mut db = ProcMacroInputs::new(PluginSuite { plugins: vec![], inline_macro_plugins: vec![] });
    let r = apply_proc_macro_server_responses(&mut db, VecDeque::from(vec![rpc(1, "x")]));
    assert_eq!(r, Ok(false));
    assert!(db.attribute_macro_resolution.is_empty());
}

#[test]
fn error_response_is_dropped() {
    let mut db = ready_db();
    let r = apply_proc_macro_server_responses(
        &mut db,
        VecDeque::from(vec![RpcResponse {
            id: 9,
            result: None,
            error: Some(ResponseError { message: "failed".to_string() }),
        }]),
    );
    assert_eq!(r, Ok(false));
    assert!(db.derive_macro_resolution.is_empty());
}

#[test]
fn decoded_responses_apply() {
    let mut db = ready_db();
    let r = apply_decoded_responses(&mut db, VecDeque::from(vec![resp(7, Some(result("a")))]));
    assert_eq!(r, Ok(true));
    assert_eq!(db.attribute_macro_resolution.get(&attribute()), Some(&result("a")));
}

#[test]
fn equal_result_is_no_change() {
    let mut db = ready_db();
    db.attribute_macro_resolution.insert(attribute(), result("same"));
    let r = apply_proc_macro_server_responses(&mut db, VecDeque::from(vec![rpc(7, "same")]));
    assert_eq!(r, Ok(false));
    assert_eq!(db.attribute_macro_resolution.get(&attribute()), Some(&result("same")));
}

#[test]
fn different_result_is_a_change() {
    let mut db = ready_db();
    db.attribute_macro_resolution.insert(attribute(), result("old"));
    let r = apply_proc_macro_server_responses(&mut db, VecDeque::from(vec![rpc(7, "new")]));
    assert_eq!(r, Ok(true));
    assert_eq!(db.attribute_macro_resolution.get(&attribute()), Some(&result("new")));
}

#[test]
fn value_set_and_restored_in_one_batch_is_no_change() {
    let mut db = ready_db();
    db.attribute_macro_resolution.insert(attribute(), result("old"));
    let mut mailbox = ProcMacroClientStatusChange::new();
    let ClientStatus::Ready(client) = &mut db.proc_macro_client_status else { panic!() };
    client.request_attribute(attribute(), |_, _| true, &mut mailbox);
    let r = apply_proc_macro_server_responses(
        &mut db,
        VecDeque::from(vec![rpc(7, "new"), rpc(10, "old")]),
    );
    assert_eq!(r, Ok(false));
    assert_eq!(db.attribute_macro_resolution.get(&attribute()), Some(&result("old")));
}

#[test]
fn last_value_in_batch_wins() {
    let mut db = ready_db();
    let mut mailbox = ProcMacroClientStatusChange::new();
    let ClientStatus::Ready(client) = &mut db.proc_macro_client_status else { panic!() };
    client.request_attribute(attribute(), |_, _| true, &mut mailbox);
    let r = apply_proc_macro_server_responses(
        &mut db,
        VecDeque::from(vec![rpc(7, "first"), rpc(10, "second")]),
    );
    assert_eq!(r, Ok(true));
    assert_eq!(db.attribute_macro_resolution.get(&attribute()), Some(&result("second")));
}
