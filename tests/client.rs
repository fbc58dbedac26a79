use std::cell::RefCell;

use cairo_lang_language_server::client::{
    bootstrap, check_defined_macros_response, decode_defined_macros, decode_expansion,
    BootstrapError, ExpanderResponse, ProcMacroClient, RequestParams,
};
use cairo_lang_language_server::controller::{ClientStatusChange, ProcMacroClientStatusChange};
use cairo_lang_macro::TokenStream;
use scarb_proc_macro_server_types::jsonrpc::{ResponseError, RpcResponse};
use scarb_proc_macro_server_types::methods::defined_macros::DefinedMacrosResponse;
use scarb_proc_macro_server_types::methods::expand::{
    ExpandAttributeParams, ExpandDeriveParams, ExpandInlineMacroParams,
};
use scarb_proc_macro_server_types::methods::ProcMacroResult;

fn attribute(name: &str) -> ExpandAttributeParams {
    ExpandAttributeParams {
        attr: name.to_string(),
        args: TokenStream::new(String::new()),
        item: TokenStream::new("fn f() {}".to_string()),
    }
}

fn defined() -> DefinedMacrosResponse {
    DefinedMacrosResponse {
        attributes: vec!["attr".to_string()],
        inline_macros: vec![],
        derives: vec![],
        executables: vec![],
    }
}

fn rpc(id: u64) -> Option<RpcResponse> {
    Some(RpcResponse { id, result: Some(serde_json::to_value(defined()).unwrap()), error: None })
}

fn decoded(id: u64, payload: Option<DefinedMacrosResponse>) -> Option<ExpanderResponse<DefinedMacrosResponse>> {
    Some(ExpanderResponse { id, payload })
}

#[test]
fn bootstrap_succeeds_on_fresh_client() {
    let mut client = ProcMacroClient::new();
    let sent = RefCell::new(vec![]);
    let r = client.fetch_defined_macros(
        |id| {
            sent.borrow_mut().push(id);
            true
        },
        || rpc(0),
    );
    assert_eq!(r.unwrap().attributes, vec!["attr".to_string()]);
    assert_eq!(*sent.borrow(), vec![0]);
    assert!(!client.has_pending_requests());
}

#[test]
fn request_before_bootstrap_is_a_usage_violation() {
    let mut client = ProcMacroClient::new();
    let mut mailbox = ProcMacroClientStatusChange::new();
    client.request_attribute(attribute("a"), |id, _| id == 0, &mut mailbox);
    assert!(client.has_pending_requests());
    let mut sent_bootstrap = false;
    let r = client.fetch_defined_macros(
        |_| {
            sent_bootstrap = true;
            true
        },
        || rpc(1),
    );
    assert_eq!(r.err(), Some(BootstrapError::NotFirstRequest));
    assert!(!sent_bootstrap);
}

#[test]
fn bootstrap_send_failure() {
    let mut client = ProcMacroClient::new();
    let r = client.fetch_defined_macros(|_| false, || rpc(0));
    assert_eq!(r.err(), Some(BootstrapError::SendFailed));
}

#[test]
fn bootstrap_response_for_other_request() {
    let mut client = ProcMacroClient::new();
    let r = client.fetch_defined_macros(|_| true, || rpc(3));
    assert_eq!(r.err(), Some(BootstrapError::ResponseMismatch));
}

#[test]
fn bootstrap_error_response_is_malformed() {
    let mut client = ProcMacroClient::new();
    let r = client.fetch_defined_macros(
        |_| true,
        || {
            Some(RpcResponse {
                id: 0,
                result: None,
                error: Some(ResponseError { message: "no".to_string() }),
            })
        },
    );
    assert_eq!(r.err(), Some(BootstrapError::MalformedResponse));
}

#[test]
fn bootstrap_errors() {
    assert_eq!(check_defined_macros_response(0, None).err(), Some(BootstrapError::ReceiveFailed));
    assert_eq!(
        check_defined_macros_response(0, decoded(3, Some(defined()))).err(),
        Some(BootstrapError::ResponseMismatch)
    );
    assert_eq!(
        check_defined_macros_response(0, decoded(0, None)).err(),
        Some(BootstrapError::MalformedResponse)
    );
    assert!(check_defined_macros_response(0, decoded(0, Some(defined()))).is_ok());
}

#[test]
fn decoding_payloads() {
    let ok = decode_defined_macros(rpc(5).unwrap());
    assert_eq!(ok.id, 5);
    assert_eq!(ok.payload.unwrap().attributes, vec!["attr".to_string()]);
    let wrong_shape = decode_expansion(rpc(6).unwrap());
    assert_eq!(wrong_shape.id, 6);
    assert!(wrong_shape.payload.is_none());
    let result = ProcMacroResult { token_stream: TokenStream::new("x".to_string()), diagnostics: vec![] };
    let expansion = decode_expansion(RpcResponse {
        id: 7,
        result: Some(serde_json::to_value(&result).unwrap()),
        error: None,
    });
    assert_eq!(expansion.payload, Some(result));
}

#[test]
fn bootstrap_event() {
    let ready = bootstrap(ProcMacroClient::new(), |_| true, || rpc(0));
    assert!(matches!(ready, ClientStatusChange::Ready(_, _)));
    let failed = bootstrap(ProcMacroClient::new(), |_| true, || rpc(4));
    assert!(matches!(failed, ClientStatusChange::Failed));
    let not_received = bootstrap(ProcMacroClient::new(), |_| true, || None);
    assert!(matches!(not_received, ClientStatusChange::Failed));
}

#[test]
fn request_ids_increase() {
    let mut client = ProcMacroClient::new();
    let mut mailbox = ProcMacroClientStatusChange::new();
    let seen = RefCell::new(vec![]);
    let send = |id: u64, p: &RequestParams| {
        let kind = match p {
            RequestParams::Attribute(_) => "attribute",
            RequestParams::Derive(_) => "derive",
            RequestParams::Inline(_) => "inline",
        };
        seen.borrow_mut().push((id, kind));
        true
    };
    client.request_attribute(attribute("a"), send, &mut mailbox);
    client.request_derives(
        ExpandDeriveParams { derives: vec!["D".to_string()], item: TokenStream::new("struct S {}".to_string()) },
        send,
        &mut mailbox,
    );
    client.request_inline_macros(
        ExpandInlineMacroParams { name: "m".to_string(), args: TokenStream::new("(1)".to_string()) },
        send,
        &mut mailbox,
    );
    assert_eq!(*seen.borrow(), vec![(0, "attribute"), (1, "derive"), (2, "inline")]);
    assert!(mailbox.changed().is_none());
}

#[test]
fn send_failure_posts_failed() {
    let mut client = ProcMacroClient::new();
    let mut mailbox = ProcMacroClientStatusChange::new();
    client.request_attribute(attribute("a"), |_, _| false, &mut mailbox);
    assert!(!client.has_pending_requests());
    assert!(matches!(mailbox.changed(), Some(ClientStatusChange::Failed)));
}

#[test]
fn take_request_removes_entry() {
    let mut client = ProcMacroClient::new();
    let mut mailbox = ProcMacroClientStatusChange::new();
    client.request_attribute(attribute("a"), |_, _| true, &mut mailbox);
    assert!(matches!(client.take_request(0), Some(RequestParams::Attribute(_))));
    assert!(client.take_request(0).is_none());
    assert!(!client.has_pending_requests());
}
