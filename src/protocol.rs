//! Types of the expander protocol, from `scarb_proc_macro_server_types`.
//! The library carries them through without looking inside.
use vstd::prelude::*;

use scarb_proc_macro_server_types::jsonrpc::{ResponseError, RpcResponse};
use scarb_proc_macro_server_types::methods::defined_macros::DefinedMacrosResponse;
use scarb_proc_macro_server_types::methods::expand::{
    ExpandAttributeParams, ExpandDeriveParams, ExpandInlineMacroParams,
};
use scarb_proc_macro_server_types::methods::ProcMacroResult;

verus! {

/// Declares `ExpandAttributeParams` of scarb_proc_macro_server_types, the parameters of an attribute expansion: the key of the attribute resolution map.
#[verifier::external_type_specification]
#[verifier::external_body]
pub struct ExExpandAttributeParams(ExpandAttributeParams);

/// Declares `ExpandDeriveParams` of scarb_proc_macro_server_types, the parameters of a derive expansion: the key of the derive resolution map.
#[verifier::external_type_specification]
#[verifier::external_body]
pub struct ExExpandDeriveParams(ExpandDeriveParams);

/// Declares `ExpandInlineMacroParams` of scarb_proc_macro_server_types, the parameters of an inline macro expansion: the key of the inline resolution map.
#[verifier::external_type_specification]
#[verifier::external_body]
pub struct ExExpandInlineMacroParams(ExpandInlineMacroParams);

/// Declares `ProcMacroResult` of scarb_proc_macro_server_types, the result of an expansion: the value of the resolution maps.
#[verifier::external_type_specification]
#[verifier::external_body]
pub struct ExProcMacroResult(ProcMacroResult);

/// Declares serde_json's `Value`: a JSON document, carried unread.
#[verifier::external_type_specification]
#[verifier::external_body]
pub struct ExValue(serde_json::Value);

/// Declares `ResponseError` of scarb_proc_macro_server_types, with its field.
#[verifier::external_type_specification]
pub struct ExResponseError(ResponseError);

/// Declares `RpcResponse` of scarb_proc_macro_server_types, with its fields:
/// the identifier of the request it answers, a result or an error.
#[verifier::external_type_specification]
pub struct ExRpcResponse(RpcResponse);

/// Declares `DefinedMacrosResponse` of scarb_proc_macro_server_types, with
/// its fields: the names of the expander's macros.
#[verifier::external_type_specification]
pub struct ExDefinedMacrosResponse(DefinedMacrosResponse);

/// Relies on the `PartialEq` that `ProcMacroResult` derives: two results
/// are equal when their token streams and diagnostics are.
pub assume_specification[ <ProcMacroResult as PartialEq>::eq ](
    a: &ProcMacroResult,
    b: &ProcMacroResult,
) -> (r: bool)
    ensures
        r == (*a == *b),
;

/// The payload of a response: its result, unless it carries an error.
pub open spec fn payload_of(response: RpcResponse) -> Option<serde_json::Value> {
    match response.error {
        Some(_) => None,
        None => response.result,
    }
}

/// Relies on `RpcResponse::into_result`: the error if there is one, else
/// the result if there is one, else an error.
pub assume_specification[ RpcResponse::into_result ](response: RpcResponse) -> (r: Result<
    serde_json::Value,
    ResponseError,
>)
    ensures
        match response.error {
            Some(e) => r == Err::<serde_json::Value, ResponseError>(e),
            None => match response.result {
                Some(v) => r == Ok::<serde_json::Value, ResponseError>(v),
                None => r is Err,
            },
        },
;

/// What `serde_json::from_value` makes of a JSON document as an expansion
/// result: it depends on the document alone.
pub uninterp spec fn expansion_of(value: serde_json::Value) -> Option<ProcMacroResult>;

/// What `serde_json::from_value` makes of a JSON document as the list of
/// defined macros: it depends on the document alone.
pub uninterp spec fn defined_macros_of(value: serde_json::Value) -> Option<DefinedMacrosResponse>;

/// Relies on `serde_json::from_value::<ProcMacroResult>`, failure read as `None`.
#[verifier::external_body]
pub(crate) fn decode_expansion_value(value: serde_json::Value) -> (r: Option<ProcMacroResult>)
    ensures
        r == expansion_of(value),
{
    serde_json::from_value(value).ok()
}

/// Relies on `serde_json::from_value::<DefinedMacrosResponse>`, failure read as `None`.
#[verifier::external_body]
pub(crate) fn decode_defined_macros_value(value: serde_json::Value) -> (r: Option<DefinedMacrosResponse>)
    ensures
        r == defined_macros_of(value),
{
    serde_json::from_value(value).ok()
}

} // verus!
