//! The expander client: request identifiers and the table that correlates
//! each in-flight request with what it asked for.
use vstd::prelude::*;

use rustc_hash::FxHashMap;
use scarb_proc_macro_server_types::jsonrpc::RpcResponse;
use scarb_proc_macro_server_types::methods::defined_macros::DefinedMacrosResponse;
use scarb_proc_macro_server_types::methods::expand::{
    ExpandAttributeParams, ExpandDeriveParams, ExpandInlineMacroParams,
};
use scarb_proc_macro_server_types::methods::ProcMacroResult;

use crate::controller::{ClientStatusChange, ProcMacroClientStatusChange};
use crate::fx_map::{fx_insert, fx_new, fx_remove};
use crate::id_generator::{IdGenerator, RequestId};
use crate::protocol::{
    decode_defined_macros_value, decode_expansion_value, defined_macros_of, expansion_of, payload_of,
};

verus! {

/// What an in-flight request asked for; decides which resolution map its
/// response goes to.
pub enum RequestParams {
    Attribute(ExpandAttributeParams),
    Derive(ExpandDeriveParams),
    Inline(ExpandInlineMacroParams),
}

/// The identifier that bootstrap must be sent with: the first one issued.
pub const BOOTSTRAP_REQUEST_ID: u64 = 0;

/// Why bootstrap did not produce the expander's macro definitions.
#[derive(Debug, Clone, Copy, PartialEq, Eq, Structural)]
pub enum BootstrapError {
    /// Another request was sent before bootstrap: it did not get the first identifier.
    NotFirstRequest,
    /// The transport did not take the request, or no identifier was left.
    SendFailed,
    /// No response came back.
    ReceiveFailed,
    /// The response answers another request than bootstrap.
    ResponseMismatch,
    /// The response's payload was not a list of defined macros.
    MalformedResponse,
}

/// Bookkeeping of a connection to the expander: the identifier generator
/// and the correlation table from in-flight request identifiers to what
/// each asked for.
pub struct ProcMacroClient {
    id_generator: IdGenerator,
    requests_params: FxHashMap<RequestId, RequestParams>,
}

impl ProcMacroClient {
    /// Every request in the table got its identifier before the next one,
    /// so a fresh identifier is never in flight already.
    pub closed spec fn wf(&self) -> bool {
        forall|id: RequestId| #[trigger] self.requests().contains_key(id) ==> id < self.next_id()
    }

    /// The correlation table.
    pub closed spec fn requests(&self) -> Map<RequestId, RequestParams> {
        self.requests_params@
    }

    /// The identifier that the next request gets.
    pub closed spec fn next_id(&self) -> nat {
        self.id_generator.next_id()
    }

    /// A client on a fresh connection: no request sent yet.
    pub fn new() -> (r: Self)
        ensures
            r.wf(),
            r.requests() == Map::<RequestId, RequestParams>::empty(),
            r.next_id() == 0,
    {
        ProcMacroClient { id_generator: IdGenerator::new(), requests_params: fx_new() }
    }

    /// Whether some sent request has not been answered yet.
    pub fn has_pending_requests(&self) -> (r: bool)
        ensures
            r == !self.requests().is_empty(),
    {
        !self.requests_params.is_empty()
    }

    /// Takes the entry of request `id` out of the correlation table.
    pub fn take_request(&mut self, id: RequestId) -> (r: Option<RequestParams>)
        requires
            old(self).wf(),
        ensures
            final(self).wf(),
            final(self).next_id() == old(self).next_id(),
            final(self).requests() == old(self).requests().remove(id),
            r == if old(self).requests().contains_key(id) {
                Some(old(self).requests()[id])
            } else {
                None::<RequestParams>
            },
    {
        let ghost before = *self;
        let r = fx_remove(&mut self.requests_params, &id);
        assert forall|k: RequestId| #[trigger] self.requests().contains_key(k) implies k
            < self.next_id() by {
            assert(before.requests().contains_key(k));
        }
        r
    }

    /// Records the outcome of sending request `id`: a sent request enters
    /// the correlation table; a failed send asks for a restart of the
    /// whole client through the status mailbox.
    fn track_sent(
        &mut self,
        id: RequestId,
        params: RequestParams,
        sent: bool,
        status_change: &mut ProcMacroClientStatusChange,
    )
        requires
            old(self).wf(),
            id < old(self).next_id(),
        ensures
            final(self).wf(),
            final(self).next_id() == old(self).next_id(),
            sent ==> final(self).requests() == old(self).requests().insert(id, params)
                && *final(status_change) == *old(status_change),
            !sent ==> final(self).requests() == old(self).requests()
                && final(status_change).pending() == Some(ClientStatusChange::Failed),
    {
        let ghost before = *self;
        if sent {
            fx_insert(&mut self.requests_params, id, params);
            assert forall|k: RequestId| #[trigger] self.requests().contains_key(k) implies k
                < self.next_id() by {
                if k != id {
                    assert(before.requests().contains_key(k));
                }
            }
        } else {
            status_change.update(ClientStatusChange::Failed);
        }
    }

    /// What sending `params` leaves behind, where the transport took the
    /// request exactly when `sent`: with an identifier left, the next one
    /// is used, which no request in flight has, and a sent request is in the table under it with the
    /// mailbox untouched, while a request that was not sent leaves the
    /// table as it was and the mailbox holding `Failed`; with no
    /// identifier left, nothing is sent.
    pub open spec fn request_outcome(
        before: ProcMacroClient,
        after: ProcMacroClient,
        mailbox_before: ProcMacroClientStatusChange,
        mailbox_after: ProcMacroClientStatusChange,
        params: RequestParams,
        sent: bool,
    ) -> bool {
        let failed = after.requests() == before.requests() && mailbox_after.pending() == Some(
            ClientStatusChange::Failed,
        );
        if before.next_id() < u64::MAX {
            &&& !before.requests().contains_key(before.next_id() as RequestId)
            &&& after.next_id() == before.next_id() + 1
            &&& sent ==> after.requests() == before.requests().insert(
                before.next_id() as RequestId,
                params,
            ) && mailbox_after == mailbox_before
            &&& !sent ==> failed
        } else {
            after.next_id() == before.next_id() && failed
        }
    }

    /// Whether `send`, asked to send `params` under the next identifier,
    /// may have answered `sent`; with no identifier left it is not asked,
    /// which counts as not sent.
    pub open spec fn send_answer<F: FnOnce(RequestId, &RequestParams) -> bool>(
        before: ProcMacroClient,
        send: F,
        params: RequestParams,
        sent: bool,
    ) -> bool {
        if before.next_id() < u64::MAX {
            send.ensures((before.next_id() as RequestId, &params), sent)
        } else {
            !sent
        }
    }

    /// Sends a request through `send`, which hands it to the transport and
    /// says whether that took it, and tracks it.
    fn send_request_tracked<F: FnOnce(RequestId, &RequestParams) -> bool>(
        &mut self,
        params: RequestParams,
        send: F,
        status_change: &mut ProcMacroClientStatusChange,
    )
        requires
            old(self).wf(),
            forall|id: RequestId, p: &RequestParams| send.requires((id, p)),
        ensures
            final(self).wf(),
            exists|sent: bool|
                Self::send_answer(*old(self), send, params, sent) && Self::request_outcome(
                    *old(self),
                    *final(self),
                    *old(status_change),
                    *final(status_change),
                    params,
                    sent,
                ),
    {
        let ghost before = *self;
        match self.id_generator.unique_id() {
            Some(id) => {
                assert forall|k: RequestId| #[trigger] self.requests().contains_key(k) implies k
                    < self.next_id() by {
                    assert(before.requests().contains_key(k));
                }
                assert(!before.requests().contains_key(id));
                let sent = send(id, &params);
                self.track_sent(id, params, sent, status_change);
                assert(Self::send_answer(before, send, params, sent));
            },
            None => {
                status_change.update(ClientStatusChange::Failed);
                assert forall|k: RequestId| #[trigger] self.requests().contains_key(k) implies k
                    < self.next_id() by {
                    assert(before.requests().contains_key(k));
                }
                assert(Self::send_answer(before, send, params, false));
            },
        }
    }

    /// Asks for the expansion of an attribute macro, without waiting for the answer.
    pub fn request_attribute<F: FnOnce(RequestId, &RequestParams) -> bool>(
        &mut self,
        params: ExpandAttributeParams,
        send: F,
        status_change: &mut ProcMacroClientStatusChange,
    )
        requires
            old(self).wf(),
            forall|id: RequestId, p: &RequestParams| send.requires((id, p)),
        ensures
            final(self).wf(),
            exists|sent: bool|
                Self::send_answer(*old(self), send, RequestParams::Attribute(params), sent)
                    && Self::request_outcome(
                    *old(self),
                    *final(self),
                    *old(status_change),
                    *final(status_change),
                    RequestParams::Attribute(params),
                    sent,
                ),
    {
        self.send_request_tracked(RequestParams::Attribute(params), send, status_change)
    }

    /// Asks for the expansion of derive macros, without waiting for the answer.
    pub fn request_derives<F: FnOnce(RequestId, &RequestParams) -> bool>(
        &mut self,
        params: ExpandDeriveParams,
        send: F,
        status_change: &mut ProcMacroClientStatusChange,
    )
        requires
            old(self).wf(),
            forall|id: RequestId, p: &RequestParams| send.requires((id, p)),
        ensures
            final(self).wf(),
            exists|sent: bool|
                Self::send_answer(*old(self), send, RequestParams::Derive(params), sent)
                    && Self::request_outcome(
                    *old(self),
                    *final(self),
                    *old(status_change),
                    *final(status_change),
                    RequestParams::Derive(params),
                    sent,
                ),
    {
        self.send_request_tracked(RequestParams::Derive(params), send, status_change)
    }

    /// Asks for the expansion of an inline macro, without waiting for the answer.
    pub fn request_inline_macros<F: FnOnce(RequestId, &RequestParams) -> bool>(
        &mut self,
        params: ExpandInlineMacroParams,
        send: F,
        status_change: &mut ProcMacroClientStatusChange,
    )
        requires
            old(self).wf(),
            forall|id: RequestId, p: &RequestParams| send.requires((id, p)),
        ensures
            final(self).wf(),
            exists|sent: bool|
                Self::send_answer(*old(self), send, RequestParams::Inline(params), sent)
                    && Self::request_outcome(
                    *old(self),
                    *final(self),
                    *old(status_change),
                    *final(status_change),
                    RequestParams::Inline(params),
                    sent,
                ),
    {
        self.send_request_tracked(RequestParams::Inline(params), send, status_change)
    }

    /// Bootstrap: sends the request for the defined macros through `send`,
    /// then waits for its answer through `receive`. It must be the first
    /// request of the connection and the answer must carry its identifier.
    pub fn fetch_defined_macros<
        S: FnOnce(RequestId) -> bool,
        R: FnOnce() -> Option<RpcResponse>,
    >(&mut self, send: S, receive: R) -> (r: Result<DefinedMacrosResponse, BootstrapError>)
        requires
            old(self).wf(),
            forall|id: RequestId| send.requires((id,)),
            receive.requires(()),
        ensures
            final(self).wf(),
            final(self).requests() == old(self).requests(),
            old(self).next_id() != BOOTSTRAP_REQUEST_ID ==> r == Err::<DefinedMacrosResponse, BootstrapError>(
                BootstrapError::NotFirstRequest,
            ) && final(self).next_id() == old(self).next_id(),
            old(self).next_id() == BOOTSTRAP_REQUEST_ID ==> final(self).next_id() == 1 && ((
            send.ensures((BOOTSTRAP_REQUEST_ID,), false) && r == Err::<DefinedMacrosResponse, BootstrapError>(
                BootstrapError::SendFailed,
            )) || (send.ensures((BOOTSTRAP_REQUEST_ID,), true) && exists|
                response: Option<RpcResponse>,
            |
                receive.ensures((), response) && r == bootstrap_result(
                    BOOTSTRAP_REQUEST_ID,
                    decoded_option(response),
                ))),
    {
        if self.id_generator.next_id_exec() != BOOTSTRAP_REQUEST_ID {
            return Err(BootstrapError::NotFirstRequest);
        }
        let ghost before = *self;
        let id = match self.id_generator.unique_id() {
            Some(id) => id,
            None => {
                return Err(BootstrapError::SendFailed);
            },
        };
        assert forall|k: RequestId| #[trigger] self.requests().contains_key(k) implies k
            < self.next_id() by {
            assert(before.requests().contains_key(k));
        }
        if !send(id) {
            return Err(BootstrapError::SendFailed);
        }
        let response = receive();
        let ghost received = response;
        let decoded = match response {
            Some(response) => Some(decode_defined_macros(response)),
            None => None,
        };
        let r = check_defined_macros_response(id, decoded);
        assert(receive.ensures((), received) && decoded == decoded_option(received));
        r
    }
}

/// A response of the expander: the identifier of the request it answers,
/// and its payload, or `None` where the payload could not be decoded.
pub struct ExpanderResponse<T> {
    pub id: RequestId,
    pub payload: Option<T>,
}

/// `response` with its payload decoded as an expansion result: `None`
/// where it carries no payload or the payload does not decode.
pub open spec fn decoded_expansion(response: RpcResponse) -> ExpanderResponse<ProcMacroResult> {
    ExpanderResponse {
        id: response.id,
        payload: match payload_of(response) {
            Some(v) => expansion_of(v),
            None => None,
        },
    }
}

/// `response` with its payload decoded as the expander's defined macros.
pub open spec fn decoded_defined_macros(response: RpcResponse) -> ExpanderResponse<
    DefinedMacrosResponse,
> {
    ExpanderResponse {
        id: response.id,
        payload: match payload_of(response) {
            Some(v) => defined_macros_of(v),
            None => None,
        },
    }
}

/// A bootstrap response, if one came, with its payload decoded.
pub open spec fn decoded_option(response: Option<RpcResponse>) -> Option<
    ExpanderResponse<DefinedMacrosResponse>,
> {
    match response {
        Some(response) => Some(decoded_defined_macros(response)),
        None => None,
    }
}

/// `response` with its payload decoded as an expansion result.
pub fn decode_expansion(response: RpcResponse) -> (r: ExpanderResponse<ProcMacroResult>)
    ensures
        r == decoded_expansion(response),
{
    let id = response.id;
    let payload = match response.into_result() {
        Ok(value) => decode_expansion_value(value),
        Err(_) => None,
    };
    ExpanderResponse { id, payload }
}

/// `response` with its payload decoded as the expander's defined macros.
pub fn decode_defined_macros(response: RpcResponse) -> (r: ExpanderResponse<DefinedMacrosResponse>)
    ensures
        r == decoded_defined_macros(response),
{
    let id = response.id;
    let payload = match response.into_result() {
        Ok(value) => decode_defined_macros_value(value),
        Err(_) => None,
    };
    ExpanderResponse { id, payload }
}

/// The outcome of bootstrap when `response` came back for the request
/// sent as `sent_id`: nothing, an answer to another request, an answer
/// whose payload could not be decoded, or the defined macros.
pub open spec fn bootstrap_result(
    sent_id: RequestId,
    response: Option<ExpanderResponse<DefinedMacrosResponse>>,
) -> Result<DefinedMacrosResponse, BootstrapError> {
    match response {
        None => Err(BootstrapError::ReceiveFailed),
        Some(resp) => if resp.id != sent_id {
            Err(BootstrapError::ResponseMismatch)
        } else {
            match resp.payload {
                Some(m) => Ok(m),
                None => Err(BootstrapError::MalformedResponse),
            }
        },
    }
}

/// Judges what came back for the bootstrap request `sent_id`.
pub fn check_defined_macros_response(
    sent_id: RequestId,
    response: Option<ExpanderResponse<DefinedMacrosResponse>>,
) -> (r: Result<DefinedMacrosResponse, BootstrapError>)
    ensures
        r == bootstrap_result(sent_id, response),
{
    match response {
        None => Err(BootstrapError::ReceiveFailed),
        Some(resp) => {
            if resp.id != sent_id {
                Err(BootstrapError::ResponseMismatch)
            } else {
                match resp.payload {
                    Some(m) => Ok(m),
                    None => Err(BootstrapError::MalformedResponse),
                }
            }
        },
    }
}

/// One bootstrap attempt of a fresh client, as the event it posts: `Ready`
/// with the defined macros and the client, or `Failed`.
pub fn bootstrap<
    S: FnOnce(RequestId) -> bool,
    R: FnOnce() -> Option<RpcResponse>,
>(client: ProcMacroClient, send: S, receive: R) -> (r: ClientStatusChange)
    requires
        client.wf(),
        forall|id: RequestId| send.requires((id,)),
        receive.requires(()),
    ensures
        r.wf(),
        client.next_id() != BOOTSTRAP_REQUEST_ID ==> r is Failed,
        match r {
            ClientStatusChange::Ready(defined_macros, ready) => {
                &&& ready.requests() == client.requests()
                &&& ready.next_id() == 1
                &&& send.ensures((BOOTSTRAP_REQUEST_ID,), true)
                &&& exists|response: Option<RpcResponse>|
                    receive.ensures((), response) && bootstrap_result(
                        BOOTSTRAP_REQUEST_ID,
                        decoded_option(response),
                    ) == Ok::<DefinedMacrosResponse, BootstrapError>(defined_macros)
            },
            ClientStatusChange::Failed => {
                ||| client.next_id() != BOOTSTRAP_REQUEST_ID
                ||| send.ensures((BOOTSTRAP_REQUEST_ID,), false)
                ||| exists|response: Option<RpcResponse>|
                    receive.ensures((), response) && bootstrap_result(
                        BOOTSTRAP_REQUEST_ID,
                        decoded_option(response),
                    ) is Err
            },
            ClientStatusChange::FatalFailed => false,
        },
{
    let mut client = client;
    match client.fetch_defined_macros(send, receive) {
        Ok(defined_macros) => ClientStatusChange::Ready(defined_macros, client),
        Err(_) => ClientStatusChange::Failed,
    }
}

} // verus!
