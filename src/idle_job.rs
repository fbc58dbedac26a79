//! The drain of expander responses into the resolution maps, run when the
//! server is idle.
use vstd::prelude::*;

use std::collections::VecDeque;

use rustc_hash::FxHashMap;
use scarb_proc_macro_server_types::jsonrpc::RpcResponse;
use scarb_proc_macro_server_types::methods::expand::{
    ExpandAttributeParams, ExpandDeriveParams, ExpandInlineMacroParams,
};
use scarb_proc_macro_server_types::methods::ProcMacroResult;

use crate::client::{decode_expansion, decoded_expansion, ExpanderResponse, ProcMacroClient, RequestParams};
use crate::controller::ClientStatus;
use crate::db::ProcMacroInputs;
use crate::fx_map::{fx_get, fx_insert, fx_new, fx_remove, FxKey};
use crate::id_generator::RequestId;

verus! {

/// What a drain did: which resolution maps had an entry changed, and the
/// identifier of a response that answered no tracked request, if one came.
#[derive(Debug, Clone, Copy, PartialEq, Eq, Structural)]
pub struct DrainReport {
    pub attribute_changed: bool,
    pub derive_changed: bool,
    pub inline_changed: bool,
    pub unknown_response: Option<RequestId>,
}

/// A response that answers no request of this client: the protocol is out
/// of step.
#[derive(Debug, Clone, Copy, PartialEq, Eq, Structural)]
pub struct UnknownResponse {
    pub id: RequestId,
}

/// The correlation table, the decoded results gathered for each kind of
/// request in arrival order, and the response of no tracked request, if
/// one came.
pub type DrainState = (
    Map<RequestId, RequestParams>,
    Seq<(ExpandAttributeParams, ProcMacroResult)>,
    Seq<(ExpandDeriveParams, ProcMacroResult)>,
    Seq<(ExpandInlineMacroParams, ProcMacroResult)>,
    Option<RequestId>,
);

/// One response: its request leaves the table, and a decoded payload is
/// gathered under the request's kind. A response of no tracked request
/// stops the drain; later responses then change nothing.
pub open spec fn drain_step(s: DrainState, response: ExpanderResponse<ProcMacroResult>) -> DrainState {
    if s.4 is Some {
        s
    } else if !s.0.contains_key(response.id) {
        (s.0, s.1, s.2, s.3, Some(response.id))
    } else {
        let table = s.0.remove(response.id);
        match response.payload {
            None => (table, s.1, s.2, s.3, s.4),
            Some(result) => match s.0[response.id] {
                RequestParams::Attribute(p) => (table, s.1.push((p, result)), s.2, s.3, s.4),
                RequestParams::Derive(p) => (table, s.1, s.2.push((p, result)), s.3, s.4),
                RequestParams::Inline(p) => (table, s.1, s.2, s.3.push((p, result)), s.4),
            },
        }
    }
}

/// The responses of `responses`, in order.
pub open spec fn drain_all(s: DrainState, responses: Seq<ExpanderResponse<ProcMacroResult>>) -> DrainState
    decreases responses.len(),
{
    if responses.len() == 0 {
        s
    } else {
        drain_all(drain_step(s, responses[0]), responses.drop_first())
    }
}

/// What draining `responses` against the correlation table `table` gathers.
pub open spec fn gathered(
    table: Map<RequestId, RequestParams>,
    responses: Seq<ExpanderResponse<ProcMacroResult>>,
) -> DrainState {
    drain_all((table, seq![], seq![], seq![], None), responses)
}

/// The value that `entries` gives each key last.
pub open spec fn latest_of<K, V>(entries: Seq<(K, V)>) -> Map<K, V>
    decreases entries.len(),
{
    if entries.len() == 0 {
        Map::empty()
    } else {
        latest_of(entries.drop_last()).insert(entries.last().0, entries.last().1)
    }
}

/// `m` with each key of `entries` set to the value that `entries` gives it last.
pub open spec fn apply_entries<K, V>(m: Map<K, V>, entries: Seq<(K, V)>) -> Map<K, V> {
    m.union_prefer_right(latest_of(entries))
}

/// The keys of `latest_of(entries)` are those that some entry has.
proof fn lemma_latest_keys<K, V>(entries: Seq<(K, V)>)
    ensures
        forall|k: K|
            latest_of(entries).contains_key(k) <==> exists|j: int|
                0 <= j < entries.len() && #[trigger] entries[j].0 == k,
    decreases entries.len(),
{
    if entries.len() > 0 {
        let rest = entries.drop_last();
        lemma_latest_keys(rest);
        assert(latest_of(entries) == latest_of(rest).insert(entries.last().0, entries.last().1));
        assert forall|k: K|
            latest_of(entries).contains_key(k) implies exists|j: int|
                0 <= j < entries.len() && #[trigger] entries[j].0 == k by {
            if k != entries.last().0 {
                assert(latest_of(rest).contains_key(k));
                let j = choose|j: int| 0 <= j < rest.len() && #[trigger] rest[j].0 == k;
                assert(entries[j].0 == k);
            } else {
                assert(entries[entries.len() - 1].0 == k);
            }
        }
        assert forall|k: K|
            (exists|j: int| 0 <= j < entries.len() && #[trigger] entries[j].0 == k) implies latest_of(
            entries,
        ).contains_key(k) by {
            let j = choose|j: int| 0 <= j < entries.len() && #[trigger] entries[j].0 == k;
            if j < entries.len() - 1 {
                assert(rest[j].0 == k);
            }
        }
    }
}

/// The keys among the first `i` of `keys`.
pub open spec fn keys_done<K>(keys: Seq<K>, i: int) -> Set<K> {
    Set::new(|k: K| exists|j: int| 0 <= j < i && keys[j] == k)
}

/// Sets each key of `entries` in `map` to the value `entries` gives it
/// last, writing only where that differs from what `map` holds; returns
/// whether `map` changed.
fn set_entries<K: FxKey>(map: &mut FxHashMap<K, ProcMacroResult>, entries: VecDeque<(K, ProcMacroResult)>) -> (changed: bool)
    ensures
        final(map)@ == apply_entries(old(map)@, entries@),
        changed == (final(map)@ != old(map)@),
        !changed ==> *final(map) == *old(map),
{
    let ghost all = entries@;
    let ghost start = *map;
    let mut entries = entries;
    let mut latest: FxHashMap<K, ProcMacroResult> = fx_new();
    let mut keys: Vec<K> = Vec::new();
    while entries.len() > 0
        invariant
            keys@.len() <= all.len(),
            entries@ == all.subrange(keys@.len() as int, all.len() as int),
            latest@ == latest_of(all.subrange(0, keys@.len() as int)),
            forall|j: int| 0 <= j < keys@.len() ==> keys@[j] == all[j].0,
        decreases entries@.len(),
    {
        let ghost n = keys@.len() as int;
        if let Some((k, v)) = entries.pop_front() {
            assert((k, v) == all[n]);
            assert(all.subrange(0, n + 1).drop_last() == all.subrange(0, n));
            keys.push(k.duplicate());
            fx_insert(&mut latest, k, v);
            assert(entries@ == all.subrange(n + 1, all.len() as int));
        }
    }
    assert(all.subrange(0, all.len() as int) == all);
    let ghost table = latest@;
    proof {
        lemma_latest_keys(all);
    }
    let mut changed = false;
    let mut i: usize = 0;
    while i < keys.len()
        invariant
            i <= keys@.len(),
            keys@.len() == all.len(),
            forall|j: int| 0 <= j < keys@.len() ==> keys@[j] == all[j].0,
            table == latest_of(all),
            forall|k: K|
                table.contains_key(k) <==> exists|j: int| 0 <= j < all.len() && #[trigger] all[j].0 == k,
            latest@ == table.remove_keys(keys_done(keys@, i as int)),
            map@ == start@.union_prefer_right(table.restrict(keys_done(keys@, i as int))),
            changed == (map@ != start@),
            !changed ==> *map == start,
        decreases keys@.len() - i,
    {
        let ghost done = keys_done(keys@, i as int);
        let ghost next = keys_done(keys@, i + 1);
        let ghost k = keys@[i as int];
        assert(next =~= done.insert(k));
        assert(all[i as int].0 == k);
        assert(table.contains_key(k));
        let ghost before = map@;
        match fx_remove(&mut latest, &keys[i]) {
            None => {
                assert(done.contains(k));
                assert(next =~= done);
            },
            Some(v) => {
                assert(!done.contains(k));
                assert(v == table[k]);
                assert(latest@ =~= table.remove_keys(next));
                proof {
                    if before.contains_key(k) {
                        assert(start@.contains_key(k) && start@[k] == before[k]);
                    } else {
                        assert(!start@.contains_key(k));
                    }
                }
                let same = match fx_get(map, &keys[i]) {
                    Some(old) => *old == v,
                    None => false,
                };
                if same {
                    assert(map@ =~= start@.union_prefer_right(table.restrict(next)));
                } else {
                    let key = keys[i].duplicate();
                    fx_insert(map, key, v);
                    changed = true;
                    assert(map@ =~= start@.union_prefer_right(table.restrict(next)));
                    assert(map@[k] == v);
                    assert(!start@.contains_key(k) || start@[k] != v);
                    assert(map@ != start@);
                }
            },
        }
        i = i + 1;
    }
    assert(table.restrict(keys_done(keys@, all.len() as int)) =~= table) by {
        assert forall|k: K| table.contains_key(k) implies keys_done(keys@, all.len() as int).contains(
            k,
        ) by {
            let j = choose|j: int| 0 <= j < all.len() && #[trigger] all[j].0 == k;
            assert(keys@[j] == k);
        }
    }
    changed
}

/// Drains `responses`, in arrival order: each answered request leaves the
/// client's table and its decoded result is gathered. If every response
/// answered a tracked request, the results are then set in the three
/// resolution maps; otherwise the drain is abandoned and no map is written.
pub fn drain_responses(
    client: &mut ProcMacroClient,
    attribute_resolutions: &mut FxHashMap<ExpandAttributeParams, ProcMacroResult>,
    derive_resolutions: &mut FxHashMap<ExpandDeriveParams, ProcMacroResult>,
    inline_resolutions: &mut FxHashMap<ExpandInlineMacroParams, ProcMacroResult>,
    responses: VecDeque<ExpanderResponse<ProcMacroResult>>,
) -> (r: DrainReport)
    requires
        old(client).wf(),
    ensures
        final(client).wf(),
        ({
            let g = gathered(old(client).requests(), responses@);
            &&& final(client).requests() == g.0
            &&& final(client).next_id() == old(client).next_id()
            &&& r.unknown_response == g.4
            &&& match g.4 {
                Some(_) => {
                    &&& *final(attribute_resolutions) == *old(attribute_resolutions)
                    &&& *final(derive_resolutions) == *old(derive_resolutions)
                    &&& *final(inline_resolutions) == *old(inline_resolutions)
                    &&& !r.attribute_changed && !r.derive_changed && !r.inline_changed
                },
                None => {
                    &&& final(attribute_resolutions)@ == apply_entries(
                        old(attribute_resolutions)@,
                        g.1,
                    )
                    &&& final(derive_resolutions)@ == apply_entries(old(derive_resolutions)@, g.2)
                    &&& final(inline_resolutions)@ == apply_entries(old(inline_resolutions)@, g.3)
                    &&& r.attribute_changed == (final(attribute_resolutions)@ != old(
                        attribute_resolutions,
                    )@)
                    &&& r.derive_changed == (final(derive_resolutions)@ != old(
                        derive_resolutions,
                    )@)
                    &&& r.inline_changed == (final(inline_resolutions)@ != old(
                        inline_resolutions,
                    )@)
                    &&& !r.attribute_changed ==> *final(attribute_resolutions) == *old(
                        attribute_resolutions,
                    )
                    &&& !r.derive_changed ==> *final(derive_resolutions) == *old(
                        derive_resolutions,
                    )
                    &&& !r.inline_changed ==> *final(inline_resolutions) == *old(
                        inline_resolutions,
                    )
                },
            }
        }),
{
    let mut responses = responses;
    let mut attributes: VecDeque<(ExpandAttributeParams, ProcMacroResult)> = VecDeque::new();
    let mut derives: VecDeque<(ExpandDeriveParams, ProcMacroResult)> = VecDeque::new();
    let mut inlines: VecDeque<(ExpandInlineMacroParams, ProcMacroResult)> = VecDeque::new();
    let mut unknown: Option<RequestId> = None;
    let ghost goal = gathered(client.requests(), responses@);
    let ghost next_id = client.next_id();
    while responses.len() > 0
        invariant
            drain_all((client.requests(), attributes@, derives@, inlines@, unknown), responses@)
                == goal,
            client.next_id() == next_id,
            client.wf(),
        decreases responses@.len(),
    {
        let ghost rest = responses@;
        let ghost before = (client.requests(), attributes@, derives@, inlines@, unknown);
        assert(drain_all(before, rest) == drain_all(drain_step(before, rest[0]), rest.drop_first()));
        if let Some(response) = responses.pop_front() {
            assert(response == rest[0]);
            assert(responses@ == rest.drop_first());
            if unknown.is_none() {
                let ExpanderResponse { id, payload } = response;
                match client.take_request(id) {
                    None => {
                        unknown = Some(id);
                    },
                    Some(params) => {
                        match payload {
                            None => {},
                            Some(result) => {
                                match params {
                                    RequestParams::Attribute(p) => {
                                        attributes.push_back((p, result));
                                    },
                                    RequestParams::Derive(p) => {
                                        derives.push_back((p, result));
                                    },
                                    RequestParams::Inline(p) => {
                                        inlines.push_back((p, result));
                                    },
                                }
                            },
                        }
                    },
                }
            }
            assert((client.requests(), attributes@, derives@, inlines@, unknown) == drain_step(
                before,
                rest[0],
            ));
        }
    }
    assert(responses@.len() == 0);
    match unknown {
        Some(id) => DrainReport {
            attribute_changed: false,
            derive_changed: false,
            inline_changed: false,
            unknown_response: Some(id),
        },
        None => {
            let attribute_changed = set_entries(attribute_resolutions, attributes);
            let derive_changed = set_entries(derive_resolutions, derives);
            let inline_changed = set_entries(inline_resolutions, inlines);
            DrainReport { attribute_changed, derive_changed, inline_changed, unknown_response: None }
        },
    }
}

/// What draining `responses` did to the inputs, from `before` to `after`,
/// with result `r`. When the client is `Ready`, the answered requests
/// leave its table; if every response answered a tracked request, the
/// gathered results are set in the maps, a map without a changed entry is
/// untouched, and `r` tells whether one changed; otherwise no map is
/// written and `r` names the response of no tracked request. When the
/// client is not `Ready`, nothing changes and `r` is `Ok(false)`. The
/// status's phase and the plugins never change.
pub open spec fn drain_applied(
    before: ProcMacroInputs,
    after: ProcMacroInputs,
    responses: Seq<ExpanderResponse<ProcMacroResult>>,
    r: Result<bool, UnknownResponse>,
) -> bool {
    &&& after.proc_macro_client_status.phase() == before.proc_macro_client_status.phase()
    &&& after.macro_plugins == before.macro_plugins
    &&& after.inline_macro_plugins == before.inline_macro_plugins
    &&& match before.proc_macro_client_status {
        ClientStatus::Ready(client) => {
            let g = gathered(client.requests(), responses);
            &&& after.proc_macro_client_status.client().requests() == g.0
            &&& after.proc_macro_client_status.client().next_id() == client.next_id()
            &&& match g.4 {
                Some(id) => {
                    &&& after.attribute_macro_resolution == before.attribute_macro_resolution
                    &&& after.derive_macro_resolution == before.derive_macro_resolution
                    &&& after.inline_macro_resolution == before.inline_macro_resolution
                    &&& r == Err::<bool, UnknownResponse>(UnknownResponse { id })
                },
                None => {
                    let a = apply_entries(before.attribute_macro_resolution@, g.1);
                    let d = apply_entries(before.derive_macro_resolution@, g.2);
                    let i = apply_entries(before.inline_macro_resolution@, g.3);
                    &&& after.attribute_macro_resolution@ == a
                    &&& after.derive_macro_resolution@ == d
                    &&& after.inline_macro_resolution@ == i
                    &&& a == before.attribute_macro_resolution@ ==> after.attribute_macro_resolution
                        == before.attribute_macro_resolution
                    &&& d == before.derive_macro_resolution@ ==> after.derive_macro_resolution
                        == before.derive_macro_resolution
                    &&& i == before.inline_macro_resolution@ ==> after.inline_macro_resolution
                        == before.inline_macro_resolution
                    &&& r == Ok::<bool, UnknownResponse>(
                        a != before.attribute_macro_resolution@ || d
                            != before.derive_macro_resolution@ || i
                            != before.inline_macro_resolution@,
                    )
                },
            }
        },
        _ => after == before && r == Ok::<bool, UnknownResponse>(false),
    }
}

/// Each response of `raw`, in order, with its payload decoded as an
/// expansion result.
pub open spec fn decode_all(raw: Seq<RpcResponse>) -> Seq<ExpanderResponse<ProcMacroResult>> {
    Seq::new(raw.len(), |i: int| decoded_expansion(raw[i]))
}

/// Decodes the payload of each response as an expansion result, keeping
/// the order.
pub fn decode_responses(raw: VecDeque<RpcResponse>) -> (r: VecDeque<ExpanderResponse<ProcMacroResult>>)
    ensures
        r@ == decode_all(raw@),
{
    let ghost all = raw@;
    let mut raw = raw;
    let mut decoded: VecDeque<ExpanderResponse<ProcMacroResult>> = VecDeque::new();
    while raw.len() > 0
        invariant
            decoded@.len() + raw@.len() == all.len(),
            raw@ == all.subrange(decoded@.len() as int, all.len() as int),
            forall|i: int| 0 <= i < decoded@.len() ==> #[trigger] decoded@[i] == decoded_expansion(all[i]),
        decreases raw@.len(),
    {
        if let Some(response) = raw.pop_front() {
            assert(response == all[decoded@.len() as int]);
            decoded.push_back(decode_expansion(response));
            assert(raw@ == all.subrange(decoded@.len() as int, all.len() as int));
        }
    }
    assert(decoded@ == decode_all(all));
    decoded
}

/// Decodes the responses that have arrived and drains them into the
/// resolution maps, as `apply_decoded_responses` does.
pub fn apply_proc_macro_server_responses(
    db: &mut ProcMacroInputs,
    responses: VecDeque<RpcResponse>,
) -> (r: Result<bool, UnknownResponse>)
    requires
        old(db).wf(),
    ensures
        final(db).wf(),
        drain_applied(*old(db), *final(db), decode_all(responses@), r),
{
    let decoded = decode_responses(responses);
    apply_decoded_responses(db, decoded)
}

/// Drains the responses that have arrived into the resolution maps, when
/// the client is `Ready`; otherwise does nothing. Only maps where an entry
/// changed are written. Returns whether one was, or the identifier of a
/// response that answers no tracked request, in which case no map is
/// written.
pub fn apply_decoded_responses(
    db: &mut ProcMacroInputs,
    responses: VecDeque<ExpanderResponse<ProcMacroResult>>,
) -> (r: Result<bool, UnknownResponse>)
    requires
        old(db).wf(),
    ensures
        final(db).wf(),
        drain_applied(*old(db), *final(db), responses@, r),
{
    match &mut db.proc_macro_client_status {
        ClientStatus::Ready(client) => {
            let report = drain_responses(
                client,
                &mut db.attribute_macro_resolution,
                &mut db.derive_macro_resolution,
                &mut db.inline_macro_resolution,
                responses,
            );
            match report.unknown_response {
                Some(id) => Err(UnknownResponse { id }),
                None => Ok(report.attribute_changed || report.derive_changed || report.inline_changed),
            }
        },
        _ => Ok(false),
    }
}

/// Draining no response changes nothing: the table stays, nothing is
/// gathered, and setting no entry leaves each map as it was, unchanged.
pub proof fn lemma_drain_nothing<K, V>(table: Map<RequestId, RequestParams>, m: Map<K, V>)
    ensures
        gathered(table, Seq::<ExpanderResponse<ProcMacroResult>>::empty()) == (
            table,
            Seq::<(ExpandAttributeParams, ProcMacroResult)>::empty(),
            Seq::<(ExpandDeriveParams, ProcMacroResult)>::empty(),
            Seq::<(ExpandInlineMacroParams, ProcMacroResult)>::empty(),
            None::<RequestId>,
        ),
        apply_entries(m, Seq::<(K, V)>::empty()) == m,
{
    assert(m.union_prefer_right(Map::<K, V>::empty()) =~= m);
}

} // verus!
