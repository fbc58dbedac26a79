//! Lifecycle of the expander client: its externally visible status, the
//! mailbox that brings status changes to the control thread, and the
//! controller with its bounded retries.
use vstd::prelude::*;

use std::collections::VecDeque;

use scarb_proc_macro_server_types::jsonrpc::RpcResponse;
use scarb_proc_macro_server_types::methods::defined_macros::DefinedMacrosResponse;

use crate::client::ProcMacroClient;
use crate::db::{plugins_merged, ProcMacroInputs};
use crate::idle_job::{apply_proc_macro_server_responses, decode_all, drain_applied, UnknownResponse};
use crate::plugins::{plugin_of, proc_macro_plugin_suite};

verus! {

/// An event of the client's lifecycle, posted once per bootstrap attempt.
pub enum ClientStatusChange {
    /// Bootstrap succeeded: the expander's macros and the client to reach it.
    Ready(DefinedMacrosResponse, ProcMacroClient),
    /// A failure that a restart may cure.
    Failed,
    /// A failure that a restart would not cure.
    FatalFailed,
}

/// Single-slot mailbox of lifecycle events: a write replaces an unread
/// event, a read takes the event out.
pub struct ProcMacroClientStatusChange {
    slot: Option<ClientStatusChange>,
}

impl ClientStatusChange {
    /// A `Ready` event carries a well-formed client.
    pub open spec fn wf(&self) -> bool {
        match self {
            ClientStatusChange::Ready(_, client) => client.wf(),
            _ => true,
        }
    }
}

impl ProcMacroClientStatusChange {
    /// The waiting event, if any, is well formed.
    pub open spec fn wf(&self) -> bool {
        match self.pending() {
            Some(change) => change.wf(),
            None => true,
        }
    }

    /// The event waiting to be read, if any.
    pub closed spec fn pending(&self) -> Option<ClientStatusChange> {
        self.slot
    }

    /// An empty mailbox.
    pub fn new() -> (r: Self)
        ensures
            r.wf(),
            r.pending().is_none(),
    {
        ProcMacroClientStatusChange { slot: None }
    }

    /// Posts `change`, discarding an event that was not read.
    pub fn update(&mut self, change: ClientStatusChange)
        requires
            change.wf(),
        ensures
            final(self).wf(),
            final(self).pending() == Some(change),
    {
        self.slot = Some(change);
    }

    /// Takes the waiting event out, leaving the mailbox empty.
    pub fn changed(&mut self) -> (r: Option<ClientStatusChange>)
        requires
            old(self).wf(),
        ensures
            final(self).wf(),
            match r {
                Some(change) => change.wf(),
                None => true,
            },
            r == old(self).pending(),
            final(self).pending().is_none(),
    {
        self.slot.take()
    }
}

/// The client's status as the analysis database shows it.
pub enum ClientStatus {
    /// Expansion has not been started, or is turned off.
    Disabled,
    /// A bootstrap attempt is under way, or a retry is.
    Initializing,
    /// The client is up.
    Ready(ProcMacroClient),
    /// The retries are spent or a fatal failure came: nothing more is tried.
    InitializingFailed,
}

/// The lifecycle stage of a status, without the client.
#[derive(Debug, Clone, Copy, PartialEq, Eq, Structural)]
pub enum Phase {
    Disabled,
    Initializing,
    Ready,
    InitializingFailed,
}

/// The kind of a lifecycle event, without its payload.
#[derive(Debug, Clone, Copy, PartialEq, Eq, Structural)]
pub enum ChangeKind {
    Ready,
    Failed,
    FatalFailed,
}

impl ClientStatus {
    /// The stage of the status.
    pub open spec fn phase(&self) -> Phase {
        match self {
            ClientStatus::Disabled => Phase::Disabled,
            ClientStatus::Initializing => Phase::Initializing,
            ClientStatus::Ready(_) => Phase::Ready,
            ClientStatus::InitializingFailed => Phase::InitializingFailed,
        }
    }

    /// The client of a `Ready` status.
    pub open spec fn client(&self) -> ProcMacroClient
        recommends
            self is Ready,
    {
        match self {
            ClientStatus::Ready(client) => *client,
            _ => arbitrary(),
        }
    }

    /// The client, when the status is `Ready`.
    pub fn ready(&self) -> (r: Option<&ProcMacroClient>)
        ensures
            r == match self {
                ClientStatus::Ready(client) => Some(client),
                _ => None,
            },
    {
        match self {
            ClientStatus::Ready(client) => Some(client),
            _ => None,
        }
    }

    /// Whether the status is `Disabled`.
    pub fn is_disabled(&self) -> (r: bool)
        ensures
            r == (self.phase() == Phase::Disabled),
    {
        match self {
            ClientStatus::Disabled => true,
            _ => false,
        }
    }
}

impl ClientStatusChange {
    /// The kind of the event.
    pub open spec fn kind(&self) -> ChangeKind {
        match self {
            ClientStatusChange::Ready(..) => ChangeKind::Ready,
            ClientStatusChange::Failed => ChangeKind::Failed,
            ClientStatusChange::FatalFailed => ChangeKind::FatalFailed,
        }
    }
}

/// How many recoverable failures the controller absorbs: the one that
/// brings the count of retries left to zero ends the attempts.
pub const RETRY_BUDGET: u8 = 3;

/// The transition of the lifecycle on one event, from `retries_left` and
/// `phase`: the retries left after it, the phase after it, and whether a
/// new bootstrap attempt is to be started (the phase then stays until that
/// attempt's process is up). Every recoverable failure spends a retry;
/// `InitializingFailed` is final.
pub open spec fn step(retries_left: nat, phase: Phase, change: ChangeKind) -> (nat, Phase, bool) {
    if phase == Phase::InitializingFailed {
        match change {
            ChangeKind::Failed => (
                if retries_left == 0 {
                    0
                } else {
                    (retries_left - 1) as nat
                },
                Phase::InitializingFailed,
                false,
            ),
            _ => (retries_left, Phase::InitializingFailed, false),
        }
    } else {
        match change {
            ChangeKind::FatalFailed => (retries_left, Phase::InitializingFailed, false),
            ChangeKind::Ready => (retries_left, Phase::Ready, false),
            ChangeKind::Failed => if retries_left <= 1 {
                (0, Phase::InitializingFailed, false)
            } else {
                ((retries_left - 1) as nat, phase, true)
            },
        }
    }
}

/// What starting the expander's process leaves behind: when it started,
/// the status is `Initializing` and the mailbox untouched; when it did
/// not, the inputs are untouched and the mailbox holds `FatalFailed`.
pub open spec fn spawn_outcome(
    spawned: bool,
    db_before: ProcMacroInputs,
    db_after: ProcMacroInputs,
    mailbox_before: ProcMacroClientStatusChange,
    mailbox_after: ProcMacroClientStatusChange,
) -> bool {
    if spawned {
        db_after == db_before.with_status(ClientStatus::Initializing) && mailbox_after
            == mailbox_before
    } else {
        db_after == db_before && mailbox_after.pending() == Some(ClientStatusChange::FatalFailed)
    }
}

/// Drives the client's lifecycle: starts bootstrap attempts, reacts to
/// their outcome, and retries a bounded number of times.
pub struct ProcMacroClientController {
    retries_left: u8,
}

impl ProcMacroClientController {
    /// How many recoverable failures may still be followed by a retry,
    /// counting the one that ends the attempts.
    pub closed spec fn retries_left(&self) -> nat {
        self.retries_left as nat
    }

    /// A controller with the whole retry budget.
    pub fn new() -> (r: Self)
        ensures
            r.retries_left() == RETRY_BUDGET,
    {
        ProcMacroClientController { retries_left: RETRY_BUDGET }
    }

    /// Spends one retry; says whether any is left.
    fn should_initialize(&mut self) -> (r: bool)
        ensures
            final(self).retries_left() == if old(self).retries_left() == 0 {
                0
            } else {
                (old(self).retries_left() - 1) as nat
            },
            r == (final(self).retries_left() != 0),
    {
        if self.retries_left > 0 {
            self.retries_left = self.retries_left - 1;
        }
        self.retries_left != 0
    }

    /// Records whether the expander's process could be started for a
    /// bootstrap attempt.
    pub fn on_spawned(
        &self,
        db: &mut ProcMacroInputs,
        status_change: &mut ProcMacroClientStatusChange,
        spawned: bool,
    )
        ensures
            spawn_outcome(spawned, *old(db), *final(db), *old(status_change), *final(status_change)),
    {
        if spawned {
            db.proc_macro_client_status = ClientStatus::Initializing;
        } else {
            status_change.update(ClientStatusChange::FatalFailed);
        }
    }

    /// Starts a bootstrap attempt unless expansion is turned off: `spawn`
    /// starts the expander's process and its bootstrap, and says whether
    /// the process started. Returns whether an attempt was made.
    pub fn initialize<S: FnOnce() -> bool>(
        &mut self,
        db: &mut ProcMacroInputs,
        disable_proc_macros: bool,
        status_change: &mut ProcMacroClientStatusChange,
        spawn: S,
    ) -> (attempted: bool)
        requires
            spawn.requires(()),
        ensures
            attempted == !disable_proc_macros,
            final(self).retries_left() == old(self).retries_left(),
            !attempted ==> *final(db) == *old(db) && *final(status_change) == *old(status_change),
            attempted ==> exists|spawned: bool|
                spawn.ensures((), spawned) && spawn_outcome(
                    spawned,
                    *old(db),
                    *final(db),
                    *old(status_change),
                    *final(status_change),
                ),
    {
        if disable_proc_macros {
            return false;
        }
        let spawned = spawn();
        self.on_spawned(db, status_change, spawned);
        true
    }

    /// Starts a bootstrap attempt if the status is `Disabled`, as after a
    /// configuration reload or a database swap.
    pub fn initialize_if_enabled_now<S: FnOnce() -> bool>(
        &mut self,
        db: &mut ProcMacroInputs,
        disable_proc_macros: bool,
        status_change: &mut ProcMacroClientStatusChange,
        spawn: S,
    ) -> (attempted: bool)
        requires
            spawn.requires(()),
        ensures
            attempted == (old(db).proc_macro_client_status.phase() == Phase::Disabled
                && !disable_proc_macros),
            final(self).retries_left() == old(self).retries_left(),
            !attempted ==> *final(db) == *old(db) && *final(status_change) == *old(status_change),
            attempted ==> exists|spawned: bool|
                spawn.ensures((), spawned) && spawn_outcome(
                    spawned,
                    *old(db),
                    *final(db),
                    *old(status_change),
                    *final(status_change),
                ),
    {
        if db.proc_macro_client_status.is_disabled() {
            self.initialize(db, disable_proc_macros, status_change, spawn)
        } else {
            false
        }
    }

    /// Applies one lifecycle event to the inputs; returns whether a new
    /// bootstrap attempt is to be started. A `Ready` event registers the
    /// expander's plugins beside those already there.
    pub fn update_state(&mut self, db: &mut ProcMacroInputs, status: ClientStatusChange) -> (retry:
        bool)
        requires
            old(db).wf(),
            status.wf(),
        ensures
            ({
                let t = step(
                    old(self).retries_left(),
                    old(db).proc_macro_client_status.phase(),
                    status.kind(),
                );
                &&& final(self).retries_left() == t.0
                &&& retry == t.2
                &&& final(db).proc_macro_client_status.phase() == t.1
            }),
            final(db).wf(),
            final(db).attribute_macro_resolution == old(db).attribute_macro_resolution,
            final(db).derive_macro_resolution == old(db).derive_macro_resolution,
            final(db).inline_macro_resolution == old(db).inline_macro_resolution,
            match status {
                ClientStatusChange::Ready(defined_macros, client) => if old(
                    db,
                ).proc_macro_client_status.phase() != Phase::InitializingFailed {
                    &&& final(db).proc_macro_client_status == ClientStatus::Ready(client)
                    &&& plugins_merged(
                        *old(db),
                        *final(db),
                        seq![plugin_of(defined_macros)],
                        defined_macros.inline_macros@,
                    )
                } else {
                    *final(db) == *old(db)
                },
                _ => if retry {
                    *final(db) == *old(db)
                } else {
                    *final(db) == old(db).with_status(ClientStatus::InitializingFailed)
                },
            },
    {
        if let ClientStatus::InitializingFailed = db.proc_macro_client_status {
            if let ClientStatusChange::Failed = status {
                self.should_initialize();
            }
            return false;
        }
        match status {
            ClientStatusChange::Failed => {
                if self.should_initialize() {
                    true
                } else {
                    db.proc_macro_client_status = ClientStatus::InitializingFailed;
                    false
                }
            },
            ClientStatusChange::FatalFailed => {
                db.proc_macro_client_status = ClientStatus::InitializingFailed;
                false
            },
            ClientStatusChange::Ready(defined_macros, client) => {
                let suite = proc_macro_plugin_suite(defined_macros);
                db.merge_plugin_suite(suite);
                db.proc_macro_client_status = ClientStatus::Ready(client);
                false
            },
        }
    }

    /// One round of the control thread: reads the mailbox once and applies
    /// its event, starting a new attempt through `spawn` where a retry is
    /// due, then drains the responses that `responses` collects. Returns
    /// whether the inputs changed, by the event or by the drain, or the
    /// drain's protocol error.
    pub fn maybe_update_state<
        S: FnOnce() -> bool,
        R: FnOnce() -> VecDeque<RpcResponse>,
    >(
        &mut self,
        db: &mut ProcMacroInputs,
        status_change: &mut ProcMacroClientStatusChange,
        disable_proc_macros: bool,
        spawn: S,
        responses: R,
    ) -> (r: Result<bool, UnknownResponse>)
        requires
            old(db).wf(),
            old(status_change).wf(),
            spawn.requires(()),
            responses.requires(()),
        ensures
            final(db).wf(),
            final(status_change).wf(),
            exists|
                mid: ProcMacroInputs,
                collected: VecDeque<RpcResponse>,
                drained: Result<bool, UnknownResponse>,
            |
                {
                    &&& event_applied(
                        *old(self),
                        *final(self),
                        *old(db),
                        mid,
                        *old(status_change),
                        *final(status_change),
                        disable_proc_macros,
                        spawn,
                    )
                    &&& responses.ensures((), collected)
                    &&& drain_applied(mid, *final(db), decode_all(collected@), drained)
                    &&& r == match drained {
                        Ok(changed) => Ok(changed || mid != *old(db)),
                        Err(e) => Err(e),
                    }
                },
            exists|spawned: bool|
                {
                    &&& round(
                        old(self).retries_left(),
                        old(db).proc_macro_client_status.phase(),
                        event_kind(*old(status_change)),
                        disable_proc_macros,
                        spawned,
                        final(self).retries_left(),
                        final(db).proc_macro_client_status.phase(),
                    )
                    &&& starts_attempt(
                        old(self).retries_left(),
                        old(db).proc_macro_client_status.phase(),
                        event_kind(*old(status_change)),
                        disable_proc_macros,
                    ) ==> spawn.ensures((), spawned)
                },
    {
        let ghost controller_before = *self;
        let ghost db_before = *db;
        let ghost mailbox_before = *status_change;
        let was_initializing = match db.proc_macro_client_status {
            ClientStatus::Initializing => true,
            _ => false,
        };
        let was_failed = match db.proc_macro_client_status {
            ClientStatus::InitializingFailed => true,
            _ => false,
        };
        let mut event_changed = false;
        let ghost mut spawned: bool = true;
        if let Some(status) = status_change.changed() {
            let retry = self.update_state(db, status);
            if retry {
                if !disable_proc_macros {
                    let started = spawn();
                    self.on_spawned(db, status_change, started);
                    event_changed = started && !was_initializing;
                    proof {
                        spawned = started;
                    }
                }
            } else {
                event_changed = !was_failed;
            }
        }
        let ghost mid = *db;
        let ghost mailbox_after = *status_change;
        proof {
            if mailbox_before.pending() is Some {
                let change = mailbox_before.pending()->Some_0;
                if let ClientStatusChange::Ready(defined_macros, _) = change {
                    if !was_failed {
                        assert(mid.macro_plugins@.len() == db_before.macro_plugins@.len() + 1);
                    }
                }
            }
        }
        assert(event_changed == (mid != db_before));
        assert(event_applied(
            controller_before,
            *self,
            db_before,
            mid,
            mailbox_before,
            mailbox_after,
            disable_proc_macros,
            spawn,
        ));
        assert(round(
            controller_before.retries_left(),
            db_before.proc_macro_client_status.phase(),
            event_kind(mailbox_before),
            disable_proc_macros,
            spawned,
            self.retries_left(),
            mid.proc_macro_client_status.phase(),
        ));
        let collected = responses();
        let ghost collected_ghost = collected;
        let drained = apply_proc_macro_server_responses(db, collected);
        match drained {
            Ok(changed) => Ok(changed || event_changed),
            Err(e) => Err(e),
        }
    }
}

/// The kind of the event waiting in `mailbox`, if any.
pub open spec fn event_kind(mailbox: ProcMacroClientStatusChange) -> Option<ChangeKind> {
    match mailbox.pending() {
        Some(change) => Some(change.kind()),
        None => None,
    }
}

/// Whether a round that reads `event` with `retries_left` and `phase`
/// starts a bootstrap attempt: a retry is due and expansion is on.
pub open spec fn starts_attempt(
    retries_left: nat,
    phase: Phase,
    event: Option<ChangeKind>,
    disable_proc_macros: bool,
) -> bool {
    match event {
        Some(change) => step(retries_left, phase, change).2 && !disable_proc_macros,
        None => false,
    }
}

/// One round of the control thread, as the lifecycle sees it: from
/// `retries_left` and `phase`, reading `event`, to `retries_after` and
/// `phase_after`. An attempt that it starts puts the phase to
/// `Initializing` when its process came up (`spawned`).
pub open spec fn round(
    retries_left: nat,
    phase: Phase,
    event: Option<ChangeKind>,
    disable_proc_macros: bool,
    spawned: bool,
    retries_after: nat,
    phase_after: Phase,
) -> bool {
    match event {
        None => retries_after == retries_left && phase_after == phase,
        Some(change) => {
            let t = step(retries_left, phase, change);
            &&& retries_after == t.0
            &&& phase_after == if starts_attempt(
                retries_left,
                phase,
                event,
                disable_proc_macros,
            ) && spawned {
                Phase::Initializing
            } else {
                t.1
            }
        },
    }
}

/// What applying the mailbox's event does, from the controller, inputs and
/// mailbox `before` to those `after`: with no event, nothing; otherwise the
/// transition of `step`, where a `Ready` event installs its client and
/// merges its plugins, a failure without retry ends in
/// `InitializingFailed`, and a due retry starts an attempt through `spawn`.
pub open spec fn event_applied<S: FnOnce() -> bool>(
    before: ProcMacroClientController,
    after: ProcMacroClientController,
    db_before: ProcMacroInputs,
    db_after: ProcMacroInputs,
    mailbox_before: ProcMacroClientStatusChange,
    mailbox_after: ProcMacroClientStatusChange,
    disable_proc_macros: bool,
    spawn: S,
) -> bool {
    match mailbox_before.pending() {
        None => {
            &&& after.retries_left() == before.retries_left()
            &&& db_after == db_before
            &&& mailbox_after.pending().is_none()
        },
        Some(change) => {
            let t = step(before.retries_left(), db_before.proc_macro_client_status.phase(), change.kind());
            &&& after.retries_left() == t.0
            &&& if t.2 && !disable_proc_macros {
                exists|spawned: bool|
                    spawn.ensures((), spawned) && if spawned {
                        db_after == db_before.with_status(ClientStatus::Initializing)
                            && mailbox_after.pending().is_none()
                    } else {
                        db_after == db_before && mailbox_after.pending() == Some(
                            ClientStatusChange::FatalFailed,
                        )
                    }
            } else {
                &&& mailbox_after.pending().is_none()
                &&& match change {
                    ClientStatusChange::Ready(defined_macros, client) => if db_before.proc_macro_client_status.phase()
                        != Phase::InitializingFailed {
                        &&& db_after.proc_macro_client_status == ClientStatus::Ready(client)
                        &&& db_after.attribute_macro_resolution == db_before.attribute_macro_resolution
                        &&& db_after.derive_macro_resolution == db_before.derive_macro_resolution
                        &&& db_after.inline_macro_resolution == db_before.inline_macro_resolution
                        &&& plugins_merged(
                            db_before,
                            db_after,
                            seq![plugin_of(defined_macros)],
                            defined_macros.inline_macros@,
                        )
                    } else {
                        db_after == db_before
                    },
                    _ => if t.2 {
                        db_after == db_before
                    } else {
                        db_after == db_before.with_status(ClientStatus::InitializingFailed)
                    },
                }
            }
        },
    }
}

/// The lifecycle as the control loop drives it when every process start
/// succeeds: retries left, phase, and how many bootstrap attempts were
/// made. A retry is an attempt, and puts the phase back to `Initializing`.
pub open spec fn drive_step(s: (nat, Phase, nat), change: ChangeKind) -> (nat, Phase, nat) {
    let t = step(s.0, s.1, change);
    if t.2 {
        (t.0, Phase::Initializing, s.2 + 1)
    } else {
        (t.0, t.1, s.2)
    }
}

/// The lifecycle after the events of `changes`, in order.
pub open spec fn drive_all(s: (nat, Phase, nat), changes: Seq<ChangeKind>) -> (nat, Phase, nat)
    decreases changes.len(),
{
    if changes.len() == 0 {
        s
    } else {
        drive_all(drive_step(s, changes[0]), changes.drop_first())
    }
}

/// The lifecycle right after the first attempt started.
pub open spec fn first_attempt() -> (nat, Phase, nat) {
    (RETRY_BUDGET as nat, Phase::Initializing, 1)
}

/// `n` recoverable failures in a row.
pub open spec fn failures(n: nat) -> Seq<ChangeKind> {
    Seq::new(n, |_i: int| ChangeKind::Failed)
}

proof fn lemma_failures_then_ready_from(r: nat, k: nat, n: nat)
    requires
        n < r,
    ensures
        drive_all((r, Phase::Initializing, k), failures(n).push(ChangeKind::Ready)) == (
            (r - n) as nat,
            Phase::Ready,
            k + n,
        ),
    decreases n,
{
    let changes = failures(n).push(ChangeKind::Ready);
    if n == 0 {
        let s0 = (r, Phase::Initializing, k);
        assert(changes[0] == ChangeKind::Ready);
        assert(changes.drop_first() =~= Seq::<ChangeKind>::empty());
        assert(drive_all(drive_step(s0, changes[0]), changes.drop_first()) == drive_step(
            s0,
            changes[0],
        ));
    } else {
        assert(changes[0] == ChangeKind::Failed);
        assert(changes.drop_first() =~= failures((n - 1) as nat).push(ChangeKind::Ready));
        lemma_failures_then_ready_from((r - 1) as nat, k + 1, (n - 1) as nat);
    }
}

/// Once `InitializingFailed`, the phase stays and no attempt is made; with
/// no retry left, none comes back.
pub proof fn lemma_initializing_failed_is_final(s: (nat, Phase, nat), changes: Seq<ChangeKind>)
    requires
        s.1 == Phase::InitializingFailed,
    ensures
        drive_all(s, changes).1 == Phase::InitializingFailed,
        drive_all(s, changes).2 == s.2,
        s.0 == 0 ==> drive_all(s, changes) == s,
    decreases changes.len(),
{
    if changes.len() > 0 {
        lemma_initializing_failed_is_final(drive_step(s, changes[0]), changes.drop_first());
    }
}

proof fn lemma_failures_exhaust_from(r: nat, k: nat, n: nat, tail: Seq<ChangeKind>)
    requires
        1 <= r <= n,
    ensures
        drive_all((r, Phase::Initializing, k), failures(n) + tail) == (
            0nat,
            Phase::InitializingFailed,
            (k + r - 1) as nat,
        ),
    decreases n,
{
    let changes = failures(n) + tail;
    assert(changes[0] == ChangeKind::Failed);
    assert(changes.drop_first() =~= failures((n - 1) as nat) + tail);
    if r == 1 {
        lemma_initializing_failed_is_final(
            (0nat, Phase::InitializingFailed, k),
            changes.drop_first(),
        );
    } else {
        lemma_failures_exhaust_from((r - 1) as nat, k + 1, (n - 1) as nat, tail);
    }
}

/// A fatal failure ends the attempts from any phase, whatever retries are left.
pub proof fn lemma_fatal_failure_is_final(retries_left: nat, phase: Phase)
    ensures
        step(retries_left, phase, ChangeKind::FatalFailed) == (
            retries_left,
            Phase::InitializingFailed,
            false,
        ),
{
}

/// A round of `maybe_update_state` seen on the lifecycle `s` (retries
/// left, phase, attempts so far) that reads `change` with expansion on,
/// where each process it starts comes up: it leads to `next`, and the
/// attempts grow by the ones it starts.
pub open spec fn round_taken(s: (nat, Phase, nat), change: ChangeKind, next: (nat, Phase, nat)) -> bool {
    &&& round(s.0, s.1, Some(change), false, true, next.0, next.1)
    &&& next.2 == s.2 + if starts_attempt(s.0, s.1, Some(change), false) {
        1nat
    } else {
        0nat
    }
}

/// Rounds of `maybe_update_state`, one per event, follow the model of the
/// lifecycle.
pub proof fn lemma_rounds_follow_model(states: Seq<(nat, Phase, nat)>, changes: Seq<ChangeKind>)
    requires
        states.len() == changes.len() + 1,
        forall|i: int|
            0 <= i < changes.len() ==> round_taken(states[i], #[trigger] changes[i], states[i + 1]),
    ensures
        states.last() == drive_all(states[0], changes),
    decreases changes.len(),
{
    if changes.len() > 0 {
        let first = changes[0];
        assert(round_taken(states[0], first, states[1]));
        assert(states[1] == drive_step(states[0], changes[0]));
        let rest = states.drop_first();
        let more = changes.drop_first();
        assert forall|i: int| 0 <= i < more.len() implies round_taken(
            rest[i],
            #[trigger] more[i],
            rest[i + 1],
        ) by {
            let c = changes[i + 1];
            assert(c == more[i]);
        }
        lemma_rounds_follow_model(rest, changes.drop_first());
    }
}

/// Fewer recoverable failures than the retry budget, then a success, each
/// read by one round of `maybe_update_state` after the first attempt: the
/// client ends `Ready` after one attempt more than there were failures.
pub proof fn lemma_retries_then_ready(n: nat, states: Seq<(nat, Phase, nat)>)
    requires
        n < RETRY_BUDGET,
        states.len() == n + 2,
        states[0] == first_attempt(),
        forall|i: int|
            0 <= i < n + 1 ==> round_taken(
                states[i],
                #[trigger] failures(n).push(ChangeKind::Ready)[i],
                states[i + 1],
            ),
    ensures
        states.last().1 == Phase::Ready,
        states.last().2 == n + 1,
{
    lemma_rounds_follow_model(states, failures(n).push(ChangeKind::Ready));
    lemma_failures_then_ready_from(RETRY_BUDGET as nat, 1, n);
}

/// As many recoverable failures as the retry budget, or more, each read by
/// one round of `maybe_update_state` after the first attempt, whatever
/// events follow: the client ends `InitializingFailed` with no retry left,
/// and no attempt is made after the budget's worth.
pub proof fn lemma_exhausted_retries_are_final(
    n: nat,
    tail: Seq<ChangeKind>,
    states: Seq<(nat, Phase, nat)>,
)
    requires
        n >= RETRY_BUDGET,
        states.len() == n + tail.len() + 1,
        states[0] == first_attempt(),
        forall|i: int|
            0 <= i < n + tail.len() ==> round_taken(
                states[i],
                #[trigger] (failures(n) + tail)[i],
                states[i + 1],
            ),
    ensures
        states.last() == (0nat, Phase::InitializingFailed, RETRY_BUDGET as nat),
{
    lemma_rounds_follow_model(states, failures(n) + tail);
    lemma_failures_exhaust_from(RETRY_BUDGET as nat, 1, n, tail);
}

} // verus!