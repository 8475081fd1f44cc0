//! A model of the kernel state the protocol manipulates, and the
//! properties of whole runs.
//!
//! [`run`] executes the coordinator's own transition relation
//! ([`crate::engine::step_spec`]) and action plan
//! ([`crate::engine::planned_action`]) against an environment in which
//! every kernel operation succeeds and observations answer honestly
//! from the modelled state.  The lemmas below state what spec-level
//! runs establish: a successful run leaves the namespace anchor in
//! place with the caller inside it, runs are idempotent, a second
//! serialised session joins instead of creating, the fresh mount
//! branch mounts the scratch tmpfs with exactly the derived options,
//! and every run keeps the order lock, marker, provisioning, unlock.

use vstd::prelude::*;

use crate::addr::uid_in_range;
use crate::engine::{planned_action, step_spec, ActionView, Event, Phase, SessionParams};
use crate::names::mount_options_spec;

verus! {

/// The observable kernel state of one user's isolation.
pub struct KernelView {
    /// Whether the namespace anchor `/run/netns/<username>_ns` exists.
    pub netns_exists: bool,
    /// Whether the veth pair exists.
    pub veth_exists: bool,
    /// Whether the calling thread is a member of the user network
    /// namespace.
    pub caller_in_netns: bool,
    /// Whether the calling thread is in the user mount namespace.
    pub caller_in_mntns: bool,
    /// The option string of the scratch tmpfs, if one is mounted.
    pub scratch_options: Option<Seq<u8>>,
    /// A live adoptable process of the user, if any.
    pub adoptable: Option<i32>,
    /// Whether the marker is published in the caller's environment.
    pub marker_published: bool,
    /// Whether the caller holds the per-user lock.
    pub lock_held: bool,
}

/// The answer a fault-free environment in state `k` gives to an action:
/// observations answer from `k`, everything else succeeds.
pub open spec fn fault_free_event(k: KernelView, a: ActionView) -> Event {
    match a {
        ActionView::CheckNetns { .. } => Event::NetnsChecked { exists: k.netns_exists },
        ActionView::ProbeProcesses { .. } => match k.adoptable {
            Some(pid) => Event::ProbeFound { pid },
            None => Event::ProbeNone,
        },
        _ => Event::Completed,
    }
}

/// How performing an action changes the kernel state.
pub open spec fn apply_action(k: KernelView, a: ActionView) -> KernelView {
    match a {
        ActionView::AcquireLock { .. } => KernelView { lock_held: true, ..k },
        ActionView::PublishMarker { .. } => KernelView { marker_published: true, ..k },
        ActionView::JoinNetns { .. } => KernelView { caller_in_netns: true, ..k },
        ActionView::CreateNetns { .. } => KernelView {
            netns_exists: true,
            caller_in_netns: true,
            ..k
        },
        ActionView::CreateVeth { .. } => KernelView { veth_exists: true, ..k },
        ActionView::EnterMountNs { .. } => KernelView { caller_in_mntns: true, ..k },
        ActionView::SetupMount { options, .. } => KernelView {
            caller_in_mntns: true,
            scratch_options: Some(options),
            ..k
        },
        ActionView::ReleaseLock => KernelView { lock_held: false, ..k },
        _ => k,
    }
}

/// Runs the protocol from `phase` against a fault-free environment,
/// returning the final phase, the final kernel state, and the actions
/// performed, in order.
pub open spec fn run_from(p: SessionParams, phase: Phase, k: KernelView, fuel: nat) -> (
    Phase,
    KernelView,
    Seq<ActionView>,
)
    decreases fuel,
{
    if fuel == 0 || phase is Finished {
        (phase, k, Seq::empty())
    } else {
        let a = planned_action(p, phase);
        let ev = fault_free_event(k, a);
        let rest = run_from(p, step_spec(p, phase, ev), apply_action(k, a), (fuel - 1) as nat);
        (rest.0, rest.1, seq![a] + rest.2)
    }
}

/// A whole session from the start (the protocol takes at most eleven
/// steps, so this fuel always completes it).
pub open spec fn run(p: SessionParams, k: KernelView) -> (Phase, KernelView, Seq<ActionView>) {
    run_from(p, Phase::Locking, k, 16)
}

/// Whether a trace creates the network namespace.
pub open spec fn creates_netns(tr: Seq<ActionView>) -> bool {
    exists|i: int| 0 <= i < tr.len() && tr[i] is CreateNetns
}

/// Whether a trace creates the veth pair.
pub open spec fn creates_veth(tr: Seq<ActionView>) -> bool {
    exists|i: int| 0 <= i < tr.len() && tr[i] is CreateVeth
}

/// Whether a trace joins the existing network namespace.
pub open spec fn joins_netns(tr: Seq<ActionView>) -> bool {
    exists|i: int| 0 <= i < tr.len() && tr[i] is JoinNetns
}

/// After a fault-free session for a uid in range, the session succeeds,
/// the namespace anchor exists, the calling thread is a member of the
/// user network namespace, the marker was published, and the lock is
/// released again.
pub proof fn lemma_run_provisions(p: SessionParams, k: KernelView)
    requires
        uid_in_range(p.uid),
    ensures
        ({
            let (ph, k2, tr) = run(p, k);
            &&& ph matches Phase::Finished { result } && result is Ok
            &&& k2.netns_exists
            &&& k2.caller_in_netns
            &&& k2.marker_published
            &&& !k2.lock_held
        }),
{
    reveal_with_fuel(run_from, 16);
}

/// The fresh mount branch: with mount work configured and no adoptable
/// process, a fault-free session leaves the scratch path mounted with
/// exactly the derived options (`size=<size>,uid=<uid>,gid=<gid>,
/// mode=777`), and the caller inside the user mount namespace.
pub proof fn lemma_fresh_mount_state(p: SessionParams, k: KernelView)
    requires
        uid_in_range(p.uid),
        p.mount is Some,
        k.adoptable is None,
    ensures
        ({
            let (ph, k2, tr) = run(p, k);
            &&& k2.scratch_options == Some(
                mount_options_spec(p.mount->0.size@, p.uid, p.gid),
            )
            &&& k2.caller_in_mntns
        }),
{
    reveal_with_fuel(run_from, 16);
}

/// The adopt branch: with an adoptable process present, a fault-free
/// session enters that process's mount namespace and does not touch the
/// scratch mount.
pub proof fn lemma_adopt_mount_state(p: SessionParams, k: KernelView)
    requires
        uid_in_range(p.uid),
        p.mount is Some,
        k.adoptable is Some,
    ensures
        ({
            let (ph, k2, tr) = run(p, k);
            &&& k2.scratch_options == k.scratch_options
            &&& k2.caller_in_mntns
        }),
{
    reveal_with_fuel(run_from, 16);
}

/// How the mount half of a session transforms the state: the caller
/// ends up in the user mount namespace, and only the fresh branch (no
/// adoptable process) rewrites the scratch mount.
pub open spec fn mount_end_state(p: SessionParams, k: KernelView) -> KernelView {
    if p.mount is Some {
        KernelView {
            caller_in_mntns: true,
            scratch_options: if k.adoptable is None {
                Some(mount_options_spec(p.mount->0.size@, p.uid, p.gid))
            } else {
                k.scratch_options
            },
            ..k
        }
    } else {
        k
    }
}

/// The end state of a session that finds the namespace anchor in
/// place: the marker is published, the caller has joined the
/// namespace, the mount half ran, and the lock is released.
pub open spec fn join_end_state(p: SessionParams, k: KernelView) -> KernelView {
    KernelView {
        caller_in_netns: true,
        marker_published: true,
        lock_held: false,
        ..mount_end_state(p, k)
    }
}

/// The end state of a session that creates the namespace: as for the
/// join path, plus the anchor and the veth pair now exist.
pub open spec fn create_end_state(p: SessionParams, k: KernelView) -> KernelView {
    KernelView {
        netns_exists: true,
        veth_exists: true,
        ..join_end_state(p, k)
    }
}

/// A fault-free session that finds the anchor in place succeeds, ends
/// in [`join_end_state`], joins the namespace, and creates nothing.
/// The uid plays no role on this path.
pub proof fn lemma_join_run(p: SessionParams, k: KernelView)
    requires
        k.netns_exists,
    ensures
        ({
            let (ph, k2, tr) = run(p, k);
            &&& ph matches Phase::Finished { result } && result is Ok
            &&& k2 == join_end_state(p, k)
            &&& joins_netns(tr)
            &&& !creates_netns(tr)
            &&& !creates_veth(tr)
        }),
{
    reveal_with_fuel(run_from, 16);
    let (ph, k2, tr) = run(p, k);
    assert(tr[3] is JoinNetns);
    assert(joins_netns(tr));
}

/// A fault-free session for a uid in range that finds no anchor
/// succeeds, ends in [`create_end_state`], creates the namespace and
/// the veth pair, and joins nothing.
pub proof fn lemma_create_run(p: SessionParams, k: KernelView)
    requires
        uid_in_range(p.uid),
        !k.netns_exists,
    ensures
        ({
            let (ph, k2, tr) = run(p, k);
            &&& ph matches Phase::Finished { result } && result is Ok
            &&& k2 == create_end_state(p, k)
            &&& creates_netns(tr)
            &&& creates_veth(tr)
            &&& !joins_netns(tr)
        }),
{
    reveal_with_fuel(run_from, 16);
    let (ph, k2, tr) = run(p, k);
    assert(tr[3] is CreateNetns);
    assert(tr[4] is CreateVeth);
    assert(creates_netns(tr));
    assert(creates_veth(tr));
}

/// Ordering: in any fault-free session the lock acquisition comes
/// first and the marker publication second, all namespace and mount
/// work follows the marker, and the lock release is the final action.
pub proof fn lemma_protocol_order(p: SessionParams, k: KernelView)
    requires
        uid_in_range(p.uid),
    ensures
        ({
            let (ph, k2, tr) = run(p, k);
            &&& tr.len() >= 3
            &&& tr[0] is AcquireLock
            &&& tr[1] is PublishMarker
            &&& tr[tr.len() - 1] is ReleaseLock
            &&& forall|i: int|
                1 < i < tr.len() - 1 ==> !(tr[i] is AcquireLock) && !(tr[i] is PublishMarker)
                    && !(tr[i] is ReleaseLock)
        }),
{
    reveal_with_fuel(run_from, 16);
    let (ph, k2, tr) = run(p, k);
    if k.netns_exists {
        if p.mount is Some {
            assert(tr.len() == 7);
        } else {
            assert(tr.len() == 5);
        }
    } else {
        if p.mount is Some {
            assert(tr.len() == 10);
        } else {
            assert(tr.len() == 8);
        }
    }
}

/// Idempotence: running a session again after a completed one changes
/// nothing, and the second run creates neither a namespace nor a veth
/// pair.
pub proof fn lemma_run_idempotent(p: SessionParams, k: KernelView)
    requires
        uid_in_range(p.uid),
    ensures
        ({
            let (ph1, k1, tr1) = run(p, k);
            let (ph2, k2, tr2) = run(p, k1);
            &&& k2 == k1
            &&& ph2 matches Phase::Finished { result } && result is Ok
            &&& !creates_netns(tr2)
            &&& !creates_veth(tr2)
        }),
{
    let (ph1, k1, tr1) = run(p, k);
    if k.netns_exists {
        lemma_join_run(p, k);
    } else {
        lemma_create_run(p, k);
    }
    assert(k1.netns_exists);
    lemma_join_run(p, k1);
    assert(run(p, k1).1 == join_end_state(p, k1));
    assert(join_end_state(p, k1) == k1);
}

/// Serialisation: from a state without the namespace, the first of two
/// serialised sessions creates it and the second joins it; both
/// succeed, and the second creates nothing.
pub proof fn lemma_serialised_sessions(p: SessionParams, k: KernelView)
    requires
        uid_in_range(p.uid),
        !k.netns_exists,
    ensures
        ({
            let (ph1, k1, tr1) = run(p, k);
            let (ph2, k2, tr2) = run(p, k1);
            &&& ph1 matches Phase::Finished { result } && result is Ok
            &&& ph2 matches Phase::Finished { result } && result is Ok
            &&& creates_netns(tr1)
            &&& !creates_netns(tr2)
            &&& !creates_veth(tr2)
            &&& joins_netns(tr2)
        }),
{
    lemma_create_run(p, k);
    let (ph1, k1, tr1) = run(p, k);
    assert(k1.netns_exists);
    lemma_join_run(p, k1);
}

} // verus!
