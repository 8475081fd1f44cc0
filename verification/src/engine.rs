//! The provisioning coordinator.
//!
//! One session runs the protocol: acquire the per-user lock, publish the
//! environment marker, join or create the network namespace (creating
//! and configuring the veth pair only on the create path), adopt or
//! create the mount namespace, and release the lock on every exit path.
//! The coordinator is a state machine: an unverified driver asks
//! [`Coordinator::next_action`] what to do, performs the kernel work,
//! and reports the outcome to [`Coordinator::on_event`].  Every
//! transition, and every name and address handed to the driver, is
//! pinned down here.

use vstd::prelude::*;

use crate::addr::{
    generate_veth_addresses, inside_address_pair, outside_address_pair, uid_in_range, AddressPair,
    UID_MAX, UID_MIN,
};
use crate::bytes::{contains_byte, vec_contains_byte};
use crate::config::Mount;
use crate::error::IsolateError;
use crate::names::{
    decimal_bytes, lock_dir, lock_dir_bytes, lock_path, lock_path_spec, marker_record,
    marker_record_spec, mount_options, mount_options_spec, netns_name, netns_name_spec,
    netns_path, netns_path_spec, u32_decimal, veth_in_name, veth_in_name_spec, veth_out_name,
    veth_out_name_spec,
};

verus! {

/// The parameters of one provisioning session.
pub struct SessionParams {
    pub username: Vec<u8>,
    pub uid: u32,
    pub gid: u32,
    /// Absent means the mount subsystem is skipped entirely.
    pub mount: Option<Mount>,
    /// Name of the per-user environment marker; never holds `=`.
    pub user_env: Vec<u8>,
    /// Loopback interface name inside the user namespace.
    pub loopback: Vec<u8>,
}

/// What the driver must perform next.
pub enum Action {
    /// Create the lock directory if missing, open the lock file
    /// read+write (create, never truncate) and take the exclusive
    /// advisory lock, blocking.
    AcquireLock { dir: Vec<u8>, path: Vec<u8> },
    /// Publish `name=value` into the caller's environment.
    PublishMarker { name: Vec<u8>, value: Vec<u8> },
    /// Report whether the namespace anchor path exists.
    CheckNetns { path: Vec<u8> },
    /// Open the anchor read-only and move the thread into the network
    /// namespace; on failure leave the caller untouched.
    JoinNetns { path: Vec<u8> },
    /// Create the named network namespace and move the thread into it.
    CreateNetns { name: Vec<u8> },
    /// Create the veth pair in one request, with the `in` end placed
    /// into the namespace behind `netns_path` at creation time.
    CreateVeth { netns_path: Vec<u8>, in_name: Vec<u8>, out_name: Vec<u8> },
    /// In the host namespace: look up `out_name` (a missing link skips
    /// assignment and is no error), add its IPv4 and IPv6 addresses,
    /// and set it up.
    ConfigureOutside { out_name: Vec<u8>, addr: AddressPair },
    /// Over a fresh connection inside the user namespace: set the
    /// loopback up, add the inside addresses, set the inside link up,
    /// and replace the IPv4 and IPv6 default routes via the outside
    /// addresses with the inside link as output interface.  Missing
    /// links skip their part and are no error.
    ConfigureInside {
        loopback: Vec<u8>,
        in_name: Vec<u8>,
        inside: AddressPair,
        outside: AddressPair,
    },
    /// Scan the process table for an adoptable entry of `uid`, judging
    /// each entry by [`crate::probe::classify_entry`] with the marker
    /// record `marker`; per-entry read errors skip the entry.
    ProbeProcesses { uid: u32, marker: Vec<u8> },
    /// Enter the mount namespace of `pid`.
    EnterMountNs { pid: i32 },
    /// Unshare the mount namespace, unmount `target` (a missing mount
    /// is tolerable), and mount a fresh tmpfs there with
    /// NOEXEC|NOSUID|NODEV and `options`.
    SetupMount { target: Vec<u8>, options: Vec<u8> },
    /// Release the advisory lock; never delete the lock file.
    ReleaseLock,
}

/// The spec-level shape of an action: the same structure over views.
pub enum ActionView {
    AcquireLock { dir: Seq<u8>, path: Seq<u8> },
    PublishMarker { name: Seq<u8>, value: Seq<u8> },
    CheckNetns { path: Seq<u8> },
    JoinNetns { path: Seq<u8> },
    CreateNetns { name: Seq<u8> },
    CreateVeth { netns_path: Seq<u8>, in_name: Seq<u8>, out_name: Seq<u8> },
    ConfigureOutside { out_name: Seq<u8>, addr: AddressPair },
    ConfigureInside {
        loopback: Seq<u8>,
        in_name: Seq<u8>,
        inside: AddressPair,
        outside: AddressPair,
    },
    ProbeProcesses { uid: u32, marker: Seq<u8> },
    EnterMountNs { pid: i32 },
    SetupMount { target: Seq<u8>, options: Seq<u8> },
    ReleaseLock,
}

impl View for Action {
    type V = ActionView;

    open spec fn view(&self) -> ActionView {
        match self {
            Action::AcquireLock { dir, path } => ActionView::AcquireLock {
                dir: dir@,
                path: path@,
            },
            Action::PublishMarker { name, value } => ActionView::PublishMarker {
                name: name@,
                value: value@,
            },
            Action::CheckNetns { path } => ActionView::CheckNetns { path: path@ },
            Action::JoinNetns { path } => ActionView::JoinNetns { path: path@ },
            Action::CreateNetns { name } => ActionView::CreateNetns { name: name@ },
            Action::CreateVeth { netns_path, in_name, out_name } => ActionView::CreateVeth {
                netns_path: netns_path@,
                in_name: in_name@,
                out_name: out_name@,
            },
            Action::ConfigureOutside { out_name, addr } => ActionView::ConfigureOutside {
                out_name: out_name@,
                addr: *addr,
            },
            Action::ConfigureInside { loopback, in_name, inside, outside } => {
                ActionView::ConfigureInside {
                    loopback: loopback@,
                    in_name: in_name@,
                    inside: *inside,
                    outside: *outside,
                }
            },
            Action::ProbeProcesses { uid, marker } => ActionView::ProbeProcesses {
                uid: *uid,
                marker: marker@,
            },
            Action::EnterMountNs { pid } => ActionView::EnterMountNs { pid: *pid },
            Action::SetupMount { target, options } => ActionView::SetupMount {
                target: target@,
                options: options@,
            },
            Action::ReleaseLock => ActionView::ReleaseLock,
        }
    }
}

/// What the driver reports back about the action it performed.
#[derive(Clone, Copy, PartialEq, Eq, Structural, Debug)]
pub enum Event {
    /// The action succeeded.
    Completed,
    /// The action failed; the driver maps the failing operation to its
    /// error kind.
    Failed { error: IsolateError },
    /// Answer to `CheckNetns`.
    NetnsChecked { exists: bool },
    /// Answer to `ProbeProcesses`: an adoptable process was found.
    ProbeFound { pid: i32 },
    /// Answer to `ProbeProcesses`: no adoptable process.
    ProbeNone,
}

/// Where the protocol stands; each non-final phase names the action in
/// flight.
pub enum Phase {
    Locking,
    Publishing,
    CheckingNetns,
    JoiningNetns,
    CreatingNetns,
    CreatingVeth,
    ConfiguringOutside,
    ConfiguringInside,
    Probing,
    EnteringMountNs { pid: i32 },
    SettingUpMount,
    /// Provisioning is over with `outcome`; the lock is being released.
    Releasing { outcome: Result<(), IsolateError> },
    /// The protocol is over.
    Finished { result: Result<(), IsolateError> },
}

/// The phase after the network half is done: probe for a mount
/// namespace if mount work is configured, else go release the lock.
pub open spec fn after_net(p: SessionParams) -> Phase {
    if p.mount is Some {
        Phase::Probing
    } else {
        Phase::Releasing { outcome: Ok(()) }
    }
}

/// Which events a driver may answer with in each phase.
pub open spec fn event_allowed(phase: Phase, ev: Event) -> bool {
    match phase {
        Phase::Locking => ev is Completed || ev is Failed,
        Phase::Publishing => ev is Completed,
        Phase::CheckingNetns => ev is NetnsChecked,
        Phase::JoiningNetns => ev is Completed || ev is Failed,
        Phase::CreatingNetns => ev is Completed || ev is Failed,
        Phase::CreatingVeth => ev is Completed || ev is Failed,
        Phase::ConfiguringOutside => ev is Completed || ev is Failed,
        Phase::ConfiguringInside => ev is Completed || ev is Failed,
        Phase::Probing => ev is ProbeFound || ev is ProbeNone || ev is Failed,
        Phase::EnteringMountNs { .. } => ev is Completed || ev is Failed,
        Phase::SettingUpMount => ev is Completed || ev is Failed,
        Phase::Releasing { .. } => ev is Completed || ev is Failed,
        Phase::Finished { .. } => false,
    }
}

/// The transition relation of the protocol.
///
/// Failures of the lock acquisition end the session at once (no lock is
/// held); any later provisioning failure goes through `Releasing`, so
/// the lock is released on every exit path.  If releasing fails too,
/// the provisioning error wins.
pub open spec fn step_spec(p: SessionParams, phase: Phase, ev: Event) -> Phase {
    match phase {
        Phase::Locking => match ev {
            Event::Failed { error } => Phase::Finished { result: Err(error) },
            _ => Phase::Publishing,
        },
        Phase::Publishing => Phase::CheckingNetns,
        Phase::CheckingNetns => match ev {
            Event::NetnsChecked { exists } => if exists {
                Phase::JoiningNetns
            } else {
                Phase::CreatingNetns
            },
            _ => phase,
        },
        Phase::JoiningNetns => match ev {
            Event::Failed { error } => Phase::Releasing { outcome: Err(error) },
            _ => after_net(p),
        },
        Phase::CreatingNetns => match ev {
            Event::Failed { error } => Phase::Releasing { outcome: Err(error) },
            _ => Phase::CreatingVeth,
        },
        Phase::CreatingVeth => match ev {
            Event::Failed { error } => Phase::Releasing { outcome: Err(error) },
            _ => if uid_in_range(p.uid) {
                Phase::ConfiguringOutside
            } else {
                Phase::Releasing { outcome: Err(IsolateError::BadInput) }
            },
        },
        Phase::ConfiguringOutside => match ev {
            Event::Failed { error } => Phase::Releasing { outcome: Err(error) },
            _ => Phase::ConfiguringInside,
        },
        Phase::ConfiguringInside => match ev {
            Event::Failed { error } => Phase::Releasing { outcome: Err(error) },
            _ => after_net(p),
        },
        Phase::Probing => match ev {
            Event::ProbeFound { pid } => Phase::EnteringMountNs { pid },
            Event::ProbeNone => Phase::SettingUpMount,
            Event::Failed { error } => Phase::Releasing { outcome: Err(error) },
            _ => phase,
        },
        Phase::EnteringMountNs { .. } => match ev {
            Event::Failed { error } => Phase::Releasing { outcome: Err(error) },
            _ => Phase::Releasing { outcome: Ok(()) },
        },
        Phase::SettingUpMount => match ev {
            Event::Failed { error } => Phase::Releasing { outcome: Err(error) },
            _ => Phase::Releasing { outcome: Ok(()) },
        },
        Phase::Releasing { outcome } => match ev {
            Event::Failed { error } => Phase::Finished {
                result: if outcome is Err {
                    outcome
                } else {
                    Err(error)
                },
            },
            _ => Phase::Finished { result: outcome },
        },
        Phase::Finished { .. } => phase,
    }
}

/// Internal well-formedness: phases that hand out addresses are reached
/// only with a uid in range, and mount phases only with mount work
/// configured.
pub open spec fn phase_wf(p: SessionParams, phase: Phase) -> bool {
    match phase {
        Phase::ConfiguringOutside => uid_in_range(p.uid),
        Phase::ConfiguringInside => uid_in_range(p.uid),
        Phase::Probing => p.mount is Some,
        Phase::EnteringMountNs { .. } => p.mount is Some,
        Phase::SettingUpMount => p.mount is Some,
        _ => true,
    }
}

/// The view of the mount target path (meaningful when mount work is
/// configured).
pub open spec fn mount_target(p: SessionParams) -> Seq<u8> {
    p.mount->0.tmp@
}

/// The view of the configured tmpfs size.
pub open spec fn mount_size(p: SessionParams) -> Seq<u8> {
    p.mount->0.size@
}

/// The exact action a session in `phase` performs, over views
/// (meaningful for non-final phases).
pub open spec fn planned_action(p: SessionParams, phase: Phase) -> ActionView {
    match phase {
        Phase::Locking => ActionView::AcquireLock {
            dir: lock_dir_bytes(),
            path: lock_path_spec(p.uid),
        },
        Phase::Publishing => ActionView::PublishMarker {
            name: p.user_env@,
            value: decimal_bytes(p.uid as int),
        },
        Phase::CheckingNetns => ActionView::CheckNetns { path: netns_path_spec(p.username@) },
        Phase::JoiningNetns => ActionView::JoinNetns { path: netns_path_spec(p.username@) },
        Phase::CreatingNetns => ActionView::CreateNetns { name: netns_name_spec(p.username@) },
        Phase::CreatingVeth => ActionView::CreateVeth {
            netns_path: netns_path_spec(p.username@),
            in_name: veth_in_name_spec(p.uid),
            out_name: veth_out_name_spec(p.uid),
        },
        Phase::ConfiguringOutside => ActionView::ConfigureOutside {
            out_name: veth_out_name_spec(p.uid),
            addr: outside_address_pair(p.uid),
        },
        Phase::ConfiguringInside => ActionView::ConfigureInside {
            loopback: p.loopback@,
            in_name: veth_in_name_spec(p.uid),
            inside: inside_address_pair(p.uid),
            outside: outside_address_pair(p.uid),
        },
        Phase::Probing => ActionView::ProbeProcesses {
            uid: p.uid,
            marker: marker_record_spec(p.user_env@, p.uid),
        },
        Phase::EnteringMountNs { pid } => ActionView::EnterMountNs { pid },
        Phase::SettingUpMount => ActionView::SetupMount {
            target: mount_target(p),
            options: mount_options_spec(mount_size(p), p.uid, p.gid),
        },
        Phase::Releasing { .. } => ActionView::ReleaseLock,
        Phase::Finished { .. } => ActionView::ReleaseLock,
    }
}

/// One provisioning session: its parameters and where it stands.
pub struct Coordinator {
    pub params: SessionParams,
    pub phase: Phase,
}

impl Coordinator {
    /// Starts a session.  The marker name must not hold `=`; everything
    /// else about the parameters is checked as the protocol reaches it.
    pub fn new(
        username: Vec<u8>,
        uid: u32,
        gid: u32,
        mount: Option<Mount>,
        user_env: Vec<u8>,
        loopback: Vec<u8>,
    ) -> (r: Result<Coordinator, IsolateError>)
        ensures
            r is Ok <==> !contains_byte(user_env@, 0x3d),
            r matches Ok(c) ==> {
                &&& c.phase is Locking
                &&& phase_wf(c.params, c.phase)
                &&& c.params.username == username
                &&& c.params.uid == uid
                &&& c.params.gid == gid
                &&& c.params.mount == mount
                &&& c.params.user_env == user_env
                &&& c.params.loopback == loopback
            },
            r matches Err(e) ==> e == IsolateError::BadInput,
    {
        if vec_contains_byte(&user_env, 0x3d) {
            return Err(IsolateError::BadInput);
        }
        Ok(
            Coordinator {
                params: SessionParams { username, uid, gid, mount, user_env, loopback },
                phase: Phase::Locking,
            },
        )
    }

    /// Whether the protocol is over.
    pub fn finished(&self) -> (r: bool)
        ensures
            r == (self.phase is Finished),
    {
        match self.phase {
            Phase::Finished { .. } => true,
            _ => false,
        }
    }

    /// The result of a finished session.
    pub fn result(&self) -> (r: Result<(), IsolateError>)
        requires
            self.phase is Finished,
        ensures
            r == self.phase->result,
    {
        match self.phase {
            Phase::Finished { result } => result,
            _ => Ok(()),
        }
    }

    /// The action the driver must perform next.
    pub fn next_action(&self) -> (a: Action)
        requires
            !(self.phase is Finished),
            phase_wf(self.params, self.phase),
        ensures
            a@ == planned_action(self.params, self.phase),
    {
        match &self.phase {
            Phase::Locking => Action::AcquireLock {
                dir: lock_dir(),
                path: lock_path(self.params.uid),
            },
            Phase::Publishing => Action::PublishMarker {
                name: crate::bytes::clone_bytes(&self.params.user_env),
                value: u32_decimal(self.params.uid),
            },
            Phase::CheckingNetns => Action::CheckNetns {
                path: netns_path(&self.params.username),
            },
            Phase::JoiningNetns => Action::JoinNetns { path: netns_path(&self.params.username) },
            Phase::CreatingNetns => Action::CreateNetns {
                name: netns_name(&self.params.username),
            },
            Phase::CreatingVeth => Action::CreateVeth {
                netns_path: netns_path(&self.params.username),
                in_name: veth_in_name(self.params.uid),
                out_name: veth_out_name(self.params.uid),
            },
            Phase::ConfiguringOutside => match generate_veth_addresses(self.params.uid) {
                Ok(pair) => Action::ConfigureOutside {
                    out_name: veth_out_name(self.params.uid),
                    addr: pair.0,
                },
                Err(_) => {
                    proof {
                        assert(false);
                    }
                    Action::ReleaseLock
                },
            },
            Phase::ConfiguringInside => match generate_veth_addresses(self.params.uid) {
                Ok(pair) => Action::ConfigureInside {
                    loopback: crate::bytes::clone_bytes(&self.params.loopback),
                    in_name: veth_in_name(self.params.uid),
                    inside: pair.1,
                    outside: pair.0,
                },
                Err(_) => {
                    proof {
                        assert(false);
                    }
                    Action::ReleaseLock
                },
            },
            Phase::Probing => Action::ProbeProcesses {
                uid: self.params.uid,
                marker: marker_record(&self.params.user_env, self.params.uid),
            },
            Phase::EnteringMountNs { pid } => Action::EnterMountNs { pid: *pid },
            Phase::SettingUpMount => match &self.params.mount {
                Some(m) => Action::SetupMount {
                    target: crate::bytes::clone_bytes(&m.tmp),
                    options: mount_options(&m.size, self.params.uid, self.params.gid),
                },
                None => {
                    proof {
                        assert(false);
                    }
                    Action::ReleaseLock
                },
            },
            Phase::Releasing { .. } => Action::ReleaseLock,
            Phase::Finished { .. } => Action::ReleaseLock,
        }
    }

    /// Consumes the outcome of the action in flight and moves the
    /// protocol forward.
    pub fn on_event(&mut self, ev: Event)
        requires
            !(old(self).phase is Finished),
            event_allowed(old(self).phase, ev),
            phase_wf(old(self).params, old(self).phase),
        ensures
            final(self).params == old(self).params,
            final(self).phase == step_spec(old(self).params, old(self).phase, ev),
            phase_wf(final(self).params, final(self).phase),
    {
        let next: Phase = match &self.phase {
            Phase::Locking => match ev {
                Event::Failed { error } => Phase::Finished { result: Err(error) },
                _ => Phase::Publishing,
            },
            Phase::Publishing => Phase::CheckingNetns,
            Phase::CheckingNetns => match ev {
                Event::NetnsChecked { exists } => if exists {
                    Phase::JoiningNetns
                } else {
                    Phase::CreatingNetns
                },
                _ => Phase::CheckingNetns,
            },
            Phase::JoiningNetns => match ev {
                Event::Failed { error } => Phase::Releasing { outcome: Err(error) },
                _ => self.after_net_phase(),
            },
            Phase::CreatingNetns => match ev {
                Event::Failed { error } => Phase::Releasing { outcome: Err(error) },
                _ => Phase::CreatingVeth,
            },
            Phase::CreatingVeth => match ev {
                Event::Failed { error } => Phase::Releasing { outcome: Err(error) },
                _ => if UID_MIN <= self.params.uid && self.params.uid <= UID_MAX {
                    Phase::ConfiguringOutside
                } else {
                    Phase::Releasing { outcome: Err(IsolateError::BadInput) }
                },
            },
            Phase::ConfiguringOutside => match ev {
                Event::Failed { error } => Phase::Releasing { outcome: Err(error) },
                _ => Phase::ConfiguringInside,
            },
            Phase::ConfiguringInside => match ev {
                Event::Failed { error } => Phase::Releasing { outcome: Err(error) },
                _ => self.after_net_phase(),
            },
            Phase::Probing => match ev {
                Event::ProbeFound { pid } => Phase::EnteringMountNs { pid },
                Event::ProbeNone => Phase::SettingUpMount,
                Event::Failed { error } => Phase::Releasing { outcome: Err(error) },
                _ => Phase::Probing,
            },
            Phase::EnteringMountNs { .. } => match ev {
                Event::Failed { error } => Phase::Releasing { outcome: Err(error) },
                _ => Phase::Releasing { outcome: Ok(()) },
            },
            Phase::SettingUpMount => match ev {
                Event::Failed { error } => Phase::Releasing { outcome: Err(error) },
                _ => Phase::Releasing { outcome: Ok(()) },
            },
            Phase::Releasing { outcome } => match ev {
                Event::Failed { error } => Phase::Finished {
                    result: if outcome.is_err() {
                        *outcome
                    } else {
                        Err(error)
                    },
                },
                _ => Phase::Finished { result: *outcome },
            },
            Phase::Finished { result } => Phase::Finished { result: *result },
        };
        self.phase = next;
    }

    /// The phase that follows completed network provisioning.
    fn after_net_phase(&self) -> (r: Phase)
        ensures
            r == after_net(self.params),
    {
        if self.params.mount.is_some() {
            Phase::Probing
        } else {
            Phase::Releasing { outcome: Ok(()) }
        }
    }
}

} // verus!
