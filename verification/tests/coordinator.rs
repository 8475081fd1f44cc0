//! Protocol tests: the coordinator driven against a simulated kernel.

use pam_isolate::engine::{Action, Coordinator, Event};
use pam_isolate::{IsolateError, Mount};

fn b(s: &str) -> Vec<u8> {
    s.as_bytes().to_vec()
}

/// A stand-in for the kernel: answers observations from its state and
/// records every mutating action.
struct FakeKernel {
    netns_exists: bool,
    adoptable: Option<i32>,
    created_netns: u32,
    created_veth: u32,
    joined: u32,
    caller_in_netns: bool,
    mounted_options: Vec<Vec<u8>>,
    entered_mntns: Vec<i32>,
    marker: Option<(Vec<u8>, Vec<u8>)>,
    lock_held: bool,
}

impl FakeKernel {
    fn fresh() -> FakeKernel {
        FakeKernel {
            netns_exists: false,
            adoptable: None,
            created_netns: 0,
            created_veth: 0,
            joined: 0,
            caller_in_netns: false,
            mounted_options: Vec::new(),
            entered_mntns: Vec::new(),
            marker: None,
            lock_held: false,
        }
    }

    fn perform(&mut self, a: &Action) -> Event {
        match a {
            Action::AcquireLock { .. } => {
                self.lock_held = true;
                Event::Completed
            }
            Action::PublishMarker { name, value } => {
                self.marker = Some((name.clone(), value.clone()));
                Event::Completed
            }
            Action::CheckNetns { .. } => Event::NetnsChecked { exists: self.netns_exists },
            Action::JoinNetns { .. } => {
                self.joined += 1;
                self.caller_in_netns = true;
                Event::Completed
            }
            Action::CreateNetns { .. } => {
                self.netns_exists = true;
                self.caller_in_netns = true;
                self.created_netns += 1;
                Event::Completed
            }
            Action::CreateVeth { .. } => {
                self.created_veth += 1;
                Event::Completed
            }
            Action::ConfigureOutside { .. } => Event::Completed,
            Action::ConfigureInside { .. } => Event::Completed,
            Action::ProbeProcesses { .. } => match self.adoptable {
                Some(pid) => Event::ProbeFound { pid },
                None => Event::ProbeNone,
            },
            Action::EnterMountNs { pid } => {
                self.entered_mntns.push(*pid);
                Event::Completed
            }
            Action::SetupMount { options, .. } => {
                self.mounted_options.push(options.clone());
                Event::Completed
            }
            Action::ReleaseLock => {
                self.lock_held = false;
                Event::Completed
            }
        }
    }
}

fn drive(c: &mut Coordinator, k: &mut FakeKernel) -> Result<(), IsolateError> {
    loop {
        if c.finished() {
            return c.result();
        }
        let a = c.next_action();
        let ev = k.perform(&a);
        c.on_event(ev);
    }
}

fn session(
    username: &str,
    uid: u32,
    mount: Option<Mount>,
) -> Coordinator {
    Coordinator::new(
        b(username),
        uid,
        uid,
        mount,
        b("PAM_NETNS_USER"),
        b("lo"),
    )
    .unwrap()
}

#[test]
fn marker_name_with_equals_is_rejected() {
    let r = Coordinator::new(b("alice"), 1000, 1000, None, b("BAD=NAME"), b("lo"));
    assert!(matches!(r, Err(IsolateError::BadInput)));
}

#[test]
fn join_path_actions_in_order() {
    let mut c = session("alice", 1000, None);
    let a = c.next_action();
    match &a {
        Action::AcquireLock { dir, path } => {
            assert_eq!(dir, &b("/var/run/pam_isolate"));
            assert_eq!(path, &b("/var/run/pam_isolate/lock_1000"));
        }
        _ => panic!("expected lock acquisition first"),
    }
    c.on_event(Event::Completed);
    let a = c.next_action();
    match &a {
        Action::PublishMarker { name, value } => {
            assert_eq!(name, &b("PAM_NETNS_USER"));
            assert_eq!(value, &b("1000"));
        }
        _ => panic!("expected marker publication after the lock"),
    }
    c.on_event(Event::Completed);
    let a = c.next_action();
    match &a {
        Action::CheckNetns { path } => assert_eq!(path, &b("/run/netns/alice_ns")),
        _ => panic!("expected the namespace check after the marker"),
    }
    c.on_event(Event::NetnsChecked { exists: true });
    let a = c.next_action();
    match &a {
        Action::JoinNetns { path } => assert_eq!(path, &b("/run/netns/alice_ns")),
        _ => panic!("expected a join when the anchor exists"),
    }
    c.on_event(Event::Completed);
    let a = c.next_action();
    assert!(matches!(a, Action::ReleaseLock));
    c.on_event(Event::Completed);
    assert!(c.finished());
    assert_eq!(c.result(), Ok(()));
}

#[test]
fn create_path_with_fresh_mount() {
    let mount = Mount { tmp: b("/tmp/carol"), size: b("256M") };
    let mut c = session("carol", 2000, Some(mount));
    let mut k = FakeKernel::fresh();
    assert_eq!(drive(&mut c, &mut k), Ok(()));
    assert_eq!(k.created_netns, 1);
    assert_eq!(k.created_veth, 1);
    assert_eq!(k.joined, 0);
    assert!(k.caller_in_netns);
    assert!(!k.lock_held);
    assert_eq!(
        k.marker,
        Some((b("PAM_NETNS_USER"), b("2000")))
    );
    assert_eq!(k.mounted_options, vec![b("size=256M,uid=2000,gid=2000,mode=777")]);
    assert!(k.entered_mntns.is_empty());
}

#[test]
fn create_path_actions_carry_addresses() {
    let mut c = session("carol", 2000, None);
    c.on_event(Event::Completed); // lock
    c.on_event(Event::Completed); // marker
    c.on_event(Event::NetnsChecked { exists: false });
    let a = c.next_action();
    match &a {
        Action::CreateNetns { name } => assert_eq!(name, &b("carol_ns")),
        _ => panic!("expected namespace creation when no anchor exists"),
    }
    c.on_event(Event::Completed);
    let a = c.next_action();
    match &a {
        Action::CreateVeth { netns_path, in_name, out_name } => {
            assert_eq!(netns_path, &b("/run/netns/carol_ns"));
            assert_eq!(in_name, &b("veth_2000_in"));
            assert_eq!(out_name, &b("veth_2000_out"));
        }
        _ => panic!("expected veth creation after the namespace"),
    }
    c.on_event(Event::Completed);
    let a = c.next_action();
    match &a {
        Action::ConfigureOutside { out_name, addr } => {
            assert_eq!(out_name, &b("veth_2000_out"));
            // uid 2000: index 1000 = 3 * 256 + 232
            assert_eq!((addr.v4.a, addr.v4.b, addr.v4.c, addr.v4.d), (100, 67, 232, 1));
            assert_eq!(addr.v6.h3, 1000);
        }
        _ => panic!("expected the outside configuration after the veth"),
    }
    c.on_event(Event::Completed);
    let a = c.next_action();
    match &a {
        Action::ConfigureInside { loopback, in_name, inside, outside } => {
            assert_eq!(loopback, &b("lo"));
            assert_eq!(in_name, &b("veth_2000_in"));
            assert_eq!(inside.v4.d, 2);
            assert_eq!(outside.v4.d, 1);
        }
        _ => panic!("expected the inside configuration last"),
    }
    c.on_event(Event::Completed);
    let a = c.next_action();
    assert!(matches!(a, Action::ReleaseLock));
}

#[test]
fn adopt_branch_does_not_touch_mount() {
    let mount = Mount { tmp: b("/tmp/carol"), size: b("256M") };
    let mut c = session("carol", 2000, Some(mount));
    let mut k = FakeKernel::fresh();
    k.netns_exists = true;
    k.adoptable = Some(4242);
    assert_eq!(drive(&mut c, &mut k), Ok(()));
    assert_eq!(k.joined, 1);
    assert_eq!(k.created_netns, 0);
    assert_eq!(k.created_veth, 0);
    assert_eq!(k.entered_mntns, vec![4242]);
    assert!(k.mounted_options.is_empty());
}

#[test]
fn probe_marker_record_is_derived() {
    let mount = Mount { tmp: b("/tmp/x"), size: b("1M") };
    let mut c = session("dave", 1234, Some(mount));
    c.on_event(Event::Completed); // lock
    c.on_event(Event::Completed); // marker
    c.on_event(Event::NetnsChecked { exists: true });
    c.on_event(Event::Completed); // join
    let a = c.next_action();
    match &a {
        Action::ProbeProcesses { uid, marker } => {
            assert_eq!(*uid, 1234);
            assert_eq!(marker, &b("PAM_NETNS_USER=1234"));
        }
        _ => panic!("expected the probe after the network half"),
    }
}

#[test]
fn two_serialised_sessions_create_once() {
    let mut k = FakeKernel::fresh();
    let mut first = session("alice", 1000, None);
    let mut second = session("alice", 1000, None);
    assert_eq!(drive(&mut first, &mut k), Ok(()));
    assert_eq!(drive(&mut second, &mut k), Ok(()));
    assert_eq!(k.created_netns, 1);
    assert_eq!(k.created_veth, 1);
    assert_eq!(k.joined, 1);
    assert!(!k.lock_held);
}

#[test]
fn second_login_after_logout_reuses_namespace() {
    // the anchor persists after all shells exit; the next login joins
    let mut k = FakeKernel::fresh();
    let mut first = session("bob", 1001, None);
    assert_eq!(drive(&mut first, &mut k), Ok(()));
    assert_eq!(k.created_netns, 1);
    let mut again = session("bob", 1001, None);
    assert_eq!(drive(&mut again, &mut k), Ok(()));
    assert_eq!(k.created_netns, 1);
    assert_eq!(k.created_veth, 1);
    assert_eq!(k.joined, 1);
}

#[test]
fn out_of_range_uid_fails_on_create_path() {
    let mut c = session("svc", 200, None);
    let mut k = FakeKernel::fresh();
    assert_eq!(drive(&mut c, &mut k), Err(IsolateError::BadInput));
    // the lock was still released
    assert!(!k.lock_held);
    // the veth was created before the uid check, as the protocol orders it
    assert_eq!(k.created_veth, 1);
}

#[test]
fn out_of_range_uid_still_joins_existing_namespace() {
    let mut c = session("svc", 200, None);
    let mut k = FakeKernel::fresh();
    k.netns_exists = true;
    assert_eq!(drive(&mut c, &mut k), Ok(()));
    assert_eq!(k.joined, 1);
}

#[test]
fn lock_failure_ends_without_release() {
    let mut c = session("alice", 1000, None);
    c.on_event(Event::Failed { error: IsolateError::Filesystem });
    assert!(c.finished());
    assert_eq!(c.result(), Err(IsolateError::Filesystem));
}

#[test]
fn provisioning_failure_still_releases_lock() {
    let mut c = session("alice", 1000, None);
    c.on_event(Event::Completed); // lock
    c.on_event(Event::Completed); // marker
    c.on_event(Event::NetnsChecked { exists: false });
    c.on_event(Event::Failed { error: IsolateError::Namespace }); // create fails
    let a = c.next_action();
    assert!(matches!(a, Action::ReleaseLock));
    c.on_event(Event::Completed);
    assert!(c.finished());
    assert_eq!(c.result(), Err(IsolateError::Namespace));
}

#[test]
fn provisioning_error_wins_over_unlock_error() {
    let mut c = session("alice", 1000, None);
    c.on_event(Event::Completed); // lock
    c.on_event(Event::Completed); // marker
    c.on_event(Event::NetnsChecked { exists: false });
    c.on_event(Event::Completed); // create netns
    c.on_event(Event::Failed { error: IsolateError::Netlink { exists: true } }); // veth fails
    let a = c.next_action();
    assert!(matches!(a, Action::ReleaseLock));
    c.on_event(Event::Failed { error: IsolateError::Filesystem });
    assert!(c.finished());
    assert_eq!(c.result(), Err(IsolateError::Netlink { exists: true }));
}

#[test]
fn unlock_error_surfaces_after_success() {
    let mut c = session("alice", 1000, None);
    c.on_event(Event::Completed); // lock
    c.on_event(Event::Completed); // marker
    c.on_event(Event::NetnsChecked { exists: true });
    c.on_event(Event::Completed); // join
    c.on_event(Event::Failed { error: IsolateError::Filesystem }); // unlock fails
    assert!(c.finished());
    assert_eq!(c.result(), Err(IsolateError::Filesystem));
}

#[test]
fn mount_failure_aborts_with_lock_released() {
    let mount = Mount { tmp: b("/tmp/x"), size: b("1M") };
    let mut c = session("carol", 2000, Some(mount));
    c.on_event(Event::Completed); // lock
    c.on_event(Event::Completed); // marker
    c.on_event(Event::NetnsChecked { exists: true });
    c.on_event(Event::Completed); // join
    c.on_event(Event::ProbeNone);
    c.on_event(Event::Failed { error: IsolateError::Mount }); // tmpfs mount fails
    let a = c.next_action();
    assert!(matches!(a, Action::ReleaseLock));
    c.on_event(Event::Completed);
    assert_eq!(c.result(), Err(IsolateError::Mount));
}

#[test]
fn probe_failure_aborts_with_lock_released() {
    let mount = Mount { tmp: b("/tmp/x"), size: b("1M") };
    let mut c = session("carol", 2000, Some(mount));
    c.on_event(Event::Completed); // lock
    c.on_event(Event::Completed); // marker
    c.on_event(Event::NetnsChecked { exists: true });
    c.on_event(Event::Completed); // join
    c.on_event(Event::Failed { error: IsolateError::Proc });
    let a = c.next_action();
    assert!(matches!(a, Action::ReleaseLock));
    c.on_event(Event::Completed);
    assert_eq!(c.result(), Err(IsolateError::Proc));
}
