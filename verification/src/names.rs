//! Derivation of the kernel object names the core owns.
//!
//! All names are deterministic functions of the username or the numeric
//! uid: the network namespace anchor `/run/netns/<username>_ns`, the
//! veth pair `veth_<uid>_{in,out}`, the per-user lock file
//! `/var/run/pam_isolate/lock_<uid>`, the environment marker record
//! `<name>=<uid>`, and the tmpfs mount option string.

use vstd::prelude::*;

use crate::bytes::push_all;

verus! {

/// The ASCII digit for `d` (meaningful for `0 <= d <= 9`).
pub open spec fn decimal_digit(d: int) -> u8 {
    (0x30 + d) as u8
}

/// The decimal rendering of a non-negative integer, most significant
/// digit first, without sign or leading zeros (`0` renders as "0").
pub open spec fn decimal_bytes(n: int) -> Seq<u8>
    decreases n,
{
    if n < 10 {
        seq![decimal_digit(n)]
    } else {
        decimal_bytes(n / 10).push(decimal_digit(n % 10))
    }
}

/// Renders `n` in decimal.
pub fn u32_decimal(n: u32) -> (r: Vec<u8>)
    ensures
        r@ == decimal_bytes(n as int),
{
    let mut m: u32 = n;
    let mut out: Vec<u8> = Vec::new();
    proof {
        assert(decimal_bytes(n as int) =~= decimal_bytes(m as int) + out@);
    }
    while m >= 10
        invariant
            decimal_bytes(n as int) == decimal_bytes(m as int) + out@,
        decreases m,
    {
        let d: u8 = 0x30 + (m % 10) as u8;
        proof {
            assert(decimal_bytes(m as int) == decimal_bytes(m as int / 10).push(
                decimal_digit(m as int % 10),
            ));
            assert(decimal_bytes(m as int / 10).push(d) + out@ =~= decimal_bytes(m as int / 10) + (
            out@.insert(0, d)));
        }
        out.insert(0, d);
        m = m / 10;
    }
    let d: u8 = 0x30 + (m % 10) as u8;
    proof {
        assert(decimal_bytes(m as int) =~= seq![d]);
        assert(seq![d] + out@ =~= out@.insert(0, d));
    }
    out.insert(0, d);
    out
}

/// "_ns"
pub open spec fn ns_suffix() -> Seq<u8> {
    seq![0x5f, 0x6e, 0x73]
}

/// "/run/netns/"
pub open spec fn netns_dir() -> Seq<u8> {
    seq![0x2f, 0x72, 0x75, 0x6e, 0x2f, 0x6e, 0x65, 0x74, 0x6e, 0x73, 0x2f]
}

/// "veth_"
pub open spec fn veth_prefix() -> Seq<u8> {
    seq![0x76, 0x65, 0x74, 0x68, 0x5f]
}

/// "_out"
pub open spec fn out_suffix() -> Seq<u8> {
    seq![0x5f, 0x6f, 0x75, 0x74]
}

/// "_in"
pub open spec fn in_suffix() -> Seq<u8> {
    seq![0x5f, 0x69, 0x6e]
}

/// "/var/run/pam_isolate"
pub open spec fn lock_dir_bytes() -> Seq<u8> {
    seq![
        0x2f,
        0x76,
        0x61,
        0x72,
        0x2f,
        0x72,
        0x75,
        0x6e,
        0x2f,
        0x70,
        0x61,
        0x6d,
        0x5f,
        0x69,
        0x73,
        0x6f,
        0x6c,
        0x61,
        0x74,
        0x65,
    ]
}

/// "/lock_"
pub open spec fn lock_file_prefix() -> Seq<u8> {
    seq![0x2f, 0x6c, 0x6f, 0x63, 0x6b, 0x5f]
}

/// "size="
pub open spec fn size_option() -> Seq<u8> {
    seq![0x73, 0x69, 0x7a, 0x65, 0x3d]
}

/// ",uid="
pub open spec fn uid_option() -> Seq<u8> {
    seq![0x2c, 0x75, 0x69, 0x64, 0x3d]
}

/// ",gid="
pub open spec fn gid_option() -> Seq<u8> {
    seq![0x2c, 0x67, 0x69, 0x64, 0x3d]
}

/// ",mode=777"
pub open spec fn mode_option() -> Seq<u8> {
    seq![0x2c, 0x6d, 0x6f, 0x64, 0x65, 0x3d, 0x37, 0x37, 0x37]
}

/// The name of a user's network namespace: `<username>_ns`.
pub open spec fn netns_name_spec(username: Seq<u8>) -> Seq<u8> {
    username + ns_suffix()
}

/// The anchor path of a user's network namespace:
/// `/run/netns/<username>_ns`.
pub open spec fn netns_path_spec(username: Seq<u8>) -> Seq<u8> {
    netns_dir() + netns_name_spec(username)
}

/// The host-side veth name: `veth_<uid>_out`.
pub open spec fn veth_out_name_spec(uid: u32) -> Seq<u8> {
    veth_prefix() + decimal_bytes(uid as int) + out_suffix()
}

/// The namespace-side veth name: `veth_<uid>_in`.
pub open spec fn veth_in_name_spec(uid: u32) -> Seq<u8> {
    veth_prefix() + decimal_bytes(uid as int) + in_suffix()
}

/// The per-user lock file path: `/var/run/pam_isolate/lock_<uid>`.
pub open spec fn lock_path_spec(uid: u32) -> Seq<u8> {
    lock_dir_bytes() + lock_file_prefix() + decimal_bytes(uid as int)
}

/// The marker record published into the environment: `<name>=<uid>`.
pub open spec fn marker_record_spec(name: Seq<u8>, uid: u32) -> Seq<u8> {
    name + seq![0x3d] + decimal_bytes(uid as int)
}

/// The tmpfs option string: `size=<size>,uid=<uid>,gid=<gid>,mode=777`.
pub open spec fn mount_options_spec(size: Seq<u8>, uid: u32, gid: u32) -> Seq<u8> {
    size_option() + size + uid_option() + decimal_bytes(uid as int) + gid_option()
        + decimal_bytes(gid as int) + mode_option()
}

fn push_ns_suffix(out: &mut Vec<u8>)
    ensures
        final(out)@ == old(out)@ + ns_suffix(),
{
    out.push(0x5f);
    out.push(0x6e);
    out.push(0x73);
    proof {
        assert(out@ =~= old(out)@ + ns_suffix());
    }
}

fn push_netns_dir(out: &mut Vec<u8>)
    ensures
        final(out)@ == old(out)@ + netns_dir(),
{
    out.push(0x2f);
    out.push(0x72);
    out.push(0x75);
    out.push(0x6e);
    out.push(0x2f);
    out.push(0x6e);
    out.push(0x65);
    out.push(0x74);
    out.push(0x6e);
    out.push(0x73);
    out.push(0x2f);
    proof {
        assert(out@ =~= old(out)@ + netns_dir());
    }
}

fn push_veth_prefix(out: &mut Vec<u8>)
    ensures
        final(out)@ == old(out)@ + veth_prefix(),
{
    out.push(0x76);
    out.push(0x65);
    out.push(0x74);
    out.push(0x68);
    out.push(0x5f);
    proof {
        assert(out@ =~= old(out)@ + veth_prefix());
    }
}

/// Builds the network namespace name `<username>_ns`.
pub fn netns_name(username: &Vec<u8>) -> (r: Vec<u8>)
    ensures
        r@ == netns_name_spec(username@),
{
    let mut out: Vec<u8> = Vec::new();
    push_all(&mut out, username);
    push_ns_suffix(&mut out);
    proof {
        assert(out@ =~= netns_name_spec(username@));
    }
    out
}

/// Builds the anchor path `/run/netns/<username>_ns`.
pub fn netns_path(username: &Vec<u8>) -> (r: Vec<u8>)
    ensures
        r@ == netns_path_spec(username@),
{
    let mut out: Vec<u8> = Vec::new();
    push_netns_dir(&mut out);
    push_all(&mut out, username);
    push_ns_suffix(&mut out);
    proof {
        assert(out@ =~= netns_path_spec(username@));
    }
    out
}

/// Builds the host-side veth name `veth_<uid>_out`.
pub fn veth_out_name(uid: u32) -> (r: Vec<u8>)
    ensures
        r@ == veth_out_name_spec(uid),
{
    let mut out: Vec<u8> = Vec::new();
    push_veth_prefix(&mut out);
    let dec = u32_decimal(uid);
    push_all(&mut out, &dec);
    out.push(0x5f);
    out.push(0x6f);
    out.push(0x75);
    out.push(0x74);
    proof {
        assert(out@ =~= veth_out_name_spec(uid));
    }
    out
}

/// Builds the namespace-side veth name `veth_<uid>_in`.
pub fn veth_in_name(uid: u32) -> (r: Vec<u8>)
    ensures
        r@ == veth_in_name_spec(uid),
{
    let mut out: Vec<u8> = Vec::new();
    push_veth_prefix(&mut out);
    let dec = u32_decimal(uid);
    push_all(&mut out, &dec);
    out.push(0x5f);
    out.push(0x69);
    out.push(0x6e);
    proof {
        assert(out@ =~= veth_in_name_spec(uid));
    }
    out
}

/// Builds the lock directory path `/var/run/pam_isolate`.
pub fn lock_dir() -> (r: Vec<u8>)
    ensures
        r@ == lock_dir_bytes(),
{
    let mut out: Vec<u8> = Vec::new();
    out.push(0x2f);
    out.push(0x76);
    out.push(0x61);
    out.push(0x72);
    out.push(0x2f);
    out.push(0x72);
    out.push(0x75);
    out.push(0x6e);
    out.push(0x2f);
    out.push(0x70);
    out.push(0x61);
    out.push(0x6d);
    out.push(0x5f);
    out.push(0x69);
    out.push(0x73);
    out.push(0x6f);
    out.push(0x6c);
    out.push(0x61);
    out.push(0x74);
    out.push(0x65);
    proof {
        assert(out@ =~= lock_dir_bytes());
    }
    out
}

/// Builds the per-user lock file path `/var/run/pam_isolate/lock_<uid>`.
pub fn lock_path(uid: u32) -> (r: Vec<u8>)
    ensures
        r@ == lock_path_spec(uid),
{
    let mut out = lock_dir();
    out.push(0x2f);
    out.push(0x6c);
    out.push(0x6f);
    out.push(0x63);
    out.push(0x6b);
    out.push(0x5f);
    let dec = u32_decimal(uid);
    push_all(&mut out, &dec);
    proof {
        assert(out@ =~= lock_path_spec(uid));
    }
    out
}

/// Builds the marker record `<name>=<uid>`.
pub fn marker_record(name: &Vec<u8>, uid: u32) -> (r: Vec<u8>)
    ensures
        r@ == marker_record_spec(name@, uid),
{
    let mut out: Vec<u8> = Vec::new();
    push_all(&mut out, name);
    out.push(0x3d);
    let dec = u32_decimal(uid);
    push_all(&mut out, &dec);
    proof {
        assert(out@ =~= marker_record_spec(name@, uid));
    }
    out
}

/// Builds the tmpfs option string
/// `size=<size>,uid=<uid>,gid=<gid>,mode=777`.
pub fn mount_options(size: &Vec<u8>, uid: u32, gid: u32) -> (r: Vec<u8>)
    ensures
        r@ == mount_options_spec(size@, uid, gid),
{
    let mut out: Vec<u8> = Vec::new();
    out.push(0x73);
    out.push(0x69);
    out.push(0x7a);
    out.push(0x65);
    out.push(0x3d);
    push_all(&mut out, size);
    out.push(0x2c);
    out.push(0x75);
    out.push(0x69);
    out.push(0x64);
    out.push(0x3d);
    let uid_dec = u32_decimal(uid);
    push_all(&mut out, &uid_dec);
    out.push(0x2c);
    out.push(0x67);
    out.push(0x69);
    out.push(0x64);
    out.push(0x3d);
    let gid_dec = u32_decimal(gid);
    push_all(&mut out, &gid_dec);
    out.push(0x2c);
    out.push(0x6d);
    out.push(0x6f);
    out.push(0x64);
    out.push(0x65);
    out.push(0x3d);
    out.push(0x37);
    out.push(0x37);
    out.push(0x37);
    proof {
        assert(out@ =~= mount_options_spec(size@, uid, gid));
    }
    out
}

} // verus!
