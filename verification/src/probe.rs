//! Classification of process table entries for mount namespace adoption.
//!
//! Before creating a fresh mount namespace, the core looks for a live
//! process of the target user whose mount namespace can be adopted.  An
//! entry is adoptable either because it is owned by the target uid and is
//! not a session manager helper, or because it is a root-owned process
//! that already carries the user's environment marker (the window between
//! the marker being published and privileges being dropped).  Reading
//! `/proc` is the driver's job; the per-entry decision is verified here.

use vstd::prelude::*;

verus! {

/// "/usr/lib/systemd/systemd": the session manager image whose helper
/// processes are deliberately left outside the user namespace.
pub open spec fn session_manager_exe() -> Seq<u8> {
    seq![
        0x2f,
        0x75,
        0x73,
        0x72,
        0x2f,
        0x6c,
        0x69,
        0x62,
        0x2f,
        0x73,
        0x79,
        0x73,
        0x74,
        0x65,
        0x6d,
        0x64,
        0x2f,
        0x73,
        0x79,
        0x73,
        0x74,
        0x65,
        0x6d,
        0x64,
    ]
}

/// Whether the NUL-delimited record `pat` starts at position `i` of the
/// environment block `env`: a record boundary precedes it and a NUL
/// terminates it.
pub open spec fn is_marker_at(env: Seq<u8>, pat: Seq<u8>, i: int) -> bool {
    &&& 0 <= i
    &&& i + pat.len() < env.len()
    &&& (i == 0 || env[i - 1] == 0)
    &&& env[i + pat.len()] == 0
    &&& env.subrange(i, i + pat.len()) == pat
}

/// Whether the environment block `env` contains `pat` as a complete
/// NUL-delimited record.
pub open spec fn has_marker(env: Seq<u8>, pat: Seq<u8>) -> bool {
    exists|i: int| is_marker_at(env, pat, i)
}

/// Checks whether `pat` stands as a complete record at position `i`.
fn marker_at(env: &Vec<u8>, pat: &Vec<u8>, i: usize) -> (r: bool)
    requires
        i + pat@.len() < env@.len(),
    ensures
        r == is_marker_at(env@, pat@, i as int),
{
    let n = env.len();
    let m = pat.len();
    if i > 0 && env[i - 1] != 0 {
        return false;
    }
    let mut j: usize = 0;
    while j < m
        invariant
            n == env@.len(),
            m == pat@.len(),
            j <= m,
            i + m < n,
            forall|k: int| 0 <= k < j ==> env@[i + k] == pat@[k],
        decreases pat@.len() - j,
    {
        if env[i + j] != pat[j] {
            proof {
                let sr = env@.subrange(i as int, i + pat@.len());
                assert(sr[j as int] == env@[i + j]);
                assert(sr != pat@) by {
                    if sr == pat@ {
                        assert(sr[j as int] == pat@[j as int]);
                    }
                }
            }
            return false;
        }
        j += 1;
    }
    proof {
        assert(env@.subrange(i as int, i + pat@.len()) =~= pat@);
    }
    env[i + m] == 0
}

/// Scans an environment block (NUL-delimited `key=value` records, as
/// read from `/proc/<pid>/environ`) for the record `pat`.
pub fn environ_contains_marker(env: &Vec<u8>, pat: &Vec<u8>) -> (r: bool)
    ensures
        r == has_marker(env@, pat@),
{
    let n = env.len();
    let m = pat.len();
    if m >= n {
        proof {
            assert forall|k: int| !is_marker_at(env@, pat@, k) by {
                assert(k >= 0 ==> k + pat@.len() >= env@.len());
            }
        }
        return false;
    }
    let mut i: usize = 0;
    while i < n - m
        invariant
            n == env@.len(),
            m == pat@.len(),
            m < n,
            i <= n - m,
            forall|k: int| 0 <= k < i ==> !is_marker_at(env@, pat@, k),
        decreases n - i,
    {
        if marker_at(env, pat, i) {
            return true;
        }
        i += 1;
    }
    proof {
        assert forall|k: int| !is_marker_at(env@, pat@, k) by {
            assert(k >= i ==> !(k + pat@.len() < env@.len()));
        }
    }
    false
}

/// How one `/proc` entry is treated by the mount namespace probe.
#[derive(Clone, Copy, PartialEq, Eq, Structural, Debug)]
pub enum EntryDecision {
    /// Owned by the target uid and not a session manager helper: adopt
    /// its mount namespace.
    AdoptOwned,
    /// Root-owned but already carrying the user's marker record: the
    /// caller of a concurrent session before its privilege drop; adopt.
    AdoptPreSetuid,
    /// Anything else: keep scanning.
    Skip,
}

/// The decision for an entry with owner `owner_uid`, image path `exe`
/// and environment block `environ`, probing for `target_uid` with the
/// marker record `pat`.
pub open spec fn classify_entry_spec(
    owner_uid: u32,
    target_uid: u32,
    exe: Seq<u8>,
    environ: Seq<u8>,
    pat: Seq<u8>,
) -> EntryDecision {
    if owner_uid == target_uid {
        if exe != session_manager_exe() {
            EntryDecision::AdoptOwned
        } else {
            EntryDecision::Skip
        }
    } else if owner_uid == 0 {
        if has_marker(environ, pat) {
            EntryDecision::AdoptPreSetuid
        } else {
            EntryDecision::Skip
        }
    } else {
        EntryDecision::Skip
    }
}

/// Whether the exe path is the session manager image.
pub fn is_session_manager_exe(exe: &Vec<u8>) -> (r: bool)
    ensures
        r == (exe@ == session_manager_exe()),
{
    let mut lit: Vec<u8> = Vec::new();
    lit.push(0x2f);
    lit.push(0x75);
    lit.push(0x73);
    lit.push(0x72);
    lit.push(0x2f);
    lit.push(0x6c);
    lit.push(0x69);
    lit.push(0x62);
    lit.push(0x2f);
    lit.push(0x73);
    lit.push(0x79);
    lit.push(0x73);
    lit.push(0x74);
    lit.push(0x65);
    lit.push(0x6d);
    lit.push(0x64);
    lit.push(0x2f);
    lit.push(0x73);
    lit.push(0x79);
    lit.push(0x73);
    lit.push(0x74);
    lit.push(0x65);
    lit.push(0x6d);
    lit.push(0x64);
    proof {
        assert(lit@ =~= session_manager_exe());
    }
    crate::bytes::bytes_eq(exe, &lit)
}

/// Classifies one `/proc` entry.
///
/// `exe` is consulted only when `owner_uid == target_uid`, and `environ`
/// only when the owner is root; a driver that could not read the unused
/// block may pass it empty.
pub fn classify_entry(
    owner_uid: u32,
    target_uid: u32,
    exe: &Vec<u8>,
    environ: &Vec<u8>,
    pat: &Vec<u8>,
) -> (d: EntryDecision)
    ensures
        d == classify_entry_spec(owner_uid, target_uid, exe@, environ@, pat@),
{
    if owner_uid == target_uid {
        if !is_session_manager_exe(exe) {
            EntryDecision::AdoptOwned
        } else {
            EntryDecision::Skip
        }
    } else if owner_uid == 0 {
        if environ_contains_marker(environ, pat) {
            EntryDecision::AdoptPreSetuid
        } else {
            EntryDecision::Skip
        }
    } else {
        EntryDecision::Skip
    }
}

} // verus!
