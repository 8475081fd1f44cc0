//! The configuration view the provisioning core works on.
//!
//! Reading and parsing the configuration file is the surrounding code's
//! job; the core receives plain values.  Usernames, paths and sizes are
//! byte strings, and the sysctl table is the raw entry list of
//! [`crate::sysctl`].

use vstd::prelude::*;

use crate::bytes::bytes_eq;
use crate::sysctl::ConfigEntry;

verus! {

/// Minimum severity a session emits to its log.
#[derive(Clone, Copy, PartialEq, Eq, Structural, Debug)]
pub enum LogLevel {
    Off,
    Error,
    Warn,
    Info,
    Debug,
    Trace,
}

/// Which users are skipped entirely.
pub struct Users {
    pub ignore: Vec<Vec<u8>>,
}

/// The per-user scratch mount: its path and its tmpfs size option.
pub struct Mount {
    pub tmp: Vec<u8>,
    pub size: Vec<u8>,
}

/// Network knobs: the loopback interface name inside the user
/// namespace.
pub struct Net {
    pub loopback: Vec<u8>,
}

/// The whole configuration view.
pub struct Config {
    pub users: Users,
    pub log_level: LogLevel,
    /// Absent means the mount subsystem is skipped entirely.
    pub mount: Option<Mount>,
    /// Name of the per-user environment marker.
    pub user_env: Vec<u8>,
    pub net: Net,
    pub sysctl: Vec<ConfigEntry>,
}

/// The default minimum severity.
pub fn default_log_level() -> (r: LogLevel)
    ensures
        r == LogLevel::Warn,
{
    LogLevel::Warn
}

/// "PAM_NETNS_USER"
pub open spec fn default_user_env_bytes() -> Seq<u8> {
    seq![0x50, 0x41, 0x4d, 0x5f, 0x4e, 0x45, 0x54, 0x4e, 0x53, 0x5f, 0x55, 0x53, 0x45, 0x52]
}

/// The default marker name `PAM_NETNS_USER`.
pub fn default_user_env() -> (r: Vec<u8>)
    ensures
        r@ == default_user_env_bytes(),
{
    let mut out: Vec<u8> = Vec::new();
    out.push(0x50);
    out.push(0x41);
    out.push(0x4d);
    out.push(0x5f);
    out.push(0x4e);
    out.push(0x45);
    out.push(0x54);
    out.push(0x4e);
    out.push(0x53);
    out.push(0x5f);
    out.push(0x55);
    out.push(0x53);
    out.push(0x45);
    out.push(0x52);
    proof {
        assert(out@ =~= default_user_env_bytes());
    }
    out
}

/// "lo"
pub open spec fn default_loopback_bytes() -> Seq<u8> {
    seq![0x6c, 0x6f]
}

/// The default loopback interface name `lo`.
pub fn default_loopback() -> (r: Vec<u8>)
    ensures
        r@ == default_loopback_bytes(),
{
    let mut out: Vec<u8> = Vec::new();
    out.push(0x6c);
    out.push(0x6f);
    proof {
        assert(out@ =~= default_loopback_bytes());
    }
    out
}

impl Default for Users {
    /// No user is ignored by default.
    fn default() -> (r: Users)
        ensures
            r.ignore@.len() == 0,
    {
        Users { ignore: Vec::new() }
    }
}

impl Default for Mount {
    /// Empty path and size.
    fn default() -> (r: Mount)
        ensures
            r.tmp@.len() == 0,
            r.size@.len() == 0,
    {
        Mount { tmp: Vec::new(), size: Vec::new() }
    }
}

impl Default for Net {
    /// Loopback is `lo` by default.
    fn default() -> (r: Net)
        ensures
            r.loopback@ == default_loopback_bytes(),
    {
        Net { loopback: default_loopback() }
    }
}

impl Default for Config {
    /// No ignored users, severity `Warn`, no mount work, marker
    /// `PAM_NETNS_USER`, loopback `lo`, no sysctl entries.
    fn default() -> (r: Config)
        ensures
            r.users.ignore@.len() == 0,
            r.log_level == LogLevel::Warn,
            r.mount is None,
            r.user_env@ == default_user_env_bytes(),
            r.net.loopback@ == default_loopback_bytes(),
            r.sysctl@.len() == 0,
    {
        Config {
            users: Users { ignore: Vec::new() },
            log_level: default_log_level(),
            mount: None,
            user_env: default_user_env(),
            net: Net { loopback: default_loopback() },
            sysctl: Vec::new(),
        }
    }
}

/// Whether `username` occurs in the ignore list.
pub open spec fn ignored_spec(ignore: Seq<Vec<u8>>, username: Seq<u8>) -> bool {
    exists|i: int| 0 <= i < ignore.len() && ignore[i]@ == username
}

impl Users {
    /// Whether sessions of `username` are skipped entirely.
    pub fn is_ignored(&self, username: &Vec<u8>) -> (r: bool)
        ensures
            r == ignored_spec(self.ignore@, username@),
    {
        let mut i: usize = 0;
        while i < self.ignore.len()
            invariant
                i <= self.ignore@.len(),
                forall|j: int| 0 <= j < i ==> self.ignore@[j]@ != username@,
            decreases self.ignore@.len() - i,
        {
            if bytes_eq(&self.ignore[i], username) {
                return true;
            }
            i += 1;
        }
        false
    }
}

} // verus!
