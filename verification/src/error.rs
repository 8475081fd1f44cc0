//! The error surface of the provisioning core.

use vstd::prelude::*;

verus! {

/// A structured failure reported to the session caller.
///
/// `Netlink { exists: true }` records the "object exists" sub-code, which a
/// caller may wish to treat as idempotent success.  `Sysctl` never appears
/// here: failures of the sysctl pass are only logged.
#[derive(Clone, Copy, PartialEq, Eq, Structural, Debug)]
pub enum IsolateError {
    /// A uid outside the allowed range, or a marker name holding `=`.
    BadInput,
    /// Failure creating the lock directory, opening the lock file, or
    /// acquiring or releasing the lock.
    Filesystem,
    /// Failure of a netlink request.
    Netlink { exists: bool },
    /// Failure creating, entering or unsharing a namespace.
    Namespace,
    /// Failure of a mount or unmount.
    Mount,
    /// Unrecoverable failure reading the process table.
    Proc,
}

} // verus!
