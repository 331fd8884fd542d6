//! The privilege check: provisioning needs root.

use vstd::prelude::*;

use crate::errors::ErrorKind;

verus! {

/// Relies on `nix::unistd::Uid::effective` and `Uid::is_root`: whether the
/// process runs with the effective user id of root.  The result depends on
/// the process environment; nothing is assumed of it.
#[verifier::external_body]
fn effective_uid_is_root() -> (r: bool) {
    nix::unistd::Uid::effective().is_root()
}

/// Fail with `RootPrivilegesRequired` unless the process runs as root.
pub fn require_root() -> (r: Result<(), ErrorKind>)
    ensures
        r matches Err(e) ==> e == ErrorKind::RootPrivilegesRequired,
{
    if effective_uid_is_root() {
        Ok(())
    } else {
        Err(ErrorKind::RootPrivilegesRequired)
    }
}

} // verus!
