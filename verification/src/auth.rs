//! The authorization guard that commit consults before writing.
//!
//! Whether a caller controls an identity is decided outside the protocol,
//! so the guard is an injected capability: a commit proceeds exactly when
//! the supplied guard approves the identity, and a hosting environment
//! supplies whatever guard its authentication mechanism provides.

use vstd::prelude::*;

verus! {

/// A capability that decides whether the caller is authorized to act as a
/// given identity.
pub trait AuthorizationGuard {
    /// Which identities this guard approves.
    spec fn approves(&self, user: Seq<u8>) -> bool;

    /// Decides authorization for `user`; `true` means approved.
    fn require_authorized(&self, user: &Vec<u8>) -> (r: bool)
        ensures
            r == self.approves(user@),
    ;
}

/// A guard that approves every identity, for harnesses in which
/// authentication is mocked out.
pub struct AllowAllGuard;

impl AuthorizationGuard for AllowAllGuard {
    open spec fn approves(&self, user: Seq<u8>) -> bool {
        true
    }

    fn require_authorized(&self, user: &Vec<u8>) -> (r: bool) {
        true
    }
}

/// A guard that rejects every identity, for exercising the failure path.
pub struct DenyAllGuard;

impl AuthorizationGuard for DenyAllGuard {
    open spec fn approves(&self, user: Seq<u8>) -> bool {
        false
    }

    fn require_authorized(&self, user: &Vec<u8>) -> (r: bool) {
        false
    }
}

/// The failure a commit ends in when the guard does not approve the
/// caller. Authorization failure is not part of [`crate::VRFError`]: it
/// propagates as its own call failure, before any state is written.
#[derive(Clone, Copy, Debug, PartialEq, Eq, Structural)]
pub struct Unauthorized;

} // verus!
