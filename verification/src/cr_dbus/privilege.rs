//! CR Privilege Token D-Bus interface
//!
//! The checks of `org.crrouter.NetworkControl.Privilege`: which grant
//! requests are accepted and how a failed revocation is answered.  The
//! tokens themselves are kept by the service.

use vstd::prelude::*;
use crate::error::{NetctlError, NetctlResult, error_message};
use crate::cr_dbus::props::DbusError;
use crate::cr_dbus::dhcp::{DbusErrorView, error_view};

verus! {

/// Longest grant: 24 hours.
pub const MAX_GRANT_MINUTES: u32 = 1440;

/// Privilege token interface
pub struct CRPrivilege;

impl CRPrivilege {
    pub fn new() -> (p: Self) {
        CRPrivilege
    }

    /// GrantPrivileges, before the token is made: the duration must be 1
    /// to 1440 minutes; uid 0 means any user, another uid that user only.
    pub fn check_grant(&self, duration_minutes: u32, uid: u32) -> (r: Result<Option<u32>, DbusError>)
        ensures
            duration_minutes == 0 ==> (r matches Err(e) && error_view(e) == DbusErrorView::InvalidArgs(
                "Duration must be greater than 0"@,
            )),
            duration_minutes > MAX_GRANT_MINUTES ==> (r matches Err(e) && error_view(e)
                == DbusErrorView::InvalidArgs("Duration cannot exceed 1440 minutes (24 hours)"@)),
            0 < duration_minutes <= MAX_GRANT_MINUTES ==> r == Ok::<Option<u32>, DbusError>(
                if uid == 0 {
                    None
                } else {
                    Some(uid)
                },
            ),
    {
        if duration_minutes == 0 {
            return Err(DbusError::InvalidArgs("Duration must be greater than 0".to_string()));
        }
        if duration_minutes > MAX_GRANT_MINUTES {
            return Err(
                DbusError::InvalidArgs("Duration cannot exceed 1440 minutes (24 hours)".to_string()),
            );
        }
        Ok(
            if uid == 0 {
                None
            } else {
                Some(uid)
            },
        )
    }

    /// RevokePrivileges, from what revoking the stored token gave: on
    /// success, `true` when a token existed and was revoked and `false`
    /// when there was none; a refusal is reported as access denied with
    /// its message; another failure as a failure naming it.
    pub fn revoke_reply(&self, result: NetctlResult<bool>) -> (r: Result<bool, DbusError>)
        ensures
            match result {
                Ok(existed) => r == Ok::<bool, DbusError>(existed),
                Err(NetctlError::PermissionDenied(m)) => r matches Err(e) && error_view(e)
                    == DbusErrorView::AccessDenied(m@),
                Err(NetctlError::Io(_)) => r matches Err(DbusError::Failed(_)),
                Err(other) => r matches Err(e) && error_view(e) == DbusErrorView::Failed(
                    "Failed to revoke privileges: "@ + error_message(other),
                ),
            },
    {
        match result {
            Ok(existed) => Ok(existed),
            Err(NetctlError::PermissionDenied(m)) => Err(DbusError::AccessDenied(m)),
            Err(e) => Err(DbusError::Failed(failure_text("Failed to revoke privileges: ", &e))),
        }
    }

    /// VerifyToken, from what loading the stored token gave: no token is
    /// `false`; a token is answered with its signature check; a failed
    /// check or load is a failure naming the error.
    pub fn verify_reply(&self, loaded: NetctlResult<Option<NetctlResult<bool>>>) -> (r: Result<bool, DbusError>)
        ensures
            match loaded {
                Ok(Some(Ok(valid))) => r == Ok::<bool, DbusError>(valid),
                Ok(Some(Err(e))) => r matches Err(DbusError::Failed(m)) && (!(e is Io) ==> m@
                    == "Token verification failed: "@ + error_message(e)),
                Ok(None) => r == Ok::<bool, DbusError>(false),
                Err(e) => r matches Err(DbusError::Failed(m)) && (!(e is Io) ==> m@
                    == "Failed to load token: "@ + error_message(e)),
            },
    {
        match loaded {
            Ok(Some(Ok(valid))) => Ok(valid),
            Ok(Some(Err(e))) => Err(DbusError::Failed(failure_text("Token verification failed: ", &e))),
            Ok(None) => Ok(false),
            Err(e) => Err(DbusError::Failed(failure_text("Failed to load token: ", &e))),
        }
    }

    /// GetRemainingTime, from what loading the stored token gave (with the
    /// signature check and the seconds left): the seconds left of a token
    /// that checks out, 0 otherwise.
    pub fn remaining_time_reply(&self, loaded: NetctlResult<Option<(NetctlResult<bool>, u64)>>) -> (r: u64)
        ensures
            r == match loaded {
                Ok(Some((Ok(true), secs))) => secs,
                _ => 0u64,
            },
    {
        match loaded {
            Ok(Some((Ok(true), secs))) => secs,
            _ => 0,
        }
    }

    /// GetPrivilegeStatus: whether a valid token is held (a token whose
    /// check fails or errs is not), and the error text when loading
    /// failed.  The token's details are added by the service when it is
    /// valid.
    pub fn status_validity(&self, loaded: NetctlResult<Option<NetctlResult<bool>>>) -> (r: (bool, Option<String>))
        ensures
            r.0 == (loaded matches Ok(Some(Ok(true)))),
            match loaded {
                Err(e) => r.1 matches Some(m) && (!(e is Io) ==> m@ == error_message(e)),
                Ok(_) => r.1 is None,
            },
    {
        match loaded {
            Ok(Some(Ok(valid))) => (valid, None),
            Ok(Some(Err(_))) => (false, None),
            Ok(None) => (false, None),
            Err(e) => (false, Some(e.message())),
        }
    }
}

/// `prefix` followed by the error's message.
fn failure_text(prefix: &str, e: &NetctlError) -> (r: String)
    ensures
        !(*e is Io) ==> r@ == prefix@ + error_message(*e),
{
    let mut m = prefix.to_string();
    let t = e.message();
    m.append(t.as_str());
    m
}

impl Default for CRPrivilege {
    fn default() -> (p: Self) {
        CRPrivilege::new()
    }
}

} // verus!
