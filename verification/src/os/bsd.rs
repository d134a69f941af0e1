//! Extensions to users and groups for BSD platforms.
//!
//! These platforms keep a `change` and an `expire` time with each entry of
//! their user database.

use vstd::prelude::*;
use crate::raw::{c_passwd, spec_from_raw_buf};
use crate::time_t;

verus! {

/// BSD-specific fields for `User`s.
#[derive(Clone, Debug)]
pub struct UserExtras {
    /// Fields specific to Unix, rather than just BSD. (This struct is
    /// a superset, so it has to have all the other fields in it, too).
    pub extras: super::unix::UserExtras,
    /// Password change time.
    pub change: time_t,
    /// Password expiry time.
    pub expire: time_t,
}

impl UserExtras {
    /// Extract the OS-specific fields from the `passwd` entry that was just
    /// read.
    pub fn from_passwd(passwd: c_passwd) -> (extras: UserExtras)
        ensures
            extras.change == passwd.pw_change,
            extras.expire == passwd.pw_expire,
            extras.extras.home_dir@ == spec_from_raw_buf(passwd.pw_dir@),
            extras.extras.shell@ == spec_from_raw_buf(passwd.pw_shell@),
            extras.extras.password@ == spec_from_raw_buf(passwd.pw_passwd@),
    {
        UserExtras {
            change: passwd.pw_change,
            expire: passwd.pw_expire,
            extras: super::unix::UserExtras::from_passwd(passwd),
        }
    }
}

/// BSD-specific accessors for `User`s.
pub trait UserExt {
    /// Returns this user's password change timestamp.
    fn password_change_time(&self) -> time_t;

    /// Returns this user's password expiry timestamp.
    fn password_expire_time(&self) -> time_t;
}

impl Default for UserExtras {
    fn default() -> (extras: UserExtras)
        ensures
            extras.extras.home_dir@ == "/var/empty"@,
            extras.extras.shell@ == "/bin/false"@,
            extras.extras.password@ == "*"@,
            extras.change == 0,
            extras.expire == 0,
    {
        UserExtras { extras: super::unix::UserExtras::default(), change: 0, expire: 0 }
    }
}

} // verus!
