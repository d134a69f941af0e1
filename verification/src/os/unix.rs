//! Extensions to users and groups for Unix platforms.

use vstd::prelude::*;
use crate::raw::{c_group, c_passwd, from_raw_buf, members, spec_from_raw_buf, spec_members};

verus! {

/// Unix-specific extensions for `User`s.
pub trait UserExt: Sized {
    /// Returns a path to this user's home directory.
    fn home_dir(&self) -> &str;

    /// Sets this user value's home directory to the given string.
    /// Can be used to construct test users, which by default come with a
    /// dummy home directory string.
    fn with_home_dir(self, home_dir: &str) -> Self;

    /// Returns a path to this user's shell.
    fn shell(&self) -> &str;

    /// Sets this user's shell path to the given string.
    /// Can be used to construct test users, which by default come with a
    /// dummy shell field.
    fn with_shell(self, shell: &str) -> Self;

    /// Returns the user's encrypted password.
    fn password(&self) -> &str;

    /// Sets this user's password to the given string.
    /// Can be used to construct tests users, which by default come with a
    /// dummy password field.
    fn with_password(self, password: &str) -> Self;
}

/// Unix-specific extensions for `Group`s.
pub trait GroupExt: Sized {
    /// Returns a slice of the list of users that are in this group as
    /// their non-primary group.
    fn members(&self) -> &[String];

    /// Adds a new member to this group.
    fn add_member(self, name: &str) -> Self;
}

/// Unix-specific fields for `User`s.
#[derive(Clone, Debug)]
pub struct UserExtras {
    /// The path to the user's home directory.
    pub home_dir: String,
    /// The path to the user's shell.
    pub shell: String,
    /// The user's encrypted password.
    pub password: String,
}

impl Default for UserExtras {
    fn default() -> (extras: UserExtras)
        ensures
            extras.home_dir@ == "/var/empty"@,
            extras.shell@ == "/bin/false"@,
            extras.password@ == "*"@,
    {
        UserExtras {
            home_dir: "/var/empty".to_owned(),
            shell: "/bin/false".to_owned(),
            password: "*".to_owned(),
        }
    }
}

impl UserExtras {
    /// Extract the OS-specific fields from the `passwd` entry that was just
    /// read.
    pub fn from_passwd(passwd: c_passwd) -> (extras: UserExtras)
        ensures
            extras.home_dir@ == spec_from_raw_buf(passwd.pw_dir@),
            extras.shell@ == spec_from_raw_buf(passwd.pw_shell@),
            extras.password@ == spec_from_raw_buf(passwd.pw_passwd@),
    {
        let home_dir = from_raw_buf(passwd.pw_dir.as_slice());
        let shell = from_raw_buf(passwd.pw_shell.as_slice());
        let password = from_raw_buf(passwd.pw_passwd.as_slice());
        UserExtras { home_dir, shell, password }
    }
}

/// Unix-specific fields for `Group`s.
#[derive(Clone, Debug)]
pub struct GroupExtras {
    /// Vector of usernames that are members of this group.
    pub members: Vec<String>,
}

impl Default for GroupExtras {
    fn default() -> (extras: GroupExtras)
        ensures
            extras.members@.len() == 0,
    {
        GroupExtras { members: Vec::new() }
    }
}

impl GroupExtras {
    /// Extract the OS-specific fields from the `group` entry that was just
    /// read.
    pub fn from_struct(group: c_group) -> (extras: GroupExtras)
        ensures
            extras.members.deep_view() == spec_members(group.gr_mem.deep_view()),
    {
        GroupExtras { members: members(&group.gr_mem) }
    }
}

} // verus!
