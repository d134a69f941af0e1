//! The lookups that every source of users and groups offers.

use std::sync::Arc;
use vstd::prelude::*;
use crate::base::{Group, User};
use crate::{gid_t, uid_t};

verus! {

/// Trait for producers of users.
pub trait Users {
    /// Returns a `User` if one exists for the given user ID; otherwise,
    /// returns `None`.
    fn get_user_by_uid(&mut self, uid: uid_t) -> Option<Arc<User>>;

    /// Returns a `User` if one exists for the given username; otherwise,
    /// returns `None`.
    fn get_user_by_name(&mut self, username: &str) -> Option<Arc<User>>;

    /// Returns the user ID for the user running the process.
    fn get_current_uid(&mut self) -> uid_t;

    /// Returns the username of the user running the process.
    fn get_current_username(&mut self) -> Option<Arc<String>>;

    /// Returns the effective user ID.
    fn get_effective_uid(&mut self) -> uid_t;

    /// Returns the effective username.
    fn get_effective_username(&mut self) -> Option<Arc<String>>;
}

/// Trait for producers of groups.
pub trait Groups {
    /// Returns a `Group` if one exists for the given group ID; otherwise,
    /// returns `None`.
    fn get_group_by_gid(&mut self, gid: gid_t) -> Option<Arc<Group>>;

    /// Returns a `Group` if one exists for the given group name; otherwise,
    /// returns `None`.
    fn get_group_by_name(&mut self, group_name: &str) -> Option<Arc<Group>>;

    /// Returns the group ID for the user running the process.
    fn get_current_gid(&mut self) -> gid_t;

    /// Returns the group name of the user running the process.
    fn get_current_groupname(&mut self) -> Option<Arc<String>>;

    /// Returns the effective group id.
    fn get_effective_gid(&mut self) -> gid_t;

    /// Returns the effective group name.
    fn get_effective_groupname(&mut self) -> Option<Arc<String>>;
}

} // verus!
