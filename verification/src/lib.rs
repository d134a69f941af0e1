//! This is a library for getting information on Unix users and groups.
//!
//! In Unix, each user has an individual *user ID*, and each process has an
//! *effective user ID* that says which user's permissions it is using.
//! Furthermore, users can be the members of *groups*, which also have names
//! and IDs.  This library reads both through a [`Host`], decides what to ask
//! of it and in which order, and copies its answers into [`User`] and
//! [`Group`] values that nothing shares with the host.
//!
//! It does not offer *editing* functionality; the values returned are
//! read-only.
//!
//! ## The host
//!
//! Nothing here talks to the operating system directly.  A [`Host`] is
//! whatever answers the few calls that the library makes; a program
//! implements it over its C library, a test over a table
//! ([`mock::host::MockHost`]).  The library takes a host wrapped in a
//! [`Traced`] value, which records every call made through it.  What the
//! functions of the library promise is stated over that record: which calls
//! they make, and what they make of the answers.
//!
//! ## Users
//!
//! [`get_current_uid`] returns the ID of the user that runs the program, and
//! [`get_user_by_uid`] searches the users database for a user with an ID.
//! It returns `None` when there is no user for that ID.
//!
//! IDs shouldn't be assumed to map to actual users and groups, and usernames
//! and group names aren't guaranteed to map either: a user may be deleted
//! while it is running a program.
//!
//! ## Caching
//!
//! The users and groups database rarely changes.  A [`UsersCache`] offers
//! the same searches through the [`Users`] and [`Groups`] traits and holds on
//! to every result, found or not found, so that the host is asked for each
//! ID and each name at most once.
//!
//! ## Groups
//!
//! Groups are searched for in the same manner.  The names of the members of
//! a group come in the order of the host, which may name a user more than
//! once.
//!
//! ## Switching
//!
//! [`switch::switch_user_group`] makes another user and group the effective
//! ones and returns a guard, which puts the former ones back.
//!
//! ## Mocking
//!
//! [`mock::MockUsers`] is a table of users and groups for the tests of a
//! program that is generic over [`Users`] and [`Groups`].

use vstd::prelude::*;

pub use crate::base::{all_users, get_user_groups, group_access_list, AllUsers, Group, User};
pub use crate::base::{get_current_gid, get_current_groupname};
pub use crate::base::{get_current_uid, get_current_username};
pub use crate::base::{get_effective_gid, get_effective_groupname};
pub use crate::base::{get_effective_uid, get_effective_username};
pub use crate::base::{get_group_by_gid, get_group_by_name};
pub use crate::base::{get_user_by_name, get_user_by_uid};
pub use crate::cache::UsersCache;
pub use crate::host::{Host, Traced};
pub use crate::traits::{Groups, Users};

pub mod base;
pub mod cache;
pub mod host;
pub mod mock;
pub mod os;
pub mod raw;
pub mod switch;
pub mod traits;

verus! {

/// Numeric user ID.
#[allow(non_camel_case_types)]
pub type uid_t = u32;

/// Numeric group ID.
#[allow(non_camel_case_types)]
pub type gid_t = u32;

/// Timestamp in seconds.
#[allow(non_camel_case_types)]
pub type time_t = i64;

/// Status or error code of a host call.
#[allow(non_camel_case_types)]
pub type c_int = i32;

} // verus!
