//! OS-specific extensions to users and groups.
//!
//! Every OS has a different idea of what data a user or a group comes with.
//! Although they all provide a *username*, some hosts keep a home directory, a
//! shell or timestamps with each user.  The traits of this module give access
//! to that data.
//!
//! A record carries the fields of every family of hosts: one read from a host
//! that keeps no password timestamps reports zero for both.

use vstd::prelude::*;

pub mod bsd;
pub mod unix;

verus! {

/// Any extra fields on a `User`.
pub type UserExtras = bsd::UserExtras;

/// Any extra fields on a `Group`.
pub type GroupExtras = unix::GroupExtras;

} // verus!
