//! Mockable users and groups.
//!
//! When you're testing your code, you don't want to actually rely on the
//! system actually having various users and groups present - it's much better
//! to have a custom set of users that are *guaranteed* to be there, so you can
//! test against them.
//!
//! [`MockUsers`] is a table of users and groups that answers the lookups of
//! the [`Users`] and [`Groups`] traits by itself.  The only thing it needs to
//! know in advance is the UID of the current user; aside from that, you add
//! users and groups with `add_user` and `add_group`.
//!
//! A search by name follows the rule of every search by name in this crate:
//! a name that holds a null character finds nobody, even where the table
//! holds an entry of that name.

use std::collections::HashMap;
use std::sync::Arc;
use vstd::prelude::*;
use crate::base::{group_name, share, user_name, Group, GroupView, User, UserView};
use crate::host::{is_c_name, lemma_c_name_bytes};
use crate::raw::{has_nul, str_eq};
use crate::traits::{Groups, Users};
use crate::{gid_t, uid_t};

pub mod host;

verus! {

broadcast use vstd::std_specs::hash::group_hash_axioms;

/// A mocking users object that you can add your own users and groups to.
pub struct MockUsers {
    users: HashMap<uid_t, Arc<User>>,
    groups: HashMap<gid_t, Arc<Group>>,
    uid: uid_t,
}

/// Mathematical value of a `MockUsers`: its two tables and the ID that it
/// reports as the current one.
pub struct MockUsersView {
    pub users: Map<uid_t, UserView>,
    pub groups: Map<gid_t, GroupView>,
    pub uid: uid_t,
}

impl View for MockUsers {
    type V = MockUsersView;

    closed spec fn view(&self) -> MockUsersView {
        MockUsersView {
            users: self.users@.map_values(|user: Arc<User>| user@),
            groups: self.groups@.map_values(|group: Arc<Group>| group@),
            uid: self.uid,
        }
    }
}

impl MockUsersView {
    /// The user with the ID `uid`.
    pub open spec fn user(self, uid: uid_t) -> Option<UserView> {
        if self.users.contains_key(uid) {
            Some(self.users[uid])
        } else {
            None
        }
    }

    /// The group with the ID `gid`.
    pub open spec fn group(self, gid: gid_t) -> Option<GroupView> {
        if self.groups.contains_key(gid) {
            Some(self.groups[gid])
        } else {
            None
        }
    }

    /// Whether `user` is what a search for the name `name`, which holds no
    /// null character, may answer: a user of the table with that name, or
    /// `None` where the table holds none.  Where several users share the
    /// name, any of them may be the answer.
    pub open spec fn user_named(self, name: Seq<char>, user: Option<UserView>) -> bool {
        match user {
            Some(found) => found.name == name && exists|uid: uid_t| #[trigger]
                self.users.contains_key(uid) && self.users[uid] == found,
            None => forall|uid: uid_t| #[trigger]
                self.users.contains_key(uid) ==> self.users[uid].name != name,
        }
    }

    /// Whether `group` is what a search for the name `name`, which holds no
    /// null character, may answer.
    pub open spec fn group_named(self, name: Seq<char>, group: Option<GroupView>) -> bool {
        match group {
            Some(found) => found.name == name && exists|gid: gid_t| #[trigger]
                self.groups.contains_key(gid) && self.groups[gid] == found,
            None => forall|gid: gid_t| #[trigger]
                self.groups.contains_key(gid) ==> self.groups[gid].name != name,
        }
    }

    /// Every user is filed under its own ID, and every group under its own.
    pub open spec fn keyed(self) -> bool {
        &&& forall|uid: uid_t| #[trigger]
            self.users.contains_key(uid) ==> self.users[uid].uid == uid
        &&& forall|gid: gid_t| #[trigger]
            self.groups.contains_key(gid) ==> self.groups[gid].gid == gid
    }
}

impl MockUsers {
    /// Create a new, empty mock users object.
    pub fn with_current_uid(current_uid: uid_t) -> (mock: MockUsers)
        ensures
            mock@.users == Map::<uid_t, UserView>::empty(),
            mock@.groups == Map::<gid_t, GroupView>::empty(),
            mock@.uid == current_uid,
            mock@.keyed(),
    {
        let mock = MockUsers { users: HashMap::new(), groups: HashMap::new(), uid: current_uid };
        assert(mock@.users =~= Map::<uid_t, UserView>::empty());
        assert(mock@.groups =~= Map::<gid_t, GroupView>::empty());
        mock
    }

    /// Add a user to the users table.  Returns the user that the table held
    /// under the same ID before, if there was one.
    pub fn add_user(&mut self, user: User) -> (former: Option<Arc<User>>)
        ensures
            final(self)@ == (MockUsersView {
                users: old(self)@.users.insert(user@.uid, user@),
                ..old(self)@
            }),
            former.deep_view() == old(self)@.user(user@.uid),
            old(self)@.keyed() ==> final(self)@.keyed(),
    {
        let uid = user.uid();
        let former = self.users.insert(uid, Arc::new(user));
        assert(self@.users =~= old(self)@.users.insert(user@.uid, user@));
        former
    }

    /// Add a group to the groups table.  Returns the group that the table
    /// held under the same ID before, if there was one.
    pub fn add_group(&mut self, group: Group) -> (former: Option<Arc<Group>>)
        ensures
            final(self)@ == (MockUsersView {
                groups: old(self)@.groups.insert(group@.gid, group@),
                ..old(self)@
            }),
            former.deep_view() == old(self)@.group(group@.gid),
            old(self)@.keyed() ==> final(self)@.keyed(),
    {
        let gid = group.gid();
        let former = self.groups.insert(gid, Arc::new(group));
        assert(self@.groups =~= old(self)@.groups.insert(group@.gid, group@));
        former
    }

    /// The shared handle of the user with the ID `uid`.
    fn user(&self, uid: uid_t) -> (user: Option<Arc<User>>)
        ensures
            user.deep_view() == self@.user(uid),
    {
        match self.users.get(&uid) {
            Some(user) => Some(share(user)),
            None => None,
        }
    }

    /// The shared handle of the group with the ID `gid`.
    fn group(&self, gid: gid_t) -> (group: Option<Arc<Group>>)
        ensures
            group.deep_view() == self@.group(gid),
    {
        match self.groups.get(&gid) {
            Some(group) => Some(share(group)),
            None => None,
        }
    }
}

impl Users for MockUsers {
    fn get_user_by_uid(&mut self, uid: uid_t) -> (user: Option<Arc<User>>)
        ensures
            *final(self) == *old(self),
            user.deep_view() == old(self)@.user(uid),
    {
        self.user(uid)
    }

    /// A name that holds a null character finds nobody, whatever the table
    /// holds.
    fn get_user_by_name(&mut self, username: &str) -> (user: Option<Arc<User>>)
        ensures
            *final(self) == *old(self),
            !is_c_name(username@) ==> user is None,
            is_c_name(username@) ==> old(self)@.user_named(username@, user.deep_view()),
    {
        proof {
            lemma_c_name_bytes(username@);
        }
        if has_nul(username.as_bytes()) {
            return None;
        }
        let ghost table = self.users@;
        for user in it: self.users.values()
            invariant
                is_c_name(username@),
                table == self.users@,
                *self == *old(self),
                forall|i: int| 0 <= i < it.index() ==> it.seq()[i]@.name != username@,
        {
            assert(user == it.seq()[it.index()]);
            if str_eq(user.name(), username) {
                proof {
                    assert(table.values().contains(*user));
                    let uid = choose|uid: uid_t| table.contains_key(uid) && table[uid] == *user;
                    assert(self@.users.contains_key(uid) && self@.users[uid] == user@);
                }
                return Some(share(user));
            }
        }
        proof {
            assert forall|uid: uid_t| #[trigger]
                self@.users.contains_key(uid) implies self@.users[uid].name
                != username@ by {
                assert(table.values().contains(table[uid]));
            }
        }
        None
    }

    fn get_current_uid(&mut self) -> (uid: uid_t)
        ensures
            *final(self) == *old(self),
            uid == old(self)@.uid,
    {
        self.uid
    }

    fn get_current_username(&mut self) -> (name: Option<Arc<String>>)
        ensures
            *final(self) == *old(self),
            name.deep_view() == user_name(old(self)@.user(old(self)@.uid)),
    {
        match self.users.get(&self.uid) {
            Some(user) => Some(user.name_arc()),
            None => None,
        }
    }

    fn get_effective_uid(&mut self) -> (uid: uid_t)
        ensures
            *final(self) == *old(self),
            uid == old(self)@.uid,
    {
        self.uid
    }

    fn get_effective_username(&mut self) -> (name: Option<Arc<String>>)
        ensures
            *final(self) == *old(self),
            name.deep_view() == user_name(old(self)@.user(old(self)@.uid)),
    {
        match self.users.get(&self.uid) {
            Some(user) => Some(user.name_arc()),
            None => None,
        }
    }
}

impl Groups for MockUsers {
    fn get_group_by_gid(&mut self, gid: gid_t) -> (group: Option<Arc<Group>>)
        ensures
            *final(self) == *old(self),
            group.deep_view() == old(self)@.group(gid),
    {
        self.group(gid)
    }

    /// A name that holds a null character finds no group, whatever the
    /// table holds.
    fn get_group_by_name(&mut self, group_name: &str) -> (group: Option<Arc<Group>>)
        ensures
            *final(self) == *old(self),
            !is_c_name(group_name@) ==> group is None,
            is_c_name(group_name@) ==> old(self)@.group_named(group_name@, group.deep_view()),
    {
        proof {
            lemma_c_name_bytes(group_name@);
        }
        if has_nul(group_name.as_bytes()) {
            return None;
        }
        let ghost table = self.groups@;
        for group in it: self.groups.values()
            invariant
                is_c_name(group_name@),
                table == self.groups@,
                *self == *old(self),
                forall|i: int| 0 <= i < it.index() ==> it.seq()[i]@.name != group_name@,
        {
            assert(group == it.seq()[it.index()]);
            if str_eq(group.name(), group_name) {
                proof {
                    assert(table.values().contains(*group));
                    let gid = choose|gid: gid_t| table.contains_key(gid) && table[gid] == *group;
                    assert(self@.groups.contains_key(gid) && self@.groups[gid] == group@);
                }
                return Some(share(group));
            }
        }
        proof {
            assert forall|gid: gid_t| #[trigger]
                self@.groups.contains_key(gid) implies self@.groups[gid].name
                != group_name@ by {
                assert(table.values().contains(table[gid]));
            }
        }
        None
    }

    /// The mock has one ID for the process: the group ID that it reports is
    /// the current user ID.
    fn get_current_gid(&mut self) -> (gid: gid_t)
        ensures
            *final(self) == *old(self),
            gid == old(self)@.uid,
    {
        self.uid
    }

    fn get_current_groupname(&mut self) -> (name: Option<Arc<String>>)
        ensures
            *final(self) == *old(self),
            name.deep_view() == group_name(old(self)@.group(old(self)@.uid)),
    {
        match self.groups.get(&self.uid) {
            Some(group) => Some(group.name_arc()),
            None => None,
        }
    }

    fn get_effective_gid(&mut self) -> (gid: gid_t)
        ensures
            *final(self) == *old(self),
            gid == old(self)@.uid,
    {
        self.uid
    }

    fn get_effective_groupname(&mut self) -> (name: Option<Arc<String>>)
        ensures
            *final(self) == *old(self),
            name.deep_view() == group_name(old(self)@.group(old(self)@.uid)),
    {
        match self.groups.get(&self.uid) {
            Some(group) => Some(group.name_arc()),
            None => None,
        }
    }
}

} // verus!
