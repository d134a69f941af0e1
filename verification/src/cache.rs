//! A cache for users and groups provided by the OS.
//!
//! The users and groups database rarely changes.  While a short program may
//! only need to get user information once, a long-running one may need to
//! re-query the database many times, and a medium-length one may get away
//! with caching the values to save on redundant system calls.
//!
//! For this reason, this module offers a caching interface to the database,
//! which offers the same functionality while holding on to every result,
//! caching the information so it can be re-used.
//!
//! The cache is **only additive**: an answer that it has once given, found or
//! not found, is never asked of the host again, and never dropped.  When the
//! database may have been modified, start afresh with a new cache.
//!
//! Users are filed by ID, and their names point to their IDs; groups
//! likewise.  A search that finds a user files it under its ID and points its
//! name to that ID, whichever of the two was searched for.

use std::collections::HashMap;
use std::sync::Arc;
use vstd::hash_map::StringHashMap;
use vstd::prelude::*;
use crate::base::{
    asked_group_by_gid, asked_group_by_name, asked_user_by_name, asked_user_by_uid, group_name,
    share, user_name, Group, GroupView, User, UserView,
};
use crate::host::{added, grown_by, is_c_name, lemma_c_name_bytes, Event, Host, Traced};
use crate::raw::has_nul;
use crate::traits::{Groups, Users};
use crate::{gid_t, uid_t};

pub mod laws;

verus! {

broadcast use vstd::std_specs::hash::group_hash_axioms;

/// One of the four IDs of the process.
pub enum Identity {
    /// The real user ID.
    CurrentUser,
    /// The effective user ID.
    EffectiveUser,
    /// The real group ID.
    CurrentGroup,
    /// The effective group ID.
    EffectiveGroup,
}

/// Mathematical value of a `UsersCache`: what it has learned so far.
///
/// A key that a map holds is resolved: to `Some`, where the search found
/// something, or to `None`, where it did not.  A key that a map does not hold
/// has not been searched for yet.
pub struct CacheView {
    /// The users that were searched for, by ID.
    pub users: Map<uid_t, Option<UserView>>,
    /// The user names that were searched for or found, each with the ID
    /// under which its user is filed.
    pub user_ids: Map<Seq<char>, Option<uid_t>>,
    /// The groups that were searched for, by ID.
    pub groups: Map<gid_t, Option<GroupView>>,
    /// The group names that were searched for or found, each with the ID
    /// under which its group is filed.
    pub group_ids: Map<Seq<char>, Option<gid_t>>,
    /// The real user ID, once read.
    pub uid: Option<uid_t>,
    /// The real group ID, once read.
    pub gid: Option<gid_t>,
    /// The effective user ID, once read.
    pub euid: Option<uid_t>,
    /// The effective group ID, once read.
    pub egid: Option<gid_t>,
}

impl CacheView {
    /// The cache that has learned nothing.
    pub open spec fn empty() -> CacheView {
        CacheView {
            users: Map::empty(),
            user_ids: Map::empty(),
            groups: Map::empty(),
            group_ids: Map::empty(),
            uid: None,
            gid: None,
            euid: None,
            egid: None,
        }
    }

    /// The user filed under `uid`, if one is.
    pub open spec fn user(self, uid: uid_t) -> Option<UserView> {
        if self.users.contains_key(uid) {
            self.users[uid]
        } else {
            None
        }
    }

    /// The group filed under `gid`, if one is.
    pub open spec fn group(self, gid: gid_t) -> Option<GroupView> {
        if self.groups.contains_key(gid) {
            self.groups[gid]
        } else {
            None
        }
    }

    /// The user that the resolved name `name` leads to.
    pub open spec fn user_of_name(self, name: Seq<char>) -> Option<UserView> {
        match self.user_ids[name] {
            Some(uid) => self.user(uid),
            None => None,
        }
    }

    /// The group that the resolved name `name` leads to.
    pub open spec fn group_of_name(self, name: Seq<char>) -> Option<GroupView> {
        match self.group_ids[name] {
            Some(gid) => self.group(gid),
            None => None,
        }
    }

    /// The ID of the process that was read and kept.
    pub open spec fn memo(self, which: Identity) -> Option<u32> {
        match which {
            Identity::CurrentUser => self.uid,
            Identity::EffectiveUser => self.euid,
            Identity::CurrentGroup => self.gid,
            Identity::EffectiveGroup => self.egid,
        }
    }

    /// This cache, with `id` kept as an ID of the process.
    pub open spec fn remember(self, which: Identity, id: u32) -> CacheView {
        match which {
            Identity::CurrentUser => CacheView { uid: Some(id), ..self },
            Identity::EffectiveUser => CacheView { euid: Some(id), ..self },
            Identity::CurrentGroup => CacheView { gid: Some(id), ..self },
            Identity::EffectiveGroup => CacheView { egid: Some(id), ..self },
        }
    }

    /// This cache, after a search for the ID `uid` that ended in `user`: the
    /// answer is filed under the ID, and the name of a user that was found
    /// points to the ID.
    pub open spec fn file_user_by_uid(self, uid: uid_t, user: Option<UserView>) -> CacheView {
        CacheView {
            users: self.users.insert(uid, user),
            user_ids: match user {
                Some(found) => self.user_ids.insert(found.name, Some(uid)),
                None => self.user_ids,
            },
            ..self
        }
    }

    /// This cache, after a search for the name `name` that ended in `user`:
    /// the name points to the ID of a user that was found, which is filed
    /// under that ID; a name that was not found is kept as such.
    pub open spec fn file_user_by_name(self, name: Seq<char>, user: Option<UserView>) -> CacheView {
        match user {
            Some(found) => CacheView {
                users: self.users.insert(found.uid, Some(found)),
                user_ids: self.user_ids.insert(name, Some(found.uid)),
                ..self
            },
            None => CacheView { user_ids: self.user_ids.insert(name, None), ..self },
        }
    }

    /// This cache, after a search for the ID `gid` that ended in `group`.
    pub open spec fn file_group_by_gid(self, gid: gid_t, group: Option<GroupView>) -> CacheView {
        CacheView {
            groups: self.groups.insert(gid, group),
            group_ids: match group {
                Some(found) => self.group_ids.insert(found.name, Some(gid)),
                None => self.group_ids,
            },
            ..self
        }
    }

    /// This cache, after a search for the name `name` that ended in `group`.
    pub open spec fn file_group_by_name(self, name: Seq<char>, group: Option<GroupView>) -> CacheView {
        match group {
            Some(found) => CacheView {
                groups: self.groups.insert(found.gid, Some(found)),
                group_ids: self.group_ids.insert(name, Some(found.gid)),
                ..self
            },
            None => CacheView { group_ids: self.group_ids.insert(name, None), ..self },
        }
    }

    /// The two indexes agree: whoever is filed under an ID has that ID, and
    /// a name that points to an ID points to somebody.
    pub open spec fn consistent(self) -> bool {
        &&& forall|uid: uid_t| #[trigger]
            self.users.contains_key(uid) ==> match self.users[uid] {
                Some(user) => user.uid == uid,
                None => true,
            }
        &&& forall|name: Seq<char>| #[trigger]
            self.user_ids.contains_key(name) ==> match self.user_ids[name] {
                Some(uid) => self.user(uid) is Some,
                None => true,
            }
        &&& forall|gid: gid_t| #[trigger]
            self.groups.contains_key(gid) ==> match self.groups[gid] {
                Some(group) => group.gid == gid,
                None => true,
            }
        &&& forall|name: Seq<char>| #[trigger]
            self.group_ids.contains_key(name) ==> match self.group_ids[name] {
                Some(gid) => self.group(gid) is Some,
                None => true,
            }
    }
}

impl CacheView {
    /// Every name that points to an ID is the name of the user or group
    /// that is filed under that ID.
    pub open spec fn well_named(self) -> bool {
        &&& forall|name: Seq<char>| #[trigger]
            self.user_ids.contains_key(name) ==> match self.user_of_name(name) {
                Some(user) => user.name == name,
                None => true,
            }
        &&& forall|name: Seq<char>| #[trigger]
            self.group_ids.contains_key(name) ==> match self.group_of_name(name) {
                Some(group) => group.name == name,
                None => true,
            }
    }
}

/// The call that reads one of the IDs of the process, with its answer.
pub open spec fn id_event(which: Identity, id: u32) -> Event {
    match which {
        Identity::CurrentUser => Event::GetUid(id),
        Identity::EffectiveUser => Event::GetEuid(id),
        Identity::CurrentGroup => Event::GetGid(id),
        Identity::EffectiveGroup => Event::GetEgid(id),
    }
}

/// What a search of the cache for the user `uid` does.  An ID that is
/// resolved is answered from the cache, and neither the cache nor the host
/// is touched.  For any other ID the host is asked once, and the answer is
/// filed.
pub open spec fn user_by_uid_step(
    pre: CacheView,
    before: Seq<Event>,
    uid: uid_t,
    post: CacheView,
    after: Seq<Event>,
    user: Option<UserView>,
) -> bool {
    if pre.users.contains_key(uid) {
        post == pre && after == before && user == pre.users[uid]
    } else {
        asked_user_by_uid(before, after, uid, user) && post == pre.file_user_by_uid(uid, user)
    }
}

/// What a search of the cache for the user `name` does.  A name with a null
/// character finds nobody, and neither the cache nor the host is touched.
/// A name that is resolved is answered from the cache: with whoever
/// is filed under the ID that it points to.  For any other name the host is
/// asked once, and the answer is filed.
pub open spec fn user_by_name_step(
    pre: CacheView,
    before: Seq<Event>,
    name: Seq<char>,
    post: CacheView,
    after: Seq<Event>,
    user: Option<UserView>,
) -> bool {
    if !is_c_name(name) {
        post == pre && after == before && user is None
    } else if pre.user_ids.contains_key(name) {
        post == pre && after == before && user == pre.user_of_name(name)
    } else {
        asked_user_by_name(before, after, name, user) && post == pre.file_user_by_name(name, user)
    }
}

/// What a search of the cache for the group `gid` does.
pub open spec fn group_by_gid_step(
    pre: CacheView,
    before: Seq<Event>,
    gid: gid_t,
    post: CacheView,
    after: Seq<Event>,
    group: Option<GroupView>,
) -> bool {
    if pre.groups.contains_key(gid) {
        post == pre && after == before && group == pre.groups[gid]
    } else {
        asked_group_by_gid(before, after, gid, group) && post == pre.file_group_by_gid(gid, group)
    }
}

/// What a search of the cache for the group `name` does.
pub open spec fn group_by_name_step(
    pre: CacheView,
    before: Seq<Event>,
    name: Seq<char>,
    post: CacheView,
    after: Seq<Event>,
    group: Option<GroupView>,
) -> bool {
    if !is_c_name(name) {
        post == pre && after == before && group is None
    } else if pre.group_ids.contains_key(name) {
        post == pre && after == before && group == pre.group_of_name(name)
    } else {
        asked_group_by_name(before, after, name, group) && post == pre.file_group_by_name(
            name,
            group,
        )
    }
}

/// What a read of one of the IDs of the process does.  An ID that was read
/// before is answered from the cache.  Else the host is asked once, and the
/// answer is kept.
pub open spec fn id_step(
    which: Identity,
    pre: CacheView,
    before: Seq<Event>,
    post: CacheView,
    after: Seq<Event>,
    id: u32,
) -> bool {
    match pre.memo(which) {
        Some(kept) => post == pre && after == before && id == kept,
        None => after == before.push(id_event(which, id)) && post == pre.remember(which, id),
    }
}

/// The ID that a read of one of the IDs of the process answers with, from
/// the cache before it and the calls that it made.
pub open spec fn id_read(which: Identity, pre: CacheView, before: Seq<Event>, after: Seq<Event>) -> u32 {
    match pre.memo(which) {
        Some(kept) => kept,
        None => match added(before, after, 0) {
            Event::GetUid(id) => id,
            Event::GetEuid(id) => id,
            Event::GetGid(id) => id,
            Event::GetEgid(id) => id,
            _ => 0,
        },
    }
}

/// The calls made once a read of one of the IDs of the process is over.
pub open spec fn id_read_calls(
    which: Identity,
    pre: CacheView,
    before: Seq<Event>,
    after: Seq<Event>,
) -> Seq<Event> {
    match pre.memo(which) {
        Some(_) => before,
        None => after.take(before.len() + 1 as int),
    }
}

/// What a search for the name of the real or the effective user does: a read
/// of that ID, then a search of the cache for the user with that ID.  `name`
/// is the name of the user that was found.
pub open spec fn username_step(
    which: Identity,
    pre: CacheView,
    before: Seq<Event>,
    post: CacheView,
    after: Seq<Event>,
    name: Option<Seq<char>>,
) -> bool {
    let uid = id_read(which, pre, before, after);
    let between = id_read_calls(which, pre, before, after);
    let mid = pre.remember(which, uid);
    &&& id_step(which, pre, before, mid, between, uid)
    &&& user_by_uid_step(mid, between, uid, post, after, post.user(uid))
    &&& name == user_name(post.user(uid))
}

/// What a search for the name of the real or the effective group does: a
/// read of that ID, then a search of the cache for the group with that ID.
/// `name` is the name of the group that was found.
pub open spec fn groupname_step(
    which: Identity,
    pre: CacheView,
    before: Seq<Event>,
    post: CacheView,
    after: Seq<Event>,
    name: Option<Seq<char>>,
) -> bool {
    let gid = id_read(which, pre, before, after);
    let between = id_read_calls(which, pre, before, after);
    let mid = pre.remember(which, gid);
    &&& id_step(which, pre, before, mid, between, gid)
    &&& group_by_gid_step(mid, between, gid, post, after, post.group(gid))
    &&& name == group_name(post.group(gid))
}

/// A producer of user and group instances that caches every result.
pub struct UsersCache<H: Host> {
    host: Traced<H>,
    users_forward: HashMap<uid_t, Option<Arc<User>>>,
    users_backward: StringHashMap<Option<uid_t>>,
    groups_forward: HashMap<gid_t, Option<Arc<Group>>>,
    groups_backward: StringHashMap<Option<gid_t>>,
    uid: Option<uid_t>,
    gid: Option<gid_t>,
    euid: Option<uid_t>,
    egid: Option<gid_t>,
}

impl<H: Host> View for UsersCache<H> {
    type V = CacheView;

    closed spec fn view(&self) -> CacheView {
        CacheView {
            users: self.users_forward@.map_values(|user: Option<Arc<User>>| user.deep_view()),
            user_ids: self.users_backward@,
            groups: self.groups_forward@.map_values(|group: Option<Arc<Group>>| group.deep_view()),
            group_ids: self.groups_backward@,
            uid: self.uid,
            gid: self.gid,
            euid: self.euid,
            egid: self.egid,
        }
    }
}

impl<H: Host> UsersCache<H> {
    /// The calls made to the host of this cache.
    pub closed spec fn history(&self) -> Seq<Event> {
        self.host.history()
    }

    /// Creates a new empty cache over `host`.
    pub fn new(host: Traced<H>) -> (cache: UsersCache<H>)
        ensures
            cache@ == CacheView::empty(),
            cache.history() == host.history(),
    {
        let cache = UsersCache {
            host,
            users_forward: HashMap::new(),
            users_backward: StringHashMap::new(),
            groups_forward: HashMap::new(),
            groups_backward: StringHashMap::new(),
            uid: None,
            gid: None,
            euid: None,
            egid: None,
        };
        assert(cache@.users =~= Map::<uid_t, Option<UserView>>::empty());
        assert(cache@.groups =~= Map::<gid_t, Option<GroupView>>::empty());
        cache
    }

    /// The host of this cache.
    pub fn host(&self) -> (host: &Traced<H>)
        ensures
            host.history() == self.history(),
    {
        &self.host
    }

    /// Gives up the cache and hands the host back.
    pub fn into_host(self) -> (host: Traced<H>)
        ensures
            host.history() == self.history(),
    {
        self.host
    }

    /// Reads one of the IDs of the process, from the cache if it was read
    /// before.
    fn identity(&mut self, which: Identity) -> (id: u32)
        ensures
            id_step(which, old(self)@, old(self).history(), final(self)@, final(self).history(), id),
    {
        match which {
            Identity::CurrentUser => match self.uid {
                Some(id) => id,
                None => {
                    let id = self.host.getuid();
                    self.uid = Some(id);
                    id
                },
            },
            Identity::EffectiveUser => match self.euid {
                Some(id) => id,
                None => {
                    let id = self.host.geteuid();
                    self.euid = Some(id);
                    id
                },
            },
            Identity::CurrentGroup => match self.gid {
                Some(id) => id,
                None => {
                    let id = self.host.getgid();
                    self.gid = Some(id);
                    id
                },
            },
            Identity::EffectiveGroup => match self.egid {
                Some(id) => id,
                None => {
                    let id = self.host.getegid();
                    self.egid = Some(id);
                    id
                },
            },
        }
    }
}

impl<H: Host> Users for UsersCache<H> {
    fn get_user_by_uid(&mut self, uid: uid_t) -> (user: Option<Arc<User>>)
        ensures
            user_by_uid_step(
                old(self)@,
                old(self).history(),
                uid,
                final(self)@,
                final(self).history(),
                user.deep_view(),
            ),
            old(self)@.consistent() ==> final(self)@.consistent(),
    {
        match self.users_forward.get(&uid) {
            Some(cached) => {
                return match cached {
                    Some(user) => Some(share(user)),
                    None => None,
                };
            },
            None => {},
        }
        match crate::base::get_user_by_uid(&mut self.host, uid) {
            Some(user) => {
                let name = user.name().to_owned();
                let user_arc = Arc::new(user);
                self.users_backward.insert(name, Some(uid));
                self.users_forward.insert(uid, Some(share(&user_arc)));
                assert(self@.users =~= old(self)@.users.insert(uid, Some(user_arc@)));
                Some(user_arc)
            },
            None => {
                self.users_forward.insert(uid, None);
                assert(self@.users =~= old(self)@.users.insert(uid, None));
                None
            },
        }
    }

    fn get_user_by_name(&mut self, username: &str) -> (user: Option<Arc<User>>)
        ensures
            user_by_name_step(
                old(self)@,
                old(self).history(),
                username@,
                final(self)@,
                final(self).history(),
                user.deep_view(),
            ),
            old(self)@.consistent() ==> final(self)@.consistent(),
    {
        proof {
            lemma_c_name_bytes(username@);
        }
        if has_nul(username.as_bytes()) {
            return None;
        }
        match self.users_backward.get(username) {
            Some(cached) => {
                return match cached {
                    Some(uid) => match self.users_forward.get(uid) {
                        Some(Some(user)) => Some(share(user)),
                        _ => None,
                    },
                    None => None,
                };
            },
            None => {},
        }
        match crate::base::get_user_by_name(&mut self.host, username) {
            Some(user) => {
                let uid = user.uid();
                let user_arc = Arc::new(user);
                self.users_forward.insert(uid, Some(share(&user_arc)));
                self.users_backward.insert(username.to_owned(), Some(uid));
                assert(self@.users =~= old(self)@.users.insert(uid, Some(user_arc@)));
                Some(user_arc)
            },
            None => {
                self.users_backward.insert(username.to_owned(), None);
                assert(self@.users =~= old(self)@.users);
                None
            },
        }
    }

    fn get_current_uid(&mut self) -> (uid: uid_t)
        ensures
            id_step(
                Identity::CurrentUser,
                old(self)@,
                old(self).history(),
                final(self)@,
                final(self).history(),
                uid,
            ),
            old(self)@.consistent() ==> final(self)@.consistent(),
    {
        self.identity(Identity::CurrentUser)
    }

    fn get_current_username(&mut self) -> (name: Option<Arc<String>>)
        ensures
            username_step(
                Identity::CurrentUser,
                old(self)@,
                old(self).history(),
                final(self)@,
                final(self).history(),
                name.deep_view(),
            ),
            old(self)@.consistent() ==> final(self)@.consistent(),
    {
        let uid = self.identity(Identity::CurrentUser);
        let ghost between = self.history();
        let user = self.get_user_by_uid(uid);
        proof {
            lemma_read_then_search(
                Identity::CurrentUser,
                old(self)@,
                old(self).history(),
                between,
                self.history(),
                uid,
            );
        }
        match user {
            Some(found) => Some(found.name_arc()),
            None => None,
        }
    }

    fn get_effective_uid(&mut self) -> (uid: uid_t)
        ensures
            id_step(
                Identity::EffectiveUser,
                old(self)@,
                old(self).history(),
                final(self)@,
                final(self).history(),
                uid,
            ),
            old(self)@.consistent() ==> final(self)@.consistent(),
    {
        self.identity(Identity::EffectiveUser)
    }

    fn get_effective_username(&mut self) -> (name: Option<Arc<String>>)
        ensures
            username_step(
                Identity::EffectiveUser,
                old(self)@,
                old(self).history(),
                final(self)@,
                final(self).history(),
                name.deep_view(),
            ),
            old(self)@.consistent() ==> final(self)@.consistent(),
    {
        let uid = self.identity(Identity::EffectiveUser);
        let ghost between = self.history();
        let user = self.get_user_by_uid(uid);
        proof {
            lemma_read_then_search(
                Identity::EffectiveUser,
                old(self)@,
                old(self).history(),
                between,
                self.history(),
                uid,
            );
        }
        match user {
            Some(found) => Some(found.name_arc()),
            None => None,
        }
    }
}

impl<H: Host> Groups for UsersCache<H> {
    fn get_group_by_gid(&mut self, gid: gid_t) -> (group: Option<Arc<Group>>)
        ensures
            group_by_gid_step(
                old(self)@,
                old(self).history(),
                gid,
                final(self)@,
                final(self).history(),
                group.deep_view(),
            ),
            old(self)@.consistent() ==> final(self)@.consistent(),
    {
        match self.groups_forward.get(&gid) {
            Some(cached) => {
                return match cached {
                    Some(group) => Some(share(group)),
                    None => None,
                };
            },
            None => {},
        }
        match crate::base::get_group_by_gid(&mut self.host, gid) {
            Some(group) => {
                let name = group.name().to_owned();
                let group_arc = Arc::new(group);
                self.groups_backward.insert(name, Some(gid));
                self.groups_forward.insert(gid, Some(share(&group_arc)));
                assert(self@.groups =~= old(self)@.groups.insert(gid, Some(group_arc@)));
                Some(group_arc)
            },
            None => {
                self.groups_forward.insert(gid, None);
                assert(self@.groups =~= old(self)@.groups.insert(gid, None));
                None
            },
        }
    }

    fn get_group_by_name(&mut self, group_name: &str) -> (group: Option<Arc<Group>>)
        ensures
            group_by_name_step(
                old(self)@,
                old(self).history(),
                group_name@,
                final(self)@,
                final(self).history(),
                group.deep_view(),
            ),
            old(self)@.consistent() ==> final(self)@.consistent(),
    {
        proof {
            lemma_c_name_bytes(group_name@);
        }
        if has_nul(group_name.as_bytes()) {
            return None;
        }
        match self.groups_backward.get(group_name) {
            Some(cached) => {
                return match cached {
                    Some(gid) => match self.groups_forward.get(gid) {
                        Some(Some(group)) => Some(share(group)),
                        _ => None,
                    },
                    None => None,
                };
            },
            None => {},
        }
        match crate::base::get_group_by_name(&mut self.host, group_name) {
            Some(group) => {
                let gid = group.gid();
                let group_arc = Arc::new(group);
                self.groups_forward.insert(gid, Some(share(&group_arc)));
                self.groups_backward.insert(group_name.to_owned(), Some(gid));
                assert(self@.groups =~= old(self)@.groups.insert(gid, Some(group_arc@)));
                Some(group_arc)
            },
            None => {
                self.groups_backward.insert(group_name.to_owned(), None);
                assert(self@.groups =~= old(self)@.groups);
                None
            },
        }
    }

    fn get_current_gid(&mut self) -> (gid: gid_t)
        ensures
            id_step(
                Identity::CurrentGroup,
                old(self)@,
                old(self).history(),
                final(self)@,
                final(self).history(),
                gid,
            ),
            old(self)@.consistent() ==> final(self)@.consistent(),
    {
        self.identity(Identity::CurrentGroup)
    }

    fn get_current_groupname(&mut self) -> (name: Option<Arc<String>>)
        ensures
            groupname_step(
                Identity::CurrentGroup,
                old(self)@,
                old(self).history(),
                final(self)@,
                final(self).history(),
                name.deep_view(),
            ),
            old(self)@.consistent() ==> final(self)@.consistent(),
    {
        let gid = self.identity(Identity::CurrentGroup);
        let ghost between = self.history();
        let group = self.get_group_by_gid(gid);
        proof {
            lemma_read_then_search(
                Identity::CurrentGroup,
                old(self)@,
                old(self).history(),
                between,
                self.history(),
                gid,
            );
        }
        match group {
            Some(found) => Some(found.name_arc()),
            None => None,
        }
    }

    fn get_effective_gid(&mut self) -> (gid: gid_t)
        ensures
            id_step(
                Identity::EffectiveGroup,
                old(self)@,
                old(self).history(),
                final(self)@,
                final(self).history(),
                gid,
            ),
            old(self)@.consistent() ==> final(self)@.consistent(),
    {
        self.identity(Identity::EffectiveGroup)
    }

    fn get_effective_groupname(&mut self) -> (name: Option<Arc<String>>)
        ensures
            groupname_step(
                Identity::EffectiveGroup,
                old(self)@,
                old(self).history(),
                final(self)@,
                final(self).history(),
                name.deep_view(),
            ),
            old(self)@.consistent() ==> final(self)@.consistent(),
    {
        let gid = self.identity(Identity::EffectiveGroup);
        let ghost between = self.history();
        let group = self.get_group_by_gid(gid);
        proof {
            lemma_read_then_search(
                Identity::EffectiveGroup,
                old(self)@,
                old(self).history(),
                between,
                self.history(),
                gid,
            );
        }
        match group {
            Some(found) => Some(found.name_arc()),
            None => None,
        }
    }
}

/// After a read of an ID that made the calls up to `between` and a search
/// that made the calls up to `after`, the ID and `between` can be told from
/// the first and the last history.
pub proof fn lemma_read_then_search(
    which: Identity,
    pre: CacheView,
    before: Seq<Event>,
    between: Seq<Event>,
    after: Seq<Event>,
    id: u32,
)
    requires
        pre.memo(which) is Some ==> between == before && id == pre.memo(which)->Some_0,
        pre.memo(which) is None ==> between == before.push(id_event(which, id)),
        after == between || grown_by(between, after, 1),
    ensures
        id_read(which, pre, before, after) == id,
        id_read_calls(which, pre, before, after) == between,
{
    if pre.memo(which) is None {
        assert(after.take(before.len() + 1 as int) =~= between);
        assert(added(before, after, 0) == between[before.len() as int]);
    }
}

} // verus!
