//! What holds of every cache, whatever the host answers.
//!
//! Each law is stated over the steps of the cache: the relations between the
//! cache and the history of its host before and after a search.  A law about
//! two searches takes the cache and the history between them as well.

use vstd::prelude::*;
use crate::base::{asked_group_by_name, asked_user_by_name, GroupView, UserView};
use crate::cache::{
    group_by_gid_step, group_by_name_step, groupname_step, id_event, id_read, id_read_calls,
    id_step, user_by_name_step, user_by_uid_step, username_step, CacheView, Identity,
};
use crate::host::{added, grown_by, is_c_name, Event};
use crate::{gid_t, uid_t};

verus! {

/// A user that a search of the host by name finds has the name that was
/// searched for.
pub proof fn lemma_asked_name_is_name(
    before: Seq<Event>,
    after: Seq<Event>,
    name: Seq<char>,
    user: UserView,
)
    requires
        asked_user_by_name(before, after, name, Some(user)),
    ensures
        user.name == name,
{
    vstd::utf8::encode_utf8_valid_utf8(name);
    vstd::utf8::encode_utf8_decode_utf8(name);
}

/// A group that a search of the host by name finds has the name that was
/// searched for.
pub proof fn lemma_asked_group_name_is_name(
    before: Seq<Event>,
    after: Seq<Event>,
    name: Seq<char>,
    group: GroupView,
)
    requires
        asked_group_by_name(before, after, name, Some(group)),
    ensures
        group.name == name,
{
    vstd::utf8::encode_utf8_valid_utf8(name);
    vstd::utf8::encode_utf8_decode_utf8(name);
}

/// A cache that has learned nothing is consistent and well named.
pub proof fn law_empty_cache_is_consistent()
    ensures
        CacheView::empty().consistent(),
        CacheView::empty().well_named(),
{
}

/// The two indexes never come to disagree: a search for a user by ID keeps
/// a consistent cache consistent.
pub proof fn law_user_by_uid_keeps_consistent(
    pre: CacheView,
    before: Seq<Event>,
    uid: uid_t,
    post: CacheView,
    after: Seq<Event>,
    user: Option<UserView>,
)
    requires
        pre.consistent(),
        user_by_uid_step(pre, before, uid, post, after, user),
    ensures
        post.consistent(),
{
    if !pre.users.contains_key(uid) {
        assert forall|name: Seq<char>| #[trigger]
            post.user_ids.contains_key(name) implies match post.user_ids[name] {
            Some(id) => post.user(id) is Some,
            None => true,
        } by {
            if pre.user_ids.contains_key(name) {
                assert(pre.user_ids[name] matches Some(id) ==> pre.user(id) is Some);
            }
        }
    }
}

/// A search for a user by name keeps a consistent cache consistent.
pub proof fn law_user_by_name_keeps_consistent(
    pre: CacheView,
    before: Seq<Event>,
    name: Seq<char>,
    post: CacheView,
    after: Seq<Event>,
    user: Option<UserView>,
)
    requires
        pre.consistent(),
        user_by_name_step(pre, before, name, post, after, user),
    ensures
        post.consistent(),
{
    if is_c_name(name) && !pre.user_ids.contains_key(name) {
        assert forall|other: Seq<char>| #[trigger]
            post.user_ids.contains_key(other) implies match post.user_ids[other] {
            Some(id) => post.user(id) is Some,
            None => true,
        } by {
            if pre.user_ids.contains_key(other) {
                assert(pre.user_ids[other] matches Some(id) ==> pre.user(id) is Some);
            }
        }
    }
}

/// A search for a group by ID keeps a consistent cache consistent.
pub proof fn law_group_by_gid_keeps_consistent(
    pre: CacheView,
    before: Seq<Event>,
    gid: gid_t,
    post: CacheView,
    after: Seq<Event>,
    group: Option<GroupView>,
)
    requires
        pre.consistent(),
        group_by_gid_step(pre, before, gid, post, after, group),
    ensures
        post.consistent(),
{
    if !pre.groups.contains_key(gid) {
        assert forall|name: Seq<char>| #[trigger]
            post.group_ids.contains_key(name) implies match post.group_ids[name] {
            Some(id) => post.group(id) is Some,
            None => true,
        } by {
            if pre.group_ids.contains_key(name) {
                assert(pre.group_ids[name] matches Some(id) ==> pre.group(id) is Some);
            }
        }
    }
}

/// A search for a group by name keeps a consistent cache consistent.
pub proof fn law_group_by_name_keeps_consistent(
    pre: CacheView,
    before: Seq<Event>,
    name: Seq<char>,
    post: CacheView,
    after: Seq<Event>,
    group: Option<GroupView>,
)
    requires
        pre.consistent(),
        group_by_name_step(pre, before, name, post, after, group),
    ensures
        post.consistent(),
{
    if is_c_name(name) && !pre.group_ids.contains_key(name) {
        assert forall|other: Seq<char>| #[trigger]
            post.group_ids.contains_key(other) implies match post.group_ids[other] {
            Some(id) => post.group(id) is Some,
            None => true,
        } by {
            if pre.group_ids.contains_key(other) {
                assert(pre.group_ids[other] matches Some(id) ==> pre.group(id) is Some);
            }
        }
    }
}

/// A read of one of the IDs of the process keeps a consistent cache
/// consistent.
pub proof fn law_id_keeps_consistent(
    which: Identity,
    pre: CacheView,
    before: Seq<Event>,
    post: CacheView,
    after: Seq<Event>,
    id: u32,
)
    requires
        pre.consistent(),
        id_step(which, pre, before, post, after, id),
    ensures
        post.consistent(),
        post.well_named() == pre.well_named(),
{
}

/// What the cache can ask the host for.
pub enum Key {
    /// The user with an ID.
    User(uid_t),
    /// The user with a name.
    UserName(Seq<char>),
    /// The group with an ID.
    Group(gid_t),
    /// The group with a name.
    GroupName(Seq<char>),
    /// One of the IDs of the process.
    Id(Identity),
}

/// What a call asks the host for, if it is one of the calls of the cache.
pub open spec fn asks(event: Event) -> Option<Key> {
    match event {
        Event::GetPwUid(uid, _) => Some(Key::User(uid)),
        Event::GetPwNam(name, _) => Some(Key::UserName(name)),
        Event::GetGrGid(gid, _) => Some(Key::Group(gid)),
        Event::GetGrNam(name, _) => Some(Key::GroupName(name)),
        Event::GetUid(_) => Some(Key::Id(Identity::CurrentUser)),
        Event::GetEuid(_) => Some(Key::Id(Identity::EffectiveUser)),
        Event::GetGid(_) => Some(Key::Id(Identity::CurrentGroup)),
        Event::GetEgid(_) => Some(Key::Id(Identity::EffectiveGroup)),
        _ => None,
    }
}

/// How often `events` ask the host for `key`.
pub open spec fn lookups(events: Seq<Event>, key: Key) -> nat
    decreases events.len(),
{
    if events.len() == 0 {
        0
    } else if asks(events.last()) == Some(key) {
        lookups(events.drop_last(), key) + 1
    } else {
        lookups(events.drop_last(), key)
    }
}

impl CacheView {
    /// Whether the cache holds an answer for `key`.
    pub open spec fn resolved(self, key: Key) -> bool {
        match key {
            Key::User(uid) => self.users.contains_key(uid),
            Key::UserName(name) => self.user_ids.contains_key(name),
            Key::Group(gid) => self.groups.contains_key(gid),
            Key::GroupName(name) => self.group_ids.contains_key(name),
            Key::Id(which) => self.memo(which) is Some,
        }
    }

    /// Whether this cache holds every answer that `before` holds.
    pub open spec fn keeps(self, before: CacheView) -> bool {
        forall|key: Key| #[trigger] before.resolved(key) ==> self.resolved(key)
    }
}

/// The cache accounts for the calls `events`: the host was asked for no key
/// more than once, and the cache holds an answer for every key that it was
/// asked for.
pub open spec fn accounted(cache: CacheView, events: Seq<Event>) -> bool {
    forall|key: Key| #[trigger]
        lookups(events, key) <= 1 && (lookups(events, key) >= 1 ==> cache.resolved(key))
}

/// The calls that a history holds from its call number `start` on.
pub open spec fn since(history: Seq<Event>, start: int) -> Seq<Event> {
    history.skip(start)
}

/// A cache that keeps every answer and made no call goes on accounting for
/// the calls made.
pub proof fn lemma_no_call_accounted(pre: CacheView, post: CacheView, events: Seq<Event>)
    requires
        accounted(pre, events),
        post.keeps(pre),
    ensures
        accounted(post, events),
{
    assert forall|key: Key| #[trigger]
        lookups(events, key) <= 1 && (lookups(events, key) >= 1 ==> post.resolved(key)) by {
        assert(lookups(events, key) >= 1 ==> pre.resolved(key));
    }
}

/// A cache that asks the host for a key that it held no answer for, and
/// then holds one, goes on accounting for the calls made.
pub proof fn lemma_one_call_accounted(
    pre: CacheView,
    post: CacheView,
    events: Seq<Event>,
    event: Event,
    key: Key,
)
    requires
        accounted(pre, events),
        post.keeps(pre),
        asks(event) == Some(key),
        !pre.resolved(key),
        post.resolved(key),
    ensures
        accounted(post, events.push(event)),
{
    let more = events.push(event);
    assert(more.drop_last() =~= events);
    assert forall|other: Key| #[trigger]
        lookups(more, other) <= 1 && (lookups(more, other) >= 1 ==> post.resolved(other)) by {
        assert(lookups(events, other) <= 1);
        assert(lookups(events, other) >= 1 ==> pre.resolved(other));
    }
}

/// A history that grew by one call holds, from any earlier call on, that
/// one call more.
pub proof fn lemma_since_grown(before: Seq<Event>, after: Seq<Event>, start: int)
    requires
        0 <= start <= before.len(),
        grown_by(before, after, 1),
    ensures
        since(after, start) == since(before, start).push(added(before, after, 0)),
{
    assert forall|i: int| 0 <= i < before.len() implies after[i] == before[i] by {
        assert(after.take(before.len() as int)[i] == before[i]);
    }
    assert(since(after, start) =~= since(before, start).push(added(before, after, 0)));
}

/// A cache that has learned nothing accounts for no calls.
pub proof fn law_empty_cache_is_accounted(history: Seq<Event>)
    ensures
        accounted(CacheView::empty(), since(history, history.len() as int)),
{
    assert(since(history, history.len() as int) =~= Seq::<Event>::empty());
}

/// Memoization, for the whole life of a cache: a search for a user by ID
/// keeps the cache accounting for the calls made since `start`.  So whatever
/// is searched for, and however often, the host is asked for no ID, no name
/// and no ID of the process more than once.
pub proof fn law_user_by_uid_keeps_accounted(
    pre: CacheView,
    before: Seq<Event>,
    uid: uid_t,
    post: CacheView,
    after: Seq<Event>,
    user: Option<UserView>,
    start: int,
)
    requires
        0 <= start <= before.len(),
        accounted(pre, since(before, start)),
        user_by_uid_step(pre, before, uid, post, after, user),
    ensures
        accounted(post, since(after, start)),
        post.keeps(pre),
{
    if pre.users.contains_key(uid) {
        lemma_no_call_accounted(pre, post, since(before, start));
    } else {
        lemma_since_grown(before, after, start);
        assert(post.resolved(Key::User(uid)));
        lemma_one_call_accounted(
            pre,
            post,
            since(before, start),
            added(before, after, 0),
            Key::User(uid),
        );
    }
}

/// A search for a user by name keeps the cache accounting for the calls
/// made since `start`.
pub proof fn law_user_by_name_keeps_accounted(
    pre: CacheView,
    before: Seq<Event>,
    name: Seq<char>,
    post: CacheView,
    after: Seq<Event>,
    user: Option<UserView>,
    start: int,
)
    requires
        0 <= start <= before.len(),
        accounted(pre, since(before, start)),
        user_by_name_step(pre, before, name, post, after, user),
    ensures
        accounted(post, since(after, start)),
        post.keeps(pre),
{
    if !is_c_name(name) || pre.user_ids.contains_key(name) {
        lemma_no_call_accounted(pre, post, since(before, start));
    } else {
        lemma_since_grown(before, after, start);
        assert(post.resolved(Key::UserName(name)));
        lemma_one_call_accounted(
            pre,
            post,
            since(before, start),
            added(before, after, 0),
            Key::UserName(name),
        );
    }
}

/// A search for a group by ID keeps the cache accounting for the calls made
/// since `start`.
pub proof fn law_group_by_gid_keeps_accounted(
    pre: CacheView,
    before: Seq<Event>,
    gid: gid_t,
    post: CacheView,
    after: Seq<Event>,
    group: Option<GroupView>,
    start: int,
)
    requires
        0 <= start <= before.len(),
        accounted(pre, since(before, start)),
        group_by_gid_step(pre, before, gid, post, after, group),
    ensures
        accounted(post, since(after, start)),
        post.keeps(pre),
{
    if pre.groups.contains_key(gid) {
        lemma_no_call_accounted(pre, post, since(before, start));
    } else {
        lemma_since_grown(before, after, start);
        assert(post.resolved(Key::Group(gid)));
        lemma_one_call_accounted(
            pre,
            post,
            since(before, start),
            added(before, after, 0),
            Key::Group(gid),
        );
    }
}

/// A search for a group by name keeps the cache accounting for the calls
/// made since `start`.
pub proof fn law_group_by_name_keeps_accounted(
    pre: CacheView,
    before: Seq<Event>,
    name: Seq<char>,
    post: CacheView,
    after: Seq<Event>,
    group: Option<GroupView>,
    start: int,
)
    requires
        0 <= start <= before.len(),
        accounted(pre, since(before, start)),
        group_by_name_step(pre, before, name, post, after, group),
    ensures
        accounted(post, since(after, start)),
        post.keeps(pre),
{
    if !is_c_name(name) || pre.group_ids.contains_key(name) {
        lemma_no_call_accounted(pre, post, since(before, start));
    } else {
        lemma_since_grown(before, after, start);
        assert(post.resolved(Key::GroupName(name)));
        lemma_one_call_accounted(
            pre,
            post,
            since(before, start),
            added(before, after, 0),
            Key::GroupName(name),
        );
    }
}

/// A read of one of the IDs of the process keeps the cache accounting for
/// the calls made since `start`.
pub proof fn law_id_keeps_accounted(
    which: Identity,
    pre: CacheView,
    before: Seq<Event>,
    post: CacheView,
    after: Seq<Event>,
    id: u32,
    start: int,
)
    requires
        0 <= start <= before.len(),
        accounted(pre, since(before, start)),
        id_step(which, pre, before, post, after, id),
    ensures
        accounted(post, since(after, start)),
        post.keeps(pre),
        start <= after.len(),
{
    if pre.memo(which) is Some {
        lemma_no_call_accounted(pre, post, since(before, start));
    } else {
        crate::host::lemma_grown_by_push(before, id_event(which, id));
        lemma_since_grown(before, after, start);
        assert(post.resolved(Key::Id(which)));
        lemma_one_call_accounted(
            pre,
            post,
            since(before, start),
            added(before, after, 0),
            Key::Id(which),
        );
    }
}

/// A search for the name of the real or the effective user keeps the cache
/// accounting for the calls made since `start`.
pub proof fn law_username_keeps_accounted(
    which: Identity,
    pre: CacheView,
    before: Seq<Event>,
    post: CacheView,
    after: Seq<Event>,
    name: Option<Seq<char>>,
    start: int,
)
    requires
        0 <= start <= before.len(),
        accounted(pre, since(before, start)),
        username_step(which, pre, before, post, after, name),
    ensures
        accounted(post, since(after, start)),
{
    let uid = id_read(which, pre, before, after);
    let between = id_read_calls(which, pre, before, after);
    let mid = pre.remember(which, uid);
    law_id_keeps_accounted(which, pre, before, mid, between, uid, start);
    law_user_by_uid_keeps_accounted(mid, between, uid, post, after, post.user(uid), start);
}

/// A search for the name of the real or the effective group keeps the cache
/// accounting for the calls made since `start`.
pub proof fn law_groupname_keeps_accounted(
    which: Identity,
    pre: CacheView,
    before: Seq<Event>,
    post: CacheView,
    after: Seq<Event>,
    name: Option<Seq<char>>,
    start: int,
)
    requires
        0 <= start <= before.len(),
        accounted(pre, since(before, start)),
        groupname_step(which, pre, before, post, after, name),
    ensures
        accounted(post, since(after, start)),
{
    let gid = id_read(which, pre, before, after);
    let between = id_read_calls(which, pre, before, after);
    let mid = pre.remember(which, gid);
    law_id_keeps_accounted(which, pre, before, mid, between, gid, start);
    law_group_by_gid_keeps_accounted(mid, between, gid, post, after, post.group(gid), start);
}

/// No name that the cache has resolved points to the ID `id` of a user.
pub open spec fn no_user_name_points_to(cache: CacheView, id: uid_t) -> bool {
    forall|name: Seq<char>| #[trigger]
        cache.user_ids.contains_key(name) ==> cache.user_ids[name] != Some(id)
}

/// No name that the cache has resolved points to the ID `id` of a group.
pub open spec fn no_group_name_points_to(cache: CacheView, id: gid_t) -> bool {
    forall|name: Seq<char>| #[trigger]
        cache.group_ids.contains_key(name) ==> cache.group_ids[name] != Some(id)
}

/// A search for a user by ID keeps a consistent cache well named.
pub proof fn law_user_by_uid_keeps_well_named(
    pre: CacheView,
    before: Seq<Event>,
    uid: uid_t,
    post: CacheView,
    after: Seq<Event>,
    user: Option<UserView>,
)
    requires
        pre.consistent(),
        pre.well_named(),
        user_by_uid_step(pre, before, uid, post, after, user),
    ensures
        post.well_named(),
{
    if !pre.users.contains_key(uid) {
        assert forall|name: Seq<char>| #[trigger]
            post.user_ids.contains_key(name) implies match post.user_of_name(
            name,
        ) {
            Some(found) => found.name == name,
            None => true,
        } by {
            if pre.user_ids.contains_key(name) {
                assert(pre.user_ids[name] matches Some(id) ==> pre.user(id) is Some);
                assert(pre.user_of_name(name) matches Some(found) ==> found.name == name);
            }
        }
    }
}

/// A search for a user by name keeps a cache well named, unless the host
/// answers with a user whose ID the cache knows under another name.
pub proof fn law_user_by_name_keeps_well_named(
    pre: CacheView,
    before: Seq<Event>,
    name: Seq<char>,
    post: CacheView,
    after: Seq<Event>,
    user: Option<UserView>,
)
    requires
        pre.well_named(),
        user_by_name_step(pre, before, name, post, after, user),
        !pre.user_ids.contains_key(name) ==> match user {
            Some(found) => no_user_name_points_to(pre, found.uid),
            None => true,
        },
    ensures
        post.well_named(),
{
    if is_c_name(name) && !pre.user_ids.contains_key(name) {
        match user {
            Some(found) => {
                lemma_asked_name_is_name(before, after, name, found);
            },
            None => {},
        }
        assert forall|other: Seq<char>| #[trigger]
            post.user_ids.contains_key(other) implies match post.user_of_name(
            other,
        ) {
            Some(found) => found.name == other,
            None => true,
        } by {
            if pre.user_ids.contains_key(other) {
                assert(pre.user_of_name(other) matches Some(found) ==> found.name == other);
            }
        }
    }
}

/// A search for a group by ID keeps a consistent cache well named.
pub proof fn law_group_by_gid_keeps_well_named(
    pre: CacheView,
    before: Seq<Event>,
    gid: gid_t,
    post: CacheView,
    after: Seq<Event>,
    group: Option<GroupView>,
)
    requires
        pre.consistent(),
        pre.well_named(),
        group_by_gid_step(pre, before, gid, post, after, group),
    ensures
        post.well_named(),
{
    if !pre.groups.contains_key(gid) {
        assert forall|name: Seq<char>| #[trigger]
            post.group_ids.contains_key(name) implies match post.group_of_name(
            name,
        ) {
            Some(found) => found.name == name,
            None => true,
        } by {
            if pre.group_ids.contains_key(name) {
                assert(pre.group_ids[name] matches Some(id) ==> pre.group(id) is Some);
                assert(pre.group_of_name(name) matches Some(found) ==> found.name == name);
            }
        }
    }
}

/// A search for a group by name keeps a cache well named, unless the host
/// answers with a group whose ID the cache knows under another name.
pub proof fn law_group_by_name_keeps_well_named(
    pre: CacheView,
    before: Seq<Event>,
    name: Seq<char>,
    post: CacheView,
    after: Seq<Event>,
    group: Option<GroupView>,
)
    requires
        pre.well_named(),
        group_by_name_step(pre, before, name, post, after, group),
        !pre.group_ids.contains_key(name) ==> match group {
            Some(found) => no_group_name_points_to(pre, found.gid),
            None => true,
        },
    ensures
        post.well_named(),
{
    if is_c_name(name) && !pre.group_ids.contains_key(name) {
        match group {
            Some(found) => {
                lemma_asked_group_name_is_name(before, after, name, found);
            },
            None => {},
        }
        assert forall|other: Seq<char>| #[trigger]
            post.group_ids.contains_key(other) implies match post.group_of_name(
            other,
        ) {
            Some(found) => found.name == other,
            None => true,
        } by {
            if pre.group_ids.contains_key(other) {
                assert(pre.group_of_name(other) matches Some(found) ==> found.name == other);
            }
        }
    }
}

/// A search for the name of the real or the effective user keeps a
/// consistent cache consistent.
pub proof fn law_username_keeps_consistent(
    which: Identity,
    pre: CacheView,
    before: Seq<Event>,
    post: CacheView,
    after: Seq<Event>,
    name: Option<Seq<char>>,
)
    requires
        pre.consistent(),
        username_step(which, pre, before, post, after, name),
    ensures
        post.consistent(),
{
    let uid = id_read(which, pre, before, after);
    let between = id_read_calls(which, pre, before, after);
    let mid = pre.remember(which, uid);
    law_id_keeps_consistent(which, pre, before, mid, between, uid);
    law_user_by_uid_keeps_consistent(mid, between, uid, post, after, post.user(uid));
}

/// A search for the name of the real or the effective group keeps a
/// consistent cache consistent.
pub proof fn law_groupname_keeps_consistent(
    which: Identity,
    pre: CacheView,
    before: Seq<Event>,
    post: CacheView,
    after: Seq<Event>,
    name: Option<Seq<char>>,
)
    requires
        pre.consistent(),
        groupname_step(which, pre, before, post, after, name),
    ensures
        post.consistent(),
{
    let gid = id_read(which, pre, before, after);
    let between = id_read_calls(which, pre, before, after);
    let mid = pre.remember(which, gid);
    law_id_keeps_consistent(which, pre, before, mid, between, gid);
    law_group_by_gid_keeps_consistent(mid, between, gid, post, after, post.group(gid));
}

/// Memoization: of two searches for the same user ID, one after the other,
/// the second asks the host nothing, leaves the cache as it is and gives the
/// answer of the first, found or not.  So both together ask the host at
/// most once.
pub proof fn law_user_by_uid_is_memoized(
    pre: CacheView,
    before: Seq<Event>,
    uid: uid_t,
    mid: CacheView,
    between: Seq<Event>,
    first: Option<UserView>,
    post: CacheView,
    after: Seq<Event>,
    second: Option<UserView>,
)
    requires
        user_by_uid_step(pre, before, uid, mid, between, first),
        user_by_uid_step(mid, between, uid, post, after, second),
    ensures
        second == first,
        post == mid,
        after == between,
        after.len() <= before.len() + 1,
{
}

/// Memoization: of two searches for the same user name, the second asks the
/// host nothing, leaves the cache as it is and gives the answer of the first.
pub proof fn law_user_by_name_is_memoized(
    pre: CacheView,
    before: Seq<Event>,
    name: Seq<char>,
    mid: CacheView,
    between: Seq<Event>,
    first: Option<UserView>,
    post: CacheView,
    after: Seq<Event>,
    second: Option<UserView>,
)
    requires
        user_by_name_step(pre, before, name, mid, between, first),
        user_by_name_step(mid, between, name, post, after, second),
    ensures
        second == first,
        post == mid,
        after == between,
        after.len() <= before.len() + 1,
{
    if is_c_name(name) && !pre.user_ids.contains_key(name) {
        match first {
            Some(found) => {
                assert(mid.user_ids[name] == Some(found.uid));
                assert(mid.users[found.uid] == Some(found));
            },
            None => {},
        }
    }
}

/// Memoization: of two searches for the same group ID, the second asks the
/// host nothing, leaves the cache as it is and gives the answer of the first.
pub proof fn law_group_by_gid_is_memoized(
    pre: CacheView,
    before: Seq<Event>,
    gid: gid_t,
    mid: CacheView,
    between: Seq<Event>,
    first: Option<GroupView>,
    post: CacheView,
    after: Seq<Event>,
    second: Option<GroupView>,
)
    requires
        group_by_gid_step(pre, before, gid, mid, between, first),
        group_by_gid_step(mid, between, gid, post, after, second),
    ensures
        second == first,
        post == mid,
        after == between,
        after.len() <= before.len() + 1,
{
}

/// Memoization: of two searches for the same group name, the second asks
/// the host nothing, leaves the cache as it is and gives the answer of the
/// first.
pub proof fn law_group_by_name_is_memoized(
    pre: CacheView,
    before: Seq<Event>,
    name: Seq<char>,
    mid: CacheView,
    between: Seq<Event>,
    first: Option<GroupView>,
    post: CacheView,
    after: Seq<Event>,
    second: Option<GroupView>,
)
    requires
        group_by_name_step(pre, before, name, mid, between, first),
        group_by_name_step(mid, between, name, post, after, second),
    ensures
        second == first,
        post == mid,
        after == between,
        after.len() <= before.len() + 1,
{
    if is_c_name(name) && !pre.group_ids.contains_key(name) {
        match first {
            Some(found) => {
                assert(mid.group_ids[name] == Some(found.gid));
                assert(mid.groups[found.gid] == Some(found));
            },
            None => {},
        }
    }
}

/// Memoization: each of the four IDs of the process is read from the host
/// at most once.
pub proof fn law_id_is_memoized(
    which: Identity,
    pre: CacheView,
    before: Seq<Event>,
    mid: CacheView,
    between: Seq<Event>,
    first: u32,
    post: CacheView,
    after: Seq<Event>,
    second: u32,
)
    requires
        id_step(which, pre, before, mid, between, first),
        id_step(which, mid, between, post, after, second),
    ensures
        second == first,
        post == mid,
        after == between,
        after.len() <= before.len() + 1,
{
}

/// Negative results are kept too: after a search for a user ID that found
/// nobody, a second one finds nobody either, and does not ask the host.
pub proof fn law_absent_user_is_memoized(
    pre: CacheView,
    before: Seq<Event>,
    uid: uid_t,
    mid: CacheView,
    between: Seq<Event>,
    post: CacheView,
    after: Seq<Event>,
    second: Option<UserView>,
)
    requires
        user_by_uid_step(pre, before, uid, mid, between, None),
        user_by_uid_step(mid, between, uid, post, after, second),
    ensures
        second is None,
        after == between,
        after.len() <= before.len() + 1,
{
}

/// Cross-index consistency: a user that a search by name finds is filed
/// under its ID.  A search for that ID, right after, gives the same user and
/// does not ask the host.
pub proof fn law_user_found_by_name_is_found_by_uid(
    pre: CacheView,
    before: Seq<Event>,
    name: Seq<char>,
    mid: CacheView,
    between: Seq<Event>,
    user: UserView,
    post: CacheView,
    after: Seq<Event>,
    again: Option<UserView>,
)
    requires
        pre.consistent(),
        user_by_name_step(pre, before, name, mid, between, Some(user)),
        user_by_uid_step(mid, between, user.uid, post, after, again),
    ensures
        again == Some(user),
        post == mid,
        after == between,
{
    if pre.user_ids.contains_key(name) {
        let uid = pre.user_ids[name]->Some_0;
        assert(pre.users.contains_key(uid));
    }
}

/// Cross-index consistency, the other way: a user that a search by ID
/// brings from the host has its name pointing to it.  A search for that
/// name, right after, gives the same user and does not ask the host.
pub proof fn law_user_found_by_uid_is_found_by_name(
    pre: CacheView,
    before: Seq<Event>,
    uid: uid_t,
    mid: CacheView,
    between: Seq<Event>,
    user: UserView,
    post: CacheView,
    after: Seq<Event>,
    again: Option<UserView>,
)
    requires
        !pre.users.contains_key(uid),
        is_c_name(user.name),
        user_by_uid_step(pre, before, uid, mid, between, Some(user)),
        user_by_name_step(mid, between, user.name, post, after, again),
    ensures
        again == Some(user),
        post == mid,
        after == between,
{
    assert(mid.user_ids[user.name] == Some(uid));
    assert(mid.users[uid] == Some(user));
}

/// A user that a search of the cache by name finds has the name that
/// was searched for, in a cache that is well named, and always where the name
/// was not resolved before.
pub proof fn law_user_found_by_name_has_that_name(
    pre: CacheView,
    before: Seq<Event>,
    name: Seq<char>,
    post: CacheView,
    after: Seq<Event>,
    user: UserView,
)
    requires
        pre.user_ids.contains_key(name) ==> pre.well_named(),
        user_by_name_step(pre, before, name, post, after, Some(user)),
    ensures
        user.name == name,
{
    if !pre.user_ids.contains_key(name) {
        lemma_asked_name_is_name(before, after, name, user);
    }
}

/// Rejecting a name is pure: a search for a name with a null character
/// finds nobody, whatever the cache holds, and changes neither the cache nor
/// the history of the host.
pub proof fn law_name_with_nul_is_rejected(
    pre: CacheView,
    before: Seq<Event>,
    name: Seq<char>,
    post: CacheView,
    after: Seq<Event>,
    user: Option<UserView>,
)
    requires
        !is_c_name(name),
        user_by_name_step(pre, before, name, post, after, user),
    ensures
        user is None,
        post == pre,
        after == before,
{
}

/// Rejecting a group name is pure as well.
pub proof fn law_group_name_with_nul_is_rejected(
    pre: CacheView,
    before: Seq<Event>,
    name: Seq<char>,
    post: CacheView,
    after: Seq<Event>,
    group: Option<GroupView>,
)
    requires
        !is_c_name(name),
        group_by_name_step(pre, before, name, post, after, group),
    ensures
        group is None,
        post == pre,
        after == before,
{
}

} // verus!
