//! Users and groups, and their lookup in the host's databases.
//!
//! ## Name encoding rules
//!
//! A name that is searched for is a `&str`.  One that holds a null character
//! can name no user or group, so the search answers `None` without asking
//! the host.
//!
//! Text that the host returns is kept, whatever it holds: a field ends in
//! front of its first zero byte, and bytes that are not UTF-8 are replaced
//! rather than rejected.
//!
//! An entry that the host returns for another key than the one asked for is
//! not trusted: the search answers `None`.

use std::sync::Arc;
use vstd::prelude::*;
use vstd::utf8::encode_utf8;
use crate::host::{
    added, grown_by, is_c_name, lemma_c_name_bytes, lemma_grown_by_push, lemma_grown_by_twice,
    walk_open, Event, Host, Traced,
};
use crate::os;
use crate::os::bsd::UserExt as BsdUserExt;
use crate::os::unix::{GroupExt, UserExt};
use crate::raw::{
    c_group, c_passwd, c_str_bytes, c_str_eq, c_string, expand_slots, from_raw_buf, has_nul,
    lemma_c_string_round_trip, spec_c_string, spec_from_raw_buf, spec_members, RawGroup,
    RawPasswd,
};
use crate::{c_int, gid_t, time_t, uid_t};

verus! {

/// Mathematical value of a `User`.
pub struct UserView {
    pub uid: uid_t,
    pub name: Seq<char>,
    pub primary_group: gid_t,
    pub home_dir: Seq<char>,
    pub shell: Seq<char>,
    pub password: Seq<char>,
    pub change: time_t,
    pub expire: time_t,
}

/// Mathematical value of a `Group`.
pub struct GroupView {
    pub gid: gid_t,
    pub name: Seq<char>,
    pub members: Seq<Seq<char>>,
}

/// Information about a particular user.
#[derive(Clone, Debug)]
pub struct User {
    uid: uid_t,
    primary_group: gid_t,
    extras: os::UserExtras,
    name_arc: Arc<String>,
}

/// Information about a particular group.
#[derive(Clone, Debug)]
pub struct Group {
    gid: gid_t,
    extras: os::GroupExtras,
    name_arc: Arc<String>,
}

impl View for User {
    type V = UserView;

    closed spec fn view(&self) -> UserView {
        UserView {
            uid: self.uid,
            name: self.name_arc@,
            primary_group: self.primary_group,
            home_dir: self.extras.extras.home_dir@,
            shell: self.extras.extras.shell@,
            password: self.extras.extras.password@,
            change: self.extras.change,
            expire: self.extras.expire,
        }
    }
}

impl DeepView for User {
    type V = UserView;

    open spec fn deep_view(&self) -> UserView {
        self.view()
    }
}

impl View for Group {
    type V = GroupView;

    closed spec fn view(&self) -> GroupView {
        GroupView {
            gid: self.gid,
            name: self.name_arc@,
            members: self.extras.members.deep_view(),
        }
    }
}

impl DeepView for Group {
    type V = GroupView;

    open spec fn deep_view(&self) -> GroupView {
        self.view()
    }
}

/// A second handle to a shared value.  Calls `Arc::clone`, which the
/// verifier does not read: both handles lead to the same value.
#[verifier::external_body]
pub(crate) fn share<T>(shared: &Arc<T>) -> (again: Arc<T>)
    ensures
        again == shared,
{
    Arc::clone(shared)
}

/// The user that `User::new` makes: the given ID, name and primary group,
/// and dummy values in the other fields.
pub open spec fn dummy_user(uid: uid_t, name: Seq<char>, primary_group: gid_t) -> UserView {
    UserView {
        uid,
        name,
        primary_group,
        home_dir: "/var/empty"@,
        shell: "/bin/false"@,
        password: "*"@,
        change: 0,
        expire: 0,
    }
}

/// The group that `Group::new` makes: the given ID and name, and no members.
pub open spec fn dummy_group(gid: gid_t, name: Seq<char>) -> GroupView {
    GroupView { gid, name, members: Seq::empty() }
}

impl User {
    /// Create a new `User` with the given user ID, name, and primary
    /// group ID, with the rest of the fields filled with dummy values.
    ///
    /// This method does not actually create a new user on the system: it
    /// should only be used for comparing users in tests.
    pub fn new(uid: uid_t, name: &str, primary_group: gid_t) -> (user: User)
        ensures
            user@ == dummy_user(uid, name@, primary_group),
    {
        User {
            uid,
            name_arc: Arc::new(name.to_owned()),
            primary_group,
            extras: os::UserExtras::default(),
        }
    }

    /// Returns this user's ID.
    pub fn uid(&self) -> (uid: uid_t)
        ensures
            uid == self@.uid,
    {
        self.uid
    }

    /// Returns this user's name.
    pub fn name(&self) -> (name: &str)
        ensures
            name@ == self@.name,
    {
        self.name_arc.as_str()
    }

    /// Returns this user's name, as an owned `String` that is shared with
    /// the user.
    pub fn name_arc(&self) -> (name: Arc<String>)
        ensures
            name@ == self@.name,
    {
        share(&self.name_arc)
    }

    /// Returns the ID of this user's primary group.
    pub fn primary_group_id(&self) -> (gid: gid_t)
        ensures
            gid == self@.primary_group,
    {
        self.primary_group
    }
}

impl UserExt for User {
    fn home_dir(&self) -> (path: &str)
        ensures
            path@ == self@.home_dir,
    {
        self.extras.extras.home_dir.as_str()
    }

    fn with_home_dir(self, home_dir: &str) -> (user: User)
        ensures
            user@ == (UserView { home_dir: home_dir@, ..self@ }),
    {
        let mut user = self;
        user.extras.extras.home_dir = home_dir.to_owned();
        user
    }

    fn shell(&self) -> (path: &str)
        ensures
            path@ == self@.shell,
    {
        self.extras.extras.shell.as_str()
    }

    fn with_shell(self, shell: &str) -> (user: User)
        ensures
            user@ == (UserView { shell: shell@, ..self@ }),
    {
        let mut user = self;
        user.extras.extras.shell = shell.to_owned();
        user
    }

    fn password(&self) -> (password: &str)
        ensures
            password@ == self@.password,
    {
        self.extras.extras.password.as_str()
    }

    fn with_password(self, password: &str) -> (user: User)
        ensures
            user@ == (UserView { password: password@, ..self@ }),
    {
        let mut user = self;
        user.extras.extras.password = password.to_owned();
        user
    }
}

impl BsdUserExt for User {
    fn password_change_time(&self) -> (time: time_t)
        ensures
            time == self@.change,
    {
        self.extras.change
    }

    fn password_expire_time(&self) -> (time: time_t)
        ensures
            time == self@.expire,
    {
        self.extras.expire
    }
}

impl Group {
    /// Create a new `Group` with the given group ID and name, with the
    /// rest of the fields filled in with dummy values.
    ///
    /// This method does not actually create a new group on the system: it
    /// should only be used for comparing groups in tests.
    pub fn new(gid: gid_t, name: &str) -> (group: Group)
        ensures
            group@ == dummy_group(gid, name@),
    {
        let group = Group {
            gid,
            name_arc: Arc::new(name.to_owned()),
            extras: os::GroupExtras::default(),
        };
        assert(group.extras.members.deep_view() =~= Seq::<Seq<char>>::empty());
        group
    }

    /// Returns this group's ID.
    pub fn gid(&self) -> (gid: gid_t)
        ensures
            gid == self@.gid,
    {
        self.gid
    }

    /// Returns this group's name.
    pub fn name(&self) -> (name: &str)
        ensures
            name@ == self@.name,
    {
        self.name_arc.as_str()
    }

    /// Returns this group's name, as an owned `String` that is shared with
    /// the group.
    pub fn name_arc(&self) -> (name: Arc<String>)
        ensures
            name@ == self@.name,
    {
        share(&self.name_arc)
    }
}

impl GroupExt for Group {
    fn members(&self) -> (names: &[String])
        ensures
            names.deep_view() == self@.members,
    {
        let names = self.extras.members.as_slice();
        assert(names.deep_view() =~= self.extras.members.deep_view());
        names
    }

    fn add_member(self, name: &str) -> (group: Group)
        ensures
            group@ == (GroupView { members: self@.members.push(name@), ..self@ }),
    {
        let mut group = self;
        group.extras.members.push(name.to_owned());
        assert(group.extras.members.deep_view() =~= self.extras.members.deep_view().push(name@));
        group
    }
}

/// The user that a `passwd` entry describes.
pub open spec fn spec_passwd_to_user(passwd: RawPasswd) -> UserView {
    UserView {
        uid: passwd.uid,
        name: spec_from_raw_buf(passwd.name),
        primary_group: passwd.gid,
        home_dir: spec_from_raw_buf(passwd.dir),
        shell: spec_from_raw_buf(passwd.shell),
        password: spec_from_raw_buf(passwd.passwd),
        change: passwd.change,
        expire: passwd.expire,
    }
}

/// The group that a `group` entry describes.
pub open spec fn spec_struct_to_group(group: RawGroup) -> GroupView {
    GroupView {
        gid: group.gid,
        name: spec_from_raw_buf(group.name),
        members: spec_members(group.mem),
    }
}

/// Copies an entry of the user database into a `User`.  No entry gives no
/// user.
pub fn passwd_to_user(found: Option<c_passwd>) -> (user: Option<User>)
    ensures
        user.deep_view() == match found.deep_view() {
            Some(passwd) => Some(spec_passwd_to_user(passwd)),
            None => None,
        },
{
    match found {
        Some(passwd) => {
            let name = Arc::new(from_raw_buf(passwd.pw_name.as_slice()));
            Some(
                User {
                    uid: passwd.pw_uid,
                    name_arc: name,
                    primary_group: passwd.pw_gid,
                    extras: os::UserExtras::from_passwd(passwd),
                },
            )
        },
        None => None,
    }
}

/// Copies an entry of the group database into a `Group`.  No entry gives no
/// group.
pub fn struct_to_group(found: Option<c_group>) -> (group: Option<Group>)
    ensures
        group.deep_view() == match found.deep_view() {
            Some(entry) => Some(spec_struct_to_group(entry)),
            None => None,
        },
{
    match found {
        Some(entry) => {
            let name = Arc::new(from_raw_buf(entry.gr_name.as_slice()));
            Some(
                Group {
                    gid: entry.gr_gid,
                    name_arc: name,
                    extras: os::GroupExtras::from_struct(entry),
                },
            )
        },
        None => None,
    }
}

/// The entry of the user database that describes `user`: each text as a C
/// string.
pub open spec fn spec_user_to_passwd(user: UserView) -> RawPasswd {
    RawPasswd {
        name: spec_c_string(user.name),
        passwd: spec_c_string(user.password),
        uid: user.uid,
        gid: user.primary_group,
        change: user.change,
        dir: spec_c_string(user.home_dir),
        shell: spec_c_string(user.shell),
        expire: user.expire,
    }
}

/// The slots of the member list of a group: each name as a C string, and a
/// null entry behind the last.
pub open spec fn spec_member_slots(members: Seq<Seq<char>>) -> Seq<Option<Seq<u8>>> {
    Seq::new(members.len(), |i: int| Some(spec_c_string(members[i]))).push(None)
}

/// The entry of the group database that describes `group`.
pub open spec fn spec_group_to_struct(group: GroupView) -> RawGroup {
    RawGroup {
        name: spec_c_string(group.name),
        gid: group.gid,
        mem: Some(spec_member_slots(group.members)),
    }
}

impl UserView {
    /// No text of the user holds a null character.
    pub open spec fn is_c_text(self) -> bool {
        &&& is_c_name(self.name)
        &&& is_c_name(self.home_dir)
        &&& is_c_name(self.shell)
        &&& is_c_name(self.password)
    }
}

impl GroupView {
    /// No text of the group holds a null character.
    pub open spec fn is_c_text(self) -> bool {
        &&& is_c_name(self.name)
        &&& forall|i: int| 0 <= i < self.members.len() ==> is_c_name(#[trigger] self.members[i])
    }
}

impl User {
    /// The entry of the user database that describes this user.
    pub fn to_passwd(&self) -> (entry: c_passwd)
        ensures
            entry.deep_view() == spec_user_to_passwd(self@),
    {
        c_passwd {
            pw_name: c_string(self.name_arc.as_str()),
            pw_passwd: c_string(self.extras.extras.password.as_str()),
            pw_uid: self.uid,
            pw_gid: self.primary_group,
            pw_change: self.extras.change,
            pw_dir: c_string(self.extras.extras.home_dir.as_str()),
            pw_shell: c_string(self.extras.extras.shell.as_str()),
            pw_expire: self.extras.expire,
        }
    }
}

impl Group {
    /// The entry of the group database that describes this group.
    pub fn to_struct(&self) -> (entry: c_group)
        ensures
            entry.deep_view() == spec_group_to_struct(self@),
    {
        let mut slots: Vec<Option<Vec<u8>>> = Vec::new();
        let mut i: usize = 0;
        let ghost names = self.extras.members.deep_view();
        while i < self.extras.members.len()
            invariant
                names == self.extras.members.deep_view(),
                i <= self.extras.members.len(),
                slots.deep_view() == Seq::new(i as nat, |k: int| Some(spec_c_string(names[k]))),
            decreases self.extras.members.len() - i,
        {
            let buf = c_string(self.extras.members[i].as_str());
            let ghost before = slots.deep_view();
            assert(buf.deep_view() =~= buf@);
            slots.push(Some(buf));
            assert(slots.deep_view() =~= before.push(Some(spec_c_string(names[i as int]))));
            assert(slots.deep_view() =~= Seq::new(
                (i + 1) as nat,
                |k: int| Some(spec_c_string(names[k])),
            ));
            i += 1;
        }
        let ghost before = slots.deep_view();
        slots.push(None);
        assert(slots.deep_view() =~= before.push(None));
        c_group { gr_name: c_string(self.name_arc.as_str()), gr_gid: self.gid, gr_mem: Some(slots) }
    }
}

/// A user whose texts hold no null character is read back from its entry as
/// it was written.
pub proof fn law_user_round_trip(user: UserView)
    requires
        user.is_c_text(),
    ensures
        spec_passwd_to_user(spec_user_to_passwd(user)) == user,
{
    lemma_c_name_bytes(user.name);
    lemma_c_name_bytes(user.home_dir);
    lemma_c_name_bytes(user.shell);
    lemma_c_name_bytes(user.password);
    lemma_c_string_round_trip(user.name);
    lemma_c_string_round_trip(user.home_dir);
    lemma_c_string_round_trip(user.shell);
    lemma_c_string_round_trip(user.password);
}

/// The walk over the member slots of a group finds its members, each read
/// back as it was written.
pub proof fn lemma_member_slots_round_trip(members: Seq<Seq<char>>)
    requires
        forall|i: int| 0 <= i < members.len() ==> is_c_name(#[trigger] members[i]),
    ensures
        expand_slots(spec_member_slots(members)) == members,
    decreases members.len(),
{
    let slots = spec_member_slots(members);
    if members.len() == 0 {
        assert(slots[0] is None);
        assert(expand_slots(slots) =~= members);
    } else {
        let rest = members.drop_first();
        assert(slots.drop_first() =~= spec_member_slots(rest));
        assert forall|i: int| 0 <= i < rest.len() implies is_c_name(#[trigger] rest[i]) by {
            assert(rest[i] == members[i + 1]);
        }
        lemma_member_slots_round_trip(rest);
        lemma_c_name_bytes(members[0]);
        lemma_c_string_round_trip(members[0]);
        assert(slots[0] == Some(spec_c_string(members[0])));
        assert(expand_slots(slots) =~= seq![members[0]] + rest);
        assert(seq![members[0]] + rest =~= members);
    }
}

/// A group whose texts hold no null character is read back from its entry
/// as it was written, members and their order included.
pub proof fn law_group_round_trip(group: GroupView)
    requires
        group.is_c_text(),
    ensures
        spec_struct_to_group(spec_group_to_struct(group)) == group,
{
    lemma_c_name_bytes(group.name);
    lemma_c_string_round_trip(group.name);
    lemma_member_slots_round_trip(group.members);
}

/// What a search for the user `uid` makes of the host's answer: the user of
/// the entry, if there is one and it is the entry of `uid`.
pub open spec fn spec_user_by_uid(uid: uid_t, found: Option<RawPasswd>) -> Option<UserView> {
    match found {
        Some(passwd) => if passwd.uid == uid {
            Some(spec_passwd_to_user(passwd))
        } else {
            None
        },
        None => None,
    }
}

/// What a search for the user `name` makes of the host's answer: the user of
/// the entry, if there is one and its name is `name`, byte for byte.
pub open spec fn spec_user_by_name(name: Seq<char>, found: Option<RawPasswd>) -> Option<UserView> {
    match found {
        Some(passwd) => if c_str_bytes(passwd.name) == encode_utf8(name) {
            Some(spec_passwd_to_user(passwd))
        } else {
            None
        },
        None => None,
    }
}

/// What a search for the group `gid` makes of the host's answer.
pub open spec fn spec_group_by_gid(gid: gid_t, found: Option<RawGroup>) -> Option<GroupView> {
    match found {
        Some(group) => if group.gid == gid {
            Some(spec_struct_to_group(group))
        } else {
            None
        },
        None => None,
    }
}

/// What a search for the group `name` makes of the host's answer.
pub open spec fn spec_group_by_name(name: Seq<char>, found: Option<RawGroup>) -> Option<
    GroupView,
> {
    match found {
        Some(group) => if c_str_bytes(group.name) == encode_utf8(name) {
            Some(spec_struct_to_group(group))
        } else {
            None
        },
        None => None,
    }
}

/// The name of a user, if there is one.
pub open spec fn user_name(user: Option<UserView>) -> Option<Seq<char>> {
    match user {
        Some(u) => Some(u.name),
        None => None,
    }
}

/// The name of a group, if there is one.
pub open spec fn group_name(group: Option<GroupView>) -> Option<Seq<char>> {
    match group {
        Some(g) => Some(g.name),
        None => None,
    }
}

/// Round trip: a search for the ID or for the name of a user whose texts
/// hold no null character, answered with the entry that describes the user,
/// finds that user.
pub proof fn law_search_finds_described_user(user: UserView)
    requires
        user.is_c_text(),
    ensures
        spec_user_by_uid(user.uid, Some(spec_user_to_passwd(user))) == Some(user),
        spec_user_by_name(user.name, Some(spec_user_to_passwd(user))) == Some(user),
{
    law_user_round_trip(user);
    lemma_c_name_bytes(user.name);
    lemma_c_string_round_trip(user.name);
}

/// Round trip: a search for the ID or for the name of a group whose texts
/// hold no null character, answered with the entry that describes the group,
/// finds that group.
pub proof fn law_search_finds_described_group(group: GroupView)
    requires
        group.is_c_text(),
    ensures
        spec_group_by_gid(group.gid, Some(spec_group_to_struct(group))) == Some(group),
        spec_group_by_name(group.name, Some(spec_group_to_struct(group))) == Some(group),
{
    law_group_round_trip(group);
    lemma_c_name_bytes(group.name);
    lemma_c_string_round_trip(group.name);
}

/// A user that a search by ID finds has that ID, and one that a search by
/// name finds has that name.
pub proof fn law_found_user_matches_key(uid: uid_t, name: Seq<char>, found: Option<RawPasswd>)
    ensures
        spec_user_by_uid(uid, found) matches Some(user) ==> user.uid == uid,
        spec_user_by_name(name, found) matches Some(user) ==> user.name == name,
{
    vstd::utf8::encode_utf8_valid_utf8(name);
    vstd::utf8::encode_utf8_decode_utf8(name);
}

/// A group that a search by ID finds has that ID, and one that a search by
/// name finds has that name.
pub proof fn law_found_group_matches_key(gid: gid_t, name: Seq<char>, found: Option<RawGroup>)
    ensures
        spec_group_by_gid(gid, found) matches Some(group) ==> group.gid == gid,
        spec_group_by_name(name, found) matches Some(group) ==> group.name == name,
{
    vstd::utf8::encode_utf8_valid_utf8(name);
    vstd::utf8::encode_utf8_decode_utf8(name);
}

/// The host was asked once, for the user `uid`, and `user` is what the search
/// makes of its answer.
pub open spec fn asked_user_by_uid(
    before: Seq<Event>,
    after: Seq<Event>,
    uid: uid_t,
    user: Option<UserView>,
) -> bool {
    &&& grown_by(before, after, 1)
    &&& match added(before, after, 0) {
        Event::GetPwUid(asked, found) => asked == uid && user == spec_user_by_uid(uid, found),
        _ => false,
    }
}

/// A name with a null character finds nobody, and the host is not asked.
/// For any other name the host was asked once, for the user `name`, and
/// `user` is what the search makes of its answer.
pub open spec fn asked_user_by_name(
    before: Seq<Event>,
    after: Seq<Event>,
    name: Seq<char>,
    user: Option<UserView>,
) -> bool {
    if is_c_name(name) {
        &&& grown_by(before, after, 1)
        &&& match added(before, after, 0) {
            Event::GetPwNam(asked, found) => asked == name && user == spec_user_by_name(
                name,
                found,
            ),
            _ => false,
        }
    } else {
        after == before && user is None
    }
}

/// The host was asked once, for the group `gid`, and `group` is what the
/// search makes of its answer.
pub open spec fn asked_group_by_gid(
    before: Seq<Event>,
    after: Seq<Event>,
    gid: gid_t,
    group: Option<GroupView>,
) -> bool {
    &&& grown_by(before, after, 1)
    &&& match added(before, after, 0) {
        Event::GetGrGid(asked, found) => asked == gid && group == spec_group_by_gid(gid, found),
        _ => false,
    }
}

/// A name with a null character finds no group, and the host is not asked.
/// For any other name the host was asked once, for the group `name`, and
/// `group` is what the search makes of its answer.
pub open spec fn asked_group_by_name(
    before: Seq<Event>,
    after: Seq<Event>,
    name: Seq<char>,
    group: Option<GroupView>,
) -> bool {
    if is_c_name(name) {
        &&& grown_by(before, after, 1)
        &&& match added(before, after, 0) {
            Event::GetGrNam(asked, found) => asked == name && group == spec_group_by_name(
                name,
                found,
            ),
            _ => false,
        }
    } else {
        after == before && group is None
    }
}

/// Searches for a `User` with the given ID in the system's user database.
/// Returns it if one is found, otherwise returns `None`.
pub fn get_user_by_uid<H: Host>(host: &mut Traced<H>, uid: uid_t) -> (user: Option<User>)
    ensures
        asked_user_by_uid(old(host).history(), final(host).history(), uid, user.deep_view()),
{
    let ghost before = host.history();
    let found = host.getpwuid(uid);
    assert(host.history().take(before.len() as int) =~= before);
    match found {
        Some(passwd) => {
            if passwd.pw_uid == uid {
                passwd_to_user(Some(passwd))
            } else {
                None
            }
        },
        None => None,
    }
}

/// Searches for a `User` with the given username in the system's user
/// database.  Returns it if one is found, otherwise returns `None`.
pub fn get_user_by_name<H: Host>(host: &mut Traced<H>, username: &str) -> (user: Option<User>)
    ensures
        asked_user_by_name(old(host).history(), final(host).history(), username@, user.deep_view()),
{
    proof {
        lemma_c_name_bytes(username@);
    }
    if has_nul(username.as_bytes()) {
        // The username that was passed in contained a null character,
        // which will match no usernames.
        return None;
    }
    let ghost before = host.history();
    let found = host.getpwnam(username);
    assert(host.history().take(before.len() as int) =~= before);
    match found {
        Some(passwd) => {
            if c_str_eq(passwd.pw_name.as_slice(), username.as_bytes()) {
                passwd_to_user(Some(passwd))
            } else {
                None
            }
        },
        None => None,
    }
}

/// Searches for a `Group` with the given ID in the system's group database.
/// Returns it if one is found, otherwise returns `None`.
pub fn get_group_by_gid<H: Host>(host: &mut Traced<H>, gid: gid_t) -> (group: Option<Group>)
    ensures
        asked_group_by_gid(old(host).history(), final(host).history(), gid, group.deep_view()),
{
    let ghost before = host.history();
    let found = host.getgrgid(gid);
    assert(host.history().take(before.len() as int) =~= before);
    match found {
        Some(entry) => {
            if entry.gr_gid == gid {
                struct_to_group(Some(entry))
            } else {
                None
            }
        },
        None => None,
    }
}

/// Searches for a `Group` with the given group name in the system's group
/// database.  Returns it if one is found, otherwise returns `None`.
pub fn get_group_by_name<H: Host>(host: &mut Traced<H>, groupname: &str) -> (group: Option<Group>)
    ensures
        asked_group_by_name(
            old(host).history(),
            final(host).history(),
            groupname@,
            group.deep_view(),
        ),
{
    proof {
        lemma_c_name_bytes(groupname@);
    }
    if has_nul(groupname.as_bytes()) {
        // The group name that was passed in contained a null character,
        // which will match no group names.
        return None;
    }
    let ghost before = host.history();
    let found = host.getgrnam(groupname);
    assert(host.history().take(before.len() as int) =~= before);
    match found {
        Some(entry) => {
            if c_str_eq(entry.gr_name.as_slice(), groupname.as_bytes()) {
                struct_to_group(Some(entry))
            } else {
                None
            }
        },
        None => None,
    }
}

/// The host was asked for the real user ID, then for the user with that ID,
/// and `name` is the name of the user that the search found.
pub open spec fn asked_current_username(
    before: Seq<Event>,
    after: Seq<Event>,
    name: Option<Seq<char>>,
) -> bool {
    &&& grown_by(before, after, 2)
    &&& match (added(before, after, 0), added(before, after, 1)) {
        (Event::GetUid(uid), Event::GetPwUid(asked, found)) => asked == uid && name == user_name(
            spec_user_by_uid(uid, found),
        ),
        _ => false,
    }
}

/// The host was asked for the effective user ID, then for the user with that
/// ID, and `name` is the name of the user that the search found.
pub open spec fn asked_effective_username(
    before: Seq<Event>,
    after: Seq<Event>,
    name: Option<Seq<char>>,
) -> bool {
    &&& grown_by(before, after, 2)
    &&& match (added(before, after, 0), added(before, after, 1)) {
        (Event::GetEuid(uid), Event::GetPwUid(asked, found)) => asked == uid && name == user_name(
            spec_user_by_uid(uid, found),
        ),
        _ => false,
    }
}

/// The host was asked for the real group ID, then for the group with that
/// ID, and `name` is the name of the group that the search found.
pub open spec fn asked_current_groupname(
    before: Seq<Event>,
    after: Seq<Event>,
    name: Option<Seq<char>>,
) -> bool {
    &&& grown_by(before, after, 2)
    &&& match (added(before, after, 0), added(before, after, 1)) {
        (Event::GetGid(gid), Event::GetGrGid(asked, found)) => asked == gid && name == group_name(
            spec_group_by_gid(gid, found),
        ),
        _ => false,
    }
}

/// The host was asked for the effective group ID, then for the group with
/// that ID, and `name` is the name of the group that the search found.
pub open spec fn asked_effective_groupname(
    before: Seq<Event>,
    after: Seq<Event>,
    name: Option<Seq<char>>,
) -> bool {
    &&& grown_by(before, after, 2)
    &&& match (added(before, after, 0), added(before, after, 1)) {
        (Event::GetEgid(gid), Event::GetGrGid(asked, found)) => asked == gid && name == group_name(
            spec_group_by_gid(gid, found),
        ),
        _ => false,
    }
}

/// Returns the user ID for the user running the process.
pub fn get_current_uid<H: Host>(host: &mut Traced<H>) -> (uid: uid_t)
    ensures
        final(host).history() == old(host).history().push(Event::GetUid(uid)),
{
    host.getuid()
}

/// Returns the username of the user running the process.
///
/// This function returns `None` if the current user does not exist, which
/// could happen if they were deleted after the program started running.
pub fn get_current_username<H: Host>(host: &mut Traced<H>) -> (name: Option<String>)
    ensures
        asked_current_username(old(host).history(), final(host).history(), name.deep_view()),
{
    let ghost before = host.history();
    let uid = get_current_uid(host);
    let ghost between = host.history();
    let user = get_user_by_uid(host, uid);
    proof {
        lemma_grown_by_push(before, between.last());
        assert(between =~= before.push(between.last()));
        lemma_grown_by_twice(before, between, host.history(), 1, 1);
    }
    match user {
        Some(u) => Some(u.name().to_owned()),
        None => None,
    }
}

/// Returns the user ID for the effective user running the process.
pub fn get_effective_uid<H: Host>(host: &mut Traced<H>) -> (uid: uid_t)
    ensures
        final(host).history() == old(host).history().push(Event::GetEuid(uid)),
{
    host.geteuid()
}

/// Returns the username of the effective user running the process.
pub fn get_effective_username<H: Host>(host: &mut Traced<H>) -> (name: Option<String>)
    ensures
        asked_effective_username(old(host).history(), final(host).history(), name.deep_view()),
{
    let ghost before = host.history();
    let uid = get_effective_uid(host);
    let ghost between = host.history();
    let user = get_user_by_uid(host, uid);
    proof {
        lemma_grown_by_push(before, between.last());
        assert(between =~= before.push(between.last()));
        lemma_grown_by_twice(before, between, host.history(), 1, 1);
    }
    match user {
        Some(u) => Some(u.name().to_owned()),
        None => None,
    }
}

/// Returns the group ID for the user running the process.
pub fn get_current_gid<H: Host>(host: &mut Traced<H>) -> (gid: gid_t)
    ensures
        final(host).history() == old(host).history().push(Event::GetGid(gid)),
{
    host.getgid()
}

/// Returns the groupname of the user running the process.
pub fn get_current_groupname<H: Host>(host: &mut Traced<H>) -> (name: Option<String>)
    ensures
        asked_current_groupname(old(host).history(), final(host).history(), name.deep_view()),
{
    let ghost before = host.history();
    let gid = get_current_gid(host);
    let ghost between = host.history();
    let group = get_group_by_gid(host, gid);
    proof {
        lemma_grown_by_push(before, between.last());
        assert(between =~= before.push(between.last()));
        lemma_grown_by_twice(before, between, host.history(), 1, 1);
    }
    match group {
        Some(g) => Some(g.name().to_owned()),
        None => None,
    }
}

/// Returns the group ID for the effective user running the process.
pub fn get_effective_gid<H: Host>(host: &mut Traced<H>) -> (gid: gid_t)
    ensures
        final(host).history() == old(host).history().push(Event::GetEgid(gid)),
{
    host.getegid()
}

/// Returns the groupname of the effective user running the process.
pub fn get_effective_groupname<H: Host>(host: &mut Traced<H>) -> (name: Option<String>)
    ensures
        asked_effective_groupname(old(host).history(), final(host).history(), name.deep_view()),
{
    let ghost before = host.history();
    let gid = get_effective_gid(host);
    let ghost between = host.history();
    let group = get_group_by_gid(host, gid);
    proof {
        lemma_grown_by_push(before, between.last());
        assert(between =~= before.push(between.last()));
        lemma_grown_by_twice(before, between, host.history(), 1, 1);
    }
    match group {
        Some(g) => Some(g.name().to_owned()),
        None => None,
    }
}

/// Number of entries of the buffer that a list of groups is read into.
pub const GROUP_BUFFER: usize = 1024;

/// A buffer of `size` zeros after the host has written `written` to its
/// start.  What does not fit is not written.
pub open spec fn buffer_after(written: Seq<gid_t>, size: nat) -> Seq<gid_t> {
    Seq::new(
        size,
        |i: int|
            if i < written.len() {
                written[i]
            } else {
                0
            },
    )
}

/// `ids` without the repetitions that directly follow one another: of a run
/// of equal IDs the first stays.
pub open spec fn dedup_ids(ids: Seq<gid_t>) -> Seq<gid_t>
    decreases ids.len(),
{
    if ids.len() == 0 {
        Seq::empty()
    } else {
        let rest = dedup_ids(ids.drop_last());
        if rest.len() > 0 && rest.last() == ids.last() {
            rest
        } else {
            rest.push(ids.last())
        }
    }
}

/// `groups` without the groups that directly follow one with the same ID.
pub open spec fn dedup_groups(groups: Seq<GroupView>) -> Seq<GroupView>
    decreases groups.len(),
{
    if groups.len() == 0 {
        Seq::empty()
    } else {
        let rest = dedup_groups(groups.drop_last());
        if rest.len() > 0 && rest.last().gid == groups.last().gid {
            rest
        } else {
            rest.push(groups.last())
        }
    }
}

/// The groups that the searches by ID among `events` found, in the order of
/// the searches.
pub open spec fn groups_found(events: Seq<Event>) -> Seq<GroupView>
    decreases events.len(),
{
    if events.len() == 0 {
        Seq::empty()
    } else {
        let rest = groups_found(events.drop_last());
        match events.last() {
            Event::GetGrGid(gid, found) => match spec_group_by_gid(gid, found) {
                Some(group) => rest.push(group),
                None => rest,
            },
            _ => rest,
        }
    }
}

/// `events` are the searches for the groups `gids`, one call each, in their
/// order.
pub open spec fn searched_groups(events: Seq<Event>, gids: Seq<gid_t>) -> bool {
    &&& events.len() == gids.len()
    &&& forall|i: int|
        0 <= i < gids.len() ==> match #[trigger] events[i] {
            Event::GetGrGid(asked, _) => asked == gids[i],
            _ => false,
        }
}

/// What the read of the group access list asks of the host, and what it
/// answers.
///
/// The host is asked to write the list into a buffer of `GROUP_BUFFER`
/// entries.  Its error is the answer.  Else every entry of the buffer is
/// searched for, in its order, and the answer holds the groups that were
/// found, without those that directly follow one with the same ID.
pub open spec fn group_access_listed(
    before: Seq<Event>,
    after: Seq<Event>,
    answer: Result<Seq<GroupView>, c_int>,
) -> bool {
    &&& after.len() > before.len()
    &&& after.take(before.len() as int) == before
    &&& match added(before, after, 0) {
        Event::GetGroups(size, Err(code)) => {
            &&& size == GROUP_BUFFER
            &&& after.len() == before.len() + 1
            &&& answer == Err::<Seq<GroupView>, c_int>(code)
        },
        Event::GetGroups(size, Ok(written)) => {
            let searches = after.skip(before.len() + 1 as int);
            &&& size == GROUP_BUFFER
            &&& searched_groups(searches, buffer_after(written, GROUP_BUFFER as nat))
            &&& answer == Ok::<Seq<GroupView>, c_int>(dedup_groups(groups_found(searches)))
        },
        _ => false,
    }
}

/// What the read of the groups of a user asks of the host, and what it
/// answers.
///
/// A name with a null character names no user: the answer is `None`, and
/// the host is not asked.  For any other name the host is asked to write the
/// groups of the user `name` with the primary group `gid` into a buffer of
/// `GROUP_BUFFER` entries.  Where it reports that they do not fit, the answer
/// is `None`.  Else every entry of the buffer that does not repeat the entry
/// in front of it is searched for, in its order, and the answer holds the
/// groups that were found.
pub open spec fn user_groups_listed(
    before: Seq<Event>,
    after: Seq<Event>,
    name: Seq<char>,
    gid: gid_t,
    answer: Option<Seq<GroupView>>,
) -> bool {
    if !is_c_name(name) {
        after == before && answer is None
    } else {
        &&& after.len() > before.len()
        &&& after.take(before.len() as int) == before
        &&& match added(before, after, 0) {
            Event::GetGroupList(asked, primary, size, None) => {
                &&& asked == name
                &&& primary == gid
                &&& size == GROUP_BUFFER
                &&& after.len() == before.len() + 1
                &&& answer is None
            },
            Event::GetGroupList(asked, primary, size, Some(written)) => {
                let searches = after.skip(before.len() + 1 as int);
                &&& asked == name
                &&& primary == gid
                &&& size == GROUP_BUFFER
                &&& searched_groups(
                    searches,
                    dedup_ids(buffer_after(written, GROUP_BUFFER as nat)),
                )
                &&& answer == Some(groups_found(searches))
            },
            _ => false,
        }
    }
}

/// The buffer of `GROUP_BUFFER` entries after the host has written
/// `written` to it.
fn fill_buffer(written: &Vec<gid_t>) -> (buff: Vec<gid_t>)
    ensures
        buff@ == buffer_after(written@, GROUP_BUFFER as nat),
{
    let mut buff: Vec<gid_t> = Vec::new();
    let mut i: usize = 0;
    while i < GROUP_BUFFER
        invariant
            i <= GROUP_BUFFER,
            buff@ == buffer_after(written@, i as nat),
        decreases GROUP_BUFFER - i,
    {
        let entry: gid_t = if i < written.len() {
            written[i]
        } else {
            0
        };
        buff.push(entry);
        assert(buff@ =~= buffer_after(written@, (i + 1) as nat));
        i += 1;
    }
    buff
}

/// Removes the IDs that repeat the one in front of them.
fn dedup(ids: &Vec<gid_t>) -> (kept: Vec<gid_t>)
    ensures
        kept@ == dedup_ids(ids@),
{
    let mut kept: Vec<gid_t> = Vec::new();
    let mut i: usize = 0;
    assert(ids@.take(0) =~= Seq::<gid_t>::empty());
    while i < ids.len()
        invariant
            i <= ids.len(),
            kept@ == dedup_ids(ids@.take(i as int)),
        decreases ids.len() - i,
    {
        assert(ids@.take(i + 1).drop_last() =~= ids@.take(i as int));
        if kept.len() == 0 || kept[kept.len() - 1] != ids[i] {
            kept.push(ids[i]);
        }
        i += 1;
    }
    assert(ids@.take(ids.len() as int) =~= ids@);
    kept
}

/// One more search by ID makes the searches grow by that search.
proof fn lemma_one_more_search(
    start: Seq<Event>,
    before: Seq<Event>,
    after: Seq<Event>,
    gids: Seq<gid_t>,
    gid: gid_t,
    group: Option<GroupView>,
)
    requires
        start.len() <= before.len(),
        searched_groups(before.skip(start.len() as int), gids),
        asked_group_by_gid(before, after, gid, group),
    ensures
        searched_groups(after.skip(start.len() as int), gids.push(gid)),
        groups_found(after.skip(start.len() as int)) == match group {
            Some(found) => groups_found(before.skip(start.len() as int)).push(found),
            None => groups_found(before.skip(start.len() as int)),
        },
        after.len() == before.len() + 1,
        after.take(start.len() as int) == before.take(start.len() as int),
{
    let n = start.len() as int;
    assert(after =~= before.push(after.last())) by {
        assert forall|i: int| 0 <= i < before.len() implies after[i] == before[i] by {
            assert(after.take(before.len() as int)[i] == before[i]);
        }
    }
    assert(after.skip(n) =~= before.skip(n).push(after.last()));
    assert(after.skip(n).drop_last() =~= before.skip(n));
    assert(after.take(n) =~= before.take(n));
}

/// Returns the group access list for the current process.
pub fn group_access_list<H: Host>(host: &mut Traced<H>) -> (answer: Result<Vec<Group>, c_int>)
    ensures
        group_access_listed(
            old(host).history(),
            final(host).history(),
            match answer {
                Ok(groups) => Ok(groups.deep_view()),
                Err(code) => Err(code),
            },
        ),
{
    let ghost before = host.history();
    let written = host.getgroups(GROUP_BUFFER);
    let ghost start = host.history();
    proof {
        lemma_grown_by_push(before, start.last());
        assert(start =~= before.push(start.last()));
    }
    let written = match written {
        Err(code) => {
            return Err(code);
        },
        Ok(written) => written,
    };
    let buff = fill_buffer(&written);
    let mut groups: Vec<Group> = Vec::new();
    let mut i: usize = 0;
    proof {
        assert(host.history().skip(start.len() as int) =~= Seq::<Event>::empty());
        assert(buff@.take(0) =~= Seq::<gid_t>::empty());
        assert(groups.deep_view() =~= Seq::<GroupView>::empty());
        assert(host.history().take(start.len() as int) =~= start);
    }
    while i < buff.len()
        invariant
            i <= buff.len(),
            start.len() + i == host.history().len(),
            host.history().take(start.len() as int) == start,
            searched_groups(host.history().skip(start.len() as int), buff@.take(i as int)),
            groups.deep_view() == dedup_groups(
                groups_found(host.history().skip(start.len() as int)),
            ),
        decreases buff.len() - i,
    {
        let ghost h = host.history();
        let ghost kept = groups.deep_view();
        let group = get_group_by_gid(host, buff[i]);
        proof {
            lemma_one_more_search(
                start,
                h,
                host.history(),
                buff@.take(i as int),
                buff@[i as int],
                group.deep_view(),
            );
            assert(buff@.take(i + 1) =~= buff@.take(i as int).push(buff@[i as int]));
            assert(h.take(start.len() as int) =~= start);
        }
        match group {
            Some(found) => {
                let ghost all = groups_found(host.history().skip(start.len() as int));
                assert(all.drop_last() =~= groups_found(h.skip(start.len() as int)));
                if groups.len() == 0 || groups[groups.len() - 1].gid() != found.gid() {
                    groups.push(found);
                    assert(groups.deep_view() =~= kept.push(found@));
                }
            },
            None => {},
        }
        i += 1;
    }
    proof {
        let h = host.history();
        assert(buff@.take(buff.len() as int) =~= buff@);
        assert(h.take(before.len() as int) =~= before) by {
            assert(h.take(start.len() as int).take(before.len() as int) =~= h.take(
                before.len() as int,
            ));
        }
        assert(added(before, h, 0) == start.last()) by {
            assert(h.take(start.len() as int)[before.len() as int] == h[before.len() as int]);
        }
    }
    Ok(groups)
}

/// Returns groups for a provided user name and primary group id.
pub fn get_user_groups<H: Host>(host: &mut Traced<H>, username: &str, gid: gid_t) -> (answer: Option<
    Vec<Group>,
>)
    ensures
        user_groups_listed(
            old(host).history(),
            final(host).history(),
            username@,
            gid,
            answer.deep_view(),
        ),
{
    proof {
        lemma_c_name_bytes(username@);
    }
    if has_nul(username.as_bytes()) {
        return None;
    }
    let ghost before = host.history();
    let written = host.getgrouplist(username, gid, GROUP_BUFFER);
    let ghost start = host.history();
    proof {
        lemma_grown_by_push(before, start.last());
        assert(start =~= before.push(start.last()));
    }
    let written = match written {
        None => {
            return None;
        },
        Some(written) => {
            assert(written.deep_view() =~= written@);
            written
        },
    };
    let buff = dedup(&fill_buffer(&written));
    let mut groups: Vec<Group> = Vec::new();
    let mut i: usize = 0;
    proof {
        assert(host.history().skip(start.len() as int) =~= Seq::<Event>::empty());
        assert(buff@.take(0) =~= Seq::<gid_t>::empty());
        assert(groups.deep_view() =~= Seq::<GroupView>::empty());
        assert(host.history().take(start.len() as int) =~= start);
    }
    while i < buff.len()
        invariant
            i <= buff.len(),
            start.len() + i == host.history().len(),
            host.history().take(start.len() as int) == start,
            searched_groups(host.history().skip(start.len() as int), buff@.take(i as int)),
            groups.deep_view() == groups_found(host.history().skip(start.len() as int)),
        decreases buff.len() - i,
    {
        let ghost h = host.history();
        let ghost kept = groups.deep_view();
        let group = get_group_by_gid(host, buff[i]);
        proof {
            lemma_one_more_search(
                start,
                h,
                host.history(),
                buff@.take(i as int),
                buff@[i as int],
                group.deep_view(),
            );
            assert(buff@.take(i + 1) =~= buff@.take(i as int).push(buff@[i as int]));
            assert(h.take(start.len() as int) =~= start);
        }
        match group {
            Some(found) => {
                groups.push(found);
                assert(groups.deep_view() =~= kept.push(found@));
            },
            None => {},
        }
        i += 1;
    }
    proof {
        let h = host.history();
        assert(buff@.take(buff.len() as int) =~= buff@);
        assert(h.take(before.len() as int) =~= before) by {
            assert(h.take(start.len() as int).take(before.len() as int) =~= h.take(
                before.len() as int,
            ));
        }
        assert(added(before, h, 0) == start.last()) by {
            assert(h.take(start.len() as int)[before.len() as int] == h[before.len() as int]);
        }
    }
    Some(groups)
}

impl User {
    /// Returns a list of groups this user is a member of. This involves
    /// loading the groups list, as it is _not_ contained within this type.
    pub fn groups<H: Host>(&self, host: &mut Traced<H>) -> (answer: Option<Vec<Group>>)
        ensures
            user_groups_listed(
                old(host).history(),
                final(host).history(),
                self@.name,
                self@.primary_group,
                answer.deep_view(),
            ),
    {
        get_user_groups(host, self.name(), self.primary_group_id())
    }
}

/// `events` are reads of the walk over all users, of which no other than
/// the last reports the end of the walk.
pub open spec fn reads_in_a_row(events: Seq<Event>) -> bool {
    &&& forall|i: int| 0 <= i < events.len() ==> #[trigger] events[i] is GetPwEnt
    &&& forall|i: int| 0 <= i < events.len() - 1 ==> #[trigger] events[i] != Event::GetPwEnt(None)
}

/// The users that the reads of the walk among `events` handed out, in their
/// order.
pub open spec fn users_read(events: Seq<Event>) -> Seq<UserView>
    decreases events.len(),
{
    if events.len() == 0 {
        Seq::empty()
    } else {
        let rest = users_read(events.drop_last());
        match events.last() {
            Event::GetPwEnt(Some(passwd)) => rest.push(spec_passwd_to_user(passwd)),
            _ => rest,
        }
    }
}

/// How often `events` close the walk over all users.
pub open spec fn closes(events: Seq<Event>) -> nat
    decreases events.len(),
{
    if events.len() == 0 {
        0
    } else if events.last() is EndPwEnt {
        closes(events.drop_last()) + 1
    } else {
        closes(events.drop_last())
    }
}

/// What reading the rest of a walk and closing it asks of the host, and
/// what it answers.
///
/// The host is asked for the next user until it reports the end of the walk
/// or `limit` users have been read, and then, in every case, to close the
/// walk.  `users` are the users that were read, in their order.
pub open spec fn collected(
    before: Seq<Event>,
    after: Seq<Event>,
    limit: usize,
    users: Seq<UserView>,
) -> bool {
    let reads = after.subrange(before.len() as int, after.len() - 1);
    &&& after.len() > before.len()
    &&& after.take(before.len() as int) == before
    &&& after.last() == Event::EndPwEnt
    &&& reads_in_a_row(reads)
    &&& users == users_read(reads)
    &&& users.len() <= limit
    &&& reads.len() == users.len() || (reads.len() == users.len() + 1 && reads.last()
        == Event::GetPwEnt(None))
    &&& users.len() < limit ==> reads.len() == users.len() + 1
}

/// Reads do not close a walk.
pub proof fn lemma_reads_close_nothing(events: Seq<Event>)
    requires
        forall|i: int| 0 <= i < events.len() ==> #[trigger] events[i] is GetPwEnt,
    ensures
        closes(events) == 0,
    decreases events.len(),
{
    if events.len() > 0 {
        lemma_reads_close_nothing(events.drop_last());
    }
}

/// Cleanup: a walk that is read to its end, or given up after `limit`
/// users, closes exactly once, and is closed afterwards.
pub proof fn law_walk_closes_once(
    before: Seq<Event>,
    after: Seq<Event>,
    limit: usize,
    users: Seq<UserView>,
)
    requires
        collected(before, after, limit, users),
    ensures
        closes(after.skip(before.len() as int)) == 1,
        !walk_open(after),
{
    let calls = after.skip(before.len() as int);
    let reads = after.subrange(before.len() as int, after.len() - 1);
    assert(calls.drop_last() =~= reads);
    assert(calls.last() == after.last());
    lemma_reads_close_nothing(reads);
}

/// An iterator over every user present on the system.
///
/// The host keeps one position for the whole process.  A second walk that is
/// opened while this one lives rewinds it, so a walk can only be made over a
/// host that has none open, and it keeps the host until it is closed.
pub struct AllUsers<H: Host> {
    host: Traced<H>,
}

impl<H: Host> AllUsers<H> {
    /// The calls made to the host of this walk.
    pub closed spec fn history(&self) -> Seq<Event> {
        self.host.history()
    }

    /// Creates a new iterator over every user present on the system.
    ///
    /// The caller answers for it that no other walk over the users of this
    /// process is open: the host cannot tell two of them apart.
    pub fn new(host: Traced<H>) -> (walk: AllUsers<H>)
        requires
            !walk_open(host.history()),
        ensures
            walk.history() == host.history().push(Event::SetPwEnt),
            walk_open(walk.history()),
    {
        let mut host = host;
        host.setpwent();
        AllUsers { host }
    }

    /// The host of this walk.
    pub fn host(&self) -> (host: &Traced<H>)
        ensures
            host.history() == self.history(),
    {
        &self.host
    }

    /// The next user of the walk; `None` once the host reports its end.
    pub fn next(&mut self) -> (user: Option<User>)
        ensures
            grown_by(old(self).history(), final(self).history(), 1),
            match added(old(self).history(), final(self).history(), 0) {
                Event::GetPwEnt(found) => user.deep_view() == match found {
                    Some(passwd) => Some(spec_passwd_to_user(passwd)),
                    None => None,
                },
                _ => false,
            },
            walk_open(old(self).history()) ==> walk_open(final(self).history()),
    {
        let ghost before = self.host.history();
        let found = self.host.getpwent();
        proof {
            assert(self.host.history().drop_last() =~= before);
            assert(self.host.history().take(before.len() as int) =~= before);
        }
        passwd_to_user(found)
    }

    /// Reads the users that are left of the walk, `limit` of them at most,
    /// then closes the walk and hands the host back.
    pub fn collect(self, limit: usize) -> (out: (Vec<User>, Traced<H>))
        ensures
            collected(self.history(), out.1.history(), limit, out.0.deep_view()),
    {
        let mut walk = self;
        let ghost before = walk.history();
        let mut users: Vec<User> = Vec::new();
        let mut ended = false;
        proof {
            assert(walk.history().skip(before.len() as int) =~= Seq::<Event>::empty());
            assert(walk.history().take(before.len() as int) =~= before);
            assert(users.deep_view() =~= Seq::<UserView>::empty());
        }
        while !ended && users.len() < limit
            invariant
                walk.history().len() >= before.len(),
                walk.history().take(before.len() as int) == before,
                reads_in_a_row(walk.history().skip(before.len() as int)),
                users.deep_view() == users_read(walk.history().skip(before.len() as int)),
                walk.history().len() - before.len() == users.len() + if ended {
                    1int
                } else {
                    0int
                },
                ended ==> walk.history().last() == Event::GetPwEnt(None),
                !ended ==> forall|i: int|
                    0 <= i < walk.history().skip(before.len() as int).len()
                        ==> #[trigger] walk.history().skip(before.len() as int)[i]
                        != Event::GetPwEnt(None),
                users.len() <= limit,
            decreases limit - users.len() + if ended { 0int } else { 1int },
        {
            let ghost h = walk.history();
            let ghost kept = users.deep_view();
            let user = walk.next();
            proof {
                let now = walk.history();
                assert(now =~= h.push(now.last())) by {
                    assert forall|i: int| 0 <= i < h.len() implies now[i] == h[i] by {
                        assert(now.take(h.len() as int)[i] == h[i]);
                    }
                }
                assert(now.skip(before.len() as int) =~= h.skip(before.len() as int).push(
                    now.last(),
                ));
                assert(now.skip(before.len() as int).drop_last() =~= h.skip(before.len() as int));
                assert(now.take(before.len() as int) =~= h.take(before.len() as int));
                let reads = now.skip(before.len() as int);
                let earlier = h.skip(before.len() as int);
                assert(now.last() == added(h, now, 0));
                assert forall|i: int| 0 <= i < reads.len() implies #[trigger] reads[i]
                    is GetPwEnt by {
                    if i < earlier.len() {
                        assert(reads[i] == earlier[i]);
                    }
                }
                assert forall|i: int| 0 <= i < reads.len() - 1 implies #[trigger] reads[i]
                    != Event::GetPwEnt(None) by {
                    assert(reads[i] == earlier[i]);
                }
                if user is Some {
                    assert forall|i: int| 0 <= i < reads.len() implies #[trigger] reads[i]
                        != Event::GetPwEnt(None) by {
                        if i < earlier.len() {
                            assert(reads[i] == earlier[i]);
                        }
                    }
                }
            }
            match user {
                Some(found) => {
                    users.push(found);
                    assert(users.deep_view() =~= kept.push(found@));
                },
                None => {
                    ended = true;
                },
            }
        }
        let ghost read = walk.history();
        let host = walk.close();
        proof {
            let after = host.history();
            assert(after.take(before.len() as int) =~= before);
            assert(after.subrange(before.len() as int, after.len() - 1) =~= read.skip(
                before.len() as int,
            ));
        }
        (users, host)
    }

    /// Closes the walk and hands the host back.
    pub fn close(self) -> (host: Traced<H>)
        ensures
            host.history() == self.history().push(Event::EndPwEnt),
            !walk_open(host.history()),
    {
        let mut host = self.host;
        host.endpwent();
        host
    }
}

/// Creates a new iterator over every user present on the system.
///
/// The caller answers for it that no other walk over the users of this
/// process is open.
pub fn all_users<H: Host>(host: Traced<H>) -> (walk: AllUsers<H>)
    requires
        !walk_open(host.history()),
    ensures
        walk.history() == host.history().push(Event::SetPwEnt),
        walk_open(walk.history()),
{
    AllUsers::new(host)
}

} // verus!
