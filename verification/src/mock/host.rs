//! A host that lives in memory.
//!
//! [`MockHost`] answers every call of [`Host`] from two tables and four IDs
//! that the test fills in, and keeps a list of the calls that were made to
//! it, so that a test can count them.

use vstd::prelude::*;
use vstd::utf8::encode_utf8;
use crate::base::{spec_group_to_struct, spec_user_to_passwd, Group, User};
use crate::host::{error_of, id_list, Host};
use crate::raw::{
    c_group, c_passwd, c_str_bytes, c_str_eq, members, spec_members, str_eq, RawGroup, RawPasswd,
};
use crate::{c_int, gid_t, uid_t};

verus! {

/// The error code of a change that is not permitted.
pub const EPERM: c_int = 1;

/// The error code of a buffer that is too small.
pub const EINVAL: c_int = 22;

/// A call that was made to a `MockHost`.
#[derive(Clone, Copy, Debug, PartialEq, Eq)]
pub enum Call {
    GetPwUid(uid_t),
    GetPwNam,
    GetGrGid(gid_t),
    GetGrNam,
    GetUid,
    GetEuid,
    GetGid,
    GetEgid,
    SetUid(uid_t),
    SetGid(gid_t),
    SetEuid(uid_t),
    SetEgid(gid_t),
    SetReUid(uid_t, uid_t),
    SetReGid(gid_t, gid_t),
    GetGroups,
    GetGroupList(gid_t),
    SetPwEnt,
    GetPwEnt,
    EndPwEnt,
}

/// A host made of two tables and the identity of a process.
pub struct MockHost {
    passwd: Vec<c_passwd>,
    group: Vec<c_group>,
    uid: uid_t,
    euid: uid_t,
    gid: gid_t,
    egid: gid_t,
    access: Vec<gid_t>,
    privileged: bool,
    cursor: usize,
    calls: Vec<Call>,
}

/// Mathematical value of a `MockHost`.
pub struct MockHostView {
    /// The user database, in the order of the walk over all users.
    pub passwd: Seq<RawPasswd>,
    /// The group database.
    pub group: Seq<RawGroup>,
    /// The real user ID.
    pub uid: uid_t,
    /// The effective user ID.
    pub euid: uid_t,
    /// The real group ID.
    pub gid: gid_t,
    /// The effective group ID.
    pub egid: gid_t,
    /// The group access list of the process.
    pub access: Seq<gid_t>,
    /// Whether the process may take any identity.
    pub privileged: bool,
    /// The position of the walk over all users.
    pub cursor: nat,
    /// The calls made so far, oldest first.
    pub calls: Seq<Call>,
}

/// The first entry of `table` for the user `uid`.
pub open spec fn find_passwd_by_uid(table: Seq<RawPasswd>, uid: uid_t) -> Option<RawPasswd>
    decreases table.len(),
{
    if table.len() == 0 {
        None
    } else if table[0].uid == uid {
        Some(table[0])
    } else {
        find_passwd_by_uid(table.drop_first(), uid)
    }
}

/// The first entry of `table` whose name is `name`.
pub open spec fn find_passwd_by_name(table: Seq<RawPasswd>, name: Seq<char>) -> Option<RawPasswd>
    decreases table.len(),
{
    if table.len() == 0 {
        None
    } else if c_str_bytes(table[0].name) == encode_utf8(name) {
        Some(table[0])
    } else {
        find_passwd_by_name(table.drop_first(), name)
    }
}

/// The first entry of `table` for the group `gid`.
pub open spec fn find_group_by_gid(table: Seq<RawGroup>, gid: gid_t) -> Option<RawGroup>
    decreases table.len(),
{
    if table.len() == 0 {
        None
    } else if table[0].gid == gid {
        Some(table[0])
    } else {
        find_group_by_gid(table.drop_first(), gid)
    }
}

/// The first entry of `table` whose name is `name`.
pub open spec fn find_group_by_name(table: Seq<RawGroup>, name: Seq<char>) -> Option<RawGroup>
    decreases table.len(),
{
    if table.len() == 0 {
        None
    } else if c_str_bytes(table[0].name) == encode_utf8(name) {
        Some(table[0])
    } else {
        find_group_by_name(table.drop_first(), name)
    }
}

/// The groups of `table` that name `name` among their members, but for the
/// group `gid`: their IDs, in the order of the table.
pub open spec fn groups_of_member(table: Seq<RawGroup>, name: Seq<char>, gid: gid_t) -> Seq<gid_t>
    decreases table.len(),
{
    if table.len() == 0 {
        Seq::empty()
    } else {
        let rest = groups_of_member(table.drop_last(), name, gid);
        if table.last().gid != gid && spec_members(table.last().mem).contains(name) {
            rest.push(table.last().gid)
        } else {
            rest
        }
    }
}

/// The groups that the user `name` with the primary group `gid` belongs to:
/// the primary group first.
pub open spec fn group_list(table: Seq<RawGroup>, name: Seq<char>, gid: gid_t) -> Seq<gid_t> {
    seq![gid] + groups_of_member(table, name, gid)
}

impl MockHostView {
    /// This value with one more call in its list.
    pub open spec fn called(self, call: Call) -> MockHostView {
        MockHostView { calls: self.calls.push(call), ..self }
    }

    /// Whether the process may make `id` its real or effective user ID: it
    /// is privileged, or `id` is one of the two already.
    pub open spec fn may_be_user(self, id: uid_t) -> bool {
        self.privileged || id == self.uid || id == self.euid
    }

    /// Whether the process may make `id` its real or effective group ID.
    pub open spec fn may_be_group(self, id: gid_t) -> bool {
        self.privileged || id == self.gid || id == self.egid
    }

    /// The entry that the walk over all users hands out next.
    pub open spec fn next_entry(self) -> Option<RawPasswd> {
        if self.cursor < self.passwd.len() {
            Some(self.passwd[self.cursor as int])
        } else {
            None
        }
    }
}

/// The error code of a change that is permitted or not.
pub open spec fn permit(permitted: bool) -> Option<c_int> {
    if permitted {
        None
    } else {
        Some(EPERM)
    }
}

impl View for MockHost {
    type V = MockHostView;

    closed spec fn view(&self) -> MockHostView {
        MockHostView {
            passwd: self.passwd.deep_view(),
            group: self.group.deep_view(),
            uid: self.uid,
            euid: self.euid,
            gid: self.gid,
            egid: self.egid,
            access: self.access@,
            privileged: self.privileged,
            cursor: self.cursor as nat,
            calls: self.calls@,
        }
    }
}

impl MockHost {
    /// A host with empty tables, for a process without privileges whose
    /// real and effective user is `uid` and whose real and effective group is
    /// `gid`.
    pub fn new(uid: uid_t, gid: gid_t) -> (host: MockHost)
        ensures
            host@ == (MockHostView {
                passwd: Seq::empty(),
                group: Seq::empty(),
                uid,
                euid: uid,
                gid,
                egid: gid,
                access: Seq::empty(),
                privileged: false,
                cursor: 0,
                calls: Seq::empty(),
            }),
    {
        let host = MockHost {
            passwd: Vec::new(),
            group: Vec::new(),
            uid,
            euid: uid,
            gid,
            egid: gid,
            access: Vec::new(),
            privileged: false,
            cursor: 0,
            calls: Vec::new(),
        };
        assert(host.passwd.deep_view() =~= Seq::<RawPasswd>::empty());
        assert(host.group.deep_view() =~= Seq::<RawGroup>::empty());
        host
    }

    /// Says whether the process may take any identity.
    pub fn set_privileged(&mut self, privileged: bool)
        ensures
            final(self)@ == (MockHostView { privileged, ..old(self)@ }),
    {
        self.privileged = privileged;
    }

    /// Adds a group at the end of the group access list of the process.
    pub fn add_access(&mut self, gid: gid_t)
        ensures
            final(self)@ == (MockHostView { access: old(self)@.access.push(gid), ..old(self)@ }),
    {
        self.access.push(gid);
    }

    /// Adds an entry at the end of the user database.
    pub fn add_passwd(&mut self, entry: c_passwd)
        ensures
            final(self)@ == (MockHostView {
                passwd: old(self)@.passwd.push(entry.deep_view()),
                ..old(self)@
            }),
    {
        self.passwd.push(entry);
        assert(self.passwd.deep_view() =~= old(self).passwd.deep_view().push(entry.deep_view()));
    }

    /// Adds an entry at the end of the group database.
    pub fn add_struct(&mut self, entry: c_group)
        ensures
            final(self)@ == (MockHostView {
                group: old(self)@.group.push(entry.deep_view()),
                ..old(self)@
            }),
    {
        self.group.push(entry);
        assert(self.group.deep_view() =~= old(self).group.deep_view().push(entry.deep_view()));
    }

    /// Adds the entry that describes `user` at the end of the user database.
    pub fn add_user(&mut self, user: &User)
        ensures
            final(self)@ == (MockHostView {
                passwd: old(self)@.passwd.push(spec_user_to_passwd(user@)),
                ..old(self)@
            }),
    {
        self.add_passwd(user.to_passwd());
    }

    /// Adds the entry that describes `group` at the end of the group
    /// database.
    pub fn add_group(&mut self, group: &Group)
        ensures
            final(self)@ == (MockHostView {
                group: old(self)@.group.push(spec_group_to_struct(group@)),
                ..old(self)@
            }),
    {
        self.add_struct(group.to_struct());
    }

    /// The calls made to this host so far, oldest first.
    pub fn calls(&self) -> (calls: &Vec<Call>)
        ensures
            calls@ == self@.calls,
    {
        &self.calls
    }

    /// The real user ID of the process.
    pub fn current_uid(&self) -> (id: uid_t)
        ensures
            id == self@.uid,
    {
        self.uid
    }

    /// The effective user ID of the process.
    pub fn effective_uid(&self) -> (id: uid_t)
        ensures
            id == self@.euid,
    {
        self.euid
    }

    /// The real group ID of the process.
    pub fn current_gid(&self) -> (id: gid_t)
        ensures
            id == self@.gid,
    {
        self.gid
    }

    /// The effective group ID of the process.
    pub fn effective_gid(&self) -> (id: gid_t)
        ensures
            id == self@.egid,
    {
        self.egid
    }

    fn may_be_user(&self, id: uid_t) -> (permitted: bool)
        ensures
            permitted == self@.may_be_user(id),
    {
        self.privileged || id == self.uid || id == self.euid
    }

    fn may_be_group(&self, id: gid_t) -> (permitted: bool)
        ensures
            permitted == self@.may_be_group(id),
    {
        self.privileged || id == self.gid || id == self.egid
    }
}

impl Host for MockHost {
    fn getpwuid(&mut self, uid: u32) -> (found: Option<c_passwd>)
        ensures
            final(self)@ == old(self)@.called(Call::GetPwUid(uid)),
            found.deep_view() == find_passwd_by_uid(old(self)@.passwd, uid),
    {
        self.calls.push(Call::GetPwUid(uid));
        let ghost table = self.passwd.deep_view();
        let mut i: usize = 0;
        assert(table.skip(0) =~= table);
        while i < self.passwd.len()
            invariant
                table == self.passwd.deep_view(),
                self@ == old(self)@.called(Call::GetPwUid(uid)),
                i <= self.passwd.len(),
                find_passwd_by_uid(table, uid) == find_passwd_by_uid(table.skip(i as int), uid),
            decreases self.passwd.len() - i,
        {
            assert(table.skip(i as int)[0] == self.passwd[i as int].deep_view());
            assert(table.skip(i as int).drop_first() =~= table.skip(i + 1));
            if self.passwd[i].pw_uid == uid {
                return Some(self.passwd[i].copy());
            }
            i += 1;
        }
        None
    }

    fn getpwnam(&mut self, name: &str) -> (found: Option<c_passwd>)
        ensures
            final(self)@ == old(self)@.called(Call::GetPwNam),
            found.deep_view() == find_passwd_by_name(old(self)@.passwd, name@),
    {
        self.calls.push(Call::GetPwNam);
        let ghost table = self.passwd.deep_view();
        let mut i: usize = 0;
        assert(table.skip(0) =~= table);
        while i < self.passwd.len()
            invariant
                table == self.passwd.deep_view(),
                self@ == old(self)@.called(Call::GetPwNam),
                i <= self.passwd.len(),
                find_passwd_by_name(table, name@) == find_passwd_by_name(
                    table.skip(i as int),
                    name@,
                ),
            decreases self.passwd.len() - i,
        {
            assert(table.skip(i as int)[0] == self.passwd[i as int].deep_view());
            assert(table.skip(i as int).drop_first() =~= table.skip(i + 1));
            if c_str_eq(self.passwd[i].pw_name.as_slice(), name.as_bytes()) {
                return Some(self.passwd[i].copy());
            }
            i += 1;
        }
        None
    }

    fn getgrgid(&mut self, gid: u32) -> (found: Option<c_group>)
        ensures
            final(self)@ == old(self)@.called(Call::GetGrGid(gid)),
            found.deep_view() == find_group_by_gid(old(self)@.group, gid),
    {
        self.calls.push(Call::GetGrGid(gid));
        let ghost table = self.group.deep_view();
        let mut i: usize = 0;
        assert(table.skip(0) =~= table);
        while i < self.group.len()
            invariant
                table == self.group.deep_view(),
                self@ == old(self)@.called(Call::GetGrGid(gid)),
                i <= self.group.len(),
                find_group_by_gid(table, gid) == find_group_by_gid(table.skip(i as int), gid),
            decreases self.group.len() - i,
        {
            assert(table.skip(i as int)[0] == self.group[i as int].deep_view());
            assert(table.skip(i as int).drop_first() =~= table.skip(i + 1));
            if self.group[i].gr_gid == gid {
                return Some(self.group[i].copy());
            }
            i += 1;
        }
        None
    }

    fn getgrnam(&mut self, name: &str) -> (found: Option<c_group>)
        ensures
            final(self)@ == old(self)@.called(Call::GetGrNam),
            found.deep_view() == find_group_by_name(old(self)@.group, name@),
    {
        self.calls.push(Call::GetGrNam);
        let ghost table = self.group.deep_view();
        let mut i: usize = 0;
        assert(table.skip(0) =~= table);
        while i < self.group.len()
            invariant
                table == self.group.deep_view(),
                self@ == old(self)@.called(Call::GetGrNam),
                i <= self.group.len(),
                find_group_by_name(table, name@) == find_group_by_name(
                    table.skip(i as int),
                    name@,
                ),
            decreases self.group.len() - i,
        {
            assert(table.skip(i as int)[0] == self.group[i as int].deep_view());
            assert(table.skip(i as int).drop_first() =~= table.skip(i + 1));
            if c_str_eq(self.group[i].gr_name.as_slice(), name.as_bytes()) {
                return Some(self.group[i].copy());
            }
            i += 1;
        }
        None
    }

    fn getuid(&mut self) -> (id: u32)
        ensures
            final(self)@ == old(self)@.called(Call::GetUid),
            id == old(self)@.uid,
    {
        self.calls.push(Call::GetUid);
        self.uid
    }

    fn geteuid(&mut self) -> (id: u32)
        ensures
            final(self)@ == old(self)@.called(Call::GetEuid),
            id == old(self)@.euid,
    {
        self.calls.push(Call::GetEuid);
        self.euid
    }

    fn getgid(&mut self) -> (id: u32)
        ensures
            final(self)@ == old(self)@.called(Call::GetGid),
            id == old(self)@.gid,
    {
        self.calls.push(Call::GetGid);
        self.gid
    }

    fn getegid(&mut self) -> (id: u32)
        ensures
            final(self)@ == old(self)@.called(Call::GetEgid),
            id == old(self)@.egid,
    {
        self.calls.push(Call::GetEgid);
        self.egid
    }

    /// A privileged process becomes `uid` in its real and its effective
    /// user ID; another one may only make its real user ID its effective one.
    fn setuid(&mut self, uid: u32) -> (done: Result<(), i32>)
        ensures
            error_of(done) == permit(old(self)@.may_be_user(uid)),
            final(self)@ == if old(self)@.may_be_user(uid) {
                MockHostView {
                    uid: if old(self)@.privileged {
                        uid
                    } else {
                        old(self)@.uid
                    },
                    euid: uid,
                    ..old(self)@.called(Call::SetUid(uid))
                }
            } else {
                old(self)@.called(Call::SetUid(uid))
            },
    {
        self.calls.push(Call::SetUid(uid));
        if self.may_be_user(uid) {
            if self.privileged {
                self.uid = uid;
            }
            self.euid = uid;
            Ok(())
        } else {
            Err(EPERM)
        }
    }

    fn setgid(&mut self, gid: u32) -> (done: Result<(), i32>)
        ensures
            error_of(done) == permit(old(self)@.may_be_group(gid)),
            final(self)@ == if old(self)@.may_be_group(gid) {
                MockHostView {
                    gid: if old(self)@.privileged {
                        gid
                    } else {
                        old(self)@.gid
                    },
                    egid: gid,
                    ..old(self)@.called(Call::SetGid(gid))
                }
            } else {
                old(self)@.called(Call::SetGid(gid))
            },
    {
        self.calls.push(Call::SetGid(gid));
        if self.may_be_group(gid) {
            if self.privileged {
                self.gid = gid;
            }
            self.egid = gid;
            Ok(())
        } else {
            Err(EPERM)
        }
    }

    fn seteuid(&mut self, uid: u32) -> (done: Result<(), i32>)
        ensures
            error_of(done) == permit(old(self)@.may_be_user(uid)),
            final(self)@ == if old(self)@.may_be_user(uid) {
                MockHostView { euid: uid, ..old(self)@.called(Call::SetEuid(uid)) }
            } else {
                old(self)@.called(Call::SetEuid(uid))
            },
    {
        self.calls.push(Call::SetEuid(uid));
        if self.may_be_user(uid) {
            self.euid = uid;
            Ok(())
        } else {
            Err(EPERM)
        }
    }

    fn setegid(&mut self, gid: u32) -> (done: Result<(), i32>)
        ensures
            error_of(done) == permit(old(self)@.may_be_group(gid)),
            final(self)@ == if old(self)@.may_be_group(gid) {
                MockHostView { egid: gid, ..old(self)@.called(Call::SetEgid(gid)) }
            } else {
                old(self)@.called(Call::SetEgid(gid))
            },
    {
        self.calls.push(Call::SetEgid(gid));
        if self.may_be_group(gid) {
            self.egid = gid;
            Ok(())
        } else {
            Err(EPERM)
        }
    }

    fn setreuid(&mut self, ruid: u32, euid: u32) -> (done: Result<(), i32>)
        ensures
            error_of(done) == permit(
                old(self)@.may_be_user(ruid) && old(self)@.may_be_user(euid),
            ),
            final(self)@ == if old(self)@.may_be_user(ruid) && old(self)@.may_be_user(euid) {
                MockHostView { uid: ruid, euid, ..old(self)@.called(Call::SetReUid(ruid, euid)) }
            } else {
                old(self)@.called(Call::SetReUid(ruid, euid))
            },
    {
        self.calls.push(Call::SetReUid(ruid, euid));
        if self.may_be_user(ruid) && self.may_be_user(euid) {
            self.uid = ruid;
            self.euid = euid;
            Ok(())
        } else {
            Err(EPERM)
        }
    }

    fn setregid(&mut self, rgid: u32, egid: u32) -> (done: Result<(), i32>)
        ensures
            error_of(done) == permit(
                old(self)@.may_be_group(rgid) && old(self)@.may_be_group(egid),
            ),
            final(self)@ == if old(self)@.may_be_group(rgid) && old(self)@.may_be_group(egid) {
                MockHostView { gid: rgid, egid, ..old(self)@.called(Call::SetReGid(rgid, egid)) }
            } else {
                old(self)@.called(Call::SetReGid(rgid, egid))
            },
    {
        self.calls.push(Call::SetReGid(rgid, egid));
        if self.may_be_group(rgid) && self.may_be_group(egid) {
            self.gid = rgid;
            self.egid = egid;
            Ok(())
        } else {
            Err(EPERM)
        }
    }

    /// The group access list, where it fits into `size` entries.
    fn getgroups(&mut self, size: usize) -> (written: Result<Vec<u32>, i32>)
        ensures
            final(self)@ == old(self)@.called(Call::GetGroups),
            id_list(written) == if old(self)@.access.len() <= size {
                Ok::<Seq<u32>, i32>(old(self)@.access)
            } else {
                Err::<Seq<u32>, i32>(EINVAL)
            },
    {
        self.calls.push(Call::GetGroups);
        if self.access.len() <= size {
            let mut written: Vec<u32> = Vec::new();
            let mut i: usize = 0;
            while i < self.access.len()
                invariant
                    i <= self.access.len(),
                    written@ == self.access@.take(i as int),
                    self@ == old(self)@.called(Call::GetGroups),
                decreases self.access.len() - i,
            {
                written.push(self.access[i]);
                assert(self.access@.take(i + 1) =~= self.access@.take(i as int).push(
                    self.access@[i as int],
                ));
                i += 1;
            }
            assert(self.access@.take(self.access.len() as int) =~= self.access@);
            Ok(written)
        } else {
            Err(EINVAL)
        }
    }

    /// The group `gid` and the groups of the table that name `name` among
    /// their members, where they fit into `size` entries.
    fn getgrouplist(&mut self, name: &str, gid: u32, size: usize) -> (written: Option<Vec<u32>>)
        ensures
            final(self)@ == old(self)@.called(Call::GetGroupList(gid)),
            written.deep_view() == if group_list(old(self)@.group, name@, gid).len() <= size {
                Some(group_list(old(self)@.group, name@, gid))
            } else {
                None
            },
    {
        self.calls.push(Call::GetGroupList(gid));
        let ghost table = self.group.deep_view();
        let mut list: Vec<u32> = Vec::new();
        list.push(gid);
        let mut i: usize = 0;
        assert(table.take(0) =~= Seq::<RawGroup>::empty());
        while i < self.group.len()
            invariant
                table == self.group.deep_view(),
                self@ == old(self)@.called(Call::GetGroupList(gid)),
                i <= self.group.len(),
                list@ == group_list(table.take(i as int), name@, gid),
            decreases self.group.len() - i,
        {
            assert(table.take(i + 1).drop_last() =~= table.take(i as int));
            assert(table.take(i + 1).last() == self.group[i as int].deep_view());
            if self.group[i].gr_gid != gid {
                let names = members(&self.group[i].gr_mem);
                let ghost wanted = name@;
                let mut listed = false;
                let mut j: usize = 0;
                while j < names.len()
                    invariant
                        j <= names.len(),
                        listed == names.deep_view().take(j as int).contains(wanted),
                        wanted == name@,
                    decreases names.len() - j,
                {
                    let ghost seen = names.deep_view().take(j as int);
                    assert(names.deep_view().take(j + 1) =~= seen.push(names[j as int]@));
                    if str_eq(names[j].as_str(), name) {
                        listed = true;
                        assert(seen.push(names[j as int]@).last() == wanted);
                    } else {
                        proof {
                            let more = seen.push(names[j as int]@);
                            if more.contains(wanted) {
                                let k = choose|k: int| 0 <= k < more.len() && more[k] == wanted;
                                assert(seen[k] == wanted);
                            }
                            if seen.contains(wanted) {
                                let k = choose|k: int| 0 <= k < seen.len() && seen[k] == wanted;
                                assert(more[k] == wanted);
                            }
                        }
                    }
                    j += 1;
                }
                assert(names.deep_view().take(names.len() as int) =~= names.deep_view());
                if listed {
                    list.push(self.group[i].gr_gid);
                }
            }
            assert(list@ =~= group_list(table.take(i + 1), name@, gid));
            i += 1;
        }
        assert(table.take(table.len() as int) =~= table);
        if list.len() <= size {
            assert(list.deep_view() =~= list@);
            Some(list)
        } else {
            None
        }
    }

    fn setpwent(&mut self)
        ensures
            final(self)@ == (MockHostView { cursor: 0, ..old(self)@.called(Call::SetPwEnt) }),
    {
        self.calls.push(Call::SetPwEnt);
        self.cursor = 0;
    }

    fn getpwent(&mut self) -> (found: Option<c_passwd>)
        ensures
            found.deep_view() == old(self)@.next_entry(),
            final(self)@ == (MockHostView {
                cursor: if old(self)@.cursor < old(self)@.passwd.len() {
                    old(self)@.cursor + 1
                } else {
                    old(self)@.cursor
                },
                ..old(self)@.called(Call::GetPwEnt)
            }),
    {
        self.calls.push(Call::GetPwEnt);
        if self.cursor < self.passwd.len() {
            let found = self.passwd[self.cursor].copy();
            self.cursor = self.cursor + 1;
            Some(found)
        } else {
            None
        }
    }

    fn endpwent(&mut self)
        ensures
            final(self)@ == (MockHostView { cursor: 0, ..old(self)@.called(Call::EndPwEnt) }),
    {
        self.calls.push(Call::EndPwEnt);
        self.cursor = 0;
    }
}

} // verus!
