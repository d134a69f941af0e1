//! The host operating system as this crate sees it.
//!
//! [`Host`] lists the calls that the crate makes: the lookups in the user and
//! group databases, the reads and changes of the process's identity, and the
//! walk over all users.  The crate never looks behind a call and assumes
//! nothing of its answer.
//!
//! The crate reaches a host through a [`Traced`] value, which keeps the
//! [`history`](Traced::history) of the calls made through it: one [`Event`]
//! per call, which holds what was asked and what came back.  Every contract
//! of the crate is stated over that history.

use vstd::prelude::*;
use vstd::utf8::{char_is_scalar, char_u32_cast, encode_scalar, encode_utf8};
use crate::raw::{c_group, c_passwd, RawGroup, RawPasswd};

verus! {

/// One call to the host, with its arguments and its answer.  The answer of
/// a call that changes an ID is the error code of the host, or `None` where
/// the change went through.
pub enum Event {
    /// Lookup of a user by ID.
    GetPwUid(u32, Option<RawPasswd>),
    /// Lookup of a user by name.
    GetPwNam(Seq<char>, Option<RawPasswd>),
    /// Lookup of a group by ID.
    GetGrGid(u32, Option<RawGroup>),
    /// Lookup of a group by name.
    GetGrNam(Seq<char>, Option<RawGroup>),
    /// Read of the real user ID.
    GetUid(u32),
    /// Read of the effective user ID.
    GetEuid(u32),
    /// Read of the real group ID.
    GetGid(u32),
    /// Read of the effective group ID.
    GetEgid(u32),
    /// Change of the real user ID.
    SetUid(u32, Option<i32>),
    /// Change of the real group ID.
    SetGid(u32, Option<i32>),
    /// Change of the effective user ID.
    SetEuid(u32, Option<i32>),
    /// Change of the effective group ID.
    SetEgid(u32, Option<i32>),
    /// Change of the real and the effective user ID in one step.
    SetReUid(u32, u32, Option<i32>),
    /// Change of the real and the effective group ID in one step.
    SetReGid(u32, u32, Option<i32>),
    /// Read of the group access list of the process, into a buffer of the
    /// given number of entries.
    GetGroups(usize, Result<Seq<u32>, i32>),
    /// Read of the groups that a user belongs to, into a buffer of the given
    /// number of entries.
    GetGroupList(Seq<char>, u32, usize, Option<Seq<u32>>),
    /// The walk over all users was opened, or rewound.
    SetPwEnt,
    /// The walk over all users was asked for its next entry.
    GetPwEnt(Option<RawPasswd>),
    /// The walk over all users was closed.
    EndPwEnt,
}

/// A name that can be handed to the host: it holds no null character.
pub open spec fn is_c_name(name: Seq<char>) -> bool {
    !name.contains('\0')
}

/// Of the bytes that encode a character, only the one byte of the null
/// character is zero.
proof fn lemma_zero_byte_of_scalar(scalar: u32)
    by (bit_vector)
    ensures
        scalar <= 0x7F ==> (((scalar & 0x7F) as u8 == 0u8) <==> scalar == 0),
        0xC0u8 | ((scalar >> 6) & 0x1F) as u8 != 0u8,
        0xE0u8 | ((scalar >> 12) & 0x0F) as u8 != 0u8,
        0xF0u8 | ((scalar >> 18) & 0x7) as u8 != 0u8,
        0x80u8 | (scalar & 0x3F) as u8 != 0u8,
        0x80u8 | ((scalar >> 6) & 0x3F) as u8 != 0u8,
        0x80u8 | ((scalar >> 12) & 0x3F) as u8 != 0u8,
{
}

/// A text holds a null character exactly if its encoding holds a zero byte.
pub proof fn lemma_c_name_bytes(name: Seq<char>)
    ensures
        is_c_name(name) <==> !encode_utf8(name).contains(0u8),
    decreases name.len(),
{
    if name.len() == 0 {
        assert(encode_utf8(name) =~= Seq::<u8>::empty());
    } else {
        let first = encode_scalar(name[0] as u32);
        let rest = name.drop_first();
        lemma_c_name_bytes(rest);
        lemma_zero_byte_of_scalar(name[0] as u32);
        char_is_scalar(name[0]);
        let bytes = encode_utf8(name);
        assert(bytes == first + encode_utf8(rest));
        assert(first.contains(0u8) <==> name[0] as u32 == 0) by {
            if first.contains(0u8) {
                let i = choose|i: int| 0 <= i < first.len() && first[i] == 0u8;
                assert(first[i] == 0u8);
            }
            if name[0] as u32 == 0 {
                assert(first[0] == 0u8);
            }
        }
        assert(name[0] as u32 == 0 <==> name[0] == '\0') by {
            assert('\0' as u32 == 0u32);
            if name[0] as u32 == 0 {
                char_u32_cast(name[0], 0u32);
                char_u32_cast('\0', 0u32);
            }
        }
        if bytes.contains(0u8) {
            let i = choose|i: int| 0 <= i < bytes.len() && bytes[i] == 0u8;
            if i < first.len() {
                assert(first[i] == 0u8);
                assert(name[0] == '\0');
            } else {
                assert(encode_utf8(rest)[i - first.len()] == 0u8);
                let k = choose|k: int| 0 <= k < rest.len() && rest[k] == '\0';
                assert(name[k + 1] == '\0');
            }
        }
        if name.contains('\0') {
            let k = choose|k: int| 0 <= k < name.len() && name[k] == '\0';
            if k == 0 {
                let i = choose|i: int| 0 <= i < first.len() && first[i] == 0u8;
                assert(bytes[i] == 0u8);
            } else {
                assert(rest[k - 1] == '\0');
                let tail = encode_utf8(rest);
                let i = choose|i: int| 0 <= i < tail.len() && tail[i] == 0u8;
                assert(bytes[first.len() + i] == 0u8);
            }
        }
    }
}

/// Whether a walk over all users is open after the calls in `history`: the
/// latest call that opened or closed one opened it.
pub open spec fn walk_open(history: Seq<Event>) -> bool
    decreases history.len(),
{
    if history.len() == 0 {
        false
    } else {
        match history.last() {
            Event::SetPwEnt => true,
            Event::EndPwEnt => false,
            _ => walk_open(history.drop_last()),
        }
    }
}

/// `after` is `before` with `n` more calls at its end.
pub open spec fn grown_by(before: Seq<Event>, after: Seq<Event>, n: nat) -> bool {
    after.len() == before.len() + n && after.take(before.len() as int) == before
}

/// The `i`-th of the calls that `after` holds beyond `before`.
pub open spec fn added(before: Seq<Event>, after: Seq<Event>, i: int) -> Event {
    after[before.len() + i]
}

/// One more call makes a history grow by that call.
pub proof fn lemma_grown_by_push(before: Seq<Event>, event: Event)
    ensures
        grown_by(before, before.push(event), 1),
        added(before, before.push(event), 0) == event,
{
    assert(before.push(event).take(before.len() as int) =~= before);
}

/// Calls made one after the other add up.
pub proof fn lemma_grown_by_twice(
    before: Seq<Event>,
    between: Seq<Event>,
    after: Seq<Event>,
    n: nat,
    m: nat,
)
    requires
        grown_by(before, between, n),
        grown_by(between, after, m),
    ensures
        grown_by(before, after, n + m),
        after.take(before.len() + n as int) == between,
        forall|i: int| 0 <= i < n ==> added(before, after, i) == added(before, between, i),
        forall|j: int| 0 <= j < m ==> added(before, after, n + j) == added(between, after, j),
{
    assert(after.take(between.len() as int).take(before.len() as int) =~= after.take(
        before.len() as int,
    ));
    assert forall|i: int| 0 <= i < n implies added(before, after, i) == added(
        before,
        between,
        i,
    ) by {
        assert(after.take(between.len() as int)[before.len() + i] == after[before.len() + i]);
    }
}

/// The calls that this crate makes to the operating system.
///
/// An error of a call that changes an ID is the host's error code.
pub trait Host: Sized {
    /// The entry of the user database for `uid`.
    fn getpwuid(&mut self, uid: u32) -> Option<c_passwd>;

    /// The entry of the user database for `name`.  The crate never asks for
    /// a name that holds a null character.
    fn getpwnam(&mut self, name: &str) -> Option<c_passwd>
        requires
            is_c_name(name@),
    ;

    /// The entry of the group database for `gid`.
    fn getgrgid(&mut self, gid: u32) -> Option<c_group>;

    /// The entry of the group database for `name`.  The crate never asks
    /// for a name that holds a null character.
    fn getgrnam(&mut self, name: &str) -> Option<c_group>
        requires
            is_c_name(name@),
    ;

    /// The real user ID of the process.
    fn getuid(&mut self) -> u32;

    /// The effective user ID of the process.
    fn geteuid(&mut self) -> u32;

    /// The real group ID of the process.
    fn getgid(&mut self) -> u32;

    /// The effective group ID of the process.
    fn getegid(&mut self) -> u32;

    /// Sets the real user ID.
    fn setuid(&mut self, uid: u32) -> Result<(), i32>;

    /// Sets the real group ID.
    fn setgid(&mut self, gid: u32) -> Result<(), i32>;

    /// Sets the effective user ID.
    fn seteuid(&mut self, uid: u32) -> Result<(), i32>;

    /// Sets the effective group ID.
    fn setegid(&mut self, gid: u32) -> Result<(), i32>;

    /// Sets the real and the effective user ID in one step.
    fn setreuid(&mut self, ruid: u32, euid: u32) -> Result<(), i32>;

    /// Sets the real and the effective group ID in one step.
    fn setregid(&mut self, rgid: u32, egid: u32) -> Result<(), i32>;

    /// The group access list of the process: the IDs that the host writes
    /// into a buffer of `size` entries, or its error code.
    fn getgroups(&mut self, size: usize) -> Result<Vec<u32>, i32>;

    /// The groups that the user `name` belongs to, the group `gid` among
    /// them: the IDs that the host writes into a buffer of `size` entries, or
    /// `None` where it reports that they do not fit.
    fn getgrouplist(&mut self, name: &str, gid: u32, size: usize) -> Option<Vec<u32>>
        requires
            is_c_name(name@),
    ;

    /// Opens the walk over all users, or rewinds it.
    fn setpwent(&mut self);

    /// The next entry of the walk over all users; `None` at its end.
    fn getpwent(&mut self) -> Option<c_passwd>;

    /// Closes the walk over all users.
    fn endpwent(&mut self);
}

/// The error code of a change that the host refused; `None` for a change
/// that went through.
pub open spec fn error_of(done: Result<(), i32>) -> Option<i32> {
    match done {
        Ok(_) => None,
        Err(code) => Some(code),
    }
}

/// The IDs of an answer of the host, or its error code.
pub open spec fn id_list(written: Result<Vec<u32>, i32>) -> Result<Seq<u32>, i32> {
    match written {
        Ok(ids) => Ok(ids@),
        Err(code) => Err(code),
    }
}

/// A host together with the record of the calls made to it through this
/// value.
pub struct Traced<H: Host> {
    host: H,
    events: Ghost<Seq<Event>>,
}

impl<H: Host> Traced<H> {
    /// Every call made so far, oldest first.
    pub closed spec fn history(&self) -> Seq<Event> {
        self.events@
    }

    /// The host behind the record.
    pub closed spec fn inner(&self) -> H {
        self.host
    }

    /// Starts a record for `host`, with no call in it.
    pub fn new(host: H) -> (traced: Traced<H>)
        ensures
            traced.history() == Seq::<Event>::empty(),
            traced.inner() == host,
    {
        Traced { host, events: Ghost(Seq::empty()) }
    }

    /// The host behind the record.
    pub fn host(&self) -> (host: &H)
        ensures
            *host == self.inner(),
    {
        &self.host
    }

    /// Ends the record and hands the host back.
    pub fn into_host(self) -> (host: H)
        ensures
            host == self.inner(),
    {
        self.host
    }

    /// The entry of the user database for `uid`.
    pub fn getpwuid(&mut self, uid: u32) -> (found: Option<c_passwd>)
        ensures
            final(self).history() == old(self).history().push(
                Event::GetPwUid(uid, found.deep_view()),
            ),
    {
        let found = self.host.getpwuid(uid);
        self.events = Ghost(self.events@.push(Event::GetPwUid(uid, found.deep_view())));
        found
    }

    /// The entry of the user database for `name`.
    pub fn getpwnam(&mut self, name: &str) -> (found: Option<c_passwd>)
        requires
            is_c_name(name@),
        ensures
            final(self).history() == old(self).history().push(
                Event::GetPwNam(name@, found.deep_view()),
            ),
    {
        let found = self.host.getpwnam(name);
        self.events = Ghost(self.events@.push(Event::GetPwNam(name@, found.deep_view())));
        found
    }

    /// The entry of the group database for `gid`.
    pub fn getgrgid(&mut self, gid: u32) -> (found: Option<c_group>)
        ensures
            final(self).history() == old(self).history().push(
                Event::GetGrGid(gid, found.deep_view()),
            ),
    {
        let found = self.host.getgrgid(gid);
        self.events = Ghost(self.events@.push(Event::GetGrGid(gid, found.deep_view())));
        found
    }

    /// The entry of the group database for `name`.
    pub fn getgrnam(&mut self, name: &str) -> (found: Option<c_group>)
        requires
            is_c_name(name@),
        ensures
            final(self).history() == old(self).history().push(
                Event::GetGrNam(name@, found.deep_view()),
            ),
    {
        let found = self.host.getgrnam(name);
        self.events = Ghost(self.events@.push(Event::GetGrNam(name@, found.deep_view())));
        found
    }

    /// The real user ID of the process.
    pub fn getuid(&mut self) -> (id: u32)
        ensures
            final(self).history() == old(self).history().push(Event::GetUid(id)),
    {
        let id = self.host.getuid();
        self.events = Ghost(self.events@.push(Event::GetUid(id)));
        id
    }

    /// The effective user ID of the process.
    pub fn geteuid(&mut self) -> (id: u32)
        ensures
            final(self).history() == old(self).history().push(Event::GetEuid(id)),
    {
        let id = self.host.geteuid();
        self.events = Ghost(self.events@.push(Event::GetEuid(id)));
        id
    }

    /// The real group ID of the process.
    pub fn getgid(&mut self) -> (id: u32)
        ensures
            final(self).history() == old(self).history().push(Event::GetGid(id)),
    {
        let id = self.host.getgid();
        self.events = Ghost(self.events@.push(Event::GetGid(id)));
        id
    }

    /// The effective group ID of the process.
    pub fn getegid(&mut self) -> (id: u32)
        ensures
            final(self).history() == old(self).history().push(Event::GetEgid(id)),
    {
        let id = self.host.getegid();
        self.events = Ghost(self.events@.push(Event::GetEgid(id)));
        id
    }

    /// Sets the real user ID.
    pub fn setuid(&mut self, uid: u32) -> (done: Result<(), i32>)
        ensures
            final(self).history() == old(self).history().push(Event::SetUid(uid, error_of(done))),
    {
        let done = self.host.setuid(uid);
        self.events = Ghost(self.events@.push(Event::SetUid(uid, error_of(done))));
        done
    }

    /// Sets the real group ID.
    pub fn setgid(&mut self, gid: u32) -> (done: Result<(), i32>)
        ensures
            final(self).history() == old(self).history().push(Event::SetGid(gid, error_of(done))),
    {
        let done = self.host.setgid(gid);
        self.events = Ghost(self.events@.push(Event::SetGid(gid, error_of(done))));
        done
    }

    /// Sets the effective user ID.
    pub fn seteuid(&mut self, uid: u32) -> (done: Result<(), i32>)
        ensures
            final(self).history() == old(self).history().push(Event::SetEuid(uid, error_of(done))),
    {
        let done = self.host.seteuid(uid);
        self.events = Ghost(self.events@.push(Event::SetEuid(uid, error_of(done))));
        done
    }

    /// Sets the effective group ID.
    pub fn setegid(&mut self, gid: u32) -> (done: Result<(), i32>)
        ensures
            final(self).history() == old(self).history().push(Event::SetEgid(gid, error_of(done))),
    {
        let done = self.host.setegid(gid);
        self.events = Ghost(self.events@.push(Event::SetEgid(gid, error_of(done))));
        done
    }

    /// Sets the real and the effective user ID in one step.
    pub fn setreuid(&mut self, ruid: u32, euid: u32) -> (done: Result<(), i32>)
        ensures
            final(self).history() == old(self).history().push(Event::SetReUid(ruid, euid, error_of(done))),
    {
        let done = self.host.setreuid(ruid, euid);
        self.events = Ghost(self.events@.push(Event::SetReUid(ruid, euid, error_of(done))));
        done
    }

    /// Sets the real and the effective group ID in one step.
    pub fn setregid(&mut self, rgid: u32, egid: u32) -> (done: Result<(), i32>)
        ensures
            final(self).history() == old(self).history().push(Event::SetReGid(rgid, egid, error_of(done))),
    {
        let done = self.host.setregid(rgid, egid);
        self.events = Ghost(self.events@.push(Event::SetReGid(rgid, egid, error_of(done))));
        done
    }

    /// The group access list of the process.
    pub fn getgroups(&mut self, size: usize) -> (written: Result<Vec<u32>, i32>)
        ensures
            final(self).history() == old(self).history().push(
                Event::GetGroups(size, id_list(written)),
            ),
    {
        let written = self.host.getgroups(size);
        self.events = Ghost(self.events@.push(Event::GetGroups(size, id_list(written))));
        written
    }

    /// The groups that the user `name` belongs to.
    pub fn getgrouplist(&mut self, name: &str, gid: u32, size: usize) -> (written: Option<Vec<u32>>)
        requires
            is_c_name(name@),
        ensures
            final(self).history() == old(self).history().push(
                Event::GetGroupList(name@, gid, size, written.deep_view()),
            ),
    {
        let written = self.host.getgrouplist(name, gid, size);
        self.events = Ghost(
            self.events@.push(Event::GetGroupList(name@, gid, size, written.deep_view())),
        );
        written
    }

    /// Opens the walk over all users, or rewinds it.
    pub fn setpwent(&mut self)
        ensures
            final(self).history() == old(self).history().push(Event::SetPwEnt),
    {
        self.host.setpwent();
        self.events = Ghost(self.events@.push(Event::SetPwEnt));
    }

    /// The next entry of the walk over all users; `None` at its end.
    pub fn getpwent(&mut self) -> (found: Option<c_passwd>)
        ensures
            final(self).history() == old(self).history().push(
                Event::GetPwEnt(found.deep_view()),
            ),
    {
        let found = self.host.getpwent();
        self.events = Ghost(self.events@.push(Event::GetPwEnt(found.deep_view())));
        found
    }

    /// Closes the walk over all users.
    pub fn endpwent(&mut self)
        ensures
            final(self).history() == old(self).history().push(Event::EndPwEnt),
    {
        self.host.endpwent();
        self.events = Ghost(self.events@.push(Event::EndPwEnt));
    }
}

} // verus!
