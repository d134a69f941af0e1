//! Raw records as the host hands them out, and their conversion into owned
//! text.
//!
//! A C string field is held as the bytes of its buffer.  Only the bytes in
//! front of the first zero byte belong to the string; whatever follows the
//! terminator is ignored.

use vstd::prelude::*;
use vstd::slice::slice_subrange;
use vstd::string::{StrSliceExecFns, StringSliceAdditionalSpecFns};
use vstd::utf8::{
    decode_utf8, encode_utf8, encode_utf8_decode_utf8, encode_utf8_valid_utf8, valid_utf8,
};

verus! {

/// One entry of the user database as the host returns it.  Each text field
/// holds the bytes of a C buffer.
#[allow(non_camel_case_types)]
#[derive(Clone, Debug, PartialEq, Eq)]
pub struct c_passwd {
    /// user name
    pub pw_name: Vec<u8>,
    /// password field
    pub pw_passwd: Vec<u8>,
    /// user ID
    pub pw_uid: u32,
    /// group ID
    pub pw_gid: u32,
    /// password change time; zero on hosts that keep none
    pub pw_change: i64,
    /// user's home directory
    pub pw_dir: Vec<u8>,
    /// user's shell
    pub pw_shell: Vec<u8>,
    /// password expiry time; zero on hosts that keep none
    pub pw_expire: i64,
}

/// One entry of the group database as the host returns it.
#[allow(non_camel_case_types)]
#[derive(Clone, Debug, PartialEq, Eq)]
pub struct c_group {
    /// group name
    pub gr_name: Vec<u8>,
    /// group id
    pub gr_gid: u32,
    /// Names of the users in the group: the slots of a pointer array.  `None`
    /// for the whole field is a null array pointer, `None` in a slot is a null
    /// entry.
    pub gr_mem: Option<Vec<Option<Vec<u8>>>>,
}

/// Mathematical value of a `c_passwd`.
pub struct RawPasswd {
    pub name: Seq<u8>,
    pub passwd: Seq<u8>,
    pub uid: u32,
    pub gid: u32,
    pub change: i64,
    pub dir: Seq<u8>,
    pub shell: Seq<u8>,
    pub expire: i64,
}

/// Mathematical value of a `c_group`.
pub struct RawGroup {
    pub name: Seq<u8>,
    pub gid: u32,
    pub mem: Option<Seq<Option<Seq<u8>>>>,
}

impl DeepView for c_passwd {
    type V = RawPasswd;

    open spec fn deep_view(&self) -> RawPasswd {
        RawPasswd {
            name: self.pw_name@,
            passwd: self.pw_passwd@,
            uid: self.pw_uid,
            gid: self.pw_gid,
            change: self.pw_change,
            dir: self.pw_dir@,
            shell: self.pw_shell@,
            expire: self.pw_expire,
        }
    }
}

impl DeepView for c_group {
    type V = RawGroup;

    open spec fn deep_view(&self) -> RawGroup {
        RawGroup { name: self.gr_name@, gid: self.gr_gid, mem: self.gr_mem.deep_view() }
    }
}

/// Number of bytes in front of the first zero byte of `buf`; the whole length
/// where `buf` holds no zero byte.
pub open spec fn c_str_len(buf: Seq<u8>) -> nat
    decreases buf.len(),
{
    if buf.len() == 0 || buf[0] == 0 {
        0
    } else {
        1 + c_str_len(buf.drop_first())
    }
}

/// The bytes of the C string that starts at the beginning of `buf`.
pub open spec fn c_str_bytes(buf: Seq<u8>) -> Seq<u8> {
    buf.take(c_str_len(buf) as int)
}

/// `c_str_len` is the only index that has no zero byte in front of it and
/// either ends the buffer or holds a zero byte.
pub proof fn lemma_c_str_len_unique(buf: Seq<u8>, n: int)
    requires
        0 <= n <= buf.len(),
        forall|j: int| 0 <= j < n ==> buf[j] != 0,
        n < buf.len() ==> buf[n] == 0,
    ensures
        c_str_len(buf) == n,
    decreases buf.len(),
{
    if buf.len() == 0 || buf[0] == 0 {
    } else {
        let rest = buf.drop_first();
        assert forall|j: int| 0 <= j < n - 1 implies rest[j] != 0 by {
            assert(rest[j] == buf[j + 1]);
        }
        lemma_c_str_len_unique(rest, n - 1);
    }
}

/// The string never runs past its buffer and holds no zero byte.
pub proof fn lemma_c_str_bytes_no_nul(buf: Seq<u8>)
    ensures
        c_str_len(buf) <= buf.len(),
        forall|j: int| 0 <= j < c_str_bytes(buf).len() ==> c_str_bytes(buf)[j] != 0,
        c_str_len(buf) < buf.len() ==> buf[c_str_len(buf) as int] == 0,
    decreases buf.len(),
{
    if buf.len() == 0 || buf[0] == 0 {
    } else {
        let rest = buf.drop_first();
        lemma_c_str_bytes_no_nul(rest);
        assert forall|j: int| 0 <= j < c_str_bytes(buf).len() implies c_str_bytes(buf)[j] != 0 by {
            if j > 0 {
                assert(c_str_bytes(buf)[j] == c_str_bytes(rest)[j - 1]);
            }
        }
        if c_str_len(buf) < buf.len() {
            assert(buf[c_str_len(buf) as int] == rest[c_str_len(rest) as int]);
        }
    }
}

/// Length of the C string at the start of `buf`.
pub fn c_strlen(buf: &[u8]) -> (n: usize)
    ensures
        n == c_str_len(buf@),
{
    let mut i: usize = 0;
    while i < buf.len() && buf[i] != 0
        invariant
            i <= buf.len(),
            forall|j: int| 0 <= j < i ==> buf@[j] != 0,
        decreases buf.len() - i,
    {
        i += 1;
    }
    proof {
        lemma_c_str_len_unique(buf@, i as int);
    }
    i
}

/// Whether `bytes` holds a zero byte.
pub fn has_nul(bytes: &[u8]) -> (found: bool)
    ensures
        found == bytes@.contains(0u8),
{
    let n: usize = c_strlen(bytes);
    proof {
        lemma_c_str_bytes_no_nul(bytes@);
        if n < bytes.len() {
            assert(bytes@[n as int] == 0u8);
        } else {
            assert(c_str_bytes(bytes@) =~= bytes@);
        }
    }
    n < bytes.len()
}

/// Whether the C string at the start of `buf` is `key`, byte for byte.
pub fn c_str_eq(buf: &[u8], key: &[u8]) -> (same: bool)
    ensures
        same == (c_str_bytes(buf@) == key@),
{
    let n: usize = c_strlen(buf);
    proof {
        lemma_c_str_bytes_no_nul(buf@);
    }
    if n != key.len() {
        return false;
    }
    let mut i: usize = 0;
    while i < n
        invariant
            n == key.len(),
            n == c_str_len(buf@),
            n <= buf.len(),
            i <= n,
            forall|j: int| 0 <= j < i ==> buf@[j] == key@[j],
        decreases n - i,
    {
        if buf[i] != key[i] {
            assert(c_str_bytes(buf@)[i as int] != key@[i as int]);
            return false;
        }
        i += 1;
    }
    assert(c_str_bytes(buf@) =~= key@);
    true
}

/// Whether two byte strings are the same.
pub fn bytes_eq(a: &[u8], b: &[u8]) -> (same: bool)
    ensures
        same == (a@ == b@),
{
    if a.len() != b.len() {
        return false;
    }
    let mut i: usize = 0;
    while i < a.len()
        invariant
            a.len() == b.len(),
            i <= a.len(),
            forall|j: int| 0 <= j < i ==> a@[j] == b@[j],
        decreases a.len() - i,
    {
        if a[i] != b[i] {
            return false;
        }
        i += 1;
    }
    assert(a@ =~= b@);
    true
}

/// Whether two strings are the same text.
pub fn str_eq(a: &str, b: &str) -> (same: bool)
    ensures
        same == (a@ == b@),
{
    proof {
        encode_utf8_decode_utf8(a@);
        encode_utf8_decode_utf8(b@);
    }
    bytes_eq(a.as_bytes(), b.as_bytes())
}

/// A copy of a byte buffer.
pub fn copy_bytes(buf: &Vec<u8>) -> (copy: Vec<u8>)
    ensures
        copy@ == buf@,
{
    let mut copy: Vec<u8> = Vec::new();
    let mut i: usize = 0;
    while i < buf.len()
        invariant
            i <= buf.len(),
            copy@ == buf@.take(i as int),
        decreases buf.len() - i,
    {
        copy.push(buf[i]);
        assert(buf@.take(i + 1) =~= buf@.take(i as int).push(buf@[i as int]));
        i += 1;
    }
    assert(buf@.take(buf.len() as int) =~= buf@);
    copy
}

/// What `String::from_utf8_lossy` makes of `bytes`.
pub uninterp spec fn utf8_lossy(bytes: Seq<u8>) -> Seq<char>;

/// Best-effort decoding: well-formed UTF-8 decodes to the text it encodes,
/// anything else to what the standard library's lossy conversion returns.
pub open spec fn decode_lossy(bytes: Seq<u8>) -> Seq<char> {
    if valid_utf8(bytes) {
        decode_utf8(bytes)
    } else {
        utf8_lossy(bytes)
    }
}

/// Calls `String::from_utf8_lossy` and takes ownership of its result.  Not
/// verified: the contract repeats the documentation, by which well-formed
/// input comes back as the string it encodes and malformed sequences are
/// replaced, never rejected.
#[verifier::external_body]
fn from_utf8_lossy(bytes: &[u8]) -> (s: String)
    ensures
        s@ == utf8_lossy(bytes@),
        valid_utf8(bytes@) ==> s@ == decode_utf8(bytes@),
{
    String::from_utf8_lossy(bytes).into_owned()
}

/// The text of the C string at the start of `buf`.
pub open spec fn spec_from_raw_buf(buf: Seq<u8>) -> Seq<char> {
    decode_lossy(c_str_bytes(buf))
}

/// Reads the C string at the start of `buf` into an owned `String`.
pub fn from_raw_buf(buf: &[u8]) -> (s: String)
    ensures
        s@ == spec_from_raw_buf(buf@),
{
    let n: usize = c_strlen(buf);
    proof {
        lemma_c_str_bytes_no_nul(buf@);
    }
    from_utf8_lossy(slice_subrange(buf, 0, n))
}

/// The member names that a walk over the slots of a pointer array finds: it
/// stops in front of the first null entry, or at the end of the slots.
pub open spec fn expand_slots(slots: Seq<Option<Seq<u8>>>) -> Seq<Seq<char>>
    decreases slots.len(),
{
    if slots.len() == 0 {
        Seq::empty()
    } else {
        match slots[0] {
            None => Seq::empty(),
            Some(buf) => seq![spec_from_raw_buf(buf)] + expand_slots(slots.drop_first()),
        }
    }
}

/// The member names of a group.  A null array pointer and an array whose
/// first entry is null both give the empty sequence.
pub open spec fn spec_members(groups: Option<Seq<Option<Seq<u8>>>>) -> Seq<Seq<char>> {
    match groups {
        None => Seq::empty(),
        Some(slots) => expand_slots(slots),
    }
}

/// The buffer of the C string that holds `text`: its encoding and the
/// terminating zero byte.
pub open spec fn spec_c_string(text: Seq<char>) -> Seq<u8> {
    encode_utf8(text).push(0u8)
}

/// Writes `text` as a C string.
pub fn c_string(text: &str) -> (buf: Vec<u8>)
    ensures
        buf@ == spec_c_string(text@),
{
    let mut buf = text.as_bytes_vec();
    buf.push(0u8);
    buf
}

/// A text whose encoding holds no zero byte is read back from its C string
/// as it was written.
pub proof fn lemma_c_string_round_trip(text: Seq<char>)
    requires
        !encode_utf8(text).contains(0u8),
    ensures
        c_str_bytes(spec_c_string(text)) == encode_utf8(text),
        spec_from_raw_buf(spec_c_string(text)) == text,
{
    let bytes = encode_utf8(text);
    let buf = spec_c_string(text);
    assert forall|j: int| 0 <= j < bytes.len() implies buf[j] != 0 by {
        assert(bytes.contains(bytes[j]));
    }
    lemma_c_str_len_unique(buf, bytes.len() as int);
    assert(c_str_bytes(buf) =~= bytes);
    encode_utf8_valid_utf8(text);
    encode_utf8_decode_utf8(text);
}

/// A member list without members gives the empty sequence, whether the
/// array pointer is null, the array has no slots, or its first entry is null.
pub proof fn law_no_members(slots: Seq<Option<Seq<u8>>>)
    requires
        slots.len() == 0 || slots[0] is None,
    ensures
        spec_members(None) == Seq::<Seq<char>>::empty(),
        spec_members(Some(slots)) == Seq::<Seq<char>>::empty(),
        spec_members(Some(slots)).len() == 0,
{
}

/// Nothing behind the terminator is read: the members of a list are those of
/// its slots in front of a null entry.
pub proof fn law_members_end_at_terminator(slots: Seq<Option<Seq<u8>>>, end: int)
    requires
        0 <= end < slots.len(),
        slots[end] is None,
    ensures
        expand_slots(slots) == expand_slots(slots.take(end)),
        expand_slots(slots).len() <= end,
    decreases end,
{
    if end == 0 {
        assert(slots.take(0).len() == 0);
    } else if slots[0] is None {
        assert(slots.take(end)[0] is None);
    } else {
        let rest = slots.drop_first();
        law_members_end_at_terminator(rest, end - 1);
        assert(slots.take(end).drop_first() =~= rest.take(end - 1));
        assert(slots.take(end)[0] == slots[0]);
    }
}

/// Expand a list of group members to a vector of strings.
///
/// The walk checks slot 0, then slot 1, and so on, until it meets a null
/// entry.  A null array pointer ends it at once.
pub fn members(groups: &Option<Vec<Option<Vec<u8>>>>) -> (names: Vec<String>)
    ensures
        names.deep_view() == spec_members(groups.deep_view()),
{
    let mut names: Vec<String> = Vec::new();
    match groups {
        None => {
            assert(names.deep_view() =~= Seq::<Seq<char>>::empty());
        },
        Some(slots) => {
            let ghost all = slots.deep_view();
            let mut i: usize = 0;
            assert(all.skip(0) =~= all);
            assert(names.deep_view() =~= Seq::<Seq<char>>::empty());
            while i < slots.len() && slots[i].is_some()
                invariant
                    all == slots.deep_view(),
                    i <= slots.len(),
                    expand_slots(all) == names.deep_view() + expand_slots(all.skip(i as int)),
                decreases slots.len() - i,
            {
                let ghost before = names.deep_view();
                let ghost tail = all.skip(i as int);
                assert(tail[0] == slots[i as int].deep_view());
                assert(tail.drop_first() =~= all.skip(i + 1));
                match &slots[i] {
                    Some(buf) => {
                        assert(buf.deep_view() =~= buf@);
                        assert(tail[0] == Some(buf@));
                        assert(expand_slots(tail) == seq![spec_from_raw_buf(buf@)] + expand_slots(
                            tail.drop_first(),
                        ));
                        let name = from_raw_buf(buf.as_slice());
                        names.push(name);
                        assert(names.deep_view() =~= before.push(spec_from_raw_buf(buf@)));
                        assert(before + (seq![spec_from_raw_buf(buf@)] + expand_slots(
                            tail.drop_first(),
                        )) =~= before.push(spec_from_raw_buf(buf@)) + expand_slots(
                            tail.drop_first(),
                        ));
                    },
                    None => {},
                }
                i += 1;
            }
            proof {
                let tail = all.skip(i as int);
                if i < slots.len() {
                    assert(tail[0] == slots[i as int].deep_view());
                }
                assert(expand_slots(tail) =~= Seq::<Seq<char>>::empty());
                assert(names.deep_view() + Seq::<Seq<char>>::empty() =~= names.deep_view());
            }
        },
    }
    names
}

impl c_passwd {
    /// A copy of this entry in buffers of its own.
    pub fn copy(&self) -> (copy: c_passwd)
        ensures
            copy.deep_view() == self.deep_view(),
    {
        c_passwd {
            pw_name: copy_bytes(&self.pw_name),
            pw_passwd: copy_bytes(&self.pw_passwd),
            pw_uid: self.pw_uid,
            pw_gid: self.pw_gid,
            pw_change: self.pw_change,
            pw_dir: copy_bytes(&self.pw_dir),
            pw_shell: copy_bytes(&self.pw_shell),
            pw_expire: self.pw_expire,
        }
    }
}

impl c_group {
    /// A copy of this entry in buffers of its own.
    pub fn copy(&self) -> (copy: c_group)
        ensures
            copy.deep_view() == self.deep_view(),
    {
        let gr_mem = match &self.gr_mem {
            None => None,
            Some(slots) => {
                let mut copies: Vec<Option<Vec<u8>>> = Vec::new();
                let mut i: usize = 0;
                while i < slots.len()
                    invariant
                        i <= slots.len(),
                        copies.deep_view() == slots.deep_view().take(i as int),
                    decreases slots.len() - i,
                {
                    let slot = match &slots[i] {
                        None => None,
                        Some(buf) => {
                            let bytes = copy_bytes(buf);
                            assert(bytes.deep_view() =~= buf.deep_view());
                            Some(bytes)
                        },
                    };
                    assert(slot.deep_view() == slots[i as int].deep_view());
                    let ghost before = copies.deep_view();
                    copies.push(slot);
                    assert(copies.deep_view() =~= before.push(slot.deep_view()));
                    assert(slots.deep_view().take(i + 1) =~= slots.deep_view().take(
                        i as int,
                    ).push(slots[i as int].deep_view()));
                    i += 1;
                }
                assert(slots.deep_view().take(slots.len() as int) =~= slots.deep_view());
                Some(copies)
            },
        };
        c_group { gr_name: copy_bytes(&self.gr_name), gr_gid: self.gr_gid, gr_mem }
    }
}

} // verus!
