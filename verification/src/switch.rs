//! Functions for switching the running process's user or group.

use vstd::prelude::*;
use crate::host::{
    added, error_of, grown_by, lemma_grown_by_push, lemma_grown_by_twice, Event, Host, Traced,
};
use crate::{c_int, gid_t, uid_t};

verus! {

/// Sets the **current user** for the running process to the one with the
/// given user ID.
///
/// Typically, trying to switch to anyone other than the user already running
/// the process requires root privileges.
pub fn set_current_uid<H: Host>(host: &mut Traced<H>, uid: uid_t) -> (done: Result<(), c_int>)
    ensures
        final(host).history() == old(host).history().push(Event::SetUid(uid, error_of(done))),
{
    host.setuid(uid)
}

/// Sets the **current group** for the running process to the one with the
/// given group ID.
///
/// Typically, trying to switch to any group other than the group already
/// running the process requires root privileges.
pub fn set_current_gid<H: Host>(host: &mut Traced<H>, gid: gid_t) -> (done: Result<(), c_int>)
    ensures
        final(host).history() == old(host).history().push(Event::SetGid(gid, error_of(done))),
{
    host.setgid(gid)
}

/// Sets the **effective user** for the running process to the one with the
/// given user ID.
///
/// Typically, trying to switch to anyone other than the user already running
/// the process requires root privileges.
pub fn set_effective_uid<H: Host>(host: &mut Traced<H>, uid: uid_t) -> (done: Result<(), c_int>)
    ensures
        final(host).history() == old(host).history().push(Event::SetEuid(uid, error_of(done))),
{
    host.seteuid(uid)
}

/// Sets the **effective group** for the running process to the one with the
/// given group ID.
///
/// Typically, trying to switch to any group other than the group already
/// running the process requires root privileges.
pub fn set_effective_gid<H: Host>(host: &mut Traced<H>, gid: gid_t) -> (done: Result<(), c_int>)
    ensures
        final(host).history() == old(host).history().push(Event::SetEgid(gid, error_of(done))),
{
    host.setegid(gid)
}

/// Sets both the **current user** and the **effective user** for the running
/// process to the ones with the given user IDs.
///
/// Typically, trying to switch to anyone other than the user already running
/// the process requires root privileges.
pub fn set_both_uid<H: Host>(host: &mut Traced<H>, ruid: uid_t, euid: uid_t) -> (done: Result<(), c_int>)
    ensures
        final(host).history() == old(host).history().push(Event::SetReUid(ruid, euid, error_of(done))),
{
    host.setreuid(ruid, euid)
}

/// Sets both the **current group** and the **effective group** for the
/// running process to the ones with the given group IDs.
///
/// Typically, trying to switch to any group other than the group already
/// running the process requires root privileges.
pub fn set_both_gid<H: Host>(host: &mut Traced<H>, rgid: gid_t, egid: gid_t) -> (done: Result<(), c_int>)
    ensures
        final(host).history() == old(host).history().push(Event::SetReGid(rgid, egid, error_of(done))),
{
    host.setregid(rgid, egid)
}

/// Guard returned from a `switch_user_group` call: the effective user and
/// group that were in force before the switch.
///
/// The guard does nothing by itself.  Whoever holds it hands it to
/// [`SwitchUserGuard::restore`] on every way out of the guarded scope.
pub struct SwitchUserGuard {
    uid: uid_t,
    gid: gid_t,
}

/// Why a switch did not happen.
#[derive(Clone, Copy, Debug, PartialEq, Eq)]
pub enum SwitchError {
    /// The host refused the switch, with this error code.  The identity
    /// that was effective before is in force again.
    Refused(c_int),
    /// The host refused the switch with the first error code, and then
    /// refused with the second to put the former identity back.  The process
    /// runs under an identity that it should not have.
    Stuck(c_int, c_int),
}

/// The host was asked to make `uid` the effective user again and, if it did,
/// to make `gid` the effective group again.  `error` is the error code of the
/// call that the host refused, if it refused one.
pub open spec fn restored(
    before: Seq<Event>,
    after: Seq<Event>,
    uid: uid_t,
    gid: gid_t,
    error: Option<c_int>,
) -> bool {
    &&& after.len() > before.len()
    &&& match added(before, after, 0) {
        Event::SetEuid(asked, Some(code)) => {
            &&& grown_by(before, after, 1)
            &&& asked == uid
            &&& error == Some(code)
        },
        Event::SetEuid(asked, None) => {
            &&& grown_by(before, after, 2)
            &&& asked == uid
            &&& added(before, after, 1) == Event::SetEgid(gid, error)
        },
        _ => false,
    }
}

/// What a switch to the user `uid` and the group `gid` asks of the host, and
/// what it answers.
///
/// The host is asked for the effective user and group, then to change the
/// group, and only if it did, to change the user.  Where both changes are
/// made, the answer is the guard that holds the former user and group.  Where
/// one is refused, the former user and group are restored at once, and the
/// answer says whether that worked.
pub open spec fn switched(
    before: Seq<Event>,
    after: Seq<Event>,
    uid: uid_t,
    gid: gid_t,
    answer: Result<(uid_t, gid_t), SwitchError>,
) -> bool {
    &&& after.len() >= before.len() + 3
    &&& after.take(before.len() as int) == before
    &&& match (added(before, after, 0), added(before, after, 1), added(before, after, 2)) {
        (Event::GetEuid(old_uid), Event::GetEgid(old_gid), Event::SetEgid(asked, Some(code))) => {
            let scope = after.take(before.len() + 3 as int);
            &&& asked == gid
            &&& undone(scope, after, old_uid, old_gid, code, answer)
        },
        (Event::GetEuid(old_uid), Event::GetEgid(old_gid), Event::SetEgid(asked, None)) => {
            &&& asked == gid
            &&& after.len() >= before.len() + 4
            &&& match added(before, after, 3) {
                Event::SetEuid(asked_uid, None) => {
                    &&& asked_uid == uid
                    &&& after.len() == before.len() + 4
                    &&& answer == Ok::<(uid_t, gid_t), SwitchError>((old_uid, old_gid))
                },
                Event::SetEuid(asked_uid, Some(code)) => {
                    let scope = after.take(before.len() + 4 as int);
                    &&& asked_uid == uid
                    &&& undone(scope, after, old_uid, old_gid, code, answer)
                },
                _ => false,
            }
        },
        _ => false,
    }
}

/// After the host refused a switch with `code`, it was asked to restore the
/// user `uid` and the group `gid`, and `answer` is the error that tells
/// whether it did.
pub open spec fn undone(
    scope: Seq<Event>,
    after: Seq<Event>,
    uid: uid_t,
    gid: gid_t,
    code: c_int,
    answer: Result<(uid_t, gid_t), SwitchError>,
) -> bool {
    let back = restore_answer(scope, after);
    &&& restored(scope, after, uid, gid, back)
    &&& answer == Err::<(uid_t, gid_t), SwitchError>(refusal(code, back))
}

/// What the calls that `after` holds beyond `before` say of an attempt to
/// restore: the error code of the call that the host refused, if it refused
/// one.
pub open spec fn restore_answer(before: Seq<Event>, after: Seq<Event>) -> Option<c_int> {
    match added(before, after, 0) {
        Event::SetEuid(_, Some(code)) => Some(code),
        _ => match added(before, after, 1) {
            Event::SetEgid(_, error) => error,
            _ => None,
        },
    }
}

/// The error of a switch that the host refused with `code`, after the
/// attempt to restore the former identity ended in `back`.
pub open spec fn refusal(code: c_int, back: Option<c_int>) -> SwitchError {
    match back {
        None => SwitchError::Refused(code),
        Some(again) => SwitchError::Stuck(code, again),
    }
}

impl View for SwitchUserGuard {
    type V = (uid_t, gid_t);

    /// The effective user and group that the guard restores.
    closed spec fn view(&self) -> (uid_t, gid_t) {
        (self.uid, self.gid)
    }
}

impl SwitchUserGuard {
    /// The effective user ID that was in force before the switch.
    pub fn uid(&self) -> (uid: uid_t)
        ensures
            uid == self@.0,
    {
        self.uid
    }

    /// The effective group ID that was in force before the switch.
    pub fn gid(&self) -> (gid: gid_t)
        ensures
            gid == self@.1,
    {
        self.gid
    }

    /// Ends the guarded scope: makes the former user the effective user
    /// again, then the former group the effective group.
    ///
    /// An `Err` holds the host's error code and means that the process still
    /// runs under an identity that it should have left.  There is nothing to
    /// recover then: the caller has to end the process.
    pub fn restore<H: Host>(self, host: &mut Traced<H>) -> (done: Result<(), c_int>)
        ensures
            restored(
                old(host).history(),
                final(host).history(),
                self@.0,
                self@.1,
                error_of(done),
            ),
    {
        let ghost before = host.history();
        let first = set_effective_uid(host, self.uid);
        let ghost between = host.history();
        proof {
            lemma_grown_by_push(before, Event::SetEuid(self.uid, error_of(first)));
        }
        match first {
            Err(code) => Err(code),
            Ok(_) => {
                let done = set_effective_gid(host, self.gid);
                proof {
                    lemma_grown_by_push(between, Event::SetEgid(self.gid, error_of(done)));
                    lemma_grown_by_twice(before, between, host.history(), 1, 1);
                }
                done
            },
        }
    }
}

/// Sets the **effective user** and the **effective group** for the current
/// scope.
///
/// Typically, trying to switch to any user or group other than the ones already
/// running the process requires root privileges.
///
/// **Use with care!** The switch lasts until the guard is handed to
/// [`SwitchUserGuard::restore`].
pub fn switch_user_group<H: Host>(host: &mut Traced<H>, uid: uid_t, gid: gid_t) -> (answer: Result<
    SwitchUserGuard,
    SwitchError,
>)
    ensures
        switched(
            old(host).history(),
            final(host).history(),
            uid,
            gid,
            match answer {
                Ok(guard) => Ok(guard@),
                Err(e) => Err(e),
            },
        ),
{
    let ghost h0 = host.history();
    let old_uid = host.geteuid();
    let ghost h1 = host.history();
    let old_gid = host.getegid();
    let ghost h2 = host.history();
    let current_state = SwitchUserGuard { uid: old_uid, gid: old_gid };
    let changed_gid = set_effective_gid(host, gid);
    let ghost h3 = host.history();
    proof {
        lemma_grown_by_push(h0, Event::GetEuid(old_uid));
        lemma_grown_by_push(h1, Event::GetEgid(old_gid));
        lemma_grown_by_push(h2, Event::SetEgid(gid, error_of(changed_gid)));
        lemma_grown_by_twice(h0, h1, h2, 1, 1);
        lemma_grown_by_twice(h0, h2, h3, 2, 1);
    }
    match changed_gid {
        Err(code) => {
            let back = current_state.restore(host);
            proof {
                let h = host.history();
                assert(h.len() > h3.len());
                if h.len() == h3.len() + 1 {
                    lemma_grown_by_twice(h0, h3, h, 3, 1);
                } else {
                    lemma_grown_by_twice(h0, h3, h, 3, 2);
                }
                assert(h.take(h0.len() + 3 as int) == h3);
                assert(restored(h.take(h0.len() + 3 as int), h, old_uid, old_gid, error_of(back)));
                assert(error_of(back) == restore_answer(h3, h));
                assert(added(h0, h, 0) == added(h0, h3, 0));
                assert(added(h0, h, 1) == added(h0, h3, 1));
                assert(added(h0, h, 2) == added(h0, h3, 2));
            }
            return Err(new_refusal(code, back));
        },
        Ok(_) => {},
    }
    let changed_uid = set_effective_uid(host, uid);
    let ghost h4 = host.history();
    proof {
        lemma_grown_by_push(h3, Event::SetEuid(uid, error_of(changed_uid)));
        lemma_grown_by_twice(h0, h3, h4, 3, 1);
    }
    match changed_uid {
        Err(code) => {
            let back = current_state.restore(host);
            proof {
                let h = host.history();
                assert(h.len() > h4.len());
                if h.len() == h4.len() + 1 {
                    lemma_grown_by_twice(h0, h4, h, 4, 1);
                } else {
                    lemma_grown_by_twice(h0, h4, h, 4, 2);
                }
                assert(h.take(h0.len() + 4 as int) == h4);
                assert(restored(h.take(h0.len() + 4 as int), h, old_uid, old_gid, error_of(back)));
                assert(error_of(back) == restore_answer(h4, h));
                assert(added(h0, h, 0) == added(h0, h4, 0));
                assert(added(h0, h, 1) == added(h0, h4, 1));
                assert(added(h0, h, 2) == added(h0, h4, 2));
                assert(added(h0, h, 3) == added(h0, h4, 3));
            }
            return Err(new_refusal(code, back));
        },
        Ok(_) => {},
    }
    Ok(current_state)
}

/// The effective user ID that the host was last made to take, if any
/// change of it went through.
pub open spec fn last_effective_uid(history: Seq<Event>) -> Option<uid_t>
    decreases history.len(),
{
    if history.len() == 0 {
        None
    } else {
        match history.last() {
            Event::SetEuid(uid, None) => Some(uid),
            _ => last_effective_uid(history.drop_last()),
        }
    }
}

/// The effective group ID that the host was last made to take, if any
/// change of it went through.
pub open spec fn last_effective_gid(history: Seq<Event>) -> Option<gid_t>
    decreases history.len(),
{
    if history.len() == 0 {
        None
    } else {
        match history.last() {
            Event::SetEgid(gid, None) => Some(gid),
            _ => last_effective_gid(history.drop_last()),
        }
    }
}

/// Entering a guarded scope: a switch that went through asked the host for
/// the effective user and group, made `gid` the effective group and then
/// `uid` the effective user, in this order, and its guard holds the user and
/// the group that the host reported.
pub proof fn law_switch_sets_group_then_user(
    before: Seq<Event>,
    after: Seq<Event>,
    uid: uid_t,
    gid: gid_t,
    guard: (uid_t, gid_t),
)
    requires
        switched(before, after, uid, gid, Ok(guard)),
    ensures
        after == before + seq![
            Event::GetEuid(guard.0),
            Event::GetEgid(guard.1),
            Event::SetEgid(gid, None),
            Event::SetEuid(uid, None),
        ],
        last_effective_uid(after) == Some(uid),
        last_effective_gid(after) == Some(gid),
{
    let calls = seq![
        Event::GetEuid(guard.0),
        Event::GetEgid(guard.1),
        Event::SetEgid(gid, None),
        Event::SetEuid(uid, None),
    ];
    assert(after =~= before + calls) by {
        assert forall|i: int| 0 <= i < before.len() implies after[i] == before[i] by {
            assert(after.take(before.len() as int)[i] == before[i]);
        }
        assert(added(before, after, 0) == calls[0]);
        assert(added(before, after, 1) == calls[1]);
        assert(added(before, after, 2) == calls[2]);
        assert(added(before, after, 3) == calls[3]);
    }
    assert(after.last() == calls[3]);
    assert(after.drop_last().last() == calls[2]);
    reveal_with_fuel(last_effective_gid, 2);
}

/// Guard restoration: a restore that went through made the user of the
/// guard the effective user and then the group of the guard the effective
/// group, whatever was called since the switch.  With the guard of a switch,
/// these are the user and the group that were effective before it.
pub proof fn law_restore_puts_identity_back(
    scope: Seq<Event>,
    after: Seq<Event>,
    guard: (uid_t, gid_t),
)
    requires
        restored(scope, after, guard.0, guard.1, None),
    ensures
        after == scope + seq![
            Event::SetEuid(guard.0, None),
            Event::SetEgid(guard.1, None),
        ],
        last_effective_uid(after) == Some(guard.0),
        last_effective_gid(after) == Some(guard.1),
{
    let calls = seq![Event::SetEuid(guard.0, None), Event::SetEgid(guard.1, None)];
    assert(after =~= scope + calls) by {
        assert forall|i: int| 0 <= i < scope.len() implies after[i] == scope[i] by {
            assert(after.take(scope.len() as int)[i] == scope[i]);
        }
        assert(added(scope, after, 0) == calls[0]);
        assert(added(scope, after, 1) == calls[1]);
    }
    assert(after.last() == calls[1]);
    assert(after.drop_last().last() == calls[0]);
    reveal_with_fuel(last_effective_uid, 2);
}

/// A switch that the host refused leaves no change behind, if the answer
/// is `Refused`: the user and the group that the host reported before the
/// switch were made effective again.
pub proof fn law_refused_switch_is_undone(
    before: Seq<Event>,
    after: Seq<Event>,
    uid: uid_t,
    gid: gid_t,
    code: c_int,
)
    requires
        switched(before, after, uid, gid, Err(SwitchError::Refused(code))),
    ensures
        last_effective_uid(after) == match added(before, after, 0) {
            Event::GetEuid(old_uid) => Some(old_uid),
            _ => None,
        },
        last_effective_gid(after) == match added(before, after, 1) {
            Event::GetEgid(old_gid) => Some(old_gid),
            _ => None,
        },
        added(before, after, 0) is GetEuid,
        added(before, after, 1) is GetEgid,
{
    let old_uid = added(before, after, 0)->GetEuid_0;
    let old_gid = added(before, after, 1)->GetEgid_0;
    let scope = if added(before, after, 2) matches Event::SetEgid(_, Some(_)) {
        after.take(before.len() + 3 as int)
    } else {
        after.take(before.len() + 4 as int)
    };
    let back = restore_answer(scope, after);
    assert(restored(scope, after, old_uid, old_gid, back));
    assert(back is None);
    law_restore_puts_identity_back(scope, after, (old_uid, old_gid));
}

/// The error of a refused switch, from the host's error code and the outcome
/// of the attempt to restore the former identity.
fn new_refusal(code: c_int, back: Result<(), c_int>) -> (error: SwitchError)
    ensures
        error == refusal(code, error_of(back)),
{
    match back {
        Ok(_) => SwitchError::Refused(code),
        Err(again) => SwitchError::Stuck(code, again),
    }
}

} // verus!
