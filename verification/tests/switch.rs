use users::mock::host::{Call, MockHost, EPERM};
use users::switch::{
    set_both_gid, set_both_uid, set_current_gid, set_current_uid, set_effective_gid,
    set_effective_uid, switch_user_group, SwitchError,
};
use users::Traced;

fn root() -> Traced<MockHost> {
    let mut host = MockHost::new(0, 0);
    host.set_privileged(true);
    Traced::new(host)
}

fn ids(host: &Traced<MockHost>) -> (u32, u32, u32, u32) {
    let host = host.host();
    (host.current_uid(), host.effective_uid(), host.current_gid(), host.effective_gid())
}

#[test]
fn guard_restoration() {
    let mut host = Traced::new({
        let mut host = MockHost::new(10, 20);
        host.set_privileged(true);
        host
    });
    let guard = switch_user_group(&mut host, 1001, 2002).unwrap();
    assert_eq!((guard.uid(), guard.gid()), (10, 20));
    assert_eq!(ids(&host), (10, 1001, 20, 2002));
    guard.restore(&mut host).unwrap();
    assert_eq!(ids(&host), (10, 10, 20, 20));
    assert_eq!(
        host.host().calls(),
        &vec![
            Call::GetEuid,
            Call::GetEgid,
            Call::SetEgid(2002),
            Call::SetEuid(1001),
            Call::SetEuid(10),
            Call::SetEgid(20),
        ]
    );
}

#[test]
fn guard_restores_after_other_calls() {
    let mut host = root();
    let guard = switch_user_group(&mut host, 5, 6).unwrap();
    users::get_effective_uid(&mut host);
    set_effective_gid(&mut host, 7).unwrap();
    assert_eq!(ids(&host), (0, 5, 0, 7));
    assert_eq!(guard.restore(&mut host), Ok(()));
    assert_eq!(ids(&host), (0, 0, 0, 0));
}

#[test]
fn refused_switch_changes_nothing() {
    let mut host = Traced::new(MockHost::new(10, 20));
    let error = switch_user_group(&mut host, 1001, 2002).err().unwrap();
    assert_eq!(error, SwitchError::Refused(EPERM));
    assert_eq!(ids(&host), (10, 10, 20, 20));
    // The group is tried first; the user is not tried after the refusal.
    assert_eq!(
        host.host().calls(),
        &vec![
            Call::GetEuid,
            Call::GetEgid,
            Call::SetEgid(2002),
            Call::SetEuid(10),
            Call::SetEgid(20),
        ]
    );
}

/// A host that lets an ID be changed a given number of times, and the
/// effective user only to `only_user`, if that is set.
struct Fickle {
    changes_left: u32,
    euid: u32,
    egid: u32,
    only_user: Option<u32>,
}

impl users::Host for Fickle {
    fn getpwuid(&mut self, _uid: u32) -> Option<users::raw::c_passwd> {
        None
    }
    fn getpwnam(&mut self, _name: &str) -> Option<users::raw::c_passwd> {
        None
    }
    fn getgrgid(&mut self, _gid: u32) -> Option<users::raw::c_group> {
        None
    }
    fn getgrnam(&mut self, _name: &str) -> Option<users::raw::c_group> {
        None
    }
    fn getuid(&mut self) -> u32 {
        self.euid
    }
    fn geteuid(&mut self) -> u32 {
        self.euid
    }
    fn getgid(&mut self) -> u32 {
        self.egid
    }
    fn getegid(&mut self) -> u32 {
        self.egid
    }
    fn setuid(&mut self, uid: u32) -> Result<(), i32> {
        self.seteuid(uid)
    }
    fn setgid(&mut self, gid: u32) -> Result<(), i32> {
        self.setegid(gid)
    }
    fn seteuid(&mut self, uid: u32) -> Result<(), i32> {
        if self.changes_left == 0 || self.only_user.is_some_and(|only| only != uid) {
            return Err(13);
        }
        self.changes_left -= 1;
        self.euid = uid;
        Ok(())
    }
    fn setegid(&mut self, gid: u32) -> Result<(), i32> {
        if self.changes_left == 0 {
            return Err(14);
        }
        self.changes_left -= 1;
        self.egid = gid;
        Ok(())
    }
    fn setreuid(&mut self, _ruid: u32, euid: u32) -> Result<(), i32> {
        self.seteuid(euid)
    }
    fn setregid(&mut self, _rgid: u32, egid: u32) -> Result<(), i32> {
        self.setegid(egid)
    }
    fn getgroups(&mut self, _size: usize) -> Result<Vec<u32>, i32> {
        Ok(vec![])
    }
    fn getgrouplist(&mut self, _name: &str, gid: u32, _size: usize) -> Option<Vec<u32>> {
        Some(vec![gid])
    }
    fn setpwent(&mut self) {}
    fn getpwent(&mut self) -> Option<users::raw::c_passwd> {
        None
    }
    fn endpwent(&mut self) {}
}

#[test]
fn switch_refused_at_the_user_puts_the_group_back() {
    let mut host =
        Traced::new(Fickle { changes_left: 10, euid: 1, egid: 2, only_user: Some(1) });
    let error = switch_user_group(&mut host, 8, 9).err().unwrap();
    assert_eq!(error, SwitchError::Refused(13));
    assert_eq!((host.host().euid, host.host().egid), (1, 2));
    assert_eq!(host.host().changes_left, 7);
}

#[test]
fn switch_that_cannot_be_undone_is_stuck() {
    // The group changes, the user does not, and the way back is refused.
    let mut host = Traced::new(Fickle { changes_left: 1, euid: 1, egid: 2, only_user: None });
    let error = switch_user_group(&mut host, 8, 9).err().unwrap();
    assert_eq!(error, SwitchError::Stuck(13, 13));
    assert_eq!(host.host().egid, 9);
}

#[test]
fn switch_undone_halfway_is_stuck() {
    // The group changes, the user does not; then the user is set again,
    // and the group is refused.
    let mut host =
        Traced::new(Fickle { changes_left: 2, euid: 1, egid: 2, only_user: Some(1) });
    let error = switch_user_group(&mut host, 8, 9).err().unwrap();
    assert_eq!(error, SwitchError::Stuck(13, 14));
    assert_eq!((host.host().euid, host.host().egid), (1, 9));
}

#[test]
fn restore_reports_the_first_refusal() {
    let mut host = Traced::new(Fickle { changes_left: 2, euid: 1, egid: 2, only_user: None });
    let guard = switch_user_group(&mut host, 8, 9).ok().unwrap();
    assert_eq!(guard.restore(&mut host), Err(13));
    assert_eq!((host.host().euid, host.host().egid), (8, 9));

    let mut host = Traced::new(Fickle { changes_left: 3, euid: 1, egid: 2, only_user: None });
    let guard = switch_user_group(&mut host, 8, 9).ok().unwrap();
    assert_eq!(guard.restore(&mut host), Err(14));
    assert_eq!((host.host().euid, host.host().egid), (1, 9));
}

#[test]
fn set_functions_change_what_they_name() {
    let mut host = root();
    assert_eq!(set_effective_uid(&mut host, 1), Ok(()));
    assert_eq!(ids(&host), (0, 1, 0, 0));
    assert_eq!(set_effective_gid(&mut host, 2), Ok(()));
    assert_eq!(ids(&host), (0, 1, 0, 2));
    assert_eq!(set_current_uid(&mut host, 3), Ok(()));
    assert_eq!(ids(&host), (3, 3, 0, 2));
    assert_eq!(set_current_gid(&mut host, 4), Ok(()));
    assert_eq!(ids(&host), (3, 3, 4, 4));
    assert_eq!(set_both_uid(&mut host, 5, 6), Ok(()));
    assert_eq!(ids(&host), (5, 6, 4, 4));
    assert_eq!(set_both_gid(&mut host, 7, 8), Ok(()));
    assert_eq!(ids(&host), (5, 6, 7, 8));
    assert_eq!(
        host.host().calls(),
        &vec![
            Call::SetEuid(1),
            Call::SetEgid(2),
            Call::SetUid(3),
            Call::SetGid(4),
            Call::SetReUid(5, 6),
            Call::SetReGid(7, 8),
        ]
    );
}

#[test]
fn set_functions_report_the_error_code() {
    let mut host = Traced::new(MockHost::new(10, 20));
    assert_eq!(set_current_uid(&mut host, 1), Err(EPERM));
    assert_eq!(set_current_gid(&mut host, 1), Err(EPERM));
    assert_eq!(set_effective_uid(&mut host, 1), Err(EPERM));
    assert_eq!(set_effective_gid(&mut host, 1), Err(EPERM));
    assert_eq!(set_both_uid(&mut host, 10, 1), Err(EPERM));
    assert_eq!(set_both_gid(&mut host, 1, 20), Err(EPERM));
    assert_eq!(ids(&host), (10, 10, 20, 20));
    // What the process is already, it may be.
    assert_eq!(set_effective_uid(&mut host, 10), Ok(()));
    assert_eq!(set_both_gid(&mut host, 20, 20), Ok(()));
}
