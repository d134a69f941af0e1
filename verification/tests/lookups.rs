use users::base::{
    get_current_gid, get_current_groupname, get_effective_gid, get_effective_groupname,
    get_effective_uid, get_effective_username, get_group_by_gid, get_group_by_name,
    get_user_by_name, get_user_by_uid, get_user_groups, group_access_list,
};
use users::mock::host::{Call, MockHost, EINVAL};
use users::os::unix::GroupExt;
use users::raw::{c_group, c_passwd};
use users::{Group, Traced, User};

fn raw_user(name: &[u8], uid: u32) -> c_passwd {
    c_passwd {
        pw_name: name.to_vec(),
        pw_passwd: b"*\0".to_vec(),
        pw_uid: uid,
        pw_gid: 5,
        pw_change: 0,
        pw_dir: b"/\0".to_vec(),
        pw_shell: b"/bin/sh\0".to_vec(),
        pw_expire: 0,
    }
}

#[test]
fn lookup_by_uid_asks_once_and_finds() {
    let mut mock = MockHost::new(1, 1);
    mock.add_user(&User::new(7, "seven", 70));
    let mut host = Traced::new(mock);
    let user = get_user_by_uid(&mut host, 7).unwrap();
    assert_eq!((user.uid(), user.name(), user.primary_group_id()), (7, "seven", 70));
    assert!(get_user_by_uid(&mut host, 8).is_none());
    assert_eq!(host.host().calls(), &vec![Call::GetPwUid(7), Call::GetPwUid(8)]);
}

#[test]
fn lookup_by_name_with_nul_does_not_reach_the_host() {
    let mut mock = MockHost::new(1, 1);
    mock.add_user(&User::new(7, "user", 70));
    mock.add_group(&Group::new(9, "users"));
    let mut host = Traced::new(mock);
    assert!(get_user_by_name(&mut host, "user\0").is_none());
    assert!(get_user_by_name(&mut host, "\0user").is_none());
    assert!(get_group_by_name(&mut host, "users\0").is_none());
    assert!(host.host().calls().is_empty());
    assert_eq!(get_user_by_name(&mut host, "user").unwrap().uid(), 7);
    assert_eq!(get_group_by_name(&mut host, "users").unwrap().gid(), 9);
    assert_eq!(host.host().calls(), &vec![Call::GetPwNam, Call::GetGrNam]);
}

/// A host that answers every search with the same entries, whatever was
/// asked.
struct Stubborn;

impl users::Host for Stubborn {
    fn getpwuid(&mut self, _uid: u32) -> Option<c_passwd> {
        Some(raw_user(b"bob\0", 42))
    }
    fn getpwnam(&mut self, _name: &str) -> Option<c_passwd> {
        Some(raw_user(b"bob\0", 42))
    }
    fn getgrgid(&mut self, _gid: u32) -> Option<c_group> {
        Some(c_group { gr_name: b"staff\0".to_vec(), gr_gid: 42, gr_mem: None })
    }
    fn getgrnam(&mut self, _name: &str) -> Option<c_group> {
        Some(c_group { gr_name: b"staff\0".to_vec(), gr_gid: 42, gr_mem: None })
    }
    fn getuid(&mut self) -> u32 {
        1
    }
    fn geteuid(&mut self) -> u32 {
        2
    }
    fn getgid(&mut self) -> u32 {
        3
    }
    fn getegid(&mut self) -> u32 {
        4
    }
    fn setuid(&mut self, _uid: u32) -> Result<(), i32> {
        Err(1)
    }
    fn setgid(&mut self, _gid: u32) -> Result<(), i32> {
        Err(1)
    }
    fn seteuid(&mut self, _uid: u32) -> Result<(), i32> {
        Err(1)
    }
    fn setegid(&mut self, _gid: u32) -> Result<(), i32> {
        Err(1)
    }
    fn setreuid(&mut self, _ruid: u32, _euid: u32) -> Result<(), i32> {
        Err(1)
    }
    fn setregid(&mut self, _rgid: u32, _egid: u32) -> Result<(), i32> {
        Err(1)
    }
    fn getgroups(&mut self, _size: usize) -> Result<Vec<u32>, i32> {
        Err(22)
    }
    fn getgrouplist(&mut self, _name: &str, _gid: u32, _size: usize) -> Option<Vec<u32>> {
        None
    }
    fn setpwent(&mut self) {}
    fn getpwent(&mut self) -> Option<c_passwd> {
        None
    }
    fn endpwent(&mut self) {}
}

#[test]
fn entry_for_another_key_is_not_found() {
    let mut host = Traced::new(Stubborn);
    assert!(get_user_by_uid(&mut host, 41).is_none());
    assert_eq!(get_user_by_uid(&mut host, 42).unwrap().name(), "bob");
    assert!(get_user_by_name(&mut host, "alice").is_none());
    assert!(get_user_by_name(&mut host, "Bob").is_none());
    assert_eq!(get_user_by_name(&mut host, "bob").unwrap().uid(), 42);
    assert!(get_group_by_gid(&mut host, 41).is_none());
    assert_eq!(get_group_by_gid(&mut host, 42).unwrap().name(), "staff");
    assert!(get_group_by_name(&mut host, "wheel").is_none());
    assert_eq!(get_group_by_name(&mut host, "staff").unwrap().gid(), 42);
}

#[test]
fn identity_reads_go_to_the_right_call() {
    let mut host = Traced::new(Stubborn);
    assert_eq!(users::get_current_uid(&mut host), 1);
    assert_eq!(get_effective_uid(&mut host), 2);
    assert_eq!(get_current_gid(&mut host), 3);
    assert_eq!(get_effective_gid(&mut host), 4);
}

#[test]
fn names_of_the_process() {
    let mut mock = MockHost::new(10, 20);
    mock.set_privileged(true);
    mock.add_user(&User::new(10, "real", 20));
    mock.add_user(&User::new(11, "effective", 21));
    mock.add_group(&Group::new(20, "realgroup"));
    mock.add_group(&Group::new(21, "effectivegroup"));
    let mut host = Traced::new(mock);
    users::switch::set_effective_uid(&mut host, 11).unwrap();
    users::switch::set_effective_gid(&mut host, 21).unwrap();
    assert_eq!(users::get_current_username(&mut host), Some("real".to_string()));
    assert_eq!(get_effective_username(&mut host), Some("effective".to_string()));
    assert_eq!(get_current_groupname(&mut host), Some("realgroup".to_string()));
    assert_eq!(get_effective_groupname(&mut host), Some("effectivegroup".to_string()));
    assert_eq!(
        host.host().calls()[2..],
        [
            Call::GetUid,
            Call::GetPwUid(10),
            Call::GetEuid,
            Call::GetPwUid(11),
            Call::GetGid,
            Call::GetGrGid(20),
            Call::GetEgid,
            Call::GetGrGid(21),
        ]
    );
}

#[test]
fn names_of_a_process_whose_user_is_gone() {
    let mut host = Traced::new(MockHost::new(10, 20));
    assert_eq!(users::get_current_username(&mut host), None);
    assert_eq!(get_effective_username(&mut host), None);
    assert_eq!(get_current_groupname(&mut host), None);
    assert_eq!(get_effective_groupname(&mut host), None);
}

#[test]
fn group_access_list_searches_every_entry_of_the_buffer() {
    let mut mock = MockHost::new(1, 1);
    mock.add_group(&Group::new(0, "root"));
    mock.add_group(&Group::new(5, "five"));
    mock.add_group(&Group::new(6, "six"));
    mock.add_access(5);
    mock.add_access(5);
    mock.add_access(77);
    mock.add_access(6);
    let mut host = Traced::new(mock);
    let groups = group_access_list(&mut host).unwrap();
    let ids: Vec<u32> = groups.iter().map(|g| g.gid()).collect();
    // The rest of the buffer holds zeros, which name the group 0.
    assert_eq!(ids, [5, 6, 0]);
    assert_eq!(host.host().calls().len(), 1 + 1024);
    assert_eq!(host.host().calls()[0], Call::GetGroups);
    assert_eq!(host.host().calls()[4], Call::GetGrGid(6));
    assert_eq!(host.host().calls()[5], Call::GetGrGid(0));
    assert_eq!(host.host().calls()[1024], Call::GetGrGid(0));
}

#[test]
fn group_access_list_reports_the_error_of_the_host() {
    let mut mock = MockHost::new(1, 1);
    for gid in 0..1025 {
        mock.add_access(gid);
    }
    let mut host = Traced::new(mock);
    assert_eq!(group_access_list(&mut host).map(|g| g.len()), Err(EINVAL));
    assert_eq!(host.host().calls(), &vec![Call::GetGroups]);
}

#[test]
fn user_groups_are_the_primary_group_and_the_memberships() {
    let mut mock = MockHost::new(1, 1);
    mock.add_group(&Group::new(100, "primary"));
    mock.add_group(&Group::new(7, "seven").add_member("other").add_member("stevedore"));
    mock.add_group(&Group::new(8, "eight").add_member("other"));
    mock.add_group(&Group::new(9, "nine").add_member("stevedore"));
    let mut host = Traced::new(mock);
    let groups = get_user_groups(&mut host, "stevedore", 100).unwrap();
    let names: Vec<&str> = groups.iter().map(|g| g.name()).collect();
    assert_eq!(names, ["primary", "seven", "nine"]);
    assert_eq!(groups[1].members(), ["other".to_string(), "stevedore".to_string()]);
    // One call for the list, one for each entry, and one for the zeros that
    // fill the buffer, which are searched for once.
    assert_eq!(
        host.host().calls(),
        &vec![
            Call::GetGroupList(100),
            Call::GetGrGid(100),
            Call::GetGrGid(7),
            Call::GetGrGid(9),
            Call::GetGrGid(0),
        ]
    );
}

#[test]
fn user_groups_that_do_not_fit_are_none() {
    let mut mock = MockHost::new(1, 1);
    for gid in 1..1025 {
        mock.add_group(&Group::new(gid, "crowd").add_member("stevedore"));
    }
    let mut host = Traced::new(mock);
    assert!(get_user_groups(&mut host, "stevedore", 5000).is_none());
    assert_eq!(host.host().calls(), &vec![Call::GetGroupList(5000)]);
}

#[test]
fn user_groups_of_a_name_with_nul_are_none() {
    let mut mock = MockHost::new(1, 1);
    mock.add_group(&Group::new(100, "primary"));
    let mut host = Traced::new(mock);
    assert!(get_user_groups(&mut host, "steve\0dore", 100).is_none());
    assert!(host.host().calls().is_empty());
}

#[test]
fn user_groups_through_the_user() {
    let user = User::new(3, "dockworker", 30);
    let mut mock = MockHost::new(1, 1);
    mock.add_group(&Group::new(0, "wheel"));
    mock.add_group(&Group::new(30, "dock"));
    let mut host = Traced::new(mock);
    let groups = user.groups(&mut host).unwrap();
    let ids: Vec<u32> = groups.iter().map(|g| g.gid()).collect();
    assert_eq!(ids, [30, 0]);
}
