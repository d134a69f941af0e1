use users::mock::host::MockHost;
use users::os::unix::UserExt;
use users::{
    get_current_uid, get_current_username, get_group_by_gid, get_group_by_name, get_user_by_name,
    get_user_by_uid, Group, Traced, User,
};

/// A host whose current user exists, with a primary group of its own.
fn host() -> Traced<MockHost> {
    let mut host = MockHost::new(1000, 100);
    host.add_user(&User::new(0, "root", 0).with_home_dir("/root").with_shell("/bin/sh"));
    host.add_user(&User::new(1000, "fred", 100).with_home_dir("/home/fred").with_shell("/bin/bash"));
    host.add_group(&Group::new(0, "root"));
    host.add_group(&Group::new(100, "users"));
    Traced::new(host)
}

#[test]
fn mod_uid() {
    let mut host = host();
    assert_eq!(get_current_uid(&mut host), 1000);
}

#[test]
fn mod_username() {
    let mut host = host();
    let uid = get_current_uid(&mut host);
    assert_eq!(
        &*get_current_username(&mut host).unwrap(),
        get_user_by_uid(&mut host, uid).unwrap().name()
    );
}

#[test]
fn mod_uid_for_username() {
    let mut host = host();
    let uid = get_current_uid(&mut host);
    let user = get_user_by_uid(&mut host, uid).unwrap();
    assert_eq!(user.uid(), uid);
}

#[test]
fn mod_username_for_uid_for_username() {
    let mut host = host();
    let uid = get_current_uid(&mut host);
    let user = get_user_by_uid(&mut host, uid).unwrap();
    let user2 = get_user_by_uid(&mut host, user.uid()).unwrap();
    assert_eq!(user2.uid(), uid);
}

#[test]
fn mod_user_info() {
    let mut host = host();
    let uid = get_current_uid(&mut host);
    let user = get_user_by_uid(&mut host, uid).unwrap();
    println!("HOME={:?}, SHELL={:?}, PASSWD={:?}", user.home_dir(), user.shell(), user.password());
    assert_eq!(user.home_dir(), "/home/fred");
    assert_eq!(user.shell(), "/bin/bash");
}

#[test]
fn mod_user_by_name() {
    let mut host = host();
    // We cannot really test for arbitrary user as they might not exist on the machine
    // Instead the name of the current user is used
    let name = get_current_username(&mut host).unwrap();
    let user_by_name = get_user_by_name(&mut host, &name);
    assert!(user_by_name.is_some());
    assert_eq!(user_by_name.unwrap().name(), &*name);

    // User names containing '\0' cannot be used (for now)
    let user = get_user_by_name(&mut host, "user\0");
    assert!(user.is_none());
}

#[test]
fn mod_group_by_name() {
    let mut host = host();
    // We cannot really test for arbitrary groups as they might not exist on the machine
    // Instead the primary group of the current user is used
    let cur_uid = get_current_uid(&mut host);
    let cur_user = get_user_by_uid(&mut host, cur_uid).unwrap();
    let cur_group = get_group_by_gid(&mut host, cur_user.primary_group_id()).unwrap();
    let group_by_name = get_group_by_name(&mut host, cur_group.name());

    assert!(group_by_name.is_some());
    assert_eq!(group_by_name.unwrap().name(), cur_group.name());

    // Group names containing '\0' cannot be used (for now)
    let group = get_group_by_name(&mut host, "users\0");
    assert!(group.is_none());
}
