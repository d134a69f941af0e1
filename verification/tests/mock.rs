use std::sync::Arc;

use users::base::{Group, User};
use users::mock::MockUsers;
use users::os::unix::{GroupExt, UserExt};
use users::traits::{Groups, Users};

fn fred(uid: u32) -> User {
    User::new(uid, "fred", 101).with_home_dir("/home/fred").with_shell("/bin/bash")
}

#[test]
fn current_username() {
    let mut users = MockUsers::with_current_uid(1337);
    users.add_user(fred(1337));
    assert_eq!(Some(Arc::new("fred".into())), users.get_current_username())
}

#[test]
fn no_current_username() {
    let mut users = MockUsers::with_current_uid(1337);
    assert_eq!(None, users.get_current_username())
}

#[test]
fn mock_uid() {
    let mut users = MockUsers::with_current_uid(0);
    users.add_user(fred(1337));
    assert_eq!(
        Some(Arc::new("fred".into())),
        users.get_user_by_uid(1337).map(|u| u.name_arc())
    )
}

#[test]
fn mock_username() {
    let mut users = MockUsers::with_current_uid(1337);
    users.add_user(fred(1440));
    assert_eq!(Some(1440), users.get_user_by_name("fred").map(|u| u.uid()))
}

#[test]
fn no_username() {
    let mut users = MockUsers::with_current_uid(1337);
    users.add_user(fred(1440));
    assert_eq!(None, users.get_user_by_name("criminy").map(|u| u.uid()))
}

#[test]
fn no_uid() {
    let mut users = MockUsers::with_current_uid(0);
    assert_eq!(None, users.get_user_by_uid(1337).map(|u| u.name_arc()))
}

#[test]
fn gid() {
    let mut users = MockUsers::with_current_uid(0);
    users.add_group(Group::new(1337, "fred"));
    assert_eq!(
        Some(Arc::new("fred".into())),
        users.get_group_by_gid(1337).map(|g| g.name_arc())
    )
}

#[test]
fn group_name() {
    let mut users = MockUsers::with_current_uid(0);
    users.add_group(Group::new(1337, "fred"));
    assert_eq!(Some(1337), users.get_group_by_name("fred").map(|g| g.gid()))
}

#[test]
fn no_group_name() {
    let mut users = MockUsers::with_current_uid(0);
    users.add_group(Group::new(1337, "fred"));
    assert_eq!(None, users.get_group_by_name("santa").map(|g| g.gid()))
}

#[test]
fn no_gid() {
    let mut users = MockUsers::with_current_uid(0);
    assert_eq!(None, users.get_group_by_gid(1337).map(|g| g.name_arc()))
}

#[test]
fn mock_round_trip_identity() {
    let mut users = MockUsers::with_current_uid(501);
    users.add_user(User::new(501, "stevedore", 100));
    let by_id = users.get_user_by_uid(501).unwrap();
    assert_eq!(by_id.uid(), 501);
    assert_eq!(by_id.name(), "stevedore");
    assert_eq!(by_id.primary_group_id(), 100);
    let by_name = users.get_user_by_name("stevedore").unwrap();
    assert_eq!(by_name.uid(), 501);
    assert_eq!(by_name.name(), "stevedore");
    assert_eq!(by_name.primary_group_id(), 100);
}

#[test]
fn mock_add_user_replaces_and_returns_former() {
    let mut users = MockUsers::with_current_uid(1);
    assert!(users.add_user(User::new(7, "first", 1)).is_none());
    let former = users.add_user(User::new(7, "second", 2)).unwrap();
    assert_eq!(former.name(), "first");
    assert_eq!(users.get_user_by_uid(7).unwrap().name(), "second");
    assert!(users.get_user_by_name("first").is_none());
}

#[test]
fn mock_add_group_replaces_and_returns_former() {
    let mut users = MockUsers::with_current_uid(1);
    assert!(users.add_group(Group::new(7, "first")).is_none());
    let former = users.add_group(Group::new(7, "second").add_member("bob")).unwrap();
    assert_eq!(former.name(), "first");
    let group = users.get_group_by_gid(7).unwrap();
    assert_eq!(group.name(), "second");
    assert_eq!(group.members(), ["bob".to_string()]);
}

#[test]
fn mock_reports_one_id_for_everything() {
    let mut users = MockUsers::with_current_uid(42);
    users.add_user(User::new(42, "me", 9));
    users.add_group(Group::new(42, "mine"));
    assert_eq!(users.get_current_uid(), 42);
    assert_eq!(users.get_effective_uid(), 42);
    assert_eq!(users.get_current_gid(), 42);
    assert_eq!(users.get_effective_gid(), 42);
    assert_eq!(users.get_effective_username(), Some(Arc::new("me".to_string())));
    assert_eq!(users.get_current_groupname(), Some(Arc::new("mine".to_string())));
    assert_eq!(users.get_effective_groupname(), Some(Arc::new("mine".to_string())));
}

#[test]
fn mock_name_with_nul_finds_nobody() {
    let mut users = MockUsers::with_current_uid(0);
    users.add_user(User::new(7, "user\0", 7));
    users.add_user(User::new(8, "user", 8));
    users.add_group(Group::new(7, "users\0"));
    users.add_group(Group::new(8, "users"));
    // Even an entry of that very name is not found, however often it is
    // searched for.
    for _ in 0..3 {
        assert!(users.get_user_by_name("user\0").is_none());
        assert!(users.get_user_by_name("\0").is_none());
        assert!(users.get_group_by_name("users\0").is_none());
    }
    // The table is as it was: the entries are found by ID, and the names
    // without a null character by name.
    assert_eq!(users.get_user_by_uid(7).unwrap().name(), "user\0");
    assert_eq!(users.get_group_by_gid(7).unwrap().name(), "users\0");
    assert_eq!(users.get_user_by_name("user").unwrap().uid(), 8);
    assert_eq!(users.get_group_by_name("users").unwrap().gid(), 8);
}

#[test]
fn mock_name_with_nul_finds_nobody_in_an_empty_table() {
    let mut users = MockUsers::with_current_uid(0);
    assert!(users.get_user_by_name("user\0").is_none());
    assert!(users.get_group_by_name("users\0").is_none());
}
