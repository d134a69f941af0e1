use std::sync::Arc;

use users::mock::host::{Call, MockHost};
use users::raw::{c_group, c_passwd};
use users::{Group, Groups, Host, Traced, User, Users, UsersCache};

fn table() -> MockHost {
    let mut host = MockHost::new(501, 100);
    host.set_privileged(true);
    host.add_user(&User::new(501, "stevedore", 100));
    host.add_user(&User::new(502, "alice", 100));
    host.add_group(&Group::new(100, "dock"));
    host.add_group(&Group::new(101, "crane"));
    host
}

fn cache() -> UsersCache<MockHost> {
    UsersCache::new(Traced::new(table()))
}

fn calls(cache: &UsersCache<MockHost>) -> Vec<Call> {
    cache.host().host().calls().clone()
}

#[test]
fn memoization_by_uid() {
    let mut cache = cache();
    let first = cache.get_user_by_uid(501).unwrap();
    let second = cache.get_user_by_uid(501).unwrap();
    assert_eq!(first.name(), "stevedore");
    assert!(Arc::ptr_eq(&first, &second));
    assert_eq!(calls(&cache), [Call::GetPwUid(501)]);
}

#[test]
fn memoization_by_name() {
    let mut cache = cache();
    let first = cache.get_user_by_name("alice").unwrap();
    let second = cache.get_user_by_name("alice").unwrap();
    assert_eq!(first.uid(), 502);
    assert!(Arc::ptr_eq(&first, &second));
    assert_eq!(calls(&cache), [Call::GetPwNam]);
}

#[test]
fn cross_index_consistency() {
    let mut cache = cache();
    let by_name = cache.get_user_by_name("alice").unwrap();
    assert_eq!(by_name.uid(), 502);
    let by_id = cache.get_user_by_uid(502).unwrap();
    assert_eq!(by_id.name(), "alice");
    assert!(Arc::ptr_eq(&by_name, &by_id));
    assert_eq!(calls(&cache), [Call::GetPwNam]);
}

#[test]
fn cross_index_consistency_from_the_id() {
    let mut cache = cache();
    let by_id = cache.get_user_by_uid(502).unwrap();
    let by_name = cache.get_user_by_name("alice").unwrap();
    assert!(Arc::ptr_eq(&by_name, &by_id));
    assert_eq!(calls(&cache), [Call::GetPwUid(502)]);
}

#[test]
fn negative_result_memoization() {
    let mut cache = cache();
    assert!(cache.get_user_by_uid(999).is_none());
    assert!(cache.get_user_by_uid(999).is_none());
    assert!(cache.get_user_by_name("nobody").is_none());
    assert!(cache.get_user_by_name("nobody").is_none());
    assert!(cache.get_group_by_gid(999).is_none());
    assert!(cache.get_group_by_gid(999).is_none());
    assert!(cache.get_group_by_name("nothing").is_none());
    assert!(cache.get_group_by_name("nothing").is_none());
    assert_eq!(
        calls(&cache),
        [Call::GetPwUid(999), Call::GetPwNam, Call::GetGrGid(999), Call::GetGrNam]
    );
}

#[test]
fn null_byte_rejection_is_pure() {
    let mut mock = table();
    mock.add_user(&User::new(7, "user", 70));
    let mut cache = UsersCache::new(Traced::new(mock));
    assert!(cache.get_user_by_name("user\0").is_none());
    assert!(cache.get_user_by_name("user\0").is_none());
    assert!(calls(&cache).is_empty());
    // The valid name is unaffected and still reaches the host.
    assert_eq!(cache.get_user_by_name("user").unwrap().uid(), 7);
    assert_eq!(calls(&cache), [Call::GetPwNam]);
    assert!(cache.get_user_by_name("user\0").is_none());
    assert!(cache.get_group_by_name("dock\0").is_none());
    assert_eq!(calls(&cache), [Call::GetPwNam]);
}

#[test]
fn round_trip_identity() {
    let mut cache = cache();
    let by_id = cache.get_user_by_uid(501).unwrap();
    assert_eq!(by_id.uid(), 501);
    assert_eq!(by_id.name(), "stevedore");
    assert_eq!(by_id.primary_group_id(), 100);
    let mut fresh = self::cache();
    let by_name = fresh.get_user_by_name("stevedore").unwrap();
    assert_eq!(by_name.uid(), 501);
    assert_eq!(by_name.name(), "stevedore");
    assert_eq!(by_name.primary_group_id(), 100);
}

#[test]
fn groups_are_cached_like_users() {
    let mut cache = cache();
    let by_name = cache.get_group_by_name("crane").unwrap();
    let by_id = cache.get_group_by_gid(101).unwrap();
    assert!(Arc::ptr_eq(&by_name, &by_id));
    let dock = cache.get_group_by_gid(100).unwrap();
    let again = cache.get_group_by_name("dock").unwrap();
    assert!(Arc::ptr_eq(&dock, &again));
    assert_eq!(calls(&cache), [Call::GetGrNam, Call::GetGrGid(100)]);
}

#[test]
fn ids_of_the_process_are_read_once_each() {
    let mut mock = table();
    mock.add_user(&User::new(0, "root", 0));
    mock.add_group(&Group::new(0, "wheel"));
    let mut host = Traced::new(mock);
    users::switch::set_effective_uid(&mut host, 0).unwrap();
    users::switch::set_effective_gid(&mut host, 0).unwrap();
    let mut cache = UsersCache::new(host);
    for _ in 0..3 {
        assert_eq!(cache.get_current_uid(), 501);
        assert_eq!(cache.get_effective_uid(), 0);
        assert_eq!(cache.get_current_gid(), 100);
        assert_eq!(cache.get_effective_gid(), 0);
    }
    assert_eq!(
        calls(&cache)[2..],
        [Call::GetUid, Call::GetEuid, Call::GetGid, Call::GetEgid]
    );
}

#[test]
fn ids_stay_as_first_read() {
    let mut cache = cache();
    assert_eq!(cache.get_effective_uid(), 501);
    let mut host = cache.into_host();
    users::switch::set_effective_uid(&mut host, 502).unwrap();
    assert_eq!(host.host().effective_uid(), 502);
    // A new cache sees the new ID.
    let mut cache = UsersCache::new(host);
    assert_eq!(cache.get_effective_uid(), 502);
}

#[test]
fn names_of_the_process_use_the_cache() {
    let mut cache = cache();
    assert_eq!(cache.get_current_username(), Some(Arc::new("stevedore".to_string())));
    assert_eq!(cache.get_current_username(), Some(Arc::new("stevedore".to_string())));
    assert_eq!(cache.get_effective_username(), Some(Arc::new("stevedore".to_string())));
    assert_eq!(cache.get_current_groupname(), Some(Arc::new("dock".to_string())));
    assert_eq!(cache.get_effective_groupname(), Some(Arc::new("dock".to_string())));
    assert_eq!(
        calls(&cache),
        [
            Call::GetUid,
            Call::GetPwUid(501),
            Call::GetEuid,
            Call::GetGid,
            Call::GetGrGid(100),
            Call::GetEgid,
        ]
    );
}

#[test]
fn name_of_a_process_whose_user_is_gone() {
    let mut cache = UsersCache::new(Traced::new(MockHost::new(9, 9)));
    assert_eq!(cache.get_current_username(), None);
    assert_eq!(cache.get_current_username(), None);
    assert_eq!(cache.get_current_groupname(), None);
    assert_eq!(calls(&cache), [Call::GetUid, Call::GetPwUid(9), Call::GetGid, Call::GetGrGid(9)]);
}

/// A host with two names for the user 0.
struct TwoNames;

fn named(name: &[u8]) -> c_passwd {
    c_passwd {
        pw_name: name.to_vec(),
        pw_passwd: b"*\0".to_vec(),
        pw_uid: 0,
        pw_gid: 0,
        pw_change: 0,
        pw_dir: b"/root\0".to_vec(),
        pw_shell: b"/bin/sh\0".to_vec(),
        pw_expire: 0,
    }
}

impl Host for TwoNames {
    fn getpwuid(&mut self, uid: u32) -> Option<c_passwd> {
        if uid == 0 {
            Some(named(b"root\0"))
        } else {
            None
        }
    }
    fn getpwnam(&mut self, name: &str) -> Option<c_passwd> {
        match name {
            "root" => Some(named(b"root\0")),
            "toor" => Some(named(b"toor\0")),
            _ => None,
        }
    }
    fn getgrgid(&mut self, _gid: u32) -> Option<c_group> {
        None
    }
    fn getgrnam(&mut self, _name: &str) -> Option<c_group> {
        None
    }
    fn getuid(&mut self) -> u32 {
        0
    }
    fn geteuid(&mut self) -> u32 {
        0
    }
    fn getgid(&mut self) -> u32 {
        0
    }
    fn getegid(&mut self) -> u32 {
        0
    }
    fn setuid(&mut self, _uid: u32) -> Result<(), i32> {
        Ok(())
    }
    fn setgid(&mut self, _gid: u32) -> Result<(), i32> {
        Ok(())
    }
    fn seteuid(&mut self, _uid: u32) -> Result<(), i32> {
        Ok(())
    }
    fn setegid(&mut self, _gid: u32) -> Result<(), i32> {
        Ok(())
    }
    fn setreuid(&mut self, _ruid: u32, _euid: u32) -> Result<(), i32> {
        Ok(())
    }
    fn setregid(&mut self, _rgid: u32, _egid: u32) -> Result<(), i32> {
        Ok(())
    }
    fn getgroups(&mut self, _size: usize) -> Result<Vec<u32>, i32> {
        Ok(vec![])
    }
    fn getgrouplist(&mut self, _name: &str, gid: u32, _size: usize) -> Option<Vec<u32>> {
        Some(vec![gid])
    }
    fn setpwent(&mut self) {}
    fn getpwent(&mut self) -> Option<c_passwd> {
        None
    }
    fn endpwent(&mut self) {}
}

#[test]
fn the_latest_search_files_the_user_under_its_id() {
    let mut cache = UsersCache::new(Traced::new(TwoNames));
    assert_eq!(cache.get_user_by_uid(0).unwrap().name(), "root");
    // The search by name finds another entry for the same ID and files it.
    assert_eq!(cache.get_user_by_name("toor").unwrap().name(), "toor");
    assert_eq!(cache.get_user_by_uid(0).unwrap().name(), "toor");
    // The name that was resolved first still points to the ID.
    assert_eq!(cache.get_user_by_name("root").unwrap().uid(), 0);
}
