use users::base::{passwd_to_user, struct_to_group, Group, User};
use users::os::bsd::UserExt as BsdUserExt;
use users::os::unix::{GroupExt, GroupExtras, UserExt, UserExtras};
use users::raw::{c_group, c_passwd, c_str_eq, c_string, c_strlen, from_raw_buf, has_nul, members, str_eq};

fn entry(name: &[u8], uid: u32, gid: u32) -> c_passwd {
    c_passwd {
        pw_name: name.to_vec(),
        pw_passwd: b"x\0".to_vec(),
        pw_uid: uid,
        pw_gid: gid,
        pw_change: 11,
        pw_dir: b"/home/fred\0".to_vec(),
        pw_shell: b"/bin/bash\0".to_vec(),
        pw_expire: 22,
    }
}

#[test]
fn new_user_has_dummy_fields() {
    let user = User::new(501, "stevedore", 100);
    assert_eq!(user.uid(), 501);
    assert_eq!(user.name(), "stevedore");
    assert_eq!(&*user.name_arc(), "stevedore");
    assert_eq!(user.primary_group_id(), 100);
    assert_eq!(user.home_dir(), "/var/empty");
    assert_eq!(user.shell(), "/bin/false");
    assert_eq!(user.password(), "*");
    assert_eq!(user.password_change_time(), 0);
    assert_eq!(user.password_expire_time(), 0);
}

#[test]
fn user_builders_change_one_field_each() {
    let user = User::new(1, "a", 2).with_home_dir("/h").with_shell("/s").with_password("p");
    assert_eq!(user.home_dir(), "/h");
    assert_eq!(user.shell(), "/s");
    assert_eq!(user.password(), "p");
    assert_eq!(user.name(), "a");
    assert_eq!(user.uid(), 1);
    assert_eq!(user.primary_group_id(), 2);
}

#[test]
fn new_group_has_no_members() {
    let group = Group::new(102, "database");
    assert_eq!(group.gid(), 102);
    assert_eq!(group.name(), "database");
    assert_eq!(&*group.name_arc(), "database");
    assert!(group.members().is_empty());
}

#[test]
fn add_member_appends_and_keeps_duplicates() {
    let group = Group::new(1, "g").add_member("bob").add_member("alice").add_member("bob");
    assert_eq!(group.members(), ["bob".to_string(), "alice".to_string(), "bob".to_string()]);
}

#[test]
fn default_extras() {
    let extras = UserExtras::default();
    assert_eq!(extras.home_dir, "/var/empty");
    assert_eq!(extras.shell, "/bin/false");
    assert_eq!(extras.password, "*");
    let bsd = users::os::bsd::UserExtras::default();
    assert_eq!(bsd.extras.home_dir, "/var/empty");
    assert_eq!(bsd.change, 0);
    assert_eq!(bsd.expire, 0);
    assert!(GroupExtras::default().members.is_empty());
}

#[test]
fn extras_from_entries() {
    let extras = UserExtras::from_passwd(entry(b"fred\0", 1, 2));
    assert_eq!(extras.home_dir, "/home/fred");
    assert_eq!(extras.shell, "/bin/bash");
    assert_eq!(extras.password, "x");
    let bsd = users::os::bsd::UserExtras::from_passwd(entry(b"fred\0", 1, 2));
    assert_eq!(bsd.change, 11);
    assert_eq!(bsd.expire, 22);
    assert_eq!(bsd.extras.shell, "/bin/bash");
    let group = c_group {
        gr_name: b"g\0".to_vec(),
        gr_gid: 3,
        gr_mem: Some(vec![Some(b"a\0".to_vec()), Some(b"b\0".to_vec()), None]),
    };
    assert_eq!(GroupExtras::from_struct(group).members, ["a".to_string(), "b".to_string()]);
}

#[test]
fn c_strlen_stops_at_first_zero() {
    assert_eq!(c_strlen(b"abc\0def\0"), 3);
    assert_eq!(c_strlen(b"abc"), 3);
    assert_eq!(c_strlen(b"\0abc"), 0);
    assert_eq!(c_strlen(b""), 0);
}

#[test]
fn has_nul_finds_zero_bytes() {
    assert!(has_nul(b"user\0"));
    assert!(has_nul(b"\0"));
    assert!(!has_nul(b"user"));
    assert!(!has_nul(b""));
}

#[test]
fn c_str_eq_compares_up_to_the_terminator() {
    assert!(c_str_eq(b"fred\0junk", b"fred"));
    assert!(c_str_eq(b"fred", b"fred"));
    assert!(!c_str_eq(b"fred\0", b"fre"));
    assert!(!c_str_eq(b"fre\0d", b"fred"));
    assert!(!c_str_eq(b"Fred\0", b"fred"));
    assert!(c_str_eq(b"\0", b""));
}

#[test]
fn str_eq_is_text_equality() {
    assert!(str_eq("fred", "fred"));
    assert!(!str_eq("fred", "frex"));
    assert!(!str_eq("fred", "fre"));
    assert!(str_eq("", ""));
    assert!(str_eq("h\u{e9}", "h\u{e9}"));
}

#[test]
fn c_string_appends_terminator() {
    assert_eq!(c_string("fred"), b"fred\0".to_vec());
    assert_eq!(c_string(""), b"\0".to_vec());
}

#[test]
fn from_raw_buf_truncates_at_zero() {
    assert_eq!(from_raw_buf(b"fred\0junk"), "fred");
    assert_eq!(from_raw_buf(b"fred"), "fred");
    assert_eq!(from_raw_buf(b"\0"), "");
}

#[test]
fn from_raw_buf_replaces_malformed_bytes() {
    assert_eq!(from_raw_buf(b"fr\xffed\0"), "fr\u{fffd}ed");
    assert_eq!(from_raw_buf(b"caf\xc3\xa9\0"), "caf\u{e9}");
}

#[test]
fn members_of_empty_list() {
    assert_eq!(members(&None), Vec::<String>::new());
    assert_eq!(members(&Some(vec![])), Vec::<String>::new());
    assert_eq!(members(&Some(vec![None])), Vec::<String>::new());
}

#[test]
fn members_stop_at_first_null_entry() {
    let slots = Some(vec![
        Some(b"alice\0".to_vec()),
        Some(b"bob\0".to_vec()),
        None,
        Some(b"garbage\0".to_vec()),
    ]);
    assert_eq!(members(&slots), ["alice".to_string(), "bob".to_string()]);
}

#[test]
fn members_keep_order_and_duplicates() {
    let slots = Some(vec![Some(b"b\0".to_vec()), Some(b"a\0".to_vec()), Some(b"b\0".to_vec())]);
    assert_eq!(members(&slots), ["b".to_string(), "a".to_string(), "b".to_string()]);
}

#[test]
fn members_may_hold_an_empty_name() {
    let slots = Some(vec![Some(b"\0".to_vec()), None]);
    assert_eq!(members(&slots), ["".to_string()]);
}

#[test]
fn passwd_to_user_copies_every_field() {
    let user = passwd_to_user(Some(entry(b"fred\0", 1337, 101))).unwrap();
    assert_eq!(user.uid(), 1337);
    assert_eq!(user.name(), "fred");
    assert_eq!(user.primary_group_id(), 101);
    assert_eq!(user.home_dir(), "/home/fred");
    assert_eq!(user.shell(), "/bin/bash");
    assert_eq!(user.password(), "x");
    assert_eq!(user.password_change_time(), 11);
    assert_eq!(user.password_expire_time(), 22);
    assert!(passwd_to_user(None).is_none());
}

#[test]
fn struct_to_group_copies_every_field() {
    let raw = c_group {
        gr_name: b"staff\0".to_vec(),
        gr_gid: 20,
        gr_mem: Some(vec![Some(b"alice\0".to_vec()), None]),
    };
    let group = struct_to_group(Some(raw)).unwrap();
    assert_eq!(group.gid(), 20);
    assert_eq!(group.name(), "staff");
    assert_eq!(group.members(), ["alice".to_string()]);
    assert!(struct_to_group(None).is_none());
}

#[test]
fn group_with_null_member_array_has_no_members() {
    let raw = c_group { gr_name: b"empty\0".to_vec(), gr_gid: 5, gr_mem: None };
    let group = struct_to_group(Some(raw)).unwrap();
    assert!(group.members().is_empty());
}

#[test]
fn user_round_trips_through_its_entry() {
    let user = User::new(501, "stevedore", 100).with_home_dir("/home/s").with_shell("/bin/zsh");
    let raw = user.to_passwd();
    assert_eq!(raw.pw_name, b"stevedore\0".to_vec());
    assert_eq!(raw.pw_dir, b"/home/s\0".to_vec());
    assert_eq!(raw.pw_uid, 501);
    assert_eq!(raw.pw_gid, 100);
    let copy = raw.copy();
    assert_eq!(copy, raw);
    let back = passwd_to_user(Some(raw)).unwrap();
    assert_eq!(back.uid(), 501);
    assert_eq!(back.name(), "stevedore");
    assert_eq!(back.primary_group_id(), 100);
    assert_eq!(back.home_dir(), "/home/s");
    assert_eq!(back.shell(), "/bin/zsh");
    assert_eq!(back.password(), "*");
}

#[test]
fn group_round_trips_through_its_entry() {
    let group = Group::new(7, "wheel").add_member("a").add_member("b");
    let raw = group.to_struct();
    assert_eq!(raw.gr_name, b"wheel\0".to_vec());
    assert_eq!(raw.gr_mem, Some(vec![Some(b"a\0".to_vec()), Some(b"b\0".to_vec()), None]));
    assert_eq!(raw.copy(), raw);
    let back = struct_to_group(Some(raw)).unwrap();
    assert_eq!(back.gid(), 7);
    assert_eq!(back.name(), "wheel");
    assert_eq!(back.members(), ["a".to_string(), "b".to_string()]);
}
