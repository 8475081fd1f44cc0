//! Sysctl value conversion and configuration tests.

use pam_isolate::config::{default_log_level, default_user_env, Config, LogLevel, Users};
use pam_isolate::sysctl::{
    convert_value, plan_sysctl, ConfigEntry, CtlSetting, RawScalar, RawValue, TableEntry,
};

fn b(s: &str) -> Vec<u8> {
    s.as_bytes().to_vec()
}

fn typed(tag: &str, v: i64) -> RawValue {
    RawValue::Table(vec![
        TableEntry { key: b("type"), val: RawScalar::Text(b(tag)) },
        TableEntry { key: b("value"), val: RawScalar::Integer(v) },
    ])
}

#[test]
fn plain_string_passes_through() {
    assert_eq!(
        convert_value(RawValue::Text(b("1"))),
        Some(CtlSetting::Text(b("1")))
    );
}

#[test]
fn plain_integer_becomes_wide_signed() {
    assert_eq!(convert_value(RawValue::Integer(7)), Some(CtlSetting::S64(7)));
    assert_eq!(convert_value(RawValue::Integer(-3)), Some(CtlSetting::S64(-3)));
}

#[test]
fn typed_unsigned_tags() {
    assert_eq!(convert_value(typed("uint", 5)), Some(CtlSetting::Uint(5)));
    assert_eq!(convert_value(typed("ulong", 5)), Some(CtlSetting::Ulong(5)));
    assert_eq!(convert_value(typed("u8", 5)), Some(CtlSetting::U8(5)));
    assert_eq!(convert_value(typed("u16", 5)), Some(CtlSetting::U16(5)));
    assert_eq!(convert_value(typed("u32", 5)), Some(CtlSetting::U32(5)));
    assert_eq!(convert_value(typed("u64", 5)), Some(CtlSetting::U64(5)));
}

#[test]
fn typed_signed_tags() {
    assert_eq!(convert_value(typed("int", -1)), Some(CtlSetting::Int(-1)));
    assert_eq!(convert_value(typed("long", -1)), Some(CtlSetting::Long(-1)));
    assert_eq!(convert_value(typed("s8", -1)), Some(CtlSetting::S8(-1)));
    assert_eq!(convert_value(typed("s16", -1)), Some(CtlSetting::S16(-1)));
    assert_eq!(convert_value(typed("s32", -1)), Some(CtlSetting::S32(-1)));
    assert_eq!(convert_value(typed("s64", -1)), Some(CtlSetting::S64(-1)));
}

#[test]
fn typed_tags_truncate() {
    assert_eq!(convert_value(typed("u8", 300)), Some(CtlSetting::U8(44)));
    assert_eq!(convert_value(typed("uint", -1)), Some(CtlSetting::Uint(4294967295)));
    assert_eq!(convert_value(typed("s8", 200)), Some(CtlSetting::S8(-56)));
    assert_eq!(convert_value(typed("u16", 65541)), Some(CtlSetting::U16(5)));
    assert_eq!(
        convert_value(typed("int", 1 << 40)),
        Some(CtlSetting::Int(0))
    );
}

#[test]
fn unknown_tag_is_skipped() {
    assert_eq!(convert_value(typed("float", 1)), None);
    assert_eq!(convert_value(typed("", 1)), None);
}

#[test]
fn malformed_tables_are_skipped() {
    // no `type` binding at all
    let v = RawValue::Table(vec![TableEntry {
        key: b("value"),
        val: RawScalar::Integer(1),
    }]);
    assert_eq!(convert_value(v), None);
    // `type` is not a string
    let v = RawValue::Table(vec![
        TableEntry { key: b("type"), val: RawScalar::Integer(8) },
        TableEntry { key: b("value"), val: RawScalar::Integer(1) },
    ]);
    assert_eq!(convert_value(v), None);
    // no `value` binding
    let v = RawValue::Table(vec![TableEntry {
        key: b("type"),
        val: RawScalar::Text(b("u8")),
    }]);
    assert_eq!(convert_value(v), None);
    // `value` is not an integer
    let v = RawValue::Table(vec![
        TableEntry { key: b("type"), val: RawScalar::Text(b("u8")) },
        TableEntry { key: b("value"), val: RawScalar::Text(b("1")) },
    ]);
    assert_eq!(convert_value(v), None);
}

#[test]
fn other_shapes_are_skipped() {
    assert_eq!(convert_value(RawValue::Other), None);
}

#[test]
fn pass_is_total_and_keeps_order() {
    let entries = vec![
        ConfigEntry { key: b("net.ipv4.ip_forward"), value: RawValue::Integer(1) },
        ConfigEntry { key: b("bad.entry"), value: RawValue::Other },
        ConfigEntry { key: b("vm.swappiness"), value: typed("u8", 10) },
        ConfigEntry { key: b("also.bad"), value: typed("mystery", 1) },
        ConfigEntry { key: b("kernel.hostname"), value: RawValue::Text(b("x")) },
    ];
    let planned = plan_sysctl(entries);
    assert_eq!(planned.len(), 3);
    assert_eq!(planned[0].key, b("net.ipv4.ip_forward"));
    assert_eq!(planned[0].setting, CtlSetting::S64(1));
    assert_eq!(planned[1].key, b("vm.swappiness"));
    assert_eq!(planned[1].setting, CtlSetting::U8(10));
    assert_eq!(planned[2].key, b("kernel.hostname"));
    assert_eq!(planned[2].setting, CtlSetting::Text(b("x")));
}

#[test]
fn pass_of_nothing_is_nothing() {
    assert_eq!(plan_sysctl(Vec::new()).len(), 0);
}

#[test]
fn config_defaults() {
    let c = Config::default();
    assert!(c.users.ignore.is_empty());
    assert_eq!(c.log_level, LogLevel::Warn);
    assert!(c.mount.is_none());
    assert_eq!(c.user_env, b("PAM_NETNS_USER"));
    assert_eq!(c.net.loopback, b("lo"));
    assert!(c.sysctl.is_empty());
    assert_eq!(default_log_level(), LogLevel::Warn);
    assert_eq!(default_user_env(), b("PAM_NETNS_USER"));
}

#[test]
fn ignore_list_matching() {
    let users = Users { ignore: vec![b("root"), b("daemon")] };
    assert!(users.is_ignored(&b("root")));
    assert!(users.is_ignored(&b("daemon")));
    assert!(!users.is_ignored(&b("alice")));
    let empty = Users { ignore: Vec::new() };
    assert!(!empty.is_ignored(&b("root")));
}
