//! Conversion of configured sysctl entries into typed kernel settings.
//!
//! The configuration maps sysctl keys to values that are either a
//! string, a wide signed integer, or a small table `{ type = <tag>,
//! value = <int> }` carrying an explicit width tag.  This module turns
//! each entry into the typed setting the kernel interface expects, and
//! skips every malformed entry; applying the settings (and logging the
//! entries that the kernel rejects) is the driver's job.  The pass is
//! total: it never fails, however many entries are malformed.

use vstd::prelude::*;

verus! {

/// A scalar inside a typed-entry table.
pub enum RawScalar {
    /// A string value.
    Text(Vec<u8>),
    /// An integer value.
    Integer(i64),
    /// Any other shape (float, boolean, datetime, array, nested table).
    Other,
}

/// One key/value binding inside a typed-entry table.
pub struct TableEntry {
    pub key: Vec<u8>,
    pub val: RawScalar,
}

/// A configured sysctl value before conversion.
pub enum RawValue {
    /// A plain string.
    Text(Vec<u8>),
    /// A plain integer.
    Integer(i64),
    /// A table expected to hold `type` and `value` bindings.
    Table(Vec<TableEntry>),
    /// Any other shape; always skipped.
    Other,
}

/// One configured sysctl entry: a key and its raw value.
pub struct ConfigEntry {
    pub key: Vec<u8>,
    pub value: RawValue,
}

/// A typed setting ready to be handed to the kernel interface, mirroring
/// the width variants the sysctl interface accepts.
#[derive(PartialEq, Eq, Debug)]
pub enum CtlSetting {
    Text(Vec<u8>),
    Uint(u32),
    Ulong(u64),
    U8(u8),
    U16(u16),
    U32(u32),
    U64(u64),
    Int(i32),
    Long(i64),
    S8(i8),
    S16(i16),
    S32(i32),
    S64(i64),
}

/// One converted entry of the pass.
pub struct PlannedSetting {
    pub key: Vec<u8>,
    pub setting: CtlSetting,
}

/// "type"
pub open spec fn type_key() -> Seq<u8> {
    seq![0x74, 0x79, 0x70, 0x65]
}

/// "value"
pub open spec fn value_key() -> Seq<u8> {
    seq![0x76, 0x61, 0x6c, 0x75, 0x65]
}

/// "uint"
pub open spec fn tag_uint() -> Seq<u8> {
    seq![0x75, 0x69, 0x6e, 0x74]
}

/// "ulong"
pub open spec fn tag_ulong() -> Seq<u8> {
    seq![0x75, 0x6c, 0x6f, 0x6e, 0x67]
}

/// "u8"
pub open spec fn tag_u8() -> Seq<u8> {
    seq![0x75, 0x38]
}

/// "u16"
pub open spec fn tag_u16() -> Seq<u8> {
    seq![0x75, 0x31, 0x36]
}

/// "u32"
pub open spec fn tag_u32() -> Seq<u8> {
    seq![0x75, 0x33, 0x32]
}

/// "u64"
pub open spec fn tag_u64() -> Seq<u8> {
    seq![0x75, 0x36, 0x34]
}

/// "int"
pub open spec fn tag_int() -> Seq<u8> {
    seq![0x69, 0x6e, 0x74]
}

/// "long"
pub open spec fn tag_long() -> Seq<u8> {
    seq![0x6c, 0x6f, 0x6e, 0x67]
}

/// "s8"
pub open spec fn tag_s8() -> Seq<u8> {
    seq![0x73, 0x38]
}

/// "s16"
pub open spec fn tag_s16() -> Seq<u8> {
    seq![0x73, 0x31, 0x36]
}

/// "s32"
pub open spec fn tag_s32() -> Seq<u8> {
    seq![0x73, 0x33, 0x32]
}

/// "s64"
pub open spec fn tag_s64() -> Seq<u8> {
    seq![0x73, 0x36, 0x34]
}

/// The first binding of `key` in a table, if any.
pub open spec fn table_lookup(s: Seq<TableEntry>, key: Seq<u8>) -> Option<RawScalar>
    decreases s.len(),
{
    if s.len() == 0 {
        None
    } else if s[0].key@ == key {
        Some(s[0].val)
    } else {
        table_lookup(s.drop_first(), key)
    }
}

/// The setting produced by a width tag and an integer payload;
/// integers are narrowed by two's-complement truncation.  Unknown tags
/// produce nothing.
pub open spec fn typed_setting(tag: Seq<u8>, v: i64) -> Option<CtlSetting> {
    if tag == tag_uint() {
        Some(CtlSetting::Uint(v as u32))
    } else if tag == tag_ulong() {
        Some(CtlSetting::Ulong(v as u64))
    } else if tag == tag_u8() {
        Some(CtlSetting::U8(v as u8))
    } else if tag == tag_u16() {
        Some(CtlSetting::U16(v as u16))
    } else if tag == tag_u32() {
        Some(CtlSetting::U32(v as u32))
    } else if tag == tag_u64() {
        Some(CtlSetting::U64(v as u64))
    } else if tag == tag_int() {
        Some(CtlSetting::Int(v as i32))
    } else if tag == tag_long() {
        Some(CtlSetting::Long(v))
    } else if tag == tag_s8() {
        Some(CtlSetting::S8(v as i8))
    } else if tag == tag_s16() {
        Some(CtlSetting::S16(v as i16))
    } else if tag == tag_s32() {
        Some(CtlSetting::S32(v as i32))
    } else if tag == tag_s64() {
        Some(CtlSetting::S64(v))
    } else {
        None
    }
}

/// The typed setting of one raw value: strings pass through, integers
/// become wide signed settings, well-formed typed tables follow their
/// tag, and every other shape is skipped.
pub open spec fn convert_value_spec(v: RawValue) -> Option<CtlSetting> {
    match v {
        RawValue::Text(s) => Some(CtlSetting::Text(s)),
        RawValue::Integer(i) => Some(CtlSetting::S64(i)),
        RawValue::Table(entries) => match table_lookup(entries@, type_key()) {
            Some(RawScalar::Text(tag)) => match table_lookup(entries@, value_key()) {
                Some(RawScalar::Integer(i)) => typed_setting(tag@, i),
                _ => None,
            },
            _ => None,
        },
        RawValue::Other => None,
    }
}

/// The converted entries of a whole configuration table, in order, with
/// every malformed entry dropped.
pub open spec fn plan_spec(s: Seq<ConfigEntry>) -> Seq<PlannedSetting>
    decreases s.len(),
{
    if s.len() == 0 {
        Seq::empty()
    } else {
        let rest = plan_spec(s.drop_first());
        match convert_value_spec(s[0].value) {
            Some(c) => seq![PlannedSetting { key: s[0].key, setting: c }] + rest,
            None => rest,
        }
    }
}

fn lit_eq2(t: &Vec<u8>, a: u8, b: u8) -> (r: bool)
    ensures
        r == (t@ == seq![a, b]),
{
    if t.len() != 2 {
        proof {
            assert(t@ != seq![a, b]) by {
                if t@ == seq![a, b] {
                    assert(t@.len() == 2);
                }
            }
        }
        return false;
    }
    let r = t[0] == a && t[1] == b;
    proof {
        if r {
            assert(t@ =~= seq![a, b]);
        } else {
            assert(t@ != seq![a, b]) by {
                if t@ == seq![a, b] {
                    assert(t@[0] == a && t@[1] == b);
                }
            }
        }
    }
    r
}

fn lit_eq3(t: &Vec<u8>, a: u8, b: u8, c: u8) -> (r: bool)
    ensures
        r == (t@ == seq![a, b, c]),
{
    if t.len() != 3 {
        proof {
            assert(t@ != seq![a, b, c]) by {
                if t@ == seq![a, b, c] {
                    assert(t@.len() == 3);
                }
            }
        }
        return false;
    }
    let r = t[0] == a && t[1] == b && t[2] == c;
    proof {
        if r {
            assert(t@ =~= seq![a, b, c]);
        } else {
            assert(t@ != seq![a, b, c]) by {
                if t@ == seq![a, b, c] {
                    assert(t@[0] == a && t@[1] == b && t@[2] == c);
                }
            }
        }
    }
    r
}

fn lit_eq4(t: &Vec<u8>, a: u8, b: u8, c: u8, d: u8) -> (r: bool)
    ensures
        r == (t@ == seq![a, b, c, d]),
{
    if t.len() != 4 {
        proof {
            assert(t@ != seq![a, b, c, d]) by {
                if t@ == seq![a, b, c, d] {
                    assert(t@.len() == 4);
                }
            }
        }
        return false;
    }
    let r = t[0] == a && t[1] == b && t[2] == c && t[3] == d;
    proof {
        if r {
            assert(t@ =~= seq![a, b, c, d]);
        } else {
            assert(t@ != seq![a, b, c, d]) by {
                if t@ == seq![a, b, c, d] {
                    assert(t@[0] == a && t@[1] == b && t@[2] == c && t@[3] == d);
                }
            }
        }
    }
    r
}

fn lit_eq5(t: &Vec<u8>, a: u8, b: u8, c: u8, d: u8, e: u8) -> (r: bool)
    ensures
        r == (t@ == seq![a, b, c, d, e]),
{
    if t.len() != 5 {
        proof {
            assert(t@ != seq![a, b, c, d, e]) by {
                if t@ == seq![a, b, c, d, e] {
                    assert(t@.len() == 5);
                }
            }
        }
        return false;
    }
    let r = t[0] == a && t[1] == b && t[2] == c && t[3] == d && t[4] == e;
    proof {
        if r {
            assert(t@ =~= seq![a, b, c, d, e]);
        } else {
            assert(t@ != seq![a, b, c, d, e]) by {
                if t@ == seq![a, b, c, d, e] {
                    assert(t@[0] == a && t@[1] == b && t@[2] == c && t@[3] == d && t@[4] == e);
                }
            }
        }
    }
    r
}

/// Finds the first binding of `key` in a table.
fn table_get<'a>(entries: &'a Vec<TableEntry>, key: &Vec<u8>) -> (r: Option<&'a RawScalar>)
    ensures
        match r {
            Some(val) => table_lookup(entries@, key@) == Some(*val),
            None => table_lookup(entries@, key@) is None,
        },
{
    let mut i: usize = 0;
    proof {
        assert(entries@.subrange(0, entries@.len() as int) =~= entries@);
    }
    while i < entries.len()
        invariant
            i <= entries@.len(),
            table_lookup(entries@, key@) == table_lookup(entries@.subrange(
                i as int,
                entries@.len() as int,
            ), key@),
        decreases entries@.len() - i,
    {
        let sub = Ghost(entries@.subrange(i as int, entries@.len() as int));
        proof {
            assert(sub@[0] == entries@[i as int]);
        }
        if crate::bytes::bytes_eq(&entries[i].key, key) {
            return Some(&entries[i].val);
        }
        proof {
            assert(sub@.drop_first() =~= entries@.subrange(i + 1, entries@.len() as int));
        }
        i += 1;
    }
    proof {
        assert(entries@.subrange(entries@.len() as int, entries@.len() as int) =~= Seq::<
            TableEntry,
        >::empty());
    }
    None
}

/// Converts a width tag and integer payload.
fn apply_tag(tag: &Vec<u8>, v: i64) -> (r: Option<CtlSetting>)
    ensures
        r == typed_setting(tag@, v),
{
    if lit_eq4(tag, 0x75, 0x69, 0x6e, 0x74) {
        Some(CtlSetting::Uint(#[verifier::truncate] (v as u32)))
    } else if lit_eq5(tag, 0x75, 0x6c, 0x6f, 0x6e, 0x67) {
        Some(CtlSetting::Ulong(#[verifier::truncate] (v as u64)))
    } else if lit_eq2(tag, 0x75, 0x38) {
        Some(CtlSetting::U8(#[verifier::truncate] (v as u8)))
    } else if lit_eq3(tag, 0x75, 0x31, 0x36) {
        Some(CtlSetting::U16(#[verifier::truncate] (v as u16)))
    } else if lit_eq3(tag, 0x75, 0x33, 0x32) {
        Some(CtlSetting::U32(#[verifier::truncate] (v as u32)))
    } else if lit_eq3(tag, 0x75, 0x36, 0x34) {
        Some(CtlSetting::U64(#[verifier::truncate] (v as u64)))
    } else if lit_eq3(tag, 0x69, 0x6e, 0x74) {
        Some(CtlSetting::Int(#[verifier::truncate] (v as i32)))
    } else if lit_eq4(tag, 0x6c, 0x6f, 0x6e, 0x67) {
        Some(CtlSetting::Long(v))
    } else if lit_eq2(tag, 0x73, 0x38) {
        Some(CtlSetting::S8(#[verifier::truncate] (v as i8)))
    } else if lit_eq3(tag, 0x73, 0x31, 0x36) {
        Some(CtlSetting::S16(#[verifier::truncate] (v as i16)))
    } else if lit_eq3(tag, 0x73, 0x33, 0x32) {
        Some(CtlSetting::S32(#[verifier::truncate] (v as i32)))
    } else if lit_eq3(tag, 0x73, 0x36, 0x34) {
        Some(CtlSetting::S64(v))
    } else {
        None
    }
}

/// Converts one raw value into its typed setting, or nothing if the
/// value is malformed.
pub fn convert_value(v: RawValue) -> (r: Option<CtlSetting>)
    ensures
        r == convert_value_spec(v),
{
    match v {
        RawValue::Text(s) => Some(CtlSetting::Text(s)),
        RawValue::Integer(i) => Some(CtlSetting::S64(i)),
        RawValue::Table(entries) => {
            let mut tkey: Vec<u8> = Vec::new();
            tkey.push(0x74);
            tkey.push(0x79);
            tkey.push(0x70);
            tkey.push(0x65);
            proof {
                assert(tkey@ =~= type_key());
            }
            match table_get(&entries, &tkey) {
                Some(scalar) => match scalar {
                    RawScalar::Text(tag) => {
                        let mut vkey: Vec<u8> = Vec::new();
                        vkey.push(0x76);
                        vkey.push(0x61);
                        vkey.push(0x6c);
                        vkey.push(0x75);
                        vkey.push(0x65);
                        proof {
                            assert(vkey@ =~= value_key());
                        }
                        match table_get(&entries, &vkey) {
                            Some(payload) => match payload {
                                RawScalar::Integer(i) => apply_tag(tag, *i),
                                _ => None,
                            },
                            _ => None,
                        }
                    },
                    _ => None,
                },
                _ => None,
            }
        },
        RawValue::Other => None,
    }
}

/// Converts a whole configuration table into the settings to apply, in
/// order, dropping every malformed entry.  The pass is total: it
/// returns for every input.
pub fn plan_sysctl(entries: Vec<ConfigEntry>) -> (r: Vec<PlannedSetting>)
    ensures
        r@ == plan_spec(entries@),
{
    let mut remaining = entries;
    let ghost orig = remaining@;
    let mut out: Vec<PlannedSetting> = Vec::new();
    proof {
        assert(out@ + plan_spec(remaining@) =~= plan_spec(orig));
    }
    while remaining.len() > 0
        invariant
            plan_spec(orig) == out@ + plan_spec(remaining@),
        decreases remaining@.len(),
    {
        let ghost before = remaining@;
        let e = remaining.remove(0);
        proof {
            assert(remaining@ =~= before.drop_first());
            assert(e == before[0]);
        }
        let key = e.key;
        match convert_value(e.value) {
            Some(setting) => {
                proof {
                    assert(plan_spec(before) == seq![
                        PlannedSetting { key: before[0].key, setting: convert_value_spec(before[0].value)->Some_0 },
                    ] + plan_spec(before.drop_first()));
                }
                out.push(PlannedSetting { key, setting });
                proof {
                    assert(out@ + plan_spec(remaining@) =~= plan_spec(orig));
                }
            },
            None => {
                proof {
                    assert(plan_spec(before) == plan_spec(before.drop_first()));
                }
            },
        }
    }
    proof {
        assert(plan_spec(remaining@) =~= Seq::empty());
        assert(out@ =~= plan_spec(orig));
    }
    out
}

} // verus!
