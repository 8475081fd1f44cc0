//! Deterministic veth address allocation.
//!
//! Each allowed uid is mapped to one "outside" and one "inside" address
//! record.  The IPv4 pair lives in a /24 inside the carrier-grade NAT
//! range `100.64.0.0/10`; the IPv6 pair lives in a /64 inside the ULA
//! range `fd00::/8`.  Distinct uids get disjoint subnets, and the two
//! records of one uid differ only in the final IPv4 octet (`.1` vs `.2`)
//! and the final IPv6 hextet (`::1` vs `::2`).

use vstd::prelude::*;

use crate::error::IsolateError;

verus! {

/// An IPv4 address as four octets, most significant first.
#[derive(Clone, Copy, PartialEq, Eq, Structural, Debug)]
pub struct V4Addr {
    pub a: u8,
    pub b: u8,
    pub c: u8,
    pub d: u8,
}

/// An IPv6 address as eight hextets, most significant first.
#[derive(Clone, Copy, PartialEq, Eq, Structural, Debug)]
pub struct V6Addr {
    pub h0: u16,
    pub h1: u16,
    pub h2: u16,
    pub h3: u16,
    pub h4: u16,
    pub h5: u16,
    pub h6: u16,
    pub h7: u16,
}

/// One side's addressing: an IPv4 address with its prefix length and an
/// IPv6 address with its prefix length.
#[derive(Clone, Copy, PartialEq, Eq, Structural, Debug)]
pub struct AddressPair {
    pub v4: V4Addr,
    pub v4_prefix_len: u8,
    pub v6: V6Addr,
    pub v6_prefix_len: u8,
}

/// The smallest uid the allocator accepts.
pub const UID_MIN: u32 = 1000;

/// The largest uid the allocator accepts (the offset index must fit in
/// 14 bits of subnet space, and `2^14` itself is still allowed).
pub const UID_MAX: u32 = 16384;

/// The uids for which addresses can be derived.
pub open spec fn uid_in_range(uid: u32) -> bool {
    UID_MIN <= uid <= UID_MAX
}

/// The zero-based index of a uid inside the allowed range.
pub open spec fn uid_index(uid: u32) -> int {
    uid - UID_MIN
}

/// High byte of the uid index.
pub open spec fn uid_hi(uid: u32) -> int {
    uid_index(uid) / 256
}

/// Low byte of the uid index.
pub open spec fn uid_lo(uid: u32) -> int {
    uid_index(uid) % 256
}

/// The host-side address record of a uid: `100.(64+hi).lo.1/24` and
/// `fd75:6272:7370:<index>::1/64`.
pub open spec fn outside_address_pair(uid: u32) -> AddressPair {
    AddressPair {
        v4: V4Addr { a: 100, b: (64 + uid_hi(uid)) as u8, c: uid_lo(uid) as u8, d: 1 },
        v4_prefix_len: 24,
        v6: V6Addr {
            h0: 0xfd75,
            h1: 0x6272,
            h2: 0x7370,
            h3: uid_index(uid) as u16,
            h4: 0,
            h5: 0,
            h6: 0,
            h7: 1,
        },
        v6_prefix_len: 64,
    }
}

/// The namespace-side address record of a uid: same subnets as the
/// outside record, host octet `.2` and final hextet `::2`.
pub open spec fn inside_address_pair(uid: u32) -> AddressPair {
    AddressPair {
        v4: V4Addr { a: 100, b: (64 + uid_hi(uid)) as u8, c: uid_lo(uid) as u8, d: 2 },
        v4_prefix_len: 24,
        v6: V6Addr {
            h0: 0xfd75,
            h1: 0x6272,
            h2: 0x7370,
            h3: uid_index(uid) as u16,
            h4: 0,
            h5: 0,
            h6: 0,
            h7: 2,
        },
        v6_prefix_len: 64,
    }
}

/// The /24 an address record lives in: its first three IPv4 octets.
pub open spec fn v4_subnet(p: AddressPair) -> (int, int, int) {
    (p.v4.a as int, p.v4.b as int, p.v4.c as int)
}

/// The /64 an address record lives in: its first four IPv6 hextets.
pub open spec fn v6_subnet(p: AddressPair) -> (int, int, int, int) {
    (p.v6.h0 as int, p.v6.h1 as int, p.v6.h2 as int, p.v6.h3 as int)
}

/// Derives the (outside, inside) address records of a uid.
///
/// Exactly the uids in `[UID_MIN, UID_MAX]` succeed; everything else is
/// `BadInput`.  The result is a pure function of the uid.
pub fn generate_veth_addresses(uid: u32) -> (r: Result<(AddressPair, AddressPair), IsolateError>)
    ensures
        r is Ok <==> uid_in_range(uid),
        r matches Ok(p) ==> p.0 == outside_address_pair(uid) && p.1 == inside_address_pair(uid),
        r matches Err(e) ==> e == IsolateError::BadInput,
{
    if uid < UID_MIN || uid > UID_MAX {
        return Err(IsolateError::BadInput);
    }
    let idx: u32 = uid - UID_MIN;
    assert(idx <= 15384);
    let hi: u32 = idx / 256;
    let lo: u32 = idx % 256;
    assert(hi <= 60);
    let outside = AddressPair {
        v4: V4Addr { a: 100, b: (64 + hi) as u8, c: lo as u8, d: 1 },
        v4_prefix_len: 24,
        v6: V6Addr {
            h0: 0xfd75,
            h1: 0x6272,
            h2: 0x7370,
            h3: idx as u16,
            h4: 0,
            h5: 0,
            h6: 0,
            h7: 1,
        },
        v6_prefix_len: 64,
    };
    let inside = AddressPair {
        v4: V4Addr { a: 100, b: (64 + hi) as u8, c: lo as u8, d: 2 },
        v4_prefix_len: 24,
        v6: V6Addr {
            h0: 0xfd75,
            h1: 0x6272,
            h2: 0x7370,
            h3: idx as u16,
            h4: 0,
            h5: 0,
            h6: 0,
            h7: 2,
        },
        v6_prefix_len: 64,
    };
    Ok((outside, inside))
}

/// Distinct uids in range get disjoint /24 IPv4 subnets and disjoint
/// /64 IPv6 subnets: neither record of one uid shares a subnet with
/// either record of the other.
pub proof fn lemma_distinct_uids_disjoint_subnets(u: u32, v: u32)
    requires
        uid_in_range(u),
        uid_in_range(v),
        u != v,
    ensures
        v4_subnet(outside_address_pair(u)) != v4_subnet(outside_address_pair(v)),
        v6_subnet(outside_address_pair(u)) != v6_subnet(outside_address_pair(v)),
        v4_subnet(inside_address_pair(u)) != v4_subnet(inside_address_pair(v)),
        v6_subnet(inside_address_pair(u)) != v6_subnet(inside_address_pair(v)),
        v4_subnet(outside_address_pair(u)) != v4_subnet(inside_address_pair(v)),
        v6_subnet(outside_address_pair(u)) != v6_subnet(inside_address_pair(v)),
{
    let iu = uid_index(u);
    let iv = uid_index(v);
    assert(iu != iv);
    vstd::arithmetic::div_mod::lemma_fundamental_div_mod(iu, 256);
    vstd::arithmetic::div_mod::lemma_fundamental_div_mod(iv, 256);
    assert(iu / 256 != iv / 256 || iu % 256 != iv % 256);
}

/// The outside and inside records of one uid share a /24 and a /64 and
/// use the same prefix lengths; they differ only in the final IPv4
/// octet (`.1` vs `.2`) and the final IPv6 hextet (`::1` vs `::2`).
pub proof fn lemma_pair_shares_subnet(u: u32)
    requires
        uid_in_range(u),
    ensures
        v4_subnet(outside_address_pair(u)) == v4_subnet(inside_address_pair(u)),
        v6_subnet(outside_address_pair(u)) == v6_subnet(inside_address_pair(u)),
        outside_address_pair(u).v4.d == 1,
        inside_address_pair(u).v4.d == 2,
        outside_address_pair(u).v6.h7 == 1,
        inside_address_pair(u).v6.h7 == 2,
        outside_address_pair(u).v6.h4 == inside_address_pair(u).v6.h4,
        outside_address_pair(u).v6.h5 == inside_address_pair(u).v6.h5,
        outside_address_pair(u).v6.h6 == inside_address_pair(u).v6.h6,
        outside_address_pair(u).v4_prefix_len == 24,
        inside_address_pair(u).v4_prefix_len == 24,
        outside_address_pair(u).v6_prefix_len == 64,
        inside_address_pair(u).v6_prefix_len == 64,
{
}

} // verus!
