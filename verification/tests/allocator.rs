//! Boundary and derivation tests of the address allocator.

use pam_isolate::{generate_veth_addresses, IsolateError};

#[test]
fn uid_999_is_rejected() {
    assert_eq!(generate_veth_addresses(999), Err(IsolateError::BadInput));
}

#[test]
fn uid_0_is_rejected() {
    assert_eq!(generate_veth_addresses(0), Err(IsolateError::BadInput));
}

#[test]
fn uid_max_plus_one_is_rejected() {
    assert_eq!(generate_veth_addresses(16385), Err(IsolateError::BadInput));
}

#[test]
fn uid_huge_is_rejected() {
    assert_eq!(generate_veth_addresses(u32::MAX), Err(IsolateError::BadInput));
}

#[test]
fn uid_1000_derivation() {
    let (outside, inside) = generate_veth_addresses(1000).unwrap();
    assert_eq!(
        (outside.v4.a, outside.v4.b, outside.v4.c, outside.v4.d),
        (100, 64, 0, 1)
    );
    assert_eq!(outside.v4_prefix_len, 24);
    assert_eq!(
        [
            outside.v6.h0,
            outside.v6.h1,
            outside.v6.h2,
            outside.v6.h3,
            outside.v6.h4,
            outside.v6.h5,
            outside.v6.h6,
            outside.v6.h7
        ],
        [0xfd75, 0x6272, 0x7370, 0, 0, 0, 0, 1]
    );
    assert_eq!(outside.v6_prefix_len, 64);
    assert_eq!(
        (inside.v4.a, inside.v4.b, inside.v4.c, inside.v4.d),
        (100, 64, 0, 2)
    );
    assert_eq!(inside.v6.h7, 2);
    assert_eq!(inside.v4_prefix_len, 24);
    assert_eq!(inside.v6_prefix_len, 64);
}

#[test]
fn uid_1256_derivation() {
    // index 256 splits into hi=1, lo=0
    let (outside, inside) = generate_veth_addresses(1256).unwrap();
    assert_eq!(
        (outside.v4.a, outside.v4.b, outside.v4.c, outside.v4.d),
        (100, 65, 0, 1)
    );
    assert_eq!(
        (inside.v4.a, inside.v4.b, inside.v4.c, inside.v4.d),
        (100, 65, 0, 2)
    );
    assert_eq!(outside.v6.h3, 0x0100);
    assert_eq!(outside.v6.h7, 1);
}

#[test]
fn uid_16384_derivation() {
    // index 15384 splits into hi=60, lo=24
    let (outside, _inside) = generate_veth_addresses(16384).unwrap();
    assert_eq!(
        (outside.v4.a, outside.v4.b, outside.v4.c, outside.v4.d),
        (100, 124, 24, 1)
    );
    assert_eq!(outside.v4_prefix_len, 24);
}

#[test]
fn distinct_uids_get_disjoint_subnets() {
    let (o1, _) = generate_veth_addresses(1000).unwrap();
    let (o2, _) = generate_veth_addresses(1001).unwrap();
    let (o3, _) = generate_veth_addresses(1256).unwrap();
    assert_ne!(
        (o1.v4.a, o1.v4.b, o1.v4.c),
        (o2.v4.a, o2.v4.b, o2.v4.c)
    );
    assert_ne!(
        (o1.v4.a, o1.v4.b, o1.v4.c),
        (o3.v4.a, o3.v4.b, o3.v4.c)
    );
    assert_ne!(o1.v6.h3, o2.v6.h3);
    assert_ne!(o1.v6.h3, o3.v6.h3);
}

#[test]
fn pair_shares_subnet_and_differs_in_host() {
    for uid in [1000u32, 1001, 1256, 2000, 16384] {
        let (outside, inside) = generate_veth_addresses(uid).unwrap();
        assert_eq!(
            (outside.v4.a, outside.v4.b, outside.v4.c),
            (inside.v4.a, inside.v4.b, inside.v4.c)
        );
        assert_eq!(outside.v4.d, 1);
        assert_eq!(inside.v4.d, 2);
        assert_eq!(
            [outside.v6.h0, outside.v6.h1, outside.v6.h2, outside.v6.h3],
            [inside.v6.h0, inside.v6.h1, inside.v6.h2, inside.v6.h3]
        );
        assert_eq!(outside.v6.h7, 1);
        assert_eq!(inside.v6.h7, 2);
    }
}

#[test]
fn allocator_is_deterministic() {
    assert_eq!(
        generate_veth_addresses(4242).unwrap(),
        generate_veth_addresses(4242).unwrap()
    );
}
