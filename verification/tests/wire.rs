use ractor_cluster::wire::{length_prefix, payload_length, LENGTH_PREFIX_LEN};

fn samples() -> Vec<u64> {
    vec![
        0,
        1,
        5,
        10,
        127,
        128,
        255,
        256,
        257,
        65_535,
        65_536,
        16_777_216,
        4_294_967_295,
        4_294_967_296,
        0x0102_0304_0506_0708,
        0x00ff_00ff_00ff_00ff,
        0x8000_0000_0000_0000,
        u64::MAX - 1,
        u64::MAX,
    ]
}

#[test]
fn length_prefix_has_eight_bytes() {
    assert_eq!(LENGTH_PREFIX_LEN, 8);
    assert_eq!(length_prefix(0).len(), 8);
    assert_eq!(length_prefix(u64::MAX).len(), 8);
}

#[test]
fn length_prefix_of_five() {
    assert_eq!(length_prefix(5), [0, 0, 0, 0, 0, 0, 0, 5]);
}

#[test]
fn length_prefix_of_zero() {
    assert_eq!(length_prefix(0), [0, 0, 0, 0, 0, 0, 0, 0]);
}

#[test]
fn length_prefix_puts_most_significant_byte_first() {
    assert_eq!(length_prefix(256), [0, 0, 0, 0, 0, 0, 1, 0]);
    assert_eq!(length_prefix(0x0102_0304_0506_0708), [1, 2, 3, 4, 5, 6, 7, 8]);
    assert_eq!(length_prefix(0x8000_0000_0000_0000), [0x80, 0, 0, 0, 0, 0, 0, 0]);
    assert_eq!(length_prefix(u64::MAX), [0xff; 8]);
}

#[test]
fn length_prefix_agrees_with_the_standard_library() {
    for n in samples() {
        assert_eq!(length_prefix(n), n.to_be_bytes(), "prefix of {}", n);
    }
}

#[test]
fn payload_length_of_given_prefixes() {
    assert_eq!(payload_length(&[0, 0, 0, 0, 0, 0, 0, 0]), 0);
    assert_eq!(payload_length(&[0, 0, 0, 0, 0, 0, 0, 5]), 5);
    assert_eq!(payload_length(&[0, 0, 0, 0, 0, 0, 0, 10]), 10);
    assert_eq!(payload_length(&[0, 0, 0, 0, 0, 0, 1, 0]), 256);
    assert_eq!(payload_length(&[1, 2, 3, 4, 5, 6, 7, 8]), 0x0102_0304_0506_0708);
    assert_eq!(payload_length(&[0xff; 8]), u64::MAX);
}

#[test]
fn payload_length_agrees_with_the_standard_library() {
    for n in samples() {
        let bytes = n.to_be_bytes();
        assert_eq!(payload_length(&bytes), u64::from_be_bytes(bytes));
    }
}

#[test]
fn payload_length_reads_back_every_prefix() {
    for n in samples() {
        assert_eq!(payload_length(&length_prefix(n)), n);
    }
}

#[test]
fn length_prefix_writes_back_every_length() {
    let prefixes: Vec<[u8; 8]> = vec![
        [0, 0, 0, 0, 0, 0, 0, 0],
        [0, 0, 0, 0, 0, 0, 0, 1],
        [9, 8, 7, 6, 5, 4, 3, 2],
        [0xff, 0, 0xff, 0, 0xff, 0, 0xff, 0],
        [0xff; 8],
    ];
    for prefix in prefixes {
        assert_eq!(length_prefix(payload_length(&prefix)), prefix);
    }
}

#[test]
fn prefixes_of_different_lengths_differ() {
    let all = samples();
    for (i, a) in all.iter().enumerate() {
        for b in all.iter().skip(i + 1) {
            assert_ne!(length_prefix(*a), length_prefix(*b));
        }
    }
}
