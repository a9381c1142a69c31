use wasm_smith::Entropy;

#[test]
fn draws_read_as_many_bytes_as_the_range_needs() {
    let data = [
        0x01, 0x02, 0x03, 0x04, 0x05, 0x06, 0x07, 0x08, 0x09, 0x0A, 0x0B, 0x0C, 0x0D, 0x0E, 0x0F,
    ];
    let mut u = Entropy::new(&data);
    // One value: nothing is read.
    assert_eq!(u.draw(7, 7), 7);
    assert_eq!(u.remaining(), 15);
    // Up to 256 values: one byte.
    assert_eq!(u.draw(10, 20), 10 + 1 % 11);
    assert_eq!(u.remaining(), 14);
    // Up to 65536 values: two bytes, the first the most significant.
    assert_eq!(u.draw(0, 999), 0x0203 % 1000);
    assert_eq!(u.remaining(), 12);
    // Up to 2^32 values: four bytes.
    assert_eq!(u.draw(5, 0xFFFF_FFFF), 5 + 0x0405_0607 % 0xFFFF_FFFB);
    assert_eq!(u.remaining(), 8);
    // More: eight bytes.
    assert_eq!(u.draw(0, u64::MAX), 0x0809_0A0B_0C0D_0E0F);
    assert!(u.is_empty());
}

#[test]
fn an_exhausted_reader_gives_the_defaults() {
    let mut u = Entropy::new(&[]);
    assert!(u.is_empty());
    assert_eq!(u.draw(3, 9), 3);
    assert_eq!(u.count(4, 10), 4);
    assert_eq!(u.index(5), 0);
    assert!(!u.flag());
    assert_eq!(u.bytes(3), vec![0, 0, 0]);
    assert_eq!(u.weighted(0, 2, 1), 1);
    assert_eq!(u.weighted(0, 0, 1), 2);
    assert_eq!(u.weighted(3, 2, 1), 0);
    assert!(u.is_empty());
}

#[test]
fn a_short_reader_uses_what_is_left() {
    let mut u = Entropy::new(&[0x12]);
    // Four bytes are asked for and one is there.
    assert_eq!(u.draw(0, 0xFFFF_FFFF), 0x12);
    assert!(u.is_empty());
    let mut u = Entropy::new(&[0xAA, 0xBB]);
    assert_eq!(u.bytes(4), vec![0xAA, 0xBB, 0, 0]);
    assert!(u.is_empty());
}

#[test]
fn counts_flags_and_indices() {
    let mut u = Entropy::new(&[0x07, 0x03, 0x02, 0xFF, 0x09]);
    // The ceiling wins over the floor.
    assert_eq!(u.count(9, 4), 4 + 7 % 1);
    assert_eq!(u.remaining(), 5);
    assert_eq!(u.count(2, 4), 2 + 7 % 3);
    assert!(u.flag());
    assert!(!u.flag());
    assert_eq!(u.index(10), 255 % 10);
    assert_eq!(u.index(0), 0);
    assert_eq!(u.index(1), 0);
    assert_eq!(u.remaining(), 1);
}

#[test]
fn weights_select_by_their_share() {
    // The weights 2, 3 and 5: the points 0 and 1, 2 to 4, and 5 to 9.
    let picks: Vec<u8> = (0u8..10)
        .map(|b| {
            let data = [b];
            Entropy::new(&data).weighted(2, 3, 5)
        })
        .collect();
    assert_eq!(picks, vec![0, 0, 1, 1, 1, 2, 2, 2, 2, 2]);
}
