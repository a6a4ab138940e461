use rusty_snake::direction::Direction;
use rusty_snake::protocol::ProtocolError;
use rusty_snake::protocol::decode_seed;
use rusty_snake::protocol::encode_seed;

#[test]
fn direction_bytes_follow_the_wire_mapping() {
    assert_eq!(Direction::Up.as_byte(), 0);
    assert_eq!(Direction::Left.as_byte(), 1);
    assert_eq!(Direction::Down.as_byte(), 2);
    assert_eq!(Direction::Right.as_byte(), 3);
}

#[test]
fn valid_bytes_decode_to_directions() {
    assert_eq!(Direction::try_from(0), Ok(Direction::Up));
    assert_eq!(Direction::try_from(1), Ok(Direction::Left));
    assert_eq!(Direction::try_from(2), Ok(Direction::Down));
    assert_eq!(Direction::try_from(3), Ok(Direction::Right));
}

#[test]
fn byte_four_is_a_decode_failure() {
    assert_eq!(Direction::try_from(4), Err(ProtocolError::InvalidInputToken));
}

#[test]
fn every_invalid_byte_is_rejected() {
    for b in 4..=255u8 {
        assert_eq!(Direction::try_from(b), Err(ProtocolError::InvalidInputToken));
    }
}

#[test]
fn direction_byte_round_trip() {
    for d in [Direction::Up, Direction::Left, Direction::Down, Direction::Right] {
        assert_eq!(Direction::try_from(d.as_byte()), Ok(d));
    }
}

#[test]
fn perpendicular_turns_only() {
    assert!(Direction::Up.perpendicular_to(Direction::Left));
    assert!(Direction::Up.perpendicular_to(Direction::Right));
    assert!(!Direction::Up.perpendicular_to(Direction::Up));
    assert!(!Direction::Up.perpendicular_to(Direction::Down));
    assert!(Direction::Left.perpendicular_to(Direction::Down));
    assert!(!Direction::Left.perpendicular_to(Direction::Right));
}

#[test]
fn seed_encodes_big_endian() {
    assert_eq!(encode_seed(0x0102030405060708), vec![1, 2, 3, 4, 5, 6, 7, 8]);
    assert_eq!(encode_seed(1), vec![0, 0, 0, 0, 0, 0, 0, 1]);
    assert_eq!(encode_seed(u64::MAX), vec![255; 8]);
}

#[test]
fn seed_round_trip() {
    for seed in [0u64, 1, 0x0102030405060708, 0xFFFFFFFFFFFFFFFF, 0x8000000000000000, 424242424242] {
        assert_eq!(decode_seed(&encode_seed(seed)), seed);
    }
}

#[test]
fn seed_decode_matches_reference() {
    assert_eq!(decode_seed(&[0, 0, 0, 0, 0, 0, 1, 0]), 256);
    assert_eq!(decode_seed(&[0x12, 0x34, 0x56, 0x78, 0x9A, 0xBC, 0xDE, 0xF0]), 0x123456789ABCDEF0);
}
