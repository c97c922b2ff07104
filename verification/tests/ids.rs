use rand_core::{RngCore, SeedableRng};
use udsplitter::id_source::IdSource;
use udsplitter::session_id::{session_id, split_wire_id, wire_id, Direction};

#[test]
fn session_ids_are_doubled() {
    assert_eq!(session_id(0), 0);
    assert_eq!(session_id(21), 42);
    assert_eq!(session_id(u64::MAX), u64::MAX - 1);
    assert_eq!(session_id(1 << 63), 0);
}

#[test]
fn the_way_down_sets_the_lowest_bit() {
    assert_eq!(wire_id(42, Direction::Up), 42);
    assert_eq!(wire_id(42, Direction::Down), 43);
    assert_eq!(wire_id(43, Direction::Up), 43);
    assert_eq!(wire_id(43, Direction::Down), 43);
    assert_eq!(wire_id(u64::MAX - 1, Direction::Down), u64::MAX);
}

#[test]
fn wire_ids_are_split() {
    assert_eq!(split_wire_id(0), (0, Direction::Up));
    assert_eq!(split_wire_id(1), (0, Direction::Down));
    assert_eq!(split_wire_id(42), (21, Direction::Up));
    assert_eq!(split_wire_id(43), (21, Direction::Down));
    assert_eq!(split_wire_id(u64::MAX), (u64::MAX / 2, Direction::Down));
}

#[test]
fn wire_ids_survive_the_round_trip() {
    for raw in [0u64, 1, 21, (1 << 63) - 1, 1 << 63, (1 << 63) + 5, u64::MAX] {
        for direction in [Direction::Up, Direction::Down] {
            let (key, read) = split_wire_id(wire_id(session_id(raw), direction));
            assert_eq!(key, raw % (1 << 63));
            assert_eq!(read, direction);
        }
    }
}

#[test]
fn sessions_with_different_numbers_have_different_keys() {
    let (one, _) = split_wire_id(wire_id(session_id(5), Direction::Up));
    let (other, _) = split_wire_id(wire_id(session_id(6), Direction::Down));
    assert_ne!(one, other);
}

#[test]
fn ids_follow_the_seed() {
    let mut seed = [0u8; 32];
    for (i, byte) in seed.iter_mut().enumerate() {
        *byte = i as u8 + 1;
    }
    let mut source = IdSource::from_seed(seed);
    assert_eq!(source.next_id(), 17480056626580543258);

    let mut numbers = rand_pcg::Pcg64::from_seed(seed);
    numbers.next_u64();
    for _ in 0..1000 {
        assert_eq!(source.next_id(), numbers.next_u64() << 1);
    }
}

#[test]
fn another_seed_gives_other_ids() {
    let mut one = IdSource::from_seed([1; 32]);
    let mut other = IdSource::from_seed([2; 32]);
    assert_ne!(one.next_id(), other.next_id());
}

#[test]
fn the_system_seeds_a_source() {
    let mut one = IdSource::from_system().unwrap();
    let mut other = IdSource::from_system().unwrap();
    let first: Vec<u64> = (0..4).map(|_| one.next_id()).collect();
    let second: Vec<u64> = (0..4).map(|_| other.next_id()).collect();
    assert_ne!(first, second);
    assert!(first.iter().all(|id| id % 2 == 0));
}

#[test]
fn the_system_seed_is_the_seed() {
    let mut source = IdSource::from_system_seed(Ok([3; 32])).unwrap();
    let mut same = IdSource::from_seed([3; 32]);
    for _ in 0..10 {
        assert_eq!(source.next_id(), same.next_id());
    }
}

#[test]
fn an_error_of_the_system_is_passed_on() {
    match IdSource::from_system_seed(Err(getrandom::Error::UNSUPPORTED)) {
        Ok(_) => panic!("there was no seed"),
        Err(error) => assert_eq!(error.cause, getrandom::Error::UNSUPPORTED),
    }
}
