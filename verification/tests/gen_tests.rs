use flakeid::gen::{FlakeErr, FlakeGen};
use flakeid::id::Flake;

#[test]
fn two_ids_are_not_same() {
    // A host without a resolvable MAC address cannot run this scenario;
    // test_new_generator_generates covers the same behaviour with an
    // explicit node identifier.
    let mut gen = match FlakeGen::with_mac_addr() {
        Ok(gen) => gen,
        Err(_) => return,
    };
    let id1: Flake = gen.next().unwrap();
    let id2: Flake = gen.next().unwrap();
    assert_ne!(id1, id2);
}

#[test]
fn test_first_id_less_than_second() {
    let mut gen = match FlakeGen::with_mac_addr() {
        Ok(gen) => gen,
        Err(_) => return,
    };
    let id1: Flake = gen.next().unwrap();
    let id2: Flake = gen.next().unwrap();
    assert!(id1 < id2);
    assert!(id2 > id1);
}

#[test]
fn test_new_generator_generates() {
    let mut gen = FlakeGen::new(0xC0FEE);
    let id = gen.try_next().expect("generation failed");
    let id2 = gen.try_next().expect("generation failed");
    assert!(id.value() < id2.value());
}

#[test]
fn test_build_layout() {
    let value = FlakeGen::build(1656452611131, 0x0000_0000_cafe, 7);
    assert_eq!(value, (1656452611131u128 << 64) | (0xcafeu128 << 16) | 7);
    let id = Flake::new(value);
    assert_eq!(id.timestamp(), 1656452611131);
}

#[test]
fn test_build_differs_by_timestamp() {
    let node: u64 = 0x1234_5678_9abc;
    assert_ne!(FlakeGen::build(1, node, 5), FlakeGen::build(2, node, 5));
}

#[test]
fn test_build_differs_by_node() {
    assert_ne!(
        FlakeGen::build(77, 0x1234_5678_9abc, 5),
        FlakeGen::build(77, 0x1234_5678_9abd, 5)
    );
}

#[test]
fn test_build_differs_by_sequence() {
    let node: u64 = 0x1234_5678_9abc;
    assert_ne!(FlakeGen::build(77, node, 5), FlakeGen::build(77, node, 6));
}

#[test]
fn test_node_from_mac_folds_bytes() {
    let node = flakeid::gen::node_from_mac(&[0x01, 0x02, 0x03, 0x04, 0x05, 0x06]);
    assert_eq!(node, 0x0102_0304_0506);
    assert!(node < 1u64 << 48);
}

#[test]
fn test_generation_errors_are_distinct() {
    assert_ne!(FlakeErr::TimeDrift, FlakeErr::Exhausted);
}
