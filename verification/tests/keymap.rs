use nethid::keymap::scancode_to_consumer;

#[test]
fn media_keys_map_to_consumer_codes() {
    assert_eq!(scancode_to_consumer(128), Some(0x00E9));
    assert_eq!(scancode_to_consumer(129), Some(0x00EA));
    assert_eq!(scancode_to_consumer(258), Some(0x00B5));
    assert_eq!(scancode_to_consumer(259), Some(0x00B6));
    assert_eq!(scancode_to_consumer(260), Some(0x00B7));
    assert_eq!(scancode_to_consumer(261), Some(0x00CD));
    assert_eq!(scancode_to_consumer(262), Some(0x00E2));
}

#[test]
fn other_scancodes_map_to_nothing() {
    for raw in [0u32, 1, 4, 20, 127, 130, 228, 255, 256, 257, 263, 1000, u32::MAX] {
        assert_eq!(scancode_to_consumer(raw), None, "scancode {raw}");
    }
}

#[test]
fn exactly_seven_scancodes_are_mapped() {
    let mapped = (0u32..100_000).filter(|raw| scancode_to_consumer(*raw).is_some()).count();
    assert_eq!(mapped, 7);
}
