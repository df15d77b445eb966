use kallisto::key_map::layer_table;
use kallisto::keyboard::LayeredKeyboard;
use kallisto::split_link::{combine_states, decode_mask, encode_mask, remote_mask};

#[test]
fn payload_is_big_endian() {
    assert_eq!(encode_mask(0x0012_3456), [0x00, 0x12, 0x34, 0x56]);
    assert_eq!(decode_mask([0x01, 0x02, 0x03, 0x04]), 0x0102_0304);
}

#[test]
fn payload_round_trip_of_local_mask() {
    for mask in [0u32, 1, 0x1F_FFFF, 0x10_0001, 0x0A_5A5A] {
        let back = decode_mask(encode_mask(mask));
        assert_eq!(back, mask);
        assert_eq!(back >> 21, 0);
    }
}

#[test]
fn failed_read_clears_remote_half() {
    let remote = remote_mask(None);
    assert_eq!(remote, 0);
    let state = combine_states(0b101, remote);
    assert_eq!(state & 0x1F_FFFF, 0);
    assert_eq!(state, 0b101 << 21);
}

#[test]
fn successful_read_decodes_payload() {
    assert_eq!(remote_mask(Some([0x00, 0x00, 0x01, 0x02])), 0x0102);
}

#[test]
fn combined_word_puts_local_keys_high() {
    assert_eq!(combine_states(0x1F_FFFF, 0x1F_FFFF), 0x3FF_FFFF_FFFF);
    assert_eq!(combine_states(1, 2), (1u64 << 21) | 2);
}

#[test]
fn engine_runs_a_tick_on_failed_read() {
    let mut kb = LayeredKeyboard::<42>::new(layer_table(), 0);
    let state = combine_states(0b1, remote_mask(None));
    kb.get_report(state, 100_000);
    // Key 21, the primary half's first key, is Delete-backspace.
    let mut out = Vec::new();
    while let Some(u) = kb.next_usage() {
        out.push(u);
    }
    assert_eq!(out, vec![0x2A]);
}
