use kallisto::keyboard::LayeredKeyboard;
use kallisto::model::N_LAYERS;
use kallisto::types::{KeyMapping, KeyPress, KeyState, LayerKeyMap, ModifierKey};

fn tap(key: KeyPress) -> Option<LayerKeyMap> {
    Some(LayerKeyMap {
        pressed: Some(KeyMapping { key, modifier: None }),
        held_press: None,
    })
}

fn tap_hold(key: KeyPress, hold: ModifierKey) -> Option<LayerKeyMap> {
    Some(LayerKeyMap {
        pressed: Some(KeyMapping { key, modifier: None }),
        held_press: Some(KeyMapping { key: KeyPress::LeftShift, modifier: Some(hold) }),
    })
}

// Key 0: A. Key 1: Space on tap, left shift (plus the modifier) on hold.
// Key 2: holds layer 1. Key 3: B on the base layer, C on layer 1.
fn table() -> [[Option<LayerKeyMap>; 4]; N_LAYERS] {
    let mut layers = [[None; 4]; N_LAYERS];
    layers[0][0] = tap(KeyPress::A);
    layers[0][1] = Some(LayerKeyMap {
        pressed: Some(KeyMapping { key: KeyPress::Space, modifier: None }),
        held_press: Some(KeyMapping { key: KeyPress::LeftShift, modifier: None }),
    });
    layers[0][2] = tap(KeyPress::LayerHold1);
    layers[0][3] = tap(KeyPress::B);
    layers[1][3] = tap(KeyPress::C);
    layers
}

fn drain<const N: usize>(kb: &mut LayeredKeyboard<N>) -> Vec<u8> {
    let mut out = Vec::new();
    while let Some(u) = kb.next_usage() {
        out.push(u);
    }
    out
}

#[test]
fn tap_only_key_reports_while_held() {
    let mut kb = LayeredKeyboard::<4>::new(table(), 0);
    kb.get_report(0b0001, 100_000);
    assert_eq!(drain(&mut kb), vec![0x04]);
    assert_eq!(kb.key_state(0), KeyState::Pressed);
    kb.get_report(0b0001, 101_000);
    assert_eq!(drain(&mut kb), vec![0x04]);
    kb.get_report(0b0000, 102_000);
    assert_eq!(drain(&mut kb), Vec::<u8>::new());
    assert_eq!(kb.key_state(0), KeyState::Idle);
}

#[test]
fn press_within_debounce_is_ignored() {
    let mut kb = LayeredKeyboard::<4>::new(table(), 0);
    kb.get_report(0b0001, 10_000);
    assert_eq!(drain(&mut kb), Vec::<u8>::new());
    assert_eq!(kb.key_state(0), KeyState::Idle);
}

#[test]
fn press_across_counter_rollover_is_accepted() {
    let mut kb = LayeredKeyboard::<4>::new(table(), u32::MAX - 1_000);
    kb.get_report(0b0001, 30_000);
    assert_eq!(drain(&mut kb), vec![0x04]);
}

#[test]
fn tap_hold_key_fires_tap_once_on_release() {
    let mut kb = LayeredKeyboard::<4>::new(table(), 0);
    kb.get_report(0b0010, 100_000);
    assert_eq!(drain(&mut kb), Vec::<u8>::new());
    kb.get_report(0b0010, 150_000);
    assert_eq!(drain(&mut kb), Vec::<u8>::new());
    assert_eq!(kb.key_state(1), KeyState::Pressed);
    kb.get_report(0b0000, 200_000);
    assert_eq!(drain(&mut kb), vec![0x2C]);
    kb.get_report(0b0000, 201_000);
    assert_eq!(drain(&mut kb), Vec::<u8>::new());
}

#[test]
fn hold_past_threshold_fires_hold_and_no_tap() {
    let mut kb = LayeredKeyboard::<4>::new(table(), 0);
    kb.get_report(0b0010, 100_000);
    assert_eq!(drain(&mut kb), Vec::<u8>::new());
    kb.get_report(0b0010, 700_000);
    assert_eq!(drain(&mut kb), Vec::<u8>::new());
    assert_eq!(kb.key_state(1), KeyState::HeldPressed);
    kb.get_report(0b0010, 701_000);
    assert_eq!(drain(&mut kb), vec![0xE1]);
    kb.get_report(0b0000, 800_000);
    assert_eq!(drain(&mut kb), Vec::<u8>::new());
    assert_eq!(kb.key_state(1), KeyState::Idle);
}

#[test]
fn second_key_preempts_open_hold() {
    let mut kb = LayeredKeyboard::<4>::new(table(), 0);
    kb.get_report(0b0010, 100_000);
    assert_eq!(drain(&mut kb), Vec::<u8>::new());
    kb.get_report(0b0011, 200_000);
    assert_eq!(drain(&mut kb), vec![0xE1, 0xE1]);
    assert_eq!(kb.key_state(1), KeyState::HeldPressed);
    kb.get_report(0b0011, 201_000);
    assert_eq!(drain(&mut kb), vec![0x04, 0xE1]);
}

#[test]
fn held_layer_rolls_back_on_release() {
    let mut kb = LayeredKeyboard::<4>::new(table(), 0);
    kb.get_report(0b0100, 100_000);
    assert_eq!(drain(&mut kb), Vec::<u8>::new());
    assert_eq!(kb.layer(), 1);
    assert_eq!(kb.last_layer(), 0);
    kb.get_report(0b1100, 150_000);
    assert_eq!(drain(&mut kb), vec![0x06]);
    kb.get_report(0b0100, 200_000);
    assert_eq!(drain(&mut kb), Vec::<u8>::new());
    assert_eq!(kb.layer(), 1);
    kb.get_report(0b0000, 250_000);
    assert_eq!(drain(&mut kb), Vec::<u8>::new());
    assert_eq!(kb.layer(), 0);
    for id in 0..4 {
        assert_eq!(kb.key_state(id), KeyState::Idle);
    }
    kb.get_report(0b1000, 300_000);
    assert_eq!(drain(&mut kb), vec![0x05]);
}

#[test]
fn set_layer_latches() {
    let mut layers = table();
    layers[0][0] = tap(KeyPress::LayerSet2);
    layers[2][3] = tap(KeyPress::Keyboard7);
    let mut kb = LayeredKeyboard::<4>::new(layers, 0);
    kb.get_report(0b0001, 100_000);
    assert_eq!(drain(&mut kb), Vec::<u8>::new());
    assert_eq!(kb.layer(), 2);
    assert_eq!(kb.last_layer(), 2);
    kb.get_report(0b0000, 150_000);
    assert_eq!(kb.layer(), 2);
    kb.get_report(0b1000, 200_000);
    assert_eq!(drain(&mut kb), vec![0x24]);
}

#[test]
fn missing_mapping_falls_back_to_base_layer() {
    let mut kb = LayeredKeyboard::<4>::new(table(), 0);
    kb.get_report(0b0100, 100_000);
    assert_eq!(kb.layer(), 1);
    kb.get_report(0b0101, 150_000);
    assert_eq!(drain(&mut kb), vec![0x04]);
}

#[test]
fn modifier_follows_key() {
    let mut layers = table();
    layers[0][0] = Some(LayerKeyMap {
        pressed: Some(KeyMapping { key: KeyPress::Keyboard1, modifier: Some(ModifierKey::RightShift) }),
        held_press: None,
    });
    let mut kb = LayeredKeyboard::<4>::new(layers, 0);
    kb.get_report(0b0001, 100_000);
    assert_eq!(drain(&mut kb), vec![0x1E, 0xE5]);
}

#[test]
fn full_report_drops_the_rest() {
    let mut layers = [[None; 16]; N_LAYERS];
    for id in 0..16 {
        layers[0][id] = Some(LayerKeyMap {
            pressed: Some(KeyMapping { key: KeyPress::A, modifier: Some(ModifierKey::LeftControl) }),
            held_press: None,
        });
    }
    let mut kb = LayeredKeyboard::<16>::new(layers, 0);
    kb.get_report(0xFFFF, 100_000);
    let out = drain(&mut kb);
    assert_eq!(out.len(), 31);
    assert_eq!(&out[0..2], &[0x04, 0xE0]);
}

#[test]
fn tap_hold_with_modifier_hold() {
    let mut layers = table();
    layers[0][1] = tap_hold(KeyPress::Escape, ModifierKey::LeftAlt);
    let mut kb = LayeredKeyboard::<4>::new(layers, 0);
    kb.get_report(0b0010, 100_000);
    kb.get_report(0b0010, 700_000);
    kb.get_report(0b0010, 701_000);
    assert_eq!(drain(&mut kb), vec![0xE1, 0xE2]);
}
