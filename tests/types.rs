use kallisto::key_map::{base_layer, layer_table, num_layer, symbol_layer};
use kallisto::types::{KeyMapping, KeyPress, LayerAction, ModifierKey};

#[test]
fn usage_codes() {
    assert_eq!(KeyPress::ErrorRollOver.usage(), 0x01);
    assert_eq!(KeyPress::A.usage(), 0x04);
    assert_eq!(KeyPress::ExSel.usage(), 0xA4);
    assert_eq!(KeyPress::RightGUI.usage(), 0xE7);
    assert_eq!(KeyPress::LayerSet1.usage(), 0);
    assert_eq!(KeyPress::LayerHold4.usage(), 0);
    assert_eq!(ModifierKey::LeftControl.usage(), 0xE0);
    assert_eq!(ModifierKey::RightGUI.usage(), 0xE7);
}

#[test]
fn layer_actions() {
    assert_eq!(KeyPress::LayerSet0.layer_action(), Some(LayerAction::Latch(0)));
    assert_eq!(KeyPress::LayerSet4.layer_action(), Some(LayerAction::Latch(4)));
    assert_eq!(KeyPress::LayerHold2.layer_action(), Some(LayerAction::Hold(2)));
    assert_eq!(KeyPress::LayerIncrement.layer_action(), None);
    assert_eq!(KeyPress::Q.layer_action(), None);
}

#[test]
fn mapping_usage_pair() {
    let m = KeyMapping { key: KeyPress::Keyboard2, modifier: Some(ModifierKey::RightShift) };
    assert_eq!(m.usage_pair(), (0x1F, 0xE5));
    let m = KeyMapping { key: KeyPress::Z, modifier: None };
    assert_eq!(m.usage_pair(), (0x1D, 0));
}

#[test]
fn board_layer_table() {
    let base = base_layer();
    assert_eq!(base[1].unwrap().pressed.unwrap().key, KeyPress::Q);
    assert_eq!(base[0].unwrap().pressed.unwrap().key, KeyPress::CapsLock);
    assert!(symbol_layer()[0].is_none());
    assert_eq!(num_layer()[1].unwrap().pressed.unwrap().key, KeyPress::F1);
    let table = layer_table();
    assert!(table[3].iter().all(|m| m.is_none()));
    assert!(table[4].iter().all(|m| m.is_none()));
    assert_eq!(table[0][1], base[1]);
}
