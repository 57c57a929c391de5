use math_relay::keycodes::KeycodeTranslator;
use math_relay::navigation::{
    ALT_MASK, CONTROL_MASK, NavError, SHIFT_MASK, navigation_utterance, plan_keypress,
};

#[test]
fn mapped_key_becomes_a_command_with_its_flags() {
    let table = KeycodeTranslator::new();
    let cmd = plan_keypress(&table, 65, SHIFT_MASK | CONTROL_MASK)
        .expect("a mapped key yields a command");
    assert_eq!(cmd.key, 32);
    assert!(cmd.shift);
    assert!(cmd.control);
    assert!(!cmd.alt);
}

#[test]
fn alt_flag_is_read_from_the_bitset() {
    let table = KeycodeTranslator::new();
    let cmd = plan_keypress(&table, 113, ALT_MASK).expect("a mapped key yields a command");
    assert_eq!(cmd.key, 37);
    assert!(!cmd.shift);
    assert!(!cmd.control);
    assert!(cmd.alt);
}

#[test]
fn unrelated_modifier_bits_are_ignored() {
    let table = KeycodeTranslator::new();
    let cmd = plan_keypress(&table, 116, 0xffff_fff2).expect("a mapped key yields a command");
    assert_eq!(cmd.key, 40);
    assert!(!cmd.shift);
    assert!(!cmd.control);
    assert!(!cmd.alt);
}

#[test]
fn unmapped_key_is_ignored_entirely() {
    let table = KeycodeTranslator::new();
    assert!(plan_keypress(&table, 37, SHIFT_MASK).is_none());
    assert!(plan_keypress(&table, 0, 0).is_none());
}

#[test]
fn navigation_utterance_hands_the_text_through() {
    assert_eq!(
        navigation_utterance(Ok("on the numerator".to_string())),
        Some("on the numerator".to_string())
    );
}

#[test]
fn failed_navigation_is_silent() {
    assert_eq!(navigation_utterance(Err(NavError)), None);
}
