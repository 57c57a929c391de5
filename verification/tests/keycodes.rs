use math_relay::keycodes::KeycodeTranslator;

#[test]
fn translate_space_and_arrow_row() {
    let table = KeycodeTranslator::new();
    assert_eq!(table.translate(65), Some(32)); // Space
    assert_eq!(table.translate(113), Some(37)); // Left
    assert_eq!(table.translate(114), Some(39)); // Right
    assert_eq!(table.translate(111), Some(38)); // Up
    assert_eq!(table.translate(116), Some(40)); // Down
}

#[test]
fn translate_letter_rows() {
    let table = KeycodeTranslator::new();
    assert_eq!(table.translate(52), Some(90)); // Z
    assert_eq!(table.translate(61), Some(191)); // Slash
    assert_eq!(table.translate(38), Some(65)); // A
    assert_eq!(table.translate(36), Some(14)); // Enter
    assert_eq!(table.translate(23), Some(9)); // Tab
    assert_eq!(table.translate(35), Some(169)); // Right paren
}

#[test]
fn translate_number_and_function_rows() {
    let table = KeycodeTranslator::new();
    assert_eq!(table.translate(49), Some(192)); // Backtick
    assert_eq!(table.translate(10), Some(49)); // 1
    assert_eq!(table.translate(22), Some(8)); // Backspace
    assert_eq!(table.translate(9), Some(27)); // Escape
    assert_eq!(table.translate(67), Some(112)); // F1
    assert_eq!(table.translate(96), Some(123)); // F12
    assert_eq!(table.translate(117), Some(34)); // Page down
}

#[test]
fn translate_unmapped_keys_yield_nothing() {
    let table = KeycodeTranslator::new();
    for key in [0u16, 1, 8, 37, 50, 62, 63, 64, 66, 97, 120, 1000, u16::MAX] {
        assert_eq!(table.translate(key), None);
    }
}
