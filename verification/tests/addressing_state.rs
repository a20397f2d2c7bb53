use ssd1306_driver::state::{AddressingMode, AddressingState};

#[test]
fn state_starts_unknown_at_origin() {
    let s = AddressingState::new();
    assert_eq!(s.mode, AddressingMode::Unknown);
    assert_eq!(s.page, 0);
    assert_eq!(s.column, 0);
}

#[test]
fn state_transitions_clamp_their_inputs() {
    let mut s = AddressingState::new();
    s.enter_page_mode();
    assert_eq!(s.mode, AddressingMode::Page);
    s.set_page(9);
    assert_eq!(s.page, 7);
    s.set_page(4);
    assert_eq!(s.page, 4);
    s.set_column(0x1F, 0x02);
    assert_eq!(s.column, 0x2F);
    assert_eq!(s.column_low_nibble(), 0x0F);
    assert_eq!(s.column_high_nibble(), 0x02);
}

#[test]
fn set_mode_follows_the_clamped_value() {
    let mut s = AddressingState::new();
    s.set_mode(0);
    assert_eq!(s.mode, AddressingMode::Horizontal);
    s.set_mode(1);
    assert_eq!(s.mode, AddressingMode::Vertical);
    s.set_mode(2);
    assert_eq!(s.mode, AddressingMode::Page);
    s.set_mode(200);
    assert_eq!(s.mode, AddressingMode::Unknown);
}
