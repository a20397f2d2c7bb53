use ssd1306_driver::display::I2cDisplay;
use ssd1306_driver::render;
use ssd1306_driver::state::AddressingMode;
use ssd1306_driver::transport::{BusError, FailingTransport, VecTransport};

const ADDR: u8 = 0x3C;

fn setup_payloads() -> Vec<Vec<u8>> {
    vec![
        vec![0x00, 0xA8, 0x3F],
        vec![0x00, 0xD3, 0x00],
        vec![0x00, 0x40],
        vec![0x00, 0xA0],
        vec![0x00, 0xC8],
        vec![0x00, 0xDA, 0x12],
        vec![0x00, 0x81, 0x7F],
        vec![0x00, 0xA4],
        vec![0x00, 0xA6],
        vec![0x00, 0xD5, 0x80],
        vec![0x00, 0x8D, 0x14],
        vec![0x00, 0xAF],
    ]
}

#[test]
fn contrast_emits_exact_transaction() {
    let mut d = I2cDisplay::new(ADDR, VecTransport::new());
    d.set_contrast_control(0x7F).unwrap();
    assert_eq!(d.transport.writes.len(), 1);
    assert_eq!(d.transport.writes[0].0, ADDR);
    assert_eq!(d.transport.writes[0].1, vec![0x00, 0x81, 0x7F]);
}

#[test]
fn charge_pump_enable_then_disable() {
    let mut d = I2cDisplay::new(ADDR, VecTransport::new());
    d.charge_pump_enable(true).unwrap();
    d.charge_pump_enable(false).unwrap();
    assert_eq!(d.transport.writes.len(), 2);
    assert_eq!(d.transport.writes[0].1, vec![0x00, 0x8D, 0x14]);
    assert_eq!(d.transport.writes[1].1, vec![0x00, 0x8D, 0x10]);
}

#[test]
fn page_setup_sequence_and_state() {
    let mut d = I2cDisplay::new(ADDR, VecTransport::new());
    d.setup_page_addressing_mode().unwrap();
    let payloads: Vec<Vec<u8>> = d.transport.writes.iter().map(|w| w.1.clone()).collect();
    assert_eq!(
        payloads,
        vec![
            vec![0x00, 0x22],
            vec![0x00, 0xB0],
            vec![0x00, 0x00],
            vec![0x00, 0x10],
        ]
    );
    assert_eq!(d.state.mode, AddressingMode::Page);
    assert_eq!(d.state.page, 0);
    assert_eq!(d.state.column, 0);
}

#[test]
fn setup_emits_twelve_commands_in_order() {
    let mut d = I2cDisplay::new(ADDR, VecTransport::new());
    d.setup().unwrap();
    let payloads: Vec<Vec<u8>> = d.transport.writes.iter().map(|w| w.1.clone()).collect();
    assert_eq!(payloads, setup_payloads());
    for w in &d.transport.writes {
        assert_eq!(w.0, ADDR);
    }
}

#[test]
fn setup_failure_stops_at_failing_command() {
    // If the bus fails on the nth command, the later commands are not sent
    // and the error reaches the caller unchanged.
    for n in 0..12 {
        let mut d = I2cDisplay::new(ADDR, FailingTransport::new(n));
        assert_eq!(d.setup(), Err(BusError));
        let payloads: Vec<Vec<u8>> = d.transport.writes.iter().map(|w| w.1.clone()).collect();
        assert_eq!(payloads, setup_payloads()[..n].to_vec());
    }
    let mut d = I2cDisplay::new(ADDR, FailingTransport::new(12));
    assert_eq!(d.setup(), Ok(()));
}

#[test]
fn failed_command_leaves_state_unchanged() {
    let mut d = I2cDisplay::new(ADDR, FailingTransport::new(0));
    assert_eq!(d.set_page_start_address(3), Err(BusError));
    assert_eq!(d.state.page, 0);
    assert_eq!(d.state.mode, AddressingMode::Unknown);
    assert_eq!(d.transport.writes.len(), 0);
}

#[test]
fn page_setup_failure_keeps_partial_state() {
    // The first two commands (mode, page) succeed, the third fails: the
    // state reflects exactly what was sent.
    let mut d = I2cDisplay::new(ADDR, FailingTransport::new(2));
    assert_eq!(d.setup_page_addressing_mode(), Err(BusError));
    assert_eq!(d.transport.writes.len(), 2);
    assert_eq!(d.state.mode, AddressingMode::Page);
    assert_eq!(d.state.page, 0);
}

#[test]
fn write_byte_round_trip() {
    let mut d = I2cDisplay::new(ADDR, VecTransport::new());
    d.write_byte(0xAB).unwrap();
    assert_eq!(d.transport.writes.len(), 1);
    assert_eq!(d.transport.writes[0].1, vec![0x40, 0xAB]);
}

#[test]
fn write_bytes_round_trip() {
    let mut d = I2cDisplay::new(ADDR, VecTransport::new());
    let payload = [0x12, 0x34, 0x56, 0x78];
    d.write_bytes(&payload).unwrap();
    assert_eq!(d.transport.writes.len(), 1);
    assert_eq!(d.transport.writes[0].1, vec![0x40, 0x12, 0x34, 0x56, 0x78]);
    let mut d2 = I2cDisplay::new(ADDR, VecTransport::new());
    d2.write_bytes(&[]).unwrap();
    assert_eq!(d2.transport.writes[0].1, vec![0x40]);
}

#[test]
fn out_of_range_page_start_saturates_on_the_wire() {
    let mut d = I2cDisplay::new(ADDR, VecTransport::new());
    d.set_page_start_address(9).unwrap();
    assert_eq!(d.transport.writes[0].1, vec![0x00, 0xB7]);
    assert_eq!(d.state.page, 7);
}

#[test]
fn column_nibbles_compose_in_state() {
    let mut d = I2cDisplay::new(ADDR, VecTransport::new());
    d.set_higher_column_start_address(0x03).unwrap();
    d.set_lower_column_start_address(0x05).unwrap();
    assert_eq!(d.state.column, 0x35);
    assert_eq!(d.transport.writes[0].1, vec![0x00, 0x13]);
    assert_eq!(d.transport.writes[1].1, vec![0x00, 0x05]);
    d.set_lower_column_start_address(0x0A).unwrap();
    assert_eq!(d.state.column, 0x3A);
}

#[test]
fn memory_addressing_mode_tracks_value_sent() {
    let mut d = I2cDisplay::new(ADDR, VecTransport::new());
    assert_eq!(d.state.mode, AddressingMode::Unknown);
    d.set_memory_addressing_mode(0).unwrap();
    assert_eq!(d.state.mode, AddressingMode::Horizontal);
    d.set_memory_addressing_mode(1).unwrap();
    assert_eq!(d.state.mode, AddressingMode::Vertical);
    d.set_memory_addressing_mode(2).unwrap();
    assert_eq!(d.state.mode, AddressingMode::Page);
    d.set_memory_addressing_mode(3).unwrap();
    assert_eq!(d.state.mode, AddressingMode::Unknown);
    let payloads: Vec<Vec<u8>> = d.transport.writes.iter().map(|w| w.1.clone()).collect();
    assert_eq!(
        payloads,
        vec![
            vec![0x00, 0x20],
            vec![0x00, 0x21],
            vec![0x00, 0x22],
            vec![0x00, 0x23],
        ]
    );
}

#[test]
fn start_column_positions_cursor() {
    let mut d = I2cDisplay::new(ADDR, VecTransport::new());
    d.start_column_start_address(42).unwrap();
    assert_eq!(d.state.column, 42);
    assert_eq!(d.transport.writes[0].1, vec![0x00, 0x0A]);
    assert_eq!(d.transport.writes[1].1, vec![0x00, 0x12]);
    // An out-of-range column saturates to the last column.
    d.start_column_start_address(200).unwrap();
    assert_eq!(d.state.column, 127);
    assert_eq!(d.transport.writes[2].1, vec![0x00, 0x0F]);
    assert_eq!(d.transport.writes[3].1, vec![0x00, 0x17]);
    // Column zero gives the plain nibble resets.
    d.start_column_start_address(0).unwrap();
    assert_eq!(d.state.column, 0);
    assert_eq!(d.transport.writes[4].1, vec![0x00, 0x00]);
    assert_eq!(d.transport.writes[5].1, vec![0x00, 0x10]);
}

#[test]
fn window_commands_emit_exact_bytes() {
    let mut d = I2cDisplay::new(ADDR, VecTransport::new());
    d.set_column_address(0, 127).unwrap();
    d.set_page_address(0, 7).unwrap();
    assert_eq!(d.transport.writes[0].1, vec![0x00, 0x21, 0, 127]);
    assert_eq!(d.transport.writes[1].1, vec![0x00, 0x22, 0, 7]);
}

#[test]
fn advance_page_moves_cursor_and_wraps() {
    let mut d = I2cDisplay::new(ADDR, VecTransport::new());
    d.setup_page_addressing_mode().unwrap();
    render::advance_page(&mut d).unwrap();
    assert_eq!(d.state.page, 1);
    assert_eq!(d.state.column, 0);
    let payloads: Vec<Vec<u8>> = d.transport.writes[4..].iter().map(|w| w.1.clone()).collect();
    assert_eq!(
        payloads,
        vec![vec![0x00, 0xB1], vec![0x00, 0x00], vec![0x00, 0x10]]
    );
    d.set_page_start_address(7).unwrap();
    render::advance_page(&mut d).unwrap();
    assert_eq!(d.state.page, 0);
}

#[test]
fn render_step_writes_chunk_and_advances() {
    let mut d = I2cDisplay::new(ADDR, VecTransport::new());
    d.setup_page_addressing_mode().unwrap();
    let before = d.transport.writes.len();
    render::render_step(&mut d, &[0x0F, 0xF0], false).unwrap();
    assert_eq!(d.transport.writes.len(), before + 1);
    assert_eq!(d.transport.writes[before].1, vec![0x40, 0x0F, 0xF0]);
    assert_eq!(d.state.page, 0);
    render::render_step(&mut d, &[0xAA], true).unwrap();
    assert_eq!(d.transport.writes.len(), before + 5);
    assert_eq!(d.transport.writes[before + 1].1, vec![0x40, 0xAA]);
    assert_eq!(d.transport.writes[before + 2].1, vec![0x00, 0xB1]);
    assert_eq!(d.transport.writes[before + 3].1, vec![0x00, 0x00]);
    assert_eq!(d.transport.writes[before + 4].1, vec![0x00, 0x10]);
    assert_eq!(d.state.page, 1);
    assert_eq!(d.state.column, 0);
}

#[test]
fn render_sweep_covers_all_eight_pages() {
    // A whole-frame sweep in the style of the render loop: five chunks per
    // page, then advance; after eight pages the cursor is back at page 0.
    let mut d = I2cDisplay::new(ADDR, VecTransport::new());
    d.setup_page_addressing_mode().unwrap();
    let chunk = [0u8; 31];
    for _ in 0..8 {
        for _ in 0..4 {
            render::render_step(&mut d, &chunk, false).unwrap();
        }
        render::render_step(&mut d, &chunk, true).unwrap();
    }
    assert_eq!(d.state.page, 0);
    assert_eq!(d.state.column, 0);
    // 4 setup commands, then per page: 5 data writes and 3 cursor commands.
    assert_eq!(d.transport.writes.len(), 4 + 8 * 8);
}

#[test]
fn advance_page_failure_keeps_partial_state() {
    // The page command succeeds, the first column nibble fails: the state
    // reflects exactly what was sent.
    let mut d = I2cDisplay::new(ADDR, FailingTransport::new(1));
    assert_eq!(render::advance_page(&mut d), Err(BusError));
    assert_eq!(d.state.page, 1);
    assert_eq!(d.state.column, 0);
    assert_eq!(d.transport.writes.len(), 1);
    assert_eq!(d.transport.writes[0].1, vec![0x00, 0xB1]);
}

#[test]
fn bus_error_propagates_unchanged() {
    let mut d = I2cDisplay::new(ADDR, FailingTransport::new(0));
    assert_eq!(d.set_contrast_control(0x10), Err(BusError));
    assert_eq!(d.write_byte(0x00), Err(BusError));
    assert_eq!(d.write_bytes(&[1, 2]), Err(BusError));
    assert_eq!(d.entire_display_on(true), Err(BusError));
}

#[test]
fn failing_transport_records_only_successes() {
    let mut d = I2cDisplay::new(ADDR, FailingTransport::new(1));
    d.set_display_on_off(true).unwrap();
    assert_eq!(d.set_display_on_off(false), Err(BusError));
    assert_eq!(d.transport.writes.len(), 1);
    assert_eq!(d.transport.writes[0].1, vec![0x00, 0xAF]);
}
