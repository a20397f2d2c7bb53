use ssd1306_driver::commands;

#[test]
fn contrast_exact_bytes() {
    assert_eq!(commands::contrast_control(0x7F), vec![0x00, 0x81, 0x7F]);
    assert_eq!(commands::contrast_control(0x00), vec![0x00, 0x81, 0x00]);
    assert_eq!(commands::contrast_control(0xFF), vec![0x00, 0x81, 0xFF]);
}

#[test]
fn boolean_command_bytes() {
    assert_eq!(commands::entire_display_on(true), vec![0x00, 0xA5]);
    assert_eq!(commands::entire_display_on(false), vec![0x00, 0xA4]);
    assert_eq!(commands::normal_inverse_display(true), vec![0x00, 0xA7]);
    assert_eq!(commands::normal_inverse_display(false), vec![0x00, 0xA6]);
    assert_eq!(commands::display_on_off(true), vec![0x00, 0xAF]);
    assert_eq!(commands::display_on_off(false), vec![0x00, 0xAE]);
    assert_eq!(commands::segment_remap(true), vec![0x00, 0xA1]);
    assert_eq!(commands::segment_remap(false), vec![0x00, 0xA0]);
    assert_eq!(commands::com_output_scan_direction(true), vec![0x00, 0xC0]);
    assert_eq!(commands::com_output_scan_direction(false), vec![0x00, 0xC8]);
    assert_eq!(commands::charge_pump_enable(true), vec![0x00, 0x8D, 0x14]);
    assert_eq!(commands::charge_pump_enable(false), vec![0x00, 0x8D, 0x10]);
}

#[test]
fn in_range_addressing_bytes() {
    assert_eq!(commands::lower_column_start_address(0x05), vec![0x00, 0x05]);
    assert_eq!(commands::higher_column_start_address(0x05), vec![0x00, 0x15]);
    assert_eq!(commands::memory_addressing_mode(0x02), vec![0x00, 0x22]);
    assert_eq!(commands::column_address(3, 120), vec![0x00, 0x21, 3, 120]);
    assert_eq!(commands::page_address(1, 6), vec![0x00, 0x22, 1, 6]);
    assert_eq!(commands::page_start_address(5), vec![0x00, 0xB5]);
    assert_eq!(commands::display_start_line(17), vec![0x00, 0x51]);
    assert_eq!(commands::multiplex_ratio(0x3F), vec![0x00, 0xA8, 0x3F]);
    assert_eq!(commands::display_offset(9), vec![0x00, 0xD3, 9]);
    assert_eq!(commands::com_pins_hardware_configuration(), vec![0x00, 0xDA, 0x12]);
    assert_eq!(commands::display_clock_divide_frequency(8, 0), vec![0x00, 0xD5, 0x80]);
}

#[test]
fn out_of_range_inputs_saturate() {
    // Saturation: an out-of-range input emits the bytes of the nearest
    // in-range boundary value.
    assert_eq!(
        commands::page_start_address(9),
        commands::page_start_address(7)
    );
    assert_eq!(commands::page_start_address(9), vec![0x00, 0xB7]);
    assert_eq!(
        commands::lower_column_start_address(0xFF),
        commands::lower_column_start_address(0x0F)
    );
    assert_eq!(commands::lower_column_start_address(0xFF), vec![0x00, 0x0F]);
    assert_eq!(
        commands::higher_column_start_address(0xFF),
        commands::higher_column_start_address(0x0F)
    );
    assert_eq!(commands::higher_column_start_address(0xFF), vec![0x00, 0x1F]);
    assert_eq!(
        commands::memory_addressing_mode(9),
        commands::memory_addressing_mode(3)
    );
    assert_eq!(commands::memory_addressing_mode(9), vec![0x00, 0x23]);
    assert_eq!(commands::display_start_line(64), commands::display_start_line(63));
    assert_eq!(commands::display_start_line(64), vec![0x00, 0x7F]);
    assert_eq!(commands::multiplex_ratio(0), commands::multiplex_ratio(15));
    assert_eq!(commands::multiplex_ratio(0), vec![0x00, 0xA8, 0x0F]);
    assert_eq!(commands::multiplex_ratio(255), commands::multiplex_ratio(63));
    assert_eq!(commands::multiplex_ratio(255), vec![0x00, 0xA8, 0x3F]);
    assert_eq!(commands::display_offset(200), commands::display_offset(63));
    assert_eq!(commands::display_offset(200), vec![0x00, 0xD3, 0x3F]);
    assert_eq!(commands::column_address(200, 5), commands::column_address(127, 5));
    assert_eq!(commands::column_address(200, 5), vec![0x00, 0x21, 127, 5]);
    assert_eq!(commands::page_address(5, 200), commands::page_address(5, 127));
    assert_eq!(commands::page_address(5, 200), vec![0x00, 0x22, 5, 127]);
    assert_eq!(
        commands::display_clock_divide_frequency(255, 255),
        commands::display_clock_divide_frequency(15, 15)
    );
    assert_eq!(commands::display_clock_divide_frequency(255, 255), vec![0x00, 0xD5, 0xFF]);
}

#[test]
fn encoding_is_idempotent() {
    // A pure encoder called twice with the same input yields byte-identical
    // output both times.
    assert_eq!(commands::contrast_control(0x7F), commands::contrast_control(0x7F));
    assert_eq!(commands::entire_display_on(true), commands::entire_display_on(true));
    assert_eq!(commands::memory_addressing_mode(2), commands::memory_addressing_mode(2));
    assert_eq!(commands::page_start_address(9), commands::page_start_address(9));
    assert_eq!(
        commands::display_clock_divide_frequency(8, 0),
        commands::display_clock_divide_frequency(8, 0)
    );
    assert_eq!(commands::data_frame(&[1, 2, 3]), commands::data_frame(&[1, 2, 3]));
}

#[test]
fn data_frame_prefixes_control_byte() {
    assert_eq!(commands::data_frame(&[]), vec![0x40]);
    assert_eq!(commands::data_frame(&[0xAB]), vec![0x40, 0xAB]);
    assert_eq!(
        commands::data_frame(&[0x01, 0x02, 0x03]),
        vec![0x40, 0x01, 0x02, 0x03]
    );
}

#[test]
fn clamp_boundaries() {
    assert_eq!(commands::clamp(5, 0, 15), 5);
    assert_eq!(commands::clamp(0, 0, 15), 0);
    assert_eq!(commands::clamp(15, 0, 15), 15);
    assert_eq!(commands::clamp(16, 0, 15), 15);
    assert_eq!(commands::clamp(3, 15, 63), 15);
    assert_eq!(commands::clamp(255, 15, 63), 63);
}
