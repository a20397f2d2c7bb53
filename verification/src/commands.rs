//! Pure command encoding: each logical controller operation is mapped to the
//! exact byte sequence that goes over the bus.
//!
//! Every transaction starts with a control byte that selects command framing
//! (`COMMAND`) or pixel-data framing (`DATA`). Out-of-range numeric parameters
//! are saturated to the nearest boundary of the documented valid range, never
//! rejected: the bus offers no way to reject a malformed command, so clamping
//! is the only feasible safety net.

use vstd::prelude::*;

verus! {

/// Control byte selecting command framing: the payload configures the controller.
pub const COMMAND: u8 = 0x00;
/// Control byte selecting data framing: the payload is pixel bytes written at the cursor.
pub const DATA: u8 = 0x40;
/// Memory addressing mode value: advance column, then wrap to the next page.
pub const HORIZONTAL_ADDRESSING_MODE: u8 = 0x00;
/// Memory addressing mode value: advance page, then wrap to the next column.
pub const VERTICAL_ADDRESSING_MODE: u8 = 0x01;
/// Memory addressing mode value: advance column within the current page only.
pub const PAGE_ADDRESSING_MODE: u8 = 0x02;

/// Saturate `v` into the inclusive range `[lo, hi]`.
pub open spec fn spec_clamp(v: u8, lo: u8, hi: u8) -> u8 {
    if v < lo {
        lo
    } else if v > hi {
        hi
    } else {
        v
    }
}

/// Saturate `v` into the inclusive range `[lo, hi]`.
pub fn clamp(v: u8, lo: u8, hi: u8) -> (r: u8)
    requires
        lo <= hi,
    ensures
        r == spec_clamp(v, lo, hi),
{
    if v < lo {
        lo
    } else if v > hi {
        hi
    } else {
        v
    }
}

/// Wire bytes of the set-contrast command; all 256 contrast steps are valid.
pub open spec fn spec_contrast_control(contrast: u8) -> Seq<u8> {
    seq![COMMAND, 0x81u8, contrast]
}

/// Wire bytes of the entire-display-on override command.
pub open spec fn spec_entire_display_on(on: bool) -> Seq<u8> {
    seq![COMMAND, if on { 0xA5u8 } else { 0xA4u8 }]
}

/// Wire bytes of the normal/inverse display command.
pub open spec fn spec_normal_inverse_display(inverse: bool) -> Seq<u8> {
    seq![COMMAND, if inverse { 0xA7u8 } else { 0xA6u8 }]
}

/// Wire bytes of the display power command.
pub open spec fn spec_display_on_off(on: bool) -> Seq<u8> {
    seq![COMMAND, if on { 0xAFu8 } else { 0xAEu8 }]
}

/// Wire bytes of the lower-column-start-address command (page mode); the
/// nibble is saturated to `[0, 15]`.
pub open spec fn spec_lower_column_start_address(address: u8) -> Seq<u8> {
    seq![COMMAND, spec_clamp(address, 0x00, 0x0F)]
}

/// Wire bytes of the higher-column-start-address command (page mode); the
/// nibble is saturated to `[0, 15]`.
pub open spec fn spec_higher_column_start_address(address: u8) -> Seq<u8> {
    seq![COMMAND, 0x10u8 | spec_clamp(address, 0x00, 0x0F)]
}

/// Wire bytes of the memory-addressing-mode command; the mode value is
/// saturated to `[0, 3]`.
pub open spec fn spec_memory_addressing_mode(mode: u8) -> Seq<u8> {
    seq![COMMAND, 0x20u8 | spec_clamp(mode, 0, 3)]
}

/// Wire bytes of the column-address-range command (horizontal/vertical modes);
/// both bounds are saturated to `[0, 127]`.
pub open spec fn spec_column_address(start_addr: u8, end_addr: u8) -> Seq<u8> {
    seq![COMMAND, 0x21u8, spec_clamp(start_addr, 0, 127), spec_clamp(end_addr, 0, 127)]
}

/// Wire bytes of the page-address-range command (horizontal/vertical modes);
/// both bounds are saturated to `[0, 127]`.
pub open spec fn spec_page_address(start_addr: u8, end_addr: u8) -> Seq<u8> {
    seq![COMMAND, 0x22u8, spec_clamp(start_addr, 0, 127), spec_clamp(end_addr, 0, 127)]
}

/// Wire bytes of the page-start-address command (page mode); the page is
/// saturated to `[0, 7]`.
pub open spec fn spec_page_start_address(page: u8) -> Seq<u8> {
    seq![COMMAND, 0xB0u8 | spec_clamp(page, 0, 7)]
}

/// Wire bytes of the display-start-line command; the line is saturated to
/// `[0, 63]`.
pub open spec fn spec_display_start_line(start: u8) -> Seq<u8> {
    seq![COMMAND, 0x40u8 | spec_clamp(start, 0, 63)]
}

/// Wire bytes of the segment-remap command.
pub open spec fn spec_segment_remap(remap: bool) -> Seq<u8> {
    seq![COMMAND, if remap { 0xA1u8 } else { 0xA0u8 }]
}

/// Wire bytes of the multiplex-ratio command; the ratio is saturated to
/// `[15, 63]`.
pub open spec fn spec_multiplex_ratio(ratio: u8) -> Seq<u8> {
    seq![COMMAND, 0xA8u8, spec_clamp(ratio, 15, 63)]
}

/// Wire bytes of the COM-output-scan-direction command.
pub open spec fn spec_com_output_scan_direction(dir: bool) -> Seq<u8> {
    seq![COMMAND, if dir { 0xC0u8 } else { 0xC8u8 }]
}

/// Wire bytes of the display-offset command; the offset is saturated to
/// `[0, 63]`.
pub open spec fn spec_display_offset(offset: u8) -> Seq<u8> {
    seq![COMMAND, 0xD3u8, spec_clamp(offset, 0, 63)]
}

/// Wire bytes of the COM-pins-hardware-configuration command (fixed layout
/// for a 128x64 panel).
pub open spec fn spec_com_pins_hardware_configuration() -> Seq<u8> {
    seq![COMMAND, 0xDAu8, 0x12u8]
}

/// Wire bytes of the clock-divide/oscillator-frequency command; the divide
/// ratio fills the low nibble and the oscillator frequency the high nibble,
/// each saturated to `[0, 15]`.
pub open spec fn spec_display_clock_divide_frequency(fosc: u8, divide: u8) -> Seq<u8> {
    seq![COMMAND, 0xD5u8, spec_clamp(divide, 0, 15) | (spec_clamp(fosc, 0, 15) << 4)]
}

/// Wire bytes of the charge-pump-enable command.
pub open spec fn spec_charge_pump_enable(on: bool) -> Seq<u8> {
    seq![COMMAND, 0x8Du8, if on { 0x14u8 } else { 0x10u8 }]
}

/// Wire bytes of a pixel-data transaction: the data control byte followed by
/// the payload, unmodified.
pub open spec fn spec_data_frame(payload: Seq<u8>) -> Seq<u8> {
    seq![DATA] + payload
}

/// Encode the set-contrast command.
pub fn contrast_control(contrast: u8) -> (r: Vec<u8>)
    ensures
        r@ == spec_contrast_control(contrast),
{
    let r = vec![COMMAND, 0x81, contrast];
    proof {
        assert(r@ =~= spec_contrast_control(contrast));
    }
    r
}

/// Encode the entire-display-on override command.
pub fn entire_display_on(on: bool) -> (r: Vec<u8>)
    ensures
        r@ == spec_entire_display_on(on),
{
    let r = if on {
        vec![COMMAND, 0xA5]
    } else {
        vec![COMMAND, 0xA4]
    };
    proof {
        assert(r@ =~= spec_entire_display_on(on));
    }
    r
}

/// Encode the normal/inverse display command.
pub fn normal_inverse_display(inverse: bool) -> (r: Vec<u8>)
    ensures
        r@ == spec_normal_inverse_display(inverse),
{
    let r = if inverse {
        vec![COMMAND, 0xA7]
    } else {
        vec![COMMAND, 0xA6]
    };
    proof {
        assert(r@ =~= spec_normal_inverse_display(inverse));
    }
    r
}

/// Encode the display power command.
pub fn display_on_off(on: bool) -> (r: Vec<u8>)
    ensures
        r@ == spec_display_on_off(on),
{
    let r = if on {
        vec![COMMAND, 0xAF]
    } else {
        vec![COMMAND, 0xAE]
    };
    proof {
        assert(r@ =~= spec_display_on_off(on));
    }
    r
}

/// Encode the lower-column-start-address command.
pub fn lower_column_start_address(address: u8) -> (r: Vec<u8>)
    ensures
        r@ == spec_lower_column_start_address(address),
{
    let a = clamp(address, 0x00, 0x0F);
    let r = vec![COMMAND, a];
    proof {
        assert(r@ =~= spec_lower_column_start_address(address));
    }
    r
}

/// Encode the higher-column-start-address command.
pub fn higher_column_start_address(address: u8) -> (r: Vec<u8>)
    ensures
        r@ == spec_higher_column_start_address(address),
{
    let a = clamp(address, 0x00, 0x0F);
    let r = vec![COMMAND, 0x10 | a];
    proof {
        assert(r@ =~= spec_higher_column_start_address(address));
    }
    r
}

/// Encode the memory-addressing-mode command.
pub fn memory_addressing_mode(mode: u8) -> (r: Vec<u8>)
    ensures
        r@ == spec_memory_addressing_mode(mode),
{
    let m = clamp(mode, 0, 3);
    let r = vec![COMMAND, 0x20 | m];
    proof {
        assert(r@ =~= spec_memory_addressing_mode(mode));
    }
    r
}

/// Encode the column-address-range command.
pub fn column_address(start_addr: u8, end_addr: u8) -> (r: Vec<u8>)
    ensures
        r@ == spec_column_address(start_addr, end_addr),
{
    let s = clamp(start_addr, 0, 127);
    let e = clamp(end_addr, 0, 127);
    let r = vec![COMMAND, 0x21, s, e];
    proof {
        assert(r@ =~= spec_column_address(start_addr, end_addr));
    }
    r
}

/// Encode the page-address-range command.
pub fn page_address(start_addr: u8, end_addr: u8) -> (r: Vec<u8>)
    ensures
        r@ == spec_page_address(start_addr, end_addr),
{
    let s = clamp(start_addr, 0, 127);
    let e = clamp(end_addr, 0, 127);
    let r = vec![COMMAND, 0x22, s, e];
    proof {
        assert(r@ =~= spec_page_address(start_addr, end_addr));
    }
    r
}

/// Encode the page-start-address command.
pub fn page_start_address(page: u8) -> (r: Vec<u8>)
    ensures
        r@ == spec_page_start_address(page),
{
    let p = clamp(page, 0, 7);
    let r = vec![COMMAND, 0xB0 | p];
    proof {
        assert(r@ =~= spec_page_start_address(page));
    }
    r
}

/// Encode the display-start-line command.
pub fn display_start_line(start: u8) -> (r: Vec<u8>)
    ensures
        r@ == spec_display_start_line(start),
{
    let s = clamp(start, 0, 63);
    let r = vec![COMMAND, 0x40 | s];
    proof {
        assert(r@ =~= spec_display_start_line(start));
    }
    r
}

/// Encode the segment-remap command.
pub fn segment_remap(remap: bool) -> (r: Vec<u8>)
    ensures
        r@ == spec_segment_remap(remap),
{
    let r = if remap {
        vec![COMMAND, 0xA1]
    } else {
        vec![COMMAND, 0xA0]
    };
    proof {
        assert(r@ =~= spec_segment_remap(remap));
    }
    r
}

/// Encode the multiplex-ratio command.
pub fn multiplex_ratio(ratio: u8) -> (r: Vec<u8>)
    ensures
        r@ == spec_multiplex_ratio(ratio),
{
    let v = clamp(ratio, 15, 63);
    let r = vec![COMMAND, 0xA8, v];
    proof {
        assert(r@ =~= spec_multiplex_ratio(ratio));
    }
    r
}

/// Encode the COM-output-scan-direction command.
pub fn com_output_scan_direction(dir: bool) -> (r: Vec<u8>)
    ensures
        r@ == spec_com_output_scan_direction(dir),
{
    let r = if dir {
        vec![COMMAND, 0xC0]
    } else {
        vec![COMMAND, 0xC8]
    };
    proof {
        assert(r@ =~= spec_com_output_scan_direction(dir));
    }
    r
}

/// Encode the display-offset command.
pub fn display_offset(offset: u8) -> (r: Vec<u8>)
    ensures
        r@ == spec_display_offset(offset),
{
    let o = clamp(offset, 0, 63);
    let r = vec![COMMAND, 0xD3, o];
    proof {
        assert(r@ =~= spec_display_offset(offset));
    }
    r
}

/// Encode the COM-pins-hardware-configuration command.
pub fn com_pins_hardware_configuration() -> (r: Vec<u8>)
    ensures
        r@ == spec_com_pins_hardware_configuration(),
{
    let r = vec![COMMAND, 0xDA, 0x12];
    proof {
        assert(r@ =~= spec_com_pins_hardware_configuration());
    }
    r
}

/// Encode the clock-divide/oscillator-frequency command.
pub fn display_clock_divide_frequency(fosc: u8, divide: u8) -> (r: Vec<u8>)
    ensures
        r@ == spec_display_clock_divide_frequency(fosc, divide),
{
    let d = clamp(divide, 0, 15);
    let f = clamp(fosc, 0, 15);
    let r = vec![COMMAND, 0xD5, d | (f << 4)];
    proof {
        assert(r@ =~= spec_display_clock_divide_frequency(fosc, divide));
    }
    r
}

/// Encode the charge-pump-enable command.
pub fn charge_pump_enable(on: bool) -> (r: Vec<u8>)
    ensures
        r@ == spec_charge_pump_enable(on),
{
    let r = if on {
        vec![COMMAND, 0x8D, 0x14]
    } else {
        vec![COMMAND, 0x8D, 0x10]
    };
    proof {
        assert(r@ =~= spec_charge_pump_enable(on));
    }
    r
}

/// Frame a pixel payload for the bus: the data control byte followed by the
/// payload bytes, unmodified.
pub fn data_frame(payload: &[u8]) -> (r: Vec<u8>)
    ensures
        r@ == spec_data_frame(payload@),
{
    let mut r: Vec<u8> = Vec::new();
    r.push(DATA);
    let mut i: usize = 0;
    while i < payload.len()
        invariant
            i <= payload@.len(),
            r@ == seq![DATA] + payload@.take(i as int),
        decreases payload@.len() - i,
    {
        r.push(payload[i]);
        proof {
            assert(r@ =~= seq![DATA] + payload@.take(i + 1));
        }
        i = i + 1;
    }
    proof {
        assert(payload@.take(payload@.len() as int) =~= payload@);
    }
    r
}

/// Saturation law: for every clamped single-parameter encoding, an input
/// outside the documented valid range emits exactly the bytes of the nearest
/// in-range boundary value.
pub proof fn lemma_clamped_encodings_saturate(v: u8)
    ensures
        v > 0x0F ==> spec_lower_column_start_address(v) == spec_lower_column_start_address(0x0F),
        v > 0x0F ==> spec_higher_column_start_address(v) == spec_higher_column_start_address(0x0F),
        v > 3 ==> spec_memory_addressing_mode(v) == spec_memory_addressing_mode(3),
        v > 7 ==> spec_page_start_address(v) == spec_page_start_address(7),
        v > 63 ==> spec_display_start_line(v) == spec_display_start_line(63),
        v < 15 ==> spec_multiplex_ratio(v) == spec_multiplex_ratio(15),
        v > 63 ==> spec_multiplex_ratio(v) == spec_multiplex_ratio(63),
        v > 63 ==> spec_display_offset(v) == spec_display_offset(63),
{
}

/// Saturation law for the two-parameter encodings: each parameter outside its
/// documented valid range emits exactly the bytes of the nearest in-range
/// boundary value.
pub proof fn lemma_clamped_pair_encodings_saturate(a: u8, b: u8)
    ensures
        a > 127 ==> spec_column_address(a, b) == spec_column_address(127, b),
        b > 127 ==> spec_column_address(a, b) == spec_column_address(a, 127),
        a > 127 ==> spec_page_address(a, b) == spec_page_address(127, b),
        b > 127 ==> spec_page_address(a, b) == spec_page_address(a, 127),
        a > 15 ==> spec_display_clock_divide_frequency(a, b) == spec_display_clock_divide_frequency(
            15,
            b,
        ),
        b > 15 ==> spec_display_clock_divide_frequency(a, b) == spec_display_clock_divide_frequency(
            a,
            15,
        ),
{
}

} // verus!
