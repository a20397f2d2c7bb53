//! The display façade: every supported controller operation as one bus
//! transaction (two for the paired column-nibble positioning), plus the composite
//! initialization sequences.
//!
//! Each operation encodes its command, performs exactly one synchronous write
//! through the owned [`Transport`], and only then records the addressing side
//! effect in the owned [`AddressingState`]: a failed write leaves the state
//! model unchanged and is surfaced to the caller unretried. The contracts pin
//! the exact wire bytes of every transaction, so a caller knows byte for byte
//! what a successful call put on the bus.

use vstd::prelude::*;
use vstd::arithmetic::div_mod::lemma_mod_multiples_basic;
use crate::commands;
use crate::commands::{DATA, PAGE_ADDRESSING_MODE, spec_clamp};
use crate::state::{AddressingMode, AddressingState, spec_mode_of_value};
use crate::transport::{BusError, Transaction, Transport};

verus! {

/// The transaction that sends `bytes` to the controller at `address`.
pub open spec fn tx(address: u8, bytes: Seq<u8>) -> Transaction {
    Transaction { address, bytes }
}

/// The transaction stream of `setup_page_addressing_mode`: select page mode,
/// then bring page and both column nibbles to zero.
pub open spec fn spec_page_setup_transactions(address: u8) -> Seq<Transaction> {
    seq![
        tx(address, commands::spec_memory_addressing_mode(PAGE_ADDRESSING_MODE)),
        tx(address, commands::spec_page_start_address(0)),
        tx(address, commands::spec_lower_column_start_address(0)),
        tx(address, commands::spec_higher_column_start_address(0)),
    ]
}

/// The addressing state after the first `n` commands of
/// `setup_page_addressing_mode` took effect on the state `s`.
pub open spec fn spec_page_setup_state(s: AddressingState, n: int) -> AddressingState {
    if n <= 0 {
        s
    } else if n == 1 {
        AddressingState { mode: AddressingMode::Page, page: s.page, column: s.column }
    } else if n == 2 {
        AddressingState { mode: AddressingMode::Page, page: 0, column: s.column }
    } else if n == 3 {
        AddressingState { mode: AddressingMode::Page, page: 0, column: (16 * (s.column / 16)) as u8 }
    } else {
        AddressingState { mode: AddressingMode::Page, page: 0, column: 0 }
    }
}

/// The transaction stream that positions the cursor at column `column`
/// (already saturated to `[0, 127]`): its low nibble, then its high nibble.
pub open spec fn spec_position_column_transactions(address: u8, column: u8) -> Seq<Transaction> {
    seq![
        tx(address, commands::spec_lower_column_start_address((column % 16) as u8)),
        tx(address, commands::spec_higher_column_start_address((column / 16) as u8)),
    ]
}

/// The transaction stream of `setup`: the twelve initialization commands in
/// their fixed, order-dependent sequence.
pub open spec fn spec_setup_transactions(address: u8) -> Seq<Transaction> {
    seq![
        tx(address, commands::spec_multiplex_ratio(0x3F)),
        tx(address, commands::spec_display_offset(0)),
        tx(address, commands::spec_display_start_line(0)),
        tx(address, commands::spec_segment_remap(false)),
        tx(address, commands::spec_com_output_scan_direction(false)),
        tx(address, commands::spec_com_pins_hardware_configuration()),
        tx(address, commands::spec_contrast_control(0x7F)),
        tx(address, commands::spec_entire_display_on(false)),
        tx(address, commands::spec_normal_inverse_display(false)),
        tx(address, commands::spec_display_clock_divide_frequency(8, 0)),
        tx(address, commands::spec_charge_pump_enable(true)),
        tx(address, commands::spec_display_on_off(true)),
    ]
}

/// A display driver bound to one controller at a fixed bus address, owning
/// the transport it writes through and the model of the controller's
/// addressing registers.
pub struct I2cDisplay<T: Transport> {
    /// The controller's fixed 7-bit bus address.
    pub address: u8,
    /// The bus the driver writes through; owned exclusively.
    pub transport: T,
    /// The driver's model of the controller's addressing registers.
    pub state: AddressingState,
}

impl<T: Transport> I2cDisplay<T> {
    /// The writes this display has completed on its bus, oldest first.
    pub open spec fn log(&self) -> Seq<Transaction> {
        self.transport.transactions()
    }

    /// A driver for the controller at bus address `addr`, writing through
    /// `transport`. The addressing mode is unknown until an addressing
    /// command is sent; `setup_page_addressing_mode` brings it to a known
    /// state.
    pub fn new(addr: u8, transport: T) -> (d: I2cDisplay<T>)
        ensures
            d.address == addr,
            d.transport == transport,
            d.state.mode == AddressingMode::Unknown,
            d.state.page == 0,
            d.state.column == 0,
    {
        I2cDisplay { address: addr, transport, state: AddressingState::new() }
    }

    /// Set the contrast; all 256 steps are valid.
    pub fn set_contrast_control(&mut self, contrast: u8) -> (r: Result<(), BusError>)
        ensures
            final(self).address == old(self).address,
            final(self).state == old(self).state,
            r is Ok ==> final(self).log() == old(self).log().push(
                tx(old(self).address, commands::spec_contrast_control(contrast)),
            ),
            r is Err ==> final(self).log() == old(self).log(),
    {
        let cmd = commands::contrast_control(contrast);
        let address = self.address;
        self.transport.write(address, cmd.as_slice())
    }

    /// Force every pixel on (`true`) or resume showing RAM contents
    /// (`false`).
    pub fn entire_display_on(&mut self, on: bool) -> (r: Result<(), BusError>)
        ensures
            final(self).address == old(self).address,
            final(self).state == old(self).state,
            r is Ok ==> final(self).log() == old(self).log().push(
                tx(old(self).address, commands::spec_entire_display_on(on)),
            ),
            r is Err ==> final(self).log() == old(self).log(),
    {
        let cmd = commands::entire_display_on(on);
        let address = self.address;
        self.transport.write(address, cmd.as_slice())
    }

    /// Select normal (`false`) or inverted (`true`) pixel polarity.
    pub fn set_normal_inverse_display(&mut self, inverse: bool) -> (r: Result<(), BusError>)
        ensures
            final(self).address == old(self).address,
            final(self).state == old(self).state,
            r is Ok ==> final(self).log() == old(self).log().push(
                tx(old(self).address, commands::spec_normal_inverse_display(inverse)),
            ),
            r is Err ==> final(self).log() == old(self).log(),
    {
        let cmd = commands::normal_inverse_display(inverse);
        let address = self.address;
        self.transport.write(address, cmd.as_slice())
    }

    /// Switch the display panel on or off.
    pub fn set_display_on_off(&mut self, on: bool) -> (r: Result<(), BusError>)
        ensures
            final(self).address == old(self).address,
            final(self).state == old(self).state,
            r is Ok ==> final(self).log() == old(self).log().push(
                tx(old(self).address, commands::spec_display_on_off(on)),
            ),
            r is Err ==> final(self).log() == old(self).log(),
    {
        let cmd = commands::display_on_off(on);
        let address = self.address;
        self.transport.write(address, cmd.as_slice())
    }

    /// Continuous horizontal scrolling is outside this driver's scope: its
    /// command bytes are not defined here and nothing is sent.
    pub fn continuous_horizontal_scroll_setup() {
    }

    /// Continuous vertical-and-horizontal scrolling is outside this driver's
    /// scope: its command bytes are not defined here and nothing is sent.
    pub fn continuous_vertical_and_horizontal_scroll_setup() {
    }

    /// Scroll deactivation is outside this driver's scope: its command bytes
    /// are not defined here and nothing is sent.
    pub fn deactivate_scroll() {
    }

    /// Scroll activation is outside this driver's scope: its command bytes
    /// are not defined here and nothing is sent.
    pub fn activate_scroll() {
    }

    /// The vertical scroll area is outside this driver's scope: its command
    /// bytes are not defined here and nothing is sent.
    pub fn set_vertical_scroll_area() {
    }

    /// Set the lower nibble of the column start address (page mode); the
    /// nibble is saturated to `[0, 15]`.
    pub fn set_lower_column_start_address(&mut self, address: u8) -> (r: Result<(), BusError>)
        ensures
            final(self).address == old(self).address,
            r is Ok ==> final(self).log() == old(self).log().push(
                tx(old(self).address, commands::spec_lower_column_start_address(address)),
            ),
            r is Ok ==> final(self).state.mode == old(self).state.mode,
            r is Ok ==> final(self).state.page == old(self).state.page,
            r is Ok ==> final(self).state.column == 16 * (old(self).state.column / 16)
                + spec_clamp(address, 0x00, 0x0F),
            r is Err ==> final(self).log() == old(self).log(),
            r is Err ==> final(self).state == old(self).state,
    {
        let cmd = commands::lower_column_start_address(address);
        let bus_address = self.address;
        match self.transport.write(bus_address, cmd.as_slice()) {
            Ok(()) => {
                let high = self.state.column_high_nibble();
                self.state.set_column(address, high);
                Ok(())
            },
            Err(e) => Err(e),
        }
    }

    /// Set the higher nibble of the column start address (page mode); the
    /// nibble is saturated to `[0, 15]`.
    pub fn set_higher_column_start_address(&mut self, address: u8) -> (r: Result<(), BusError>)
        ensures
            final(self).address == old(self).address,
            r is Ok ==> final(self).log() == old(self).log().push(
                tx(old(self).address, commands::spec_higher_column_start_address(address)),
            ),
            r is Ok ==> final(self).state.mode == old(self).state.mode,
            r is Ok ==> final(self).state.page == old(self).state.page,
            r is Ok ==> final(self).state.column == 16 * spec_clamp(address, 0x00, 0x0F) + old(
                self,
            ).state.column % 16,
            r is Err ==> final(self).log() == old(self).log(),
            r is Err ==> final(self).state == old(self).state,
    {
        let cmd = commands::higher_column_start_address(address);
        let bus_address = self.address;
        match self.transport.write(bus_address, cmd.as_slice()) {
            Ok(()) => {
                let low = self.state.column_low_nibble();
                self.state.set_column(low, address);
                Ok(())
            },
            Err(e) => Err(e),
        }
    }

    /// Select the memory addressing mode; the mode value is saturated to
    /// `[0, 3]` and the state model follows the value actually sent.
    pub fn set_memory_addressing_mode(&mut self, mode: u8) -> (r: Result<(), BusError>)
        ensures
            final(self).address == old(self).address,
            r is Ok ==> final(self).log() == old(self).log().push(
                tx(old(self).address, commands::spec_memory_addressing_mode(mode)),
            ),
            r is Ok ==> final(self).state.mode == spec_mode_of_value(spec_clamp(mode, 0, 3)),
            r is Ok ==> final(self).state.page == old(self).state.page,
            r is Ok ==> final(self).state.column == old(self).state.column,
            r is Err ==> final(self).log() == old(self).log(),
            r is Err ==> final(self).state == old(self).state,
    {
        let cmd = commands::memory_addressing_mode(mode);
        let bus_address = self.address;
        match self.transport.write(bus_address, cmd.as_slice()) {
            Ok(()) => {
                self.state.set_mode(mode);
                Ok(())
            },
            Err(e) => Err(e),
        }
    }

    /// Set the column address window (horizontal or vertical mode only);
    /// both bounds are saturated to `[0, 127]`.
    pub fn set_column_address(&mut self, start_addr: u8, end_addr: u8) -> (r: Result<(), BusError>)
        ensures
            final(self).address == old(self).address,
            final(self).state == old(self).state,
            r is Ok ==> final(self).log() == old(self).log().push(
                tx(old(self).address, commands::spec_column_address(start_addr, end_addr)),
            ),
            r is Err ==> final(self).log() == old(self).log(),
    {
        let cmd = commands::column_address(start_addr, end_addr);
        let address = self.address;
        self.transport.write(address, cmd.as_slice())
    }

    /// Set the page address window (horizontal or vertical mode only); both
    /// bounds are saturated to `[0, 127]`.
    pub fn set_page_address(&mut self, start_addr: u8, end_addr: u8) -> (r: Result<(), BusError>)
        ensures
            final(self).address == old(self).address,
            final(self).state == old(self).state,
            r is Ok ==> final(self).log() == old(self).log().push(
                tx(old(self).address, commands::spec_page_address(start_addr, end_addr)),
            ),
            r is Err ==> final(self).log() == old(self).log(),
    {
        let cmd = commands::page_address(start_addr, end_addr);
        let address = self.address;
        self.transport.write(address, cmd.as_slice())
    }

    /// Set the page the cursor writes into (page mode); the page is
    /// saturated to `[0, 7]`.
    pub fn set_page_start_address(&mut self, page: u8) -> (r: Result<(), BusError>)
        ensures
            final(self).address == old(self).address,
            r is Ok ==> final(self).log() == old(self).log().push(
                tx(old(self).address, commands::spec_page_start_address(page)),
            ),
            r is Ok ==> final(self).state.mode == old(self).state.mode,
            r is Ok ==> final(self).state.page == spec_clamp(page, 0, 7),
            r is Ok ==> final(self).state.column == old(self).state.column,
            r is Err ==> final(self).log() == old(self).log(),
            r is Err ==> final(self).state == old(self).state,
    {
        let cmd = commands::page_start_address(page);
        let bus_address = self.address;
        match self.transport.write(bus_address, cmd.as_slice()) {
            Ok(()) => {
                self.state.set_page(page);
                Ok(())
            },
            Err(e) => Err(e),
        }
    }

    /// Map RAM row 0 to the given display line; the line is saturated to
    /// `[0, 63]`.
    pub fn set_display_start_line(&mut self, start: u8) -> (r: Result<(), BusError>)
        ensures
            final(self).address == old(self).address,
            final(self).state == old(self).state,
            r is Ok ==> final(self).log() == old(self).log().push(
                tx(old(self).address, commands::spec_display_start_line(start)),
            ),
            r is Err ==> final(self).log() == old(self).log(),
    {
        let cmd = commands::display_start_line(start);
        let address = self.address;
        self.transport.write(address, cmd.as_slice())
    }

    /// Mirror the display horizontally by remapping segment outputs.
    pub fn set_segment_remap(&mut self, remap: bool) -> (r: Result<(), BusError>)
        ensures
            final(self).address == old(self).address,
            final(self).state == old(self).state,
            r is Ok ==> final(self).log() == old(self).log().push(
                tx(old(self).address, commands::spec_segment_remap(remap)),
            ),
            r is Err ==> final(self).log() == old(self).log(),
    {
        let cmd = commands::segment_remap(remap);
        let address = self.address;
        self.transport.write(address, cmd.as_slice())
    }

    /// Set the multiplex ratio; the value is saturated to `[15, 63]`.
    pub fn set_multiplex_ratio(&mut self, ratio: u8) -> (r: Result<(), BusError>)
        ensures
            final(self).address == old(self).address,
            final(self).state == old(self).state,
            r is Ok ==> final(self).log() == old(self).log().push(
                tx(old(self).address, commands::spec_multiplex_ratio(ratio)),
            ),
            r is Err ==> final(self).log() == old(self).log(),
    {
        let cmd = commands::multiplex_ratio(ratio);
        let address = self.address;
        self.transport.write(address, cmd.as_slice())
    }

    /// Select the COM output scan direction.
    pub fn set_com_output_scan_direction(&mut self, dir: bool) -> (r: Result<(), BusError>)
        ensures
            final(self).address == old(self).address,
            final(self).state == old(self).state,
            r is Ok ==> final(self).log() == old(self).log().push(
                tx(old(self).address, commands::spec_com_output_scan_direction(dir)),
            ),
            r is Err ==> final(self).log() == old(self).log(),
    {
        let cmd = commands::com_output_scan_direction(dir);
        let address = self.address;
        self.transport.write(address, cmd.as_slice())
    }

    /// Shift the display vertically; the offset is saturated to `[0, 63]`.
    pub fn set_display_offset(&mut self, offset: u8) -> (r: Result<(), BusError>)
        ensures
            final(self).address == old(self).address,
            final(self).state == old(self).state,
            r is Ok ==> final(self).log() == old(self).log().push(
                tx(old(self).address, commands::spec_display_offset(offset)),
            ),
            r is Err ==> final(self).log() == old(self).log(),
    {
        let cmd = commands::display_offset(offset);
        let address = self.address;
        self.transport.write(address, cmd.as_slice())
    }

    /// Set the COM pins hardware configuration for a 128x64 panel.
    pub fn set_com_pins_hardware_configuration(&mut self) -> (r: Result<(), BusError>)
        ensures
            final(self).address == old(self).address,
            final(self).state == old(self).state,
            r is Ok ==> final(self).log() == old(self).log().push(
                tx(old(self).address, commands::spec_com_pins_hardware_configuration()),
            ),
            r is Err ==> final(self).log() == old(self).log(),
    {
        let cmd = commands::com_pins_hardware_configuration();
        let address = self.address;
        self.transport.write(address, cmd.as_slice())
    }

    /// Set the display clock divide ratio and oscillator frequency; each
    /// field is saturated to `[0, 15]`.
    pub fn set_display_clock_divide_frequency(&mut self, fosc: u8, divide: u8) -> (r: Result<
        (),
        BusError,
    >)
        ensures
            final(self).address == old(self).address,
            final(self).state == old(self).state,
            r is Ok ==> final(self).log() == old(self).log().push(
                tx(old(self).address, commands::spec_display_clock_divide_frequency(fosc, divide)),
            ),
            r is Err ==> final(self).log() == old(self).log(),
    {
        let cmd = commands::display_clock_divide_frequency(fosc, divide);
        let address = self.address;
        self.transport.write(address, cmd.as_slice())
    }

    /// The pre-charge period is outside this driver's scope: its command
    /// bytes are not defined here and nothing is sent.
    pub fn set_pre_charge_period() {
    }

    /// The VCOM deselect level is outside this driver's scope: its command
    /// bytes are not defined here and nothing is sent.
    pub fn set_vcom_deselect_level() {
    }

    /// The no-operation command is outside this driver's scope: its command
    /// bytes are not defined here and nothing is sent.
    pub fn nop() {
    }

    /// Enable or disable the charge pump regulator.
    pub fn charge_pump_enable(&mut self, on: bool) -> (r: Result<(), BusError>)
        ensures
            final(self).address == old(self).address,
            final(self).state == old(self).state,
            r is Ok ==> final(self).log() == old(self).log().push(
                tx(old(self).address, commands::spec_charge_pump_enable(on)),
            ),
            r is Err ==> final(self).log() == old(self).log(),
    {
        let cmd = commands::charge_pump_enable(on);
        let address = self.address;
        self.transport.write(address, cmd.as_slice())
    }

    /// Bring the controller into page addressing mode with the cursor at
    /// page 0, column 0, and synchronize the state model with it.
    ///
    /// On failure the error of the failing write is returned, the following
    /// commands are not sent, and the state model reflects exactly the
    /// addressing commands that were sent.
    pub fn setup_page_addressing_mode(&mut self) -> (r: Result<(), BusError>)
        ensures
            final(self).address == old(self).address,
            r is Ok ==> final(self).log() == old(self).log() + spec_page_setup_transactions(
                old(self).address,
            ),
            r is Ok ==> final(self).state == spec_page_setup_state(old(self).state, 4),
            r is Err ==> exists|n: int|
                0 <= n < 4 && final(self).log() == old(self).log()
                    + #[trigger] spec_page_setup_transactions(old(self).address).take(n)
                    && final(self).state == spec_page_setup_state(old(self).state, n),
    {
        let ghost pre = *self;
        let ghost txs = spec_page_setup_transactions(pre.address);
        match self.set_memory_addressing_mode(PAGE_ADDRESSING_MODE) {
            Err(e) => {
                proof {
                    assert(self.log() =~= pre.log() + txs.take(0));
                }
                return Err(e);
            },
            Ok(()) => {},
        }
        proof {
            assert(self.log() =~= pre.log() + txs.take(1));
            assert(self.state == spec_page_setup_state(pre.state, 1));
        }
        match self.set_page_start_address(0) {
            Err(e) => {
                return Err(e);
            },
            Ok(()) => {},
        }
        proof {
            assert(self.log() =~= pre.log() + txs.take(2));
            assert(self.state == spec_page_setup_state(pre.state, 2));
        }
        match self.set_lower_column_start_address(0x00) {
            Err(e) => {
                return Err(e);
            },
            Ok(()) => {},
        }
        proof {
            assert(self.log() =~= pre.log() + txs.take(3));
            assert(self.state == spec_page_setup_state(pre.state, 3));
        }
        match self.set_higher_column_start_address(0x00) {
            Err(e) => {
                return Err(e);
            },
            Ok(()) => {},
        }
        proof {
            assert(self.log() =~= pre.log() + txs);
            let c = pre.state.column as int;
            lemma_mod_multiples_basic(c / 16, 16);
            assert((16 * (c / 16)) % 16 == 0);
            assert(self.state == spec_page_setup_state(pre.state, 4));
        }
        Ok(())
    }

    /// Position the cursor at the given column with the paired low/high
    /// nibble commands; the column is saturated to `[0, 127]`.
    ///
    /// On failure the error of the failing write is returned, the second
    /// command is not sent after a failed first one, and the state model
    /// reflects exactly the commands that were sent.
    pub fn start_column_start_address(&mut self, column: u8) -> (r: Result<(), BusError>)
        ensures
            final(self).address == old(self).address,
            final(self).state.mode == old(self).state.mode,
            final(self).state.page == old(self).state.page,
            r is Ok ==> final(self).log() == old(self).log() + spec_position_column_transactions(
                old(self).address,
                spec_clamp(column, 0, 127),
            ),
            r is Ok ==> final(self).state.column == spec_clamp(column, 0, 127),
            r is Err ==> exists|n: int|
                0 <= n < 2 && final(self).log() == old(self).log()
                    + #[trigger] spec_position_column_transactions(
                    old(self).address,
                    spec_clamp(column, 0, 127),
                ).take(n) && (n == 0 ==> final(self).state == old(self).state) && (n == 1
                    ==> final(self).state.column == 16 * (old(self).state.column / 16) + spec_clamp(
                    column,
                    0,
                    127,
                ) % 16),
    {
        let c = commands::clamp(column, 0, 127);
        let ghost pre = *self;
        let ghost txs = spec_position_column_transactions(pre.address, c);
        match self.set_lower_column_start_address(c % 16) {
            Err(e) => {
                proof {
                    assert(self.log() =~= pre.log() + txs.take(0));
                }
                return Err(e);
            },
            Ok(()) => {},
        }
        proof {
            assert(self.log() =~= pre.log() + txs.take(1));
        }
        match self.set_higher_column_start_address(c / 16) {
            Err(e) => {
                return Err(e);
            },
            Ok(()) => {},
        }
        proof {
            assert(self.log() =~= pre.log() + txs);
            let k = pre.state.column as int / 16;
            vstd::arithmetic::div_mod::lemma_mod_multiples_vanish(k, c as int % 16, 16);
            assert((16 * k + c % 16) % 16 == c % 16);
            assert(self.state.column == 16 * (c as int / 16) + c % 16);
            assert(self.state.column == c);
        }
        Ok(())
    }

    /// Write one pixel byte at the cursor, data-framed.
    pub fn write_byte(&mut self, data: u8) -> (r: Result<(), BusError>)
        ensures
            final(self).address == old(self).address,
            final(self).state == old(self).state,
            r is Ok ==> final(self).log() == old(self).log().push(
                tx(old(self).address, commands::spec_data_frame(seq![data])),
            ),
            r is Err ==> final(self).log() == old(self).log(),
    {
        let payload = vec![DATA, data];
        proof {
            assert(payload@ =~= commands::spec_data_frame(seq![data]));
        }
        let address = self.address;
        self.transport.write(address, payload.as_slice())
    }

    /// Write a buffer of pixel bytes at the cursor in one transaction: the
    /// data control byte followed by the payload, unmodified.
    pub fn write_bytes(&mut self, data: &[u8]) -> (r: Result<(), BusError>)
        ensures
            final(self).address == old(self).address,
            final(self).state == old(self).state,
            r is Ok ==> final(self).log() == old(self).log().push(
                tx(old(self).address, commands::spec_data_frame(data@)),
            ),
            r is Err ==> final(self).log() == old(self).log(),
    {
        let payload = commands::data_frame(data);
        let address = self.address;
        self.transport.write(address, payload.as_slice())
    }

    /// Run the fixed twelve-command initialization sequence, in its exact
    /// order: multiplex ratio, display offset, start line, segment remap,
    /// COM scan direction, COM pins configuration, contrast, entire-display
    /// override off, normal polarity, clock divide/frequency, charge pump
    /// on, display power on.
    ///
    /// On failure the error of the failing write is returned and the
    /// following commands are not sent: the log grows by exactly the prefix
    /// of the sequence that succeeded. None of the twelve commands is an
    /// addressing command, so the state model is unchanged either way.
    pub fn setup(&mut self) -> (r: Result<(), BusError>)
        ensures
            final(self).address == old(self).address,
            final(self).state == old(self).state,
            r is Ok ==> final(self).log() == old(self).log() + spec_setup_transactions(
                old(self).address,
            ),
            r is Err ==> exists|n: int|
                0 <= n < 12 && final(self).log() == old(self).log()
                    + #[trigger] spec_setup_transactions(old(self).address).take(n),
    {
        let ghost pre = *self;
        let ghost txs = spec_setup_transactions(pre.address);
        match self.set_multiplex_ratio(0x3F) {
            Err(e) => {
                proof {
                    assert(self.log() =~= pre.log() + txs.take(0));
                }
                return Err(e);
            },
            Ok(()) => {},
        }
        proof {
            assert(self.log() =~= pre.log() + txs.take(1));
        }
        match self.set_display_offset(0) {
            Err(e) => {
                return Err(e);
            },
            Ok(()) => {},
        }
        proof {
            assert(self.log() =~= pre.log() + txs.take(2));
        }
        match self.set_display_start_line(0) {
            Err(e) => {
                return Err(e);
            },
            Ok(()) => {},
        }
        proof {
            assert(self.log() =~= pre.log() + txs.take(3));
        }
        match self.set_segment_remap(false) {
            Err(e) => {
                return Err(e);
            },
            Ok(()) => {},
        }
        proof {
            assert(self.log() =~= pre.log() + txs.take(4));
        }
        match self.set_com_output_scan_direction(false) {
            Err(e) => {
                return Err(e);
            },
            Ok(()) => {},
        }
        proof {
            assert(self.log() =~= pre.log() + txs.take(5));
        }
        match self.set_com_pins_hardware_configuration() {
            Err(e) => {
                return Err(e);
            },
            Ok(()) => {},
        }
        proof {
            assert(self.log() =~= pre.log() + txs.take(6));
        }
        match self.set_contrast_control(0x7F) {
            Err(e) => {
                return Err(e);
            },
            Ok(()) => {},
        }
        proof {
            assert(self.log() =~= pre.log() + txs.take(7));
        }
        match self.entire_display_on(false) {
            Err(e) => {
                return Err(e);
            },
            Ok(()) => {},
        }
        proof {
            assert(self.log() =~= pre.log() + txs.take(8));
        }
        match self.set_normal_inverse_display(false) {
            Err(e) => {
                return Err(e);
            },
            Ok(()) => {},
        }
        proof {
            assert(self.log() =~= pre.log() + txs.take(9));
        }
        match self.set_display_clock_divide_frequency(8, 0) {
            Err(e) => {
                return Err(e);
            },
            Ok(()) => {},
        }
        proof {
            assert(self.log() =~= pre.log() + txs.take(10));
        }
        match self.charge_pump_enable(true) {
            Err(e) => {
                return Err(e);
            },
            Ok(()) => {},
        }
        proof {
            assert(self.log() =~= pre.log() + txs.take(11));
        }
        match self.set_display_on_off(true) {
            Err(e) => {
                return Err(e);
            },
            Ok(()) => {},
        }
        proof {
            assert(self.log() =~= pre.log() + txs);
        }
        Ok(())
    }
}

} // verus!
