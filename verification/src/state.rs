//! The host-side model of the controller's addressing registers.
//!
//! The bus has no read-back, so the driver keeps its own copy of the
//! addressing mode and, for page mode, of the page and column start address.
//! The copy is updated only when the matching addressing command was actually
//! sent and acknowledged, so it always reflects the last addressing command
//! on the wire.

use vstd::prelude::*;
use crate::commands::spec_clamp;

verus! {

/// How the controller auto-advances its internal write cursor after each
/// pixel byte.
#[derive(Clone, Copy, PartialEq, Eq, Structural, Debug)]
pub enum AddressingMode {
    /// Advance column, then wrap to the next page.
    Horizontal,
    /// Advance page, then wrap to the next column.
    Vertical,
    /// Advance column within the current page only.
    Page,
    /// The controller's mode is not known to the driver: no mode command has
    /// been sent yet, or the reserved mode value was selected.
    Unknown,
}

/// The addressing mode selected by a mode command value in `[0, 3]`.
pub open spec fn spec_mode_of_value(value: u8) -> AddressingMode {
    if value == 0 {
        AddressingMode::Horizontal
    } else if value == 1 {
        AddressingMode::Vertical
    } else if value == 2 {
        AddressingMode::Page
    } else {
        AddressingMode::Unknown
    }
}

/// The column start address after writing both nibble registers: the
/// saturated high nibble times sixteen plus the saturated low nibble.
pub open spec fn spec_column_of_nibbles(low_nibble: u8, high_nibble: u8) -> u8 {
    (16 * spec_clamp(high_nibble, 0x00, 0x0F) + spec_clamp(low_nibble, 0x00, 0x0F)) as u8
}

/// The driver's model of the controller's addressing registers: the selected
/// mode and, meaningful in page mode, the cursor's page and column start
/// address.
#[derive(Clone, Copy, PartialEq, Eq, Structural, Debug)]
pub struct AddressingState {
    /// The last addressing mode selected, or `Unknown` before any was.
    pub mode: AddressingMode,
    /// The active page, in `[0, 7]`.
    pub page: u8,
    /// The column start address, the composition of the two nibble registers.
    pub column: u8,
}

impl AddressingState {
    /// The state at construction, before any addressing command was sent: the
    /// mode is unknown and the cursor registers are at their reset value.
    pub fn new() -> (s: AddressingState)
        ensures
            s.mode == AddressingMode::Unknown,
            s.page == 0,
            s.column == 0,
    {
        AddressingState { mode: AddressingMode::Unknown, page: 0, column: 0 }
    }

    /// Record that a memory-addressing-mode command with (clamped) value
    /// `value` was sent.
    pub fn set_mode(&mut self, value: u8)
        ensures
            final(self).mode == spec_mode_of_value(spec_clamp(value, 0, 3)),
            final(self).page == old(self).page,
            final(self).column == old(self).column,
    {
        if value == 0 {
            self.mode = AddressingMode::Horizontal;
        } else if value == 1 {
            self.mode = AddressingMode::Vertical;
        } else if value == 2 {
            self.mode = AddressingMode::Page;
        } else {
            self.mode = AddressingMode::Unknown;
        }
    }

    /// Record that the page-addressing mode was selected.
    pub fn enter_page_mode(&mut self)
        ensures
            final(self).mode == AddressingMode::Page,
            final(self).page == old(self).page,
            final(self).column == old(self).column,
    {
        self.mode = AddressingMode::Page;
    }

    /// Record that a page-start-address command was sent; the page is
    /// saturated to `[0, 7]`.
    pub fn set_page(&mut self, page: u8)
        ensures
            final(self).mode == old(self).mode,
            final(self).page == spec_clamp(page, 0, 7),
            final(self).column == old(self).column,
    {
        self.page = crate::commands::clamp(page, 0, 7);
    }

    /// Record that both column-start-address nibble registers were written;
    /// each nibble is saturated to `[0, 15]`.
    pub fn set_column(&mut self, low_nibble: u8, high_nibble: u8)
        ensures
            final(self).mode == old(self).mode,
            final(self).page == old(self).page,
            final(self).column == spec_column_of_nibbles(low_nibble, high_nibble),
    {
        let low = crate::commands::clamp(low_nibble, 0x00, 0x0F);
        let high = crate::commands::clamp(high_nibble, 0x00, 0x0F);
        self.column = 16 * high + low;
    }

    /// The low nibble of the column start address, as the controller's lower
    /// column register holds it.
    pub fn column_low_nibble(&self) -> (r: u8)
        ensures
            r == self.column % 16,
    {
        self.column % 16
    }

    /// The high nibble of the column start address, as the controller's
    /// higher column register holds it.
    pub fn column_high_nibble(&self) -> (r: u8)
        ensures
            r == self.column / 16,
    {
        self.column / 16
    }
}

} // verus!
