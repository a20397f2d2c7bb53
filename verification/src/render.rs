//! The page-sweep render pattern, built entirely on the display's public
//! contract.
//!
//! A frame is rendered by repeatedly writing chunks of pixel bytes, which the
//! controller auto-advances through the columns of the current page, and,
//! once a page's worth of columns is written, advancing to the next page with
//! the column start reset to zero, wrapping from the last page back to page
//! zero. When to advance is the caller's signal: pacing and chunk sizing stay
//! outside the protocol layer.

use vstd::prelude::*;
use crate::commands;
use crate::display::{I2cDisplay, tx};
use crate::transport::{BusError, Transaction, Transport};

verus! {

/// The page after `page` in the sweep: the next one, wrapping from the last
/// of the controller's eight pages back to zero.
pub open spec fn spec_next_page(page: u8) -> u8 {
    if page >= 7 {
        0
    } else {
        (page + 1) as u8
    }
}

/// The transaction stream that moves the cursor to the start of page `next`:
/// page start address, then both column nibbles to zero.
pub open spec fn spec_advance_page_transactions(address: u8, next: u8) -> Seq<Transaction> {
    seq![
        tx(address, commands::spec_page_start_address(next)),
        tx(address, commands::spec_lower_column_start_address(0)),
        tx(address, commands::spec_higher_column_start_address(0)),
    ]
}

/// The transaction stream of one render step: the data-framed chunk and,
/// when the page is complete, the cursor move to the start of the next page.
pub open spec fn spec_render_step_transactions(
    address: u8,
    chunk: Seq<u8>,
    page: u8,
    page_complete: bool,
) -> Seq<Transaction> {
    if page_complete {
        seq![tx(address, commands::spec_data_frame(chunk))] + spec_advance_page_transactions(
            address,
            spec_next_page(page),
        )
    } else {
        seq![tx(address, commands::spec_data_frame(chunk))]
    }
}

/// Move the cursor to the start of the next page, wrapping from page 7 back
/// to page 0: page start address, then the column start reset to zero.
///
/// On failure the error of the failing write is returned, the following
/// commands are not sent, and the state model reflects exactly the commands
/// that were sent.
pub fn advance_page<T: Transport>(display: &mut I2cDisplay<T>) -> (r: Result<(), BusError>)
    ensures
        final(display).address == old(display).address,
        final(display).state.mode == old(display).state.mode,
        r is Ok ==> final(display).log() == old(display).log() + spec_advance_page_transactions(
            old(display).address,
            spec_next_page(old(display).state.page),
        ),
        r is Ok ==> final(display).state.page == spec_next_page(old(display).state.page),
        r is Ok ==> final(display).state.column == 0,
        r is Err ==> exists|n: int|
            0 <= n < 3 && final(display).log() == old(display).log()
                + #[trigger] spec_advance_page_transactions(
                old(display).address,
                spec_next_page(old(display).state.page),
            ).take(n) && (n == 0 ==> final(display).state == old(display).state) && (n >= 1
                ==> final(display).state.page == spec_next_page(old(display).state.page)) && (n == 1
                ==> final(display).state.column == old(display).state.column) && (n == 2
                ==> final(display).state.column == 16 * (old(display).state.column / 16)),
{
    let ghost pre = *display;
    let ghost txs = spec_advance_page_transactions(pre.address, spec_next_page(pre.state.page));
    let next: u8 = if display.state.page >= 7 {
        0
    } else {
        display.state.page + 1
    };
    match display.set_page_start_address(next) {
        Err(e) => {
            proof {
                assert(display.log() =~= pre.log() + txs.take(0));
            }
            return Err(e);
        },
        Ok(()) => {},
    }
    proof {
        assert(display.log() =~= pre.log() + txs.take(1));
    }
    match display.set_lower_column_start_address(0x00) {
        Err(e) => {
            return Err(e);
        },
        Ok(()) => {},
    }
    proof {
        assert(display.log() =~= pre.log() + txs.take(2));
    }
    match display.set_higher_column_start_address(0x00) {
        Err(e) => {
            return Err(e);
        },
        Ok(()) => {},
    }
    proof {
        assert(display.log() =~= pre.log() + txs);
        let c = pre.state.column as int;
        vstd::arithmetic::div_mod::lemma_mod_multiples_basic(c / 16, 16);
        assert((16 * (c / 16)) % 16 == 0);
        assert(display.state.column == 0);
    }
    Ok(())
}

/// One step of the page-sweep render loop: write a chunk of pixel bytes at
/// the cursor and, when the caller signals that the page is complete, move
/// the cursor to the start of the next page.
///
/// On failure the error of the failing write is returned and the following
/// commands are not sent: the log grows by exactly the prefix of the step's
/// transaction stream that succeeded.
pub fn render_step<T: Transport>(
    display: &mut I2cDisplay<T>,
    chunk: &[u8],
    page_complete: bool,
) -> (r: Result<(), BusError>)
    ensures
        final(display).address == old(display).address,
        final(display).state.mode == old(display).state.mode,
        r is Ok ==> final(display).log() == old(display).log() + spec_render_step_transactions(
            old(display).address,
            chunk@,
            old(display).state.page,
            page_complete,
        ),
        r is Ok && page_complete ==> final(display).state.page == spec_next_page(
            old(display).state.page,
        ) && final(display).state.column == 0,
        r is Ok && !page_complete ==> final(display).state == old(display).state,
        r is Err ==> exists|n: int|
            0 <= n < 4 && final(display).log() == old(display).log()
                + #[trigger] spec_render_step_transactions(
                old(display).address,
                chunk@,
                old(display).state.page,
                page_complete,
            ).take(n) && (n <= 1 ==> final(display).state == old(display).state) && (n >= 2
                ==> final(display).state.page == spec_next_page(old(display).state.page)) && (n == 2
                ==> final(display).state.column == old(display).state.column) && (n == 3
                ==> final(display).state.column == 16 * (old(display).state.column / 16)),
{
    let ghost pre = *display;
    let ghost txs = spec_render_step_transactions(
        pre.address,
        chunk@,
        pre.state.page,
        page_complete,
    );
    match display.write_bytes(chunk) {
        Err(e) => {
            proof {
                assert(display.log() =~= pre.log() + txs.take(0));
            }
            return Err(e);
        },
        Ok(()) => {},
    }
    proof {
        assert(display.log() =~= pre.log() + txs.take(1));
    }
    if !page_complete {
        proof {
            assert(txs.take(1) =~= txs);
        }
        return Ok(());
    }
    let ghost mid = *display;
    let ghost adv = spec_advance_page_transactions(pre.address, spec_next_page(pre.state.page));
    match advance_page(display) {
        Err(e) => {
            proof {
                let m = choose|m: int|
                    0 <= m < 3 && display.log() == mid.log()
                        + #[trigger] spec_advance_page_transactions(
                        mid.address,
                        spec_next_page(mid.state.page),
                    ).take(m) && (m == 0 ==> display.state == mid.state) && (m >= 1
                        ==> display.state.page == spec_next_page(mid.state.page)) && (m == 1
                        ==> display.state.column == mid.state.column) && (m == 2
                        ==> display.state.column == 16 * (mid.state.column / 16));
                assert(display.log() == mid.log() + adv.take(m));
                assert(display.log() =~= pre.log() + txs.take(1 + m));
            }
            return Err(e);
        },
        Ok(()) => {},
    }
    proof {
        assert(display.log() =~= pre.log() + txs);
    }
    Ok(())
}

} // verus!
