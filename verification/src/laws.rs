//! Laws the driver obeys, stated over the trace and state model and proved
//! once for all configurations.

use vstd::prelude::*;

use crate::bus::BusOp;
use crate::config::{charsize_bits, Config};
use crate::driver::{
    begin_ops, begin_state, clamped_row, clear_ops, command_ops, cursor_addr, home_ops,
    initial_lcd, line_bits, spec_row_offset, Lcd, LCD_BLINKON, LCD_CLEARDISPLAY, LCD_CURSORON,
    LCD_DISPLAYON, LCD_FUNCTIONSET, LCD_RETURNHOME, LCD_SETDDRAMADDR,
};

verus! {

/// The function-set command issued during `begin` is exactly the
/// character-size bits combined with the line-count bit chosen from the
/// configured row count, and the handshake leaves the display-function
/// register at that value.  (No operation of the initialized handle touches
/// the register — every command's contract carries it over unchanged — so the
/// value never changes after `begin` returns.)
pub proof fn lemma_begin_function_set(config: Config)
    ensures
        initial_lcd(config).display_function == charsize_bits(config.charsize) | line_bits(
            config.rows,
        ),
        begin_state(initial_lcd(config)).display_function == charsize_bits(config.charsize)
            | line_bits(config.rows),
        begin_ops(initial_lcd(config)).subrange(26, 36) == command_ops(
            initial_lcd(config),
            LCD_FUNCTIONSET | (charsize_bits(config.charsize) | line_bits(config.rows)),
        ),
{
    assert(begin_ops(initial_lcd(config)).subrange(26, 36) =~= command_ops(
        initial_lcd(config),
        LCD_FUNCTIONSET | (charsize_bits(config.charsize) | line_bits(config.rows)),
    ));
}

/// The display-control bits are independent and idempotent: setting or
/// clearing the display-on, cursor-on or blink-on bit changes exactly that
/// bit of the control register, and doing it twice gives the same register
/// value as doing it once, whatever the register held before.
pub proof fn lemma_display_control_bits(c: u8)
    by (bit_vector)
    ensures
        (c | LCD_DISPLAYON) | LCD_DISPLAYON == c | LCD_DISPLAYON,
        (c & !LCD_DISPLAYON) & !LCD_DISPLAYON == c & !LCD_DISPLAYON,
        (c | LCD_CURSORON) | LCD_CURSORON == c | LCD_CURSORON,
        (c & !LCD_CURSORON) & !LCD_CURSORON == c & !LCD_CURSORON,
        (c | LCD_BLINKON) | LCD_BLINKON == c | LCD_BLINKON,
        (c & !LCD_BLINKON) & !LCD_BLINKON == c & !LCD_BLINKON,
        (c | LCD_DISPLAYON) & LCD_DISPLAYON == LCD_DISPLAYON,
        (c & !LCD_DISPLAYON) & LCD_DISPLAYON == 0,
        (c | LCD_CURSORON) & LCD_CURSORON == LCD_CURSORON,
        (c & !LCD_CURSORON) & LCD_CURSORON == 0,
        (c | LCD_BLINKON) & LCD_BLINKON == LCD_BLINKON,
        (c & !LCD_BLINKON) & LCD_BLINKON == 0,
{
}

/// Setting or clearing one control bit leaves every disjoint bit of the
/// register as it was.
pub proof fn lemma_control_bits_independent(c: u8, b1: u8, b2: u8)
    by (bit_vector)
    requires
        b1 & b2 == 0,
    ensures
        (c | b1) & b2 == c & b2,
        (c & !b1) & b2 == c & b2,
{
}

/// For a row within the configured row count, `set_cursor` addresses the
/// standard DDRAM row base: the set-DDRAM-address command OR'd with the
/// column plus the offset 0x00, 0x40, 0x14 or 0x54 of that row.
pub proof fn lemma_set_cursor_in_range(col: u8, row: u8, rows: u8)
    requires
        row < rows,
        row < 4,
        col + spec_row_offset(row) <= 0xff,
    ensures
        clamped_row(row, rows) == row,
        cursor_addr(col, row, rows) == LCD_SETDDRAMADDR | ((col + spec_row_offset(row)) as u8),
        spec_row_offset(0) == 0x00,
        spec_row_offset(1) == 0x40,
        spec_row_offset(2) == 0x14,
        spec_row_offset(3) == 0x54,
{
}

/// The clamp in `set_cursor` compares the row against the row count itself,
/// not the count less one, so a row exactly equal to the configured row count
/// is not clamped and addresses one row base past the last configured row —
/// a likely off-by-one, kept deliberately rather than silently corrected.
pub proof fn lemma_set_cursor_boundary(col: u8, rows: u8)
    requires
        rows < 4,
        col + spec_row_offset(rows) <= 0xff,
    ensures
        clamped_row(rows, rows) == rows,
        cursor_addr(col, rows, rows) == LCD_SETDDRAMADDR | ((col + spec_row_offset(rows)) as u8),
{
}

/// `clear` and `home` each send their single command byte and then suspend
/// exactly 2000 microseconds, the controller's busy time, as the last action
/// before the operation returns.
pub proof fn lemma_clear_home_settle(s: Lcd)
    ensures
        clear_ops(s) == command_ops(s, LCD_CLEARDISPLAY) + seq![BusOp::DelayMicros(2000)],
        clear_ops(s).last() == BusOp::DelayMicros(2000),
        home_ops(s) == command_ops(s, LCD_RETURNHOME) + seq![BusOp::DelayMicros(2000)],
        home_ops(s).last() == BusOp::DelayMicros(2000),
{
}

} // verus!
