//! The protocol engine and the initialized display handle.
//!
//! `Lcd` holds the configuration-derived register values; `begin` consumes it
//! and yields an `LcdInitialized` handle, the only way to reach the command
//! API.  Every operation returns the exact trace of bus actions it requires;
//! the embedding application performs them in order and aborts on the first
//! transport failure.

use vstd::prelude::*;
use vstd::string::StringSliceAdditionalSpecFns;

use crate::bus::{
    expander_ops, pulse_enable_ops, send_ops, write_4_bits_ops, BusOp, EN, RS,
};
use crate::config::{backlight_bits, charsize_bits, Config, LcdBacklight};

verus! {

pub const LCD_CLEARDISPLAY: u8 = 0x01;

pub const LCD_RETURNHOME: u8 = 0x02;

pub const LCD_ENTRYMODESET: u8 = 0x04;

pub const LCD_DISPLAYCONTROL: u8 = 0x08;

pub const LCD_CURSORSHIFT: u8 = 0x10;

pub const LCD_FUNCTIONSET: u8 = 0x20;

pub const LCD_SETDDRAMADDR: u8 = 0x80;

// Flags for display entry mode.
pub const LCD_ENTRYLEFT: u8 = 0x02;

pub const LCD_ENTRYSHIFTINCREMENT: u8 = 0x01;

pub const LCD_ENTRYSHIFTDECREMENT: u8 = 0x00;

// Flags for display on/off control.
pub const LCD_DISPLAYON: u8 = 0x04;

pub const LCD_CURSORON: u8 = 0x02;

pub const LCD_CURSOROFF: u8 = 0x00;

pub const LCD_BLINKON: u8 = 0x01;

pub const LCD_BLINKOFF: u8 = 0x00;

// Flags for display/cursor shift.
pub const LCD_DISPLAYMOVE: u8 = 0x08;

pub const LCD_MOVERIGHT: u8 = 0x04;

pub const LCD_MOVELEFT: u8 = 0x00;

// Flags for function set.
pub const LCD_2LINE: u8 = 0x08;

pub const LCD_1LINE: u8 = 0x00;

/// Function-set bit selecting 1-line or 2-line mode from the configured row
/// count: any count above one uses the controller's 2-line mode.
pub open spec fn line_bits(rows: u8) -> u8 {
    if rows > 1 {
        LCD_2LINE
    } else {
        LCD_1LINE
    }
}

/// Protocol engine state: bus address, row count, backlight flag, and the
/// three controller-mode registers.  The display-function register is fixed
/// at construction; the others change only through the command API.
#[derive(Clone, Copy, Debug)]
pub struct Lcd {
    pub addr: u8,
    pub rows: u8,
    pub backlight: LcdBacklight,
    pub display_function: u8,
    pub display_control: u8,
    pub display_mode: u8,
}

/// The engine state `Lcd::new` derives from a configuration: display on,
/// cursor and blink off, text flowing left to right without autoscroll.
pub open spec fn initial_lcd(config: Config) -> Lcd {
    Lcd {
        addr: config.addr,
        rows: config.rows,
        backlight: config.lcd_backlight,
        display_function: charsize_bits(config.charsize) | line_bits(config.rows),
        display_control: LCD_DISPLAYON | LCD_CURSOROFF | LCD_BLINKOFF,
        display_mode: LCD_ENTRYLEFT | LCD_ENTRYSHIFTDECREMENT,
    }
}

/// Trace of one command byte (register-select clear).
pub open spec fn command_ops(s: Lcd, data: u8) -> Seq<BusOp> {
    send_ops(s.light(), data, 0)
}

/// Trace of one data byte (register-select set).
pub open spec fn data_ops(s: Lcd, data: u8) -> Seq<BusOp> {
    send_ops(s.light(), data, RS)
}

/// Trace of pushing the display-control register to the controller.
pub open spec fn control_command_ops(s: Lcd) -> Seq<BusOp> {
    command_ops(s, LCD_DISPLAYCONTROL | s.display_control)
}

/// Trace of pushing the entry-mode register to the controller.
pub open spec fn mode_command_ops(s: Lcd) -> Seq<BusOp> {
    command_ops(s, LCD_ENTRYMODESET | s.display_mode)
}

/// Trace of `clear`: the clear-display command, then the controller's
/// 2000-microsecond busy time.
pub open spec fn clear_ops(s: Lcd) -> Seq<BusOp> {
    command_ops(s, LCD_CLEARDISPLAY) + seq![BusOp::DelayMicros(2000)]
}

/// Trace of `home`: the return-home command, then the controller's
/// 2000-microsecond busy time.
pub open spec fn home_ops(s: Lcd) -> Seq<BusOp> {
    command_ops(s, LCD_RETURNHOME) + seq![BusOp::DelayMicros(2000)]
}

/// Trace of printing a byte sequence: one data byte per input byte, in order.
pub open spec fn print_ops(s: Lcd, bytes: Seq<u8>) -> Seq<BusOp>
    decreases bytes.len(),
{
    if bytes.len() == 0 {
        Seq::empty()
    } else {
        print_ops(s, bytes.drop_last()) + data_ops(s, bytes.last())
    }
}

/// DDRAM base address of a row: the standard HD44780 bases for up to four
/// lines.
pub open spec fn spec_row_offset(r: u8) -> u8 {
    if r == 0 {
        0x00
    } else if r == 1 {
        0x40
    } else if r == 2 {
        0x14
    } else {
        0x54
    }
}

/// The row `set_cursor` actually addresses.  A row strictly greater than the
/// configured row count saturates to the last configured row; a row exactly
/// equal to the count is left as it is, one past the last configured row.
pub open spec fn clamped_row(row: u8, rows: u8) -> u8 {
    if row > rows {
        (rows - 1) as u8
    } else {
        row
    }
}

/// The set-DDRAM-address command byte `set_cursor(col, row)` sends.
pub open spec fn cursor_addr(col: u8, row: u8, rows: u8) -> u8 {
    LCD_SETDDRAMADDR | ((col + spec_row_offset(clamped_row(row, rows))) as u8)
}

/// Engine state after the initialization handshake: the display-on bit is set
/// (it already is in any state `Lcd::new` built); everything else is kept.
pub open spec fn begin_state(s: Lcd) -> Lcd {
    Lcd { display_control: s.display_control | LCD_DISPLAYON, ..s }
}

/// The whole initialization trace: power-on settle, backlight line alone,
/// stabilization wait, the three-fold function-set retry nibble 0x3, the
/// switch to 4-bit mode with nibble 0x2, the function-set command, then
/// display-on, clear, entry-mode-set, and home.
pub open spec fn begin_ops(s: Lcd) -> Seq<BusOp> {
    seq![BusOp::DelayMillis(50)] + expander_ops(s.light(), s.light()) + seq![
        BusOp::DelayMillis(1000),
    ] + write_4_bits_ops(s.light(), 0x30) + seq![BusOp::DelayMicros(4500)] + write_4_bits_ops(
        s.light(),
        0x30,
    ) + seq![BusOp::DelayMicros(4500)] + write_4_bits_ops(s.light(), 0x30) + seq![
        BusOp::DelayMicros(150),
    ] + write_4_bits_ops(s.light(), 0x20) + command_ops(s, LCD_FUNCTIONSET | s.display_function)
        + control_command_ops(begin_state(s)) + clear_ops(begin_state(s)) + mode_command_ops(
        begin_state(s),
    ) + home_ops(begin_state(s))
}

impl Lcd {
    /// Expander bits carrying the current backlight state.
    pub open spec fn light(self) -> u8 {
        backlight_bits(self.backlight)
    }

    /// Derive the engine state from a configuration.  The display-function
    /// register combines the character-size bits with the line-count bit and
    /// never changes afterwards.
    pub fn new(config: Config) -> (lcd: Self)
        ensures
            lcd == initial_lcd(config),
    {
        let charsize: u8 = config.charsize.bits();
        let linesize = if config.rows > 1 {
            LCD_2LINE
        } else {
            LCD_1LINE
        };

        let display_function: u8 = charsize | linesize;

        let display_control: u8 = LCD_DISPLAYON | LCD_CURSOROFF | LCD_BLINKOFF;

        let display_mode: u8 = LCD_ENTRYLEFT | LCD_ENTRYSHIFTDECREMENT;
        let backlight = config.lcd_backlight;

        Lcd {
            display_function,
            display_control,
            display_mode,
            backlight,
            rows: config.rows,
            addr: config.addr,
        }
    }

    /// Append one expander write: the backlight bits OR'd into the raw byte.
    fn expander_write(&self, data: u8, out: &mut Vec<BusOp>)
        ensures
            final(out)@ == old(out)@ + expander_ops(self.light(), data),
    {
        let light: u8 = self.backlight.bits();
        out.push(BusOp::Write(light | data));
        proof {
            assert(out@ =~= old(out)@ + expander_ops(self.light(), data));
        }
    }

    /// Append one enable pulse latching `data`.
    fn pulse_enable(&self, data: u8, out: &mut Vec<BusOp>)
        ensures
            final(out)@ == old(out)@ + pulse_enable_ops(self.light(), data),
    {
        self.expander_write(data | EN, out);
        out.push(BusOp::DelayMicros(1));
        self.expander_write(data | !EN, out);
        out.push(BusOp::DelayMicros(50));
        proof {
            assert(out@ =~= old(out)@ + pulse_enable_ops(self.light(), data));
        }
    }

    /// Append one nibble transmission: present the nibble, then pulse enable.
    fn write_4_bits(&self, data: u8, out: &mut Vec<BusOp>)
        ensures
            final(out)@ == old(out)@ + write_4_bits_ops(self.light(), data),
    {
        self.expander_write(data, out);
        self.pulse_enable(data, out);
        proof {
            assert(out@ =~= old(out)@ + write_4_bits_ops(self.light(), data));
        }
    }

    /// Append one byte as two nibble transmissions, high nibble first, each
    /// OR'd with the register-select `mode` bits.
    fn send(&self, data: u8, mode: u8, out: &mut Vec<BusOp>)
        ensures
            final(out)@ == old(out)@ + send_ops(self.light(), data, mode),
    {
        self.write_4_bits((data & 0xf0) | mode, out);
        self.write_4_bits(((data << 4) & 0xf0) | mode, out);
        proof {
            assert(out@ =~= old(out)@ + send_ops(self.light(), data, mode));
        }
    }

    /// Append one command byte (register-select clear).
    fn command(&self, data: u8, out: &mut Vec<BusOp>)
        ensures
            final(out)@ == old(out)@ + command_ops(*self, data),
    {
        self.send(data, 0, out);
    }

    /// Append one data byte (register-select set).
    fn write(&self, data: u8, out: &mut Vec<BusOp>)
        ensures
            final(out)@ == old(out)@ + data_ops(*self, data),
    {
        self.send(data, RS, out);
    }

    /// The one-time initialization handshake.  Consumes the engine and yields
    /// the initialized handle together with the full trace the application
    /// must replay; if any write in that trace fails, the handle must be
    /// discarded and a fresh engine constructed from configuration.
    pub fn begin(self) -> (r: (LcdInitialized, Vec<BusOp>))
        ensures
            r.0@ == begin_state(self),
            r.1@ == begin_ops(self),
    {
        let mut ops: Vec<BusOp> = Vec::new();
        ops.push(BusOp::DelayMillis(50));

        let light: u8 = self.backlight.bits();
        self.expander_write(light, &mut ops);
        ops.push(BusOp::DelayMillis(1000));

        // Nibble 0x3 in the upper half of the byte, three times, then the
        // switch to 4-bit mode with nibble 0x2.
        self.write_4_bits(0x30, &mut ops);
        ops.push(BusOp::DelayMicros(4500));

        self.write_4_bits(0x30, &mut ops);
        ops.push(BusOp::DelayMicros(4500));

        self.write_4_bits(0x30, &mut ops);
        ops.push(BusOp::DelayMicros(150));

        self.write_4_bits(0x20, &mut ops);

        self.command(LCD_FUNCTIONSET | self.display_function, &mut ops);

        let mut lcd = LcdInitialized { lcd: self };

        let mut tail = lcd.display();
        ops.append(&mut tail);

        let mut tail = lcd.clear();
        ops.append(&mut tail);

        lcd.lcd.command(LCD_ENTRYMODESET | lcd.lcd.display_mode, &mut ops);

        let mut tail = lcd.home();
        ops.append(&mut tail);

        proof {
            assert(ops@ =~= begin_ops(self));
        }
        (lcd, ops)
    }
}

/// The initialized display handle: the only path to the command API, and
/// only constructible by `Lcd::begin`, so commands are impossible before the
/// handshake has been issued.
pub struct LcdInitialized {
    lcd: Lcd,
}

impl View for LcdInitialized {
    type V = Lcd;

    /// The engine state behind the handle.
    closed spec fn view(&self) -> Lcd {
        self.lcd
    }
}

impl LcdInitialized {
    /// Turn the display on: set the display-on control bit and push the
    /// display-control register.
    pub fn display(&mut self) -> (ops: Vec<BusOp>)
        ensures
            final(self)@ == (Lcd {
                display_control: old(self)@.display_control | LCD_DISPLAYON,
                ..old(self)@
            }),
            ops@ == control_command_ops(final(self)@),
    {
        self.lcd.display_control = self.lcd.display_control | LCD_DISPLAYON;
        let mut ops: Vec<BusOp> = Vec::new();
        self.lcd.command(LCD_DISPLAYCONTROL | self.lcd.display_control, &mut ops);
        ops
    }

    /// Turn the display off: clear the display-on control bit and push the
    /// display-control register.
    pub fn no_display(&mut self) -> (ops: Vec<BusOp>)
        ensures
            final(self)@ == (Lcd {
                display_control: old(self)@.display_control & !LCD_DISPLAYON,
                ..old(self)@
            }),
            ops@ == control_command_ops(final(self)@),
    {
        self.lcd.display_control = self.lcd.display_control & !LCD_DISPLAYON;
        let mut ops: Vec<BusOp> = Vec::new();
        self.lcd.command(LCD_DISPLAYCONTROL | self.lcd.display_control, &mut ops);
        ops
    }

    /// Clear the display and reset the cursor position: the command, then the
    /// controller's 2000-microsecond busy time.
    pub fn clear(&mut self) -> (ops: Vec<BusOp>)
        ensures
            *final(self) == *old(self),
            ops@ == clear_ops(old(self)@),
    {
        let mut ops: Vec<BusOp> = Vec::new();
        self.lcd.command(LCD_CLEARDISPLAY, &mut ops);
        ops.push(BusOp::DelayMicros(2000));
        proof {
            assert(ops@ =~= clear_ops(old(self)@));
        }
        ops
    }

    /// Return the cursor to the origin: the command, then the controller's
    /// 2000-microsecond busy time.
    pub fn home(&mut self) -> (ops: Vec<BusOp>)
        ensures
            *final(self) == *old(self),
            ops@ == home_ops(old(self)@),
    {
        let mut ops: Vec<BusOp> = Vec::new();
        self.lcd.command(LCD_RETURNHOME, &mut ops);
        ops.push(BusOp::DelayMicros(2000));
        proof {
            assert(ops@ =~= home_ops(old(self)@));
        }
        ops
    }

    /// Position the cursor by DDRAM address.  A row strictly greater than the
    /// configured row count saturates to the last configured row; a row equal
    /// to the count is deliberately left unclamped and addresses one row base
    /// past the last configured row, a likely off-by-one kept deliberately
    /// (see `laws::lemma_set_cursor_boundary`).
    pub fn set_cursor(&mut self, col: u8, row: u8) -> (ops: Vec<BusOp>)
        requires
            old(self)@.rows >= 1 || row <= old(self)@.rows,
            clamped_row(row, old(self)@.rows) < 4,
            col + spec_row_offset(clamped_row(row, old(self)@.rows)) <= 0xff,
        ensures
            *final(self) == *old(self),
            ops@ == command_ops(old(self)@, cursor_addr(col, row, old(self)@.rows)),
    {
        let row_offsets: [u8; 4] = [0x00, 0x40, 0x14, 0x54];
        let mut row: u8 = row;
        if row > self.lcd.rows {
            row = self.lcd.rows - 1;  // rows are counted from zero
        }
        let mut ops: Vec<BusOp> = Vec::new();
        self.lcd.command(LCD_SETDDRAMADDR | (col + row_offsets[row as usize]), &mut ops);
        ops
    }

    /// Hide the underline cursor: clear the cursor-on control bit and push
    /// the display-control register.
    pub fn no_cursor(&mut self) -> (ops: Vec<BusOp>)
        ensures
            final(self)@ == (Lcd {
                display_control: old(self)@.display_control & !LCD_CURSORON,
                ..old(self)@
            }),
            ops@ == control_command_ops(final(self)@),
    {
        self.lcd.display_control = self.lcd.display_control & !LCD_CURSORON;
        let mut ops: Vec<BusOp> = Vec::new();
        self.lcd.command(LCD_DISPLAYCONTROL | self.lcd.display_control, &mut ops);
        ops
    }

    /// Show the underline cursor: set the cursor-on control bit and push the
    /// display-control register.
    pub fn cursor(&mut self) -> (ops: Vec<BusOp>)
        ensures
            final(self)@ == (Lcd {
                display_control: old(self)@.display_control | LCD_CURSORON,
                ..old(self)@
            }),
            ops@ == control_command_ops(final(self)@),
    {
        self.lcd.display_control = self.lcd.display_control | LCD_CURSORON;
        let mut ops: Vec<BusOp> = Vec::new();
        self.lcd.command(LCD_DISPLAYCONTROL | self.lcd.display_control, &mut ops);
        ops
    }

    /// Stop the cursor blinking: clear the blink-on control bit and push the
    /// display-control register.
    pub fn no_blink(&mut self) -> (ops: Vec<BusOp>)
        ensures
            final(self)@ == (Lcd {
                display_control: old(self)@.display_control & !LCD_BLINKON,
                ..old(self)@
            }),
            ops@ == control_command_ops(final(self)@),
    {
        self.lcd.display_control = self.lcd.display_control & !LCD_BLINKON;
        let mut ops: Vec<BusOp> = Vec::new();
        self.lcd.command(LCD_DISPLAYCONTROL | self.lcd.display_control, &mut ops);
        ops
    }

    /// Blink the cursor: set the blink-on control bit and push the
    /// display-control register.
    pub fn blink(&mut self) -> (ops: Vec<BusOp>)
        ensures
            final(self)@ == (Lcd {
                display_control: old(self)@.display_control | LCD_BLINKON,
                ..old(self)@
            }),
            ops@ == control_command_ops(final(self)@),
    {
        self.lcd.display_control = self.lcd.display_control | LCD_BLINKON;
        let mut ops: Vec<BusOp> = Vec::new();
        self.lcd.command(LCD_DISPLAYCONTROL | self.lcd.display_control, &mut ops);
        ops
    }

    /// Scroll the whole display one position left without changing DDRAM.
    pub fn scroll_display_left(&mut self) -> (ops: Vec<BusOp>)
        ensures
            *final(self) == *old(self),
            ops@ == command_ops(old(self)@, LCD_CURSORSHIFT | LCD_DISPLAYMOVE | LCD_MOVELEFT),
    {
        let mut ops: Vec<BusOp> = Vec::new();
        self.lcd.command(LCD_CURSORSHIFT | LCD_DISPLAYMOVE | LCD_MOVELEFT, &mut ops);
        ops
    }

    /// Scroll the whole display one position right without changing DDRAM.
    pub fn scroll_display_right(&mut self) -> (ops: Vec<BusOp>)
        ensures
            *final(self) == *old(self),
            ops@ == command_ops(old(self)@, LCD_CURSORSHIFT | LCD_DISPLAYMOVE | LCD_MOVERIGHT),
    {
        let mut ops: Vec<BusOp> = Vec::new();
        self.lcd.command(LCD_CURSORSHIFT | LCD_DISPLAYMOVE | LCD_MOVERIGHT, &mut ops);
        ops
    }

    /// Make text flow left to right: set the entry-left bit and push the
    /// entry-mode register.
    pub fn left_to_right(&mut self) -> (ops: Vec<BusOp>)
        ensures
            final(self)@ == (Lcd {
                display_mode: old(self)@.display_mode | LCD_ENTRYLEFT,
                ..old(self)@
            }),
            ops@ == mode_command_ops(final(self)@),
    {
        self.lcd.display_mode = self.lcd.display_mode | LCD_ENTRYLEFT;
        let mut ops: Vec<BusOp> = Vec::new();
        self.lcd.command(LCD_ENTRYMODESET | self.lcd.display_mode, &mut ops);
        ops
    }

    /// Make text flow right to left: clear the entry-left bit and push the
    /// entry-mode register.
    pub fn right_to_left(&mut self) -> (ops: Vec<BusOp>)
        ensures
            final(self)@ == (Lcd {
                display_mode: old(self)@.display_mode & !LCD_ENTRYLEFT,
                ..old(self)@
            }),
            ops@ == mode_command_ops(final(self)@),
    {
        self.lcd.display_mode = self.lcd.display_mode & !LCD_ENTRYLEFT;
        let mut ops: Vec<BusOp> = Vec::new();
        self.lcd.command(LCD_ENTRYMODESET | self.lcd.display_mode, &mut ops);
        ops
    }

    /// Right-justify text from the cursor: set the shift-increment bit and
    /// push the entry-mode register.
    pub fn autoscroll(&mut self) -> (ops: Vec<BusOp>)
        ensures
            final(self)@ == (Lcd {
                display_mode: old(self)@.display_mode | LCD_ENTRYSHIFTINCREMENT,
                ..old(self)@
            }),
            ops@ == mode_command_ops(final(self)@),
    {
        self.lcd.display_mode = self.lcd.display_mode | LCD_ENTRYSHIFTINCREMENT;
        let mut ops: Vec<BusOp> = Vec::new();
        self.lcd.command(LCD_ENTRYMODESET | self.lcd.display_mode, &mut ops);
        ops
    }

    /// Left-justify text from the cursor: clear the shift-increment bit and
    /// push the entry-mode register.
    pub fn no_autoscroll(&mut self) -> (ops: Vec<BusOp>)
        ensures
            final(self)@ == (Lcd {
                display_mode: old(self)@.display_mode & !LCD_ENTRYSHIFTINCREMENT,
                ..old(self)@
            }),
            ops@ == mode_command_ops(final(self)@),
    {
        self.lcd.display_mode = self.lcd.display_mode & !LCD_ENTRYSHIFTINCREMENT;
        let mut ops: Vec<BusOp> = Vec::new();
        self.lcd.command(LCD_ENTRYMODESET | self.lcd.display_mode, &mut ops);
        ops
    }

    /// Switch the backlight off and write the bare backlight line (a zero
    /// data byte carries the state).
    pub fn no_backlight(&mut self) -> (ops: Vec<BusOp>)
        ensures
            final(self)@ == (Lcd { backlight: LcdBacklight::NoBacklight, ..old(self)@ }),
            ops@ == expander_ops(final(self)@.light(), 0),
    {
        self.lcd.backlight = LcdBacklight::NoBacklight;
        let mut ops: Vec<BusOp> = Vec::new();
        self.lcd.expander_write(0, &mut ops);
        ops
    }

    /// Switch the backlight on and write the bare backlight line (a zero
    /// data byte carries the state).
    pub fn backlight(&mut self) -> (ops: Vec<BusOp>)
        ensures
            final(self)@ == (Lcd { backlight: LcdBacklight::Backlight, ..old(self)@ }),
            ops@ == expander_ops(final(self)@.light(), 0),
    {
        self.lcd.backlight = LcdBacklight::Backlight;
        let mut ops: Vec<BusOp> = Vec::new();
        self.lcd.expander_write(0, &mut ops);
        ops
    }

    /// Print a string: its UTF-8 bytes go out one data byte each, in order,
    /// with no validation — the controller's character ROM dictates what
    /// renders.
    pub fn print(&mut self, string: &str) -> (ops: Vec<BusOp>)
        ensures
            *final(self) == *old(self),
            ops@ == print_ops(old(self)@, string.spec_bytes()),
    {
        self.print_bytes(string.as_bytes())
    }

    /// Print raw bytes: one data byte each, in order.
    pub fn print_bytes(&mut self, bytes: &[u8]) -> (ops: Vec<BusOp>)
        ensures
            *final(self) == *old(self),
            ops@ == print_ops(old(self)@, bytes@),
    {
        let mut ops: Vec<BusOp> = Vec::new();
        let mut i: usize = 0;
        while i < bytes.len()
            invariant
                i <= bytes@.len(),
                ops@ == print_ops(self@, bytes@.take(i as int)),
            decreases bytes@.len() - i,
        {
            self.lcd.write(bytes[i], &mut ops);
            i = i + 1;
            proof {
                assert(bytes@.take(i as int).drop_last() =~= bytes@.take(i as int - 1));
                assert(ops@ == print_ops(self@, bytes@.take(i as int)));
            }
        }
        proof {
            assert(bytes@.take(bytes@.len() as int) =~= bytes@);
        }
        ops
    }
}

} // verus!
