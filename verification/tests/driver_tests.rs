use hd44780::bus::BusOp;
use hd44780::config::{Config, LcdBacklight, LcdCharsize};
use hd44780::driver::{Lcd, LcdInitialized};

const EN: u8 = 0b0000_0100;
const RS: u8 = 0b0000_0001;

/// One expander write: backlight bits OR'd into the raw byte.
fn expander(light: u8, data: u8) -> Vec<BusOp> {
    vec![BusOp::Write(light | data)]
}

/// One nibble transmission: present the nibble, then the enable pulse
/// (enable high, 1 us, enable cleared via bitwise complement, 50 us).
fn write4(light: u8, data: u8) -> Vec<BusOp> {
    vec![
        BusOp::Write(light | data),
        BusOp::Write(light | (data | EN)),
        BusOp::DelayMicros(1),
        BusOp::Write(light | (data | !EN)),
        BusOp::DelayMicros(50),
    ]
}

/// One byte: high nibble then low nibble, each OR'd with the mode bits.
fn send(light: u8, data: u8, mode: u8) -> Vec<BusOp> {
    let mut v = write4(light, (data & 0xf0) | mode);
    v.extend(write4(light, ((data << 4) & 0xf0) | mode));
    v
}

fn begun(config: Config) -> LcdInitialized {
    Lcd::new(config).begin().0
}

#[test]
fn begin_trace_default() {
    // Default configuration: addr 0x3F, two rows, 5x8 dots, backlight on.
    let (_lcd, ops) = Lcd::new(Config::default()).begin();
    let light = 0x08;
    let mut expected = vec![BusOp::DelayMillis(50)];
    expected.extend(expander(light, light));
    expected.push(BusOp::DelayMillis(1000));
    expected.extend(write4(light, 0x30));
    expected.push(BusOp::DelayMicros(4500));
    expected.extend(write4(light, 0x30));
    expected.push(BusOp::DelayMicros(4500));
    expected.extend(write4(light, 0x30));
    expected.push(BusOp::DelayMicros(150));
    expected.extend(write4(light, 0x20));
    // Function set: 0x20 | (5x8 bits 0x00 | two-line 0x08) = 0x28.
    expected.extend(send(light, 0x28, 0));
    // Display control: display on, cursor off, blink off.
    expected.extend(send(light, 0x08 | 0x04, 0));
    // Clear, with the controller's busy time.
    expected.extend(send(light, 0x01, 0));
    expected.push(BusOp::DelayMicros(2000));
    // Entry mode set: entry left, shift decrement.
    expected.extend(send(light, 0x04 | 0x02, 0));
    // Home, with the controller's busy time.
    expected.extend(send(light, 0x02, 0));
    expected.push(BusOp::DelayMicros(2000));
    assert_eq!(ops, expected);
}

#[test]
fn begin_function_set_one_row_5x10_no_backlight() {
    let config = Config {
        addr: 0x27,
        rows: 1,
        charsize: LcdCharsize::DOTS5x10,
        lcd_backlight: LcdBacklight::NoBacklight,
    };
    let (_lcd, ops) = Lcd::new(config).begin();
    // The backlight line is established alone right after the power-on wait.
    assert_eq!(ops[1], BusOp::Write(0x00));
    // Function set: 0x20 | (5x10 bits 0x04 | one-line 0x00) = 0x24.
    assert_eq!(&ops[26..36], send(0x00, 0x24, 0).as_slice());
}

#[test]
fn print_single_char() {
    // 'A' is 0x41: high nibble 0x40 | RS, low nibble 0x10 | RS, each latched
    // by an enable pulse, register-select set in every data write.
    let mut lcd = begun(Config::default());
    let ops = lcd.print("A");
    let mut expected = write4(0x08, 0x40 | RS);
    expected.extend(write4(0x08, 0x10 | RS));
    assert_eq!(ops, expected);
    // Exactly two nibble transmissions.
    let writes: Vec<&BusOp> = ops.iter().filter(|o| matches!(o, BusOp::Write(_))).collect();
    assert_eq!(writes.len(), 6);
}

#[test]
fn print_matches_print_bytes() {
    let mut lcd = begun(Config::default());
    let a = lcd.print("Hi");
    let b = lcd.print_bytes(&[0x48, 0x69]);
    assert_eq!(a, b);
    let mut expected = send(0x08, 0x48, RS);
    expected.extend(send(0x08, 0x69, RS));
    assert_eq!(a, expected);
}

#[test]
fn print_empty() {
    let mut lcd = begun(Config::default());
    assert_eq!(lcd.print(""), vec![]);
    assert_eq!(lcd.print_bytes(&[]), vec![]);
}

#[test]
fn print_non_ascii_bytes_pass_through() {
    // Bytes above 0x7f go out unvalidated; the character ROM decides.
    let mut lcd = begun(Config::default());
    let ops = lcd.print_bytes(&[0xff]);
    assert_eq!(ops, send(0x08, 0xff, RS));
}

#[test]
fn clear_sends_command_then_settles() {
    let mut lcd = begun(Config::default());
    let ops = lcd.clear();
    let mut expected = send(0x08, 0x01, 0);
    expected.push(BusOp::DelayMicros(2000));
    assert_eq!(ops, expected);
    assert_eq!(*ops.last().unwrap(), BusOp::DelayMicros(2000));
}

#[test]
fn home_sends_command_then_settles() {
    let mut lcd = begun(Config::default());
    let ops = lcd.home();
    let mut expected = send(0x08, 0x02, 0);
    expected.push(BusOp::DelayMicros(2000));
    assert_eq!(ops, expected);
    assert_eq!(*ops.last().unwrap(), BusOp::DelayMicros(2000));
}

#[test]
fn set_cursor_row_offsets() {
    let config = Config { rows: 4, ..Config::default() };
    let mut lcd = begun(config);
    // Rows 0..=3 use the standard DDRAM bases 0x00, 0x40, 0x14, 0x54.
    assert_eq!(lcd.set_cursor(0, 0), send(0x08, 0x80, 0));
    assert_eq!(lcd.set_cursor(0, 1), send(0x08, 0x80 | 0x40, 0));
    assert_eq!(lcd.set_cursor(5, 2), send(0x08, 0x80 | (5 + 0x14), 0));
    assert_eq!(lcd.set_cursor(7, 3), send(0x08, 0x80 | (7 + 0x54), 0));
}

#[test]
fn set_cursor_clamps_rows_beyond_count() {
    let mut lcd = begun(Config::default());
    // A row strictly greater than the configured count saturates to the last
    // configured row (rows are counted from zero).
    assert_eq!(lcd.set_cursor(3, 7), send(0x08, 0x80 | (3 + 0x40), 0));
}

#[test]
fn set_cursor_boundary_row_equal_to_count() {
    // A row exactly equal to the configured row count is NOT clamped: with
    // two configured rows, row 2 addresses the third row base 0x14, one past
    // the last configured row.  The clamp compares against the row count, not
    // the count less one: a likely off-by-one, asserted here as it behaves.
    let mut lcd = begun(Config::default());
    assert_eq!(lcd.set_cursor(0, 2), send(0x08, 0x80 | 0x14, 0));
}

#[test]
fn display_control_sequence() {
    let mut lcd = begun(Config::default());
    // After begin the control register is 0x04: display on, cursor and blink
    // off.  Each call flips exactly its own bit and resends the register.
    assert_eq!(lcd.cursor(), send(0x08, 0x08 | 0x06, 0));
    // Idempotent: a second `cursor` sends the same register value.
    assert_eq!(lcd.cursor(), send(0x08, 0x08 | 0x06, 0));
    assert_eq!(lcd.blink(), send(0x08, 0x08 | 0x07, 0));
    assert_eq!(lcd.no_display(), send(0x08, 0x08 | 0x03, 0));
    assert_eq!(lcd.no_blink(), send(0x08, 0x08 | 0x02, 0));
    assert_eq!(lcd.no_cursor(), send(0x08, 0x08 | 0x00, 0));
    assert_eq!(lcd.display(), send(0x08, 0x08 | 0x04, 0));
}

#[test]
fn entry_mode_sequence() {
    let mut lcd = begun(Config::default());
    // After begin the entry-mode register is 0x02: left to right, no shift.
    assert_eq!(lcd.right_to_left(), send(0x08, 0x04 | 0x00, 0));
    assert_eq!(lcd.left_to_right(), send(0x08, 0x04 | 0x02, 0));
    assert_eq!(lcd.autoscroll(), send(0x08, 0x04 | 0x03, 0));
    assert_eq!(lcd.no_autoscroll(), send(0x08, 0x04 | 0x02, 0));
}

#[test]
fn scroll_commands() {
    let mut lcd = begun(Config::default());
    // Cursor shift 0x10 | display move 0x08 | left 0x00 / right 0x04.
    assert_eq!(lcd.scroll_display_left(), send(0x08, 0x18, 0));
    assert_eq!(lcd.scroll_display_right(), send(0x08, 0x1c, 0));
}

#[test]
fn backlight_toggle_carries_into_writes() {
    let mut lcd = begun(Config::default());
    // no_backlight writes the bare line: one byte, backlight bit clear.
    assert_eq!(lcd.no_backlight(), vec![BusOp::Write(0x00)]);
    // Every following command write carries backlight bit 0.
    let mut expected = send(0x00, 0x01, 0);
    expected.push(BusOp::DelayMicros(2000));
    assert_eq!(lcd.clear(), expected);
    // backlight restores bit 0x08 on the next write.
    assert_eq!(lcd.backlight(), vec![BusOp::Write(0x08)]);
    let mut expected = send(0x08, 0x01, 0);
    expected.push(BusOp::DelayMicros(2000));
    assert_eq!(lcd.clear(), expected);
}
