use st7789v::stream::{encode_colors, reverse_rows};
use st7789v::{
    ColorFormat, ColorOrder, ColumnAddressOrder, Command, Error, LatchOrder, LineAddressOrder,
    MemAccCtrlConfig, Op, PageAddressOrder, PageColumnOrder, Rotate, ST7789VConfig, ST7789V,
};

type Engine = ST7789V<(), ()>;

fn cmd(cs: bool, opcode: u8) -> Vec<Op> {
    let mut v = Vec::new();
    if cs {
        v.push(Op::CsLow);
    }
    v.push(Op::DcLow);
    v.push(Op::Write(vec![opcode]));
    v
}

fn cmd_params(cs: bool, opcode: u8, params: &[u8]) -> Vec<Op> {
    let mut v = cmd(cs, opcode);
    if cs {
        v.push(Op::CsLow);
    }
    v.push(Op::DcHigh);
    v.push(Op::Write(params.to_vec()));
    if cs {
        v.push(Op::CsHigh);
    }
    v
}

fn writes(ops: &[Op]) -> Vec<Vec<u8>> {
    ops.iter()
        .filter_map(|o| match o {
            Op::Write(b) => Some(b.clone()),
            _ => None,
        })
        .collect()
}

fn be(colors: &[u16]) -> Vec<u8> {
    colors.iter().flat_map(|c| c.to_be_bytes()).collect()
}

#[test]
fn column_range_bytes_are_start_then_inclusive_end() {
    let (d, _) = Engine::with_cs(240, 320);
    let ops = d.column_address(0x0102, 0x0304).unwrap();
    assert_eq!(ops, cmd_params(true, 0x2A, &[0x01, 0x02, 0x03, 0x03]));
    let d = Engine::new(240, 320);
    let ops = d.row_address(10, 0x0100).unwrap();
    assert_eq!(ops, cmd_params(false, 0x2B, &[0x00, 0x0A, 0x00, 0xFF]));
}

#[test]
fn range_bytes_for_many_values() {
    let d = Engine::new(240, 320);
    for (s, e) in [(0u16, 1u16), (5, 5), (255, 256), (1000, 65535), (65535, 65535)] {
        let ops = d.column_address(s, e).unwrap();
        let l = e.wrapping_sub(1);
        let expect = [(s >> 8) as u8, (s & 0xFF) as u8, (l >> 8) as u8, (l & 0xFF) as u8];
        assert_eq!(ops, cmd_params(false, 0x2A, &expect));
        let ops = d.row_address(s, e).unwrap();
        assert_eq!(ops, cmd_params(false, 0x2B, &expect));
    }
}

#[test]
fn empty_range_at_zero_is_rejected() {
    let d = Engine::new(240, 320);
    assert!(matches!(d.column_address(0, 0), Err(Error::InvalidColumnAddress)));
    assert!(matches!(d.row_address(0, 0), Err(Error::InvalidRowAddress)));
    assert!(matches!(d.address_window(0, 0, 0, 5), Err(Error::InvalidColumnAddress)));
    assert!(matches!(d.address_window(0, 0, 5, 0), Err(Error::InvalidRowAddress)));
    assert!(matches!(d.pixels(0, 0, 0, 3, &[]), Err(Error::InvalidColumnAddress)));
    assert!(matches!(d.pixels(0, 0, 3, 0, &[]), Err(Error::InvalidRowAddress)));
    // an empty range elsewhere is sent as start, then start - 1
    let ops = d.column_address(5, 5).unwrap();
    assert_eq!(ops, cmd_params(false, 0x2A, &[0x00, 0x05, 0x00, 0x04]));
}

#[test]
fn reversed_ranges_are_rejected() {
    let (d, _) = Engine::with_cs(240, 320);
    assert!(matches!(d.column_address(5, 4), Err(Error::InvalidColumnAddress)));
    assert!(matches!(d.row_address(320, 0), Err(Error::InvalidRowAddress)));
    assert!(matches!(d.address_window(10, 0, 9, 5), Err(Error::InvalidColumnAddress)));
    assert!(matches!(d.address_window(10, 6, 9, 5), Err(Error::InvalidColumnAddress)));
    assert!(matches!(d.address_window(0, 6, 9, 5), Err(Error::InvalidRowAddress)));
}

#[test]
fn transform_by_rotation() {
    let mut d = Engine::new(240, 320);
    assert_eq!(d.transfer_x_y(10, 20), (10, 20));
    d.set_rotate(Rotate::Rotate90);
    assert_eq!(d.transfer_x_y(10, 20), (230, 20));
    d.set_rotate(Rotate::Rotate180);
    assert_eq!(d.transfer_x_y(10, 20), (10, 300));
    assert_eq!(d.transfer_x_y(0, 320), (0, 0));
    d.set_rotate(Rotate::Rotate270);
    assert_eq!(d.transfer_x_y(10, 20), (230, 300));
    assert_eq!(d.transfer_x_y(241, 0), (65535, 320));
    assert_eq!(d.rotation(), Rotate::Rotate270);
}

#[test]
fn set_rotate_writes_matching_preset() {
    let (mut d, _) = Engine::with_cs(240, 320);
    let ops = d.set_rotate(Rotate::Rotate180);
    assert_eq!(ops, cmd_params(true, 0x36, &[MemAccCtrlConfig::rotate_180().value()]));
    assert_eq!(MemAccCtrlConfig::rotate_180().value(), 0xC0);
    let ops = d.set_rotate(Rotate::Rotate0);
    assert_eq!(ops, cmd_params(true, 0x36, &[0x00]));
    assert_eq!(MemAccCtrlConfig::rotate_90().value(), 0x80);
    assert_eq!(MemAccCtrlConfig::rotate_270().value(), 0x40);
}

#[test]
fn default_orientation_byte() {
    assert_eq!(MemAccCtrlConfig::default().value(), 0xA4);
}

#[test]
fn builder_sets_single_fields() {
    let mut c = MemAccCtrlConfig::rotate_0();
    c.color_order(ColorOrder::Bgr)
        .latch_order(LatchOrder::RightToLeft)
        .line_order(LineAddressOrder::BottomToTop);
    assert_eq!(c.value(), 0x08 | 0x04 | 0x10);
    c.page_order(PageAddressOrder::BottomToTop)
        .page_column_order(PageColumnOrder::ReverseMode)
        .column_order(ColumnAddressOrder::LeftToRight);
    assert_eq!(c.value(), 0xFC);
    c.color_order(ColorOrder::Rgb);
    assert_eq!(c.value(), 0xF4);
}

#[test]
fn option_and_format_values() {
    assert_eq!(ColorFormat::RGB65K_CI16Bit.value(), 0x55);
    assert_eq!(ColorFormat::RGB65K_CI8Bit.value(), 0x05);
    assert_eq!(ColorFormat::RGB262K_CI18Bit.value(), 0x66);
    assert_eq!(PageAddressOrder::BottomToTop.value(), 0x80);
    assert_eq!(ColumnAddressOrder::LeftToRight.value(), 0x40);
    assert_eq!(PageColumnOrder::ReverseMode.value(), 0x20);
    assert_eq!(LineAddressOrder::BottomToTop.value(), 0x10);
    assert_eq!(ColorOrder::Bgr.value(), 0x08);
    assert_eq!(LatchOrder::RightToLeft.value(), 0x04);
    assert_eq!(LatchOrder::LeftToRight.value(), 0x00);
}

#[test]
fn command_opcodes() {
    assert_eq!(Command::CASET.value(), 0x2A);
    assert_eq!(Command::RASET.value(), 0x2B);
    assert_eq!(Command::RAMWR.value(), 0x2C);
    assert_eq!(Command::MADCTL.value(), 0x36);
    assert_eq!(Command::COLMOD.value(), 0x3A);
    assert_eq!(Command::SLPOUT.value(), 0x11);
    assert_eq!(Command::DISPON.value(), 0x29);
    assert_eq!(Command::SWRESET.value(), 0x01);
}

#[test]
fn pixel_block_chunk_count_and_bytes() {
    let (d, _) = Engine::with_cs(240, 320);
    let colors: Vec<u16> = (0..3000u16).map(|i| i.wrapping_mul(31)).collect();
    let ops = d.pixels(0, 0, 60, 50, &colors).unwrap();
    let ws = writes(&ops);
    // three address commands with their parameters, RAMWR twice with an empty parameter write, then the payload
    let payload = &ws[7..];
    assert_eq!(payload.len(), (2 * colors.len() + 4095) / 4096);
    assert_eq!(payload[0].len(), 4096);
    assert_eq!(payload[1].len(), 6000 - 4096);
    assert_eq!(payload.concat(), be(&colors));
    assert_eq!(ops.last(), Some(&Op::CsHigh));
}

#[test]
fn pixel_block_exact_multiple_of_chunk() {
    let d = Engine::new(240, 320);
    let colors = vec![0xABCDu16; 4096];
    let ops = d.pixels(0, 0, 64, 64, &colors).unwrap();
    let ws = writes(&ops);
    let payload = &ws[7..];
    assert_eq!(payload.len(), 2);
    assert!(payload.iter().all(|w| w.len() == 4096));
    assert_eq!(payload.concat(), be(&colors));
}

#[test]
fn pixel_block_framing() {
    let d = Engine::new(240, 320);
    let ops = d.pixels(1, 2, 3, 4, &[0x1234, 0x5678]).unwrap();
    let mut expect = cmd_params(false, 0x2A, &[0, 1, 0, 2]);
    expect.extend(cmd_params(false, 0x2B, &[0, 2, 0, 3]));
    expect.extend(cmd(false, 0x2C));
    expect.extend(cmd_params(false, 0x2C, &[]));
    expect.push(Op::DcHigh);
    expect.push(Op::Write(vec![0x12, 0x34, 0x56, 0x78]));
    assert_eq!(ops, expect);
}

#[test]
fn pixel_block_empty_colors() {
    let d = Engine::new(240, 320);
    let ops = d.pixels(0, 0, 2, 2, &[]).unwrap();
    assert_eq!(writes(&ops).len(), 7);
}

#[test]
fn pixel_block_rows_reversed_under_half_turn() {
    let mut d = Engine::new(240, 320);
    d.set_rotate(Rotate::Rotate180);
    // logical rows 0..2 map to physical rows 320..318; the window is 2 columns wide
    let colors = [1u16, 2, 3, 4, 5, 6];
    let ops = d.pixels(0, 0, 2, 3, &colors).unwrap();
    let ws = writes(&ops);
    assert_eq!(ws[1], vec![0x00, 0x00, 0x00, 0x01]);
    assert_eq!(ws[3], vec![0x01, 0x3D, 0x01, 0x3F]);
    assert_eq!(ws[7], be(&[5, 6, 3, 4, 1, 2]));
}

#[test]
fn pixel_block_rows_kept_without_flip() {
    let mut d = Engine::new(240, 320);
    d.set_rotate(Rotate::Rotate90);
    let colors = [1u16, 2, 3, 4];
    let ops = d.pixels(0, 0, 2, 2, &colors).unwrap();
    let ws = writes(&ops);
    assert_eq!(ws[1], vec![0x00, 0xEE, 0x00, 0xEF]);
    assert_eq!(ws[7], be(&colors));
}

#[test]
fn encode_and_reverse_rows_helpers() {
    assert_eq!(encode_colors(&[0xF800, 0x07E0]), vec![0xF8, 0x00, 0x07, 0xE0]);
    let b: Vec<u8> = (0..7).collect();
    assert_eq!(reverse_rows(&b, 3), vec![6, 3, 4, 5, 0, 1, 2]);
    assert_eq!(reverse_rows(&b, 7), b);
    assert_eq!(reverse_rows(&Vec::new(), 2), Vec::<u8>::new());
}

#[test]
fn init_then_full_window() {
    let (d, ctor) = Engine::with_cs(240, 320);
    assert_eq!(ctor, vec![Op::CsLow]);
    let init = d.init();
    assert_eq!(
        &init[..6],
        &[Op::CsHigh, Op::DelayMs(1), Op::RstLow, Op::DelayMs(1), Op::RstHigh, Op::DelayMs(120)]
    );
    assert_eq!(&init[6..13], &cmd_params(true, 0x36, &[0x00])[..]);
    let tail = cmd(true, 0x29);
    assert_eq!(&init[init.len() - 3..], &tail[..]);
    let ops = d.address_window(0, 0, 240, 320).unwrap();
    let mut expect = cmd_params(true, 0x2A, &[0x00, 0x00, 0x00, 0xEF]);
    expect.extend(cmd_params(true, 0x2B, &[0x00, 0x00, 0x01, 0x3F]));
    expect.extend(cmd(true, 0x2C));
    assert_eq!(ops, expect);
}

/// The writes made while data/command is low, and those made while it is high.
fn phases(ops: &[Op]) -> (Vec<Vec<u8>>, Vec<Vec<u8>>) {
    let mut dc_high = false;
    let (mut cmds, mut data) = (Vec::new(), Vec::new());
    for o in ops {
        match o {
            Op::DcLow => dc_high = false,
            Op::DcHigh => dc_high = true,
            Op::Write(b) if dc_high => data.push(b.clone()),
            Op::Write(b) => cmds.push(b.clone()),
            _ => {}
        }
    }
    (cmds, data)
}

#[test]
fn init_sends_only_opcodes_in_command_phase() {
    let (d, _) = Engine::with_cs(240, 320);
    let (cmds, data) = phases(&d.init());
    let opcodes: Vec<u8> = cmds.iter().map(|w| {
        assert_eq!(w.len(), 1);
        w[0]
    }).collect();
    assert_eq!(
        opcodes,
        vec![
            0x36, 0x3A, 0x21, 0x2A, 0x2B, 0xB7, 0xBB, 0xC0, 0xC2, 0xC3, 0xC4, 0xC6, 0xD0, 0xE0,
            0xE1, 0x21, 0x11, 0x29
        ]
    );
    assert_eq!(data[0], vec![0x00]);
    assert_eq!(data[1], vec![0x05]);
    assert_eq!(data[2], vec![0x00, 0x00, 0x00, 0xEF]);
    assert_eq!(data[3], vec![0x00, 0x00, 0x01, 0x3F]);
    assert_eq!(data[11], vec![0xA4, 0xA1]);
    assert_eq!(
        data[12],
        vec![0xD0, 0x08, 0x11, 0x08, 0x0c, 0x15, 0x39, 0x33, 0x50, 0x36, 0x13, 0x14, 0x29, 0x2d]
    );
    assert_eq!(
        data[13],
        vec![0xd0, 0x08, 0x10, 0x08, 0x06, 0x06, 0x39, 0x44, 0x51, 0x0b, 0x16, 0x14, 0x2f, 0x31]
    );
    assert_eq!(data.len(), 14);
}

#[test]
fn init_window_follows_panel_size() {
    let d = Engine::new(135, 240);
    let (_, data) = phases(&d.init());
    assert_eq!(data[2], vec![0x00, 0x00, 0x00, 0x86]);
    assert_eq!(data[3], vec![0x00, 0x00, 0x00, 0xEF]);
}

#[test]
fn rotated_pixel_is_one_point_on_the_panel() {
    let mut d = Engine::new(240, 320);
    d.set_rotate(Rotate::Rotate90);
    let ops = d.pixel(0, 0, 0x07E0).unwrap();
    let (_, data) = phases(&ops);
    assert_eq!(data[0], vec![0x00, 0xEF, 0x00, 0xEF]);
    assert_eq!(data[1], vec![0x00, 0x00, 0x00, 0x00]);
    assert_eq!(data[2], vec![0x07, 0xE0]);
    d.set_rotate(Rotate::Rotate270);
    let (_, data) = phases(&d.pixel(10, 20, 1).unwrap());
    assert_eq!(data[0], vec![0x00, 0xE5, 0x00, 0xE5]);
    assert_eq!(data[1], vec![0x01, 0x2B, 0x01, 0x2B]);
}

#[test]
fn pixel_and_one_color_block_share_the_window() {
    for rot in [Rotate::Rotate0, Rotate::Rotate90, Rotate::Rotate180, Rotate::Rotate270] {
        let (mut d, _) = Engine::with_cs(240, 320);
        d.set_rotate(rot);
        let single = d.pixel(7, 9, 0xF800).unwrap();
        let block = d.pixels(7, 9, 8, 10, &[0xF800]).unwrap();
        let (_, a) = phases(&single);
        let (_, b) = phases(&block);
        assert_eq!(a[0], b[0]);
        assert_eq!(a[1], b[1]);
        assert_eq!(a[2], vec![0xF8, 0x00]);
        assert_eq!(b.last(), Some(&vec![0xF8, 0x00]));
    }
}

#[test]
fn single_red_pixel_at_origin() {
    let (d, _) = Engine::with_cs(240, 320);
    let ops = d.pixel(0, 0, 0xF800).unwrap();
    let mut expect = cmd_params(true, 0x2A, &[0x00, 0x00, 0x00, 0x00]);
    expect.extend(cmd_params(true, 0x2B, &[0x00, 0x00, 0x00, 0x00]));
    expect.extend(cmd(true, 0x2C));
    expect.extend(cmd_params(true, 0x2C, &[0xF8, 0x00]));
    assert_eq!(ops, expect);
}

#[test]
fn pixel_at_last_address_is_rejected() {
    let d = Engine::new(240, 320);
    assert!(matches!(d.pixel(0xFFFF, 0, 1), Err(Error::InvalidColumnAddress)));
    assert!(matches!(d.pixel(0, 0xFFFF, 1), Err(Error::InvalidRowAddress)));
}

#[test]
fn release_raises_chip_select_once() {
    let (d, _) = Engine::with_cs(240, 320);
    assert_eq!(d.release(), vec![Op::CsHigh]);
    let d = Engine::new(240, 320);
    assert_eq!(d.release(), Vec::<Op>::new());
    let cfg = ST7789VConfig::with_cs(7u8, 8u8, 9u8);
    assert!(cfg.has_cs());
    assert_eq!(cfg.release(), (8, 9));
}

#[test]
fn config_without_cs() {
    let cfg: ST7789VConfig<u8, u8, u8> = ST7789VConfig::new(1, 2);
    let (d, ops) = Engine::with_config(&cfg, 135, 240);
    assert!(ops.is_empty());
    assert!(!d.has_cs());
    assert_eq!((d.width(), d.height()), (135, 240));
    assert_eq!(cfg.into_parts(), (None, 1, 2));
    let cfg = ST7789VConfig::with_cs(0u8, 1u8, 2u8);
    let (d, ops) = Engine::with_config(&cfg, 135, 240);
    assert_eq!(ops, vec![Op::CsLow]);
    assert!(d.has_cs());
}

#[test]
fn mode_operations() {
    let (d, _) = Engine::with_cs(240, 320);
    assert_eq!(d.sleep_in(), [cmd(true, 0x10), vec![Op::DelayMs(5)]].concat());
    assert_eq!(d.sleep_out(), [cmd(true, 0x11), vec![Op::DelayMs(120)]].concat());
    assert_eq!(d.soft_reset(), [cmd(true, 0x01), vec![Op::DelayMs(150)]].concat());
    assert_eq!(
        d.color_mode(ColorFormat::RGB65K_CI16Bit),
        [cmd_params(true, 0x3A, &[0x55]), vec![Op::DelayMs(10)]].concat()
    );
    assert_eq!(d.inversion_on(), cmd(true, 0x21));
    assert_eq!(d.inversion_off(), cmd(true, 0x20));
    assert_eq!(d.display_on(), cmd(true, 0x29));
    assert_eq!(d.display_off(), cmd(true, 0x28));
    assert_eq!(d.partial_display_mode(), cmd(true, 0x12));
    assert_eq!(d.normal_mode(), cmd(true, 0x13));
    assert_eq!(d.idle_on(), cmd(true, 0x39));
    assert_eq!(d.idle_off(), cmd(true, 0x38));
    assert_eq!(d.porch_setting(), cmd_params(true, 0xB2, &[0x0C, 0x0C, 0x00, 0x33, 0x33]));
    assert_eq!(d.gate_control(), cmd_params(true, 0xB7, &[0x35]));
    assert_eq!(d.vcoms_setting(), cmd_params(true, 0xBB, &[0x35]));
    assert_eq!(
        d.memory_access_control(MemAccCtrlConfig::default()),
        cmd_params(true, 0x36, &[0xA4])
    );
    assert_eq!(d.mem_write(&[1, 2, 3]), cmd_params(true, 0x2C, &[1, 2, 3]));
    assert_eq!(d.hard_reset()[0], Op::CsHigh);
    let lcm = d.lcm_control();
    assert_eq!(&lcm[..7], &cmd_params(true, 0xC0, &[0x2C])[..]);
    assert_eq!(&lcm[lcm.len() - 7..], &cmd_params(true, 0xD6, &[0xA1])[..]);
}
