use epdsi::bus::{BusOp, WireRecord, transcript};
use epdsi::controllers::{Ssd1677Controller, Ssd1677RefreshMode};
use epdsi::driver::EpdBuilder;
use epdsi::panels::GDEQ0426T82;
use epdsi::traits::{ColorChannel, EpdController, EpdPanel};

fn wire(ops: Vec<BusOp>) -> Vec<WireRecord> {
    transcript(&ops)
}

/// Flattens the writes into `(command, payload)` pairs, concatenating the 64-byte chunks of a
/// repeated fill.
fn coalesce(records: &[WireRecord]) -> Vec<(u8, Vec<u8>)> {
    let mut out: Vec<(u8, Vec<u8>)> = Vec::new();
    for record in records {
        match record {
            WireRecord::Command(c) => out.push((*c, Vec::new())),
            WireRecord::Data(d) => match out.last_mut() {
                Some((_, payload)) => payload.extend_from_slice(d),
                None => panic!("data {:?} arrived before any command", d),
            },
        }
    }
    out
}

#[test]
fn test_ssd1677_gdeq0426t82_panel_dimensions() {
    assert_eq!(GDEQ0426T82::WIDTH, 800);
    assert_eq!(GDEQ0426T82::HEIGHT, 480);
}

#[test]
fn test_ssd1677_init_sequence() {
    let mut controller = Ssd1677Controller::new(GDEQ0426T82::WIDTH, GDEQ0426T82::HEIGHT);
    let records = wire(controller.init_sequence());
    assert_eq!(
        records,
        vec![
            WireRecord::Command(0x12),
            WireRecord::Command(0x18),
            WireRecord::Data(vec![0x80]),
            WireRecord::Command(0x0C),
            WireRecord::Data(vec![0xAE, 0xC7, 0xC3, 0xC0, 0x80]),
            WireRecord::Command(0x01),
            WireRecord::Data(vec![0xDF, 0x01, 0x02]),
            WireRecord::Command(0x3C),
            WireRecord::Data(vec![0x01]),
            WireRecord::Command(0x11),
            WireRecord::Data(vec![0x01]),
            WireRecord::Command(0x44),
            WireRecord::Data(vec![0x00, 0x00, 0x1F, 0x03]),
            WireRecord::Command(0x45),
            WireRecord::Data(vec![0xDF, 0x01, 0x00, 0x00]),
            WireRecord::Command(0x4E),
            WireRecord::Data(vec![0x00, 0x00]),
            WireRecord::Command(0x4F),
            WireRecord::Data(vec![0xDF, 0x01]),
        ]
    );
}

#[test]
fn test_ssd1677_set_window_sub_rectangle_y_reversal() {
    let mut controller = Ssd1677Controller::new(GDEQ0426T82::WIDTH, GDEQ0426T82::HEIGHT);
    assert_eq!(
        wire(controller.set_window(100, 50, 199, 99)),
        vec![
            WireRecord::Command(0x11),
            WireRecord::Data(vec![0x01]),
            WireRecord::Command(0x44),
            WireRecord::Data(vec![0x60, 0x00, 0xC7, 0x00]),
            WireRecord::Command(0x45),
            WireRecord::Data(vec![0xAD, 0x01, 0x7C, 0x01]),
        ]
    );
    assert_eq!(
        wire(controller.set_cursor(100, 50)),
        vec![
            WireRecord::Command(0x4E),
            WireRecord::Data(vec![0x60, 0x00]),
            WireRecord::Command(0x4F),
            WireRecord::Data(vec![0xAD, 0x01]),
        ]
    );
}

#[test]
fn test_ssd1677_ram_x_registers_are_16_bit_and_pixel_valued() {
    let mut controller = Ssd1677Controller::new(GDEQ0426T82::WIDTH, GDEQ0426T82::HEIGHT);
    let mut records =
        wire(controller.set_window(0, 0, GDEQ0426T82::WIDTH - 1, GDEQ0426T82::HEIGHT - 1));
    records.extend(wire(controller.set_cursor(0, 0)));

    let payload_after = |command: u8| -> Vec<u8> {
        let idx = records
            .iter()
            .position(|r| *r == WireRecord::Command(command))
            .unwrap_or_else(|| panic!("command {:#04X} never sent", command));
        match &records[idx + 1] {
            WireRecord::Data(d) => d.clone(),
            other => panic!("expected data after {:#04X}, got {:?}", command, other),
        }
    };

    let xpos = payload_after(0x44);
    assert_eq!(xpos.len(), 4, "SET_RAMXPOS takes a 16-bit start and end");
    let x_start = u16::from(xpos[0]) | (u16::from(xpos[1]) << 8);
    let x_end = u16::from(xpos[2]) | (u16::from(xpos[3]) << 8);
    assert_eq!(x_start, 0);
    assert_eq!(x_end, (GDEQ0426T82::WIDTH - 1) as u16, "end address is a pixel index");

    let xcnt = payload_after(0x4E);
    assert_eq!(xcnt.len(), 2, "SET_RAMXCNT takes a 16-bit counter");
    assert_eq!(u16::from(xcnt[0]) | (u16::from(xcnt[1]) << 8), 0);
}

#[test]
fn test_ssd1677_write_frame_channel_routing() {
    let mut controller = Ssd1677Controller::new(GDEQ0426T82::WIDTH, GDEQ0426T82::HEIGHT);
    assert_eq!(
        wire(controller.write_frame(ColorChannel::BlackWhite, &[0xAA, 0xBB])),
        vec![WireRecord::Command(0x24), WireRecord::Data(vec![0xAA, 0xBB])]
    );
    assert_eq!(
        wire(controller.write_frame(ColorChannel::RedYellow, &[0xCC])),
        vec![WireRecord::Command(0x26), WireRecord::Data(vec![0xCC])]
    );
}

#[test]
fn test_ssd1677_trigger_refresh_all_modes() {
    let mut controller = Ssd1677Controller::new(GDEQ0426T82::WIDTH, GDEQ0426T82::HEIGHT);
    assert_eq!(controller.refresh_mode(), Ssd1677RefreshMode::Full);
    assert_eq!(
        wire(controller.trigger_refresh()),
        vec![
            WireRecord::Command(0x21),
            WireRecord::Data(vec![0x40, 0x00]),
            WireRecord::Command(0x22),
            WireRecord::Data(vec![0xF7]),
            WireRecord::Command(0x20),
        ]
    );

    let mut controller = Ssd1677Controller::new(GDEQ0426T82::WIDTH, GDEQ0426T82::HEIGHT)
        .with_refresh_mode(Ssd1677RefreshMode::FastFull);
    assert_eq!(
        wire(controller.trigger_refresh()),
        vec![
            WireRecord::Command(0x21),
            WireRecord::Data(vec![0x40, 0x00]),
            WireRecord::Command(0x1A),
            WireRecord::Data(vec![0x5A]),
            WireRecord::Command(0x22),
            WireRecord::Data(vec![0xD7]),
            WireRecord::Command(0x20),
        ]
    );

    let mut controller = Ssd1677Controller::new(GDEQ0426T82::WIDTH, GDEQ0426T82::HEIGHT)
        .with_refresh_mode(Ssd1677RefreshMode::Partial);
    assert_eq!(
        wire(controller.trigger_refresh()),
        vec![
            WireRecord::Command(0x21),
            WireRecord::Data(vec![0x00, 0x00]),
            WireRecord::Command(0x22),
            WireRecord::Data(vec![0xFC]),
            WireRecord::Command(0x20),
        ]
    );
}

#[test]
fn test_ssd1677_sleep() {
    let mut controller = Ssd1677Controller::new(GDEQ0426T82::WIDTH, GDEQ0426T82::HEIGHT);
    assert_eq!(
        wire(controller.sleep()),
        vec![WireRecord::Command(0x10), WireRecord::Data(vec![0x01])]
    );
}

#[test]
fn test_ssd1677_write_frame_pattern_streams_the_fill_byte() {
    let mut controller = Ssd1677Controller::new(GDEQ0426T82::WIDTH, GDEQ0426T82::HEIGHT);
    let records = wire(controller.write_frame_pattern(ColorChannel::BlackWhite, 0xFF, 150));
    assert_eq!(records.len(), 4, "expected WRITE_BW_DATA plus three streamed chunks");
    assert_eq!(records[0], WireRecord::Command(0x24));
    assert_eq!(records[1], WireRecord::Data(vec![0xFF; 64]));
    assert_eq!(records[2], WireRecord::Data(vec![0xFF; 64]));
    assert_eq!(records[3], WireRecord::Data(vec![0xFF; 22]));

    let coalesced = coalesce(&records);
    assert_eq!(coalesced.len(), 1);
    assert_eq!(coalesced[0].0, 0x24);
    assert_eq!(coalesced[0].1, vec![0xFF; 150]);
}

#[test]
fn test_ssd1677_write_frame_pattern_channel_routing() {
    let mut controller = Ssd1677Controller::new(GDEQ0426T82::WIDTH, GDEQ0426T82::HEIGHT);
    let mut records = wire(controller.write_frame_pattern(ColorChannel::BlackWhite, 0x00, 4));
    records.extend(wire(controller.write_frame_pattern(ColorChannel::RedYellow, 0xFF, 4)));
    assert_eq!(
        coalesce(&records),
        vec![(0x24, vec![0x00; 4]), (0x26, vec![0xFF; 4])],
        "BlackWhite routes to WRITE_BW_DATA, every colour channel to WRITE_RED_DATA"
    );
}

#[test]
fn test_ssd1677_write_frame_pattern_zero_count_still_selects_the_plane() {
    let mut controller = Ssd1677Controller::new(GDEQ0426T82::WIDTH, GDEQ0426T82::HEIGHT);
    assert_eq!(
        wire(controller.write_frame_pattern(ColorChannel::BlackWhite, 0xFF, 0)),
        vec![WireRecord::Command(0x24)],
        "a zero-length fill emits the plane-select command and no data"
    );
}

#[test]
fn test_ssd1677_clear_frame_uses_the_auto_fill_registers() {
    let controller = Ssd1677Controller::new(GDEQ0426T82::WIDTH, GDEQ0426T82::HEIGHT);
    let mut driver = EpdBuilder::<_, GDEQ0426T82>::new(controller).build(());
    let mut records = wire(driver.clear_frame(ColorChannel::BlackWhite, 0xFF));
    records.extend(wire(driver.clear_frame(ColorChannel::RedYellow, 0x00)));
    assert_eq!(
        records,
        vec![
            WireRecord::Command(0x47),
            WireRecord::Data(vec![0xF7]),
            WireRecord::Command(0x4E),
            WireRecord::Data(vec![0x00, 0x00]),
            WireRecord::Command(0x4F),
            WireRecord::Data(vec![0xDF, 0x01]),
            WireRecord::Command(0x46),
            WireRecord::Data(vec![0x77]),
            WireRecord::Command(0x4E),
            WireRecord::Data(vec![0x00, 0x00]),
            WireRecord::Command(0x4F),
            WireRecord::Data(vec![0xDF, 0x01]),
        ]
    );
}

#[test]
fn test_ssd1677_auto_fill_restores_the_cursor_to_a_narrowed_window() {
    let mut controller = Ssd1677Controller::new(GDEQ0426T82::WIDTH, GDEQ0426T82::HEIGHT);
    let _ = controller.set_window(100, 50, 199, 99);
    let records = wire(controller.write_frame_pattern(ColorChannel::BlackWhite, 0xFF, 100 * 480));
    assert_eq!(records[0], WireRecord::Command(0x47));
    assert_eq!(records[2], WireRecord::Command(0x4E));
    assert_eq!(records[3], WireRecord::Data(vec![0x60, 0x00]));
    assert_eq!(records[4], WireRecord::Command(0x4F));
    assert_eq!(records[5], WireRecord::Data(vec![0xAD, 0x01]));
}

#[test]
fn test_ssd1677_auto_fill_falls_back_for_fills_it_cannot_express() {
    let full = 100 * 480;
    let cases: [(u8, usize, &str); 3] = [
        (0xAA, full, "a non-uniform byte is not a regular pattern"),
        (0xFF, full - 1, "a partial fill would paint the whole plane"),
        (0x00, 64, "a partial fill would paint the whole plane"),
    ];
    for (byte, count, why) in cases {
        let mut controller = Ssd1677Controller::new(GDEQ0426T82::WIDTH, GDEQ0426T82::HEIGHT);
        let coalesced = coalesce(&wire(controller.write_frame_pattern(
            ColorChannel::BlackWhite,
            byte,
            count,
        )));
        assert_eq!(coalesced.len(), 1);
        assert_eq!(coalesced[0].0, 0x24, "{why}: must stream, not auto-fill");
        assert_eq!(coalesced[0].1, vec![byte; count], "{why}");
    }
}

#[test]
fn test_ssd1677_auto_fill_declines_panels_larger_than_the_maximum_step() {
    for (width, height) in [(1024u32, 480u32), (800, 720)] {
        let mut controller = Ssd1677Controller::new(width, height);
        let count = width.div_ceil(8) as usize * height as usize;
        let records = wire(controller.write_frame_pattern(ColorChannel::BlackWhite, 0xFF, count));
        assert_eq!(
            records[0],
            WireRecord::Command(0x24),
            "{width}x{height} exceeds the pattern generator's reach and must stream"
        );
    }
}

#[test]
fn test_ssd1677_auto_fill_can_be_switched_off() {
    let mut controller =
        Ssd1677Controller::new(GDEQ0426T82::WIDTH, GDEQ0426T82::HEIGHT).with_ram_auto_fill(false);
    assert!(!controller.ram_auto_fill());
    let coalesced =
        coalesce(&wire(controller.write_frame_pattern(ColorChannel::BlackWhite, 0xFF, 100 * 480)));
    assert_eq!(coalesced[0].0, 0x24);
    assert_eq!(coalesced[0].1.len(), 100 * 480);
}

#[test]
fn test_ssd1677_for_panel_is_byte_identical_to_the_hand_wired_form() {
    let record = |controller: Ssd1677Controller| {
        let mut controller = controller;
        wire(controller.init_sequence())
    };
    assert_eq!(
        record(Ssd1677Controller::for_panel::<GDEQ0426T82>()),
        record(Ssd1677Controller::new(GDEQ0426T82::WIDTH, GDEQ0426T82::HEIGHT)),
    );
}

#[test]
fn test_ssd1677_gdeq0426t82_declares_no_vcom() {
    assert_eq!(GDEQ0426T82::VCOM, None);
    assert_eq!(GDEQ0426T82::GATE_VOLTAGE, None);
    assert_eq!(GDEQ0426T82::CUSTOM_LUT, None);
    let controller = Ssd1677Controller::for_panel::<GDEQ0426T82>();
    assert_eq!(controller.vcom(), None);
}

#[test]
fn ssd1677_init_plans_the_reset_and_busy_waits() {
    // The reset pulse and the settle after SW_RESET never reach the SPI wire, but they are
    // planned: a transport carries them out on RST and through the delay provider.
    let mut controller = Ssd1677Controller::new(GDEQ0426T82::WIDTH, GDEQ0426T82::HEIGHT);
    let ops = controller.init_sequence();
    assert_eq!(ops[0], BusOp::HardReset(10));
    assert_eq!(ops[1], BusOp::Command(0x12));
    assert_eq!(ops[2], BusOp::DelayMs(10));
}
