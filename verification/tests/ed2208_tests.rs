use epdsi::bus::{BusOp, WireRecord, transcript};
use epdsi::controllers::Ed2208Controller;
use epdsi::driver::EpdBuilder;
use epdsi::panels::GDEP073E01;
use epdsi::traits::{ColorChannel, EpdController, SevenColor};

fn wire(ops: Vec<BusOp>) -> Vec<WireRecord> {
    transcript(&ops)
}

fn coalesce(records: &[WireRecord]) -> Vec<WireRecord> {
    let mut out: Vec<WireRecord> = Vec::new();
    for record in records {
        match (out.last_mut(), record) {
            (Some(WireRecord::Data(acc)), WireRecord::Data(more)) => acc.extend_from_slice(more),
            _ => out.push(record.clone()),
        }
    }
    out
}

#[test]
fn test_ed2208_gdep073e01_instantiation_and_rendering() {
    let controller = Ed2208Controller::new(800, 480);
    let mut driver = EpdBuilder::<_, GDEP073E01>::new(controller).build(());
    assert_eq!(driver.width(), 800);
    assert_eq!(driver.height(), 480);
    let _ = driver.init();

    let white_packed = SevenColor::pack(SevenColor::White, SevenColor::White);
    assert_eq!(white_packed, 0x11);
    let coalesced = coalesce(&wire(driver.clear_frame(ColorChannel::Color7(0), white_packed)));
    assert_eq!(
        coalesced,
        vec![
            WireRecord::Command(0x10),
            WireRecord::Data(vec![white_packed; 800 * 480 / 2]),
        ]
    );
    let _ = driver.refresh();
    let _ = driver.sleep();
}

#[test]
fn test_ed2208_narrowed_window_widens_back_out_on_refresh() {
    let controller = Ed2208Controller::new(800, 480);
    let mut driver = EpdBuilder::<_, GDEP073E01>::new(controller).build(());
    let _ = driver.init();
    assert!(driver.set_window(0, 0, 99, 99).is_ok());
    assert_eq!(
        coalesce(&wire(driver.refresh())),
        vec![
            WireRecord::Command(0x83),
            WireRecord::Data(vec![0x00, 0x00, 0x03, 0x1F, 0x00, 0x00, 0x01, 0xE0, 0x01]),
            WireRecord::Command(0x12),
            WireRecord::Data(vec![0x00]),
        ]
    );
}

#[test]
fn ed2208_set_window_selects_the_partial_area() {
    let mut controller = Ed2208Controller::new(800, 480);
    // x 16..=31, y 8..=15: width 16, height 8; the Y end written is y + h.
    assert_eq!(
        wire(controller.set_window(16, 8, 31, 15)),
        vec![
            WireRecord::Command(0x83),
            WireRecord::Data(vec![0x00, 0x10, 0x00, 0x1F, 0x00, 0x08, 0x00, 0x10, 0x01]),
        ]
    );
    // An inverted range collapses to a one-pixel extent instead of wrapping.
    assert_eq!(
        wire(controller.set_window(40, 8, 31, 15)),
        vec![
            WireRecord::Command(0x83),
            WireRecord::Data(vec![0x00, 0x28, 0x00, 0x28, 0x00, 0x08, 0x00, 0x10, 0x01]),
        ]
    );
}

#[test]
fn ed2208_fill_is_streamed_in_64_byte_writes() {
    let mut controller = Ed2208Controller::new(800, 480);
    let records = wire(controller.write_frame_pattern(ColorChannel::Color7(0), 0x11, 130));
    assert_eq!(
        records,
        vec![
            WireRecord::Command(0x10),
            WireRecord::Data(vec![0x11; 64]),
            WireRecord::Data(vec![0x11; 64]),
            WireRecord::Data(vec![0x11; 2]),
        ]
    );
}

#[test]
fn ed2208_init_resolution_and_power_on() {
    let mut controller = Ed2208Controller::new(800, 480);
    let ops = controller.init_sequence();
    assert_eq!(ops[0], BusOp::HardReset(20));
    let records = wire(ops.clone());
    let idx = records.iter().position(|r| *r == WireRecord::Command(0x61)).unwrap();
    assert_eq!(records[idx + 1], WireRecord::Data(vec![0x03, 0x20, 0x01, 0xE0]));
    assert_eq!(*records.last().unwrap(), WireRecord::Command(0x04));
    assert_eq!(*ops.last().unwrap(), BusOp::WaitBusy(false));
}
