use epdsi::bus::{BusOp, WireRecord, transcript};
use epdsi::controllers::{Jd79660Controller, Jd79661Controller, Jd7966xController, Jd7966xVariant};
use epdsi::driver::EpdBuilder;
use epdsi::panels::{GDEM0154F51H, GDEY0213F51, GxEPD2_154c_GDEM0154F51H, ZJY122250_0213AJH_E5};
use epdsi::traits::{ColorChannel, EpdController, EpdPanel};

fn wire(ops: Vec<BusOp>) -> Vec<WireRecord> {
    transcript(&ops)
}

/// Merges consecutive data writes, as one buffer per command.
fn coalesce(records: &[WireRecord]) -> Vec<WireRecord> {
    let mut out: Vec<WireRecord> = Vec::new();
    for record in records {
        match (out.last_mut(), record) {
            (Some(WireRecord::Data(acc)), WireRecord::Data(more)) => acc.extend_from_slice(more),
            _ => out.push(record.clone()),
        }
    }
    out
}

#[test]
fn test_jd79660_gdem0154f51h_panel_dimensions() {
    assert_eq!(GDEM0154F51H::WIDTH, 200);
    assert_eq!(GDEM0154F51H::HEIGHT, 200);
    assert_eq!(GxEPD2_154c_GDEM0154F51H::WIDTH, 200);
    assert_eq!(GxEPD2_154c_GDEM0154F51H::HEIGHT, 200);
}

#[test]
fn test_jd79660_init_sequence() {
    let mut controller = Jd79660Controller::new(GDEM0154F51H::WIDTH, GDEM0154F51H::HEIGHT);
    assert_eq!(
        wire(controller.init_sequence()),
        vec![
            WireRecord::Command(0x4D),
            WireRecord::Data(vec![0x78]),
            WireRecord::Command(0x00),
            WireRecord::Data(vec![0x0F, 0x29]),
            WireRecord::Command(0x06),
            WireRecord::Data(vec![0x0D, 0x12, 0x30, 0x20, 0x19, 0x2A, 0x22]),
            WireRecord::Command(0x50),
            WireRecord::Data(vec![0x37]),
            WireRecord::Command(0x61),
            WireRecord::Data(vec![0x00, 0xC8, 0x00, 0xC8]),
            WireRecord::Command(0xE9),
            WireRecord::Data(vec![0x01]),
            WireRecord::Command(0x30),
            WireRecord::Data(vec![0x08]),
            WireRecord::Command(0x04),
        ]
    );
}

#[test]
fn test_jd79660_write_frame_ignores_channel() {
    let mut controller = Jd79660Controller::new(GDEM0154F51H::WIDTH, GDEM0154F51H::HEIGHT);
    let black_white = wire(controller.write_frame(ColorChannel::BlackWhite, &[0xAA, 0xBB]));
    assert_eq!(
        black_white,
        vec![WireRecord::Command(0x10), WireRecord::Data(vec![0xAA, 0xBB])]
    );
    assert_eq!(
        wire(controller.write_frame(ColorChannel::RedYellow, &[0xAA, 0xBB])),
        black_white
    );
}

#[test]
fn test_jd79660_write_frame_pattern() {
    let mut controller = Jd79660Controller::new(GDEM0154F51H::WIDTH, GDEM0154F51H::HEIGHT);
    assert_eq!(
        coalesce(&wire(controller.write_frame_pattern(ColorChannel::BlackWhite, 0x55, 10_000))),
        vec![WireRecord::Command(0x10), WireRecord::Data(vec![0x55; 10_000])]
    );
}

#[test]
fn test_jd79660_trigger_refresh() {
    let mut controller = Jd79660Controller::new(GDEM0154F51H::WIDTH, GDEM0154F51H::HEIGHT);
    assert_eq!(
        wire(controller.trigger_refresh()),
        vec![WireRecord::Command(0x12), WireRecord::Data(vec![0x00])]
    );
}

#[test]
fn test_jd79660_sleep() {
    let mut controller = Jd79660Controller::new(GDEM0154F51H::WIDTH, GDEM0154F51H::HEIGHT);
    assert_eq!(
        wire(controller.sleep()),
        vec![
            WireRecord::Command(0x02),
            WireRecord::Data(vec![0x00]),
            WireRecord::Command(0x07),
            WireRecord::Data(vec![0xA5]),
        ]
    );
}

#[test]
fn test_jd79660_clear_frame_uses_the_correct_2bpp_byte_count() {
    let controller = Jd79660Controller::new(GDEM0154F51H::WIDTH, GDEM0154F51H::HEIGHT);
    let mut driver = EpdBuilder::<_, GDEM0154F51H>::new(controller).build(());
    let _ = driver.init();
    assert_eq!(
        coalesce(&wire(driver.clear_frame(ColorChannel::BlackWhite, 0xFF))),
        vec![WireRecord::Command(0x10), WireRecord::Data(vec![0xFF; 10_000])]
    );
}

#[test]
fn test_jd79661_zjy122250_panel_dimensions() {
    assert_eq!(ZJY122250_0213AJH_E5::WIDTH, 122);
    assert_eq!(ZJY122250_0213AJH_E5::HEIGHT, 250);
    assert_eq!(GDEY0213F51::WIDTH, 122);
    assert_eq!(GDEY0213F51::HEIGHT, 250);
}

#[test]
fn test_jd79661_init_sequence() {
    let mut controller =
        Jd79661Controller::new(ZJY122250_0213AJH_E5::WIDTH, ZJY122250_0213AJH_E5::HEIGHT);
    assert_eq!(
        wire(controller.init_sequence()),
        vec![
            WireRecord::Command(0x01),
            WireRecord::Command(0x4D),
            WireRecord::Data(vec![0x78]),
            WireRecord::Command(0x00),
            WireRecord::Data(vec![0x8F, 0x29]),
            WireRecord::Command(0x01),
            WireRecord::Data(vec![0x07, 0x00]),
            WireRecord::Command(0x03),
            WireRecord::Data(vec![0x10, 0x54, 0x44]),
            WireRecord::Command(0x06),
            WireRecord::Data(vec![0x05, 0x00, 0x3F, 0x0A, 0x25, 0x12, 0x1A]),
            WireRecord::Command(0x50),
            WireRecord::Data(vec![0x37]),
            WireRecord::Command(0x60),
            WireRecord::Data(vec![0x02, 0x02]),
            WireRecord::Command(0x61),
            WireRecord::Data(vec![0x00, 0x80, 0x00, 0xFA]),
            WireRecord::Command(0xE7),
            WireRecord::Data(vec![0x1C]),
            WireRecord::Command(0xE3),
            WireRecord::Data(vec![0x22]),
            WireRecord::Command(0xB4),
            WireRecord::Data(vec![0xD0]),
            WireRecord::Command(0xB5),
            WireRecord::Data(vec![0x03]),
            WireRecord::Command(0xE9),
            WireRecord::Data(vec![0x01]),
            WireRecord::Command(0x30),
            WireRecord::Data(vec![0x08]),
            WireRecord::Command(0x04),
        ]
    );
}

#[test]
fn test_jd79661_write_frame_ignores_channel() {
    let mut controller =
        Jd79661Controller::new(ZJY122250_0213AJH_E5::WIDTH, ZJY122250_0213AJH_E5::HEIGHT);
    let black_white = wire(controller.write_frame(ColorChannel::BlackWhite, &[0xAA, 0xBB]));
    assert_eq!(
        black_white,
        vec![WireRecord::Command(0x10), WireRecord::Data(vec![0xAA, 0xBB])]
    );
    assert_eq!(
        wire(controller.write_frame(ColorChannel::Yellow, &[0xAA, 0xBB])),
        black_white
    );
}

#[test]
fn test_jd79661_write_frame_pattern() {
    let mut controller =
        Jd79661Controller::new(ZJY122250_0213AJH_E5::WIDTH, ZJY122250_0213AJH_E5::HEIGHT);
    assert_eq!(
        coalesce(&wire(controller.write_frame_pattern(ColorChannel::BlackWhite, 0x55, 8_000))),
        vec![WireRecord::Command(0x10), WireRecord::Data(vec![0x55; 8_000])]
    );
}

#[test]
fn test_jd79661_trigger_refresh() {
    let mut controller =
        Jd79661Controller::new(ZJY122250_0213AJH_E5::WIDTH, ZJY122250_0213AJH_E5::HEIGHT);
    assert_eq!(
        wire(controller.trigger_refresh()),
        vec![WireRecord::Command(0x12), WireRecord::Data(vec![0x00])]
    );
}

#[test]
fn test_jd79661_sleep() {
    let mut controller =
        Jd79661Controller::new(ZJY122250_0213AJH_E5::WIDTH, ZJY122250_0213AJH_E5::HEIGHT);
    assert_eq!(
        wire(controller.sleep()),
        vec![
            WireRecord::Command(0x02),
            WireRecord::Data(vec![0x00]),
            WireRecord::Command(0x07),
            WireRecord::Data(vec![0xA5]),
        ]
    );
}

#[test]
fn test_jd79661_clear_frame_uses_the_correct_2bpp_byte_count() {
    let controller =
        Jd79661Controller::new(ZJY122250_0213AJH_E5::WIDTH, ZJY122250_0213AJH_E5::HEIGHT);
    let mut driver = EpdBuilder::<_, ZJY122250_0213AJH_E5>::new(controller).build(());
    let _ = driver.init();
    assert_eq!(
        coalesce(&wire(driver.clear_frame(ColorChannel::BlackWhite, 0xFF))),
        vec![WireRecord::Command(0x10), WireRecord::Data(vec![0xFF; 8_000])]
    );
}

#[test]
fn jd7966x_init_waits_on_active_low_busy() {
    let mut controller = Jd7966xController::new(122, 250, Jd7966xVariant::Jd79661);
    let ops = controller.init_sequence();
    assert_eq!(ops[0], BusOp::HardReset(10));
    assert_eq!(ops[1], BusOp::WaitBusy(false));
    assert_eq!(*ops.last().unwrap(), BusOp::WaitBusy(false));
    assert_eq!(Jd7966xController::new_jd79660(1, 1).init_sequence()[1], BusOp::WaitBusy(false));
}
