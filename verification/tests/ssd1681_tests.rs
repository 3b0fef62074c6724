use epdsi::bus::{BusOp, WireRecord, transcript};
use epdsi::controllers::ssd168x::{MASTER_ACTIVATE, UPDATE_DISPLAY_CTRL2};
use epdsi::controllers::{Ssd1681Controller, Ssd1681RefreshMode};
use epdsi::panels::GDEM0154Z90;
use epdsi::traits::{ColorMode, EpdController, EpdPanel};

fn wire(ops: Vec<BusOp>) -> Vec<WireRecord> {
    transcript(&ops)
}

struct ConfiguredTestPanel;

const TEST_LUT: &[u8] = &[0xAA, 0xBB, 0xCC, 0xDD];

impl EpdPanel for ConfiguredTestPanel {
    const WIDTH: u32 = 200;
    const HEIGHT: u32 = 200;
    const COLOR_MODE: ColorMode = ColorMode::TriColor;
    const VCOM: Option<u8> = Some(0x36);
    const GATE_VOLTAGE: Option<u8> = Some(0x17);
    const CUSTOM_LUT: Option<&'static [u8]> = Some(TEST_LUT);

    // The dimension proof panels give the verifier; compiled, it does nothing. 200 x 200 fits.
    fn lemma_dimensions_fit() {}
}

fn record_init(controller: Ssd1681Controller) -> Vec<WireRecord> {
    let mut controller = controller;
    wire(controller.init_sequence())
}

#[test]
fn test_ssd1681_gdem0154z90_panel_dimensions() {
    assert_eq!(GDEM0154Z90::WIDTH, 200);
    assert_eq!(GDEM0154Z90::HEIGHT, 200);
}

#[test]
fn test_ssd1681_refresh_modes() {
    let mut controller = Ssd1681Controller::new(200, 200);
    assert_eq!(controller.refresh_mode(), Ssd1681RefreshMode::Full);

    controller.set_refresh_mode(Ssd1681RefreshMode::Partial);
    assert_eq!(controller.refresh_mode(), Ssd1681RefreshMode::Partial);

    let controller2 =
        Ssd1681Controller::new(200, 200).with_refresh_mode(Ssd1681RefreshMode::Partial);
    assert_eq!(controller2.refresh_mode(), Ssd1681RefreshMode::Partial);
}

#[test]
fn test_ssd1681_trigger_refresh_full_and_partial() {
    let mut controller = Ssd1681Controller::new(200, 200);
    let records = wire(controller.trigger_refresh());
    assert!(records.contains(&WireRecord::Command(UPDATE_DISPLAY_CTRL2)));
    assert!(records.contains(&WireRecord::Data(vec![0xF7])));
    assert!(records.contains(&WireRecord::Command(MASTER_ACTIVATE)));

    controller.set_refresh_mode(Ssd1681RefreshMode::Partial);
    let records = wire(controller.trigger_refresh());
    assert!(records.contains(&WireRecord::Command(UPDATE_DISPLAY_CTRL2)));
    assert!(records.contains(&WireRecord::Data(vec![0xFC])));
    assert!(records.contains(&WireRecord::Command(MASTER_ACTIVATE)));
}

#[test]
fn test_ssd1681_init_sequence() {
    assert_eq!(
        record_init(Ssd1681Controller::new(GDEM0154Z90::WIDTH, GDEM0154Z90::HEIGHT)),
        vec![
            WireRecord::Command(0x12),
            WireRecord::Command(0x01),
            WireRecord::Data(vec![0xC7, 0x00, 0x00]),
            WireRecord::Command(0x3C),
            WireRecord::Data(vec![0x05]),
            WireRecord::Command(0x18),
            WireRecord::Data(vec![0x80]),
            WireRecord::Command(0x11),
            WireRecord::Data(vec![0x03]),
            WireRecord::Command(0x44),
            WireRecord::Data(vec![0x00, 0x18]),
            WireRecord::Command(0x45),
            WireRecord::Data(vec![0x00, 0x00, 0xC7, 0x00]),
            WireRecord::Command(0x4E),
            WireRecord::Data(vec![0x00]),
            WireRecord::Command(0x4F),
            WireRecord::Data(vec![0x00, 0x00]),
        ]
    );
}

#[test]
fn test_ssd1681_init_writes_no_lut_or_vcom_today() {
    let records = record_init(Ssd1681Controller::new(GDEM0154Z90::WIDTH, GDEM0154Z90::HEIGHT));
    assert!(!records.contains(&WireRecord::Command(0x2C)), "VCOM register is never written");
    assert!(!records.contains(&WireRecord::Command(0x32)), "LUT register is never written");
    assert!(
        !records.contains(&WireRecord::Command(0x03)),
        "gate voltage register is never written"
    );
}

#[test]
fn test_ssd1681_for_panel_is_byte_identical_when_the_panel_declares_nothing() {
    assert_eq!(
        record_init(Ssd1681Controller::for_panel::<GDEM0154Z90>()),
        record_init(Ssd1681Controller::new(GDEM0154Z90::WIDTH, GDEM0154Z90::HEIGHT)),
    );
}

#[test]
fn test_ssd1681_for_panel_reads_dimensions_off_the_panel() {
    let controller = Ssd1681Controller::for_panel::<GDEM0154Z90>();
    assert_eq!(controller.vcom(), None);
    assert_eq!(controller.gate_voltage(), None);
    assert_eq!(controller.custom_lut(), None);
    let records = record_init(controller);
    assert_eq!(records[1], WireRecord::Command(0x01));
    assert_eq!(records[2], WireRecord::Data(vec![0xC7, 0x00, 0x00]));
}

#[test]
fn test_ssd1681_declared_config_reaches_the_wire_in_reference_order() {
    let controller = Ssd1681Controller::for_panel::<ConfiguredTestPanel>();
    assert_eq!(controller.vcom(), Some(0x36));
    assert_eq!(controller.gate_voltage(), Some(0x17));
    assert_eq!(controller.custom_lut(), Some(TEST_LUT));
    assert_eq!(
        record_init(controller),
        vec![
            WireRecord::Command(0x12),
            WireRecord::Command(0x01),
            WireRecord::Data(vec![0xC7, 0x00, 0x00]),
            WireRecord::Command(0x3C),
            WireRecord::Data(vec![0x05]),
            WireRecord::Command(0x2C),
            WireRecord::Data(vec![0x36]),
            WireRecord::Command(0x03),
            WireRecord::Data(vec![0x17]),
            WireRecord::Command(0x18),
            WireRecord::Data(vec![0x80]),
            WireRecord::Command(0x11),
            WireRecord::Data(vec![0x03]),
            WireRecord::Command(0x44),
            WireRecord::Data(vec![0x00, 0x18]),
            WireRecord::Command(0x45),
            WireRecord::Data(vec![0x00, 0x00, 0xC7, 0x00]),
            WireRecord::Command(0x4E),
            WireRecord::Data(vec![0x00]),
            WireRecord::Command(0x4F),
            WireRecord::Data(vec![0x00, 0x00]),
            WireRecord::Command(0x32),
            WireRecord::Data(vec![0xAA, 0xBB, 0xCC, 0xDD]),
        ]
    );
}

#[test]
fn test_ssd1681_builders_are_independent() {
    let records = record_init(
        Ssd1681Controller::new(200, 200)
            .with_gate_voltage(Some(0x17))
            .with_vcom(None),
    );
    assert!(!records.contains(&WireRecord::Command(0x2C)));
    assert!(!records.contains(&WireRecord::Command(0x32)));
    let idx = records
        .iter()
        .position(|r| *r == WireRecord::Command(0x03))
        .expect("gate voltage was configured, so it must be written");
    assert_eq!(records[idx + 1], WireRecord::Data(vec![0x17]));
}

#[test]
fn ssd1681_fast_full_overrides_the_temperature_first() {
    // FastFull on the SSD1681: the temperature override, then the 0xC7 update, no power envelope.
    let mut controller = Ssd1681Controller::new(200, 200)
        .with_refresh_mode(Ssd1681RefreshMode::FastFull);
    assert_eq!(
        wire(controller.trigger_refresh()),
        vec![
            WireRecord::Command(0x22),
            WireRecord::Data(vec![0xB1]),
            WireRecord::Command(0x20),
            WireRecord::Command(0x1A),
            WireRecord::Data(vec![0x5A, 0x00]),
            WireRecord::Command(0x22),
            WireRecord::Data(vec![0x91]),
            WireRecord::Command(0x20),
            WireRecord::Command(0x22),
            WireRecord::Data(vec![0xC7]),
            WireRecord::Command(0x20),
        ]
    );
}

#[test]
fn ssd1681_wrapper_always_drives_the_ssd1681_variant() {
    let mut controller = Ssd1681Controller::new(200, 200);
    let _ = controller.set_window(0, 0, 199, 199);
    let inner = controller.into_inner();
    assert_eq!(inner.variant(), epdsi::controllers::Ssd168xVariant::Ssd1681);
}
