use epdsi::bus::{BusOp, WireRecord, transcript};
use epdsi::controllers::{PervasiveBwController, PervasiveDriverVariant, PervasiveRefreshMode};
use epdsi::panels::{E2290KS0F1, EPD_266_KS_0C, EPD_290_KS_0F};
use epdsi::traits::{ColorChannel, EpdController, EpdPanel};

fn wire(ops: Vec<BusOp>) -> Vec<WireRecord> {
    transcript(&ops)
}

#[test]
fn test_pervasive_controller_configuration() {
    let controller = PervasiveBwController::new(152, 296)
        .with_temperature(18)
        .with_refresh_mode(PervasiveRefreshMode::Fast)
        .with_psr([0xC0, 0x80])
        .with_auto_clear_secondary(false);

    assert_eq!(controller.temperature(), 18);
    assert_eq!(controller.refresh_mode(), PervasiveRefreshMode::Fast);

    let mut controller_mut = PervasiveBwController::new(152, 296);
    controller_mut.set_temperature(30);
    controller_mut.set_refresh_mode(PervasiveRefreshMode::Normal);
    assert_eq!(controller_mut.temperature(), 30);
    assert_eq!(controller_mut.refresh_mode(), PervasiveRefreshMode::Normal);
}

#[test]
fn test_pervasive_refresh_and_sleep_command_payload_parity() {
    let mut controller = PervasiveBwController::new(152, 296);
    assert_eq!(
        wire(controller.trigger_refresh()),
        vec![WireRecord::Command(0x04), WireRecord::Command(0x12)]
    );
    assert_eq!(wire(controller.sleep()), vec![WireRecord::Command(0x02)]);
}

#[test]
fn test_pervasive_init_sequence_normal_vs_fast() {
    let mut controller = PervasiveBwController::new(152, 296).with_temperature(25);
    assert_eq!(
        wire(controller.init_sequence()),
        vec![
            WireRecord::Command(0x00),
            WireRecord::Data(vec![0x0E]),
            WireRecord::Command(0xE5),
            WireRecord::Data(vec![25]),
            WireRecord::Command(0xE0),
            WireRecord::Data(vec![0x02]),
            WireRecord::Command(0x00),
            WireRecord::Data(vec![0xCF, 0x8D]),
        ]
    );

    let mut controller = PervasiveBwController::new(152, 296)
        .with_temperature(25)
        .with_refresh_mode(PervasiveRefreshMode::Fast);
    assert_eq!(
        wire(controller.init_sequence()),
        vec![
            WireRecord::Command(0x00),
            WireRecord::Data(vec![0x0E]),
            WireRecord::Command(0xE5),
            WireRecord::Data(vec![25 | 0x40]),
            WireRecord::Command(0xE0),
            WireRecord::Data(vec![0x02]),
            WireRecord::Command(0x00),
            WireRecord::Data(vec![0xDF, 0x8F]),
            WireRecord::Command(0x50),
            WireRecord::Data(vec![0x07]),
        ]
    );
}

#[test]
fn test_pervasive_write_frame_and_fast_frame() {
    let mut controller = PervasiveBwController::new(152, 296);
    assert_eq!(
        wire(controller.write_frame(ColorChannel::BlackWhite, &[0xAA; 4])),
        vec![
            WireRecord::Command(0x10),
            WireRecord::Data(vec![0x55, 0x55, 0x55, 0x55]),
            WireRecord::Command(0x13),
            WireRecord::Data(vec![0x00; 4]),
        ]
    );
    assert_eq!(
        wire(controller.write_fast_frame(&[0xFF; 4], &[0x00; 4])),
        vec![
            WireRecord::Command(0x50),
            WireRecord::Data(vec![0x27]),
            WireRecord::Command(0x10),
            WireRecord::Data(vec![0x00, 0x00, 0x00, 0x00]),
            WireRecord::Command(0x13),
            WireRecord::Data(vec![0xFF, 0xFF, 0xFF, 0xFF]),
            WireRecord::Command(0x50),
            WireRecord::Data(vec![0x07]),
        ]
    );
}

#[test]
fn test_pervasive_driver_f_e2290ks0f1_init_sequence() {
    let mut controller = PervasiveBwController::new(E2290KS0F1::WIDTH, E2290KS0F1::HEIGHT)
        .with_driver_variant(PervasiveDriverVariant::DriverF)
        .with_temperature(25);
    assert_eq!(EPD_290_KS_0F::WIDTH, 168);
    assert_eq!(EPD_290_KS_0F::HEIGHT, 384);
    assert_eq!(EPD_266_KS_0C::WIDTH, 152);
    assert_eq!(EPD_266_KS_0C::HEIGHT, 296);
    assert_eq!(
        wire(controller.init_sequence()),
        vec![
            WireRecord::Command(0x00),
            WireRecord::Data(vec![0x0E]),
            WireRecord::Command(0xE5),
            WireRecord::Data(vec![25]),
            WireRecord::Command(0xE0),
            WireRecord::Data(vec![0x02]),
            WireRecord::Command(0x4D),
            WireRecord::Data(vec![0x55]),
            WireRecord::Command(0xE9),
            WireRecord::Data(vec![0x02]),
        ]
    );
}

#[test]
fn pervasive_long_frames_invert_in_64_byte_writes() {
    // 150 bytes: two full 64-byte writes and a 22-byte tail, each byte inverted, then the
    // secondary plane cleared to the same length.
    let frame: Vec<u8> = (0..150u32).map(|i| i as u8).collect();
    let mut controller = PervasiveBwController::new(152, 296);
    let records = wire(controller.write_frame(ColorChannel::BlackWhite, &frame));
    assert_eq!(records[0], WireRecord::Command(0x10));
    let inverted: Vec<u8> = frame.iter().map(|b| !b).collect();
    assert_eq!(records[1], WireRecord::Data(inverted[..64].to_vec()));
    assert_eq!(records[2], WireRecord::Data(inverted[64..128].to_vec()));
    assert_eq!(records[3], WireRecord::Data(inverted[128..].to_vec()));
    assert_eq!(records[4], WireRecord::Command(0x13));
    let cleared: usize = records[5..]
        .iter()
        .map(|r| match r {
            WireRecord::Data(d) => {
                assert!(d.iter().all(|&b| b == 0));
                d.len()
            },
            WireRecord::Command(c) => panic!("unexpected command {c:#04X}"),
        })
        .sum();
    assert_eq!(cleared, 150);
}

#[test]
fn pervasive_fast_mode_skips_the_secondary_clear_and_patterns_invert() {
    let mut controller =
        PervasiveBwController::new(152, 296).with_refresh_mode(PervasiveRefreshMode::Fast);
    assert_eq!(
        wire(controller.write_frame(ColorChannel::BlackWhite, &[0x0F])),
        vec![WireRecord::Command(0x10), WireRecord::Data(vec![0xF0])]
    );
    assert_eq!(
        wire(controller.write_frame_pattern(ColorChannel::BlackWhite, 0xFF, 3)),
        vec![WireRecord::Command(0x10), WireRecord::Data(vec![0x00; 3])]
    );
    assert_eq!(
        wire(controller.write_frame_pattern(ColorChannel::RedYellow, 0xFF, 3)),
        vec![WireRecord::Command(0x13), WireRecord::Data(vec![0xFF; 3])]
    );
    assert_eq!(
        wire(controller.write_frame(ColorChannel::Red, &[0x12])),
        vec![WireRecord::Command(0x13), WireRecord::Data(vec![0x12])]
    );
}

#[test]
fn pervasive_negative_temperature_is_sent_as_twos_complement() {
    let mut controller = PervasiveBwController::new(152, 296).with_temperature(-5);
    let records = wire(controller.init_sequence());
    assert_eq!(records[3], WireRecord::Data(vec![0xFB]));
}
