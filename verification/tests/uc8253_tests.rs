use epdsi::bus::{AssertStep, AssertWait, BusOp, WireRecord, transcript};
use epdsi::controllers::{Uc8253Controller, Uc8253RefreshMode, Uc8253Variant};
use epdsi::driver::EpdBuilder;
use epdsi::panels::{GDEY037T03, GxEPD2_370_GDEY037T03, SE0352N14TNGA0};
use epdsi::traits::{ColorChannel, ColorMode, EpdController, EpdPanel};

fn wire(ops: Vec<BusOp>) -> Vec<WireRecord> {
    transcript(&ops)
}

/// Runs a wait for BUSY to assert against a sequence of BUSY readings, counting the
/// milliseconds it pauses; returns whether BUSY was seen asserted.
fn run_assert_wait(active_high: bool, timeout_ms: u32, mut level: impl FnMut() -> bool) -> (bool, u32) {
    let mut wait = AssertWait::new(active_high, timeout_ms);
    let mut waited = 0u32;
    loop {
        if wait.timed_out() {
            return (false, waited);
        }
        match wait.observe(level()) {
            AssertStep::Asserted => return (true, waited),
            AssertStep::PollAgainAfterOneMs => waited += 1,
        }
    }
}

#[test]
fn test_uc8253_gdey037t03_panel_dimensions() {
    assert_eq!(GDEY037T03::WIDTH, 240);
    assert_eq!(GDEY037T03::HEIGHT, 416);
    assert_eq!(GxEPD2_370_GDEY037T03::WIDTH, 240);
}

#[test]
fn test_uc8253_init_sequence() {
    let mut controller = Uc8253Controller::new(GDEY037T03::WIDTH, GDEY037T03::HEIGHT);
    assert_eq!(
        wire(controller.init_sequence()),
        vec![
            WireRecord::Command(0x00),
            WireRecord::Data(vec![0x1E, 0x0D]),
            WireRecord::Command(0x00),
            WireRecord::Data(vec![0x1F, 0x0D]),
        ]
    );
}

#[test]
fn test_uc8253_set_window_byte_alignment() {
    let mut controller = Uc8253Controller::new(GDEY037T03::WIDTH, GDEY037T03::HEIGHT);
    assert!(wire(controller.set_window(10, 5, 20, 15)).is_empty());
    assert_eq!(
        wire(controller.write_frame(ColorChannel::BlackWhite, &[0xAA])),
        vec![
            WireRecord::Command(0x91),
            WireRecord::Command(0x90),
            WireRecord::Data(vec![8, 23, 0x00, 0x05, 0x00, 0x0F, 0x01]),
            WireRecord::Command(0x13),
            WireRecord::Data(vec![0xAA]),
            WireRecord::Command(0x92),
        ]
    );
    controller.clear_window();
    assert_eq!(
        wire(controller.write_frame(ColorChannel::BlackWhite, &[0xBB])),
        vec![WireRecord::Command(0x13), WireRecord::Data(vec![0xBB])]
    );
}

#[test]
fn test_uc8253_write_frame_channel_routing() {
    let mut controller = Uc8253Controller::new(GDEY037T03::WIDTH, GDEY037T03::HEIGHT);
    assert_eq!(
        wire(controller.write_frame(ColorChannel::BlackWhite, &[0xAA, 0xBB])),
        vec![WireRecord::Command(0x13), WireRecord::Data(vec![0xAA, 0xBB])]
    );
    assert_eq!(
        wire(controller.write_frame(ColorChannel::RedYellow, &[0xCC])),
        vec![WireRecord::Command(0x10), WireRecord::Data(vec![0xCC])]
    );
}

#[test]
fn test_uc8253_trigger_refresh_all_modes() {
    let mut controller = Uc8253Controller::new(GDEY037T03::WIDTH, GDEY037T03::HEIGHT);
    assert_eq!(
        wire(controller.trigger_refresh()),
        vec![
            WireRecord::Command(0x50),
            WireRecord::Data(vec![0x97]),
            WireRecord::Command(0x04),
            WireRecord::Command(0x12),
            WireRecord::Command(0x02),
        ]
    );

    let mut controller = Uc8253Controller::new(GDEY037T03::WIDTH, GDEY037T03::HEIGHT)
        .with_refresh_mode(Uc8253RefreshMode::FastFull);
    assert_eq!(
        wire(controller.trigger_refresh()),
        vec![
            WireRecord::Command(0xE0),
            WireRecord::Data(vec![0x02]),
            WireRecord::Command(0xE5),
            WireRecord::Data(vec![0x5A]),
            WireRecord::Command(0x50),
            WireRecord::Data(vec![0x97]),
            WireRecord::Command(0x04),
            WireRecord::Command(0x12),
            WireRecord::Command(0x02),
            WireRecord::Command(0x00),
            WireRecord::Data(vec![0x1E, 0x0D]),
            WireRecord::Command(0x00),
            WireRecord::Data(vec![0x1F, 0x0D]),
        ]
    );

    let mut controller = Uc8253Controller::new(GDEY037T03::WIDTH, GDEY037T03::HEIGHT)
        .with_refresh_mode(Uc8253RefreshMode::Partial);
    let _ = controller.set_window(0, 0, 239, 415);
    assert_eq!(
        wire(controller.trigger_refresh()),
        vec![
            WireRecord::Command(0x91),
            WireRecord::Command(0x90),
            WireRecord::Data(vec![0, 239, 0x00, 0x00, 0x01, 0x9F, 0x01]),
            WireRecord::Command(0x50),
            WireRecord::Data(vec![0xD7]),
            WireRecord::Command(0x04),
            WireRecord::Command(0x12),
            WireRecord::Command(0x02),
            WireRecord::Command(0x92),
        ]
    );

    let mut controller = Uc8253Controller::new(GDEY037T03::WIDTH, GDEY037T03::HEIGHT)
        .with_refresh_mode(Uc8253RefreshMode::FastPartial);
    assert_eq!(
        wire(controller.trigger_refresh()),
        vec![
            WireRecord::Command(0xE0),
            WireRecord::Data(vec![0x02]),
            WireRecord::Command(0xE5),
            WireRecord::Data(vec![0x6E]),
            WireRecord::Command(0x50),
            WireRecord::Data(vec![0xD7]),
            WireRecord::Command(0x04),
            WireRecord::Command(0x12),
            WireRecord::Command(0x02),
            WireRecord::Command(0x00),
            WireRecord::Data(vec![0x1E, 0x0D]),
            WireRecord::Command(0x00),
            WireRecord::Data(vec![0x1F, 0x0D]),
        ]
    );
}

#[test]
fn test_uc8253_sleep() {
    let mut controller = Uc8253Controller::new(GDEY037T03::WIDTH, GDEY037T03::HEIGHT);
    assert_eq!(
        wire(controller.sleep()),
        vec![
            WireRecord::Command(0x02),
            WireRecord::Command(0x07),
            WireRecord::Data(vec![0xA5]),
        ]
    );
}

#[test]
fn test_uc8253_busy_low_polarity_smoke() {
    let controller = Uc8253Controller::new(GDEY037T03::WIDTH, GDEY037T03::HEIGHT);
    let mut driver = EpdBuilder::<_, GDEY037T03>::new(controller).build(());
    let init = driver.init();
    assert!(init.contains(&BusOp::HardReset(10)));
    let clear = driver.clear_frame(ColorChannel::BlackWhite, 0xFF);
    assert_eq!(clear, vec![BusOp::Command(0x13), BusOp::DataRepeated(0xFF, 240 / 8 * 416)]);
    let refresh = driver.refresh();
    // Active-low BUSY throughout: every wait is planned with `false`.
    assert!(refresh.contains(&BusOp::WaitBusyAssert(false, 500)));
    assert!(!refresh.contains(&BusOp::WaitBusyWithDelay(true)));
    let sleep = driver.sleep();
    assert_eq!(sleep[1], BusOp::WaitBusyWithDelay(false));
}

#[test]
fn test_uc8253_se0352n14_panel_dimensions() {
    assert_eq!(SE0352N14TNGA0::WIDTH, 240);
    assert_eq!(SE0352N14TNGA0::HEIGHT, 360);
    assert_eq!(SE0352N14TNGA0::COLOR_MODE, ColorMode::TriColor);
}

#[test]
fn test_uc8253_se0352n14_init_sequence() {
    let mut controller = Uc8253Controller::new(SE0352N14TNGA0::WIDTH, SE0352N14TNGA0::HEIGHT)
        .with_variant(Uc8253Variant::Se0352n14);
    assert_eq!(
        wire(controller.init_sequence()),
        vec![
            WireRecord::Command(0x04),
            WireRecord::Command(0x50),
            WireRecord::Data(vec![0x87]),
            WireRecord::Command(0x00),
            WireRecord::Data(vec![0x03, 0x0D]),
            WireRecord::Command(0x61),
            WireRecord::Data(vec![0xF0, 0x01, 0x68]),
            WireRecord::Command(0x06),
            WireRecord::Data(vec![0x2F, 0x2F, 0x2E]),
        ]
    );
}

#[test]
fn test_uc8253_se0352n14_plane_routing() {
    let mut controller = Uc8253Controller::new(SE0352N14TNGA0::WIDTH, SE0352N14TNGA0::HEIGHT)
        .with_variant(Uc8253Variant::Se0352n14);
    assert_eq!(
        wire(controller.write_frame(ColorChannel::BlackWhite, &[0xAA, 0xBB])),
        vec![WireRecord::Command(0x10), WireRecord::Data(vec![0xAA, 0xBB])]
    );
    assert_eq!(
        wire(controller.write_frame(ColorChannel::RedYellow, &[0xCC])),
        vec![WireRecord::Command(0x13), WireRecord::Data(vec![0xCC])]
    );
    assert_eq!(
        wire(controller.write_frame_pattern(ColorChannel::BlackWhite, 0x00, 2)),
        vec![WireRecord::Command(0x10), WireRecord::Data(vec![0x00, 0x00])]
    );

    let mut default_variant = Uc8253Controller::new(GDEY037T03::WIDTH, GDEY037T03::HEIGHT);
    assert_eq!(default_variant.variant(), Uc8253Variant::Gdey037t03);
    assert_eq!(
        wire(default_variant.write_frame(ColorChannel::BlackWhite, &[0xAA])),
        vec![WireRecord::Command(0x13), WireRecord::Data(vec![0xAA])]
    );
}

#[test]
fn test_uc8253_se0352n14_trigger_refresh_ignores_refresh_mode() {
    for mode in [
        Uc8253RefreshMode::Full,
        Uc8253RefreshMode::FastFull,
        Uc8253RefreshMode::Partial,
        Uc8253RefreshMode::FastPartial,
    ] {
        let mut controller = Uc8253Controller::new(SE0352N14TNGA0::WIDTH, SE0352N14TNGA0::HEIGHT)
            .with_variant(Uc8253Variant::Se0352n14)
            .with_refresh_mode(mode);
        assert_eq!(
            wire(controller.trigger_refresh()),
            vec![WireRecord::Command(0x04), WireRecord::Command(0x12)],
            "refresh mode {mode:?} leaked commands into the SE0352N14 refresh"
        );
    }
}

#[test]
fn test_uc8253_se0352n14_driver_smoke() {
    let controller = Uc8253Controller::new(SE0352N14TNGA0::WIDTH, SE0352N14TNGA0::HEIGHT)
        .with_variant(Uc8253Variant::Se0352n14);
    let mut driver = EpdBuilder::<_, SE0352N14TNGA0>::new(controller).build(());
    assert_eq!(driver.width(), 240);
    assert_eq!(driver.height(), 360);
    let init = driver.init();
    assert_eq!(init[0], BusOp::HardReset(30));
    assert_eq!(
        wire(driver.clear_frame(ColorChannel::BlackWhite, 0x00))[0],
        WireRecord::Command(0x10)
    );
    assert_eq!(
        wire(driver.clear_frame(ColorChannel::RedYellow, 0x00))[0],
        WireRecord::Command(0x13)
    );
    let refresh = driver.refresh();
    assert!(refresh.contains(&BusOp::DelayMs(100)));
    let _ = driver.sleep();
}

#[test]
fn test_wait_busy_assert_waits_for_a_late_assertion() {
    // Active-low BUSY that reads idle (high) for 25 polls, then busy.
    let mut polls = 0u32;
    let (asserted, waited) = run_assert_wait(false, 500, || {
        let now = polls;
        polls += 1;
        now < 25
    });
    assert!(asserted, "gave up before BUSY asserted");
    assert!(waited >= 25, "returned after {waited} ms, before the panel asserted at 25 ms");
}

#[test]
fn test_wait_busy_assert_times_out_on_a_silent_panel() {
    let (asserted, waited) = run_assert_wait(false, 50, || true);
    assert!(!asserted, "claimed BUSY asserted on a silent panel");
    assert_eq!(waited, 50, "did not honour the timeout");
}

#[test]
fn test_uc8253_fast_update_restores_panel_setting_with_settling_delay() {
    let mut controller = Uc8253Controller::new(GDEY037T03::WIDTH, GDEY037T03::HEIGHT)
        .with_refresh_mode(Uc8253RefreshMode::FastPartial);
    let ops = controller.trigger_refresh();
    let records = wire(ops.clone());
    let tail = &records[records.len() - 4..];
    assert_eq!(
        tail,
        &[
            WireRecord::Command(0x00),
            WireRecord::Data(vec![0x1E, 0x0D]),
            WireRecord::Command(0x00),
            WireRecord::Data(vec![0x1F, 0x0D]),
        ]
    );
    let delay: u32 = ops
        .iter()
        .map(|op| match op {
            BusOp::DelayMs(ms) => *ms,
            _ => 0,
        })
        .sum();
    assert!(delay >= 1, "no settling delay between the soft reset and its release");
}
