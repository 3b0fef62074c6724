use epdsi::bus::{
    BusOp, EpdBusError, IdleWait, ValidationError, WaitStep, WireRecord, transcript,
    DELAY_RETRY_LIMIT,
};
use epdsi::controllers::{Ed2208Controller, Ssd1681Controller, Uc8253Controller};
use epdsi::driver::EpdBuilder;
use epdsi::graphics::buffer::PageBuffer;
use epdsi::graphics::paged::{page_count, page_geometry, PageSweep};
use epdsi::panels::{GDEM0154Z90, GDEM0213B74, GDEP073E01, SE0352N14TNGA0, ZJY122250_0213AJH_E5};
use epdsi::traits::{ColorChannel, EpdController, EpdPanel, SevenColor};
use epdsi::controllers::Ssd1680Controller;
use epdsi::controllers::Jd79661Controller;

fn wire(ops: Vec<BusOp>) -> Vec<WireRecord> {
    transcript(&ops)
}

#[test]
fn set_window_refuses_inverted_and_out_of_panel_windows() {
    let controller = Ssd1681Controller::new(200, 200);
    let mut driver = EpdBuilder::<_, GDEM0154Z90>::new(controller).build(());
    assert_eq!(driver.set_window(10, 0, 9, 10), Err(ValidationError::InvalidWindow));
    assert_eq!(driver.set_window(0, 10, 10, 9), Err(ValidationError::InvalidWindow));
    assert_eq!(driver.set_window(0, 0, 200, 10), Err(ValidationError::InvalidWindow));
    assert_eq!(driver.set_window(0, 0, 10, 200), Err(ValidationError::InvalidWindow));
    let ops = driver.set_window(8, 0, 199, 199).expect("window inside the panel");
    assert_eq!(
        wire(ops),
        vec![
            WireRecord::Command(0x44),
            WireRecord::Data(vec![0x01, 0x18]),
            WireRecord::Command(0x45),
            WireRecord::Data(vec![0x00, 0x00, 0xC7, 0x00]),
        ]
    );
}

#[test]
fn write_frame_refuses_a_short_buffer_for_the_active_window() {
    let controller = Ssd1680Controller::new(122, 250);
    let mut driver = EpdBuilder::<_, GDEM0213B74>::new(controller).build(());
    // Full panel: 16 bytes per row (122 px rounded up) x 250 rows.
    let short = vec![0xFFu8; 16 * 250 - 1];
    assert_eq!(
        driver.write_frame(ColorChannel::BlackWhite, &short),
        Err(ValidationError::BufferTooSmall { required: 4000, provided: 3999 })
    );
    // After narrowing the window to 8 rows of 122 px, 128 bytes suffice.
    assert!(driver.set_window(0, 0, 121, 7).is_ok());
    let page = vec![0x00u8; 128];
    let ops = driver.write_frame(ColorChannel::BlackWhite, &page).expect("buffer is large enough");
    assert_eq!(wire(ops), vec![WireRecord::Command(0x24), WireRecord::Data(page.clone())]);
    // A refused window leaves the active one in place.
    assert!(driver.set_window(0, 0, 500, 7).is_err());
    assert!(driver.write_frame(ColorChannel::BlackWhite, &page).is_ok());
}

#[test]
fn display_frame_writes_then_refreshes() {
    let mut driver = EpdBuilder::<_, GDEM0213B74>::new(Ssd1680Controller::new(122, 250)).build(());
    let frame = vec![0xAAu8; 16 * 250];
    let shown = driver.display_frame(ColorChannel::BlackWhite, &frame).expect("a full frame");
    let mut expected = driver.write_frame(ColorChannel::BlackWhite, &frame).expect("a full frame");
    expected.extend(driver.refresh());
    assert_eq!(shown, expected);
    assert_eq!(wire(shown)[..2], [WireRecord::Command(0x24), WireRecord::Data(frame.clone())]);
    assert_eq!(
        driver.display_frame(ColorChannel::BlackWhite, &frame[..10]),
        Err(ValidationError::BufferTooSmall { required: 4000, provided: 10 })
    );
}

#[test]
fn write_frame_sizes_seven_colour_and_quad_colour_buffers() {
    let mut driver = EpdBuilder::<_, GDEP073E01>::new(Ed2208Controller::new(800, 480)).build(());
    assert_eq!(
        driver.write_frame(ColorChannel::Color7(0), &[0u8; 10]),
        Err(ValidationError::BufferTooSmall { required: 800 * 480 / 2, provided: 10 })
    );
    let mut quad =
        EpdBuilder::<_, ZJY122250_0213AJH_E5>::new(Jd79661Controller::new(122, 250)).build(());
    assert_eq!(
        quad.write_frame(ColorChannel::BlackWhite, &[0u8; 10]),
        Err(ValidationError::BufferTooSmall { required: 31 * 250, provided: 10 })
    );
}

#[test]
fn validation_errors_become_transport_errors() {
    let e: EpdBusError<(), (), (), ()> = ValidationError::InvalidWindow.into();
    assert_eq!(e, EpdBusError::InvalidWindow);
    let e: EpdBusError<(), (), (), ()> =
        ValidationError::BufferTooSmall { required: 5, provided: 2 }.into();
    assert_eq!(e, EpdBusError::BufferTooSmall { required: 5, provided: 2 });
}

#[test]
fn clear_frame_counts_bytes_by_colour_mode() {
    let mut mono = EpdBuilder::<_, GDEM0213B74>::new(Ssd1680Controller::new(122, 250)).build(());
    assert_eq!(
        mono.clear_frame(ColorChannel::BlackWhite, 0xFF),
        vec![BusOp::Command(0x24), BusOp::DataRepeated(0xFF, 16 * 250)]
    );
    let mut tri = EpdBuilder::<_, SE0352N14TNGA0>::new(Uc8253Controller::new(240, 360)).build(());
    assert_eq!(
        tri.clear_frame(ColorChannel::BlackWhite, 0x00),
        vec![BusOp::Command(0x13), BusOp::DataRepeated(0x00, 30 * 360)]
    );
}

#[test]
fn pages_tile_the_panel() {
    let height = 250u32;
    let page_height = 16u32;
    let n = page_count(height, page_height);
    assert_eq!(n, 16);
    let mut next_row = 0u32;
    for page in 0..n {
        let g = page_geometry(122, height, page_height, page);
        assert_eq!(g.y_start, next_row);
        assert!(g.rows <= page_height);
        assert_eq!(g.required_bytes, 16 * g.rows as usize);
        next_row = g.y_end + 1;
    }
    assert_eq!(next_row, height);
    let last = page_geometry(122, height, page_height, n - 1);
    assert_eq!((last.y_start, last.y_end, last.rows), (240, 249, 10));
}

#[test]
fn page_sweep_hands_out_each_band_once_in_order() {
    let mut sweep = PageSweep::new(122, 250, 16).expect("the sweep fits");
    let mut bands = Vec::new();
    while let Some(g) = sweep.next_page() {
        bands.push(g);
    }
    assert_eq!(bands.len(), 16);
    for (page, band) in bands.iter().enumerate() {
        assert_eq!(*band, page_geometry(122, 250, 16, page as u32));
    }
    assert_eq!((bands[15].y_start, bands[15].y_end, bands[15].rows), (240, 249, 10));
    assert_eq!(bands[0].required_bytes, 16 * 16);
    assert_eq!(sweep.next_page(), None);
}

#[test]
fn page_sweep_refuses_empty_bands_and_overflowing_rows() {
    assert!(PageSweep::new(200, 200, 0).is_none());
    // The row after the last full band would pass u32::MAX.
    assert!(PageSweep::new(8, u32::MAX, 2).is_none());
    // A band taller than the panel is one band of the whole panel.
    let mut sweep = PageSweep::new(200, 200, 1000).expect("the sweep fits");
    let only = sweep.next_page().expect("one band");
    assert_eq!((only.y_start, only.y_end, only.rows, only.required_bytes), (0, 199, 200, 25 * 200));
    assert_eq!(sweep.next_page(), None);
}

#[test]
fn paged_rendering_writes_each_band_into_its_window() {
    // The sweep the transport runs: per band, clear a page buffer, draw, select the band's
    // window and cursor, write the band.
    let mut driver = EpdBuilder::<_, GDEM0154Z90>::new(Ssd1681Controller::new(200, 200)).build(());
    let mut page_buffer = [0u8; 200 * 20 / 8];
    let mut writes = 0;
    for page in 0..page_count(200, 20) {
        let g = page_geometry(200, 200, 20, page);
        let band = &mut page_buffer[..g.required_bytes];
        let mut buf = PageBuffer::new(band, 200, g.rows, g.y_start);
        buf.clear_byte(0xFF);
        buf.set_pixel(10, buf.y_offset() + 5, true);
        let window = driver.set_window(0, g.y_start, 199, g.y_end).expect("band is inside the panel");
        assert!(!window.is_empty());
        let _ = driver.set_cursor(0, g.y_start);
        let ops = driver.write_frame(ColorChannel::BlackWhite, buf.as_slice()).expect("band fits");
        let records = wire(ops);
        assert_eq!(records[0], WireRecord::Command(0x24));
        match &records[1] {
            WireRecord::Data(d) => {
                assert_eq!(d.len(), 25 * 20);
                assert_eq!(d[5 * 25 + 1], 0xDF);
            },
            other => panic!("expected the band's bytes, got {other:?}"),
        }
        writes += 1;
    }
    assert_eq!(writes, 10);
}

#[test]
fn idle_wait_gives_up_after_its_cap() {
    let mut wait = IdleWait::with_delay(true);
    let mut pauses = 0u64;
    loop {
        match wait.observe(true) {
            WaitStep::Finished => panic!("a busy reading never finishes the wait before its cap"),
            WaitStep::PollAgainAfter(ms) => {
                assert_eq!(ms, 1);
                pauses += 1;
            },
            WaitStep::GiveUpAfter(ms) => {
                assert_eq!(ms, 1);
                pauses += 1;
                break;
            },
        }
    }
    // One pause for every busy poll, the last one for the poll that exceeds the cap.
    assert_eq!(pauses, DELAY_RETRY_LIMIT + 1);
    assert_eq!(wait.observe(true), WaitStep::Finished);
    let mut idle = IdleWait::spin(false);
    assert_eq!(idle.observe(true), WaitStep::Finished);
}

#[test]
fn idle_wait_finishes_on_the_first_idle_reading() {
    let mut wait = IdleWait::new(true, 5, 3);
    assert_eq!(wait.observe(true), WaitStep::PollAgainAfter(5));
    assert_eq!(wait.observe(true), WaitStep::PollAgainAfter(5));
    assert_eq!(wait.observe(false), WaitStep::Finished);
    let mut capped = IdleWait::new(false, 0, 1);
    assert_eq!(capped.observe(false), WaitStep::PollAgainAfter(0));
    assert_eq!(capped.observe(false), WaitStep::GiveUpAfter(0));
}

#[test]
fn seven_color_codes_pack_high_nibble_first() {
    assert_eq!(SevenColor::pack(SevenColor::Black, SevenColor::Clean), 0x07);
    assert_eq!(SevenColor::pack(SevenColor::Green, SevenColor::Red), 0x63);
    assert_eq!(SevenColor::Orange.code(), 4);
}

#[test]
fn repeated_fills_are_written_in_64_byte_chunks() {
    let records = transcript(&vec![BusOp::DataRepeated(0x5A, 129), BusOp::Data(vec![]), BusOp::DelayMs(5)]);
    assert_eq!(
        records,
        vec![
            WireRecord::Data(vec![0x5A; 64]),
            WireRecord::Data(vec![0x5A; 64]),
            WireRecord::Data(vec![0x5A; 1]),
        ]
    );
}

#[test]
fn test_jd79661_full_driver_flow_does_not_error() {
    let controller =
        Jd79661Controller::new(ZJY122250_0213AJH_E5::WIDTH, ZJY122250_0213AJH_E5::HEIGHT);
    let mut driver = EpdBuilder::<_, ZJY122250_0213AJH_E5>::new(controller).build(());
    let mut flow = driver.init();
    flow.extend(driver.clear_frame(ColorChannel::BlackWhite, 0x00));
    flow.extend(driver.refresh());
    flow.extend(driver.sleep());
    assert!(!wire(flow).is_empty());
}

#[test]
fn test_ed2208_full_driver_flow_does_not_error() {
    let controller = Ed2208Controller::new(GDEP073E01::WIDTH, GDEP073E01::HEIGHT);
    let mut driver = EpdBuilder::<_, GDEP073E01>::new(controller).build(());
    let mut flow = driver.init();
    let white_packed = SevenColor::pack(SevenColor::White, SevenColor::White);
    flow.extend(driver.clear_frame(ColorChannel::Color7(0), white_packed));
    flow.extend(driver.refresh());
    flow.extend(driver.sleep());
    assert!(!wire(flow).is_empty());
}

#[test]
fn controllers_report_what_they_can_plan() {
    let ssd1677 = epdsi::controllers::Ssd1677Controller::new(800, 480);
    assert!(ssd1677.can_init());
    assert!(ssd1677.can_set_cursor(0, 479));
    assert!(!ssd1677.can_set_cursor(0, 480));
    assert!(!ssd1677.can_set_window(0, 10, 799, 5));
    assert!(!epdsi::controllers::Ssd1677Controller::new(0, 480).can_init());
    let ed2208 = Ed2208Controller::new(800, 480);
    assert!(ed2208.can_set_window(0, 0, 799, 479));
    assert!(!ed2208.can_set_window(0, 0, u32::MAX, 479));
    assert!(ed2208.can_refresh());
    assert!(!Ed2208Controller::new(0, 480).can_refresh());
    assert!(!epdsi::controllers::Jd7966xController::new_jd79661(u32::MAX, 250).can_init());
    let driver = EpdBuilder::<_, GDEP073E01>::new(Ed2208Controller::new(800, 480)).build(());
    assert!(driver.can_clear_frame(0x11));
    assert_eq!((driver.width(), driver.height()), (GDEP073E01::WIDTH, GDEP073E01::HEIGHT));
}
