use epdsi::graphics::buffer::{DisplayRotation, PageBuffer, PageBufferPair, PlanePolarity, TriColor};

/// The polarity the pair tests draw with: a cleared bit is ink on both planes.
fn cleared_bit_is_ink() -> PlanePolarity {
    PlanePolarity { bw_ink_is_set_bit: false, accent_ink_is_set_bit: false }
}

#[test]
fn stride_rounds_up_for_non_byte_aligned_width() {
    let mut data = [0xFFu8; 16 * 4];
    let buffer = PageBuffer::new(&mut data, 122, 4, 0);
    assert_eq!(buffer.stride(), 16);
    assert_eq!(buffer.width(), 122, "visible width must stay unpadded");
}

#[test]
fn stride_is_unchanged_for_byte_aligned_width() {
    let mut data = [0xFFu8; 25 * 4];
    let buffer = PageBuffer::new(&mut data, 200, 4, 0);
    assert_eq!(buffer.stride(), 25);
}

#[test]
fn rows_start_on_byte_boundaries_when_width_is_not_aligned() {
    let mut data = [0xFFu8; 16 * 4];
    {
        let mut buffer = PageBuffer::new(&mut data, 122, 4, 0);
        for y in 0..4 {
            buffer.set_pixel(0, y, true);
        }
    }
    for (row, chunk) in data.chunks(16).enumerate() {
        assert_eq!(chunk[0], 0x7F, "row {row} pixel 0 landed at the wrong offset");
        assert!(chunk[1..].iter().all(|&b| b == 0xFF), "row {row} smeared");
    }
}

#[test]
fn pixels_beyond_visible_width_are_clipped() {
    let mut data = [0xFFu8; 16 * 4];
    {
        let mut buffer = PageBuffer::new(&mut data, 122, 4, 0);
        buffer.set_pixel(125, 0, true);
    }
    assert!(data.iter().all(|&b| b == 0xFF), "a pixel outside the visible width was written");
}

#[test]
fn y_offset_maps_band_coordinates_with_padded_stride() {
    let mut data = [0xFFu8; 16 * 4];
    {
        let mut buffer = PageBuffer::new(&mut data, 122, 4, 100);
        // Panel row 102 is local row 2 of this band.
        buffer.set_pixel(0, 102, true);
    }
    assert_eq!(data[2 * 16], 0x7F);
    assert_eq!(data[0], 0xFF);
}

#[test]
fn rotate180_maps_origin_to_final_pixel() {
    const W: u32 = 240;
    const H: u32 = 416;
    const STRIDE: usize = 30;
    let mut data = vec![0xFFu8; STRIDE * H as usize];
    {
        let mut buffer = PageBuffer::new(&mut data, W, H, 0);
        buffer.set_rotation(DisplayRotation::Rotate180);
        buffer.set_pixel(0, 0, true);
    }
    let last = STRIDE * H as usize - 1;
    assert_eq!(data[last], 0xFE, "(0,0) did not land at the last pixel");
    assert!(data[..last].iter().all(|&b| b == 0xFF), "something else was written");
}

#[test]
fn rotate180_matches_explicit_blit() {
    const W: u32 = 240;
    const H: u32 = 416;
    const STRIDE: usize = 30;
    const N: usize = STRIDE * H as usize;

    fn pattern(buf: &mut PageBuffer) {
        for y in 4..20u32 {
            for x in 4..20u32 {
                buf.set_pixel(x, y, true);
            }
        }
        for x in 0..120u32 {
            buf.set_pixel(x, 0, true);
        }
        for y in 0..200u32 {
            buf.set_pixel(0, y, true);
        }
    }

    let mut a = vec![0xFFu8; N];
    {
        let mut buf = PageBuffer::new(&mut a, W, H, 0);
        buf.set_rotation(DisplayRotation::Rotate180);
        pattern(&mut buf);
    }
    let mut tmp = vec![0xFFu8; N];
    {
        let mut buf = PageBuffer::new(&mut tmp, W, H, 0);
        pattern(&mut buf);
    }
    let mut b = vec![0xFFu8; N];
    {
        let mut buf = PageBuffer::new(&mut b, W, H, 0);
        for y in 0..H {
            for x in 0..W {
                let idx = y as usize * STRIDE + (x / 8) as usize;
                let bit = 7 - (x % 8);
                if tmp[idx] & (1 << bit) == 0 {
                    buf.set_pixel(W - 1 - x, H - 1 - y, true);
                }
            }
        }
    }
    let first_diff = a.iter().zip(b.iter()).position(|(x, y)| x != y);
    assert_eq!(first_diff, None, "Rotate180 diverges from an explicit blit at byte {first_diff:?}");
}

#[test]
fn each_color_writes_only_its_own_plane() {
    let mut bw = [0xFFu8; 4];
    let mut accent = [0xFFu8; 4];
    {
        let mut pair = PageBufferPair::new(&mut bw, &mut accent, 32, 1, 0, cleared_bit_is_ink());
        pair.set_pixel(0, 0, TriColor::Black);
        pair.set_pixel(1, 0, TriColor::Accent);
        pair.set_pixel(2, 0, TriColor::White);
    }
    assert_eq!(bw[0] & 0x80, 0x00);
    assert_eq!(accent[0] & 0x80, 0x80);
    assert_eq!(bw[0] & 0x40, 0x40);
    assert_eq!(accent[0] & 0x40, 0x00);
    assert_eq!(bw[0] & 0x20, 0x20);
    assert_eq!(accent[0] & 0x20, 0x20);
}

#[test]
fn redrawing_a_pixel_clears_the_previous_colors_plane() {
    let mut bw = [0xFFu8; 4];
    let mut accent = [0xFFu8; 4];
    {
        let mut pair = PageBufferPair::new(&mut bw, &mut accent, 32, 1, 0, cleared_bit_is_ink());
        pair.set_pixel(0, 0, TriColor::Accent);
        pair.set_pixel(0, 0, TriColor::Black);
    }
    assert_eq!(bw[0] & 0x80, 0x00, "black bit should be set on bw plane");
    assert_eq!(accent[0] & 0x80, 0x80, "accent plane must be cleared back to background");
}

#[test]
fn draw_target_routes_pixels_to_the_correct_plane() {
    let mut bw = [0xFFu8; 4];
    let mut accent = [0xFFu8; 4];
    {
        let mut pair = PageBufferPair::new(&mut bw, &mut accent, 32, 1, 0, cleared_bit_is_ink());
        pair.draw_pixel(1, 0, TriColor::Accent);
    }
    assert_eq!(accent[0] & 0x40, 0x00);
    assert_eq!(bw[0] & 0x40, 0x40);
}

#[test]
fn drawn_pixels_left_of_or_above_the_origin_are_dropped() {
    let mut data = [0xFFu8; 4];
    {
        let mut buffer = PageBuffer::new(&mut data, 32, 1, 0);
        buffer.draw_pixel(-1, 0, true);
        buffer.draw_pixel(0, -1, true);
        buffer.draw_pixel(i32::MIN, i32::MIN, true);
    }
    assert_eq!(data, [0xFF; 4]);
    {
        let mut buffer = PageBuffer::new(&mut data, 32, 1, 0);
        buffer.draw_pixel(9, 0, true);
    }
    assert_eq!(data, [0xFF, 0xBF, 0xFF, 0xFF]);
    let mut bw = [0xFFu8; 4];
    let mut accent = [0xFFu8; 4];
    {
        let mut pair = PageBufferPair::new(&mut bw, &mut accent, 32, 1, 0, cleared_bit_is_ink());
        pair.draw_pixel(-3, 0, TriColor::Black);
        pair.draw_pixel(0, 0, TriColor::Black);
    }
    assert_eq!(bw, [0x7F, 0xFF, 0xFF, 0xFF]);
    assert_eq!(accent, [0xFF; 4]);
}

#[test]
fn bounding_box_matches_the_shared_page_geometry() {
    let mut bw = [0xFFu8; 4];
    let mut accent = [0xFFu8; 4];
    let pair = PageBufferPair::new(&mut bw, &mut accent, 32, 4, 8, cleared_bit_is_ink());
    assert_eq!(pair.bw().y_offset(), 8);
    assert_eq!(pair.bw().width(), 32);
    assert_eq!(pair.bw().height(), 4);
    assert_eq!(pair.accent().y_offset(), 8);
}

#[test]
fn plane_polarity_background_bytes() {
    let ssd = PlanePolarity::ssd168x();
    assert_eq!(ssd.bw_background_byte(), 0xFF);
    assert_eq!(ssd.accent_background_byte(), 0x00);
    let uc = PlanePolarity::uc8253();
    assert_eq!(uc.bw_background_byte(), 0x00);
    assert_eq!(uc.accent_background_byte(), 0x00);
}

#[test]
fn ssd168x_polarity_sets_the_accent_bit_for_accent_ink() {
    let mut bw = [0xFFu8; 4];
    let mut accent = [0x00u8; 4];
    {
        let mut pair = PageBufferPair::new(&mut bw, &mut accent, 32, 1, 0, PlanePolarity::ssd168x());
        pair.set_pixel(0, 0, TriColor::Accent);
        pair.set_pixel(1, 0, TriColor::Black);
    }
    assert_eq!(accent[0], 0x80);
    assert_eq!(bw[0], 0xBF);
}

#[test]
fn rotations_90_and_270_map_through_the_band() {
    // Rotate90: (x, y) lands at (width - 1 - y, x); Rotate270: (y, height - 1 - x).
    let mut data = [0xFFu8; 2 * 16];
    {
        let mut buffer = PageBuffer::new(&mut data, 16, 16, 0);
        buffer.set_rotation(DisplayRotation::Rotate90);
        buffer.set_pixel(1, 0, true); // -> (15, 1)
        buffer.set_rotation(DisplayRotation::Rotate270);
        buffer.set_pixel(0, 2, true); // -> (2, 15)
    }
    assert_eq!(data[1 * 2 + 1], 0xFE);
    assert_eq!(data[15 * 2], 0xDF);
}

#[test]
fn clear_byte_fills_the_whole_buffer_and_white_pixels_set_bits() {
    let mut data = [0x00u8; 8];
    {
        let mut buffer = PageBuffer::new(&mut data, 16, 4, 0);
        buffer.clear_byte(0xAA);
        assert!(buffer.as_slice().iter().all(|&b| b == 0xAA));
        buffer.set_pixel(1, 0, false);
        buffer.as_mut_slice()[7] = 0x01;
    }
    assert_eq!(data[0], 0xEA);
    assert_eq!(data[7], 0x01);
}

#[test]
fn clearing_a_pair_resets_each_plane_to_its_own_background() {
    let mut bw = [0x5Au8; 4];
    let mut accent = [0x5Au8; 4];
    {
        let mut pair = PageBufferPair::new(&mut bw, &mut accent, 32, 1, 0, PlanePolarity::ssd168x());
        pair.clear();
    }
    assert_eq!(bw, [0xFF; 4]);
    assert_eq!(accent, [0x00; 4]);
    let mut bw = [0x5Au8; 4];
    let mut accent = [0x5Au8; 4];
    {
        let mut pair = PageBufferPair::new(&mut bw, &mut accent, 32, 1, 0, PlanePolarity::uc8253());
        pair.clear();
        pair.set_pixel(0, 0, TriColor::Black);
    }
    assert_eq!(bw, [0x80, 0x00, 0x00, 0x00]);
    assert_eq!(accent, [0x00; 4]);
}
