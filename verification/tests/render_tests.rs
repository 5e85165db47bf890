use asciicam::RenderError;
use asciicam::fps::FpsCounter;
use asciicam::frame::GrayFrame;
use asciicam::ramp::Ramp;
use asciicam::ramp::luminance_index;
use asciicam::render::compute_target_height;
use asciicam::render::render_frame;

fn ramp_of(s: &str) -> Ramp {
    Ramp::new(s.chars().collect()).unwrap()
}

#[test]
fn index_always_within_ramp() {
    for ramp_len in [2usize, 3, 24, 256] {
        for lum in 0u8..=255 {
            for invert in [false, true] {
                let idx = luminance_index(lum, invert, ramp_len);
                assert!(idx < ramp_len);
            }
        }
    }
}

#[test]
fn index_extremes_map_to_ramp_ends() {
    for ramp_len in [2usize, 24] {
        assert_eq!(luminance_index(0, false, ramp_len), 0);
        assert_eq!(luminance_index(255, false, ramp_len), ramp_len - 1);
        assert_eq!(luminance_index(0, true, ramp_len), ramp_len - 1);
        assert_eq!(luminance_index(255, true, ramp_len), 0);
    }
}

#[test]
fn mid_gray_rounding_boundary() {
    // 128/255 * 1 = 0.502..., which rounds up to index 1;
    // 127/255 * 1 = 0.498..., which rounds down to index 0.
    assert_eq!(luminance_index(128, false, 2), 1);
    assert_eq!(luminance_index(127, false, 2), 0);
}

#[test]
fn target_height_follows_aspect() {
    // 200x100 source (aspect 0.5), width 100: round(100 * 0.5 * 0.55) = 28.
    assert_eq!(compute_target_height(100, 200, 100), Ok(28));
}

#[test]
fn target_height_rounds_ties_up() {
    // 100x110 source, width 100: round(100 * 1.1 * 0.55) = round(60.5) = 61.
    assert_eq!(compute_target_height(100, 100, 110), Ok(61));
}

#[test]
fn target_height_rejects_zero_width() {
    assert_eq!(compute_target_height(0, 200, 100), Err(RenderError::InvalidDimension));
}

#[test]
fn target_height_rejects_overflowing_height() {
    assert_eq!(
        compute_target_height(u32::MAX, 1, u32::MAX),
        Err(RenderError::OutputTooLarge)
    );
}

#[test]
fn mid_gray_frame_renders_all_spaces() {
    let ramp = ramp_of("@ ");
    let grid = GrayFrame::new(2, 2, vec![128, 128, 128, 128]).unwrap();
    let s = render_frame(&grid, &ramp, false);
    assert_eq!(s, "  \n  \n");
}

#[test]
fn below_boundary_frame_renders_all_dark() {
    let ramp = ramp_of("@ ");
    let grid = GrayFrame::new(1, 1, vec![127]).unwrap();
    let s = render_frame(&grid, &ramp, false);
    assert_eq!(s, "@\n");
}

#[test]
fn render_rows_and_inversion() {
    let ramp = ramp_of("@ ");
    let grid = GrayFrame::new(3, 2, vec![0, 128, 255, 255, 128, 0]).unwrap();
    assert_eq!(render_frame(&grid, &ramp, false), "@  \n  @\n");
    assert_eq!(render_frame(&grid, &ramp, true), " @@\n@@ \n");
}

#[test]
fn render_line_shape() {
    let ramp = ramp_of("@#. ");
    let mut pixels = Vec::new();
    for i in 0..35u32 {
        pixels.push((i * 7 % 256) as u8);
    }
    let grid = GrayFrame::new(7, 5, pixels).unwrap();
    let s = render_frame(&grid, &ramp, false);
    let lines: Vec<&str> = s.split_terminator('\n').collect();
    assert_eq!(lines.len(), 5);
    for line in lines {
        assert_eq!(line.chars().count(), 7);
    }
}

#[test]
fn ramp_needs_two_glyphs() {
    assert!(Ramp::new(vec![]).is_err());
    assert!(Ramp::new(vec!['@']).is_err());
    match Ramp::new(vec!['@']) {
        Err(e) => assert_eq!(e, RenderError::RampTooShort),
        Ok(_) => panic!("a one-glyph ramp must be rejected"),
    }
    let ramp = Ramp::new(vec!['@', '.', ' ']).unwrap();
    assert_eq!(ramp.len(), 3);
    assert_eq!(ramp.chars, vec!['@', '.', ' ']);
}

#[test]
fn gray_frame_rejects_bad_shapes() {
    assert_eq!(
        GrayFrame::new(0, 2, vec![]).unwrap_err(),
        RenderError::InvalidDimension
    );
    assert_eq!(
        GrayFrame::new(2, 2, vec![0, 0, 0]).unwrap_err(),
        RenderError::InvalidDimension
    );
    assert!(GrayFrame::new(2, 0, vec![]).is_ok());
}

#[test]
fn fps_counter_rounds_to_tenths() {
    let mut counter = FpsCounter::new(0);
    // Half a second per frame: 2.0 frames per second, 20 tenths.
    assert_eq!(counter.tick(500_000_000), 20);
    // 0.3 s more: 33.33... tenths rounds to 33.
    assert_eq!(counter.tick(800_000_000), 33);
    assert_eq!(counter.last_nanos, 800_000_000);
}
