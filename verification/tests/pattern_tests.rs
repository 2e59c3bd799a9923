use lepton::oem::VideoOutputSource;
use lepton::pattern::{
    pixel_at, validate_constant, validate_pattern, validate_pattern_swapped, validate_ramp_h,
    validate_ramp_v, Finding, PatternReport,
};

fn frame_of(rows: usize, cols: usize, value: impl Fn(usize, usize) -> u16) -> Vec<u8> {
    let mut frame = Vec::new();
    for row in 0..rows {
        for col in 0..cols {
            frame.extend_from_slice(&value(row, col).to_be_bytes());
        }
    }
    frame
}

#[test]
fn pixel_is_fourteen_bits_big_endian_or_swapped() {
    let frame = [0x12, 0x34, 0xFF, 0xFF, 0x40, 0x01, 0xAB, 0xCD];
    assert_eq!(pixel_at(&frame, 2, 0, 0, false), 0x1234);
    assert_eq!(pixel_at(&frame, 2, 0, 1, false), 0x3FFF);
    assert_eq!(pixel_at(&frame, 2, 1, 0, false), 0x0001);
    assert_eq!(pixel_at(&frame, 2, 1, 1, false), 0x2BCD);
    assert_eq!(pixel_at(&frame, 2, 0, 0, true), 0x3412);
    assert_eq!(pixel_at(&frame, 2, 1, 0, true), 0x0140);
    assert_eq!(pixel_at(&frame, 2, 1, 1, true), 0x0DAB);
}

#[test]
fn constant_pattern_passes_within_a_spread_of_two() {
    let frame = frame_of(3, 4, |row, col| 0x1234 + ((row + col) % 3) as u16);
    assert_eq!(
        validate_constant(&frame, false, 4, 3),
        PatternReport {
            ok: true,
            finding: Finding::ConstantSpread { spread: 2, min: 0x1234, max: 0x1236 },
            second: None,
        }
    );
    let frame = frame_of(3, 4, |row, col| 0x1234 + ((row + col) % 4) as u16);
    assert_eq!(
        validate_constant(&frame, false, 4, 3),
        PatternReport {
            ok: false,
            finding: Finding::ConstantSpread { spread: 3, min: 0x1234, max: 0x1237 },
            second: None,
        }
    );
}

#[test]
fn constant_pattern_ignores_bytes_behind_the_geometry() {
    let mut frame = frame_of(2, 2, |_, _| 0x0100);
    frame.extend_from_slice(&[0x3F, 0xFF, 0x00, 0x00]);
    assert_eq!(
        validate_constant(&frame, false, 2, 2).finding,
        Finding::ConstantSpread { spread: 0, min: 0x0100, max: 0x0100 }
    );
    // with the bytes swapped every pixel reads 0x0001
    assert_eq!(
        validate_constant(&frame, true, 2, 2).finding,
        Finding::ConstantSpread { spread: 0, min: 0x0001, max: 0x0001 }
    );
}

#[test]
fn geometry_is_checked_before_the_pixels() {
    let frame = vec![0u8; 10];
    let empty = PatternReport {
        ok: false,
        finding: Finding::InvalidGeometry { rows: 3, cols: 0 },
        second: None,
    };
    assert_eq!(validate_constant(&frame, false, 0, 3), empty);
    assert_eq!(validate_ramp_h(&frame, false, 0, 3), empty);
    assert_eq!(validate_ramp_v(&frame, false, 0, 3), empty);
    let short = PatternReport {
        ok: false,
        finding: Finding::PayloadTooSmall { got: 10, need: 12 },
        second: None,
    };
    assert_eq!(validate_constant(&frame, false, 2, 3), short);
    assert_eq!(validate_ramp_h(&frame, false, 2, 3), short);
    assert_eq!(validate_ramp_v(&frame, true, 2, 3), short);
    assert_eq!(
        validate_constant(&frame, false, usize::MAX, 2).finding,
        Finding::PayloadTooSmall { got: 10, need: usize::MAX }
    );
}

#[test]
fn horizontal_ramp_counts_rising_rows() {
    let frame = frame_of(10, 4, |_, col| col as u16);
    assert_eq!(
        validate_ramp_h(&frame, false, 4, 10),
        PatternReport {
            ok: true,
            finding: Finding::RampRows { passing: 10, sampled: 10 },
            second: None,
        }
    );
    // two flat rows of ten: eight in ten still pass
    let frame = frame_of(10, 4, |row, col| if row < 2 { 7 } else { col as u16 });
    assert_eq!(
        validate_ramp_h(&frame, false, 4, 10),
        PatternReport {
            ok: true,
            finding: Finding::RampRows { passing: 8, sampled: 10 },
            second: None,
        }
    );
    // three flat rows: seven in ten do not
    let frame = frame_of(10, 4, |row, col| if row < 3 { 7 } else { col as u16 });
    assert_eq!(
        validate_ramp_h(&frame, false, 4, 10),
        PatternReport {
            ok: false,
            finding: Finding::RampRows { passing: 7, sampled: 10 },
            second: None,
        }
    );
}

#[test]
fn ramps_sample_at_most_twenty_four_lines() {
    let frame = frame_of(240, 80, |row, col| (row + col) as u16);
    assert_eq!(
        validate_ramp_h(&frame, false, 80, 240).finding,
        Finding::RampRows { passing: 24, sampled: 24 }
    );
    assert_eq!(
        validate_ramp_v(&frame, false, 80, 240).finding,
        Finding::RampCols { passing: 24, sampled: 24 }
    );
    // only sampled rows count: rows 0, 10, 20, ... of 240
    let frame = frame_of(240, 80, |row, col| if row % 10 == 0 { 0 } else { col as u16 });
    assert_eq!(
        validate_ramp_h(&frame, false, 80, 240),
        PatternReport {
            ok: false,
            finding: Finding::RampRows { passing: 0, sampled: 24 },
            second: None,
        }
    );
}

#[test]
fn vertical_ramp_counts_rising_columns() {
    let frame = frame_of(5, 5, |row, col| if col == 4 { 9 } else { row as u16 });
    assert_eq!(
        validate_ramp_v(&frame, false, 5, 5),
        PatternReport {
            ok: true,
            finding: Finding::RampCols { passing: 4, sampled: 5 },
            second: None,
        }
    );
    let frame = frame_of(5, 5, |row, col| if col >= 3 { 9 } else { row as u16 });
    assert!(!validate_ramp_v(&frame, false, 5, 5).ok);
}

#[test]
fn diagonal_ramp_needs_both_ramps() {
    let both = frame_of(6, 6, |row, col| (row + col) as u16);
    assert_eq!(
        validate_pattern(&both, VideoOutputSource::Ramp, 6, 6),
        PatternReport {
            ok: true,
            finding: Finding::RampRows { passing: 6, sampled: 6 },
            second: Some(Finding::RampCols { passing: 6, sampled: 6 }),
        }
    );
    let only_h = frame_of(6, 6, |_, col| col as u16);
    assert_eq!(
        validate_pattern(&only_h, VideoOutputSource::Ramp, 6, 6),
        PatternReport {
            ok: false,
            finding: Finding::RampRows { passing: 6, sampled: 6 },
            second: Some(Finding::RampCols { passing: 0, sampled: 6 }),
        }
    );
}

#[test]
fn scene_sources_are_no_patterns() {
    let frame = frame_of(2, 2, |_, _| 1);
    let unsupported = PatternReport { ok: false, finding: Finding::Unsupported, second: None };
    assert_eq!(validate_pattern(&frame, VideoOutputSource::Raw, 2, 2), unsupported);
    assert_eq!(validate_pattern_swapped(&frame, VideoOutputSource::Cooked, 2, 2), unsupported);
}

#[test]
fn swapped_check_reads_the_bytes_the_other_way() {
    // a ramp in the second byte of each pixel: falls as it stands, rises swapped
    let mut frame = Vec::new();
    for _row in 0..4 {
        for col in 0..4u16 {
            frame.extend_from_slice(&[(3 - col) as u8, col as u8]);
        }
    }
    assert!(!validate_pattern(&frame, VideoOutputSource::RampH, 4, 4).ok);
    assert!(validate_pattern_swapped(&frame, VideoOutputSource::RampH, 4, 4).ok);
}
