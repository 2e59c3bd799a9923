//! Checks of the camera's test patterns against a captured frame.

use vstd::prelude::*;
use crate::oem::VideoOutputSource;

verus! {

/// Bits of a pixel word that hold the 14-bit sample.
pub const PIXEL_MASK: u16 = 0x3FFF;

/// Rows, or columns, that a ramp check samples at most.
pub const RAMP_SAMPLES: usize = 24;

/// The largest spread between the pixels of a constant pattern that still
/// passes.
pub const CONSTANT_SPREAD_MAX: u16 = 2;

/// The sample that two bytes spell: big-endian, or with the bytes swapped.
pub open spec fn sample_of(first: u8, second: u8, swapped: bool) -> u16 {
    if swapped {
        ((second as u16) << 8 | (first as u16)) & PIXEL_MASK
    } else {
        ((first as u16) << 8 | (second as u16)) & PIXEL_MASK
    }
}

/// The `k`-th pixel of a frame.
pub open spec fn nth_pixel(frame: Seq<u8>, k: int, swapped: bool) -> u16 {
    sample_of(frame[2 * k], frame[2 * k + 1], swapped)
}

/// The pixel in row `row` and column `col` of a frame of `cols` columns.
pub open spec fn pixel(frame: Seq<u8>, cols: int, row: int, col: int, swapped: bool) -> u16 {
    nth_pixel(frame, row * cols + col, swapped)
}

/// Bytes that a frame of `rows` by `cols` pixels takes, held at the top of
/// the range of `usize`.
pub open spec fn expected_bytes(rows: usize, cols: usize) -> usize {
    if rows * cols * 2 > usize::MAX {
        usize::MAX
    } else {
        (rows * cols * 2) as usize
    }
}

/// What a check found.
#[derive(Debug, Clone, Copy, PartialEq, Eq)]
pub enum Finding {
    /// The frame has no rows or no columns.
    InvalidGeometry { rows: usize, cols: usize },
    /// The buffer holds fewer bytes than the geometry takes.
    PayloadTooSmall { got: usize, need: usize },
    /// The least and the greatest pixel of a constant pattern.
    ConstantSpread { spread: u16, min: u16, max: u16 },
    /// Of the rows sampled, those that rise from the first to the last
    /// column.
    RampRows { passing: usize, sampled: usize },
    /// Of the columns sampled, those that rise from the top to the bottom
    /// row.
    RampCols { passing: usize, sampled: usize },
    /// The source is no test pattern that the check knows.
    Unsupported,
}

/// The verdict on a pattern, and what it rests on. The check of the
/// diagonal ramp looks at rows and at columns, and has a second finding.
#[derive(Debug, Clone, Copy, PartialEq, Eq)]
pub struct PatternReport {
    pub ok: bool,
    pub finding: Finding,
    pub second: Option<Finding>,
}

/// The geometry, or the length of the buffer, rules a check out.
pub open spec fn geometry_finding(len: nat, rows: usize, cols: usize) -> Option<Finding> {
    if cols == 0 || rows == 0 {
        Some(Finding::InvalidGeometry { rows, cols })
    } else if rows * cols * 2 > usize::MAX || len < rows * cols * 2 {
        Some(Finding::PayloadTooSmall { got: len as usize, need: expected_bytes(rows, cols) })
    } else {
        None
    }
}

/// At least four of five samples pass.
pub open spec fn enough_pass(passing: int, sampled: int) -> bool {
    5 * passing >= 4 * sampled
}

/// The row that the `i`-th of `sampled` samples looks at.
pub open spec fn sampled_index(i: int, total: int, sampled: int) -> int {
    i * total / sampled
}

/// Row `row` rises from its first to its last pixel.
pub open spec fn row_rises(frame: Seq<u8>, swapped: bool, cols: int, row: int) -> bool {
    pixel(frame, cols, row, cols - 1, swapped) > pixel(frame, cols, row, 0, swapped)
}

/// Column `col` rises from the top to the bottom row.
pub open spec fn col_rises(frame: Seq<u8>, swapped: bool, cols: int, rows: int, col: int) -> bool {
    pixel(frame, cols, rows - 1, col, swapped) > pixel(frame, cols, 0, col, swapped)
}

/// Of the first `upto` sampled rows, those that rise.
pub open spec fn rows_rising(
    frame: Seq<u8>,
    swapped: bool,
    cols: int,
    rows: int,
    sampled: int,
    upto: int,
) -> int
    decreases upto,
{
    if upto <= 0 {
        0
    } else {
        rows_rising(frame, swapped, cols, rows, sampled, upto - 1) + if row_rises(
            frame,
            swapped,
            cols,
            sampled_index(upto - 1, rows, sampled),
        ) {
            1int
        } else {
            0int
        }
    }
}

/// Of the first `upto` sampled columns, those that rise.
pub open spec fn cols_rising(
    frame: Seq<u8>,
    swapped: bool,
    cols: int,
    rows: int,
    sampled: int,
    upto: int,
) -> int
    decreases upto,
{
    if upto <= 0 {
        0
    } else {
        cols_rising(frame, swapped, cols, rows, sampled, upto - 1) + if col_rises(
            frame,
            swapped,
            cols,
            rows,
            sampled_index(upto - 1, cols, sampled),
        ) {
            1int
        } else {
            0int
        }
    }
}

/// The lesser of two numbers.
pub open spec fn lesser(a: int, b: int) -> int {
    if a <= b {
        a
    } else {
        b
    }
}

/// Where a pixel lies in the buffer: inside it.
proof fn lemma_pixel_in_frame(len: int, rows: int, cols: int, row: int, col: int)
    requires
        0 <= row < rows,
        0 <= col < cols,
        rows * cols * 2 <= len,
    ensures
        0 <= row * cols + col < rows * cols,
        0 <= (row * cols + col) * 2,
        (row * cols + col) * 2 + 1 < len,
{
    assert(0 <= row * cols) by (nonlinear_arith)
        requires
            0 <= row,
            0 <= cols,
    ;
    assert(row * cols + cols <= rows * cols) by (nonlinear_arith)
        requires
            row + 1 <= rows,
            0 <= cols,
    ;
}

/// A sampled index is one of the rows, or columns, that there are.
proof fn lemma_sampled_index(i: int, total: int, sampled: int)
    requires
        0 <= i < sampled,
        0 < sampled <= total,
    ensures
        0 <= sampled_index(i, total, sampled) < total,
        0 <= i * total,
{
    assert(0 <= i * total) by (nonlinear_arith)
        requires
            0 <= i,
            0 <= total,
    ;
    assert(i * total / sampled < total) by (nonlinear_arith)
        requires
            0 <= i < sampled,
            0 < sampled,
            0 < total,
    ;
    assert(0 <= i * total / sampled) by (nonlinear_arith)
        requires
            0 <= i * total,
            0 < sampled,
    ;
}

/// The pixel in row `row` and column `col`.
pub fn pixel_at(frame: &[u8], cols: usize, row: usize, col: usize, swapped: bool) -> (value: u16)
    requires
        (row * cols + col) * 2 + 1 < frame@.len(),
    ensures
        value == pixel(frame@, cols as int, row as int, col as int, swapped),
{
    let total: usize = frame.len();
    assert(row * cols >= 0) by (nonlinear_arith)
        requires
            row >= 0,
            cols >= 0,
    ;
    let byte_index: usize = (row * cols + col) * 2;
    let first: u8 = frame[byte_index];
    let second: u8 = frame[byte_index + 1];
    let raw: u16 = if swapped {
        (second as u16) << 8 | (first as u16)
    } else {
        (first as u16) << 8 | (second as u16)
    };
    raw & PIXEL_MASK
}

/// The buffer and the geometry allow a check, or the finding that says why
/// not.
fn check_geometry(frame: &[u8], cols: usize, rows: usize) -> (finding: Option<Finding>)
    ensures
        finding == geometry_finding(frame@.len(), rows, cols),
        finding is None ==> rows > 0 && cols > 0 && rows * cols * 2 <= frame@.len(),
{
    let total: usize = frame.len();
    if cols == 0 || rows == 0 {
        return Some(Finding::InvalidGeometry { rows, cols });
    }
    let need: Option<usize> = match rows.checked_mul(cols) {
        Some(pixels) => pixels.checked_mul(2),
        None => None,
    };
    match need {
        None => {
            assert(rows * cols * 2 > usize::MAX) by (nonlinear_arith)
                requires
                    rows * cols > usize::MAX || rows * cols * 2 > usize::MAX,
                    rows >= 0,
                    cols >= 0,
            ;
            Some(Finding::PayloadTooSmall { got: total, need: usize::MAX })
        },
        Some(need) => {
            if total < need {
                Some(Finding::PayloadTooSmall { got: total, need })
            } else {
                None
            }
        },
    }
}

/// `min` is the least and `max` the greatest of the first `n` pixels.
pub open spec fn spans(frame: Seq<u8>, swapped: bool, n: int, min: u16, max: u16) -> bool {
    &&& forall|k: int| 0 <= k < n ==> min <= #[trigger] nth_pixel(frame, k, swapped) <= max
    &&& exists|k: int| 0 <= k < n && #[trigger] nth_pixel(frame, k, swapped) == min
    &&& exists|k: int| 0 <= k < n && #[trigger] nth_pixel(frame, k, swapped) == max
}

/// Checks the constant pattern: the pixels of the frame lie within
/// `CONSTANT_SPREAD_MAX` of each other.
pub fn validate_constant(frame: &[u8], swapped: bool, cols: usize, rows: usize) -> (report:
    PatternReport)
    ensures
        is_constant_report(frame@, swapped, cols, rows, report),
{
    match check_geometry(frame, cols, rows) {
        Some(finding) => {
            return PatternReport { ok: false, finding, second: None };
        },
        None => {},
    }
    let total: usize = frame.len();
    let pixels: usize = rows * cols;
    let mut min_value: u16 = u16::MAX;
    let mut max_value: u16 = 0;
    let ghost mut at_min: int = 0;
    let ghost mut at_max: int = 0;
    let mut k: usize = 0;
    while k < pixels
        invariant
            k <= pixels,
            pixels == rows * cols,
            pixels * 2 <= total,
            total == frame@.len(),
            forall|j: int| 0 <= j < k ==> min_value <= #[trigger] nth_pixel(frame@, j, swapped)
                <= max_value,
            k > 0 ==> 0 <= at_min < k && nth_pixel(frame@, at_min, swapped) == min_value,
            k > 0 ==> 0 <= at_max < k && nth_pixel(frame@, at_max, swapped) == max_value,
            k == 0 ==> min_value == u16::MAX && max_value == 0,
        decreases pixels - k,
    {
        let first: u8 = frame[2 * k];
        let second: u8 = frame[2 * k + 1];
        let raw: u16 = if swapped {
            (second as u16) << 8 | (first as u16)
        } else {
            (first as u16) << 8 | (second as u16)
        };
        let value: u16 = raw & PIXEL_MASK;
        assert(value == nth_pixel(frame@, k as int, swapped));
        if value < min_value || k == 0 {
            min_value = value;
            proof {
                at_min = k as int;
            }
        }
        if value > max_value || k == 0 {
            max_value = value;
            proof {
                at_max = k as int;
            }
        }
        k = k + 1;
    }
    assert(pixels > 0) by (nonlinear_arith)
        requires
            rows > 0,
            cols > 0,
            pixels == rows * cols,
    ;
    assert(min_value <= nth_pixel(frame@, at_max, swapped));
    let spread: u16 = max_value - min_value;
    PatternReport {
        ok: spread <= CONSTANT_SPREAD_MAX,
        finding: Finding::ConstantSpread { spread, min: min_value, max: max_value },
        second: None,
    }
}

/// Checks the horizontal ramp: of up to `RAMP_SAMPLES` rows spread over the
/// frame, at least four in five rise from the first to the last column.
pub fn validate_ramp_h(frame: &[u8], swapped: bool, cols: usize, rows: usize) -> (report:
    PatternReport)
    ensures
        report == ramp_h_report(frame@, swapped, cols, rows),
{
    match check_geometry(frame, cols, rows) {
        Some(finding) => {
            return PatternReport { ok: false, finding, second: None };
        },
        None => {},
    }
    let sample_rows: usize = if rows < RAMP_SAMPLES {
        rows
    } else {
        RAMP_SAMPLES
    };
    let mut pass: usize = 0;
    let mut i: usize = 0;
    while i < sample_rows
        invariant
            i <= sample_rows,
            0 < sample_rows <= rows,
            sample_rows <= RAMP_SAMPLES,
            cols > 0,
            rows * cols * 2 <= frame@.len(),
            pass <= i,
            pass == rows_rising(
                frame@,
                swapped,
                cols as int,
                rows as int,
                sample_rows as int,
                i as int,
            ),
        decreases sample_rows - i,
    {
        proof {
            lemma_sampled_index(i as int, rows as int, sample_rows as int);
        }
        assert(i * rows <= 24 * 0xFFFF_FFFF_FFFF_FFFF) by (nonlinear_arith)
            requires
                0 <= i <= 24,
                0 <= rows <= 0xFFFF_FFFF_FFFF_FFFF,
        ;
        let row: usize = ((i as u128) * (rows as u128) / (sample_rows as u128)) as usize;
        proof {
            lemma_pixel_in_frame(frame@.len() as int, rows as int, cols as int, row as int, 0);
            lemma_pixel_in_frame(
                frame@.len() as int,
                rows as int,
                cols as int,
                row as int,
                cols - 1,
            );
        }
        let first = pixel_at(frame, cols, row, 0, swapped);
        let last = pixel_at(frame, cols, row, cols - 1, swapped);
        if last > first {
            pass = pass + 1;
        }
        i = i + 1;
    }
    PatternReport {
        ok: 5 * pass >= 4 * sample_rows,
        finding: Finding::RampRows { passing: pass, sampled: sample_rows },
        second: None,
    }
}

/// Checks the vertical ramp: of up to `RAMP_SAMPLES` columns spread over
/// the frame, at least four in five rise from the top to the bottom row.
pub fn validate_ramp_v(frame: &[u8], swapped: bool, cols: usize, rows: usize) -> (report:
    PatternReport)
    ensures
        report == ramp_v_report(frame@, swapped, cols, rows),
{
    match check_geometry(frame, cols, rows) {
        Some(finding) => {
            return PatternReport { ok: false, finding, second: None };
        },
        None => {},
    }
    let sample_cols: usize = if cols < RAMP_SAMPLES {
        cols
    } else {
        RAMP_SAMPLES
    };
    let mut pass: usize = 0;
    let mut i: usize = 0;
    while i < sample_cols
        invariant
            i <= sample_cols,
            0 < sample_cols <= cols,
            sample_cols <= RAMP_SAMPLES,
            rows > 0,
            rows * cols * 2 <= frame@.len(),
            pass <= i,
            pass == cols_rising(
                frame@,
                swapped,
                cols as int,
                rows as int,
                sample_cols as int,
                i as int,
            ),
        decreases sample_cols - i,
    {
        proof {
            lemma_sampled_index(i as int, cols as int, sample_cols as int);
        }
        assert(i * cols <= 24 * 0xFFFF_FFFF_FFFF_FFFF) by (nonlinear_arith)
            requires
                0 <= i <= 24,
                0 <= cols <= 0xFFFF_FFFF_FFFF_FFFF,
        ;
        let col: usize = ((i as u128) * (cols as u128) / (sample_cols as u128)) as usize;
        proof {
            lemma_pixel_in_frame(frame@.len() as int, rows as int, cols as int, 0, col as int);
            lemma_pixel_in_frame(
                frame@.len() as int,
                rows as int,
                cols as int,
                rows - 1,
                col as int,
            );
        }
        let top = pixel_at(frame, cols, 0, col, swapped);
        let bottom = pixel_at(frame, cols, rows - 1, col, swapped);
        if bottom > top {
            pass = pass + 1;
        }
        i = i + 1;
    }
    PatternReport {
        ok: 5 * pass >= 4 * sample_cols,
        finding: Finding::RampCols { passing: pass, sampled: sample_cols },
        second: None,
    }
}

/// The report on the horizontal ramp in a frame.
pub open spec fn ramp_h_report(frame: Seq<u8>, swapped: bool, cols: usize, rows: usize) -> PatternReport {
    match geometry_finding(frame.len(), rows, cols) {
        Some(finding) => PatternReport { ok: false, finding, second: None },
        None => {
            let sampled = lesser(rows as int, RAMP_SAMPLES as int);
            let passing = rows_rising(frame, swapped, cols as int, rows as int, sampled, sampled);
            PatternReport {
                ok: enough_pass(passing, sampled),
                finding: Finding::RampRows { passing: passing as usize, sampled: sampled as usize },
                second: None,
            }
        },
    }
}

/// The report on the vertical ramp in a frame.
pub open spec fn ramp_v_report(frame: Seq<u8>, swapped: bool, cols: usize, rows: usize) -> PatternReport {
    match geometry_finding(frame.len(), rows, cols) {
        Some(finding) => PatternReport { ok: false, finding, second: None },
        None => {
            let sampled = lesser(cols as int, RAMP_SAMPLES as int);
            let passing = cols_rising(frame, swapped, cols as int, rows as int, sampled, sampled);
            PatternReport {
                ok: enough_pass(passing, sampled),
                finding: Finding::RampCols { passing: passing as usize, sampled: sampled as usize },
                second: None,
            }
        },
    }
}

/// `report` is the report on the constant pattern in a frame.
pub open spec fn is_constant_report(
    frame: Seq<u8>,
    swapped: bool,
    cols: usize,
    rows: usize,
    report: PatternReport,
) -> bool {
    &&& report.second is None
    &&& match geometry_finding(frame.len(), rows, cols) {
        Some(finding) => !report.ok && report.finding == finding,
        None => {
            &&& report.finding matches Finding::ConstantSpread { spread, min, max }
            &&& spans(frame, swapped, rows * cols, min, max)
            &&& spread == max - min
            &&& report.ok == (spread <= CONSTANT_SPREAD_MAX)
        },
    }
}

/// `report` is the report on a frame that should show the pattern of
/// `source`. The diagonal ramp must pass as a horizontal and as a vertical
/// ramp; the scene is no pattern, and fails.
pub open spec fn is_pattern_report(
    frame: Seq<u8>,
    source: VideoOutputSource,
    swapped: bool,
    cols: usize,
    rows: usize,
    report: PatternReport,
) -> bool {
    match source {
        VideoOutputSource::Constant => is_constant_report(frame, swapped, cols, rows, report),
        VideoOutputSource::RampH => report == ramp_h_report(frame, swapped, cols, rows),
        VideoOutputSource::RampV => report == ramp_v_report(frame, swapped, cols, rows),
        VideoOutputSource::Ramp => report == (PatternReport {
            ok: ramp_h_report(frame, swapped, cols, rows).ok && ramp_v_report(
                frame,
                swapped,
                cols,
                rows,
            ).ok,
            finding: ramp_h_report(frame, swapped, cols, rows).finding,
            second: Some(ramp_v_report(frame, swapped, cols, rows).finding),
        }),
        _ => report == (PatternReport { ok: false, finding: Finding::Unsupported, second: None }),
    }
}

/// Checks a frame against the pattern of `source`.
fn validate_as(frame: &[u8], source: VideoOutputSource, swapped: bool, cols: usize, rows: usize) -> (report:
    PatternReport)
    ensures
        is_pattern_report(frame@, source, swapped, cols, rows, report),
{
    match source {
        VideoOutputSource::Constant => validate_constant(frame, swapped, cols, rows),
        VideoOutputSource::RampH => validate_ramp_h(frame, swapped, cols, rows),
        VideoOutputSource::RampV => validate_ramp_v(frame, swapped, cols, rows),
        VideoOutputSource::Ramp => {
            let h = validate_ramp_h(frame, swapped, cols, rows);
            let v = validate_ramp_v(frame, swapped, cols, rows);
            PatternReport { ok: h.ok && v.ok, finding: h.finding, second: Some(v.finding) }
        },
        _ => PatternReport { ok: false, finding: Finding::Unsupported, second: None },
    }
}

/// Checks a frame against the pattern of `source`, its pixels read
/// big-endian.
pub fn validate_pattern(frame: &[u8], source: VideoOutputSource, cols: usize, rows: usize) -> (report:
    PatternReport)
    ensures
        is_pattern_report(frame@, source, false, cols, rows, report),
{
    validate_as(frame, source, false, cols, rows)
}

/// Checks a frame against the pattern of `source`, the bytes of its pixels
/// swapped.
pub fn validate_pattern_swapped(
    frame: &[u8],
    source: VideoOutputSource,
    cols: usize,
    rows: usize,
) -> (report: PatternReport)
    ensures
        is_pattern_report(frame@, source, true, cols, rows, report),
{
    validate_as(frame, source, true, cols, rows)
}

} // verus!
