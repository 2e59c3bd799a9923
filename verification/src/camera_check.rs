//! The camera self-check as a machine: it names the next command or
//! capture, takes its outcome, and hands out the result of each test. The
//! one who owns the buses runs the commands and the captures.

use vstd::prelude::*;
use crate::lepton_cci::{CciExchange, CciReply};
use crate::lepton_command::{LepCommand, Module};
use crate::oem::VideoOutputSource;
use crate::pattern::{
    is_pattern_report, validate_pattern, validate_pattern_swapped, PatternReport,
};

verus! {

/// Number of tests in a self-check.
pub const CHECK_TESTS: u8 = 5;

/// Captures that are thrown away before the capture that is judged, to
/// let a new pattern settle.
pub const WARM_UP_CAPTURES: u8 = 2;

/// The tests of a self-check, in the order in which they run.
#[derive(Debug, Clone, Copy, PartialEq, Eq, Structural)]
pub enum CheckPattern {
    Constant1234,
    Constant2AAA,
    RampH,
    RampV,
    Ramp,
}

impl CheckPattern {
    /// The `i`-th test.
    pub open spec fn nth_of(i: int) -> CheckPattern {
        if i == 0 {
            CheckPattern::Constant1234
        } else if i == 1 {
            CheckPattern::Constant2AAA
        } else if i == 2 {
            CheckPattern::RampH
        } else if i == 3 {
            CheckPattern::RampV
        } else {
            CheckPattern::Ramp
        }
    }

    /// The source that the test selects.
    pub open spec fn source_of(self) -> VideoOutputSource {
        match self {
            CheckPattern::Constant1234 => VideoOutputSource::Constant,
            CheckPattern::Constant2AAA => VideoOutputSource::Constant,
            CheckPattern::RampH => VideoOutputSource::RampH,
            CheckPattern::RampV => VideoOutputSource::RampV,
            CheckPattern::Ramp => VideoOutputSource::Ramp,
        }
    }

    /// The value that the test gives the constant pattern, if it uses it.
    pub open spec fn constant_of(self) -> Option<u16> {
        match self {
            CheckPattern::Constant1234 => Some(0x1234u16),
            CheckPattern::Constant2AAA => Some(0x2AAAu16),
            _ => None,
        }
    }

    /// The `i`-th test.
    pub fn nth(i: u8) -> (pattern: CheckPattern)
        ensures
            pattern == Self::nth_of(i as int),
    {
        if i == 0 {
            CheckPattern::Constant1234
        } else if i == 1 {
            CheckPattern::Constant2AAA
        } else if i == 2 {
            CheckPattern::RampH
        } else if i == 3 {
            CheckPattern::RampV
        } else {
            CheckPattern::Ramp
        }
    }

    /// The name of the test in a report.
    pub open spec fn name_of(self) -> Seq<char> {
        match self {
            CheckPattern::Constant1234 => "constant_0x1234"@,
            CheckPattern::Constant2AAA => "constant_0x2AAA"@,
            CheckPattern::RampH => "ramp_h"@,
            CheckPattern::RampV => "ramp_v"@,
            CheckPattern::Ramp => "ramp"@,
        }
    }

    /// The name of the test in a report.
    pub fn name(&self) -> (name: &'static str)
        ensures
            name@ == self.name_of(),
    {
        match self {
            CheckPattern::Constant1234 => "constant_0x1234",
            CheckPattern::Constant2AAA => "constant_0x2AAA",
            CheckPattern::RampH => "ramp_h",
            CheckPattern::RampV => "ramp_v",
            CheckPattern::Ramp => "ramp",
        }
    }

    /// The source that the test selects.
    pub fn source(&self) -> (source: VideoOutputSource)
        ensures
            source == self.source_of(),
    {
        match self {
            CheckPattern::Constant1234 => VideoOutputSource::Constant,
            CheckPattern::Constant2AAA => VideoOutputSource::Constant,
            CheckPattern::RampH => VideoOutputSource::RampH,
            CheckPattern::RampV => VideoOutputSource::RampV,
            CheckPattern::Ramp => VideoOutputSource::Ramp,
        }
    }

    /// The value that the test gives the constant pattern, if it uses it.
    pub fn constant(&self) -> (constant: Option<u16>)
        ensures
            constant == self.constant_of(),
    {
        match self {
            CheckPattern::Constant1234 => Some(0x1234u16),
            CheckPattern::Constant2AAA => Some(0x2AAAu16),
            _ => None,
        }
    }
}

/// Why a test failed, or what the frame showed.
#[derive(Debug, Clone, Copy, PartialEq, Eq)]
pub enum CheckDetails {
    /// The command that sets the constant did not go through.
    SetConstantFailed,
    /// The command that selects the source did not go through.
    SetSourceFailed,
    /// The command that reads the source back did not go through.
    ReadbackFailed,
    /// The camera reports another source than the one selected.
    SourceNotSet,
    /// The commands went through, but no frame could be captured.
    CaptureFailed,
    /// A frame was captured: what it showed, and whether a frame that
    /// failed would pass with the bytes of its pixels swapped.
    Pattern { report: PatternReport, swapped_passes: bool },
}

/// The result of one test of a self-check.
#[derive(Debug, Clone, Copy, PartialEq, Eq)]
pub struct CameraCheckTestResult {
    pub name: CheckPattern,
    pub ok: bool,
    pub details: CheckDetails,
    pub readback_source: Option<u16>,
}

/// The report of a self-check: the results of its tests, and whether the
/// camera is back at the source and the constant it had before.
#[derive(Debug, Clone)]
pub struct CameraCheckReport {
    pub tests: Vec<CameraCheckTestResult>,
    pub restored: bool,
}

/// Where a self-check stands.
#[derive(Debug, Clone, Copy, PartialEq, Eq, Structural)]
pub enum CheckStage {
    /// The source that the camera has is to be read.
    ReadSource,
    /// The constant that the camera has is to be read.
    ReadConstant,
    /// The constant of the test is to be set.
    SetConstant,
    /// The source of the test is to be selected.
    SetSource,
    /// The source is to be read back.
    Readback,
    /// A frame is to be captured and thrown away.
    WarmUp,
    /// The frame that is judged is to be captured.
    Capture,
    /// The constant that the camera had is to be set again.
    RestoreConstant,
    /// The source that the camera had is to be selected again.
    RestoreSource,
    /// The self-check is over.
    Done,
}

/// What a self-check asks of the one who owns the buses.
#[derive(Debug, Clone, Copy, PartialEq, Eq)]
pub enum CheckAction {
    /// Run this exchange, and say how it ended.
    Command(CciExchange),
    /// Capture a frame, and hand it over.
    Capture,
    /// Nothing more.
    Finished { restored: bool },
}

/// A self-check under way.
#[derive(Debug, Clone, Copy, PartialEq, Eq, Structural)]
pub struct CameraCheck {
    pub stage: CheckStage,
    /// Index of the test that runs.
    pub test: u8,
    /// Captures of the test that were thrown away.
    pub warmed: u8,
    pub saved_source: Option<u16>,
    pub saved_constant: Option<u16>,
    /// The source that the camera reported for the test that runs.
    pub readback: u16,
    pub restored: bool,
}

/// The bytes of a captured frame, if there is one.
pub open spec fn frame_of(pixels: Option<&[u8]>) -> Option<Seq<u8>> {
    match pixels {
        Some(frame) => Some(frame@),
        None => None,
    }
}

/// The value that a command brought, if it went through.
pub open spec fn value_of(reply: Option<CciReply>) -> Option<u16> {
    match reply {
        Some(r) => Some(r.data),
        None => None,
    }
}

impl CameraCheck {
    /// The stage belongs to a test.
    pub open spec fn in_test(&self) -> bool {
        self.stage == CheckStage::SetConstant || self.stage == CheckStage::SetSource || self.stage
            == CheckStage::Readback || self.stage == CheckStage::WarmUp || self.stage
            == CheckStage::Capture
    }

    /// The stage asks for a command.
    pub open spec fn wants_command(&self) -> bool {
        self.stage != CheckStage::WarmUp && self.stage != CheckStage::Capture && self.stage
            != CheckStage::Done
    }

    /// The stage asks for a capture.
    pub open spec fn wants_capture(&self) -> bool {
        self.stage == CheckStage::WarmUp || self.stage == CheckStage::Capture
    }

    /// The self-check is in a state that `begin` and the steps from there
    /// lead to.
    pub open spec fn wf(&self) -> bool {
        &&& self.in_test() ==> self.test < CHECK_TESTS
        &&& self.stage == CheckStage::WarmUp ==> self.warmed < WARM_UP_CAPTURES
        &&& self.stage == CheckStage::SetConstant ==> CheckPattern::nth_of(
            self.test as int,
        ).constant_of() is Some
        &&& self.stage == CheckStage::RestoreConstant ==> self.saved_constant is Some
        &&& self.stage == CheckStage::RestoreSource ==> self.saved_source is Some
    }

    /// The test that runs.
    pub open spec fn pattern(&self) -> CheckPattern {
        CheckPattern::nth_of(self.test as int)
    }

    /// A self-check before its first command.
    pub open spec fn initial() -> CameraCheck {
        CameraCheck {
            stage: CheckStage::ReadSource,
            test: 0,
            warmed: 0,
            saved_source: None,
            saved_constant: None,
            readback: 0,
            restored: true,
        }
    }

    /// The self-check at the restoring of the source: a source that could
    /// not be read cannot be restored.
    pub open spec fn at_restore_source(self) -> CameraCheck {
        if self.saved_source is Some {
            CameraCheck { stage: CheckStage::RestoreSource, ..self }
        } else {
            CameraCheck { stage: CheckStage::Done, restored: false, ..self }
        }
    }

    /// The self-check at the restoring of the constant.
    pub open spec fn at_restore(self) -> CameraCheck {
        if self.saved_constant is Some {
            CameraCheck { stage: CheckStage::RestoreConstant, ..self }
        } else {
            CameraCheck { restored: false, ..self }.at_restore_source()
        }
    }

    /// The self-check at the start of test `t`; behind the last test the
    /// restoring begins.
    pub open spec fn at_test(self, t: int) -> CameraCheck {
        if t >= CHECK_TESTS {
            self.at_restore()
        } else {
            CameraCheck {
                stage: if CheckPattern::nth_of(t).constant_of() is Some {
                    CheckStage::SetConstant
                } else {
                    CheckStage::SetSource
                },
                test: t as u8,
                warmed: 0,
                ..self
            }
        }
    }

    /// The result of the test that runs, failed for `details`.
    pub open spec fn failed(self, details: CheckDetails, readback: Option<u16>) -> CameraCheckTestResult {
        CameraCheckTestResult { name: self.pattern(), ok: false, details, readback_source: readback }
    }

    /// The self-check after a command that it asked for, and the result of
    /// a test that this ends. `reply` is `None` where the command did not
    /// go through.
    pub open spec fn after_command(self, reply: Option<CciReply>) -> (
        CameraCheck,
        Option<CameraCheckTestResult>,
    ) {
        let next_test = self.at_test(self.test + 1);
        match self.stage {
            CheckStage::ReadSource => (
                CameraCheck {
                    stage: CheckStage::ReadConstant,
                    saved_source: value_of(reply),
                    ..self
                },
                None,
            ),
            CheckStage::ReadConstant => (
                CameraCheck { saved_constant: value_of(reply), ..self }.at_test(0),
                None,
            ),
            CheckStage::SetConstant => match reply {
                None => (next_test, Some(self.failed(CheckDetails::SetConstantFailed, None))),
                Some(_) => (CameraCheck { stage: CheckStage::SetSource, ..self }, None),
            },
            CheckStage::SetSource => match reply {
                None => (next_test, Some(self.failed(CheckDetails::SetSourceFailed, None))),
                Some(_) => (CameraCheck { stage: CheckStage::Readback, ..self }, None),
            },
            CheckStage::Readback => match reply {
                None => (next_test, Some(self.failed(CheckDetails::ReadbackFailed, None))),
                Some(r) => if r.data != self.pattern().source_of().code_of() {
                    (next_test, Some(self.failed(CheckDetails::SourceNotSet, Some(r.data))))
                } else {
                    (
                        CameraCheck {
                            stage: CheckStage::WarmUp,
                            warmed: 0,
                            readback: r.data,
                            ..self
                        },
                        None,
                    )
                },
            },
            CheckStage::RestoreConstant => (
                CameraCheck { restored: self.restored && reply is Some, ..self }.at_restore_source(),
                None,
            ),
            CheckStage::RestoreSource => (
                CameraCheck {
                    stage: CheckStage::Done,
                    restored: self.restored && reply is Some,
                    ..self
                },
                None,
            ),
            _ => (self, None),
        }
    }

    /// The self-check after a capture that it asked for.
    pub open spec fn after_capture(self) -> CameraCheck {
        match self.stage {
            CheckStage::WarmUp => if self.warmed + 1 >= WARM_UP_CAPTURES {
                CameraCheck { stage: CheckStage::Capture, warmed: (self.warmed + 1) as u8, ..self }
            } else {
                CameraCheck { warmed: (self.warmed + 1) as u8, ..self }
            },
            CheckStage::Capture => self.at_test(self.test + 1),
            _ => self,
        }
    }

    /// `result` is the result of the test that runs, for the capture that
    /// is judged. No frame: the test fails. A frame: it passes if the
    /// frame shows the pattern; one that fails is looked at once more with
    /// the bytes of its pixels swapped.
    pub open spec fn judges(
        self,
        pixels: Option<Seq<u8>>,
        cols: usize,
        rows: usize,
        result: CameraCheckTestResult,
    ) -> bool {
        &&& result.name == self.pattern()
        &&& result.readback_source == Some(self.readback)
        &&& match pixels {
            None => !result.ok && result.details == CheckDetails::CaptureFailed,
            Some(frame) => {
                &&& result.details matches CheckDetails::Pattern { report, swapped_passes }
                &&& is_pattern_report(frame, self.pattern().source_of(), false, cols, rows, report)
                &&& result.ok == report.ok
                &&& report.ok ==> !swapped_passes
                &&& !report.ok ==> exists|other: PatternReport| #[trigger]
                    is_pattern_report(frame, self.pattern().source_of(), true, cols, rows, other)
                        && swapped_passes == other.ok
            },
        }
    }

    /// An upper bound on the commands and captures that the self-check
    /// still asks for.
    pub open spec fn remaining(&self) -> nat {
        let tests_left = (CHECK_TESTS - self.test) as nat;
        match self.stage {
            CheckStage::ReadSource => 34,
            CheckStage::ReadConstant => 33,
            CheckStage::SetConstant => 2 + 6 * tests_left,
            CheckStage::SetSource => (1 + 6 * tests_left) as nat,
            CheckStage::Readback => (6 * tests_left) as nat,
            CheckStage::WarmUp => (6 * tests_left - 1 - self.warmed) as nat,
            CheckStage::Capture => (6 * tests_left - 3) as nat,
            CheckStage::RestoreConstant => 2,
            CheckStage::RestoreSource => 1,
            CheckStage::Done => 0,
        }
    }

    /// Begins a self-check.
    pub fn begin() -> (check: CameraCheck)
        ensures
            check == Self::initial(),
            check.wf(),
    {
        CameraCheck {
            stage: CheckStage::ReadSource,
            test: 0,
            warmed: 0,
            saved_source: None,
            saved_constant: None,
            readback: 0,
            restored: true,
        }
    }

    /// What is to be done next.
    pub fn pending(&self) -> (action: CheckAction)
        requires
            self.wf(),
        ensures
            match self.stage {
                CheckStage::ReadSource => action matches CheckAction::Command(x) && x.gets_with(
                    Module::OEM,
                    0x2C,
                    1,
                ),
                CheckStage::ReadConstant => action matches CheckAction::Command(x) && x.gets_with(
                    Module::OEM,
                    0x3C,
                    1,
                ),
                CheckStage::SetConstant => action matches CheckAction::Command(x) && x.sets_with(
                    Module::OEM,
                    0x3C,
                    1,
                    self.pattern().constant_of()->0,
                    false,
                ),
                CheckStage::SetSource => action matches CheckAction::Command(x) && x.sets_with(
                    Module::OEM,
                    0x2C,
                    1,
                    self.pattern().source_of().code_of(),
                    false,
                ),
                CheckStage::Readback => action matches CheckAction::Command(x) && x.gets_with(
                    Module::OEM,
                    0x2C,
                    1,
                ),
                CheckStage::WarmUp => action == CheckAction::Capture,
                CheckStage::Capture => action == CheckAction::Capture,
                CheckStage::RestoreConstant => action matches CheckAction::Command(x)
                    && x.sets_with(Module::OEM, 0x3C, 1, self.saved_constant->0, false),
                CheckStage::RestoreSource => action matches CheckAction::Command(x) && x.sets_with(
                    Module::OEM,
                    0x2C,
                    1,
                    self.saved_source->0,
                    false,
                ),
                CheckStage::Done => action == (CheckAction::Finished { restored: self.restored }),
            },
            action matches CheckAction::Command(x) ==> x.wf(),
    {
        let pattern = CheckPattern::nth(self.test);
        match self.stage {
            CheckStage::ReadSource => CheckAction::Command(
                CciExchange::begin_get(LepCommand::get_oem_video_output_source()),
            ),
            CheckStage::ReadConstant => CheckAction::Command(
                CciExchange::begin_get(LepCommand::get_oem_video_output_source_constant()),
            ),
            CheckStage::SetConstant => {
                let value: u16 = match pattern.constant() {
                    Some(value) => value,
                    None => 0,
                };
                CheckAction::Command(
                    CciExchange::begin_set(
                        LepCommand::set_oem_video_output_source_constant(),
                        value,
                        false,
                    ),
                )
            },
            CheckStage::SetSource => CheckAction::Command(
                CciExchange::begin_set(
                    LepCommand::set_oem_video_output_source(),
                    pattern.source().code(),
                    false,
                ),
            ),
            CheckStage::Readback => CheckAction::Command(
                CciExchange::begin_get(LepCommand::get_oem_video_output_source()),
            ),
            CheckStage::WarmUp => CheckAction::Capture,
            CheckStage::Capture => CheckAction::Capture,
            CheckStage::RestoreConstant => {
                let value: u16 = match self.saved_constant {
                    Some(value) => value,
                    None => 0,
                };
                CheckAction::Command(
                    CciExchange::begin_set(
                        LepCommand::set_oem_video_output_source_constant(),
                        value,
                        false,
                    ),
                )
            },
            CheckStage::RestoreSource => {
                let value: u16 = match self.saved_source {
                    Some(value) => value,
                    None => 0,
                };
                CheckAction::Command(
                    CciExchange::begin_set(LepCommand::set_oem_video_output_source(), value, false),
                )
            },
            CheckStage::Done => CheckAction::Finished { restored: self.restored },
        }
    }

    /// Goes on to the restoring of the source.
    fn goto_restore_source(&mut self)
        ensures
            *final(self) == old(self).at_restore_source(),
    {
        if self.saved_source.is_some() {
            self.stage = CheckStage::RestoreSource;
        } else {
            self.stage = CheckStage::Done;
            self.restored = false;
        }
    }

    /// Goes on to test `t`, or behind the last test to the restoring.
    fn goto_test(&mut self, t: u8)
        requires
            t <= CHECK_TESTS,
        ensures
            *final(self) == old(self).at_test(t as int),
    {
        if t >= CHECK_TESTS {
            if self.saved_constant.is_some() {
                self.stage = CheckStage::RestoreConstant;
            } else {
                self.restored = false;
                self.goto_restore_source();
            }
        } else {
            self.stage = if CheckPattern::nth(t).constant().is_some() {
                CheckStage::SetConstant
            } else {
                CheckStage::SetSource
            };
            self.test = t;
            self.warmed = 0;
        }
    }

    /// The result of the test that runs, failed for `details`.
    fn fail(&self, details: CheckDetails, readback: Option<u16>) -> (result: CameraCheckTestResult)
        ensures
            result == self.failed(details, readback),
    {
        CameraCheckTestResult {
            name: CheckPattern::nth(self.test),
            ok: false,
            details,
            readback_source: readback,
        }
    }

    /// Takes the outcome of the command that was pending: `None` where it
    /// did not go through. Hands out the result of the test, if the command
    /// ends one.
    pub fn command_done(&mut self, reply: Option<CciReply>) -> (result: Option<
        CameraCheckTestResult,
    >)
        requires
            old(self).wf(),
            old(self).wants_command(),
        ensures
            (*final(self), result) == old(self).after_command(reply),
            final(self).wf(),
            final(self).remaining() < old(self).remaining(),
    {
        match self.stage {
            CheckStage::ReadSource => {
                self.saved_source = match reply {
                    Some(r) => Some(r.data),
                    None => None,
                };
                self.stage = CheckStage::ReadConstant;
                None
            },
            CheckStage::ReadConstant => {
                self.saved_constant = match reply {
                    Some(r) => Some(r.data),
                    None => None,
                };
                self.goto_test(0);
                None
            },
            CheckStage::SetConstant => match reply {
                None => {
                    let result = self.fail(CheckDetails::SetConstantFailed, None);
                    self.goto_test(self.test + 1);
                    Some(result)
                },
                Some(_) => {
                    self.stage = CheckStage::SetSource;
                    None
                },
            },
            CheckStage::SetSource => match reply {
                None => {
                    let result = self.fail(CheckDetails::SetSourceFailed, None);
                    self.goto_test(self.test + 1);
                    Some(result)
                },
                Some(_) => {
                    self.stage = CheckStage::Readback;
                    None
                },
            },
            CheckStage::Readback => match reply {
                None => {
                    let result = self.fail(CheckDetails::ReadbackFailed, None);
                    self.goto_test(self.test + 1);
                    Some(result)
                },
                Some(r) => {
                    if r.data != CheckPattern::nth(self.test).source().code() {
                        let result = self.fail(CheckDetails::SourceNotSet, Some(r.data));
                        self.goto_test(self.test + 1);
                        Some(result)
                    } else {
                        self.stage = CheckStage::WarmUp;
                        self.warmed = 0;
                        self.readback = r.data;
                        None
                    }
                },
            },
            CheckStage::RestoreConstant => {
                self.restored = self.restored && reply.is_some();
                self.goto_restore_source();
                None
            },
            CheckStage::RestoreSource => {
                self.restored = self.restored && reply.is_some();
                self.stage = CheckStage::Done;
                None
            },
            _ => None,
        }
    }

    /// Judges the frame of a test: `pixels` is `None` where the capture
    /// failed. `cols` and `rows` are the geometry of the frame in pixels.
    pub fn run_camera_check_test(&self, pixels: Option<&[u8]>, cols: usize, rows: usize) -> (result:
        CameraCheckTestResult)
        ensures
            self.judges(frame_of(pixels), cols, rows, result),
    {
        let pattern = CheckPattern::nth(self.test);
        match pixels {
            None => CameraCheckTestResult {
                name: pattern,
                ok: false,
                details: CheckDetails::CaptureFailed,
                readback_source: Some(self.readback),
            },
            Some(frame) => {
                let report = validate_pattern(frame, pattern.source(), cols, rows);
                let swapped_passes = if report.ok {
                    false
                } else {
                    let other = validate_pattern_swapped(frame, pattern.source(), cols, rows);
                    other.ok
                };
                CameraCheckTestResult {
                    name: pattern,
                    ok: report.ok,
                    details: CheckDetails::Pattern { report, swapped_passes },
                    readback_source: Some(self.readback),
                }
            },
        }
    }

    /// Takes the outcome of the capture that was pending: `None` where it
    /// failed. Hands out the result of the test, if the capture was the one
    /// that is judged.
    pub fn capture_done(&mut self, pixels: Option<&[u8]>, cols: usize, rows: usize) -> (result:
        Option<CameraCheckTestResult>)
        requires
            old(self).wf(),
            old(self).wants_capture(),
        ensures
            *final(self) == old(self).after_capture(),
            final(self).wf(),
            final(self).remaining() < old(self).remaining(),
            old(self).stage == CheckStage::WarmUp ==> result is None,
            old(self).stage == CheckStage::Capture ==> result is Some && old(self).judges(
                frame_of(pixels),
                cols,
                rows,
                result->0,
            ),
    {
        match self.stage {
            CheckStage::WarmUp => {
                self.warmed = self.warmed + 1;
                if self.warmed >= WARM_UP_CAPTURES {
                    self.stage = CheckStage::Capture;
                }
                None
            },
            CheckStage::Capture => {
                let result = self.run_camera_check_test(pixels, cols, rows);
                self.goto_test(self.test + 1);
                Some(result)
            },
            _ => None,
        }
    }
}

} // verus!
