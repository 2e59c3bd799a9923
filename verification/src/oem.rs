//! The OEM module's choice of what the camera puts on its video output.

use vstd::prelude::*;

verus! {

/// What the camera sends as video: the scene, or one of the test patterns
/// that make a link checkable. The codes are those of the OEM command
/// "video output source select" (module `0x0800`, command base `0x2C`).
#[derive(Debug, Clone, Copy, PartialEq, Eq, Structural)]
pub enum VideoOutputSource {
    Raw,
    Cooked,
    Ramp,
    Constant,
    RampH,
    RampV,
}

impl VideoOutputSource {
    /// The code that the camera knows this source by.
    pub open spec fn code_of(self) -> u16 {
        match self {
            VideoOutputSource::Raw => 0,
            VideoOutputSource::Cooked => 1,
            VideoOutputSource::Ramp => 2,
            VideoOutputSource::Constant => 3,
            VideoOutputSource::RampH => 4,
            VideoOutputSource::RampV => 5,
        }
    }

    /// The code that the camera knows this source by.
    pub fn code(self) -> (code: u16)
        ensures
            code == self.code_of(),
    {
        match self {
            VideoOutputSource::Raw => 0,
            VideoOutputSource::Cooked => 1,
            VideoOutputSource::Ramp => 2,
            VideoOutputSource::Constant => 3,
            VideoOutputSource::RampH => 4,
            VideoOutputSource::RampV => 5,
        }
    }

    /// The source that a code stands for, if it stands for one.
    pub fn from_code(code: u16) -> (source: Option<VideoOutputSource>)
        ensures
            match source {
                Some(s) => s.code_of() == code,
                None => code > 5,
            },
    {
        match code {
            0 => Some(VideoOutputSource::Raw),
            1 => Some(VideoOutputSource::Cooked),
            2 => Some(VideoOutputSource::Ramp),
            3 => Some(VideoOutputSource::Constant),
            4 => Some(VideoOutputSource::RampH),
            5 => Some(VideoOutputSource::RampV),
            _ => None,
        }
    }
}

} // verus!
