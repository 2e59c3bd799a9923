//! Driver core for the FLIR Lepton 3.x thermal camera, free of bus access:
//! the capture of frames from a stream of VoSPI packets, with CRC checking
//! and resynchronisation, and the commands of the CCI as exchanges that
//! name each bus access in turn. Whoever owns the buses performs the
//! accesses; every decision is taken, and proved, here.
//!
//! - `crc`, `vospi`: the packet, its checksum and header, the capture
//!   functions.
//! - `assembly`, `capture`: the frame assembler and the capture controller
//!   as machines over packets, with the laws that hold of them.
//! - `stream`: what the assembler makes of a well-formed stream.
//! - `staged`: a packet source in memory.
//! - `lepton_command`, `lepton_status`, `lepton_cci`, `oem`: the command
//!   interface.
//! - `pattern`, `camera_check`: the self-check against the camera's test
//!   patterns.
//! - `lepton`: the driver state that ties these together.

pub mod assembly;
pub mod camera_check;
pub mod capture;
pub mod crc;
pub mod lepton;
pub mod lepton_cci;
pub mod lepton_command;
pub mod lepton_status;
pub mod oem;
pub mod pattern;
pub mod staged;
pub mod stream;
pub mod vospi;
