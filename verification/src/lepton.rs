//! The camera as the driver sees it: the command interface, the capture
//! configuration with its state, and the frame buffer.

use vstd::prelude::*;
use crate::crc::PACKET_HEADER_BYTES;
use crate::camera_check::{frame_of, CameraCheck, CameraCheckTestResult};
use crate::lepton_cci::{CciError, CciExchange, LEPTONCCI};
use crate::lepton_command::{LepCommand, Module};
use crate::lepton_status::LepStatus;
use crate::vospi::{
    capture_frame_into, capture_ready, captured, checked_frame_buffer_len, record_of, zeroed,
    CaptureError,
    CapturedFrame, FrameDiagnostics, FrameMeta, PacketSource, RobustCaptureConfig, SyncState,
};

verus! {

/// Bytes in one packet of a Lepton 2.x frame.
pub const PACKET_SIZE_BYTES: usize = 164;

/// Packets in one Lepton 2.x frame.
pub const FRAME_PACKETS: usize = 60;

/// Bytes in one Lepton 2.x frame, headers included.
pub const FRAME_BYTES: usize = 9840;

/// Why the driver could not do what it was asked.
#[derive(Debug)]
pub enum LeptonError<I2C, SPI> {
    Spi(SPI),
    I2c(I2C),
    SyncLost,
    InvalidPacket,
    DiscardPacketFlood,
    CrcMismatch,
    SegmentOutOfOrder,
    LineOutOfOrder,
    Timeout,
    RetryLimitExceeded,
}

/// The driver's error for a fault of the capture: the same kind, without
/// the line or segment numbers.
pub open spec fn capture_fault<I2C, SPI>(err: CaptureError<SPI>) -> LeptonError<I2C, SPI> {
    match err {
        CaptureError::Spi(e) => LeptonError::Spi(e),
        CaptureError::InvalidPacket => LeptonError::InvalidPacket,
        CaptureError::SyncLost => LeptonError::SyncLost,
        CaptureError::DiscardPacketFlood => LeptonError::DiscardPacketFlood,
        CaptureError::CrcMismatch => LeptonError::CrcMismatch,
        CaptureError::SegmentOutOfOrder { .. } => LeptonError::SegmentOutOfOrder,
        CaptureError::LineOutOfOrder { .. } => LeptonError::LineOutOfOrder,
        CaptureError::Timeout => LeptonError::Timeout,
        CaptureError::RetryLimitExceeded => LeptonError::RetryLimitExceeded,
    }
}

/// The driver's error for a fault of the command interface.
pub open spec fn command_fault<I2C, SPI>(err: CciError<I2C>) -> LeptonError<I2C, SPI> {
    match err {
        CciError::I2c(e) => LeptonError::I2c(e),
        CciError::Timeout => LeptonError::Timeout,
    }
}

impl<I2C, SPI> LeptonError<I2C, SPI> {
    /// Turns a fault of the capture into the driver's error.
    pub fn from_capture(err: CaptureError<SPI>) -> (res: Self)
        ensures
            res == capture_fault::<I2C, SPI>(err),
    {
        match err {
            CaptureError::Spi(e) => LeptonError::Spi(e),
            CaptureError::InvalidPacket => LeptonError::InvalidPacket,
            CaptureError::SyncLost => LeptonError::SyncLost,
            CaptureError::DiscardPacketFlood => LeptonError::DiscardPacketFlood,
            CaptureError::CrcMismatch => LeptonError::CrcMismatch,
            CaptureError::SegmentOutOfOrder { .. } => LeptonError::SegmentOutOfOrder,
            CaptureError::LineOutOfOrder { .. } => LeptonError::LineOutOfOrder,
            CaptureError::Timeout => LeptonError::Timeout,
            CaptureError::RetryLimitExceeded => LeptonError::RetryLimitExceeded,
        }
    }

    /// The kind of error in words.
    pub open spec fn text_of(&self) -> Seq<char> {
        match self {
            LeptonError::Spi(_) => "SPI Error"@,
            LeptonError::I2c(_) => "I2C Error"@,
            LeptonError::SyncLost => "VoSPI synchronization lost"@,
            LeptonError::InvalidPacket => "Invalid VoSPI packet"@,
            LeptonError::DiscardPacketFlood => "Discard packet flood"@,
            LeptonError::CrcMismatch => "CRC mismatch"@,
            LeptonError::SegmentOutOfOrder => "Segment out of order"@,
            LeptonError::LineOutOfOrder => "Line out of order"@,
            LeptonError::Timeout => "Capture timeout"@,
            LeptonError::RetryLimitExceeded => "Capture retry limit exceeded"@,
        }
    }

    /// The kind of error in words; what the bus reported is left to the
    /// caller to add.
    pub fn message(&self) -> (text: &'static str)
        ensures
            text@ == self.text_of(),
    {
        match self {
            LeptonError::Spi(_) => "SPI Error",
            LeptonError::I2c(_) => "I2C Error",
            LeptonError::SyncLost => "VoSPI synchronization lost",
            LeptonError::InvalidPacket => "Invalid VoSPI packet",
            LeptonError::DiscardPacketFlood => "Discard packet flood",
            LeptonError::CrcMismatch => "CRC mismatch",
            LeptonError::SegmentOutOfOrder => "Segment out of order",
            LeptonError::LineOutOfOrder => "Line out of order",
            LeptonError::Timeout => "Capture timeout",
            LeptonError::RetryLimitExceeded => "Capture retry limit exceeded",
        }
    }
}

/// Camera module
pub struct Lepton {
    cci: LEPTONCCI,
    frame: Box<[u8; FRAME_BYTES]>,
    robust_config: RobustCaptureConfig,
    diagnostics: FrameDiagnostics,
    sync_state: SyncState,
    first_valid_synced: bool,
    packet_buffer: Vec<u8>,
}

impl Lepton {
    /// The frame buffer has its size, the scratch buffer holds one packet
    /// of the configuration, and the configuration can be walked.
    pub closed spec fn wf(&self) -> bool {
        &&& self.frame@.len() == FRAME_BYTES
        &&& self.packet_buffer@.len() == self.robust_config.packet_size_bytes
        &&& self.robust_config.well_formed()
    }

    /// The capture configuration in force.
    pub closed spec fn config(&self) -> RobustCaptureConfig {
        self.robust_config
    }

    /// The cumulative counters.
    pub closed spec fn counters(&self) -> FrameDiagnostics {
        self.diagnostics
    }

    /// A frame has been captured since the driver was made.
    pub closed spec fn latched(&self) -> bool {
        self.first_valid_synced
    }

    /// The synchronisation state.
    pub closed spec fn sync(&self) -> SyncState {
        self.sync_state
    }

    /// The Lepton 2.x frame that the driver holds.
    pub closed spec fn held_frame(&self) -> Seq<u8> {
        self.frame@
    }

    /// A driver for a camera that has not been read yet.
    pub fn new() -> (lepton: Self)
        ensures
            lepton.wf(),
            lepton.config() == RobustCaptureConfig::standard(),
            lepton.counters() == FrameDiagnostics::zero(),
            !lepton.latched(),
            lepton.sync() == SyncState::Unsynced,
            lepton.held_frame() == zeroed(FRAME_BYTES as int),
            lepton.cci_of().bus_address() == crate::lepton_cci::CCI_ADDRESS,
    {
        let robust_config = RobustCaptureConfig::default();
        let frame: Box<[u8; FRAME_BYTES]> = Box::new([0u8; FRAME_BYTES]);
        let packet_buffer: Vec<u8> = vec![0u8; robust_config.packet_size_bytes];
        assert(frame@ =~= zeroed(FRAME_BYTES as int));
        Lepton {
            cci: LEPTONCCI::new(),
            frame,
            diagnostics: FrameDiagnostics::default(),
            sync_state: SyncState::Unsynced,
            first_valid_synced: false,
            packet_buffer,
            robust_config,
        }
    }

    /// The camera's address on the I2C bus.
    pub fn cci_address(&self) -> (address: u8)
        ensures
            address == self.cci_of().bus_address(),
    {
        self.cci.address()
    }

    /// The command interface of the camera.
    pub closed spec fn cci_of(&self) -> LEPTONCCI {
        self.cci
    }

    /// Turns a fault of the command interface into the driver's error.
    pub fn map_cci_error<I2C, SPI>(err: CciError<I2C>) -> (res: LeptonError<I2C, SPI>)
        ensures
            res == command_fault::<I2C, SPI>(err),
    {
        match err {
            CciError::I2c(e) => LeptonError::I2c(e),
            CciError::Timeout => LeptonError::Timeout,
        }
    }

    /// The exchange that sets the phase delay; the camera's status is read
    /// a second time before the exchange closes.
    pub fn set_phase_delay(&self, phase_delay: i16) -> (x: CciExchange)
        ensures
            x.sets_with(Module::OEM, 0x58, 1, phase_delay as u16, true),
            x.wf(),
    {
        CciExchange::begin_set(LepCommand::set_oem_phase_delay(), phase_delay as u16, true)
    }

    /// The exchange that gets the phase delay.
    pub fn get_phase_delay(&self) -> (x: CciExchange)
        ensures
            x.gets_with(Module::OEM, 0x58, 1),
            x.wf(),
    {
        self.cci.get_phase_delay()
    }

    /// The exchange that sets the GPIO mode.
    pub fn set_gpio_mode(&self, gpio_mode: u16) -> (x: CciExchange)
        ensures
            x.sets_with(Module::OEM, 0x54, 1, gpio_mode, false),
            x.wf(),
    {
        self.cci.set_gpio_mode(gpio_mode)
    }

    /// The exchange that gets the GPIO mode.
    pub fn get_gpio_mode(&self) -> (x: CciExchange)
        ensures
            x.gets_with(Module::OEM, 0x54, 1),
            x.wf(),
    {
        self.cci.get_gpio_mode()
    }

    /// The exchange that sets the video output format.
    pub fn set_video_output_format(&self, format: u16) -> (x: CciExchange)
        ensures
            x.sets_with(Module::OEM, 0x28, 1, format, false),
            x.wf(),
    {
        self.cci.set_oem_video_output_format(format)
    }

    /// The exchange that gets the video output format.
    pub fn get_video_output_format(&self) -> (x: CciExchange)
        ensures
            x.gets_with(Module::OEM, 0x28, 1),
            x.wf(),
    {
        self.cci.get_oem_video_output_format()
    }

    /// The exchange that sets the video output source.
    pub fn set_video_output_source(&self, source: u16) -> (x: CciExchange)
        ensures
            x.sets_with(Module::OEM, 0x2C, 1, source, false),
            x.wf(),
    {
        self.cci.set_oem_video_output_source(source)
    }

    /// The exchange that gets the video output source.
    pub fn get_video_output_source(&self) -> (x: CciExchange)
        ensures
            x.gets_with(Module::OEM, 0x2C, 1),
            x.wf(),
    {
        self.cci.get_oem_video_output_source()
    }

    /// The exchange that sets the value of the constant test pattern.
    pub fn set_video_output_constant(&self, constant: u16) -> (x: CciExchange)
        ensures
            x.sets_with(Module::OEM, 0x3C, 1, constant, false),
            x.wf(),
    {
        self.cci.set_oem_video_output_constant(constant)
    }

    /// The exchange that gets the value of the constant test pattern.
    pub fn get_video_output_constant(&self) -> (x: CciExchange)
        ensures
            x.gets_with(Module::OEM, 0x3C, 1),
            x.wf(),
    {
        self.cci.get_oem_video_output_constant()
    }

    /// Whether the camera has booted, from a reading of the status register.
    pub fn get_boot_status(&self, status: u16) -> (res: bool)
        ensures
            res == crate::lepton_cci::booted(status),
    {
        LEPTONCCI::get_boot_status(status)
    }

    /// Whether the camera is done with the last command, from a reading of
    /// the status register.
    pub fn get_interface_status(&self, status: u16) -> (res: bool)
        ensures
            res == crate::lepton_cci::idle(status),
    {
        LEPTONCCI::get_interface_status(status)
    }

    /// The exchange that sets the telemetry mode.
    pub fn set_telemetry_mode(&self, mode: u16) -> (x: CciExchange)
        ensures
            x.sets_with(Module::SYS, 0x18, 1, mode, false),
            x.wf(),
    {
        self.cci.set_telemetry_mode(mode)
    }

    /// The exchange that gets the telemetry mode.
    pub fn get_telemetry_mode(&self) -> (x: CciExchange)
        ensures
            x.gets_with(Module::SYS, 0x18, 1),
            x.wf(),
    {
        self.cci.get_telemetry_mode()
    }

    /// The exchange that asks whether AGC is on.
    pub fn get_agc_enable(&self) -> (x: CciExchange)
        ensures
            x.gets_with(Module::AGC, 0x00, 2),
            x.wf(),
    {
        self.cci.get_agc_enable()
    }

    /// The exchange that turns AGC on or off.
    pub fn set_agc_enable(&self, mode: u16) -> (x: CciExchange)
        ensures
            x.sets_with(Module::AGC, 0x00, 2, mode, false),
            x.wf(),
    {
        self.cci.set_agc_enable(mode)
    }

    /// Configure robust VoSPI acquisition behavior for Lepton 3.x/3.5.
    pub fn set_robust_config(&mut self, config: RobustCaptureConfig)
        requires
            old(self).wf(),
            config.well_formed(),
        ensures
            final(self).wf(),
            final(self).config() == config,
            final(self).counters() == old(self).counters(),
            final(self).latched() == old(self).latched(),
            final(self).sync() == old(self).sync(),
            final(self).held_frame() == old(self).held_frame(),
    {
        self.robust_config = config;
        self.packet_buffer = vec![0u8; config.packet_size_bytes];
    }

    /// Returns the active robust VoSPI acquisition configuration.
    pub fn robust_config(&self) -> (cfg: RobustCaptureConfig)
        ensures
            cfg == self.config(),
    {
        self.robust_config
    }

    /// Returns cumulative diagnostic counters for robust capture attempts.
    pub fn diagnostics(&self) -> (d: FrameDiagnostics)
        ensures
            d == self.counters(),
    {
        self.diagnostics
    }

    /// The Lepton 2.x frame that the driver holds.
    pub fn get_frame(&self) -> (frame: &Box<[u8; FRAME_BYTES]>)
        requires
            self.wf(),
        ensures
            frame@ == self.held_frame(),
            frame@.len() == FRAME_BYTES,
    {
        &self.frame
    }

    /// Replaces the Lepton 2.x frame that the driver holds; data of another
    /// length than a frame's is refused.
    pub fn set_frame(&mut self, data: &[u8]) -> (res: Result<(), &'static str>)
        requires
            old(self).wf(),
        ensures
            final(self).wf(),
            final(self).config() == old(self).config(),
            final(self).counters() == old(self).counters(),
            final(self).latched() == old(self).latched(),
            final(self).sync() == old(self).sync(),
            res is Ok <==> data@.len() == FRAME_BYTES,
            final(self).held_frame() == if data@.len() == FRAME_BYTES {
                data@
            } else {
                old(self).held_frame()
            },
    {
        if data.len() != FRAME_BYTES {
            return Err("Data length does not match frame buffer size");
        }
        let mut i: usize = 0;
        while i < FRAME_BYTES
            invariant
                i <= FRAME_BYTES,
                data@.len() == FRAME_BYTES,
                self.frame@.len() == FRAME_BYTES,
                self.packet_buffer == old(self).packet_buffer,
                self.robust_config == old(self).robust_config,
                self.diagnostics == old(self).diagnostics,
                self.first_valid_synced == old(self).first_valid_synced,
                self.sync_state == old(self).sync_state,
                self.cci == old(self).cci,
                forall|j: int| 0 <= j < i ==> self.frame@[j] == data@[j],
            decreases FRAME_BYTES - i,
        {
            self.frame[i] = data[i];
            i = i + 1;
        }
        assert(self.frame@ =~= data@);
        Ok(())
    }

    /// Allocation-free robust capture into a caller-provided buffer with
    /// timestamp/tick source. The packets come from `source`; the tick of the
    /// attempt that brings the frame is stamped on its record.
    pub fn read_frame_robust_into_with_ticks<I2C, S, F>(
        &mut self,
        source: &mut S,
        out: &mut [u8],
        now_ticks: F,
    ) -> (res: Result<FrameMeta, LeptonError<I2C, S::Error>>) where
        S: PacketSource,
        F: FnMut() -> u64,

        requires
            old(self).wf(),
            call_requires(now_ticks, ()),
        ensures
            final(self).wf(),
            final(self).config() == old(self).config(),
            final(self).held_frame() == old(self).held_frame(),
            final(out)@.len() == old(out)@.len(),
            captured_by::<I2C, S::Error>(*old(self), *final(self), old(out)@, final(out)@, res),
            res matches Ok(meta) ==> call_ensures(now_ticks, (), meta.capture_ticks),
    {
        let ghost before = *self;
        let ghost buffer = out@;
        let outcome = capture_frame_into(
            source,
            &self.robust_config,
            &mut self.first_valid_synced,
            &mut self.sync_state,
            &mut self.diagnostics,
            out,
            self.packet_buffer.as_mut_slice(),
            now_ticks,
        );
        let ghost fault = outcome;
        let res = match outcome {
            Ok(meta) => Ok(meta),
            Err(e) => Err(LeptonError::from_capture(e)),
        };
        proof {
            let cfg = before.config();
            if capture_ready(&cfg, before.packet_buffer@.len(), buffer.len()) {
                let taken = choose|taken: Seq<Seq<u8>>|
                    #[trigger] captured::<S::Error>(
                        &cfg,
                        before.latched(),
                        buffer,
                        before.counters(),
                        taken,
                        out@,
                        self.counters(),
                        self.sync(),
                        fault,
                    );
                assert(captured::<S::Error>(
                    &cfg,
                    before.latched(),
                    buffer,
                    before.counters(),
                    taken,
                    out@,
                    self.counters(),
                    self.sync(),
                    fault,
                ) && res == driver_result::<I2C, S::Error>(fault));
            }
        }
        res
    }

    /// Allocation-free robust capture into a caller-provided buffer; the
    /// record of the frame bears the tick 0.
    pub fn read_frame_robust_into<I2C, S>(&mut self, source: &mut S, out: &mut [u8]) -> (res:
        Result<FrameMeta, LeptonError<I2C, S::Error>>) where S: PacketSource
        requires
            old(self).wf(),
        ensures
            final(self).wf(),
            final(self).config() == old(self).config(),
            final(self).held_frame() == old(self).held_frame(),
            final(out)@.len() == old(out)@.len(),
            captured_by::<I2C, S::Error>(*old(self), *final(self), old(out)@, final(out)@, res),
            res matches Ok(meta) ==> meta.capture_ticks == 0,
    {
        let no_clock = || -> (ticks: u64)
            ensures
                ticks == 0,
            { 0 };
        self.read_frame_robust_into_with_ticks(source, out, no_clock)
    }

    /// Acquires one robustly validated frame (Lepton 3.x/3.5) into a buffer
    /// of its own, which starts as zeros. A configuration whose frame no
    /// buffer of this machine can hold is refused.
    pub fn read_frame_robust<I2C, S>(&mut self, source: &mut S) -> (res: Result<
        CapturedFrame,
        LeptonError<I2C, S::Error>,
    >) where S: PacketSource
        requires
            old(self).wf(),
        ensures
            final(self).wf(),
            final(self).config() == old(self).config(),
            final(self).held_frame() == old(self).held_frame(),
            framed_by::<I2C, S::Error>(*old(self), *final(self), res),
    {
        let required: usize = match checked_frame_buffer_len(&self.robust_config) {
            Some(required) => required,
            None => {
                return Err(LeptonError::InvalidPacket);
            },
        };
        let mut frame: Vec<u8> = vec![0u8; required];
        assert(frame@ =~= zeroed(self.robust_config.frame_len()));
        let ghost before = *self;
        let outcome = self.read_frame_robust_into(source, frame.as_mut_slice());
        let ghost meta_result = outcome;
        let res = match outcome {
            Ok(meta) => Ok(CapturedFrame { pixels: frame, meta }),
            Err(e) => Err(e),
        };
        proof {
            assert(captured_by::<I2C, S::Error>(
                before,
                *self,
                zeroed(before.config().frame_len()),
                frame@,
                meta_result,
            ));
            assert(meta_result == record_of(res));
        }
        res
    }

    /// Begins the self-check of the camera: each of the deterministic test
    /// patterns is selected in turn, a frame is captured and held against
    /// the pattern, and the source that the camera had is restored.
    pub fn check_camera(&self) -> (check: CameraCheck)
        ensures
            check == CameraCheck::initial(),
            check.wf(),
    {
        CameraCheck::begin()
    }

    /// Columns of a frame of the configuration in force, in pixels of two
    /// bytes.
    pub open spec fn check_cols(&self) -> usize {
        (self.config().payload_len() / 2) as usize
    }

    /// Rows of a frame of the configuration in force, held at the top of
    /// the range of `usize`.
    pub open spec fn check_rows(&self) -> usize {
        if self.config().frame_lines() > usize::MAX {
            usize::MAX
        } else {
            self.config().frame_lines() as usize
        }
    }

    /// Columns and rows of a frame of the configuration in force.
    pub fn check_geometry(&self) -> (geometry: (usize, usize))
        ensures
            geometry.0 == self.check_cols(),
            geometry.1 == self.check_rows(),
    {
        let payload: usize = if self.robust_config.packet_size_bytes < PACKET_HEADER_BYTES {
            0
        } else {
            self.robust_config.packet_size_bytes - PACKET_HEADER_BYTES
        };
        assert(self.robust_config.lines_per_segment * self.robust_config.segments_per_frame
            == self.robust_config.segments_per_frame * self.robust_config.lines_per_segment)
            by (nonlinear_arith);
        let rows: usize = match self.robust_config.lines_per_segment.checked_mul(
            self.robust_config.segments_per_frame,
        ) {
            Some(rows) => rows,
            None => usize::MAX,
        };
        (payload / 2, rows)
    }

    /// Judges the frame that was captured for the test of `check` that
    /// runs, in the geometry of the configuration in force. `pixels` is
    /// `None` where the capture failed.
    pub fn run_camera_check_test(&self, check: &CameraCheck, pixels: Option<&[u8]>) -> (result:
        CameraCheckTestResult)
        ensures
            check.judges(frame_of(pixels), self.check_cols(), self.check_rows(), result),
    {
        let (cols, rows) = self.check_geometry();
        check.run_camera_check_test(pixels, cols, rows)
    }

    /// Whether a packet opens a Lepton 2.x frame: its ID is 0.
    pub fn is_frame_start(packet: &[u8]) -> (res: bool)
        ensures
            res == (packet@.len() >= 2 && packet@[0] == 0 && packet@[1] == 0),
    {
        packet.len() >= 2 && packet[0] == 0 && packet[1] == 0
    }

    /// Puts a Lepton 2.x frame together from the packet that opens it and
    /// the bytes of the 59 packets that follow. The caller reads packets
    /// until one opens a frame, then the rest in one transfer.
    pub fn read_frame(first_packet: &[u8], rest: &[u8]) -> (frame: Vec<u8>)
        requires
            first_packet@.len() == PACKET_SIZE_BYTES,
            rest@.len() == FRAME_BYTES - PACKET_SIZE_BYTES,
        ensures
            frame@ == first_packet@ + rest@,
            frame@.len() == FRAME_BYTES,
    {
        let mut frame: Vec<u8> = Vec::new();
        let mut i: usize = 0;
        while i < PACKET_SIZE_BYTES
            invariant
                i <= PACKET_SIZE_BYTES,
                first_packet@.len() == PACKET_SIZE_BYTES,
                frame@ == first_packet@.take(i as int),
            decreases PACKET_SIZE_BYTES - i,
        {
            frame.push(first_packet[i]);
            assert(first_packet@.take(i + 1) =~= first_packet@.take(i as int).push(
                first_packet@[i as int],
            ));
            i = i + 1;
        }
        assert(first_packet@.take(i as int) =~= first_packet@);
        let mut j: usize = 0;
        while j < FRAME_BYTES - PACKET_SIZE_BYTES
            invariant
                j <= FRAME_BYTES - PACKET_SIZE_BYTES,
                rest@.len() == FRAME_BYTES - PACKET_SIZE_BYTES,
                frame@ == first_packet@ + rest@.take(j as int),
            decreases FRAME_BYTES - PACKET_SIZE_BYTES - j,
        {
            frame.push(rest[j]);
            assert(first_packet@ + rest@.take(j + 1) =~= (first_packet@ + rest@.take(
                j as int,
            )).push(rest@[j as int]));
            j = j + 1;
        }
        assert(rest@.take(j as int) =~= rest@);
        frame
    }

    /// Helper for shared SPI bus use: the caller takes its lock, and `lock`
    /// runs on the driver while the lock is held. What `lock` does to the
    /// driver and what it returns is all that happens.
    pub fn read_frame_robust_locked<R, E, F>(&mut self, lock: F) -> (res: Result<R, E>) where
        F: FnOnce(&mut Self) -> Result<R, E>,

        requires
            forall|driver: &mut Self|
                mut_ref_current(driver) == *old(self) ==> #[trigger] call_requires(lock, (driver,)),
        ensures
            exists|driver: &mut Self|
                mut_ref_current(driver) == *old(self) && mut_ref_future(driver) == *final(self)
                    && #[trigger] call_ensures(lock, (driver,), res),
    {
        lock(self)
    }

    /// Acquires one robustly validated frame (Lepton 3.x/3.5) and metadata.
    pub fn read_frame_with_meta<I2C, S>(&mut self, source: &mut S) -> (res: Result<
        CapturedFrame,
        LeptonError<I2C, S::Error>,
    >) where S: PacketSource
        requires
            old(self).wf(),
        ensures
            final(self).wf(),
            final(self).config() == old(self).config(),
            final(self).held_frame() == old(self).held_frame(),
            framed_by::<I2C, S::Error>(*old(self), *final(self), res),
    {
        self.read_frame_robust(source)
    }
}

/// The driver's result for a result of the capture.
pub open spec fn driver_result<I2C, SPI>(res: Result<FrameMeta, CaptureError<SPI>>) -> Result<
    FrameMeta,
    LeptonError<I2C, SPI>,
> {
    match res {
        Ok(meta) => Ok(meta),
        Err(e) => Err(capture_fault::<I2C, SPI>(e)),
    }
}

/// What a capture through the driver `before` leaves behind: the driver
/// `after`, the buffer `pixels` and the result `res`. A buffer too small
/// for a frame, or a packet size too small for a header, is refused and
/// nothing changes; else there are packets, those that the source handed
/// out, on which the capture machine comes to this end. The latch is set by
/// a frame and by nothing else.
pub open spec fn captured_by<I2C, SPI>(
    before: Lepton,
    after: Lepton,
    buffer: Seq<u8>,
    pixels: Seq<u8>,
    res: Result<FrameMeta, LeptonError<I2C, SPI>>,
) -> bool {
    let cfg = before.config();
    &&& after.latched() == (before.latched() || res is Ok)
    &&& if cfg.packet_size_bytes < PACKET_HEADER_BYTES || buffer.len() < cfg.frame_len() {
        &&& res is Err
        &&& res->Err_0 == LeptonError::<I2C, SPI>::InvalidPacket
        &&& after.counters() == before.counters()
        &&& after.sync() == before.sync()
        &&& pixels == buffer
    } else {
        exists|taken: Seq<Seq<u8>>, fault: Result<FrameMeta, CaptureError<SPI>>|
            #[trigger] captured::<SPI>(
                &cfg,
                before.latched(),
                buffer,
                before.counters(),
                taken,
                pixels,
                after.counters(),
                after.sync(),
                fault,
            ) && res == driver_result::<I2C, SPI>(fault)
    }
}

/// What a capture into a buffer of the driver's making leaves behind. Where
/// no buffer can hold the frame the capture is refused and nothing changes;
/// else the buffer starts as zeros, and the frame that is handed out fills
/// it.
pub open spec fn framed_by<I2C, SPI>(
    before: Lepton,
    after: Lepton,
    res: Result<CapturedFrame, LeptonError<I2C, SPI>>,
) -> bool {
    let cfg = before.config();
    if cfg.frame_len() > usize::MAX {
        &&& res is Err
        &&& res->Err_0 == LeptonError::<I2C, SPI>::InvalidPacket
        &&& after.counters() == before.counters()
        &&& after.sync() == before.sync()
        &&& after.latched() == before.latched()
    } else {
        &&& res matches Ok(frame) ==> frame.pixels@.len() == cfg.frame_len()
            && frame.meta.capture_ticks == 0
        &&& exists|pixels: Seq<u8>| #[trigger]
            captured_by::<I2C, SPI>(
                before,
                after,
                zeroed(cfg.frame_len()),
                pixels,
                record_of(res),
            ) && (res matches Ok(frame) ==> frame.pixels@ == pixels)
    }
}

} // verus!
