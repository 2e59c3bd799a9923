//! VoSPI: the packet header, the capture configuration and its counters,
//! and the capture of one frame from a packet source.

use vstd::prelude::*;
use crate::assembly::{
    assemble_packet, attempt_after, lemma_attempt_push, Assembly, Attempt, FrameCursor,
};
use crate::capture::{
    capture_after, drain, is_stream_fault, lemma_attempt_chunk, lemma_capture_invariant,
    lemma_capture_push, open_attempt, plan_recovery, recovery_for, settle, validated, Capture,
    CapturePhase, Recovery,
};
use crate::crc::{lepton_packet_crc16_spec, packet_crc16, PACKET_HEADER_BYTES};

verus! {

/// Bits of the packet ID that are all set in a discard packet.
pub const PACKET_DISCARD_MASK: u16 = 0xF000;

/// Bits of the packet ID that hold the line number.
pub const PACKET_NUMBER_MASK: u16 = 0x0FFF;

/// Bits of the packet ID, once shifted down by 12, that hold the segment.
pub const SEGMENT_BITS_MASK: u16 = 0x7;

/// The one line of a segment whose packet ID carries the segment number.
pub const SEGMENT_LINE: u16 = 20;

/// How the capture stands to the stream of packets.
#[derive(Debug, Clone, Copy, PartialEq, Eq, Structural)]
pub enum SyncState {
    /// No attempt is under way: the state of a new driver, and the state
    /// after an attempt that failed.
    Unsynced,
    /// An attempt is looking for the start of a frame: no frame has been
    /// captured yet, and packets out of order are taken for noise.
    Seeking,
    /// A frame has been captured: a packet out of order is a fault.
    Locked,
}

/// How a frame is laid out in packets, and how long a capture tries.
#[derive(Debug, Clone, Copy)]
pub struct RobustCaptureConfig {
    /// Check the CRC of every packet that is no discard packet.
    pub enable_crc: bool,
    /// Failed attempts after which a capture reports `SyncLost`.
    pub max_resync_attempts: u32,
    /// Failed attempts after which a capture reports the fault of the last.
    pub max_frame_retries: u32,
    /// Bytes in one packet, header included.
    pub packet_size_bytes: usize,
    pub lines_per_segment: usize,
    pub segments_per_frame: usize,
    /// Discard packets that one attempt puts up with.
    pub max_discard_packets: u32,
    /// Packets that one attempt takes before it times out.
    pub timeout_packets: u32,
    /// Packets that are read and dropped after a failed attempt.
    pub backoff_packet_reads: u32,
}

impl RobustCaptureConfig {
    /// The configuration of a Lepton 3.x with telemetry off.
    pub open spec fn standard() -> Self {
        RobustCaptureConfig {
            enable_crc: true,
            max_resync_attempts: 20,
            max_frame_retries: 4,
            packet_size_bytes: 164,
            lines_per_segment: 60,
            segments_per_frame: 4,
            max_discard_packets: 600,
            timeout_packets: 3000,
            backoff_packet_reads: 2,
        }
    }

    /// Bytes of payload in one packet; 0 where the packet cannot even hold
    /// its header.
    pub open spec fn payload_len(&self) -> int {
        if self.packet_size_bytes < PACKET_HEADER_BYTES {
            0
        } else {
            self.packet_size_bytes - PACKET_HEADER_BYTES
        }
    }

    /// Number of line slots in one frame.
    pub open spec fn frame_lines(&self) -> int {
        self.segments_per_frame * self.lines_per_segment
    }

    /// Bytes of payload in one frame.
    pub open spec fn frame_len(&self) -> int {
        self.payload_len() * self.lines_per_segment * self.segments_per_frame
    }

    /// The geometry is one that the assembler can walk: a frame with
    /// segments has lines in them, and the segment after the last can still
    /// be counted.
    pub open spec fn well_formed(&self) -> bool {
        &&& self.segments_per_frame < usize::MAX
        &&& (self.segments_per_frame > 0 ==> self.lines_per_segment > 0)
    }
}

impl Default for RobustCaptureConfig {
    fn default() -> (cfg: Self)
        ensures
            cfg == Self::standard(),
    {
        RobustCaptureConfig {
            enable_crc: true,
            max_resync_attempts: 20,
            max_frame_retries: 4,
            packet_size_bytes: 164,
            lines_per_segment: 60,
            segments_per_frame: 4,
            max_discard_packets: 600,
            timeout_packets: 3000,
            backoff_packet_reads: 2,
        }
    }
}

/// Counters that live as long as the driver does.
#[derive(Debug, Clone, Copy)]
pub struct FrameDiagnostics {
    pub discard_count: u32,
    pub crc_error_count: u32,
    pub bad_line_count: u32,
    pub resync_count: u32,
}

impl FrameDiagnostics {
    /// The counters of a new driver.
    pub open spec fn zero() -> Self {
        FrameDiagnostics { discard_count: 0, crc_error_count: 0, bad_line_count: 0, resync_count: 0 }
    }

    /// No counter of `self` is below its value in `earlier`.
    pub open spec fn not_below(&self, earlier: &FrameDiagnostics) -> bool {
        &&& self.discard_count >= earlier.discard_count
        &&& self.crc_error_count >= earlier.crc_error_count
        &&& self.bad_line_count >= earlier.bad_line_count
        &&& self.resync_count >= earlier.resync_count
    }
}

impl Default for FrameDiagnostics {
    fn default() -> (d: Self)
        ensures
            d == Self::zero(),
    {
        FrameDiagnostics { discard_count: 0, crc_error_count: 0, bad_line_count: 0, resync_count: 0 }
    }
}

/// What one capture attempt saw, handed out with the frame it produced.
#[derive(Debug, Clone, Copy)]
pub struct FrameMeta {
    pub valid: bool,
    pub capture_ticks: u64,
    pub discard_packets: u32,
    pub crc_errors: u32,
    pub bad_line_count: u32,
    pub resync_count: u32,
}

impl FrameMeta {
    /// The record of an attempt that starts at tick `ticks`.
    pub open spec fn fresh(ticks: u64) -> Self {
        FrameMeta {
            valid: false,
            capture_ticks: ticks,
            discard_packets: 0,
            crc_errors: 0,
            bad_line_count: 0,
            resync_count: 0,
        }
    }
}

impl Default for FrameMeta {
    fn default() -> (m: Self)
        ensures
            m == Self::fresh(0),
    {
        FrameMeta {
            valid: false,
            capture_ticks: 0,
            discard_packets: 0,
            crc_errors: 0,
            bad_line_count: 0,
            resync_count: 0,
        }
    }
}

/// A frame with its record.
#[derive(Debug, Clone)]
pub struct CapturedFrame {
    pub pixels: Vec<u8>,
    pub meta: FrameMeta,
}

/// The header of a packet.
#[derive(Debug, Clone, Copy)]
pub struct PacketHeader {
    /// The first two bytes, big-endian.
    pub packet_id: u16,
    /// The line number: the low 12 bits of the ID.
    pub packet_number: u16,
    /// The CRC field: the next two bytes, big-endian.
    pub crc: u16,
    /// The top nibble of the ID is `F`.
    pub is_discard: bool,
}

/// Why a capture did not bring a frame.
#[derive(Debug, PartialEq, Eq)]
#[allow(inconsistent_fields)]
pub enum CaptureError<SpiError> {
    /// The source of the packets failed; its error is passed on as it came.
    Spi(SpiError),
    /// A packet without a header, line 20 with a segment that no frame
    /// has, a buffer that is too small, or a packet size below 4.
    InvalidPacket,
    /// More attempts failed than `max_resync_attempts` allows.
    SyncLost,
    /// One attempt met more discard packets than `max_discard_packets`.
    DiscardPacketFlood,
    /// While locked, a packet whose CRC field does not hold its checksum.
    CrcMismatch,
    /// While locked, line 20 of another segment than the one that was due.
    SegmentOutOfOrder { expected: u8, observed: u8 },
    /// While locked, another line than the one that was due.
    LineOutOfOrder { expected: u16, observed: u16 },
    /// One attempt took more packets than `timeout_packets`.
    Timeout,
    /// No attempt is left and none has left a fault to report.
    RetryLimitExceeded,
}

/// Two bytes read as one big-endian number.
pub open spec fn be_u16(hi: u8, lo: u8) -> u16 {
    (hi as u16) << 8 | (lo as u16)
}

/// The segment number that a packet ID carries in bits 12 to 14.
pub open spec fn segment_bits(packet_id: u16) -> u8 {
    ((packet_id >> 12) & SEGMENT_BITS_MASK) as u8
}

/// The header that the first four bytes of `packet` spell.
pub open spec fn header_of(packet: Seq<u8>) -> PacketHeader {
    let packet_id = be_u16(packet[0], packet[1]);
    PacketHeader {
        packet_id,
        packet_number: packet_id & PACKET_NUMBER_MASK,
        crc: be_u16(packet[2], packet[3]),
        is_discard: (packet_id & PACKET_DISCARD_MASK) == PACKET_DISCARD_MASK,
    }
}

/// The header of `packet`, where it has one.
pub open spec fn packet_header(packet: Seq<u8>) -> Option<PacketHeader> {
    if packet.len() < PACKET_HEADER_BYTES {
        None
    } else {
        Some(header_of(packet))
    }
}

/// The CRC field of `packet` holds the checksum of `packet`.
pub open spec fn crc_matches(packet: Seq<u8>) -> bool {
    packet.len() >= PACKET_HEADER_BYTES && Some(header_of(packet).crc) == packet_crc16(packet)
}

impl PacketHeader {
    /// The segment that this header names: only line 20 of a packet that is
    /// no discard packet names one.
    pub open spec fn segment(&self) -> Option<u8> {
        if self.packet_number == SEGMENT_LINE && !self.is_discard {
            Some(segment_bits(self.packet_id))
        } else {
            None
        }
    }

    /// The segment that this header names, if it names one.
    pub fn decode_segment_on_packet20(&self) -> (res: Option<u8>)
        ensures
            res == self.segment(),
            res is Some <==> self.packet_number == SEGMENT_LINE && !self.is_discard,
    {
        if self.packet_number != SEGMENT_LINE || self.is_discard {
            return None;
        }
        let segment: u8 = ((self.packet_id >> 12) & SEGMENT_BITS_MASK) as u8;
        Some(segment)
    }
}

/// What the bit masks of the header mean in numbers: the line number is the
/// ID modulo 4096, a discard packet is one whose ID starts with the nibble
/// `F`, and the segment is the next-to-top three bits.
pub proof fn lemma_header_fields(packet_id: u16)
    ensures
        packet_id & PACKET_NUMBER_MASK == packet_id % 4096,
        (packet_id & PACKET_DISCARD_MASK == PACKET_DISCARD_MASK) <==> packet_id >= 0xF000,
        segment_bits(packet_id) == (packet_id / 4096) % 8,
        segment_bits(packet_id) <= 7,
{
    assert(packet_id & 0x0FFF == packet_id % 4096) by (bit_vector);
    assert((packet_id & 0xF000 == 0xF000) <==> packet_id >= 0xF000) by (bit_vector);
    assert((packet_id >> 12) & 0x7 == (packet_id / 4096) % 8) by (bit_vector);
    assert((packet_id >> 12) & 0x7 <= 7) by (bit_vector);
}

/// A packet of fewer than four bytes has neither header nor checksum, and
/// its CRC cannot be checked.
pub proof fn lemma_short_packet(packet: Seq<u8>)
    requires
        packet.len() < PACKET_HEADER_BYTES,
    ensures
        packet_header(packet) is None,
        packet_crc16(packet) is None,
        !crc_matches(packet),
{
}

/// The value of two big-endian bytes.
pub proof fn lemma_be_u16(hi: u8, lo: u8)
    ensures
        be_u16(hi, lo) == hi * 256 + lo,
{
    assert((hi as u16) << 8 | (lo as u16) == hi * 256 + lo) by (bit_vector);
}

/// Reads the header of a packet; a packet of fewer than four bytes has
/// none.
pub fn parse_packet_header(packet: &[u8]) -> (res: Option<PacketHeader>)
    ensures
        res == packet_header(packet@),
        res is None <==> packet@.len() < PACKET_HEADER_BYTES,
{
    if packet.len() < PACKET_HEADER_BYTES {
        return None;
    }
    let packet_id: u16 = (packet[0] as u16) << 8 | (packet[1] as u16);
    let crc: u16 = (packet[2] as u16) << 8 | (packet[3] as u16);
    Some(
        PacketHeader {
            packet_id,
            packet_number: packet_id & PACKET_NUMBER_MASK,
            crc,
            is_discard: (packet_id & PACKET_DISCARD_MASK) == PACKET_DISCARD_MASK,
        },
    )
}

/// Whether `packet` is a discard packet; one without a header is none.
pub fn is_discard_packet(packet: &[u8]) -> (res: bool)
    ensures
        res == (packet_header(packet@) matches Some(h) && h.is_discard),
{
    match parse_packet_header(packet) {
        Some(h) => h.is_discard,
        None => false,
    }
}

/// The line number of `packet`.
pub fn line_number(packet: &[u8]) -> (res: Option<u16>)
    ensures
        res == match packet_header(packet@) {
            Some(h) => Some(h.packet_number),
            None => None,
        },
{
    match parse_packet_header(packet) {
        Some(h) => Some(h.packet_number),
        None => None,
    }
}

/// The segment number of `packet`, where it carries one.
pub fn segment_number(packet: &[u8]) -> (res: Option<u8>)
    ensures
        res == match packet_header(packet@) {
            Some(h) => h.segment(),
            None => None,
        },
{
    match parse_packet_header(packet) {
        Some(h) => h.decode_segment_on_packet20(),
        None => None,
    }
}

/// Recomputes the checksum of `packet` and holds it against the CRC field.
pub fn validate_packet_crc(packet: &[u8]) -> (res: bool)
    ensures
        res == crc_matches(packet@),
{
    match parse_packet_header(packet) {
        Some(header) => match lepton_packet_crc16_spec(packet) {
            Some(calc) => header.crc == calc,
            None => false,
        },
        None => false,
    }
}

/// Where the packets come from: a bus, or packets staged in memory. A
/// source may pause between packets as the camera wants it; the capture
/// adds no pause of its own.
pub trait PacketSource {
    type Error;

    /// Fills the whole of `packet` with the next packet, or reports why it
    /// could not. The one thing that a capture relies on is that `packet`
    /// is as long after the call as before it, which holds of every
    /// implementation: a slice cannot be made longer or shorter.
    fn read_packet(&mut self, packet: &mut [u8]) -> (res: Result<(), Self::Error>)
        ensures
            final(packet)@.len() == old(packet)@.len(),
    ;
}

/// Every packet of `packets` has `size` bytes.
pub open spec fn all_sized(packets: Seq<Seq<u8>>, size: int) -> bool {
    forall|i: int| 0 <= i < packets.len() ==> (#[trigger] packets[i]).len() == size
}

/// The attempt that `read_one_frame` starts: nothing read, the buffers and
/// counters as they are handed in.
pub open spec fn fresh_attempt(
    frame: Seq<u8>,
    diagnostics: FrameDiagnostics,
    meta: FrameMeta,
) -> Assembly {
    Assembly { cursor: FrameCursor::start(), frame, diagnostics, meta }
}

/// Bytes that a frame buffer must hold for `cfg`.
pub fn required_frame_buffer_len(cfg: &RobustCaptureConfig) -> (len: usize)
    requires
        cfg.frame_len() <= usize::MAX,
    ensures
        len == cfg.frame_len(),
{
    if cfg.packet_size_bytes < PACKET_HEADER_BYTES {
        assert(cfg.frame_len() == 0) by (nonlinear_arith)
            requires
                cfg.frame_len() == 0 * cfg.lines_per_segment * cfg.segments_per_frame,
        ;
        return 0;
    }
    match checked_frame_buffer_len(cfg) {
        Some(len) => len,
        None => 0,
    }
}

/// Bytes that a frame buffer must hold for `cfg`, or `None` where no buffer
/// of this machine can be that long.
pub fn checked_frame_buffer_len(cfg: &RobustCaptureConfig) -> (len: Option<usize>)
    ensures
        len == if cfg.frame_len() <= usize::MAX {
            Some(cfg.frame_len() as usize)
        } else {
            None
        },
{
    let ghost p = cfg.payload_len();
    let ghost l = cfg.lines_per_segment as int;
    let ghost g = cfg.segments_per_frame as int;
    if cfg.packet_size_bytes < PACKET_HEADER_BYTES || cfg.lines_per_segment == 0
        || cfg.segments_per_frame == 0 {
        assert(p * l * g == 0) by (nonlinear_arith)
            requires
                p == 0 || l == 0 || g == 0,
        ;
        return Some(0);
    }
    let payload: usize = cfg.packet_size_bytes - PACKET_HEADER_BYTES;
    if payload == 0 {
        assert(p * l * g == 0) by (nonlinear_arith)
            requires
                p == 0,
        ;
        return Some(0);
    }
    match payload.checked_mul(cfg.lines_per_segment) {
        None => {
            assert(p * l * g > usize::MAX) by (nonlinear_arith)
                requires
                    p * l > usize::MAX,
                    g >= 1,
            ;
            None
        },
        Some(per_segment) => match per_segment.checked_mul(cfg.segments_per_frame) {
            None => None,
            Some(len) => Some(len),
        },
    }
}

/// What `read_one_frame` leaves behind when the source has handed it the
/// packets `taken`: it took every one of them, and buffers, counters and
/// result are those of the attempt after them. A source that fails leaves
/// the attempt running.
pub open spec fn frame_read<E>(
    cfg: &RobustCaptureConfig,
    locked: bool,
    start: Assembly,
    taken: Seq<Seq<u8>>,
    frame: Seq<u8>,
    diagnostics: FrameDiagnostics,
    meta: FrameMeta,
    res: Result<(), CaptureError<E>>,
) -> bool {
    let end = attempt_after::<E>(cfg, locked, start, taken);
    &&& all_sized(taken, cfg.packet_size_bytes as int)
    &&& taken.len() > 0 ==> attempt_after::<E>(cfg, locked, start, taken.drop_last()).running(cfg)
    &&& frame == end.assembly.frame
    &&& diagnostics == end.assembly.diagnostics
    &&& meta == end.assembly.meta
    &&& match res {
        Ok(()) => end.succeeded(cfg),
        Err(CaptureError::Spi(_)) => end.running(cfg),
        Err(e) => end.fault == Some(e),
    }
}

/// Reads packets from `source` until one frame stands in `frame`, or until
/// the attempt fails. While `sync_state` is `Locked` the first packet out of
/// order ends the attempt; otherwise the assembler looks for the start of a
/// frame and begins anew on every such packet. The outcome is that of the
/// assembler on a run of packets of the configured size: those that the
/// source handed out, for which the contract, knowing nothing of the
/// source, has no other name than "there are packets".
pub fn read_one_frame<S: PacketSource>(
    source: &mut S,
    cfg: &RobustCaptureConfig,
    frame: &mut [u8],
    packet_buf: &mut [u8],
    sync_state: &mut SyncState,
    diagnostics: &mut FrameDiagnostics,
    meta: &mut FrameMeta,
) -> (res: Result<(), CaptureError<S::Error>>)
    requires
        cfg.well_formed(),
        cfg.packet_size_bytes >= PACKET_HEADER_BYTES ==> old(packet_buf)@.len()
            >= cfg.packet_size_bytes && old(frame)@.len() >= cfg.frame_len(),
    ensures
        final(packet_buf)@.len() == old(packet_buf)@.len(),
        final(frame)@.len() == old(frame)@.len(),
        *final(sync_state) == if res is Ok {
            SyncState::Locked
        } else {
            *old(sync_state)
        },
        cfg.packet_size_bytes < PACKET_HEADER_BYTES ==> {
            &&& res == Err::<(), CaptureError<S::Error>>(CaptureError::InvalidPacket)
            &&& final(frame)@ == old(frame)@
            &&& *final(diagnostics) == *old(diagnostics)
            &&& *final(meta) == *old(meta)
        },
        cfg.packet_size_bytes >= PACKET_HEADER_BYTES ==> ({
            let locked = *old(sync_state) == SyncState::Locked;
            exists|taken: Seq<Seq<u8>>|
                #[trigger] frame_read::<S::Error>(
                    cfg,
                    locked,
                    fresh_attempt(old(frame)@, *old(diagnostics), *old(meta)),
                    taken,
                    final(frame)@,
                    *final(diagnostics),
                    *final(meta),
                    res,
                )
        }),
{
    if cfg.packet_size_bytes < PACKET_HEADER_BYTES {
        return Err(CaptureError::InvalidPacket);
    }
    let locked = *sync_state == SyncState::Locked;
    let mut cursor = FrameCursor { expected_segment: 1, expected_packet_number: 0, packets_seen: 0 };
    let ghost start = fresh_attempt(frame@, *diagnostics, *meta);
    let ghost mut taken: Seq<Seq<u8>> = Seq::empty();
    assert(cursor.slot(cfg) == 0) by (nonlinear_arith)
        requires
            cursor.expected_segment == 1,
            cursor.expected_packet_number == 0,
            cursor.slot(cfg) == (cursor.expected_segment - 1) * cfg.lines_per_segment
                + cursor.expected_packet_number,
    ;
    while cursor.expected_segment <= cfg.segments_per_frame
        invariant
            cfg.well_formed(),
            cfg.packet_size_bytes >= PACKET_HEADER_BYTES,
            packet_buf@.len() == old(packet_buf)@.len(),
            packet_buf@.len() >= cfg.packet_size_bytes,
            frame@.len() == old(frame)@.len(),
            frame@.len() >= cfg.frame_len(),
            cursor.wf(cfg),
            *sync_state == *old(sync_state),
            locked == (*old(sync_state) == SyncState::Locked),
            start == fresh_attempt(old(frame)@, *old(diagnostics), *old(meta)),
            all_sized(taken, cfg.packet_size_bytes as int),
            taken.len() > 0 ==> attempt_after::<S::Error>(
                cfg,
                locked,
                start,
                taken.drop_last(),
            ).running(cfg),
            attempt_after::<S::Error>(cfg, locked, start, taken) == (Attempt::<S::Error> {
                assembly: Assembly {
                    cursor,
                    frame: frame@,
                    diagnostics: *diagnostics,
                    meta: *meta,
                },
                fault: None,
            }),
        decreases cfg.timeout_packets - cursor.packets_seen,
    {
        let (head, _rest) = packet_buf.split_at_mut(cfg.packet_size_bytes);
        match source.read_packet(head) {
            Ok(()) => {},
            Err(e) => {
                let res = Err(CaptureError::Spi(e));
                assert(frame_read::<S::Error>(
                    cfg,
                    locked,
                    start,
                    taken,
                    frame@,
                    *diagnostics,
                    *meta,
                    res,
                ));
                return res;
            },
        }
        proof {
            lemma_attempt_push::<S::Error>(cfg, locked, start, taken, head@);
            assert(taken.push(head@).drop_last() =~= taken);
            taken = taken.push(head@);
        }
        match assemble_packet::<S::Error>(cfg, locked, cursor, head, frame, diagnostics, meta) {
            Ok(next) => {
                cursor = next;
            },
            Err(e) => {
                let res = Err(e);
                assert(frame_read::<S::Error>(
                    cfg,
                    locked,
                    start,
                    taken,
                    frame@,
                    *diagnostics,
                    *meta,
                    res,
                ));
                return res;
            },
        }
    }
    assert(frame_read::<S::Error>(
        cfg,
        locked,
        start,
        taken,
        frame@,
        *diagnostics,
        *meta,
        Ok::<(), CaptureError<S::Error>>(()),
    ));
    *sync_state = SyncState::Locked;
    Ok(())
}

/// The buffers are large enough for a capture under `cfg`, and a packet
/// of `cfg` can hold a header.
pub open spec fn capture_ready(cfg: &RobustCaptureConfig, packet_buf_len: nat, frame_len: nat) -> bool {
    &&& cfg.packet_size_bytes >= PACKET_HEADER_BYTES
    &&& packet_buf_len >= cfg.packet_size_bytes
    &&& frame_len >= cfg.frame_len()
}

/// The packets `taken` are of the size that `cfg` names, and the capture
/// that began with `frame0` and `diag0` was not over before the last of
/// them.
pub open spec fn on_record<E>(
    cfg: &RobustCaptureConfig,
    locked: bool,
    frame0: Seq<u8>,
    diag0: FrameDiagnostics,
    taken: Seq<Seq<u8>>,
) -> bool {
    &&& all_sized(taken, cfg.packet_size_bytes as int)
    &&& taken.len() > 0 ==> !(capture_after::<E>(cfg, locked, frame0, diag0, taken.drop_last()).phase
        is Done)
}

/// What a capture leaves behind when the source has handed it the packets
/// `taken`: it took every one of them, and buffer, counters,
/// synchronisation state and result are those of the capture after them.
/// The record of a frame bears the tick of the caller's clock, for which
/// the machine has 0. A source that fails leaves the capture unfinished.
pub open spec fn captured<E>(
    cfg: &RobustCaptureConfig,
    locked: bool,
    frame0: Seq<u8>,
    diag0: FrameDiagnostics,
    taken: Seq<Seq<u8>>,
    frame: Seq<u8>,
    diagnostics: FrameDiagnostics,
    sync_state: SyncState,
    res: Result<FrameMeta, CaptureError<E>>,
) -> bool {
    let end = capture_after::<E>(cfg, locked, frame0, diag0, taken);
    &&& on_record::<E>(cfg, locked, frame0, diag0, taken)
    &&& frame == end.frame
    &&& diagnostics == end.diagnostics
    &&& sync_state == end.sync_state(locked)
    &&& match res {
        Ok(meta) => end.phase == (CapturePhase::<E>::Done {
            result: Ok(FrameMeta { capture_ticks: 0, ..meta }),
        }),
        Err(CaptureError::Spi(_)) => !(end.phase is Done),
        Err(e) => end.phase == (CapturePhase::<E>::Done { result: Err(e) }),
    }
}

/// One attempt of a capture: reads a frame, and where the attempt fails,
/// counts the resync and gives up the synchronisation.
fn attempt_once<S: PacketSource>(
    source: &mut S,
    cfg: &RobustCaptureConfig,
    locked: bool,
    frame: &mut [u8],
    packet_buf: &mut [u8],
    sync_state: &mut SyncState,
    diagnostics: &mut FrameDiagnostics,
    meta: &mut FrameMeta,
    Ghost(failed): Ghost<u32>,
    Ghost(frame0): Ghost<Seq<u8>>,
    Ghost(diag0): Ghost<FrameDiagnostics>,
    Ghost(earlier): Ghost<Seq<Seq<u8>>>,
) -> (out: (Result<(), CaptureError<S::Error>>, Ghost<Seq<Seq<u8>>>))
    requires
        cfg.well_formed(),
        capture_ready(cfg, old(packet_buf)@.len(), old(frame)@.len()),
        *old(meta) == FrameMeta::fresh(old(meta).capture_ticks),
        on_record::<S::Error>(cfg, locked, frame0, diag0, earlier),
        capture_after::<S::Error>(cfg, locked, frame0, diag0, earlier) == open_attempt::<S::Error>(
            cfg,
            failed,
            old(frame)@,
            *old(diagnostics),
        ),
        *old(sync_state) == if locked {
            SyncState::Locked
        } else {
            SyncState::Seeking
        },
    ensures
        final(packet_buf)@.len() == old(packet_buf)@.len(),
        final(frame)@.len() == old(frame)@.len(),
        on_record::<S::Error>(cfg, locked, frame0, diag0, out.1@),
        ({
            let st = capture_after::<S::Error>(cfg, locked, frame0, diag0, out.1@);
            &&& st.frame == final(frame)@
            &&& st.diagnostics == *final(diagnostics)
            &&& match out.0 {
                Ok(()) => {
                    &&& st.phase == (CapturePhase::<S::Error>::Done {
                        result: Ok(validated(FrameMeta { capture_ticks: 0, ..*final(meta) })),
                    })
                    &&& final(meta).capture_ticks == old(meta).capture_ticks
                    &&& *final(sync_state) == SyncState::Locked
                },
                Err(CaptureError::Spi(_)) => {
                    &&& st.phase is Attempting
                    &&& *final(sync_state) == *old(sync_state)
                },
                Err(e) => {
                    let recovery = recovery_for(cfg, locked, failed, e);
                    &&& *final(sync_state) == SyncState::Unsynced
                    &&& st == if recovery == Recovery::Surface {
                        Capture {
                            phase: CapturePhase::<S::Error>::Done { result: Err(e) },
                            failed,
                            frame: final(frame)@,
                            diagnostics: *final(diagnostics),
                        }
                    } else {
                        drain(
                            cfg,
                            failed,
                            final(frame)@,
                            *final(diagnostics),
                            recovery,
                            e,
                            cfg.backoff_packet_reads,
                        )
                    }
                },
            }
        }),
{
    let ghost at_frame = frame@;
    let ghost at_diag = *diagnostics;
    let ghost ticks = meta.capture_ticks;
    let ghost before_meta = *meta;
    let outcome = read_one_frame(source, cfg, frame, packet_buf, sync_state, diagnostics, meta);
    let ghost chunk = choose|chunk: Seq<Seq<u8>>|
        #[trigger] frame_read::<S::Error>(
            cfg,
            locked,
            fresh_attempt(at_frame, at_diag, before_meta),
            chunk,
            frame@,
            *diagnostics,
            *meta,
            outcome,
        );
    proof {
        lemma_attempt_chunk::<S::Error>(
            cfg,
            locked,
            frame0,
            diag0,
            earlier,
            failed,
            at_frame,
            at_diag,
            chunk,
            ticks,
        );
    }
    match outcome {
        Ok(()) => (Ok(()), Ghost(earlier + chunk)),
        Err(CaptureError::Spi(e)) => (Err(CaptureError::Spi(e)), Ghost(earlier + chunk)),
        Err(err) => {
            diagnostics.resync_count = diagnostics.resync_count.saturating_add(1);
            *sync_state = SyncState::Unsynced;
            (Err(err), Ghost(earlier + chunk))
        },
    }
}

/// Reads and drops the packets that follow a failed attempt.
fn drain_backoff<S: PacketSource>(
    source: &mut S,
    cfg: &RobustCaptureConfig,
    packet_buf: &mut [u8],
    Ghost(locked): Ghost<bool>,
    Ghost(failed): Ghost<u32>,
    Ghost(frame): Ghost<Seq<u8>>,
    Ghost(diagnostics): Ghost<FrameDiagnostics>,
    Ghost(recovery): Ghost<Recovery>,
    Ghost(fault): Ghost<CaptureError<S::Error>>,
    Ghost(frame0): Ghost<Seq<u8>>,
    Ghost(diag0): Ghost<FrameDiagnostics>,
    Ghost(earlier): Ghost<Seq<Seq<u8>>>,
) -> (out: (Result<(), S::Error>, Ghost<Seq<Seq<u8>>>))
    requires
        cfg.packet_size_bytes >= PACKET_HEADER_BYTES,
        old(packet_buf)@.len() >= cfg.packet_size_bytes,
        on_record::<S::Error>(cfg, locked, frame0, diag0, earlier),
        capture_after::<S::Error>(cfg, locked, frame0, diag0, earlier) == drain(
            cfg,
            failed,
            frame,
            diagnostics,
            recovery,
            fault,
            cfg.backoff_packet_reads,
        ),
    ensures
        final(packet_buf)@.len() == old(packet_buf)@.len(),
        on_record::<S::Error>(cfg, locked, frame0, diag0, out.1@),
        ({
            let st = capture_after::<S::Error>(cfg, locked, frame0, diag0, out.1@);
            match out.0 {
                Ok(()) => st == settle(cfg, failed, frame, diagnostics, recovery, fault),
                Err(_) => st == (Capture {
                    phase: st.phase,
                    failed,
                    frame,
                    diagnostics,
                }) && st.phase is Draining,
            }
        }),
{
    let ghost mut taken = earlier;
    let mut drained: u32 = 0;
    while drained < cfg.backoff_packet_reads
        invariant
            cfg.packet_size_bytes >= PACKET_HEADER_BYTES,
            packet_buf@.len() == old(packet_buf)@.len(),
            packet_buf@.len() >= cfg.packet_size_bytes,
            drained <= cfg.backoff_packet_reads,
            on_record::<S::Error>(cfg, locked, frame0, diag0, taken),
            capture_after::<S::Error>(cfg, locked, frame0, diag0, taken) == drain(
                cfg,
                failed,
                frame,
                diagnostics,
                recovery,
                fault,
                (cfg.backoff_packet_reads - drained) as u32,
            ),
        decreases cfg.backoff_packet_reads - drained,
    {
        let (head, _rest) = packet_buf.split_at_mut(cfg.packet_size_bytes);
        match source.read_packet(head) {
            Ok(()) => {},
            Err(e) => {
                return (Err(e), Ghost(taken));
            },
        }
        proof {
            lemma_capture_push::<S::Error>(cfg, locked, frame0, diag0, taken, head@);
            assert(taken.push(head@).drop_last() =~= taken);
            taken = taken.push(head@);
        }
        drained = drained + 1;
    }
    (Ok(()), Ghost(taken))
}

/// The loop of the capture controller.
fn run_attempts<S, F>(
    source: &mut S,
    cfg: &RobustCaptureConfig,
    first_valid_synced: &mut bool,
    sync_state: &mut SyncState,
    diagnostics: &mut FrameDiagnostics,
    frame: &mut [u8],
    packet_buf: &mut [u8],
    now_ticks: F,
) -> (res: Result<FrameMeta, CaptureError<S::Error>>) where S: PacketSource, F: FnMut() -> u64
    requires
        cfg.well_formed(),
        call_requires(now_ticks, ()),
    ensures
        final(packet_buf)@.len() == old(packet_buf)@.len(),
        final(frame)@.len() == old(frame)@.len(),
        *final(first_valid_synced) == (*old(first_valid_synced) || res is Ok),
        res matches Ok(meta) ==> call_ensures(now_ticks, (), meta.capture_ticks),
        !capture_ready(cfg, old(packet_buf)@.len(), old(frame)@.len()) ==> {
            &&& res == Err::<FrameMeta, CaptureError<S::Error>>(CaptureError::InvalidPacket)
            &&& final(frame)@ == old(frame)@
            &&& *final(diagnostics) == *old(diagnostics)
            &&& *final(sync_state) == *old(sync_state)
        },
        capture_ready(cfg, old(packet_buf)@.len(), old(frame)@.len()) ==> exists|
            taken: Seq<Seq<u8>>,
        |
            #[trigger] captured::<S::Error>(
                cfg,
                *old(first_valid_synced),
                old(frame)@,
                *old(diagnostics),
                taken,
                final(frame)@,
                *final(diagnostics),
                *final(sync_state),
                res,
            ),
{
    broadcast use vstd::function::group_function_axioms;

    let scratch_len: usize = packet_buf.len();
    let frame_len: usize = frame.len();
    let ready = match checked_frame_buffer_len(cfg) {
        Some(required) => cfg.packet_size_bytes >= PACKET_HEADER_BYTES && scratch_len
            >= cfg.packet_size_bytes && frame_len >= required,
        None => false,
    };
    if !ready {
        return Err(CaptureError::InvalidPacket);
    }
    let locked = *first_valid_synced;
    let ghost frame0 = frame@;
    let ghost diag0 = *diagnostics;
    let ghost mut taken: Seq<Seq<u8>> = Seq::empty();
    let mut clock = now_ticks;
    let mut failed: u32 = 0;
    loop
        invariant
            cfg.well_formed(),
            clock == now_ticks,
            call_requires(now_ticks, ()),
            capture_ready(cfg, old(packet_buf)@.len(), old(frame)@.len()),
            packet_buf@.len() == old(packet_buf)@.len(),
            frame@.len() == old(frame)@.len(),
            locked == *old(first_valid_synced),
            *first_valid_synced == *old(first_valid_synced),
            frame0 == old(frame)@,
            diag0 == *old(diagnostics),
            failed <= cfg.max_frame_retries,
            on_record::<S::Error>(cfg, locked, frame0, diag0, taken),
            capture_after::<S::Error>(cfg, locked, frame0, diag0, taken) == open_attempt::<
                S::Error,
            >(cfg, failed, frame@, *diagnostics),
        decreases cfg.max_frame_retries - failed,
    {
        *sync_state = if locked {
            SyncState::Locked
        } else {
            SyncState::Seeking
        };
        let ticks: u64 = clock();
        let mut meta = FrameMeta {
            valid: false,
            capture_ticks: ticks,
            discard_packets: 0,
            crc_errors: 0,
            bad_line_count: 0,
            resync_count: 0,
        };
        let (outcome, Ghost(after_attempt)) = attempt_once(
            source,
            cfg,
            locked,
            frame,
            packet_buf,
            sync_state,
            diagnostics,
            &mut meta,
            Ghost(failed),
            Ghost(frame0),
            Ghost(diag0),
            Ghost(taken),
        );
        proof {
            taken = after_attempt;
        }
        match outcome {
            Ok(()) => {
                *first_valid_synced = true;
                meta.valid = true;
                let res = Ok(meta);
                assert(captured::<S::Error>(
                    cfg,
                    locked,
                    frame0,
                    diag0,
                    taken,
                    frame@,
                    *diagnostics,
                    *sync_state,
                    res,
                ));
                return res;
            },
            Err(CaptureError::Spi(e)) => {
                let res = Err(CaptureError::Spi(e));
                assert(captured::<S::Error>(
                    cfg,
                    locked,
                    frame0,
                    diag0,
                    taken,
                    frame@,
                    *diagnostics,
                    *sync_state,
                    res,
                ));
                return res;
            },
            Err(err) => {
                let recovery = plan_recovery(cfg, locked, failed, &err);
                if let Recovery::Surface = recovery {
                    let res = Err(err);
                    assert(captured::<S::Error>(
                        cfg,
                        locked,
                        frame0,
                        diag0,
                        taken,
                        frame@,
                        *diagnostics,
                        *sync_state,
                        res,
                    ));
                    return res;
                }
                let (drained, Ghost(after_drain)) = drain_backoff(
                    source,
                    cfg,
                    packet_buf,
                    Ghost(locked),
                    Ghost(failed),
                    Ghost(frame@),
                    Ghost(*diagnostics),
                    Ghost(recovery),
                    Ghost(err),
                    Ghost(frame0),
                    Ghost(diag0),
                    Ghost(taken),
                );
                proof {
                    taken = after_drain;
                }
                match drained {
                    Ok(()) => {},
                    Err(e) => {
                        let res = Err(CaptureError::Spi(e));
                        assert(captured::<S::Error>(
                            cfg,
                            locked,
                            frame0,
                            diag0,
                            taken,
                            frame@,
                            *diagnostics,
                            *sync_state,
                            res,
                        ));
                        return res;
                    },
                }
                match recovery {
                    Recovery::SyncLost => {
                        let res = Err(CaptureError::SyncLost);
                        assert(captured::<S::Error>(
                            cfg,
                            locked,
                            frame0,
                            diag0,
                            taken,
                            frame@,
                            *diagnostics,
                            *sync_state,
                            res,
                        ));
                        return res;
                    },
                    Recovery::Retry => {
                        failed = failed + 1;
                    },
                    _ => {
                        let res = Err(err);
                        assert(captured::<S::Error>(
                            cfg,
                            locked,
                            frame0,
                            diag0,
                            taken,
                            frame@,
                            *diagnostics,
                            *sync_state,
                            res,
                        ));
                        return res;
                    },
                }
            },
        }
    }
}

/// What every outcome of a capture has, whatever the packets were: the
/// buffer keeps its length and no cumulative counter has fallen; a frame
/// comes with a record that is valid and counts no resync and no bad line;
/// a fault is never `RetryLimitExceeded`, and it is a bad checksum, a wrong
/// line or a wrong segment only where the capture was locked.
pub proof fn lemma_captured_outcome<E>(
    cfg: &RobustCaptureConfig,
    locked: bool,
    frame0: Seq<u8>,
    diag0: FrameDiagnostics,
    taken: Seq<Seq<u8>>,
    frame: Seq<u8>,
    diagnostics: FrameDiagnostics,
    sync_state: SyncState,
    res: Result<FrameMeta, CaptureError<E>>,
)
    requires
        captured::<E>(cfg, locked, frame0, diag0, taken, frame, diagnostics, sync_state, res),
    ensures
        outcome_in_order(cfg, locked, diag0, diagnostics, sync_state, res),
        frame.len() == frame0.len(),
{
    lemma_capture_invariant::<E>(cfg, locked, frame0, diag0, taken);
}

/// The outcome of a capture is one that the controller can come to.
pub open spec fn outcome_in_order<E>(
    cfg: &RobustCaptureConfig,
    locked: bool,
    diag0: FrameDiagnostics,
    diagnostics: FrameDiagnostics,
    sync_state: SyncState,
    res: Result<FrameMeta, CaptureError<E>>,
) -> bool {
    &&& diagnostics.not_below(&diag0)
    &&& match res {
        Ok(meta) => {
            &&& meta.valid
            &&& meta.resync_count == 0
            &&& meta.bad_line_count == 0
            &&& meta.discard_packets <= cfg.max_discard_packets
            &&& locked ==> meta.crc_errors == 0
            &&& sync_state == SyncState::Locked
        },
        Err(CaptureError::Spi(_)) => true,
        Err(fault) => {
            &&& !(fault is RetryLimitExceeded)
            &&& is_stream_fault(fault) ==> locked
            &&& sync_state == SyncState::Unsynced
        },
    }
}

/// Captures one frame into `frame`: attempt after attempt, with a drain of
/// `cfg.backoff_packet_reads` packets after each that failed, until a frame
/// is complete, a fault is final, or the source fails. `packet_buf` is
/// scratch space for one packet; `now_ticks` is asked once per attempt.
/// Buffers that are too small, and a packet size that leaves no room for a
/// header, are refused before anything is read. Else the outcome is that of
/// the capture machine on a run of packets of the configured size: those
/// that the source handed out, for which the contract has no other name
/// than "there are packets".
pub fn capture_frame_into<S, F>(
    source: &mut S,
    cfg: &RobustCaptureConfig,
    first_valid_synced: &mut bool,
    sync_state: &mut SyncState,
    diagnostics: &mut FrameDiagnostics,
    frame: &mut [u8],
    packet_buf: &mut [u8],
    now_ticks: F,
) -> (res: Result<FrameMeta, CaptureError<S::Error>>) where S: PacketSource, F: FnMut() -> u64
    requires
        cfg.well_formed(),
        call_requires(now_ticks, ()),
    ensures
        final(packet_buf)@.len() == old(packet_buf)@.len(),
        final(frame)@.len() == old(frame)@.len(),
        *final(first_valid_synced) == (*old(first_valid_synced) || res is Ok),
        res matches Ok(meta) ==> call_ensures(now_ticks, (), meta.capture_ticks),
        !capture_ready(cfg, old(packet_buf)@.len(), old(frame)@.len()) ==> {
            &&& res == Err::<FrameMeta, CaptureError<S::Error>>(CaptureError::InvalidPacket)
            &&& final(frame)@ == old(frame)@
            &&& *final(diagnostics) == *old(diagnostics)
            &&& *final(sync_state) == *old(sync_state)
        },
        capture_ready(cfg, old(packet_buf)@.len(), old(frame)@.len()) ==> {
            &&& exists|taken: Seq<Seq<u8>>|
                #[trigger] captured::<S::Error>(
                    cfg,
                    *old(first_valid_synced),
                    old(frame)@,
                    *old(diagnostics),
                    taken,
                    final(frame)@,
                    *final(diagnostics),
                    *final(sync_state),
                    res,
                )
            &&& outcome_in_order(
                cfg,
                *old(first_valid_synced),
                *old(diagnostics),
                *final(diagnostics),
                *final(sync_state),
                res,
            )
        },
{
    let ghost locked = *first_valid_synced;
    let ghost frame0 = frame@;
    let ghost diag0 = *diagnostics;
    let ghost ready = capture_ready(cfg, packet_buf@.len(), frame@.len());
    let res = run_attempts(
        source,
        cfg,
        first_valid_synced,
        sync_state,
        diagnostics,
        frame,
        packet_buf,
        now_ticks,
    );
    proof {
        if ready {
            let taken = choose|taken: Seq<Seq<u8>>|
                #[trigger] captured::<S::Error>(
                    cfg,
                    locked,
                    frame0,
                    diag0,
                    taken,
                    frame@,
                    *diagnostics,
                    *sync_state,
                    res,
                );
            lemma_captured_outcome::<S::Error>(
                cfg,
                locked,
                frame0,
                diag0,
                taken,
                frame@,
                *diagnostics,
                *sync_state,
                res,
            );
        }
    }
    res
}

/// The record of a captured frame, or the error in its place.
pub open spec fn record_of<E>(res: Result<CapturedFrame, E>) -> Result<FrameMeta, E> {
    match res {
        Ok(frame) => Ok(frame.meta),
        Err(e) => Err(e),
    }
}

/// A frame buffer as it is allocated: `len` bytes of zero.
pub open spec fn zeroed(len: int) -> Seq<u8> {
    Seq::new(len as nat, |i: int| 0u8)
}

/// Captures one frame into buffers of its own, of exactly the size that
/// `cfg` asks for. A configuration whose packet cannot hold a header, or
/// whose frame no buffer of this machine can hold, is refused. Else the
/// outcome is that of the capture machine, begun on a buffer of zeros, on
/// a run of packets of the configured size: those that the source handed
/// out.
pub fn capture_frame_from_source<S, F>(
    source: &mut S,
    cfg: &RobustCaptureConfig,
    first_valid_synced: &mut bool,
    sync_state: &mut SyncState,
    diagnostics: &mut FrameDiagnostics,
    now_ticks: F,
) -> (res: Result<CapturedFrame, CaptureError<S::Error>>) where S: PacketSource, F: FnMut() -> u64
    requires
        cfg.well_formed(),
        call_requires(now_ticks, ()),
    ensures
        *final(first_valid_synced) == (*old(first_valid_synced) || res is Ok),
        res matches Ok(captured_frame) ==> {
            &&& captured_frame.pixels@.len() == cfg.frame_len()
            &&& call_ensures(now_ticks, (), captured_frame.meta.capture_ticks)
        },
        cfg.packet_size_bytes < PACKET_HEADER_BYTES || cfg.frame_len() > usize::MAX ==> {
            &&& res is Err
            &&& res->Err_0 == CaptureError::<S::Error>::InvalidPacket
            &&& *final(diagnostics) == *old(diagnostics)
            &&& *final(sync_state) == *old(sync_state)
        },
        cfg.packet_size_bytes >= PACKET_HEADER_BYTES && cfg.frame_len() <= usize::MAX ==> {
            &&& exists|taken: Seq<Seq<u8>>, pixels: Seq<u8>|
                {
                    &&& #[trigger] captured::<S::Error>(
                        cfg,
                        *old(first_valid_synced),
                        zeroed(cfg.frame_len()),
                        *old(diagnostics),
                        taken,
                        pixels,
                        *final(diagnostics),
                        *final(sync_state),
                        record_of(res),
                    )
                    &&& res matches Ok(captured_frame) ==> captured_frame.pixels@ == pixels
                }
            &&& outcome_in_order(
                cfg,
                *old(first_valid_synced),
                *old(diagnostics),
                *final(diagnostics),
                *final(sync_state),
                record_of(res),
            )
        },
{
    if cfg.packet_size_bytes < PACKET_HEADER_BYTES {
        return Err(CaptureError::InvalidPacket);
    }
    let required: usize = match checked_frame_buffer_len(cfg) {
        Some(required) => required,
        None => {
            return Err(CaptureError::InvalidPacket);
        },
    };
    let mut frame: Vec<u8> = vec![0u8; required];
    let mut packet: Vec<u8> = vec![0u8; cfg.packet_size_bytes];
    assert(frame@ =~= zeroed(cfg.frame_len()));
    let ghost locked = *first_valid_synced;
    let ghost diag0 = *diagnostics;
    let outcome = capture_frame_into(
        source,
        cfg,
        first_valid_synced,
        sync_state,
        diagnostics,
        frame.as_mut_slice(),
        packet.as_mut_slice(),
        now_ticks,
    );
    let ghost taken = choose|taken: Seq<Seq<u8>>|
        #[trigger] captured::<S::Error>(
            cfg,
            locked,
            zeroed(cfg.frame_len()),
            diag0,
            taken,
            frame@,
            *diagnostics,
            *sync_state,
            outcome,
        );
    match outcome {
        Ok(meta) => {
            let res = Ok(CapturedFrame { pixels: frame, meta });
            assert(captured::<S::Error>(
                cfg,
                locked,
                zeroed(cfg.frame_len()),
                diag0,
                taken,
                frame@,
                *diagnostics,
                *sync_state,
                Ok::<FrameMeta, CaptureError<S::Error>>(meta),
            ));
            res
        },
        Err(e) => {
            assert(captured::<S::Error>(
                cfg,
                locked,
                zeroed(cfg.frame_len()),
                diag0,
                taken,
                frame@,
                *diagnostics,
                *sync_state,
                Err::<FrameMeta, CaptureError<S::Error>>(e),
            ));
            Err(e)
        },
    }
}

} // verus!
