//! The frame assembler: what one packet does to a capture attempt, and what
//! a run of packets does to it.

use vstd::prelude::*;
use crate::crc::PACKET_HEADER_BYTES;
use crate::vospi::{
    crc_matches, packet_header, parse_packet_header, validate_packet_crc, CaptureError,
    FrameDiagnostics, FrameMeta, RobustCaptureConfig, SEGMENT_LINE,
};

verus! {

/// Where the assembler stands in the frame, and how many packets the
/// attempt has taken so far.
#[derive(Debug, Clone, Copy)]
pub struct FrameCursor {
    pub expected_segment: usize,
    pub expected_packet_number: usize,
    pub packets_seen: u32,
}

impl FrameCursor {
    /// The cursor of an attempt that has read nothing.
    pub open spec fn start() -> Self {
        FrameCursor { expected_segment: 1, expected_packet_number: 0, packets_seen: 0 }
    }

    /// The next packet wanted is line 0 of segment 1.
    pub open spec fn at_frame_start(&self) -> bool {
        self.expected_segment == 1 && self.expected_packet_number == 0
    }

    /// Every segment of the frame has been stored.
    pub open spec fn complete(&self, cfg: &RobustCaptureConfig) -> bool {
        self.expected_segment > cfg.segments_per_frame
    }

    /// Index of the line slot that the next accepted packet fills.
    pub open spec fn slot(&self, cfg: &RobustCaptureConfig) -> int {
        (self.expected_segment - 1) * cfg.lines_per_segment + self.expected_packet_number
    }

    /// The cursor points into the frame or just behind it, and no further
    /// than the packets taken allow.
    pub open spec fn wf(&self, cfg: &RobustCaptureConfig) -> bool {
        &&& 1 <= self.expected_segment <= cfg.segments_per_frame + 1
        &&& if self.expected_segment <= cfg.segments_per_frame {
            self.expected_packet_number < cfg.lines_per_segment
        } else {
            self.expected_packet_number == 0
        }
        &&& self.slot(cfg) <= self.packets_seen
        &&& self.packets_seen <= cfg.timeout_packets
    }

    /// The same attempt, sent back to the start of the frame.
    pub open spec fn rewound(&self) -> Self {
        FrameCursor { expected_segment: 1, expected_packet_number: 0, packets_seen: self.packets_seen }
    }

    /// The cursor after one more packet was taken and left unused.
    pub open spec fn counted(&self) -> Self {
        FrameCursor {
            expected_segment: self.expected_segment,
            expected_packet_number: self.expected_packet_number,
            packets_seen: (self.packets_seen + 1) as u32,
        }
    }

    /// The cursor one line on; behind the last line of a segment comes line
    /// 0 of the next.
    pub open spec fn advanced(&self, cfg: &RobustCaptureConfig) -> Self {
        if self.expected_packet_number + 1 == cfg.lines_per_segment {
            FrameCursor {
                expected_segment: (self.expected_segment + 1) as usize,
                expected_packet_number: 0,
                packets_seen: self.packets_seen,
            }
        } else {
            FrameCursor {
                expected_segment: self.expected_segment,
                expected_packet_number: (self.expected_packet_number + 1) as usize,
                packets_seen: self.packets_seen,
            }
        }
    }
}

/// What the assembler makes of one packet, before it acts on it.
#[derive(Debug, Clone, Copy, PartialEq, Eq)]
#[allow(inconsistent_fields)]
pub enum PacketVerdict {
    /// The attempt had used up its packets before this one came.
    TimedOut,
    /// Too short to hold a header.
    Unparsable,
    /// A discard packet.
    Discard,
    /// The CRC field does not hold the packet's checksum.
    CrcFailed,
    /// While seeking, before line 0 was found: not the start of a frame.
    Noise,
    /// Not the line that was due.
    WrongLine { observed: u16 },
    /// Line 20 with a segment number that no frame has.
    BadSegment,
    /// Line 20 of another segment than the one that was due.
    WrongSegment { observed: u8 },
    /// The line that was due.
    Accepted,
}

/// The verdict on `packet` for an attempt that stands at `cursor`. The
/// tests apply in this order; the first that fires decides.
pub open spec fn packet_verdict(
    cfg: &RobustCaptureConfig,
    locked: bool,
    cursor: FrameCursor,
    packet: Seq<u8>,
) -> PacketVerdict {
    if cursor.packets_seen >= cfg.timeout_packets {
        PacketVerdict::TimedOut
    } else {
        match packet_header(packet) {
            None => PacketVerdict::Unparsable,
            Some(h) => {
                if h.is_discard {
                    PacketVerdict::Discard
                } else if cfg.enable_crc && !crc_matches(packet) {
                    PacketVerdict::CrcFailed
                } else if !locked && cursor.at_frame_start() && h.packet_number != 0 {
                    PacketVerdict::Noise
                } else if h.packet_number != cursor.expected_packet_number {
                    PacketVerdict::WrongLine { observed: h.packet_number }
                } else {
                    match h.segment() {
                        None => PacketVerdict::Accepted,
                        Some(segment) => {
                            if segment == 0 || segment > cfg.segments_per_frame {
                                PacketVerdict::BadSegment
                            } else if segment != cursor.expected_segment {
                                PacketVerdict::WrongSegment { observed: segment }
                            } else {
                                PacketVerdict::Accepted
                            }
                        },
                    }
                }
            },
        }
    }
}

/// Judges one packet without acting on it.
pub fn classify_packet(
    cfg: &RobustCaptureConfig,
    locked: bool,
    cursor: &FrameCursor,
    packet: &[u8],
) -> (verdict: PacketVerdict)
    ensures
        verdict == packet_verdict(cfg, locked, *cursor, packet@),
{
    if cursor.packets_seen >= cfg.timeout_packets {
        return PacketVerdict::TimedOut;
    }
    let header = match parse_packet_header(packet) {
        Some(h) => h,
        None => {
            return PacketVerdict::Unparsable;
        },
    };
    if header.is_discard {
        return PacketVerdict::Discard;
    }
    if cfg.enable_crc && !validate_packet_crc(packet) {
        return PacketVerdict::CrcFailed;
    }
    let packet_number: usize = header.packet_number as usize;
    if !locked && cursor.expected_segment == 1 && cursor.expected_packet_number == 0
        && packet_number != 0 {
        return PacketVerdict::Noise;
    }
    if packet_number != cursor.expected_packet_number {
        return PacketVerdict::WrongLine { observed: header.packet_number };
    }
    match header.decode_segment_on_packet20() {
        None => PacketVerdict::Accepted,
        Some(segment) => {
            if segment == 0 || segment as usize > cfg.segments_per_frame {
                PacketVerdict::BadSegment
            } else if segment as usize != cursor.expected_segment {
                PacketVerdict::WrongSegment { observed: segment }
            } else {
                PacketVerdict::Accepted
            }
        },
    }
}

/// A counter one higher, held at the top of its range.
pub open spec fn bump(count: u32) -> u32 {
    if count == u32::MAX {
        count
    } else {
        (count + 1) as u32
    }
}

/// `frame` with `payload` in line slot `slot`.
pub open spec fn store_line(frame: Seq<u8>, slot: int, payload: Seq<u8>) -> Seq<u8> {
    Seq::new(
        frame.len(),
        |i: int|
            if slot * payload.len() <= i < (slot + 1) * payload.len() {
                payload[i - slot * payload.len()]
            } else {
                frame[i]
            },
    )
}

/// The payload of a packet: all that follows the header.
pub open spec fn payload_of(packet: Seq<u8>) -> Seq<u8> {
    packet.subrange(PACKET_HEADER_BYTES as int, packet.len() as int)
}

/// All that a capture attempt holds and changes.
pub struct Assembly {
    pub cursor: FrameCursor,
    pub frame: Seq<u8>,
    pub diagnostics: FrameDiagnostics,
    pub meta: FrameMeta,
}

/// A capture attempt, and the fault that ended it if one did.
pub struct Attempt<E> {
    pub assembly: Assembly,
    pub fault: Option<CaptureError<E>>,
}

impl<E> Attempt<E> {
    /// The attempt has neither failed nor filled its frame: it takes the
    /// next packet.
    pub open spec fn running(&self, cfg: &RobustCaptureConfig) -> bool {
        self.fault is None && !self.assembly.cursor.complete(cfg)
    }

    /// The attempt has filled its frame.
    pub open spec fn succeeded(&self, cfg: &RobustCaptureConfig) -> bool {
        self.fault is None && self.assembly.cursor.complete(cfg)
    }
}

/// The attempt `a` after it has taken `packet`. Discard packets count
/// against their ceiling; while locked a bad checksum, a wrong line and a
/// wrong segment end the attempt, while seeking they send it back to the
/// start of the frame; an accepted packet is stored in its slot.
pub open spec fn attempt_step<E>(
    cfg: &RobustCaptureConfig,
    locked: bool,
    a: Assembly,
    packet: Seq<u8>,
) -> Attempt<E> {
    let counted = a.cursor.counted();
    match packet_verdict(cfg, locked, a.cursor, packet) {
        PacketVerdict::TimedOut => Attempt { assembly: a, fault: Some(CaptureError::Timeout) },
        PacketVerdict::Unparsable => Attempt {
            assembly: Assembly { cursor: counted, ..a },
            fault: Some(CaptureError::InvalidPacket),
        },
        PacketVerdict::Discard => {
            let discards = bump(a.meta.discard_packets);
            Attempt {
                assembly: Assembly {
                    cursor: counted,
                    frame: a.frame,
                    diagnostics: FrameDiagnostics {
                        discard_count: bump(a.diagnostics.discard_count),
                        ..a.diagnostics
                    },
                    meta: FrameMeta { discard_packets: discards, ..a.meta },
                },
                fault: if discards > cfg.max_discard_packets {
                    Some(CaptureError::DiscardPacketFlood)
                } else {
                    None
                },
            }
        },
        PacketVerdict::CrcFailed => Attempt {
            assembly: Assembly {
                cursor: if locked {
                    counted
                } else {
                    counted.rewound()
                },
                frame: a.frame,
                diagnostics: FrameDiagnostics {
                    crc_error_count: bump(a.diagnostics.crc_error_count),
                    ..a.diagnostics
                },
                meta: FrameMeta { crc_errors: bump(a.meta.crc_errors), ..a.meta },
            },
            fault: if locked {
                Some(CaptureError::CrcMismatch)
            } else {
                None
            },
        },
        PacketVerdict::Noise => Attempt { assembly: Assembly { cursor: counted, ..a }, fault: None },
        PacketVerdict::WrongLine { observed } => if locked {
            Attempt {
                assembly: Assembly {
                    cursor: counted,
                    frame: a.frame,
                    diagnostics: FrameDiagnostics {
                        bad_line_count: bump(a.diagnostics.bad_line_count),
                        ..a.diagnostics
                    },
                    meta: FrameMeta { bad_line_count: bump(a.meta.bad_line_count), ..a.meta },
                },
                fault: Some(
                    CaptureError::LineOutOfOrder {
                        expected: a.cursor.expected_packet_number as u16,
                        observed,
                    },
                ),
            }
        } else {
            Attempt { assembly: Assembly { cursor: counted.rewound(), ..a }, fault: None }
        },
        PacketVerdict::BadSegment => Attempt {
            assembly: Assembly { cursor: counted, ..a },
            fault: Some(CaptureError::InvalidPacket),
        },
        PacketVerdict::WrongSegment { observed } => if locked {
            Attempt {
                assembly: Assembly { cursor: counted, ..a },
                fault: Some(
                    CaptureError::SegmentOutOfOrder {
                        expected: a.cursor.expected_segment as u8,
                        observed,
                    },
                ),
            }
        } else {
            Attempt { assembly: Assembly { cursor: counted.rewound(), ..a }, fault: None }
        },
        PacketVerdict::Accepted => Attempt {
            assembly: Assembly {
                cursor: counted.advanced(cfg),
                frame: store_line(a.frame, a.cursor.slot(cfg), payload_of(packet)),
                ..a
            },
            fault: None,
        },
    }
}

/// Where a cursor inside the frame points, in bytes: its slot lies in the
/// frame, and the cursor behind it is still well formed once the packet is
/// counted.
pub proof fn lemma_slot_in_frame(cfg: &RobustCaptureConfig, cursor: FrameCursor)
    requires
        cfg.well_formed(),
        cursor.wf(cfg),
        !cursor.complete(cfg),
        cursor.packets_seen < cfg.timeout_packets,
    ensures
        0 <= cursor.slot(cfg) < cfg.frame_lines(),
        0 <= cursor.slot(cfg) * cfg.payload_len(),
        (cursor.slot(cfg) + 1) * cfg.payload_len() <= cfg.frame_len(),
        cursor.slot(cfg) * cfg.payload_len() + cfg.payload_len() == (cursor.slot(cfg) + 1)
            * cfg.payload_len(),
        0 <= (cursor.expected_segment - 1) * cfg.lines_per_segment <= cursor.slot(cfg),
        cursor.counted().advanced(cfg).wf(cfg),
        cursor.counted().advanced(cfg).slot(cfg) == cursor.slot(cfg) + 1,
{
    let seg = cursor.expected_segment as int;
    let line = cursor.expected_packet_number as int;
    let lines = cfg.lines_per_segment as int;
    let segs = cfg.segments_per_frame as int;
    let plen = cfg.payload_len();
    let slot = cursor.slot(cfg);
    assert(0 <= (seg - 1) * lines) by (nonlinear_arith)
        requires
            seg >= 1,
            lines >= 0,
    ;
    assert(seg * lines == (seg - 1) * lines + lines) by (nonlinear_arith);
    assert(seg * lines <= segs * lines) by (nonlinear_arith)
        requires
            seg <= segs,
            lines >= 0,
    ;
    assert(0 <= slot * plen) by (nonlinear_arith)
        requires
            slot >= 0,
            plen >= 0,
    ;
    assert((slot + 1) * plen <= (segs * lines) * plen) by (nonlinear_arith)
        requires
            slot + 1 <= segs * lines,
            plen >= 0,
    ;
    assert((segs * lines) * plen == plen * lines * segs) by (nonlinear_arith);
    assert(slot * plen + plen == (slot + 1) * plen) by (nonlinear_arith);
}

/// Hands one packet to the assembler: judges it, counts it, and where it is
/// the line that was due, stores its payload in `frame`.
pub fn assemble_packet<E>(
    cfg: &RobustCaptureConfig,
    locked: bool,
    cursor: FrameCursor,
    packet: &[u8],
    frame: &mut [u8],
    diagnostics: &mut FrameDiagnostics,
    meta: &mut FrameMeta,
) -> (res: Result<FrameCursor, CaptureError<E>>)
    requires
        cfg.well_formed(),
        cursor.wf(cfg),
        !cursor.complete(cfg),
        packet@.len() == cfg.packet_size_bytes,
        old(frame)@.len() >= cfg.frame_len(),
    ensures
        final(frame)@.len() == old(frame)@.len(),
        ({
            let next = attempt_step::<E>(
                cfg,
                locked,
                Assembly {
                    cursor,
                    frame: old(frame)@,
                    diagnostics: *old(diagnostics),
                    meta: *old(meta),
                },
                packet@,
            );
            &&& final(frame)@ == next.assembly.frame
            &&& *final(diagnostics) == next.assembly.diagnostics
            &&& *final(meta) == next.assembly.meta
            &&& match res {
                Ok(c) => next.fault is None && c == next.assembly.cursor && c.wf(cfg),
                Err(e) => next.fault == Some(e),
            }
        }),
{
    let verdict = classify_packet(cfg, locked, &cursor, packet);
    if let PacketVerdict::TimedOut = verdict {
        return Err(CaptureError::Timeout);
    }
    let counted = FrameCursor {
        expected_segment: cursor.expected_segment,
        expected_packet_number: cursor.expected_packet_number,
        packets_seen: cursor.packets_seen + 1,
    };
    let rewound = FrameCursor {
        expected_segment: 1,
        expected_packet_number: 0,
        packets_seen: counted.packets_seen,
    };
    assert(rewound.slot(cfg) == 0) by (nonlinear_arith)
        requires
            rewound.expected_segment == 1,
            rewound.expected_packet_number == 0,
            rewound.slot(cfg) == (rewound.expected_segment - 1) * cfg.lines_per_segment
                + rewound.expected_packet_number,
    ;
    assert(frame@ =~= old(frame)@);
    match verdict {
        PacketVerdict::TimedOut => Err(CaptureError::Timeout),
        PacketVerdict::Unparsable => Err(CaptureError::InvalidPacket),
        PacketVerdict::Discard => {
            diagnostics.discard_count = diagnostics.discard_count.saturating_add(1);
            meta.discard_packets = meta.discard_packets.saturating_add(1);
            if meta.discard_packets > cfg.max_discard_packets {
                Err(CaptureError::DiscardPacketFlood)
            } else {
                Ok(counted)
            }
        },
        PacketVerdict::CrcFailed => {
            diagnostics.crc_error_count = diagnostics.crc_error_count.saturating_add(1);
            meta.crc_errors = meta.crc_errors.saturating_add(1);
            if locked {
                Err(CaptureError::CrcMismatch)
            } else {
                Ok(rewound)
            }
        },
        PacketVerdict::Noise => Ok(counted),
        PacketVerdict::WrongLine { observed } => {
            if locked {
                diagnostics.bad_line_count = diagnostics.bad_line_count.saturating_add(1);
                meta.bad_line_count = meta.bad_line_count.saturating_add(1);
                Err(
                    CaptureError::LineOutOfOrder {
                        expected: #[verifier::truncate]
                        (cursor.expected_packet_number as u16),
                        observed,
                    },
                )
            } else {
                Ok(rewound)
            }
        },
        PacketVerdict::BadSegment => Err(CaptureError::InvalidPacket),
        PacketVerdict::WrongSegment { observed } => {
            if locked {
                Err(
                    CaptureError::SegmentOutOfOrder {
                        expected: #[verifier::truncate]
                        (cursor.expected_segment as u8),
                        observed,
                    },
                )
            } else {
                Ok(rewound)
            }
        },
        PacketVerdict::Accepted => {
            proof {
                lemma_slot_in_frame(cfg, cursor);
            }
            let payload_len: usize = cfg.packet_size_bytes - PACKET_HEADER_BYTES;
            let frame_line: usize = (cursor.expected_segment - 1) * cfg.lines_per_segment
                + cursor.expected_packet_number;
            let capacity: usize = frame.len();
            assert(frame_line == cursor.slot(cfg));
            assert(payload_len == cfg.payload_len());
            assert(frame_line * payload_len + payload_len <= capacity);
            let dst_start: usize = frame_line * payload_len;
            let ghost before = frame@;
            let ghost payload = payload_of(packet@);
            let mut i: usize = 0;
            while i < payload_len
                invariant
                    i <= payload_len,
                    payload_len == cfg.payload_len(),
                    payload_len + PACKET_HEADER_BYTES == packet@.len(),
                    dst_start + payload_len <= capacity,
                    capacity == frame@.len(),
                    frame@.len() == before.len(),
                    payload == payload_of(packet@),
                    forall|j: int|
                        0 <= j < frame@.len() ==> frame@[j] == if dst_start <= j < dst_start + i {
                            payload[j - dst_start]
                        } else {
                            before[j]
                        },
                decreases payload_len - i,
            {
                frame[dst_start + i] = packet[PACKET_HEADER_BYTES + i];
                i = i + 1;
            }
            assert(frame@ =~= store_line(before, cursor.slot(cfg), payload));
            let next = if counted.expected_packet_number + 1 == cfg.lines_per_segment {
                FrameCursor {
                    expected_segment: counted.expected_segment + 1,
                    expected_packet_number: 0,
                    packets_seen: counted.packets_seen,
                }
            } else {
                FrameCursor {
                    expected_segment: counted.expected_segment,
                    expected_packet_number: counted.expected_packet_number + 1,
                    packets_seen: counted.packets_seen,
                }
            };
            Ok(next)
        },
    }
}

/// A capture attempt that starts from `start`, after the packets of
/// `packets` were handed to it in turn. An attempt that has failed or has
/// filled its frame takes no further packet.
pub open spec fn attempt_after<E>(
    cfg: &RobustCaptureConfig,
    locked: bool,
    start: Assembly,
    packets: Seq<Seq<u8>>,
) -> Attempt<E>
    decreases packets.len(),
{
    if packets.len() == 0 {
        Attempt { assembly: start, fault: None }
    } else {
        let before = attempt_after::<E>(cfg, locked, start, packets.drop_last());
        if before.running(cfg) {
            attempt_step::<E>(cfg, locked, before.assembly, packets.last())
        } else {
            before
        }
    }
}

/// One more packet, handed to an attempt that is still running, is one
/// step of the assembler.
pub proof fn lemma_attempt_push<E>(
    cfg: &RobustCaptureConfig,
    locked: bool,
    start: Assembly,
    packets: Seq<Seq<u8>>,
    packet: Seq<u8>,
)
    ensures
        attempt_after::<E>(cfg, locked, start, packets.push(packet)) == {
            let before = attempt_after::<E>(cfg, locked, start, packets);
            if before.running(cfg) {
                attempt_step::<E>(cfg, locked, before.assembly, packet)
            } else {
                before
            }
        },
{
    assert(packets.push(packet).drop_last() =~= packets);
}

} // verus!
