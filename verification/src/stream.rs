//! A well-formed stream of packets, and what the assembler makes of it.

use vstd::prelude::*;
use vstd::arithmetic::div_mod::{lemma_fundamental_div_mod, lemma_fundamental_div_mod_converse};
use crate::assembly::{
    attempt_after, attempt_step, lemma_attempt_push, payload_of, store_line, Assembly, Attempt,
    FrameCursor, PacketVerdict, packet_verdict,
};
use crate::capture::{
    blank_attempt, capture_after, lemma_attempt_in_capture, validated, CapturePhase,
};
use crate::crc::PACKET_HEADER_BYTES;
use crate::vospi::{
    crc_matches, header_of, segment_bits, FrameDiagnostics, FrameMeta, RobustCaptureConfig,
    SEGMENT_LINE,
};

verus! {

/// `packet` is what the camera sends for line `line` of segment `segment`:
/// a packet of the right size that is no discard packet, that bears the
/// line number, and on line 20 the segment number, and whose checksum
/// holds where checksums are looked at.
pub open spec fn is_line_packet(
    cfg: &RobustCaptureConfig,
    packet: Seq<u8>,
    segment: int,
    line: int,
) -> bool {
    &&& packet.len() == cfg.packet_size_bytes
    &&& packet.len() >= PACKET_HEADER_BYTES
    &&& !header_of(packet).is_discard
    &&& header_of(packet).packet_number == line
    &&& cfg.enable_crc ==> crc_matches(packet)
    &&& line == SEGMENT_LINE ==> segment_bits(header_of(packet).packet_id) == segment
}

/// `packets` is exactly one frame: its lines in order, segment by segment.
pub open spec fn is_frame_stream(cfg: &RobustCaptureConfig, packets: Seq<Seq<u8>>) -> bool {
    &&& packets.len() == cfg.frame_lines()
    &&& forall|k: int|
        0 <= k < packets.len() ==> is_line_packet(
            cfg,
            #[trigger] packets[k],
            k / (cfg.lines_per_segment as int) + 1,
            k % (cfg.lines_per_segment as int),
        )
}

/// The payloads of the first `n` packets, one after the other.
pub open spec fn payloads(packets: Seq<Seq<u8>>, n: int) -> Seq<u8>
    decreases n,
{
    if n <= 0 {
        Seq::empty()
    } else {
        payloads(packets, n - 1) + payload_of(packets[n - 1])
    }
}

/// The cursor of an attempt that has stored `n` lines since it last stood
/// at the start of the frame, where it had seen `seen` packets.
pub open spec fn cursor_after(cfg: &RobustCaptureConfig, n: int, seen: int) -> FrameCursor {
    FrameCursor {
        expected_segment: (n / (cfg.lines_per_segment as int) + 1) as usize,
        expected_packet_number: (n % (cfg.lines_per_segment as int)) as usize,
        packets_seen: (seen + n) as u32,
    }
}

/// The cursor stands at the start of the frame.
pub open spec fn at_start_of_frame(start: Assembly) -> bool {
    start.cursor.at_frame_start()
}

/// The payloads of `n` packets take `n` times the bytes of one payload.
pub proof fn lemma_payloads_len(cfg: &RobustCaptureConfig, packets: Seq<Seq<u8>>, n: int)
    requires
        cfg.packet_size_bytes >= PACKET_HEADER_BYTES,
        0 <= n <= packets.len(),
        forall|k: int| 0 <= k < packets.len() ==> (#[trigger] packets[k]).len() == cfg.packet_size_bytes,
    ensures
        payloads(packets, n).len() == n * cfg.payload_len(),
    decreases n,
{
    if n > 0 {
        lemma_payloads_len(cfg, packets, n - 1);
        assert(n * cfg.payload_len() == (n - 1) * cfg.payload_len() + cfg.payload_len())
            by (nonlinear_arith);
    } else {
        assert(0 * cfg.payload_len() == 0) by (nonlinear_arith);
    }
}

/// The line behind line `n` of a frame: the next of its segment, or line 0
/// of the next segment.
proof fn lemma_next_line(n: int, lines: int)
    requires
        0 <= n,
        0 < lines,
    ensures
        n == (n / lines) * lines + n % lines,
        0 <= n % lines < lines,
        0 <= n / lines,
        n % lines + 1 == lines ==> (n + 1) / lines == n / lines + 1 && (n + 1) % lines == 0,
        n % lines + 1 < lines ==> (n + 1) / lines == n / lines && (n + 1) % lines == n % lines + 1,
{
    lemma_fundamental_div_mod(n, lines);
    let q = n / lines;
    let r = n % lines;
    assert(lines * q == q * lines) by (nonlinear_arith);
    assert(0 <= q) by (nonlinear_arith)
        requires
            n == q * lines + r,
            0 <= r < lines,
            0 <= n,
            0 < lines,
    ;
    if r + 1 == lines {
        assert(n + 1 == (q + 1) * lines + 0) by (nonlinear_arith)
            requires
                n == q * lines + r,
                r + 1 == lines,
        ;
        lemma_fundamental_div_mod_converse(n + 1, lines, q + 1, 0);
    } else {
        lemma_fundamental_div_mod_converse(n + 1, lines, q, r + 1);
    }
}

/// A line of the frame lies in a segment of the frame.
proof fn lemma_line_in_frame(n: int, lines: int, segments: int)
    requires
        0 <= n < segments * lines,
        0 < lines,
    ensures
        n / lines < segments,
{
    lemma_next_line(n, lines);
    let q = n / lines;
    if q >= segments {
        assert(q * lines >= segments * lines) by (nonlinear_arith)
            requires
                q >= segments,
                lines > 0,
        ;
    }
}

/// The assembler after the first `n` packets of a frame stream: no fault,
/// the cursor behind line `n`, the payloads of the packets at the start of
/// the buffer, and the rest of the buffer and all counters as they were.
proof fn lemma_frame_prefix<E>(
    cfg: &RobustCaptureConfig,
    locked: bool,
    start: Assembly,
    packets: Seq<Seq<u8>>,
    n: int,
)
    requires
        cfg.well_formed(),
        cfg.packet_size_bytes >= PACKET_HEADER_BYTES,
        cfg.lines_per_segment > 0,
        at_start_of_frame(start),
        start.frame.len() >= cfg.frame_len(),
        start.cursor.packets_seen + cfg.frame_lines() <= cfg.timeout_packets,
        is_frame_stream(cfg, packets),
        0 <= n <= packets.len(),
    ensures
        ({
            let mid = attempt_after::<E>(cfg, locked, start, packets.take(n));
            &&& mid.fault is None
            &&& mid.assembly.cursor == cursor_after(cfg, n, start.cursor.packets_seen as int)
            &&& mid.assembly.diagnostics == start.diagnostics
            &&& mid.assembly.meta == start.meta
            &&& mid.assembly.frame.len() == start.frame.len()
            &&& n * cfg.payload_len() <= cfg.frame_len()
            &&& mid.assembly.frame.take(n * cfg.payload_len()) == payloads(packets, n)
            &&& mid.assembly.frame.skip(n * cfg.payload_len()) == start.frame.skip(
                n * cfg.payload_len(),
            )
        }),
    decreases n,
{
    let lines = cfg.lines_per_segment as int;
    let segments = cfg.segments_per_frame as int;
    let plen = cfg.payload_len();
    assert(cfg.frame_len() == (segments * lines) * plen) by (nonlinear_arith)
        requires
            cfg.frame_len() == plen * lines * segments,
    ;
    if n == 0 {
        assert(packets.take(0) =~= Seq::<Seq<u8>>::empty());
        assert(0 * plen == 0) by (nonlinear_arith);
        assert(0int / lines == 0 && 0int % lines == 0) by {
            lemma_fundamental_div_mod_converse(0, lines, 0, 0);
        }
        assert(start.frame.take(0) =~= payloads(packets, 0));
        assert(start.frame.skip(0) =~= start.frame);
        assert(0 <= cfg.frame_len()) by (nonlinear_arith)
            requires
                cfg.frame_len() == (segments * lines) * plen,
                0 <= segments,
                0 <= lines,
                0 <= plen,
        ;
    } else {
        let m = n - 1;
        lemma_frame_prefix::<E>(cfg, locked, start, packets, m);
        let before = attempt_after::<E>(cfg, locked, start, packets.take(m));
        let packet = packets[m];
        assert(packets.take(n) =~= packets.take(m).push(packet));
        lemma_attempt_push::<E>(cfg, locked, start, packets.take(m), packet);
        lemma_next_line(m, lines);
        lemma_line_in_frame(m, lines, segments);
        let a = before.assembly;
        assert(is_line_packet(cfg, packet, m / lines + 1, m % lines));
        assert(a.cursor.expected_segment == m / lines + 1);
        assert(a.cursor.expected_packet_number == m % lines);
        assert(a.cursor.packets_seen == start.cursor.packets_seen + m);
        assert(before.running(cfg));
        assert(a.cursor.at_frame_start() ==> m % lines == 0);
        crate::vospi::lemma_header_fields(header_of(packet).packet_id);
        assert(packet_verdict(cfg, locked, a.cursor, packet) == PacketVerdict::Accepted);
        assert(a.cursor.slot(cfg) == m) by (nonlinear_arith)
            requires
                a.cursor.slot(cfg) == (a.cursor.expected_segment - 1) * lines
                    + a.cursor.expected_packet_number,
                a.cursor.expected_segment == m / lines + 1,
                a.cursor.expected_packet_number == m % lines,
                m == (m / lines) * lines + m % lines,
        ;
        let after = attempt_step::<E>(cfg, locked, a, packet);
        assert(after.assembly.cursor == cursor_after(cfg, n, start.cursor.packets_seen as int));
        let payload = payload_of(packet);
        assert(payload.len() == plen);
        let lo = m * plen;
        let hi = n * plen;
        assert(hi == lo + plen) by (nonlinear_arith)
            requires
                hi == n * plen,
                lo == m * plen,
                n == m + 1,
        ;
        assert(0 <= lo) by (nonlinear_arith)
            requires
                lo == m * plen,
                0 <= m,
                0 <= plen,
        ;
        assert(hi <= cfg.frame_len()) by (nonlinear_arith)
            requires
                hi == n * plen,
                n <= segments * lines,
                0 <= plen,
                cfg.frame_len() == (segments * lines) * plen,
        ;
        let stored = store_line(a.frame, m, payload);
        assert(m * payload.len() == lo);
        assert((m + 1) * payload.len() == hi);
        assert(after.assembly.frame == stored);
        assert(stored.take(hi) =~= a.frame.take(lo) + payload) by {
            assert forall|i: int| 0 <= i < hi implies stored.take(hi)[i] == (a.frame.take(lo)
                + payload)[i] by {
                if i < lo {
                    assert(stored[i] == a.frame[i]);
                } else {
                    assert(stored[i] == payload[i - lo]);
                }
            }
        }
        assert(stored.skip(hi) =~= start.frame.skip(hi)) by {
            assert forall|i: int| 0 <= i < stored.len() - hi implies stored.skip(hi)[i]
                == start.frame.skip(hi)[i] by {
                assert(stored[i + hi] == a.frame[i + hi]);
                assert(a.frame.skip(lo)[i + plen] == start.frame.skip(lo)[i + plen]);
            }
        }
    }
}

/// One frame, well formed, read by an attempt that stands at the start of
/// a frame and has packets enough left before it times out: the assembler
/// takes every packet and is complete behind the last; the buffer begins
/// with the payloads of the packets in the order of segment and line, what
/// lies behind the frame is as it was, and no counter has moved. This holds
/// locked and seeking alike.
pub proof fn lemma_frame_round_trip<E>(
    cfg: &RobustCaptureConfig,
    locked: bool,
    start: Assembly,
    packets: Seq<Seq<u8>>,
)
    requires
        cfg.well_formed(),
        cfg.packet_size_bytes >= PACKET_HEADER_BYTES,
        at_start_of_frame(start),
        start.frame.len() >= cfg.frame_len(),
        start.cursor.packets_seen + cfg.frame_lines() <= cfg.timeout_packets,
        is_frame_stream(cfg, packets),
    ensures
        ({
            let end = attempt_after::<E>(cfg, locked, start, packets);
            &&& end.succeeded(cfg)
            &&& end.assembly.frame.len() == start.frame.len()
            &&& end.assembly.frame.take(cfg.frame_len()) == payloads(packets, packets.len() as int)
            &&& end.assembly.frame.skip(cfg.frame_len()) == start.frame.skip(cfg.frame_len())
            &&& end.assembly.diagnostics == start.diagnostics
            &&& end.assembly.meta == start.meta
        }),
        packets.len() > 0 ==> attempt_after::<E>(cfg, locked, start, packets.drop_last()).running(
            cfg,
        ),
{
    let lines = cfg.lines_per_segment as int;
    let segments = cfg.segments_per_frame as int;
    let plen = cfg.payload_len();
    let n = packets.len() as int;
    assert(cfg.frame_len() == (segments * lines) * plen) by (nonlinear_arith)
        requires
            cfg.frame_len() == plen * lines * segments,
    ;
    if segments == 0 {
        assert(segments * lines == 0) by (nonlinear_arith)
            requires
                segments == 0,
        ;
        assert(packets =~= Seq::<Seq<u8>>::empty());
        assert((segments * lines) * plen == 0) by (nonlinear_arith)
            requires
                segments * lines == 0,
        ;
        assert(start.frame.take(0) =~= payloads(packets, 0));
        assert(start.frame.skip(0) =~= start.frame);
    } else {
        lemma_frame_prefix::<E>(cfg, locked, start, packets, n);
        assert(packets.take(n) =~= packets);
        assert(n == segments * lines + 0);
        lemma_fundamental_div_mod_converse(n, lines, segments, 0);
        assert(n > 0) by (nonlinear_arith)
            requires
                n == segments * lines,
                segments > 0,
                lines > 0,
        ;
        lemma_frame_prefix::<E>(cfg, locked, start, packets, n - 1);
        assert(packets.take(n - 1) =~= packets.drop_last());
        lemma_line_in_frame(n - 1, lines, segments);
    }
}

/// A capture that is fed exactly one well-formed frame ends with that
/// frame at the first attempt: the buffer begins with the payloads of the
/// packets in the order of segment and line, the record is valid and counts
/// nothing, and the cumulative counters are as they were.
pub proof fn lemma_capture_round_trip<E>(
    cfg: &RobustCaptureConfig,
    locked: bool,
    frame: Seq<u8>,
    diagnostics: FrameDiagnostics,
    packets: Seq<Seq<u8>>,
)
    requires
        cfg.well_formed(),
        cfg.packet_size_bytes >= PACKET_HEADER_BYTES,
        frame.len() >= cfg.frame_len(),
        cfg.frame_lines() <= cfg.timeout_packets,
        is_frame_stream(cfg, packets),
    ensures
        ({
            let end = capture_after::<E>(cfg, locked, frame, diagnostics, packets);
            &&& end.phase == (CapturePhase::<E>::Done {
                result: Ok(validated(FrameMeta::fresh(0))),
            })
            &&& end.failed == 0
            &&& end.diagnostics == diagnostics
            &&& end.frame.len() == frame.len()
            &&& end.frame.take(cfg.frame_len()) == payloads(packets, packets.len() as int)
            &&& end.frame.skip(cfg.frame_len()) == frame.skip(cfg.frame_len())
        }),
{
    let start = blank_attempt(frame, diagnostics);
    lemma_frame_round_trip::<E>(cfg, locked, start, packets);
    let none = Seq::<Seq<u8>>::empty();
    lemma_attempt_in_capture::<E>(cfg, locked, frame, diagnostics, none, 0, frame, diagnostics, packets);
    assert(none + packets =~= packets);
}

/// `packet` is noise to an attempt that seeks the start of a frame: a
/// packet of the right size that is no discard packet, whose checksum
/// holds where checksums are looked at, and that is not line 0.
pub open spec fn is_noise_packet(cfg: &RobustCaptureConfig, packet: Seq<u8>) -> bool {
    &&& packet.len() == cfg.packet_size_bytes
    &&& packet.len() >= PACKET_HEADER_BYTES
    &&& !header_of(packet).is_discard
    &&& header_of(packet).packet_number != 0
    &&& cfg.enable_crc ==> crc_matches(packet)
}

/// Every packet of `packets` is noise.
pub open spec fn all_noise(cfg: &RobustCaptureConfig, packets: Seq<Seq<u8>>) -> bool {
    forall|k: int| 0 <= k < packets.len() ==> is_noise_packet(cfg, #[trigger] packets[k])
}

/// An attempt with `n` more packets seen, and nothing else changed.
pub open spec fn having_seen(start: Assembly, n: int) -> Assembly {
    Assembly {
        cursor: FrameCursor {
            expected_segment: start.cursor.expected_segment,
            expected_packet_number: start.cursor.expected_packet_number,
            packets_seen: (start.cursor.packets_seen + n) as u32,
        },
        ..start
    }
}

/// An attempt that seeks the start of a frame lets noise pass: it counts
/// the packets and changes nothing else.
pub proof fn lemma_noise_is_skipped<E>(cfg: &RobustCaptureConfig, start: Assembly, noise: Seq<Seq<u8>>)
    requires
        cfg.segments_per_frame > 0,
        at_start_of_frame(start),
        start.cursor.packets_seen + noise.len() <= cfg.timeout_packets,
        all_noise(cfg, noise),
    ensures
        attempt_after::<E>(cfg, false, start, noise) == (Attempt::<E> {
            assembly: having_seen(start, noise.len() as int),
            fault: None,
        }),
    decreases noise.len(),
{
    if noise.len() == 0 {
        assert(having_seen(start, 0) == start);
    } else {
        let shorter = noise.drop_last();
        lemma_noise_is_skipped::<E>(cfg, start, shorter);
        assert(is_noise_packet(cfg, noise.last()));
        let before = attempt_after::<E>(cfg, false, start, shorter);
        assert(before.running(cfg));
        assert(packet_verdict(cfg, false, before.assembly.cursor, noise.last())
            == PacketVerdict::Noise);
    }
}

/// The packets of `second`, handed to an attempt that is still running
/// after `first`, do to it what they do to an attempt that starts where
/// `first` left it.
pub proof fn lemma_attempt_continues<E>(
    cfg: &RobustCaptureConfig,
    locked: bool,
    start: Assembly,
    first: Seq<Seq<u8>>,
    second: Seq<Seq<u8>>,
)
    requires
        attempt_after::<E>(cfg, locked, start, first).fault is None,
    ensures
        attempt_after::<E>(cfg, locked, start, first + second) == attempt_after::<E>(
            cfg,
            locked,
            attempt_after::<E>(cfg, locked, start, first).assembly,
            second,
        ),
    decreases second.len(),
{
    if second.len() == 0 {
        assert(first + second =~= first);
    } else {
        lemma_attempt_continues::<E>(cfg, locked, start, first, second.drop_last());
        assert((first + second).drop_last() =~= first + second.drop_last());
        assert((first + second).last() == second.last());
    }
}

/// Noise, then one well-formed frame, read by an attempt that seeks the
/// start of a frame: the attempt lets the noise pass and assembles the
/// frame. The buffer begins with the payloads of the frame, and no counter
/// has moved.
pub proof fn lemma_noise_then_frame<E>(
    cfg: &RobustCaptureConfig,
    start: Assembly,
    noise: Seq<Seq<u8>>,
    packets: Seq<Seq<u8>>,
)
    requires
        cfg.well_formed(),
        cfg.packet_size_bytes >= PACKET_HEADER_BYTES,
        cfg.segments_per_frame > 0,
        at_start_of_frame(start),
        start.frame.len() >= cfg.frame_len(),
        start.cursor.packets_seen + noise.len() + cfg.frame_lines() <= cfg.timeout_packets,
        all_noise(cfg, noise),
        is_frame_stream(cfg, packets),
    ensures
        ({
            let end = attempt_after::<E>(cfg, false, start, noise + packets);
            &&& end.succeeded(cfg)
            &&& end.assembly.frame.len() == start.frame.len()
            &&& end.assembly.frame.take(cfg.frame_len()) == payloads(packets, packets.len() as int)
            &&& end.assembly.frame.skip(cfg.frame_len()) == start.frame.skip(cfg.frame_len())
            &&& end.assembly.diagnostics == start.diagnostics
            &&& end.assembly.meta == start.meta
        }),
        attempt_after::<E>(cfg, false, start, (noise + packets).drop_last()).running(cfg),
{
    let lines = cfg.lines_per_segment as int;
    let segments = cfg.segments_per_frame as int;
    assert(0 < segments * lines) by (nonlinear_arith)
        requires
            0 < segments,
            0 < lines,
    ;
    lemma_noise_is_skipped::<E>(cfg, start, noise);
    let mid = having_seen(start, noise.len() as int);
    lemma_frame_round_trip::<E>(cfg, false, mid, packets);
    lemma_attempt_continues::<E>(cfg, false, start, noise, packets);
    lemma_attempt_continues::<E>(cfg, false, start, noise, packets.drop_last());
    assert((noise + packets).drop_last() =~= noise + packets.drop_last());
}

/// A capture that has no frame behind it, and is fed noise and then one
/// well-formed frame, ends with that frame at the first attempt, and
/// counts nothing.
pub proof fn lemma_capture_skips_noise<E>(
    cfg: &RobustCaptureConfig,
    frame: Seq<u8>,
    diagnostics: FrameDiagnostics,
    noise: Seq<Seq<u8>>,
    packets: Seq<Seq<u8>>,
)
    requires
        cfg.well_formed(),
        cfg.packet_size_bytes >= PACKET_HEADER_BYTES,
        cfg.segments_per_frame > 0,
        frame.len() >= cfg.frame_len(),
        noise.len() + cfg.frame_lines() <= cfg.timeout_packets,
        all_noise(cfg, noise),
        is_frame_stream(cfg, packets),
    ensures
        ({
            let end = capture_after::<E>(cfg, false, frame, diagnostics, noise + packets);
            &&& end.phase == (CapturePhase::<E>::Done {
                result: Ok(validated(FrameMeta::fresh(0))),
            })
            &&& end.failed == 0
            &&& end.diagnostics == diagnostics
            &&& end.frame.len() == frame.len()
            &&& end.frame.take(cfg.frame_len()) == payloads(packets, packets.len() as int)
            &&& end.frame.skip(cfg.frame_len()) == frame.skip(cfg.frame_len())
        }),
{
    let start = blank_attempt(frame, diagnostics);
    lemma_noise_then_frame::<E>(cfg, start, noise, packets);
    let none = Seq::<Seq<u8>>::empty();
    lemma_attempt_in_capture::<E>(
        cfg,
        false,
        frame,
        diagnostics,
        none,
        0,
        frame,
        diagnostics,
        noise + packets,
    );
    assert(none + (noise + packets) =~= noise + packets);
}

} // verus!
