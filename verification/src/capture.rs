//! The capture controller as a machine that takes one packet at a time:
//! attempts, the packets drained between them, and the end of the capture.

use vstd::prelude::*;
use crate::assembly::{
    attempt_after, attempt_step, bump, lemma_attempt_push, Assembly, Attempt, FrameCursor,
};
use crate::vospi::{
    all_sized, fresh_attempt, CaptureError, FrameDiagnostics, FrameMeta, RobustCaptureConfig,
    SyncState,
};

verus! {

/// What the controller does about a failed attempt.
#[derive(Debug, Clone, Copy, PartialEq, Eq)]
pub enum Recovery {
    /// Hand the fault to the caller at once, without draining.
    Surface,
    /// Drain, then report that synchronisation is lost.
    SyncLost,
    /// Drain, then hand the fault to the caller: no attempt is left.
    GiveUp,
    /// Drain, then try again.
    Retry,
}

/// Faults that mean a packet was lost from a stream that was in step: a bad
/// checksum, a wrong line, a wrong segment.
pub open spec fn is_stream_fault<E>(fault: CaptureError<E>) -> bool {
    fault is CrcMismatch || fault is LineOutOfOrder || fault is SegmentOutOfOrder
}

/// The recovery from `fault`, met by an attempt before which
/// `failed_before` attempts of this capture had failed. A stream fault of a
/// locked capture is surfaced; else the ceiling on resyncs is looked at
/// before the ceiling on attempts.
pub open spec fn recovery_for<E>(
    cfg: &RobustCaptureConfig,
    locked: bool,
    failed_before: u32,
    fault: CaptureError<E>,
) -> Recovery {
    if locked && is_stream_fault(fault) {
        Recovery::Surface
    } else if failed_before + 1 > cfg.max_resync_attempts {
        Recovery::SyncLost
    } else if failed_before + 1 > cfg.max_frame_retries {
        Recovery::GiveUp
    } else {
        Recovery::Retry
    }
}

/// Decides what to do about a failed attempt.
pub fn plan_recovery<E>(
    cfg: &RobustCaptureConfig,
    locked: bool,
    failed_before: u32,
    fault: &CaptureError<E>,
) -> (recovery: Recovery)
    ensures
        recovery == recovery_for(cfg, locked, failed_before, *fault),
{
    let stream_fault = match fault {
        CaptureError::CrcMismatch => true,
        CaptureError::LineOutOfOrder { .. } => true,
        CaptureError::SegmentOutOfOrder { .. } => true,
        _ => false,
    };
    if locked && stream_fault {
        Recovery::Surface
    } else if failed_before >= cfg.max_resync_attempts {
        Recovery::SyncLost
    } else if failed_before >= cfg.max_frame_retries {
        Recovery::GiveUp
    } else {
        Recovery::Retry
    }
}

/// What a capture is doing.
pub enum CapturePhase<E> {
    /// An attempt is under way.
    Attempting { cursor: FrameCursor, meta: FrameMeta },
    /// An attempt has failed with `fault`; `left` packets are still to be
    /// drained before `recovery` is carried out.
    Draining { left: u32, recovery: Recovery, fault: CaptureError<E> },
    /// The capture is over.
    Done { result: Result<FrameMeta, CaptureError<E>> },
}

/// A capture: its phase, the attempts that have failed, the frame buffer
/// and the cumulative counters.
pub struct Capture<E> {
    pub phase: CapturePhase<E>,
    pub failed: u32,
    pub frame: Seq<u8>,
    pub diagnostics: FrameDiagnostics,
}

impl<E> Capture<E> {
    /// The synchronisation state that goes with the phase.
    pub open spec fn sync_state(&self, locked: bool) -> SyncState {
        match self.phase {
            CapturePhase::Attempting { .. } => if locked {
                SyncState::Locked
            } else {
                SyncState::Seeking
            },
            CapturePhase::Draining { .. } => SyncState::Unsynced,
            CapturePhase::Done { result } => if result is Ok {
                SyncState::Locked
            } else {
                SyncState::Unsynced
            },
        }
    }
}

/// The assembly of an attempt that has read nothing: tick 0 stands for the
/// tick that the caller's clock gives.
pub open spec fn blank_attempt(frame: Seq<u8>, diagnostics: FrameDiagnostics) -> Assembly {
    Assembly { cursor: FrameCursor::start(), frame, diagnostics, meta: FrameMeta::fresh(0) }
}

/// The record of a frame that was captured.
pub open spec fn validated(meta: FrameMeta) -> FrameMeta {
    FrameMeta { valid: true, ..meta }
}

/// A capture at the start of an attempt. A frame without segments is
/// complete before the first packet.
pub open spec fn open_attempt<E>(
    cfg: &RobustCaptureConfig,
    failed: u32,
    frame: Seq<u8>,
    diagnostics: FrameDiagnostics,
) -> Capture<E> {
    Capture {
        phase: if FrameCursor::start().complete(cfg) {
            CapturePhase::Done { result: Ok(validated(FrameMeta::fresh(0))) }
        } else {
            CapturePhase::Attempting { cursor: FrameCursor::start(), meta: FrameMeta::fresh(0) }
        },
        failed,
        frame,
        diagnostics,
    }
}

/// A capture after the drain that follows a failed attempt.
pub open spec fn settle<E>(
    cfg: &RobustCaptureConfig,
    failed: u32,
    frame: Seq<u8>,
    diagnostics: FrameDiagnostics,
    recovery: Recovery,
    fault: CaptureError<E>,
) -> Capture<E> {
    match recovery {
        Recovery::Retry => open_attempt(cfg, (failed + 1) as u32, frame, diagnostics),
        Recovery::SyncLost => Capture {
            phase: CapturePhase::Done { result: Err(CaptureError::SyncLost) },
            failed,
            frame,
            diagnostics,
        },
        _ => Capture { phase: CapturePhase::Done { result: Err(fault) }, failed, frame, diagnostics },
    }
}

/// A capture with `left` packets of a drain still to come: none left, and
/// the recovery is carried out.
pub open spec fn drain<E>(
    cfg: &RobustCaptureConfig,
    failed: u32,
    frame: Seq<u8>,
    diagnostics: FrameDiagnostics,
    recovery: Recovery,
    fault: CaptureError<E>,
    left: u32,
) -> Capture<E> {
    if left == 0 {
        settle(cfg, failed, frame, diagnostics, recovery, fault)
    } else {
        Capture { phase: CapturePhase::Draining { left, recovery, fault }, failed, frame, diagnostics }
    }
}

/// A capture whose attempt has just failed with `fault`: the resync is
/// counted, and the fault is surfaced or the drain begins.
pub open spec fn after_fault<E>(
    cfg: &RobustCaptureConfig,
    locked: bool,
    failed: u32,
    frame: Seq<u8>,
    diagnostics: FrameDiagnostics,
    fault: CaptureError<E>,
) -> Capture<E> {
    let counted = FrameDiagnostics { resync_count: bump(diagnostics.resync_count), ..diagnostics };
    let recovery = recovery_for(cfg, locked, failed, fault);
    if recovery == Recovery::Surface {
        Capture {
            phase: CapturePhase::Done { result: Err(fault) },
            failed,
            frame,
            diagnostics: counted,
        }
    } else {
        drain(cfg, failed, frame, counted, recovery, fault, cfg.backoff_packet_reads)
    }
}

/// A capture whose attempt stands at `attempt`.
pub open spec fn absorb<E>(
    cfg: &RobustCaptureConfig,
    locked: bool,
    failed: u32,
    attempt: Attempt<E>,
) -> Capture<E> {
    let a = attempt.assembly;
    match attempt.fault {
        Some(fault) => after_fault(cfg, locked, failed, a.frame, a.diagnostics, fault),
        None => Capture {
            phase: if a.cursor.complete(cfg) {
                CapturePhase::Done { result: Ok(validated(a.meta)) }
            } else {
                CapturePhase::Attempting { cursor: a.cursor, meta: a.meta }
            },
            failed,
            frame: a.frame,
            diagnostics: a.diagnostics,
        },
    }
}

/// A capture after one more packet.
pub open spec fn capture_step<E>(
    cfg: &RobustCaptureConfig,
    locked: bool,
    c: Capture<E>,
    packet: Seq<u8>,
) -> Capture<E> {
    match c.phase {
        CapturePhase::Attempting { cursor, meta } => absorb(
            cfg,
            locked,
            c.failed,
            attempt_step::<E>(
                cfg,
                locked,
                Assembly { cursor, frame: c.frame, diagnostics: c.diagnostics, meta },
                packet,
            ),
        ),
        CapturePhase::Draining { left, recovery, fault } => drain(
            cfg,
            c.failed,
            c.frame,
            c.diagnostics,
            recovery,
            fault,
            (left - 1) as u32,
        ),
        CapturePhase::Done { .. } => c,
    }
}

/// The capture that starts with the buffer `frame` and the counters
/// `diagnostics`, after the source has handed out `packets`. `locked` says
/// whether a frame had been captured before.
pub open spec fn capture_after<E>(
    cfg: &RobustCaptureConfig,
    locked: bool,
    frame: Seq<u8>,
    diagnostics: FrameDiagnostics,
    packets: Seq<Seq<u8>>,
) -> Capture<E>
    decreases packets.len(),
{
    if packets.len() == 0 {
        open_attempt(cfg, 0, frame, diagnostics)
    } else {
        capture_step(
            cfg,
            locked,
            capture_after::<E>(cfg, locked, frame, diagnostics, packets.drop_last()),
            packets.last(),
        )
    }
}

/// One more packet is one step of the capture.
pub proof fn lemma_capture_push<E>(
    cfg: &RobustCaptureConfig,
    locked: bool,
    frame: Seq<u8>,
    diagnostics: FrameDiagnostics,
    packets: Seq<Seq<u8>>,
    packet: Seq<u8>,
)
    ensures
        capture_after::<E>(cfg, locked, frame, diagnostics, packets.push(packet)) == capture_step(
            cfg,
            locked,
            capture_after::<E>(cfg, locked, frame, diagnostics, packets),
            packet,
        ),
{
    assert(packets.push(packet).drop_last() =~= packets);
}

/// An attempt with another tick in its record.
pub open spec fn with_ticks<E>(attempt: Attempt<E>, ticks: u64) -> Attempt<E> {
    Attempt {
        assembly: Assembly {
            meta: FrameMeta { capture_ticks: ticks, ..attempt.assembly.meta },
            ..attempt.assembly
        },
        fault: attempt.fault,
    }
}

/// The tick in the record of an attempt has no part in what the attempt
/// does: it is carried along.
pub proof fn lemma_ticks_carried<E>(
    cfg: &RobustCaptureConfig,
    locked: bool,
    start: Assembly,
    packets: Seq<Seq<u8>>,
    ticks: u64,
)
    ensures
        attempt_after::<E>(
            cfg,
            locked,
            with_ticks(Attempt::<E> { assembly: start, fault: None }, ticks).assembly,
            packets,
        ) == with_ticks(attempt_after::<E>(cfg, locked, start, packets), ticks),
    decreases packets.len(),
{
    if packets.len() > 0 {
        lemma_ticks_carried::<E>(cfg, locked, start, packets.drop_last(), ticks);
    }
}

/// An attempt that was still running before its last packet was running
/// before every packet.
pub proof fn lemma_running_before<E>(
    cfg: &RobustCaptureConfig,
    locked: bool,
    start: Assembly,
    packets: Seq<Seq<u8>>,
)
    requires
        attempt_after::<E>(cfg, locked, start, packets).running(cfg),
    ensures
        packets.len() > 0 ==> attempt_after::<E>(cfg, locked, start, packets.drop_last()).running(
            cfg,
        ),
{
}

/// A capture that stands at the start of an attempt, and whose source then
/// hands out `chunk`, of which the attempt takes every packet, stands where
/// the attempt stands.
pub proof fn lemma_attempt_in_capture<E>(
    cfg: &RobustCaptureConfig,
    locked: bool,
    frame: Seq<u8>,
    diagnostics: FrameDiagnostics,
    prefix: Seq<Seq<u8>>,
    failed: u32,
    at_frame: Seq<u8>,
    at_diagnostics: FrameDiagnostics,
    chunk: Seq<Seq<u8>>,
)
    requires
        capture_after::<E>(cfg, locked, frame, diagnostics, prefix) == open_attempt::<E>(
            cfg,
            failed,
            at_frame,
            at_diagnostics,
        ),
        chunk.len() > 0 ==> attempt_after::<E>(
            cfg,
            locked,
            blank_attempt(at_frame, at_diagnostics),
            chunk.drop_last(),
        ).running(cfg),
    ensures
        capture_after::<E>(cfg, locked, frame, diagnostics, prefix + chunk) == absorb(
            cfg,
            locked,
            failed,
            attempt_after::<E>(cfg, locked, blank_attempt(at_frame, at_diagnostics), chunk),
        ),
    decreases chunk.len(),
{
    let start = blank_attempt(at_frame, at_diagnostics);
    if chunk.len() == 0 {
        assert(prefix + chunk =~= prefix);
    } else {
        let shorter = chunk.drop_last();
        lemma_running_before::<E>(cfg, locked, start, shorter);
        lemma_attempt_in_capture::<E>(
            cfg,
            locked,
            frame,
            diagnostics,
            prefix,
            failed,
            at_frame,
            at_diagnostics,
            shorter,
        );
        assert((prefix + chunk).drop_last() =~= prefix + shorter);
        assert((prefix + chunk).last() == chunk.last());
    }
}

/// What one attempt adds to a capture. The capture stood at the start of
/// an attempt after `earlier`; the attempt, whose record bears the tick
/// `ticks`, then took every packet of `chunk`. The capture stands where the
/// attempt stands, and it was not over before the last packet.
pub proof fn lemma_attempt_chunk<E>(
    cfg: &RobustCaptureConfig,
    locked: bool,
    frame: Seq<u8>,
    diagnostics: FrameDiagnostics,
    earlier: Seq<Seq<u8>>,
    failed: u32,
    at_frame: Seq<u8>,
    at_diagnostics: FrameDiagnostics,
    chunk: Seq<Seq<u8>>,
    ticks: u64,
)
    requires
        capture_after::<E>(cfg, locked, frame, diagnostics, earlier) == open_attempt::<E>(
            cfg,
            failed,
            at_frame,
            at_diagnostics,
        ),
        earlier.len() > 0 ==> !(capture_after::<E>(
            cfg,
            locked,
            frame,
            diagnostics,
            earlier.drop_last(),
        ).phase is Done),
        chunk.len() > 0 ==> attempt_after::<E>(
            cfg,
            locked,
            fresh_attempt(at_frame, at_diagnostics, FrameMeta::fresh(ticks)),
            chunk.drop_last(),
        ).running(cfg),
        all_sized(earlier, cfg.packet_size_bytes as int),
        all_sized(chunk, cfg.packet_size_bytes as int),
    ensures
        capture_after::<E>(cfg, locked, frame, diagnostics, earlier + chunk) == absorb(
            cfg,
            locked,
            failed,
            with_ticks(
                attempt_after::<E>(
                    cfg,
                    locked,
                    fresh_attempt(at_frame, at_diagnostics, FrameMeta::fresh(ticks)),
                    chunk,
                ),
                0,
            ),
        ),
        (earlier + chunk).len() > 0 ==> !(capture_after::<E>(
            cfg,
            locked,
            frame,
            diagnostics,
            (earlier + chunk).drop_last(),
        ).phase is Done),
        all_sized(earlier + chunk, cfg.packet_size_bytes as int),
        attempt_after::<E>(
            cfg,
            locked,
            fresh_attempt(at_frame, at_diagnostics, FrameMeta::fresh(ticks)),
            chunk,
        ).assembly.meta.capture_ticks == ticks,
{
    let blank = blank_attempt(at_frame, at_diagnostics);
    let ticked = fresh_attempt(at_frame, at_diagnostics, FrameMeta::fresh(ticks));
    assert(ticked == with_ticks(Attempt::<E> { assembly: blank, fault: None }, ticks).assembly);
    assert(blank == with_ticks(Attempt::<E> { assembly: blank, fault: None }, 0).assembly);
    lemma_ticks_carried::<E>(cfg, locked, blank, chunk, ticks);
    lemma_ticks_carried::<E>(cfg, locked, blank, chunk, 0);
    if chunk.len() > 0 {
        let shorter = chunk.drop_last();
        lemma_ticks_carried::<E>(cfg, locked, blank, shorter, ticks);
        lemma_running_before::<E>(cfg, locked, blank, shorter);
        lemma_attempt_in_capture::<E>(
            cfg,
            locked,
            frame,
            diagnostics,
            earlier,
            failed,
            at_frame,
            at_diagnostics,
            shorter,
        );
        assert((earlier + chunk).drop_last() =~= earlier + shorter);
    } else {
        assert(earlier + chunk =~= earlier);
    }
    lemma_attempt_in_capture::<E>(
        cfg,
        locked,
        frame,
        diagnostics,
        earlier,
        failed,
        at_frame,
        at_diagnostics,
        chunk,
    );
    let all = earlier + chunk;
    assert forall|i: int| 0 <= i < all.len() implies (#[trigger] all[i]).len()
        == cfg.packet_size_bytes by {
        if i >= earlier.len() {
            assert(all[i] == chunk[i - earlier.len()]);
        } else {
            assert(all[i] == earlier[i]);
        }
    }
}

/// What holds of the record of an attempt, running or complete: it bears
/// the machine's tick, no resync and no bad line, no more discards than
/// the ceiling allows, and while locked no bad checksum.
pub open spec fn record_in_order(cfg: &RobustCaptureConfig, locked: bool, meta: FrameMeta) -> bool {
    &&& meta.capture_ticks == 0
    &&& meta.resync_count == 0
    &&& meta.bad_line_count == 0
    &&& meta.discard_packets <= cfg.max_discard_packets
    &&& locked ==> meta.crc_errors == 0
}

/// A fault that a capture can end with: one that the assembler raises, or
/// the loss of synchronisation; a stream fault only where the capture was
/// locked.
pub open spec fn is_final_fault<E>(locked: bool, fault: CaptureError<E>) -> bool {
    &&& !(fault is Spi)
    &&& !(fault is RetryLimitExceeded)
    &&& is_stream_fault(fault) ==> locked
}

/// What holds of a capture at every step, whatever the packets: the buffer
/// keeps its length, no cumulative counter falls, a record is in order and
/// is valid exactly when the capture has ended with a frame, and a fault
/// is one that a capture can end with.
pub open spec fn capture_inv<E>(
    cfg: &RobustCaptureConfig,
    locked: bool,
    frame: Seq<u8>,
    diagnostics: FrameDiagnostics,
    c: Capture<E>,
) -> bool {
    &&& c.frame.len() == frame.len()
    &&& c.diagnostics.not_below(&diagnostics)
    &&& match c.phase {
        CapturePhase::Attempting { cursor, meta } => !meta.valid && record_in_order(cfg, locked, meta),
        CapturePhase::Draining { left, recovery, fault } => {
            &&& left > 0
            &&& recovery != Recovery::Surface
            &&& recovery == recovery_for(cfg, locked, c.failed, fault)
            &&& is_final_fault(locked, fault)
            &&& !(fault is SyncLost)
        },
        CapturePhase::Done { result } => match result {
            Ok(meta) => meta.valid && record_in_order(cfg, locked, meta),
            Err(fault) => is_final_fault(locked, fault),
        },
    }
}

/// One packet keeps the invariant of the capture.
proof fn lemma_step_keeps_inv<E>(
    cfg: &RobustCaptureConfig,
    locked: bool,
    frame: Seq<u8>,
    diagnostics: FrameDiagnostics,
    c: Capture<E>,
    packet: Seq<u8>,
)
    requires
        capture_inv(cfg, locked, frame, diagnostics, c),
    ensures
        capture_inv(cfg, locked, frame, diagnostics, capture_step(cfg, locked, c, packet)),
{
}

/// The invariant of the capture holds after any run of packets.
pub proof fn lemma_capture_invariant<E>(
    cfg: &RobustCaptureConfig,
    locked: bool,
    frame: Seq<u8>,
    diagnostics: FrameDiagnostics,
    packets: Seq<Seq<u8>>,
)
    ensures
        capture_inv(
            cfg,
            locked,
            frame,
            diagnostics,
            capture_after::<E>(cfg, locked, frame, diagnostics, packets),
        ),
    decreases packets.len(),
{
    if packets.len() > 0 {
        lemma_capture_invariant::<E>(cfg, locked, frame, diagnostics, packets.drop_last());
        lemma_step_keeps_inv::<E>(
            cfg,
            locked,
            frame,
            diagnostics,
            capture_after::<E>(cfg, locked, frame, diagnostics, packets.drop_last()),
            packets.last(),
        );
    }
}

/// Whatever the packets, no cumulative counter of a capture is ever below
/// the value that it had when the capture began.
pub proof fn lemma_counters_never_decrease<E>(
    cfg: &RobustCaptureConfig,
    locked: bool,
    frame: Seq<u8>,
    diagnostics: FrameDiagnostics,
    packets: Seq<Seq<u8>>,
)
    ensures
        capture_after::<E>(cfg, locked, frame, diagnostics, packets).diagnostics.not_below(
            &diagnostics,
        ),
{
    lemma_capture_invariant::<E>(cfg, locked, frame, diagnostics, packets);
}

/// A capture that ends with a frame hands out a record that is valid, that
/// counts no resync and no bad line, and whose discards are within the
/// ceiling; a locked capture has met no bad checksum on the way.
pub proof fn lemma_frame_record<E>(
    cfg: &RobustCaptureConfig,
    locked: bool,
    frame: Seq<u8>,
    diagnostics: FrameDiagnostics,
    packets: Seq<Seq<u8>>,
    meta: FrameMeta,
)
    requires
        capture_after::<E>(cfg, locked, frame, diagnostics, packets).phase == (CapturePhase::<
            E,
        >::Done { result: Ok(meta) }),
    ensures
        meta.valid,
        meta.resync_count == 0,
        meta.bad_line_count == 0,
        meta.discard_packets <= cfg.max_discard_packets,
        locked ==> meta.crc_errors == 0,
{
    lemma_capture_invariant::<E>(cfg, locked, frame, diagnostics, packets);
}

/// A capture never ends with a fault of the transport nor with
/// `RetryLimitExceeded`: the attempts run out on the fault of the last of
/// them. A bad checksum, a wrong line and a wrong segment end a capture
/// only if it was locked: while seeking they are absorbed.
pub proof fn lemma_final_fault<E>(
    cfg: &RobustCaptureConfig,
    locked: bool,
    frame: Seq<u8>,
    diagnostics: FrameDiagnostics,
    packets: Seq<Seq<u8>>,
    fault: CaptureError<E>,
)
    requires
        capture_after::<E>(cfg, locked, frame, diagnostics, packets).phase == (CapturePhase::<
            E,
        >::Done { result: Err(fault) }),
    ensures
        !(fault is Spi),
        !(fault is RetryLimitExceeded),
        is_stream_fault(fault) ==> locked,
{
    lemma_capture_invariant::<E>(cfg, locked, frame, diagnostics, packets);
}

} // verus!
