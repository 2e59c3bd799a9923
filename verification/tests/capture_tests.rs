use lepton::assembly::{assemble_packet, classify_packet, FrameCursor, PacketVerdict};
use lepton::capture::{plan_recovery, Recovery};
use lepton::crc::lepton_packet_crc16_spec;
use lepton::staged::{StagedError, StagedPackets};
use lepton::vospi::{
    capture_frame_from_source, capture_frame_into, checked_frame_buffer_len, is_discard_packet,
    line_number,
    parse_packet_header, read_one_frame, required_frame_buffer_len, segment_number, CaptureError,
    FrameDiagnostics, FrameMeta, PacketHeader, PacketSource, RobustCaptureConfig, SyncState,
};

struct Staged {
    packets: Vec<Vec<u8>>,
    next: usize,
}

impl Staged {
    fn new(packets: Vec<Vec<u8>>) -> Self {
        Staged { packets, next: 0 }
    }
}

impl PacketSource for Staged {
    type Error = u8;

    fn read_packet(&mut self, packet: &mut [u8]) -> Result<(), u8> {
        if self.next >= self.packets.len() {
            return Err(7);
        }
        packet.copy_from_slice(&self.packets[self.next]);
        self.next += 1;
        Ok(())
    }
}

fn sealed(mut packet: Vec<u8>) -> Vec<u8> {
    let crc = lepton_packet_crc16_spec(&packet).unwrap();
    packet[2..4].copy_from_slice(&crc.to_be_bytes());
    packet
}

fn line_packet(size: usize, line: u16, segment: u8, seed: u8) -> Vec<u8> {
    let mut packet = vec![0u8; size];
    let id = if line == 20 {
        ((segment as u16) << 12) | line
    } else {
        line
    };
    packet[0..2].copy_from_slice(&id.to_be_bytes());
    for (i, b) in packet[4..].iter_mut().enumerate() {
        *b = seed.wrapping_add(i as u8);
    }
    sealed(packet)
}

fn discard_packet(size: usize, id: u16) -> Vec<u8> {
    let mut packet = vec![0u8; size];
    packet[0..2].copy_from_slice(&id.to_be_bytes());
    packet
}

fn frame_packets(size: usize, segments: u8, lines: u16) -> Vec<Vec<u8>> {
    let mut packets = Vec::new();
    for segment in 1..=segments {
        for line in 0..lines {
            packets.push(line_packet(size, line, segment, segment.wrapping_mul(9).wrapping_add(line as u8)));
        }
    }
    packets
}

fn small_config() -> RobustCaptureConfig {
    let mut cfg = RobustCaptureConfig::default();
    cfg.packet_size_bytes = 8;
    cfg.lines_per_segment = 3;
    cfg.segments_per_frame = 2;
    cfg.timeout_packets = 40;
    cfg.max_discard_packets = 5;
    cfg.backoff_packet_reads = 1;
    cfg
}

struct Run {
    result: Result<FrameMeta, CaptureError<u8>>,
    frame: Vec<u8>,
    synced: bool,
    state: SyncState,
    diag: FrameDiagnostics,
    consumed: usize,
}

fn run(cfg: &RobustCaptureConfig, packets: Vec<Vec<u8>>, locked: bool, ticks: u64) -> Run {
    let mut source = Staged::new(packets);
    let mut synced = locked;
    let mut state = SyncState::Unsynced;
    let mut diag = FrameDiagnostics::default();
    let mut frame = vec![0xEEu8; required_frame_buffer_len(cfg)];
    let mut scratch = vec![0u8; cfg.packet_size_bytes];
    let result = capture_frame_into(
        &mut source,
        cfg,
        &mut synced,
        &mut state,
        &mut diag,
        &mut frame,
        &mut scratch,
        || ticks,
    );
    Run {
        result,
        frame,
        synced,
        state,
        diag,
        consumed: source.next,
    }
}

#[test]
fn happy_path_full_frame_has_no_resync() {
    let cfg = RobustCaptureConfig::default();
    let mut packets = Vec::new();
    for segment in 1..=4u8 {
        for line in 0..60u16 {
            packets.push(line_packet(164, line, segment, segment * 9));
        }
    }
    let mut source = Staged::new(packets.clone());
    let mut synced = false;
    let mut state = SyncState::Unsynced;
    let mut diag = FrameDiagnostics::default();
    let frame =
        capture_frame_from_source(&mut source, &cfg, &mut synced, &mut state, &mut diag, || 5)
            .unwrap();
    assert_eq!(frame.pixels.len(), 160 * 60 * 4);
    assert_eq!(frame.pixels.len(), 38400);
    assert!(frame.meta.valid);
    assert_eq!(frame.meta.resync_count, 0);
    assert_eq!(frame.meta.capture_ticks, 5);
    assert_eq!(frame.meta.discard_packets, 0);
    assert_eq!(frame.meta.crc_errors, 0);
    assert_eq!(frame.meta.bad_line_count, 0);
    assert!(synced);
    assert_eq!(state, SyncState::Locked);
    assert_eq!(source.next, 240);
    let expected: Vec<u8> = packets.iter().flat_map(|p| p[4..].iter().copied()).collect();
    assert_eq!(frame.pixels, expected);
}

#[test]
fn frame_is_the_payloads_in_segment_and_line_order() {
    let cfg = small_config();
    let packets = frame_packets(8, 2, 3);
    let expected: Vec<u8> = packets.iter().flat_map(|p| p[4..].iter().copied()).collect();
    let out = run(&cfg, packets, false, 9);
    let meta = out.result.unwrap();
    assert!(meta.valid);
    assert_eq!(meta.capture_ticks, 9);
    assert_eq!(out.frame, expected);
    assert_eq!(out.consumed, 6);
    assert_eq!(out.state, SyncState::Locked);
    assert!(out.synced);
    assert_eq!(out.diag.resync_count, 0);
}

#[test]
fn single_garbage_packet_then_frame_succeeds() {
    let cfg = small_config();
    let mut packets = vec![line_packet(8, 2, 1, 0x55)];
    packets.extend(frame_packets(8, 2, 3));
    let expected: Vec<u8> = packets[1..]
        .iter()
        .flat_map(|p| p[4..].iter().copied())
        .collect();
    let out = run(&cfg, packets, false, 0);
    let meta = out.result.unwrap();
    assert!(meta.valid);
    assert_eq!(meta.resync_count, 0);
    assert_eq!(out.frame, expected);
    assert_eq!(out.diag.bad_line_count, 0);
}

#[test]
fn seeking_restarts_on_a_wrong_line_and_overwrites_from_the_start() {
    let cfg = small_config();
    let mut packets = vec![
        line_packet(8, 0, 1, 0x11),
        line_packet(8, 1, 1, 0x22),
        // line 1 again: out of order, the assembler goes back to the start
        line_packet(8, 1, 1, 0x33),
    ];
    packets.extend(frame_packets(8, 2, 3));
    let expected: Vec<u8> = packets[3..]
        .iter()
        .flat_map(|p| p[4..].iter().copied())
        .collect();
    let out = run(&cfg, packets, false, 0);
    assert!(out.result.unwrap().valid);
    assert_eq!(out.frame, expected);
    assert_eq!(out.diag.bad_line_count, 0);
    assert_eq!(out.diag.resync_count, 0);
    assert_eq!(out.consumed, 9);
}

#[test]
fn discards_are_counted_and_do_not_move_the_cursor() {
    let cfg = small_config();
    let frame = frame_packets(8, 2, 3);
    let mut packets = vec![discard_packet(8, 0xF123)];
    packets.push(frame[0].clone());
    packets.push(discard_packet(8, 0xFFFF));
    packets.push(discard_packet(8, 0xF000));
    packets.extend(frame[1..].iter().cloned());
    let out = run(&cfg, packets, true, 0);
    let meta = out.result.unwrap();
    assert_eq!(meta.discard_packets, 3);
    assert_eq!(out.diag.discard_count, 3);
    assert_eq!(out.consumed, 9);
}

#[test]
fn discard_flood_is_reported_when_no_retry_is_left() {
    let mut cfg = small_config();
    cfg.max_discard_packets = 2;
    cfg.max_frame_retries = 0;
    cfg.backoff_packet_reads = 2;
    let packets = vec![discard_packet(8, 0xF001); 6];
    let out = run(&cfg, packets, false, 0);
    assert_eq!(out.result.unwrap_err(), CaptureError::DiscardPacketFlood);
    assert_eq!(out.diag.discard_count, 3);
    assert_eq!(out.diag.resync_count, 1);
    // three discards, then the two packets of the drain
    assert_eq!(out.consumed, 5);
    assert_eq!(out.state, SyncState::Unsynced);
    assert!(!out.synced);
}

#[test]
fn sync_lost_when_resyncs_run_out() {
    let mut cfg = small_config();
    cfg.max_discard_packets = 0;
    cfg.max_resync_attempts = 1;
    cfg.max_frame_retries = 4;
    cfg.backoff_packet_reads = 0;
    let packets = vec![discard_packet(8, 0xF001); 6];
    let out = run(&cfg, packets, false, 0);
    assert_eq!(out.result.unwrap_err(), CaptureError::SyncLost);
    assert_eq!(out.diag.resync_count, 2);
    assert_eq!(out.consumed, 2);
    assert_eq!(out.state, SyncState::Unsynced);
}

#[test]
fn sync_lost_wins_over_the_retry_ceiling() {
    let mut cfg = small_config();
    cfg.max_discard_packets = 0;
    cfg.max_resync_attempts = 0;
    cfg.max_frame_retries = 0;
    cfg.backoff_packet_reads = 0;
    let out = run(&cfg, vec![discard_packet(8, 0xF001)], false, 0);
    assert_eq!(out.result.unwrap_err(), CaptureError::SyncLost);
}

#[test]
fn timeout_after_too_many_packets() {
    let mut cfg = small_config();
    cfg.timeout_packets = 3;
    cfg.max_frame_retries = 0;
    cfg.backoff_packet_reads = 0;
    // noise while seeking: never line 0
    let packets = vec![line_packet(8, 2, 1, 0); 10];
    let out = run(&cfg, packets, false, 0);
    assert_eq!(out.result.unwrap_err(), CaptureError::Timeout);
    // three packets are taken, the fourth meets the ceiling
    assert_eq!(out.consumed, 4);
}

#[test]
fn crc_mismatch_fails_at_once_while_locked() {
    let cfg = small_config();
    let mut packets = frame_packets(8, 2, 3);
    packets[1][6] ^= 0xFF;
    let out = run(&cfg, packets, true, 0);
    assert_eq!(out.result.unwrap_err(), CaptureError::CrcMismatch);
    assert_eq!(out.diag.crc_error_count, 1);
    assert_eq!(out.diag.resync_count, 1);
    // the fault is surfaced without a drain
    assert_eq!(out.consumed, 2);
    assert!(out.synced);
    assert_eq!(out.state, SyncState::Unsynced);
}

#[test]
fn crc_mismatch_is_absorbed_while_seeking() {
    let cfg = small_config();
    let good = frame_packets(8, 2, 3);
    let mut bad = good[1].clone();
    bad[6] ^= 0xFF;
    let mut packets = vec![good[0].clone(), bad];
    packets.extend(good.iter().cloned());
    let out = run(&cfg, packets, false, 0);
    let meta = out.result.unwrap();
    assert_eq!(meta.crc_errors, 1);
    assert_eq!(out.diag.crc_error_count, 1);
    assert_eq!(out.diag.resync_count, 0);
}

#[test]
fn crc_is_ignored_when_disabled() {
    let mut cfg = small_config();
    cfg.enable_crc = false;
    let mut packets = frame_packets(8, 2, 3);
    for p in packets.iter_mut() {
        p[2] = 0xAB;
        p[3] = 0xCD;
    }
    let out = run(&cfg, packets, true, 0);
    assert!(out.result.unwrap().valid);
    assert_eq!(out.diag.crc_error_count, 0);
}

#[test]
fn line_out_of_order_counts_a_bad_line_while_locked() {
    let cfg = small_config();
    let mut packets = frame_packets(8, 2, 3);
    packets[1] = line_packet(8, 2, 1, 0);
    let out = run(&cfg, packets, true, 0);
    assert_eq!(
        out.result.unwrap_err(),
        CaptureError::LineOutOfOrder {
            expected: 1,
            observed: 2
        }
    );
    assert_eq!(out.diag.bad_line_count, 1);
    assert_eq!(out.diag.resync_count, 1);
}

#[test]
fn segment_out_of_order_while_locked_names_both_segments() {
    let mut cfg = small_config();
    cfg.lines_per_segment = 21;
    cfg.timeout_packets = 100;
    let mut packets = frame_packets(8, 2, 21);
    packets[20] = line_packet(8, 20, 2, 0);
    let out = run(&cfg, packets, true, 0);
    assert_eq!(
        out.result.unwrap_err(),
        CaptureError::SegmentOutOfOrder {
            expected: 1,
            observed: 2
        }
    );
}

#[test]
fn segment_above_the_frame_is_an_invalid_packet() {
    let mut cfg = small_config();
    cfg.lines_per_segment = 21;
    cfg.timeout_packets = 100;
    cfg.max_frame_retries = 0;
    cfg.backoff_packet_reads = 0;
    let mut packets = frame_packets(8, 2, 21);
    packets[20] = line_packet(8, 20, 3, 0);
    let out = run(&cfg, packets, false, 0);
    assert_eq!(out.result.unwrap_err(), CaptureError::InvalidPacket);
}

#[test]
fn transport_error_is_passed_on_without_retry() {
    let cfg = small_config();
    let packets = frame_packets(8, 2, 3)[..4].to_vec();
    let out = run(&cfg, packets, false, 0);
    assert_eq!(out.result.unwrap_err(), CaptureError::Spi(7));
    assert_eq!(out.diag.resync_count, 0);
    assert_eq!(out.state, SyncState::Seeking);
    assert!(!out.synced);
}

#[test]
fn transport_error_in_the_drain_is_passed_on() {
    let mut cfg = small_config();
    cfg.max_discard_packets = 0;
    cfg.backoff_packet_reads = 3;
    let packets = vec![discard_packet(8, 0xF001); 2];
    let out = run(&cfg, packets, false, 0);
    assert_eq!(out.result.unwrap_err(), CaptureError::Spi(7));
    assert_eq!(out.diag.resync_count, 1);
    assert_eq!(out.state, SyncState::Unsynced);
}

#[test]
fn failed_attempt_is_retried_after_the_drain() {
    let mut cfg = small_config();
    cfg.max_discard_packets = 0;
    cfg.backoff_packet_reads = 2;
    let mut packets = vec![
        discard_packet(8, 0xF001),
        line_packet(8, 1, 1, 0),
        line_packet(8, 2, 1, 0),
    ];
    packets.extend(frame_packets(8, 2, 3));
    let out = run(&cfg, packets, false, 77);
    let meta = out.result.unwrap();
    assert!(meta.valid);
    assert_eq!(meta.resync_count, 0);
    assert_eq!(meta.discard_packets, 0);
    assert_eq!(meta.capture_ticks, 77);
    assert_eq!(out.diag.resync_count, 1);
    assert_eq!(out.diag.discard_count, 1);
    assert_eq!(out.consumed, 9);
}

#[test]
fn undersized_buffers_and_tiny_packets_are_refused() {
    let cfg = small_config();
    let mut source = Staged::new(frame_packets(8, 2, 3));
    let mut synced = true;
    let mut state = SyncState::Locked;
    let mut diag = FrameDiagnostics::default();
    let mut scratch = vec![0u8; 8];

    let mut short_frame = vec![0u8; 23];
    let res = capture_frame_into(
        &mut source, &cfg, &mut synced, &mut state, &mut diag, &mut short_frame, &mut scratch, || 0,
    );
    assert_eq!(res.unwrap_err(), CaptureError::InvalidPacket);

    let mut frame = vec![0u8; 24];
    let mut short_scratch = vec![0u8; 7];
    let res = capture_frame_into(
        &mut source, &cfg, &mut synced, &mut state, &mut diag, &mut frame, &mut short_scratch, || 0,
    );
    assert_eq!(res.unwrap_err(), CaptureError::InvalidPacket);

    let mut tiny = cfg;
    tiny.packet_size_bytes = 3;
    let res = capture_frame_into(
        &mut source, &tiny, &mut synced, &mut state, &mut diag, &mut frame, &mut scratch, || 0,
    );
    assert_eq!(res.unwrap_err(), CaptureError::InvalidPacket);
    let res = capture_frame_from_source(&mut source, &tiny, &mut synced, &mut state, &mut diag, || 0);
    assert!(matches!(res, Err(CaptureError::InvalidPacket)));

    // nothing was read, counted or changed
    assert_eq!(source.next, 0);
    assert_eq!(diag.resync_count, 0);
    assert_eq!(state, SyncState::Locked);
    assert!(synced);
}

#[test]
fn latch_is_set_by_success_and_kept_by_failure() {
    let cfg = small_config();
    let mut packets = frame_packets(8, 2, 3);
    // second capture: locked now, and the first packet is out of order
    packets.push(line_packet(8, 1, 1, 0));
    let mut source = Staged::new(packets);
    let mut synced = false;
    let mut state = SyncState::Unsynced;
    let mut diag = FrameDiagnostics::default();
    let mut frame = vec![0u8; 24];
    let mut scratch = vec![0u8; 8];

    let first = capture_frame_into(
        &mut source, &cfg, &mut synced, &mut state, &mut diag, &mut frame, &mut scratch, || 1,
    );
    assert!(first.is_ok());
    assert!(synced);
    let before = diag;

    let second = capture_frame_into(
        &mut source, &cfg, &mut synced, &mut state, &mut diag, &mut frame, &mut scratch, || 2,
    );
    assert_eq!(
        second.unwrap_err(),
        CaptureError::LineOutOfOrder {
            expected: 0,
            observed: 1
        }
    );
    assert!(synced);
    assert_eq!(state, SyncState::Unsynced);
    assert!(diag.discard_count >= before.discard_count);
    assert!(diag.crc_error_count >= before.crc_error_count);
    assert!(diag.bad_line_count >= before.bad_line_count);
    assert!(diag.resync_count >= before.resync_count);
    assert_eq!(diag.bad_line_count, 1);
}

#[test]
fn frame_without_segments_is_complete_at_once() {
    let mut cfg = small_config();
    cfg.segments_per_frame = 0;
    let out = run(&cfg, vec![], false, 3);
    let meta = out.result.unwrap();
    assert!(meta.valid);
    assert_eq!(out.consumed, 0);
    assert!(out.frame.is_empty());
}

#[test]
fn cumulative_counters_saturate() {
    let mut cfg = small_config();
    cfg.max_discard_packets = 10;
    let frame = frame_packets(8, 2, 3);
    let mut packets = vec![discard_packet(8, 0xF001), discard_packet(8, 0xF001)];
    packets.extend(frame);
    let mut source = Staged::new(packets);
    let mut synced = false;
    let mut state = SyncState::Unsynced;
    let mut diag = FrameDiagnostics {
        discard_count: u32::MAX - 1,
        crc_error_count: 0,
        bad_line_count: 0,
        resync_count: 0,
    };
    let mut buffer = vec![0u8; 24];
    let mut scratch = vec![0u8; 8];
    let res = capture_frame_into(
        &mut source, &cfg, &mut synced, &mut state, &mut diag, &mut buffer, &mut scratch, || 0,
    );
    assert_eq!(res.unwrap().discard_packets, 2);
    assert_eq!(diag.discard_count, u32::MAX);
}

#[test]
fn read_one_frame_leaves_the_state_alone_on_failure() {
    let cfg = small_config();
    let mut source = Staged::new(vec![line_packet(8, 1, 1, 0)]);
    let mut state = SyncState::Locked;
    let mut diag = FrameDiagnostics::default();
    let mut meta = FrameMeta::default();
    let mut frame = vec![0u8; 24];
    let mut scratch = vec![0u8; 8];
    let res = read_one_frame(
        &mut source, &cfg, &mut frame, &mut scratch, &mut state, &mut diag, &mut meta,
    );
    assert_eq!(
        res,
        Err(CaptureError::LineOutOfOrder {
            expected: 0,
            observed: 1
        })
    );
    assert_eq!(state, SyncState::Locked);
    assert_eq!(meta.bad_line_count, 1);
    assert_eq!(diag.bad_line_count, 1);
    assert_eq!(frame, vec![0u8; 24]);
}

#[test]
fn read_one_frame_locks_on_success() {
    let cfg = small_config();
    let mut source = Staged::new(frame_packets(8, 2, 3));
    let mut state = SyncState::Seeking;
    let mut diag = FrameDiagnostics::default();
    let mut meta = FrameMeta::default();
    let mut frame = vec![0u8; 30];
    let mut scratch = vec![0u8; 12];
    let res = read_one_frame(
        &mut source, &cfg, &mut frame, &mut scratch, &mut state, &mut diag, &mut meta,
    );
    assert_eq!(res, Ok(()));
    assert_eq!(state, SyncState::Locked);
    assert!(!meta.valid);
    // bytes behind the frame are not touched
    assert_eq!(&frame[24..], &[0u8; 6]);
}

#[test]
fn header_fields_are_decoded_as_documented() {
    let header: PacketHeader = parse_packet_header(&[0x30, 0x14, 0xBE, 0xEF, 1, 2]).unwrap();
    assert_eq!(header.packet_id, 0x3014);
    assert_eq!(header.packet_number, 20);
    assert_eq!(header.crc, 0xBEEF);
    assert!(!header.is_discard);
    assert_eq!(header.decode_segment_on_packet20(), Some(3));

    let other = parse_packet_header(&[0x7A, 0xBC, 0, 0]).unwrap();
    assert_eq!(other.packet_number, 0xABC);
    assert!(!other.is_discard);
    assert_eq!(other.decode_segment_on_packet20(), None);
}

#[test]
fn short_packets_have_no_header() {
    assert!(parse_packet_header(&[]).is_none());
    assert!(parse_packet_header(&[0x00, 0x14, 0x00]).is_none());
    assert_eq!(line_number(&[0x00, 0x14, 0x00]), None);
    assert_eq!(segment_number(&[0x10, 0x14]), None);
    assert_eq!(line_number(&[0x10, 0x14, 0, 0]), Some(20));
}

#[test]
fn discard_packet_on_line_20_names_no_segment() {
    // ID 0xF014: a discard packet whose low bits read as line 20
    assert_eq!(segment_number(&[0xF0, 0x14, 0, 0]), None);
    let header = parse_packet_header(&[0xF0, 0x14, 0, 0]).unwrap();
    assert!(header.is_discard);
    assert_eq!(header.packet_number, 20);
    assert_eq!(header.decode_segment_on_packet20(), None);
    // the top bit alone is no discard, and is no part of the segment
    assert_eq!(segment_number(&[0x90, 0x14, 0, 0]), Some(1));
}

#[test]
fn frame_buffer_length_is_payload_times_lines_times_segments() {
    let mut cfg = RobustCaptureConfig::default();
    assert_eq!(required_frame_buffer_len(&cfg), 38400);
    assert_eq!(checked_frame_buffer_len(&cfg), Some(38400));
    cfg.packet_size_bytes = 10;
    cfg.lines_per_segment = 7;
    cfg.segments_per_frame = 3;
    assert_eq!(required_frame_buffer_len(&cfg), 6 * 7 * 3);
    cfg.packet_size_bytes = 3;
    assert_eq!(required_frame_buffer_len(&cfg), 0);
    assert_eq!(checked_frame_buffer_len(&cfg), Some(0));
    cfg.packet_size_bytes = usize::MAX;
    cfg.lines_per_segment = 2;
    assert_eq!(checked_frame_buffer_len(&cfg), None);
}

#[test]
fn default_configuration_has_the_documented_values() {
    let cfg = RobustCaptureConfig::default();
    assert!(cfg.enable_crc);
    assert_eq!(cfg.max_resync_attempts, 20);
    assert_eq!(cfg.max_frame_retries, 4);
    assert_eq!(cfg.packet_size_bytes, 164);
    assert_eq!(cfg.max_discard_packets, 600);
    assert_eq!(cfg.timeout_packets, 3000);
    assert_eq!(cfg.backoff_packet_reads, 2);
    let diag = FrameDiagnostics::default();
    assert_eq!(
        (diag.discard_count, diag.crc_error_count, diag.bad_line_count, diag.resync_count),
        (0, 0, 0, 0)
    );
    let meta = FrameMeta::default();
    assert!(!meta.valid);
    assert_eq!(meta.capture_ticks, 0);
}

#[test]
fn verdicts_follow_the_order_of_the_tests() {
    let cfg = small_config();
    let start = FrameCursor {
        expected_segment: 1,
        expected_packet_number: 0,
        packets_seen: 0,
    };
    let spent = FrameCursor {
        expected_segment: 1,
        expected_packet_number: 0,
        packets_seen: 40,
    };
    let line0 = line_packet(8, 0, 1, 0);
    let line2 = line_packet(8, 2, 1, 0);
    let mut broken = line0.clone();
    broken[5] ^= 1;

    assert_eq!(classify_packet(&cfg, true, &spent, &line0), PacketVerdict::TimedOut);
    assert_eq!(classify_packet(&cfg, true, &start, &[1, 2, 3]), PacketVerdict::Unparsable);
    assert_eq!(
        classify_packet(&cfg, true, &start, &discard_packet(8, 0xF123)),
        PacketVerdict::Discard
    );
    assert_eq!(classify_packet(&cfg, true, &start, &broken), PacketVerdict::CrcFailed);
    assert_eq!(classify_packet(&cfg, false, &start, &line2), PacketVerdict::Noise);
    assert_eq!(
        classify_packet(&cfg, true, &start, &line2),
        PacketVerdict::WrongLine { observed: 2 }
    );
    assert_eq!(classify_packet(&cfg, true, &start, &line0), PacketVerdict::Accepted);

    let mid = FrameCursor {
        expected_segment: 1,
        expected_packet_number: 1,
        packets_seen: 1,
    };
    // once a frame has begun, a wrong line is no noise, even while seeking
    assert_eq!(
        classify_packet(&cfg, false, &mid, &line2),
        PacketVerdict::WrongLine { observed: 2 }
    );

    let mut tall = cfg;
    tall.lines_per_segment = 30;
    let at20 = FrameCursor {
        expected_segment: 2,
        expected_packet_number: 20,
        packets_seen: 50,
    };
    tall.timeout_packets = 100;
    assert_eq!(
        classify_packet(&tall, true, &at20, &line_packet(8, 20, 0, 0)),
        PacketVerdict::BadSegment
    );
    assert_eq!(
        classify_packet(&tall, true, &at20, &line_packet(8, 20, 3, 0)),
        PacketVerdict::BadSegment
    );
    assert_eq!(
        classify_packet(&tall, true, &at20, &line_packet(8, 20, 1, 0)),
        PacketVerdict::WrongSegment { observed: 1 }
    );
    assert_eq!(
        classify_packet(&tall, true, &at20, &line_packet(8, 20, 2, 0)),
        PacketVerdict::Accepted
    );
}

#[test]
fn accepted_packet_is_stored_in_its_slot() {
    let cfg = small_config();
    let cursor = FrameCursor {
        expected_segment: 2,
        expected_packet_number: 1,
        packets_seen: 4,
    };
    let mut frame = vec![0u8; 24];
    let mut diag = FrameDiagnostics::default();
    let mut meta = FrameMeta::default();
    let packet = line_packet(8, 1, 2, 0xA0);
    let next = assemble_packet::<()>(&cfg, true, cursor, &packet, &mut frame, &mut diag, &mut meta)
        .unwrap();
    assert_eq!(next.expected_segment, 2);
    assert_eq!(next.expected_packet_number, 2);
    assert_eq!(next.packets_seen, 5);
    let mut expected = vec![0u8; 24];
    expected[16..20].copy_from_slice(&[0xA0, 0xA1, 0xA2, 0xA3]);
    assert_eq!(frame, expected);

    let last = FrameCursor {
        expected_segment: 2,
        expected_packet_number: 2,
        packets_seen: 5,
    };
    let packet = line_packet(8, 2, 2, 0xB0);
    let done = assemble_packet::<()>(&cfg, true, last, &packet, &mut frame, &mut diag, &mut meta)
        .unwrap();
    assert_eq!(done.expected_segment, 3);
    assert_eq!(done.expected_packet_number, 0);
    assert_eq!(&frame[20..24], &[0xB0, 0xB1, 0xB2, 0xB3]);
}

#[test]
fn recovery_plan_follows_the_ceilings() {
    let mut cfg = RobustCaptureConfig::default();
    cfg.max_resync_attempts = 2;
    cfg.max_frame_retries = 1;
    let flood: CaptureError<()> = CaptureError::DiscardPacketFlood;
    let crc: CaptureError<()> = CaptureError::CrcMismatch;
    let line: CaptureError<()> = CaptureError::LineOutOfOrder { expected: 1, observed: 2 };
    let segment: CaptureError<()> = CaptureError::SegmentOutOfOrder { expected: 1, observed: 2 };
    let timeout: CaptureError<()> = CaptureError::Timeout;

    assert_eq!(plan_recovery(&cfg, true, 0, &crc), Recovery::Surface);
    assert_eq!(plan_recovery(&cfg, true, 0, &line), Recovery::Surface);
    assert_eq!(plan_recovery(&cfg, true, 0, &segment), Recovery::Surface);
    assert_eq!(plan_recovery(&cfg, true, 0, &flood), Recovery::Retry);
    assert_eq!(plan_recovery(&cfg, false, 0, &timeout), Recovery::Retry);
    assert_eq!(plan_recovery(&cfg, false, 1, &timeout), Recovery::GiveUp);
    assert_eq!(plan_recovery(&cfg, false, 2, &timeout), Recovery::SyncLost);
    assert_eq!(plan_recovery(&cfg, false, u32::MAX, &timeout), Recovery::SyncLost);
    // while seeking a stream fault is treated like any other
    assert_eq!(plan_recovery(&cfg, false, 0, &crc), Recovery::Retry);
}

#[test]
fn staged_source_hands_out_its_packets_in_order() {
    let mut source = StagedPackets::new(vec![vec![1, 2, 3, 4], vec![5, 6], vec![7, 8, 9, 10]]);
    assert_eq!(source.remaining(), 3);
    let mut buffer = [0u8; 4];
    assert_eq!(source.read_packet(&mut buffer), Ok(()));
    assert_eq!(buffer, [1, 2, 3, 4]);
    // the next packet has two bytes: it stays staged
    assert_eq!(source.read_packet(&mut buffer), Err(StagedError::SizeMismatch));
    assert_eq!(buffer, [1, 2, 3, 4]);
    assert_eq!(source.remaining(), 2);
    let mut short = [0u8; 2];
    assert_eq!(source.hand_out(&mut short), Ok(()));
    assert_eq!(short, [5, 6]);
    assert_eq!(source.read_packet(&mut buffer), Ok(()));
    assert_eq!(buffer, [7, 8, 9, 10]);
    assert_eq!(source.remaining(), 0);
    assert_eq!(source.read_packet(&mut buffer), Err(StagedError::Exhausted));
}

#[test]
fn capture_from_a_staged_source() {
    let cfg = small_config();
    let packets = frame_packets(8, 2, 3);
    let expected: Vec<u8> = packets.iter().flat_map(|p| p[4..].iter().copied()).collect();
    let mut source = StagedPackets::new(packets);
    let mut synced = false;
    let mut state = SyncState::Unsynced;
    let mut diag = FrameDiagnostics::default();
    let frame =
        capture_frame_from_source(&mut source, &cfg, &mut synced, &mut state, &mut diag, || 11)
            .unwrap();
    assert_eq!(frame.pixels, expected);
    assert_eq!(frame.meta.capture_ticks, 11);
    assert_eq!(source.remaining(), 0);
    let err = capture_frame_from_source(&mut source, &cfg, &mut synced, &mut state, &mut diag, || 12)
        .unwrap_err();
    assert_eq!(err, CaptureError::Spi(StagedError::Exhausted));
}

#[test]
fn discard_packets_are_those_whose_id_starts_with_f() {
    assert!(is_discard_packet(&discard_packet(8, 0xF001)));
    assert!(is_discard_packet(&discard_packet(8, 0xFAAA)));
    assert!(is_discard_packet(&discard_packet(8, 0xF123)));
    assert!(is_discard_packet(&discard_packet(8, 0xF000)));
    assert!(!is_discard_packet(&discard_packet(8, 0x0AAA)));
    assert!(!is_discard_packet(&discard_packet(8, 0xEFFF)));
    assert!(!is_discard_packet(&discard_packet(8, 0x7FFF)));
    // no header, no discard
    assert!(!is_discard_packet(&[0xFF, 0xFF]));
}
