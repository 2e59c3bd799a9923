use lepton::camera_check::{
    CameraCheck, CameraCheckTestResult, CheckAction, CheckDetails, CheckPattern, CheckStage,
};
use lepton::crc::lepton_packet_crc16_spec;
use lepton::lepton::{Lepton, LeptonError, FRAME_BYTES, FRAME_PACKETS, PACKET_SIZE_BYTES};
use lepton::lepton_cci::{CciError, CciReply};
use lepton::lepton_status::LepStatus;
use lepton::pattern::Finding;
use lepton::vospi::{CaptureError, PacketSource, RobustCaptureConfig};

struct Staged {
    packets: Vec<Vec<u8>>,
    next: usize,
}

impl PacketSource for Staged {
    type Error = &'static str;

    fn read_packet(&mut self, packet: &mut [u8]) -> Result<(), Self::Error> {
        if self.next >= self.packets.len() {
            return Err("no more packets");
        }
        packet.copy_from_slice(&self.packets[self.next]);
        self.next += 1;
        Ok(())
    }
}

fn well_formed_frame(value: impl Fn(usize, usize) -> u16) -> Vec<Vec<u8>> {
    let mut packets = Vec::new();
    for segment in 1..=4u16 {
        for line in 0..60u16 {
            let mut packet = vec![0u8; 164];
            let id = if line == 20 { (segment << 12) | line } else { line };
            packet[0..2].copy_from_slice(&id.to_be_bytes());
            let row = ((segment - 1) * 60 + line) as usize;
            for col in 0..80 {
                packet[4 + 2 * col..6 + 2 * col].copy_from_slice(&value(row, col).to_be_bytes());
            }
            let crc = lepton_packet_crc16_spec(&packet).unwrap();
            packet[2..4].copy_from_slice(&crc.to_be_bytes());
            packets.push(packet);
        }
    }
    packets
}

#[test]
fn new_driver_is_unsynced_with_the_default_configuration() {
    let mut lepton = Lepton::new();
    let cfg = lepton.robust_config();
    assert_eq!(cfg.packet_size_bytes, 164);
    assert_eq!(cfg.segments_per_frame, 4);
    assert_eq!(lepton.diagnostics().resync_count, 0);
    assert_eq!(lepton.get_frame().len(), FRAME_BYTES);
    assert_eq!(FRAME_BYTES, FRAME_PACKETS * PACKET_SIZE_BYTES);
    assert!(lepton.get_frame().iter().all(|&b| b == 0));
    assert_eq!(lepton.cci_address(), 0x2a);
    let mut other = cfg;
    other.max_frame_retries = 9;
    lepton.set_robust_config(other);
    assert_eq!(lepton.robust_config().max_frame_retries, 9);
}

#[test]
fn set_frame_takes_a_whole_frame_and_nothing_else() {
    let mut lepton = Lepton::new();
    assert_eq!(
        lepton.set_frame(&[1, 2, 3]),
        Err("Data length does not match frame buffer size")
    );
    assert!(lepton.get_frame().iter().all(|&b| b == 0));
    let data: Vec<u8> = (0..FRAME_BYTES).map(|i| (i % 251) as u8).collect();
    assert_eq!(lepton.set_frame(&data), Ok(()));
    assert_eq!(&lepton.get_frame()[..], &data[..]);
    assert!(lepton.set_frame(&vec![0u8; FRAME_BYTES + 1]).is_err());
    assert_eq!(&lepton.get_frame()[..], &data[..]);
}

#[test]
fn legacy_frame_is_first_packet_then_the_rest() {
    let first: Vec<u8> = (0..PACKET_SIZE_BYTES).map(|i| i as u8).collect();
    let rest: Vec<u8> = (0..FRAME_BYTES - PACKET_SIZE_BYTES).map(|i| (i % 7) as u8).collect();
    let frame = Lepton::read_frame(&first, &rest);
    assert_eq!(frame.len(), FRAME_BYTES);
    assert_eq!(&frame[..PACKET_SIZE_BYTES], &first[..]);
    assert_eq!(&frame[PACKET_SIZE_BYTES..], &rest[..]);
    assert!(Lepton::is_frame_start(&[0, 0, 9, 9]));
    assert!(!Lepton::is_frame_start(&[0, 1, 9, 9]));
    assert!(!Lepton::is_frame_start(&[0x0F, 0, 9, 9]));
    assert!(!Lepton::is_frame_start(&[0]));
}

#[test]
fn driver_captures_and_remembers_that_it_is_synced() {
    let mut lepton = Lepton::new();
    let mut packets = well_formed_frame(|row, col| (row + col) as u16);
    // second frame: line 5 comes where line 0 is due
    let mut second = well_formed_frame(|_, _| 1);
    second.swap(0, 5);
    packets.extend(second);
    let mut source = Staged { packets, next: 0 };

    let frame = lepton.read_frame_robust::<(), _>(&mut source).unwrap();
    assert!(frame.meta.valid);
    assert_eq!(frame.meta.capture_ticks, 0);
    assert_eq!(frame.pixels.len(), 38400);
    assert_eq!(&frame.pixels[0..4], &[0, 0, 0, 1]);

    // now locked: the wrong line is a fault, not noise
    let err = lepton.read_frame_with_meta::<(), _>(&mut source).unwrap_err();
    assert!(matches!(err, LeptonError::LineOutOfOrder));
    assert_eq!(lepton.diagnostics().bad_line_count, 1);
    assert_eq!(lepton.diagnostics().resync_count, 1);
}

#[test]
fn driver_stamps_the_tick_of_the_clock() {
    let mut lepton = Lepton::new();
    let mut source = Staged { packets: well_formed_frame(|_, _| 3), next: 0 };
    let mut out = vec![0u8; 38400];
    let meta = lepton
        .read_frame_robust_into_with_ticks::<(), _, _>(&mut source, &mut out, || 4242)
        .unwrap();
    assert_eq!(meta.capture_ticks, 4242);
    assert_eq!(&out[0..2], &[0, 3]);

    let mut again = Staged { packets: well_formed_frame(|_, _| 3), next: 0 };
    let meta = lepton.read_frame_robust_into::<(), _>(&mut again, &mut out).unwrap();
    assert_eq!(meta.capture_ticks, 0);

    let mut short = vec![0u8; 38399];
    let err = lepton
        .read_frame_robust_into::<(), _>(&mut again, &mut short)
        .unwrap_err();
    assert!(matches!(err, LeptonError::InvalidPacket));
}

#[test]
fn transport_errors_keep_what_the_bus_said() {
    let mut lepton = Lepton::new();
    let mut source = Staged { packets: vec![], next: 0 };
    let err = lepton.read_frame_robust::<(), _>(&mut source).unwrap_err();
    assert!(matches!(err, LeptonError::Spi("no more packets")));
}

#[test]
fn errors_are_mapped_kind_by_kind() {
    type E = LeptonError<u8, u16>;
    assert!(matches!(E::from_capture(CaptureError::Spi(9)), LeptonError::Spi(9)));
    assert!(matches!(E::from_capture(CaptureError::InvalidPacket), LeptonError::InvalidPacket));
    assert!(matches!(E::from_capture(CaptureError::SyncLost), LeptonError::SyncLost));
    assert!(matches!(
        E::from_capture(CaptureError::DiscardPacketFlood),
        LeptonError::DiscardPacketFlood
    ));
    assert!(matches!(E::from_capture(CaptureError::CrcMismatch), LeptonError::CrcMismatch));
    assert!(matches!(
        E::from_capture(CaptureError::SegmentOutOfOrder { expected: 1, observed: 2 }),
        LeptonError::SegmentOutOfOrder
    ));
    assert!(matches!(
        E::from_capture(CaptureError::LineOutOfOrder { expected: 1, observed: 2 }),
        LeptonError::LineOutOfOrder
    ));
    assert!(matches!(E::from_capture(CaptureError::Timeout), LeptonError::Timeout));
    assert!(matches!(
        E::from_capture(CaptureError::RetryLimitExceeded),
        LeptonError::RetryLimitExceeded
    ));
    assert!(matches!(
        Lepton::map_cci_error::<u8, u16>(CciError::I2c(4)),
        LeptonError::I2c(4)
    ));
    assert!(matches!(
        Lepton::map_cci_error::<u8, u16>(CciError::Timeout),
        LeptonError::Timeout
    ));
    assert_eq!(E::CrcMismatch.message(), "CRC mismatch");
    assert_eq!(E::Spi(1).message(), "SPI Error");
    assert_eq!(E::Timeout.message(), "Capture timeout");
}

#[test]
fn status_word_through_the_driver() {
    let lepton = Lepton::new();
    assert!(lepton.get_boot_status(0x0004));
    assert!(!lepton.get_boot_status(0x0003));
    assert!(lepton.get_interface_status(0x0004));
    assert!(!lepton.get_interface_status(0x0005));
}

#[test]
fn check_geometry_follows_the_configuration() {
    let mut lepton = Lepton::new();
    assert_eq!(lepton.check_geometry(), (80, 240));
    let mut cfg = RobustCaptureConfig::default();
    cfg.packet_size_bytes = 3;
    cfg.lines_per_segment = 7;
    cfg.segments_per_frame = 3;
    lepton.set_robust_config(cfg);
    assert_eq!(lepton.check_geometry(), (0, 21));
}

fn ok_reply(data: u16) -> Option<CciReply> {
    Some(CciReply { data, status: LepStatus::OK })
}

fn expect_command(check: &CameraCheck, id: u16, value: u16) {
    match check.pending() {
        CheckAction::Command(x) => {
            assert_eq!(x.command.raw_command_id(), id);
            assert_eq!(x.value, value);
        }
        other => panic!("expected a command, got {:?}", other),
    }
}

#[test]
fn self_check_runs_five_tests_and_restores_the_camera() {
    let lepton = Lepton::new();
    let mut check = lepton.check_camera();
    let mut results: Vec<CameraCheckTestResult> = Vec::new();

    expect_command(&check, 0x482C, 0);
    assert!(check.command_done(ok_reply(0)).is_none());
    expect_command(&check, 0x483C, 0);
    assert!(check.command_done(ok_reply(0x0777)).is_none());

    let constant = vec![0x12u8, 0x34].repeat(80 * 240);
    let ramp: Vec<u8> = (0..240usize)
        .flat_map(|row| (0..80usize).flat_map(move |col| ((row + col) as u16).to_be_bytes()))
        .collect();
    let patterns: [(Option<u16>, u16, &Vec<u8>); 5] = [
        (Some(0x1234), 3, &constant),
        (Some(0x2AAA), 3, &constant),
        (None, 4, &ramp),
        (None, 5, &ramp),
        (None, 2, &ramp),
    ];
    for (value, source, pixels) in patterns {
        if let Some(value) = value {
            expect_command(&check, 0x483D, value);
            assert!(check.command_done(ok_reply(0)).is_none());
        }
        expect_command(&check, 0x482D, source);
        assert!(check.command_done(ok_reply(0)).is_none());
        expect_command(&check, 0x482C, 0);
        assert!(check.command_done(ok_reply(source)).is_none());
        for _ in 0..2 {
            assert_eq!(check.pending(), CheckAction::Capture);
            assert!(check.capture_done(None, 80, 240).is_none());
        }
        assert_eq!(check.pending(), CheckAction::Capture);
        let result = lepton.run_camera_check_test(&check, Some(pixels.as_slice()));
        assert_eq!(check.capture_done(Some(pixels.as_slice()), 80, 240), Some(result));
        results.push(result);
    }
    expect_command(&check, 0x483D, 0x0777);
    assert!(check.command_done(ok_reply(0)).is_none());
    expect_command(&check, 0x482D, 0);
    assert!(check.command_done(ok_reply(0)).is_none());
    assert_eq!(check.pending(), CheckAction::Finished { restored: true });
    assert_eq!(check.stage, CheckStage::Done);

    assert_eq!(results.len(), 5);
    assert!(results.iter().all(|r| r.ok));
    let names: Vec<&str> = results.iter().map(|r| r.name.name()).collect();
    assert_eq!(names, ["constant_0x1234", "constant_0x2AAA", "ramp_h", "ramp_v", "ramp"]);
    assert_eq!(results[0].readback_source, Some(3));
    assert_eq!(results[4].readback_source, Some(2));
    match results[0].details {
        CheckDetails::Pattern { report, swapped_passes } => {
            assert_eq!(
                report.finding,
                Finding::ConstantSpread { spread: 0, min: 0x1234, max: 0x1234 }
            );
            assert!(!swapped_passes);
        }
        other => panic!("unexpected details {:?}", other),
    }
}

#[test]
fn self_check_reports_each_way_a_test_can_fail() {
    let mut check = CameraCheck::begin();
    // neither original value could be read
    assert!(check.command_done(None).is_none());
    assert!(check.command_done(None).is_none());

    // test 0: the constant cannot be set
    let r = check.command_done(None).unwrap();
    assert_eq!(r.name, CheckPattern::Constant1234);
    assert_eq!(r.details, CheckDetails::SetConstantFailed);
    assert!(!r.ok);
    assert_eq!(r.readback_source, None);

    // test 1: the source cannot be set
    assert!(check.command_done(ok_reply(0)).is_none());
    let r = check.command_done(None).unwrap();
    assert_eq!(r.name, CheckPattern::Constant2AAA);
    assert_eq!(r.details, CheckDetails::SetSourceFailed);

    // test 2: the readback fails
    assert!(check.command_done(ok_reply(0)).is_none());
    let r = check.command_done(None).unwrap();
    assert_eq!(r.name, CheckPattern::RampH);
    assert_eq!(r.details, CheckDetails::ReadbackFailed);

    // test 3: the camera reports another source
    assert!(check.command_done(ok_reply(0)).is_none());
    let r = check.command_done(ok_reply(1)).unwrap();
    assert_eq!(r.name, CheckPattern::RampV);
    assert_eq!(r.details, CheckDetails::SourceNotSet);
    assert_eq!(r.readback_source, Some(1));

    // test 4: the capture fails
    assert!(check.command_done(ok_reply(0)).is_none());
    assert!(check.command_done(ok_reply(2)).is_none());
    assert!(check.capture_done(None, 80, 240).is_none());
    assert!(check.capture_done(None, 80, 240).is_none());
    let r = check.capture_done(None, 80, 240).unwrap();
    assert_eq!(r.name, CheckPattern::Ramp);
    assert_eq!(r.details, CheckDetails::CaptureFailed);
    assert_eq!(r.readback_source, Some(2));

    // nothing to restore, so the camera does not count as restored
    assert_eq!(check.pending(), CheckAction::Finished { restored: false });
}

#[test]
fn self_check_notes_a_frame_that_passes_with_swapped_bytes() {
    let mut check = CameraCheck::begin();
    assert!(check.command_done(ok_reply(0)).is_none());
    assert!(check.command_done(ok_reply(0)).is_none());
    // skip the two constant tests
    assert!(check.command_done(None).is_some());
    assert!(check.command_done(None).is_some());
    assert_eq!(check.test, 2);
    assert!(check.command_done(ok_reply(0)).is_none());
    assert!(check.command_done(ok_reply(4)).is_none());
    assert!(check.capture_done(None, 4, 4).is_none());
    assert!(check.capture_done(None, 4, 4).is_none());
    let mut frame = Vec::new();
    for _row in 0..4 {
        for col in 0..4u16 {
            frame.extend_from_slice(&[(3 - col) as u8, col as u8]);
        }
    }
    let r = check.capture_done(Some(frame.as_slice()), 4, 4).unwrap();
    assert!(!r.ok);
    match r.details {
        CheckDetails::Pattern { report, swapped_passes } => {
            assert!(!report.ok);
            assert!(swapped_passes);
        }
        other => panic!("unexpected details {:?}", other),
    }
}

#[test]
fn self_check_notes_a_restore_that_fails() {
    let mut check = CameraCheck::begin();
    assert!(check.command_done(ok_reply(1)).is_none());
    assert!(check.command_done(ok_reply(2)).is_none());
    for _ in 0..2 {
        assert!(check.command_done(None).is_some());
    }
    for _ in 0..3 {
        assert!(check.command_done(None).is_some());
    }
    assert_eq!(check.stage, CheckStage::RestoreConstant);
    assert!(check.command_done(None).is_none());
    assert_eq!(check.stage, CheckStage::RestoreSource);
    assert!(check.command_done(ok_reply(0)).is_none());
    assert_eq!(check.pending(), CheckAction::Finished { restored: false });
}

#[test]
fn locked_helper_runs_the_closure_on_the_driver() {
    let mut lepton = Lepton::new();
    let mut source = Staged { packets: well_formed_frame(|_, _| 5), next: 0 };
    let res: Result<usize, LeptonError<(), &'static str>> =
        lepton.read_frame_robust_locked(|driver| {
            let frame = driver.read_frame_robust(&mut source)?;
            Ok(frame.pixels.len())
        });
    assert_eq!(res.unwrap(), 38400);
    let failed: Result<(), u8> = lepton.read_frame_robust_locked(|_| Err(3));
    assert_eq!(failed, Err(3));
}
