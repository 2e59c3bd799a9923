use lepton::lepton_status::LepStatus;
use lepton::oem::VideoOutputSource;

#[test]
fn status_codes_map_to_their_statuses() {
    assert_eq!(LepStatus::from(0), LepStatus::OK);
    assert_eq!(LepStatus::from(-1), LepStatus::Error);
    assert_eq!(LepStatus::from(-9), LepStatus::DataOutOfRangeError);
    assert_eq!(LepStatus::from(-11), LepStatus::CommandNotAllowed);
    assert_eq!(LepStatus::from(-18), LepStatus::OTPNotProgrammedError);
    assert_eq!(LepStatus::from(-26), LepStatus::I2CFail);
    assert_eq!(LepStatus::from(-80), LepStatus::DivZeroError);
    assert_eq!(LepStatus::from(-112), LepStatus::CommCountError);
    assert_eq!(LepStatus::from(-126), LepStatus::OperationCanceled);
    assert_eq!(LepStatus::from(-127), LepStatus::UndefinedErrorCode);
}

#[test]
fn undefined_codes_are_undefined_errors() {
    for code in [1i8, 5, 127, -10, -12, -19, -21, -50, -100, -113, -128] {
        assert_eq!(LepStatus::from(code), LepStatus::UndefinedErrorCode);
    }
}

#[test]
fn statuses_map_back_to_their_codes() {
    assert_eq!(i8::from(LepStatus::OK), 0);
    assert_eq!(i8::from(LepStatus::CommOK), 0);
    assert_eq!(i8::from(LepStatus::Error), -1);
    assert_eq!(i8::from(LepStatus::I2CBusNotReady), -20);
    assert_eq!(i8::from(LepStatus::TimeoutError), -109);
    assert_eq!(i8::from(LepStatus::UndefinedErrorCode), -127);
    let code: i8 = LepStatus::NotReady.into();
    assert_eq!(code, -2);
}

#[test]
fn every_defined_code_survives_the_round_trip() {
    for code in i8::MIN..=i8::MAX {
        let status = LepStatus::from(code);
        let back = i8::from(status);
        if status == LepStatus::UndefinedErrorCode {
            assert_eq!(back, -127);
        } else {
            assert_eq!(back, code);
        }
    }
}

#[test]
fn status_messages() {
    assert_eq!(LepStatus::OK.message(), "Ok");
    assert_eq!(LepStatus::CommOK.message(), "CommOk");
    assert_eq!(LepStatus::NotReady.message(), "Not Ready");
    assert_eq!(LepStatus::DataOutOfRangeError.message(), "Data Out of Range");
    assert_eq!(LepStatus::ErrorClosingComm.message(), "Error Closing Commm");
    assert_eq!(LepStatus::CommCountError.message(), "Comm Count Error Reading Comm");
    assert_eq!(LepStatus::UndefinedErrorCode.message(), "Undefined Error Code");
    assert!(LepStatus::OK.is_ok());
    assert!(LepStatus::CommOK.is_ok());
    assert!(!LepStatus::Error.is_ok());
}

#[test]
fn video_output_source_codes() {
    assert_eq!(VideoOutputSource::Raw.code(), 0);
    assert_eq!(VideoOutputSource::Cooked.code(), 1);
    assert_eq!(VideoOutputSource::Ramp.code(), 2);
    assert_eq!(VideoOutputSource::Constant.code(), 3);
    assert_eq!(VideoOutputSource::RampH.code(), 4);
    assert_eq!(VideoOutputSource::RampV.code(), 5);
    for code in 0..6u16 {
        assert_eq!(VideoOutputSource::from_code(code).unwrap().code(), code);
    }
    assert_eq!(VideoOutputSource::from_code(6), None);
    assert_eq!(VideoOutputSource::from_code(u16::MAX), None);
}
