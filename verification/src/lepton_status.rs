//! Status codes that the camera returns for a CCI command.

use vstd::prelude::*;
use vstd::std_specs::convert::FromSpecImpl;

verus! {

/// The result of a command, as the camera reports it in the high byte of
/// its status register.
#[derive(Debug, Clone, Copy, PartialEq, Eq, Structural)]
pub enum LepStatus {
    OK,
    CommOK,
    Error,
    NotReady,
    RangeError,
    ChecksumError,
    BadArgPointerError,
    DataSizeError,
    UndefinedFunctionError,
    FunctionNotSupported,
    DataOutOfRangeError,
    CommandNotAllowed,
    // Access to the one-time programmable memory
    OTPWriteError,
    OTPReadError,
    OTPNotProgrammedError,
    // The camera's own I2C bus
    I2CBusNotReady,
    I2CBufferOverflow,
    I2CArbitrationLost,
    I2CBusError,
    I2CNackReceived,
    I2CFail,
    // Processing
    DivZeroError,
    // The host's communication port
    CommPortNotOpen,
    CommInvalidPortError,
    CommRangeError,
    ErrorCreatingComm,
    ErrorStartingComm,
    ErrorClosingComm,
    CommChecksumError,
    CommNoDev,
    TimeoutError,
    CommErrorWritingComm,
    CommErrorReadingComm,
    CommCountError,
    // Other
    OperationCanceled,
    UndefinedErrorCode,
}

impl LepStatus {
    /// The status that a code stands for. Codes that the camera does not
    /// define stand for `UndefinedErrorCode`.
    pub open spec fn of_code(value: i8) -> LepStatus {
        if value == 0 {
            LepStatus::OK
        } else if value == -1 {
            LepStatus::Error
        } else if value == -2 {
            LepStatus::NotReady
        } else if value == -3 {
            LepStatus::RangeError
        } else if value == -4 {
            LepStatus::ChecksumError
        } else if value == -5 {
            LepStatus::BadArgPointerError
        } else if value == -6 {
            LepStatus::DataSizeError
        } else if value == -7 {
            LepStatus::UndefinedFunctionError
        } else if value == -8 {
            LepStatus::FunctionNotSupported
        } else if value == -9 {
            LepStatus::DataOutOfRangeError
        } else if value == -11 {
            LepStatus::CommandNotAllowed
        } else if value == -15 {
            LepStatus::OTPWriteError
        } else if value == -16 {
            LepStatus::OTPReadError
        } else if value == -18 {
            LepStatus::OTPNotProgrammedError
        } else if value == -20 {
            LepStatus::I2CBusNotReady
        } else if value == -22 {
            LepStatus::I2CBufferOverflow
        } else if value == -23 {
            LepStatus::I2CArbitrationLost
        } else if value == -24 {
            LepStatus::I2CBusError
        } else if value == -25 {
            LepStatus::I2CNackReceived
        } else if value == -26 {
            LepStatus::I2CFail
        } else if value == -80 {
            LepStatus::DivZeroError
        } else if value == -101 {
            LepStatus::CommPortNotOpen
        } else if value == -102 {
            LepStatus::CommInvalidPortError
        } else if value == -103 {
            LepStatus::CommRangeError
        } else if value == -104 {
            LepStatus::ErrorCreatingComm
        } else if value == -105 {
            LepStatus::ErrorStartingComm
        } else if value == -106 {
            LepStatus::ErrorClosingComm
        } else if value == -107 {
            LepStatus::CommChecksumError
        } else if value == -108 {
            LepStatus::CommNoDev
        } else if value == -109 {
            LepStatus::TimeoutError
        } else if value == -110 {
            LepStatus::CommErrorWritingComm
        } else if value == -111 {
            LepStatus::CommErrorReadingComm
        } else if value == -112 {
            LepStatus::CommCountError
        } else if value == -126 {
            LepStatus::OperationCanceled
        } else {
            LepStatus::UndefinedErrorCode
        }
    }

    /// The code of a status. `CommOK` shares the code 0 with `OK`.
    pub open spec fn code_of(self) -> int {
        match self {
            LepStatus::OK => 0,
            LepStatus::CommOK => 0,
            LepStatus::Error => -1,
            LepStatus::NotReady => -2,
            LepStatus::RangeError => -3,
            LepStatus::ChecksumError => -4,
            LepStatus::BadArgPointerError => -5,
            LepStatus::DataSizeError => -6,
            LepStatus::UndefinedFunctionError => -7,
            LepStatus::FunctionNotSupported => -8,
            LepStatus::DataOutOfRangeError => -9,
            LepStatus::CommandNotAllowed => -11,
            LepStatus::OTPWriteError => -15,
            LepStatus::OTPReadError => -16,
            LepStatus::OTPNotProgrammedError => -18,
            LepStatus::I2CBusNotReady => -20,
            LepStatus::I2CBufferOverflow => -22,
            LepStatus::I2CArbitrationLost => -23,
            LepStatus::I2CBusError => -24,
            LepStatus::I2CNackReceived => -25,
            LepStatus::I2CFail => -26,
            LepStatus::DivZeroError => -80,
            LepStatus::CommPortNotOpen => -101,
            LepStatus::CommInvalidPortError => -102,
            LepStatus::CommRangeError => -103,
            LepStatus::ErrorCreatingComm => -104,
            LepStatus::ErrorStartingComm => -105,
            LepStatus::ErrorClosingComm => -106,
            LepStatus::CommChecksumError => -107,
            LepStatus::CommNoDev => -108,
            LepStatus::TimeoutError => -109,
            LepStatus::CommErrorWritingComm => -110,
            LepStatus::CommErrorReadingComm => -111,
            LepStatus::CommCountError => -112,
            LepStatus::OperationCanceled => -126,
            LepStatus::UndefinedErrorCode => -127,
        }
    }

    /// The status in words.
    pub open spec fn text_of(self) -> Seq<char> {
        match self {
            LepStatus::OK => "Ok"@,
            LepStatus::CommOK => "CommOk"@,
            LepStatus::Error => "Error"@,
            LepStatus::NotReady => "Not Ready"@,
            LepStatus::RangeError => "Range Error"@,
            LepStatus::ChecksumError => "Checksum Error"@,
            LepStatus::BadArgPointerError => "Bad Argument Pointer Error"@,
            LepStatus::DataSizeError => "Data Size Error"@,
            LepStatus::UndefinedFunctionError => "Undefined Function Error"@,
            LepStatus::FunctionNotSupported => "Function Not Supported"@,
            LepStatus::DataOutOfRangeError => "Data Out of Range"@,
            LepStatus::CommandNotAllowed => "Command Not Allowed"@,
            LepStatus::OTPWriteError => "OTP Write Error"@,
            LepStatus::OTPReadError => "OTP Read Error"@,
            LepStatus::OTPNotProgrammedError => "OTP Not Programmed Error"@,
            LepStatus::I2CBusNotReady => "I2C Bus Not Ready"@,
            LepStatus::I2CBufferOverflow => "I2C Buffer Overflow"@,
            LepStatus::I2CArbitrationLost => "I2C Arbitration Lost"@,
            LepStatus::I2CBusError => "I2C Bus Error"@,
            LepStatus::I2CNackReceived => "I2C Nack Received"@,
            LepStatus::I2CFail => "I2C Fail"@,
            LepStatus::DivZeroError => "Div Zero Error"@,
            LepStatus::CommPortNotOpen => "Comm Port Not Open"@,
            LepStatus::CommInvalidPortError => "Comm Invalid Port Error"@,
            LepStatus::CommRangeError => "Comm Range Error"@,
            LepStatus::ErrorCreatingComm => "Error Creating Comm"@,
            LepStatus::ErrorStartingComm => "Error Starting Comm"@,
            LepStatus::ErrorClosingComm => "Error Closing Commm"@,
            LepStatus::CommChecksumError => "Comm Checksum Error"@,
            LepStatus::CommNoDev => "Comm No Dev"@,
            LepStatus::TimeoutError => "Timeout Error"@,
            LepStatus::CommErrorWritingComm => "Comm Error Writing Comm"@,
            LepStatus::CommErrorReadingComm => "Comm Error Reading Comm"@,
            LepStatus::CommCountError => "Comm Count Error Reading Comm"@,
            LepStatus::OperationCanceled => "Operation Canceled"@,
            LepStatus::UndefinedErrorCode => "Undefined Error Code"@,
        }
    }

    /// The status in words, for a log or a report.
    pub fn message(&self) -> (text: &'static str)
        ensures
            text@ == self.text_of(),
    {
        match self {
            LepStatus::OK => "Ok",
            LepStatus::CommOK => "CommOk",
            LepStatus::Error => "Error",
            LepStatus::NotReady => "Not Ready",
            LepStatus::RangeError => "Range Error",
            LepStatus::ChecksumError => "Checksum Error",
            LepStatus::BadArgPointerError => "Bad Argument Pointer Error",
            LepStatus::DataSizeError => "Data Size Error",
            LepStatus::UndefinedFunctionError => "Undefined Function Error",
            LepStatus::FunctionNotSupported => "Function Not Supported",
            LepStatus::DataOutOfRangeError => "Data Out of Range",
            LepStatus::CommandNotAllowed => "Command Not Allowed",
            LepStatus::OTPWriteError => "OTP Write Error",
            LepStatus::OTPReadError => "OTP Read Error",
            LepStatus::OTPNotProgrammedError => "OTP Not Programmed Error",
            LepStatus::I2CBusNotReady => "I2C Bus Not Ready",
            LepStatus::I2CBufferOverflow => "I2C Buffer Overflow",
            LepStatus::I2CArbitrationLost => "I2C Arbitration Lost",
            LepStatus::I2CBusError => "I2C Bus Error",
            LepStatus::I2CNackReceived => "I2C Nack Received",
            LepStatus::I2CFail => "I2C Fail",
            LepStatus::DivZeroError => "Div Zero Error",
            LepStatus::CommPortNotOpen => "Comm Port Not Open",
            LepStatus::CommInvalidPortError => "Comm Invalid Port Error",
            LepStatus::CommRangeError => "Comm Range Error",
            LepStatus::ErrorCreatingComm => "Error Creating Comm",
            LepStatus::ErrorStartingComm => "Error Starting Comm",
            LepStatus::ErrorClosingComm => "Error Closing Commm",
            LepStatus::CommChecksumError => "Comm Checksum Error",
            LepStatus::CommNoDev => "Comm No Dev",
            LepStatus::TimeoutError => "Timeout Error",
            LepStatus::CommErrorWritingComm => "Comm Error Writing Comm",
            LepStatus::CommErrorReadingComm => "Comm Error Reading Comm",
            LepStatus::CommCountError => "Comm Count Error Reading Comm",
            LepStatus::OperationCanceled => "Operation Canceled",
            LepStatus::UndefinedErrorCode => "Undefined Error Code",
        }
    }

    /// The command succeeded.
    pub fn is_ok(&self) -> (ok: bool)
        ensures
            ok == (self.code_of() == 0),
    {
        match self {
            LepStatus::OK => true,
            LepStatus::CommOK => true,
            _ => false,
        }
    }
}

impl From<i8> for LepStatus {
    fn from(value: i8) -> (status: LepStatus) {
        if value == 0 {
            LepStatus::OK
        } else if value == -1 {
            LepStatus::Error
        } else if value == -2 {
            LepStatus::NotReady
        } else if value == -3 {
            LepStatus::RangeError
        } else if value == -4 {
            LepStatus::ChecksumError
        } else if value == -5 {
            LepStatus::BadArgPointerError
        } else if value == -6 {
            LepStatus::DataSizeError
        } else if value == -7 {
            LepStatus::UndefinedFunctionError
        } else if value == -8 {
            LepStatus::FunctionNotSupported
        } else if value == -9 {
            LepStatus::DataOutOfRangeError
        } else if value == -11 {
            LepStatus::CommandNotAllowed
        } else if value == -15 {
            LepStatus::OTPWriteError
        } else if value == -16 {
            LepStatus::OTPReadError
        } else if value == -18 {
            LepStatus::OTPNotProgrammedError
        } else if value == -20 {
            LepStatus::I2CBusNotReady
        } else if value == -22 {
            LepStatus::I2CBufferOverflow
        } else if value == -23 {
            LepStatus::I2CArbitrationLost
        } else if value == -24 {
            LepStatus::I2CBusError
        } else if value == -25 {
            LepStatus::I2CNackReceived
        } else if value == -26 {
            LepStatus::I2CFail
        } else if value == -80 {
            LepStatus::DivZeroError
        } else if value == -101 {
            LepStatus::CommPortNotOpen
        } else if value == -102 {
            LepStatus::CommInvalidPortError
        } else if value == -103 {
            LepStatus::CommRangeError
        } else if value == -104 {
            LepStatus::ErrorCreatingComm
        } else if value == -105 {
            LepStatus::ErrorStartingComm
        } else if value == -106 {
            LepStatus::ErrorClosingComm
        } else if value == -107 {
            LepStatus::CommChecksumError
        } else if value == -108 {
            LepStatus::CommNoDev
        } else if value == -109 {
            LepStatus::TimeoutError
        } else if value == -110 {
            LepStatus::CommErrorWritingComm
        } else if value == -111 {
            LepStatus::CommErrorReadingComm
        } else if value == -112 {
            LepStatus::CommCountError
        } else if value == -126 {
            LepStatus::OperationCanceled
        } else {
            LepStatus::UndefinedErrorCode
        }
    }
}

impl FromSpecImpl<i8> for LepStatus {
    open spec fn obeys_from_spec() -> bool {
        true
    }

    open spec fn from_spec(value: i8) -> LepStatus {
        LepStatus::of_code(value)
    }
}

impl From<LepStatus> for i8 {
    fn from(status: LepStatus) -> (code: i8) {
        match status {
            LepStatus::OK => 0,
            LepStatus::CommOK => 0,
            LepStatus::Error => -1,
            LepStatus::NotReady => -2,
            LepStatus::RangeError => -3,
            LepStatus::ChecksumError => -4,
            LepStatus::BadArgPointerError => -5,
            LepStatus::DataSizeError => -6,
            LepStatus::UndefinedFunctionError => -7,
            LepStatus::FunctionNotSupported => -8,
            LepStatus::DataOutOfRangeError => -9,
            LepStatus::CommandNotAllowed => -11,
            LepStatus::OTPWriteError => -15,
            LepStatus::OTPReadError => -16,
            LepStatus::OTPNotProgrammedError => -18,
            LepStatus::I2CBusNotReady => -20,
            LepStatus::I2CBufferOverflow => -22,
            LepStatus::I2CArbitrationLost => -23,
            LepStatus::I2CBusError => -24,
            LepStatus::I2CNackReceived => -25,
            LepStatus::I2CFail => -26,
            LepStatus::DivZeroError => -80,
            LepStatus::CommPortNotOpen => -101,
            LepStatus::CommInvalidPortError => -102,
            LepStatus::CommRangeError => -103,
            LepStatus::ErrorCreatingComm => -104,
            LepStatus::ErrorStartingComm => -105,
            LepStatus::ErrorClosingComm => -106,
            LepStatus::CommChecksumError => -107,
            LepStatus::CommNoDev => -108,
            LepStatus::TimeoutError => -109,
            LepStatus::CommErrorWritingComm => -110,
            LepStatus::CommErrorReadingComm => -111,
            LepStatus::CommCountError => -112,
            LepStatus::OperationCanceled => -126,
            LepStatus::UndefinedErrorCode => -127,
        }
    }
}

impl FromSpecImpl<LepStatus> for i8 {
    open spec fn obeys_from_spec() -> bool {
        true
    }

    open spec fn from_spec(status: LepStatus) -> i8 {
        status.code_of() as i8
    }
}

/// A status survives the way to its code and back, but for `CommOK`, which
/// comes back as `OK`.
pub proof fn lemma_status_round_trip(status: LepStatus)
    ensures
        LepStatus::of_code(status.code_of() as i8) == if status == LepStatus::CommOK {
            LepStatus::OK
        } else {
            status
        },
{
}

/// A code that the camera defines survives the way to its status and back;
/// every other code comes back as -127.
pub proof fn lemma_code_round_trip(value: i8)
    ensures
        LepStatus::of_code(value).code_of() == value || LepStatus::of_code(value).code_of() == -127,
        LepStatus::of_code(value) != LepStatus::UndefinedErrorCode ==> LepStatus::of_code(
            value,
        ).code_of() == value,
{
}

} // verus!
