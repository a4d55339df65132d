use pcan_basic::error::{PcanError, PcanOkError};

const ALL_ERRORS: [(PcanError, u32); 26] = [
    (PcanError::XmtFull, 0x00001),
    (PcanError::Overrun, 0x00002),
    (PcanError::BusLight, 0x00004),
    (PcanError::BusHeavy, 0x00008),
    (PcanError::BusPassive, 0x40000),
    (PcanError::BusOff, 0x00010),
    (PcanError::AnyBusErr, 0x4001C),
    (PcanError::QrcvEmpty, 0x00020),
    (PcanError::QOverrun, 0x00040),
    (PcanError::QxmtFull, 0x00080),
    (PcanError::RegTest, 0x00100),
    (PcanError::NoDriver, 0x00200),
    (PcanError::HwInUse, 0x00400),
    (PcanError::NetInUse, 0x00800),
    (PcanError::IllHw, 0x01400),
    (PcanError::IllNet, 0x01800),
    (PcanError::IllClient, 0x01C00),
    (PcanError::Resource, 0x02000),
    (PcanError::IllParamType, 0x04000),
    (PcanError::IllParamVal, 0x08000),
    (PcanError::Unknown, 0x10000),
    (PcanError::IllData, 0x20000),
    (PcanError::IllMode, 0x80000),
    (PcanError::Caution, 0x2000000),
    (PcanError::Initialize, 0x4000000),
    (PcanError::IllOperation, 0x8000000),
];

#[test]
fn every_error_has_its_documented_code() {
    for (error, code) in ALL_ERRORS {
        assert_eq!(error.code(), code);
    }
}

#[test]
fn every_error_code_round_trips() {
    for (error, code) in ALL_ERRORS {
        assert_eq!(PcanError::try_from(code), Ok(error));
    }
}

#[test]
fn undocumented_codes_are_rejected() {
    assert_eq!(PcanError::try_from(0), Err(()));
    assert_eq!(PcanError::try_from(3), Err(()));
    assert_eq!(PcanError::try_from(0x12345), Err(()));
    assert_eq!(PcanError::try_from(u32::MAX), Err(()));
}

#[test]
fn the_success_code_is_zero() {
    assert_eq!(PcanOkError::Success.code(), 0);
    assert_eq!(PcanOkError::try_from(0), Ok(PcanOkError::Success));
}

#[test]
fn ok_error_wraps_every_error() {
    for (error, code) in ALL_ERRORS {
        assert_eq!(PcanOkError::try_from(code), Ok(PcanOkError::Error(error)));
        assert_eq!(PcanOkError::Error(error).code(), code);
    }
    assert_eq!(PcanOkError::try_from(3), Err(()));
}
