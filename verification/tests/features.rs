use pcan_basic::df::{acceptance_filter_11bit_buffer, acceptance_filter_29bit_buffer,
    filter_state_from_output};
use pcan_basic::error::PcanError;
use pcan_basic::hw::{channel_condition_from_output, ChannelConditionStatus};
use pcan_basic::info::channel_version_from_output;
use pcan_basic::io::{
    pin_mode_from_output, pin_value_from_output, updated_mode_word, updated_value_word, IOConfig,
    IOValue,
};
use pcan_basic::log::{log_configuration_from_output, LogFunction};
use pcan_basic::trace::{trace_configuration_from_output, trace_size_from_output, TraceFile};

const OK: u32 = 0;
const BUSOFF: u32 = 0x10;

#[test]
fn channel_conditions_have_their_documented_codes() {
    assert_eq!(ChannelConditionStatus::Unavailable.code(), 0);
    assert_eq!(ChannelConditionStatus::Available.code(), 1);
    assert_eq!(ChannelConditionStatus::Occupied.code(), 2);
    assert_eq!(ChannelConditionStatus::PcanView.code(), 3);
    for c in [
        ChannelConditionStatus::Unavailable,
        ChannelConditionStatus::Available,
        ChannelConditionStatus::Occupied,
        ChannelConditionStatus::PcanView,
    ] {
        assert_eq!(ChannelConditionStatus::try_from(c.code()), Ok(c));
    }
    assert_eq!(ChannelConditionStatus::try_from(4), Err(()));
}

#[test]
fn channel_conditions_decode_from_call_outputs() {
    assert_eq!(
        channel_condition_from_output(OK, &[1, 0, 0, 0]),
        Ok(ChannelConditionStatus::Available)
    );
    assert_eq!(channel_condition_from_output(OK, &[9, 0, 0, 0]), Err(PcanError::Unknown));
    assert_eq!(channel_condition_from_output(BUSOFF, &[1, 0, 0, 0]), Err(PcanError::BusOff));
}

#[test]
fn filter_states_compare_the_filter_word() {
    // Filter word values: closed is zero, open is one.
    assert_eq!(filter_state_from_output(OK, &[1, 0, 0, 0], 1), Ok(true));
    assert_eq!(filter_state_from_output(OK, &[1, 0, 0, 0], 0), Ok(false));
    assert_eq!(filter_state_from_output(BUSOFF, &[1, 0, 0, 0], 1), Err(PcanError::BusOff));
}

#[test]
fn acceptance_filter_11bit_folds_the_identifiers() {
    // 0x123 and 0x456 clipped to eleven bits: code = and = 0x002,
    // mask = exclusive or = 0x575.
    let buffer = acceptance_filter_11bit_buffer(&[0x123, 0x456]);
    assert_eq!(&buffer[0..4], &[0x75, 0x05, 0, 0]);
    assert_eq!(&buffer[4..8], &[0x02, 0x00, 0, 0]);
}

#[test]
fn acceptance_filter_11bit_of_nothing_accepts_everything() {
    let buffer = acceptance_filter_11bit_buffer(&[]);
    assert_eq!(&buffer[0..4], &[0, 0, 0, 0]);
    assert_eq!(&buffer[4..8], &[0xFF, 0xFF, 0xFF, 0xFF]);
}

#[test]
fn acceptance_filter_29bit_folds_the_identifiers() {
    // 0x1234_5678 and 0xFFFF_FFFF clipped to twenty-nine bits:
    // code = 0x1234_5678, mask = 0x0DCB_A987.
    let buffer = acceptance_filter_29bit_buffer(&[0x1234_5678, 0xFFFF_FFFF]);
    assert_eq!(&buffer[0..4], &[0x87, 0xA9, 0xCB, 0x0D]);
    assert_eq!(&buffer[4..8], &[0x78, 0x56, 0x34, 0x12]);
}

#[test]
fn channel_versions_need_three_lines() {
    let mut buffer = [0u8; 64];
    let text = b"PCAN-USB 4.4\n2024\nCompany, City";
    buffer[..text.len()].copy_from_slice(text);
    let v = channel_version_from_output(OK, &buffer).unwrap();
    assert_eq!(v.device_driver_name_and_version, "PCAN-USB 4.4");
    assert_eq!(v.year_of_copyright, "2024");
    assert_eq!(v.company_name_and_city, "Company, City");

    let mut two = [0u8; 16];
    two[..4].copy_from_slice(b"a\nbc");
    assert_eq!(channel_version_from_output(OK, &two), Err(PcanError::Unknown));
    assert_eq!(channel_version_from_output(BUSOFF, &buffer), Err(PcanError::BusOff));
}

#[test]
fn io_configurations_have_their_documented_codes() {
    assert_eq!(IOConfig::In.code(), 0);
    assert_eq!(IOConfig::InOut.code(), 1);
    assert_eq!(IOConfig::try_from(0), Ok(IOConfig::In));
    assert_eq!(IOConfig::try_from(1), Ok(IOConfig::InOut));
    assert_eq!(IOConfig::try_from(2), Err(()));
    assert_eq!(IOValue::Low.code(), 0);
    assert_eq!(IOValue::High.code(), 1);
    assert_eq!(IOValue::try_from(0), Ok(IOValue::Low));
    assert_eq!(IOValue::try_from(1), Ok(IOValue::High));
    assert_eq!(IOValue::try_from(2), Err(()));
}

#[test]
fn pin_reads_test_the_pin_bit() {
    // The word 0b110 has pins one and two set.
    assert_eq!(pin_mode_from_output(OK, &[0b110, 0, 0, 0], 0), Ok(IOConfig::In));
    assert_eq!(pin_mode_from_output(OK, &[0b110, 0, 0, 0], 1), Ok(IOConfig::InOut));
    assert_eq!(pin_mode_from_output(BUSOFF, &[0, 0, 0, 0], 0), Err(PcanError::BusOff));
    assert_eq!(pin_value_from_output(OK, &[0b110, 0, 0, 0], 2), Ok(IOValue::High));
    assert_eq!(pin_value_from_output(OK, &[0b110, 0, 0, 0], 3), Ok(IOValue::Low));
}

#[test]
fn pin_writes_change_only_their_pin() {
    assert_eq!(updated_mode_word(0, 3, IOConfig::InOut), 0b1000);
    assert_eq!(updated_mode_word(0b1000, 3, IOConfig::In), 0);
    assert_eq!(updated_mode_word(0b1010, 1, IOConfig::In), 0b1000);
    assert_eq!(updated_mode_word(0b1010, 2, IOConfig::InOut), 0b1110);
    assert_eq!(updated_value_word(0, 0, IOValue::High), 1);
    assert_eq!(updated_value_word(0b1, 0, IOValue::Low), 0);
    assert_eq!(updated_value_word(0b101, 2, IOValue::Low), 0b001);
}

#[test]
fn log_functions_have_their_documented_codes() {
    let all = [
        (LogFunction::Default, 0x00),
        (LogFunction::Entry, 0x01),
        (LogFunction::Parameters, 0x02),
        (LogFunction::Leave, 0x04),
        (LogFunction::Write, 0x08),
        (LogFunction::Read, 0x10),
    ];
    for (f, code) in all {
        assert_eq!(f.code(), code);
        assert_eq!(LogFunction::try_from(code), Ok(f));
    }
    assert_eq!(LogFunction::try_from(0x20), Err(()));
}

#[test]
fn log_configurations_decode_from_call_outputs() {
    assert_eq!(log_configuration_from_output(OK, &[0x04, 0, 0, 0]), Ok(LogFunction::Leave));
    assert_eq!(log_configuration_from_output(OK, &[0x20, 0, 0, 0]), Err(PcanError::Unknown));
    assert_eq!(log_configuration_from_output(BUSOFF, &[0, 0, 0, 0]), Err(PcanError::BusOff));
}

#[test]
fn trace_files_have_their_documented_codes() {
    let all = [
        (TraceFile::Single, 0x00),
        (TraceFile::Segmented, 0x01),
        (TraceFile::Date, 0x02),
        (TraceFile::Time, 0x04),
        (TraceFile::Overwrite, 0x80),
    ];
    for (t, code) in all {
        assert_eq!(t.code(), code);
        assert_eq!(TraceFile::try_from(code), Ok(t));
    }
    assert_eq!(TraceFile::try_from(0x03), Err(()));
}

#[test]
fn trace_parameters_decode_from_call_outputs() {
    assert_eq!(trace_size_from_output(OK, &[25, 0, 0, 0]), Ok(25));
    assert_eq!(trace_size_from_output(BUSOFF, &[25, 0, 0, 0]), Err(PcanError::BusOff));
    assert_eq!(trace_configuration_from_output(OK, &[0x80, 0, 0, 0]), Ok(TraceFile::Overwrite));
    assert_eq!(trace_configuration_from_output(OK, &[0x03, 0, 0, 0]), Err(PcanError::Unknown));
}
