use pcan_basic::socket::{CanFdFrame, CanFrame, FrameConstructionError, MessageType, Timestamp};

#[test]
fn can_frame_new_001() {
    let can_frame_1 = CanFrame::new(0x20, MessageType::Standard, &[0, 1, 2, 3, 4, 5, 6, 7]).unwrap();

    let can_frame_2 = CanFrame::new(0x20, MessageType::Standard, &[0, 1, 2, 3, 4, 5, 6, 7]).unwrap();

    assert_eq!(can_frame_1, can_frame_2);
}

#[test]
fn can_frame_new_002() {
    let can_frame_1 = CanFrame::new(0x20, MessageType::Extended, &[0, 1, 2, 3, 4, 5, 6, 7]).unwrap();

    let can_frame_2 = CanFrame::new(0x20, MessageType::Extended, &[0, 1, 2, 3, 4, 5, 6, 7]).unwrap();

    assert_eq!(can_frame_1, can_frame_2);
}

#[test]
#[should_panic]
fn can_frame_new_003() {
    let _can_frame_1 =
        CanFrame::new(0x20, MessageType::Standard, &[0, 1, 2, 3, 4, 5, 6, 7, 8]).unwrap();
}

#[test]
#[should_panic]
fn can_frame_new_004() {
    let _can_frame_1 =
        CanFrame::new(0x20, MessageType::Extended, &[0, 1, 2, 3, 4, 5, 6, 7, 8]).unwrap();
}

#[test]
fn can_fd_frame_new_001() {
    let can_frame_1 =
        CanFdFrame::new(0x20, MessageType::Standard, &(0..64u8).collect::<Vec<_>>()).unwrap();

    let can_frame_2 =
        CanFdFrame::new(0x20, MessageType::Standard, &(0..64u8).collect::<Vec<_>>()).unwrap();

    assert_eq!(can_frame_1, can_frame_2);
}

#[test]
fn can_fd_frame_new_002() {
    let can_frame_1 =
        CanFdFrame::new(0x20, MessageType::Extended, &(0..64u8).collect::<Vec<_>>()).unwrap();

    let can_frame_2 =
        CanFdFrame::new(0x20, MessageType::Extended, &(0..64u8).collect::<Vec<_>>()).unwrap();

    assert_eq!(can_frame_1, can_frame_2);
}

#[test]
#[should_panic]
fn can_fd_frame_new_003() {
    let _can_frame_1 =
        CanFdFrame::new(0x20, MessageType::Standard, &(0..65u8).collect::<Vec<_>>()).unwrap();
}

#[test]
#[should_panic]
fn can_fd_frame_new_004() {
    let _can_frame_1 =
        CanFrame::new(0x20, MessageType::Extended, &(0..65u8).collect::<Vec<_>>()).unwrap();
}

#[test]
fn can_frame_too_much_data_is_reported() {
    let r = CanFrame::new(0x20, MessageType::Standard, &[0; 9]);
    assert_eq!(r, Err(FrameConstructionError::TooMuchData));
    let r = CanFdFrame::new(0x20, MessageType::Standard, &[0; 65]);
    assert_eq!(r, Err(FrameConstructionError::TooMuchData));
}

#[test]
fn can_frame_accessors_report_the_stored_fields() {
    let f = CanFrame::new(0x7FF, MessageType::Standard, &[9, 8, 7]).unwrap();
    assert_eq!(f.dlc(), 3);
    assert_eq!(f.data(), &[9, 8, 7]);
    assert!(f.is_standard_frame());
    assert!(!f.is_extended_frame());
    assert_eq!(f.can_id(), 0x7FF);
}

#[test]
fn can_frame_extended_keeps_its_kind() {
    let f = CanFrame::new(0x1_2345, MessageType::Extended, &[1]).unwrap();
    assert!(f.is_extended_frame());
    assert!(!f.is_standard_frame());
    assert_eq!(f.can_id(), 0x1_2345);
}

#[test]
fn can_frame_identifier_is_clipped_to_its_width() {
    let f = CanFrame::new(0xFFFF_FFFF, MessageType::Standard, &[]).unwrap();
    assert_eq!(f.can_id(), 0x7FF);
    let f = CanFrame::new(0x800, MessageType::Extended, &[]).unwrap();
    assert_eq!(f.can_id(), 0x800);
    let f = CanFrame::new(0xFFFF_FFFF, MessageType::Extended, &[]).unwrap();
    assert_eq!(f.can_id(), 0x1FFF_FFFF);
}

#[test]
fn can_frame_padding_does_not_count_for_equality() {
    let a = CanFrame::new(0x20, MessageType::Standard, &[1, 2]).unwrap();
    let mut b = CanFrame::new(0x20, MessageType::Standard, &[1, 9]).unwrap();
    assert!(a != b);
    b.mut_data(1, 2);
    assert_eq!(a, b);
}

#[test]
fn can_frame_raw_round_trip() {
    let f = CanFrame::from_raw(0x123, 0x02, 4, [1, 2, 3, 4, 0, 0, 0, 0]);
    assert!(f.is_extended_frame());
    assert!(!f.is_standard_frame());
    assert_eq!(f.can_id(), 0x123);
    assert_eq!(f.dlc(), 4);
    assert_eq!(f.data(), &[1, 2, 3, 4]);
    let (id, msgtype, len, data) = f.raw_parts();
    assert_eq!(id, 0x123);
    assert_eq!(msgtype, 0x02);
    assert_eq!(len, 4);
    assert_eq!(data, [1, 2, 3, 4, 0, 0, 0, 0]);
}

#[test]
fn can_fd_frame_accessors_report_the_stored_fields() {
    let f = CanFdFrame::new(0x55, MessageType::Standard, &(0..40u8).collect::<Vec<_>>()).unwrap();
    assert_eq!(f.dlc(), 40);
    assert_eq!(f.data(), &(0..40u8).collect::<Vec<_>>()[..]);
    assert_eq!(f.can_id(), 0x55);
}

#[test]
fn default_frames_are_empty() {
    let f = CanFrame::default();
    assert!(f.is_standard_frame());
    assert_eq!(f.can_id(), 0);
    assert_eq!(f.dlc(), 0);
    assert_eq!(f.data(), &[] as &[u8]);
    let g = CanFdFrame::default();
    assert_eq!(g.can_id(), 0);
    assert_eq!(g.dlc(), 0);
    assert_eq!(g.data(), &[] as &[u8]);
}

#[test]
fn timestamps_compare_by_fields() {
    let a = Timestamp::default();
    assert_eq!(a.millis, 0);
    assert_eq!(a.millis_overflow, 0);
    assert_eq!(a.micros, 0);
    let b = Timestamp { millis: 1, millis_overflow: 0, micros: 0 };
    assert!(a != b);
    assert_eq!(b, Timestamp { millis: 1, millis_overflow: 0, micros: 0 });
}
