use pcan_basic::bus::{Bus, DngBus, IsaBus, LanBus, PccBus, PciBus, ToHandle, UsbBus};
use pcan_basic::socket::usb::UsbCanSocket;
use pcan_basic::socket::{Baudrate, CanSocket};

#[test]
fn usb_channels_have_their_documented_handles() {
    assert_eq!(UsbBus::USB1.channel(), 0x51);
    assert_eq!(UsbBus::USB8.channel(), 0x58);
    assert_eq!(UsbBus::USB9.channel(), 0x509);
    assert_eq!(UsbBus::USB16.channel(), 0x510);
    assert_eq!(UsbBus::USB3.handle(), UsbBus::USB3.channel());
}

#[test]
fn usb_channels_round_trip() {
    for bus in [UsbBus::USB1, UsbBus::USB7, UsbBus::USB9, UsbBus::USB16] {
        assert_eq!(UsbBus::try_from(bus.channel()), Ok(bus));
    }
    assert_eq!(UsbBus::try_from(0x50), Err(()));
    assert_eq!(UsbBus::try_from(0x59), Err(()));
}

#[test]
fn pci_channels_have_their_documented_handles() {
    assert_eq!(PciBus::PCI1.channel(), 0x41);
    assert_eq!(PciBus::PCI8.channel(), 0x48);
    assert_eq!(PciBus::PCI9.channel(), 0x409);
    assert_eq!(PciBus::PCI16.channel(), 0x410);
    assert_eq!(PciBus::try_from(0x409), Ok(PciBus::PCI9));
    assert_eq!(PciBus::try_from(0x49), Err(()));
}

#[test]
fn isa_channels_have_their_documented_handles() {
    assert_eq!(IsaBus::ISA1.channel(), 0x21);
    assert_eq!(IsaBus::ISA8.channel(), 0x28);
    assert_eq!(IsaBus::try_from(0x21), Ok(IsaBus::ISA1));
    assert_eq!(IsaBus::try_from(0x29), Err(()));
}

#[test]
fn dng_channel_has_its_documented_handle() {
    assert_eq!(DngBus::DNG1.channel(), 0x31);
    assert_eq!(DngBus::try_from(0x31), Ok(DngBus::DNG1));
    assert_eq!(DngBus::try_from(0x32), Err(()));
}

#[test]
fn pcc_channels_have_their_documented_handles() {
    assert_eq!(PccBus::PCC1.channel(), 0x61);
    assert_eq!(PccBus::PCC2.channel(), 0x62);
    assert_eq!(PccBus::try_from(0x62), Ok(PccBus::PCC2));
    assert_eq!(PccBus::try_from(0x63), Err(()));
}

#[test]
fn lan_channels_have_their_documented_handles() {
    assert_eq!(LanBus::LAN1.channel(), 0x801);
    assert_eq!(LanBus::LAN16.channel(), 0x810);
    assert_eq!(LanBus::try_from(0x805), Ok(LanBus::LAN5));
    assert_eq!(LanBus::try_from(0x811), Err(()));
}

#[test]
fn baud_rates_have_their_documented_register_values() {
    assert_eq!(Baudrate::Baud1M.code(), 0x0014);
    assert_eq!(Baudrate::Baud800K.code(), 0x0016);
    assert_eq!(Baudrate::Baud500K.code(), 0x001C);
    assert_eq!(Baudrate::Baud250K.code(), 0x011C);
    assert_eq!(Baudrate::Baud125K.code(), 0x031C);
    assert_eq!(Baudrate::Baud100K.code(), 0x432F);
    assert_eq!(Baudrate::Baud95K.code(), 0xC34E);
    assert_eq!(Baudrate::Baud83.code(), 0x852B);
    assert_eq!(Baudrate::Baud50K.code(), 0x472F);
    assert_eq!(Baudrate::Baud47K.code(), 0x1414);
    assert_eq!(Baudrate::Baud33K.code(), 0x8B2F);
    assert_eq!(Baudrate::Baud20K.code(), 0x532F);
    assert_eq!(Baudrate::Baud10K.code(), 0x672F);
    assert_eq!(Baudrate::Baud5K.code(), 0x7F7F);
}

#[test]
fn sockets_keep_their_handle() {
    let s = CanSocket::new(0x51);
    assert_eq!(s.handle(), 0x51);
    let u = UsbCanSocket::new(0x52);
    assert_eq!(u.handle(), 0x52);
}
