use ironrdp_usb::control::{standard_request, Recipient, RequestKind, RequestType, SetupPacket};
use ironrdp_usb::descriptor::{ConfigurationDescriptorSet, DescriptorError};
use ironrdp_usb::endpoint::{EndpointAddress, MaxPacketSize};
use ironrdp_usb::transfer::{UsbCompletion, UsbStatus};
use ironrdp_usb::urbdrc::UrbdrcServerMessage;
use ironrdp_usb::usb::ConversionError;
use ironrdp_usb::value::{is_valid_bcd_version, ClassCode, Direction, InterfaceSelection, TransferType, UsbSpeed};

fn selection(interface: u8, alternate_setting: u8) -> InterfaceSelection {
    InterfaceSelection {
        interface,
        alternate_setting,
    }
}

#[test]
fn request_type_round_trips() {
    let directions = [Direction::Out, Direction::In];
    let kinds = [RequestKind::STANDARD, RequestKind::CLASS, RequestKind::VENDOR, RequestKind::RESERVED];
    let recipients = [
        Recipient::DEVICE,
        Recipient::INTERFACE,
        Recipient::ENDPOINT,
        Recipient::OTHER,
        Recipient::VENDOR_SPECIFIC,
        Recipient::RESERVED(5),
        Recipient::RESERVED(31),
    ];
    for direction in directions {
        for kind in kinds {
            for recipient in recipients {
                let request_type = RequestType::new(direction, kind, recipient);
                assert_eq!(request_type.direction(), direction);
                assert_eq!(request_type.kind(), kind);
                assert_eq!(request_type.recipient(), recipient);
            }
        }
    }
}

#[test]
fn request_type_bytes() {
    assert_eq!(RequestType::new(Direction::In, RequestKind::STANDARD, Recipient::DEVICE).raw(), 0x80);
    assert_eq!(RequestType::new(Direction::Out, RequestKind::CLASS, Recipient::INTERFACE).raw(), 0x21);
    assert_eq!(RequestType::new(Direction::In, RequestKind::VENDOR, Recipient::OTHER).raw(), 0xc3);
    assert_eq!(RequestType(0x1f).recipient(), Recipient::RESERVED(31));
    assert_eq!(RequestType(0x64).kind(), RequestKind::RESERVED);
    assert_eq!(Recipient::from_raw(0xe4), Recipient::VENDOR_SPECIFIC);
    assert_eq!(Recipient::VENDOR_SPECIFIC.raw(), 4);
}

#[test]
fn standard_request_only_for_standard_kind() {
    let standard = SetupPacket {
        request_type: RequestType::new(Direction::In, RequestKind::STANDARD, Recipient::DEVICE),
        request: standard_request::GET_STATUS,
        value: 0,
        index: 0,
        length: 2,
    };
    assert_eq!(standard.standard_request(), Some(standard_request::GET_STATUS));
    let vendor = SetupPacket {
        request_type: RequestType::new(Direction::In, RequestKind::VENDOR, Recipient::DEVICE),
        ..standard
    };
    assert_eq!(vendor.standard_request(), None);
}

#[test]
fn transfer_type_uses_only_the_low_two_bits() {
    assert_eq!(TransferType::from_endpoint_attributes(0x00), TransferType::Control);
    assert_eq!(TransferType::from_endpoint_attributes(0x01), TransferType::Isochronous);
    assert_eq!(TransferType::from_endpoint_attributes(0x02), TransferType::Bulk);
    assert_eq!(TransferType::from_endpoint_attributes(0x03), TransferType::Interrupt);
    assert_eq!(TransferType::from_endpoint_attributes(0x0d), TransferType::Isochronous);
    assert_eq!(TransferType::from_endpoint_attributes(0xfe), TransferType::Bulk);
}

#[test]
fn superspeed_family() {
    assert!(!UsbSpeed::Low.is_superspeed());
    assert!(!UsbSpeed::Full.is_superspeed());
    assert!(!UsbSpeed::High.is_superspeed());
    assert!(UsbSpeed::Super.is_superspeed());
    assert!(UsbSpeed::SuperPlus.is_superspeed());
}

#[test]
fn bcd_versions() {
    assert!(is_valid_bcd_version(0x0200));
    assert!(is_valid_bcd_version(0x0110));
    assert!(is_valid_bcd_version(0x9999));
    assert!(!is_valid_bcd_version(0x020a));
    assert!(!is_valid_bcd_version(0x02a0));
    assert!(!is_valid_bcd_version(0x0b00));
    assert!(!is_valid_bcd_version(0xf000));
}

#[test]
fn class_code_keeps_its_values() {
    let code = ClassCode::new(0xff, 1, 2);
    assert_eq!(code.class, 0xff);
    assert_eq!(code.subclass, 1);
    assert_eq!(code.protocol, 2);
}

#[test]
fn endpoint_fields() {
    let address = EndpointAddress(0x83);
    assert_eq!(address.number(), 3);
    assert_eq!(address.direction(), Direction::In);
    assert_eq!(EndpointAddress(0x02).direction(), Direction::Out);
    let size = MaxPacketSize(0x1040);
    assert_eq!(size.packet_size(), 64);
    assert_eq!(size.additional_transactions(), 2);
    assert_eq!(size.high_speed_payload_per_microframe(), Ok(192));
    assert_eq!(MaxPacketSize(0x1840).high_speed_payload_per_microframe(), Err(0x1840));
}

#[test]
fn status_text_and_success() {
    let cases = [
        (UsbStatus::Success, "success"),
        (UsbStatus::Cancelled, "cancelled"),
        (UsbStatus::Stall, "stall"),
        (UsbStatus::Timeout, "timeout"),
        (UsbStatus::Overflow, "overflow"),
        (UsbStatus::NoDevice, "no-device"),
        (UsbStatus::Error, "error"),
    ];
    for (status, text) in cases {
        assert_eq!(status.as_str(), text);
        assert_eq!(status.is_success(), status == UsbStatus::Success);
    }
}

#[test]
fn completion_constructors() {
    let done = UsbCompletion::success(5u32);
    assert_eq!(done.status, UsbStatus::Success);
    assert_eq!(done.output, Some(5));
    assert!(done.status.is_success());
    let failed = UsbCompletion::<u32>::failure(UsbStatus::Stall);
    assert_eq!(failed.status, UsbStatus::Stall);
    assert_eq!(failed.output, None);
}

#[test]
fn server_message() {
    assert_eq!(format!("{:?}", UrbdrcServerMessage::AddChan), "AddChan");
}

#[test]
fn descriptor_parse_errors() {
    assert_eq!(
        ConfigurationDescriptorSet::parse(&[9, 2, 9, 0, 0, 1, 0]).unwrap_err(),
        DescriptorError::InvalidConfigurationHeader
    );
    assert_eq!(
        ConfigurationDescriptorSet::parse(&[9, 1, 9, 0, 0, 1, 0, 0x80, 50]).unwrap_err(),
        DescriptorError::InvalidConfigurationHeader
    );
    assert_eq!(
        ConfigurationDescriptorSet::parse(&[9, 2, 10, 0, 0, 1, 0, 0x80, 50]).unwrap_err(),
        DescriptorError::TotalLengthMismatch { declared: 10, actual: 9 }
    );
    // An interface descriptor shorter than 9 bytes.
    assert_eq!(
        ConfigurationDescriptorSet::parse(&[9, 2, 17, 0, 1, 1, 0, 0x80, 50, 8, 4, 0, 0, 0, 0xff, 0, 0]).unwrap_err(),
        DescriptorError::MalformedDescriptor
    );
    // A descriptor that runs past the end.
    assert_eq!(
        ConfigurationDescriptorSet::parse(&[9, 2, 12, 0, 0, 1, 0, 0x80, 50, 5, 33, 0]).unwrap_err(),
        DescriptorError::MalformedDescriptor
    );
}

#[test]
fn descriptor_views() {
    let bytes = [
        9, 2, 34, 0, 1, 1, 0, 0x80, 50, // configuration
        9, 4, 0, 0, 1, 3, 1, 2, 0, // interface 0, HID boot mouse
        9, 33, 0x11, 1, 0, 1, 34, 50, 0, // HID class descriptor
        7, 5, 0x81, 3, 8, 0, 10, // interrupt IN
    ];
    let descriptor = ConfigurationDescriptorSet::parse(&bytes).unwrap();
    assert_eq!(descriptor.as_bytes(), &bytes);
    assert_eq!(descriptor.configuration().total_length, 34);
    assert_eq!(descriptor.configuration().num_interfaces, 1);
    assert_eq!(descriptor.distinct_interface_count(), 1);
    assert_eq!(descriptor.validate(), Ok(()));
    let interfaces = descriptor.interfaces();
    assert_eq!(interfaces.len(), 1);
    let interface = interfaces[0];
    assert_eq!(interface.number(), 0);
    assert_eq!(interface.class_code(), ClassCode::new(3, 1, 2));
    let endpoints = interface.endpoints();
    assert_eq!(endpoints.len(), 1);
    assert_eq!(endpoints[0].address(), EndpointAddress(0x81));
    assert_eq!(endpoints[0].transfer_type(), TransferType::Interrupt);
    assert_eq!(endpoints[0].max_packet_size(), MaxPacketSize(8));
    assert_eq!(endpoints[0].interval(), 10);
    assert!(descriptor.interface(0, 1).is_none());
}

#[test]
fn descriptor_validation_errors() {
    let bytes = [
        9, 2, 27, 0, 2, 1, 0, 0x80, 50, // configuration declaring two interfaces
        9, 4, 0, 0, 0, 0xff, 0, 0, 0, // interface 0
        9, 4, 0, 1, 1, 0xff, 0, 0, 0, // interface 0, alternate 1, missing its endpoint
    ];
    let descriptor = ConfigurationDescriptorSet::parse(&bytes).unwrap();
    assert_eq!(
        descriptor.validate(),
        Err(DescriptorError::InterfaceCountMismatch { declared: 2, actual: 1 })
    );
    let mut one = bytes;
    one[4] = 1;
    let descriptor = ConfigurationDescriptorSet::parse(&one).unwrap();
    assert_eq!(
        descriptor.validate(),
        Err(DescriptorError::EndpointCountMismatch {
            interface: 0,
            alternate_setting: 1,
            declared: 1,
            actual: 0
        })
    );
}

#[test]
fn conversion_error_messages() {
    let cases = [
        (
            ConversionError::InTransferHasData { actual: 1 },
            "USB IN transfer carries 1 bytes of output data",
        ),
        (
            ConversionError::OutTransferLengthMismatch { expected: 2, actual: 10 },
            "USB OUT transfer declares 2 bytes but carries 10 bytes",
        ),
        (
            ConversionError::UnsupportedDescriptorRecipient {
                recipient: Recipient::VENDOR_SPECIFIC,
            },
            "RDPEUSB has no typed descriptor request for USB recipient 4",
        ),
        (
            ConversionError::StatefulStandardRequest { request: 5 },
            "USB standard request 0x05 requires host-controller state and cannot use a generic RDPEUSB control transfer",
        ),
        (
            ConversionError::StatefulStandardRequest { request: 0xab },
            "USB standard request 0xab requires host-controller state and cannot use a generic RDPEUSB control transfer",
        ),
        (
            ConversionError::UnconfiguredDeviceHasInterfaces,
            "an unconfigured USB device cannot have selected interfaces",
        ),
        (
            ConversionError::InvalidConfigurationHeaderLength { actual: 10 },
            "RDPEUSB requires a 9-byte USB configuration header, got 10 bytes",
        ),
        (
            ConversionError::InterfaceCountMismatch { declared: 3, actual: 2 },
            "USB configuration declares 3 interfaces but contains 2",
        ),
        (
            ConversionError::DuplicateInterface { interface: 0 },
            "USB interface 0 is selected more than once",
        ),
        (
            ConversionError::InterfaceNotFound {
                selection: selection(7, 0),
            },
            "USB interface 7 alternate setting 0 is absent from the configuration",
        ),
        (
            ConversionError::MissingInterfaceSelection { interface: 1 },
            "USB configuration has no selected alternate setting for interface 1",
        ),
        (
            ConversionError::TooManyPipes {
                selection: selection(0, 0),
                actual: 31,
            },
            "USB interface 0 alternate setting 0 has 31 pipes; RDPEUSB supports at most 30",
        ),
        (
            ConversionError::TooManyActivePipes { actual: 32 },
            "USB configuration selects 32 pipes; a USB device supports at most 30 non-default endpoints",
        ),
        (
            ConversionError::EndpointCountMismatch {
                selection: selection(0, 0),
                declared: 1,
                actual: 2,
            },
            "USB interface 0 alternate setting 0 declares 1 endpoints but contains 2",
        ),
        (
            ConversionError::InvalidMaximumPacketSize {
                selection: selection(255, 12),
                raw: 0x1840,
            },
            "USB interface 255 alternate setting 12 has invalid wMaxPacketSize 0x1840",
        ),
        (
            ConversionError::InvalidMaximumPacketSize {
                selection: selection(1, 1),
                raw: 0x00ff,
            },
            "USB interface 1 alternate setting 1 has invalid wMaxPacketSize 0x00ff",
        ),
    ];
    for (error, text) in cases {
        assert_eq!(error.message(), text);
    }
}

#[test]
fn message_of_a_large_count() {
    let error = ConversionError::InTransferHasData { actual: 1_234_567 };
    assert_eq!(error.message(), "USB IN transfer carries 1234567 bytes of output data");
}

#[test]
fn every_request_type_byte_survives_decoding() {
    for raw in 0..=u8::MAX {
        let request_type = RequestType(raw);
        let again = RequestType::new(request_type.direction(), request_type.kind(), request_type.recipient());
        assert_eq!(again.raw(), raw);
    }
}
