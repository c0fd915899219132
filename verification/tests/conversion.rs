use ironrdp_usb::control::{standard_request, GetDescriptorRequest, Recipient, RequestKind, RequestType, SetupPacket};
use ironrdp_usb::descriptor::{descriptor_type, ConfigurationDescriptorSet};
use ironrdp_usb::endpoint::MaxPacketSize;
use ironrdp_usb::pdu::{TsUrbInKind, TsUrbOutKind, UrbFunction};
use ironrdp_usb::usb::{
    control_transfer, get_descriptor, maximum_packet_size, select_configuration, select_interface, ConversionError,
    TransferRequest, DEFAULT_CONTROL_PIPE_HANDLE, USBD_DEFAULT_PIPE_TRANSFER, USBD_SHORT_TRANSFER_OK,
    USBD_TRANSFER_DIRECTION_IN,
};
use ironrdp_usb::value::{Direction, InterfaceSelection, TransferType, UsbSpeed};

const CONFIGURATION: [u8; 57] = [
    9, 2, 57, 0, 2, 1, 0, 0x80, 50, // configuration
    9, 4, 0, 0, 2, 0xff, 0, 0, 0, // interface 0, alternate 0
    7, 5, 0x81, 3, 0x40, 0x10, 1, // high-bandwidth interrupt IN
    7, 5, 0x02, 2, 0x00, 0x02, 0, // bulk OUT
    9, 4, 1, 0, 0, 0xff, 0, 0, 0, // interface 1, alternate 0
    9, 4, 1, 1, 1, 0xff, 0, 0, 0, // interface 1, alternate 1
    7, 5, 0x83, 3, 32, 0, 4, // interrupt IN
];

fn setup(
    direction: Direction,
    kind: RequestKind,
    recipient: Recipient,
    request: u8,
    value: u16,
    index: u16,
    length: u16,
) -> SetupPacket {
    SetupPacket {
        request_type: RequestType::new(direction, kind, recipient),
        request,
        value,
        index,
        length,
    }
}

fn selection(interface: u8, alternate_setting: u8) -> InterfaceSelection {
    InterfaceSelection {
        interface,
        alternate_setting,
    }
}

#[test]
fn typed_descriptor_request_equals_control_pipe_request() {
    for recipient in [Recipient::DEVICE, Recipient::INTERFACE, Recipient::ENDPOINT] {
        let request = GetDescriptorRequest {
            recipient,
            descriptor_type: descriptor_type::STRING,
            descriptor_index: 2,
            index: 0x0409,
            requested_length: 255,
        };
        let typed = get_descriptor(request).unwrap();
        let setup = setup(
            Direction::In,
            RequestKind::STANDARD,
            recipient,
            standard_request::GET_DESCRIPTOR,
            0x0302,
            0x0409,
            255,
        );
        let TransferRequest::In(generic) = control_transfer(setup, Vec::new()).unwrap() else {
            panic!("GET_DESCRIPTOR used TRANSFER_OUT_REQUEST");
        };
        assert_eq!(typed, generic);
        assert_eq!(typed.output_buffer_size, 255);
    }
}

#[test]
fn descriptor_functions_follow_the_recipient() {
    let cases = [
        (Recipient::DEVICE, UrbFunction::URB_FUNCTION_GET_DESCRIPTOR_FROM_DEVICE),
        (Recipient::INTERFACE, UrbFunction::URB_FUNCTION_GET_DESCRIPTOR_FROM_INTERFACE),
        (Recipient::ENDPOINT, UrbFunction::URB_FUNCTION_GET_DESCRIPTOR_FROM_ENDPOINT),
    ];
    for (recipient, func) in cases {
        let request = get_descriptor(GetDescriptorRequest {
            recipient,
            descriptor_type: descriptor_type::DEVICE,
            descriptor_index: 0,
            index: 0,
            requested_length: 18,
        })
        .unwrap();
        assert_eq!(request.ts_urb.func, func);
        let TsUrbInKind::CtlDescReq(urb) = request.ts_urb.kind else {
            panic!("typed descriptor request used the wrong TS_URB variant");
        };
        assert_eq!(urb.desc_type, descriptor_type::DEVICE);
        assert_eq!(urb.index, 0);
        assert_eq!(urb.lang_id, 0);
    }
}

#[test]
fn other_recipient_descriptor_request_falls_back_to_generic_control() {
    let other = GetDescriptorRequest {
        recipient: Recipient::OTHER,
        descriptor_type: descriptor_type::DEVICE,
        descriptor_index: 0,
        index: 0,
        requested_length: 18,
    };
    assert_eq!(
        get_descriptor(other).unwrap_err(),
        ConversionError::UnsupportedDescriptorRecipient {
            recipient: Recipient::OTHER
        }
    );
    let setup = setup(
        Direction::In,
        RequestKind::STANDARD,
        Recipient::OTHER,
        standard_request::GET_DESCRIPTOR,
        0x0100,
        0,
        18,
    );
    let TransferRequest::In(request) = control_transfer(setup, Vec::new()).unwrap() else {
        panic!("GET_DESCRIPTOR used TRANSFER_OUT_REQUEST");
    };
    assert_eq!(request.ts_urb.func, UrbFunction::URB_FUNCTION_CONTROL_TRANSFER);
    assert_eq!(request.output_buffer_size, 18);
}

#[test]
fn set_descriptor_carries_its_data_stage() {
    let setup = setup(
        Direction::Out,
        RequestKind::STANDARD,
        Recipient::DEVICE,
        standard_request::SET_DESCRIPTOR,
        0x0301,
        0x0409,
        3,
    );
    let TransferRequest::Out(request) = control_transfer(setup, vec![4, 5, 6]).unwrap() else {
        panic!("SET_DESCRIPTOR used TRANSFER_IN_REQUEST");
    };
    assert_eq!(request.output_buffer, [4, 5, 6]);
    assert!(!request.ts_urb.no_ack);
    assert_eq!(request.ts_urb.func, UrbFunction::URB_FUNCTION_SET_DESCRIPTOR_TO_DEVICE);
    let TsUrbOutKind::CtlDescReq(urb) = request.ts_urb.kind else {
        panic!("SET_DESCRIPTOR used the wrong TS_URB variant");
    };
    assert_eq!(urb.index, 1);
    assert_eq!(urb.desc_type, 3);
    assert_eq!(urb.lang_id, 0x0409);
}

#[test]
fn device_to_host_set_descriptor_without_data_uses_transfer_out() {
    let setup = setup(
        Direction::In,
        RequestKind::STANDARD,
        Recipient::INTERFACE,
        standard_request::SET_DESCRIPTOR,
        0x2200,
        0,
        0,
    );
    let TransferRequest::Out(request) = control_transfer(setup, Vec::new()).unwrap() else {
        panic!("SET_DESCRIPTOR used TRANSFER_IN_REQUEST");
    };
    assert!(request.output_buffer.is_empty());
    assert_eq!(request.ts_urb.func, UrbFunction::URB_FUNCTION_SET_DESCRIPTOR_TO_INTERFACE);
}

#[test]
fn canonical_standard_requests_use_typed_forms() {
    let status = setup(
        Direction::In,
        RequestKind::STANDARD,
        Recipient::OTHER,
        standard_request::GET_STATUS,
        0,
        2,
        2,
    );
    let TransferRequest::In(request) = control_transfer(status, Vec::new()).unwrap() else {
        panic!("GET_STATUS used TRANSFER_OUT_REQUEST");
    };
    assert_eq!(request.output_buffer_size, 2);
    assert_eq!(request.ts_urb.func, UrbFunction::URB_FUNCTION_GET_STATUS_FROM_OTHER);
    let TsUrbInKind::CtlGetStatus(urb) = request.ts_urb.kind else {
        panic!("GET_STATUS used the wrong TS_URB variant");
    };
    assert_eq!(urb.index, 2);

    let configuration = setup(
        Direction::In,
        RequestKind::STANDARD,
        Recipient::DEVICE,
        standard_request::GET_CONFIGURATION,
        0,
        0,
        1,
    );
    let TransferRequest::In(request) = control_transfer(configuration, Vec::new()).unwrap() else {
        panic!("GET_CONFIGURATION used TRANSFER_OUT_REQUEST");
    };
    assert_eq!(request.output_buffer_size, 1);
    assert_eq!(request.ts_urb.func, UrbFunction::URB_FUNCTION_GET_CONFIGURATION);
    assert!(matches!(request.ts_urb.kind, TsUrbInKind::CtlGetConfig(_)));

    let interface = setup(
        Direction::In,
        RequestKind::STANDARD,
        Recipient::INTERFACE,
        standard_request::GET_INTERFACE,
        0,
        3,
        1,
    );
    let TransferRequest::In(request) = control_transfer(interface, Vec::new()).unwrap() else {
        panic!("GET_INTERFACE used TRANSFER_OUT_REQUEST");
    };
    assert_eq!(request.ts_urb.func, UrbFunction::URB_FUNCTION_GET_INTERFACE);
    let TsUrbInKind::CtlGetIface(urb) = request.ts_urb.kind else {
        panic!("GET_INTERFACE used the wrong TS_URB variant");
    };
    assert_eq!(urb.interface, 3);

    let clear = setup(
        Direction::Out,
        RequestKind::STANDARD,
        Recipient::DEVICE,
        standard_request::CLEAR_FEATURE,
        1,
        0,
        0,
    );
    let TransferRequest::In(request) = control_transfer(clear, Vec::new()).unwrap() else {
        panic!("CLEAR_FEATURE used TRANSFER_OUT_REQUEST");
    };
    assert_eq!(request.output_buffer_size, 0);
    assert_eq!(request.ts_urb.func, UrbFunction::URB_FUNCTION_CLEAR_FEATURE_TO_DEVICE);
}

#[test]
fn vendor_out_carries_data_and_no_direction_flag() {
    let setup = setup(
        Direction::Out,
        RequestKind::VENDOR,
        Recipient::ENDPOINT,
        0x42,
        0x1234,
        0x0081,
        2,
    );
    let TransferRequest::Out(request) = control_transfer(setup, vec![9, 8]).unwrap() else {
        panic!("vendor OUT request used TRANSFER_IN_REQUEST");
    };
    assert_eq!(request.output_buffer, [9, 8]);
    assert_eq!(request.ts_urb.func, UrbFunction::URB_FUNCTION_VENDOR_ENDPOINT);
    let TsUrbOutKind::VendorClassReq(urb) = request.ts_urb.kind else {
        panic!("vendor request used the wrong TS_URB variant");
    };
    assert_eq!(urb.transfer_flags, 0);
    assert_eq!(urb.request, 0x42);
    assert_eq!(urb.value, 0x1234);
    assert_eq!(urb.index, 0x0081);
}

#[test]
fn reserved_kind_out_uses_generic_transfer_with_data() {
    let setup = setup(
        Direction::Out,
        RequestKind::RESERVED,
        Recipient::DEVICE,
        0x10,
        1,
        2,
        1,
    );
    let TransferRequest::Out(request) = control_transfer(setup, vec![7]).unwrap() else {
        panic!("OUT request used TRANSFER_IN_REQUEST");
    };
    assert_eq!(request.output_buffer, [7]);
    assert_eq!(request.ts_urb.func, UrbFunction::URB_FUNCTION_CONTROL_TRANSFER);
    let TsUrbOutKind::CtlTransfer(urb) = request.ts_urb.kind else {
        panic!("reserved request used the wrong TS_URB variant");
    };
    assert_eq!(urb.pipe, DEFAULT_CONTROL_PIPE_HANDLE);
    assert_eq!(urb.transfer_flags, USBD_DEFAULT_PIPE_TRANSFER);
    assert_eq!(urb.setup_packet.request_type, setup.request_type.raw());
    assert_eq!(urb.setup_packet.request, 0x10);
    assert_eq!(urb.setup_packet.value, 1);
    assert_eq!(urb.setup_packet.index, 2);
    assert_eq!(urb.setup_packet.length, 1);
}

#[test]
fn class_in_uses_direction_flags() {
    let setup = setup(
        Direction::In,
        RequestKind::CLASS,
        Recipient::OTHER,
        0x01,
        0,
        0,
        4,
    );
    let TransferRequest::In(request) = control_transfer(setup, Vec::new()).unwrap() else {
        panic!("class IN request used TRANSFER_OUT_REQUEST");
    };
    assert_eq!(request.ts_urb.func, UrbFunction::URB_FUNCTION_CLASS_OTHER);
    assert_eq!(request.output_buffer_size, 4);
    let TsUrbInKind::VendorClassReq(urb) = request.ts_urb.kind else {
        panic!("class request used the wrong TS_URB variant");
    };
    assert_eq!(urb.transfer_flags, USBD_TRANSFER_DIRECTION_IN | USBD_SHORT_TRANSFER_OK);
}

#[test]
fn data_stage_is_checked_before_stateful_requests() {
    let setup = setup(
        Direction::Out,
        RequestKind::STANDARD,
        Recipient::DEVICE,
        standard_request::SET_ADDRESS,
        5,
        0,
        0,
    );
    assert_eq!(
        control_transfer(setup, vec![1, 2]).unwrap_err(),
        ConversionError::OutTransferLengthMismatch { expected: 0, actual: 2 }
    );
}

#[test]
fn vendor_set_address_code_is_not_stateful() {
    let setup = setup(
        Direction::Out,
        RequestKind::VENDOR,
        Recipient::DEVICE,
        standard_request::SET_ADDRESS,
        5,
        0,
        0,
    );
    let TransferRequest::Out(request) = control_transfer(setup, Vec::new()).unwrap() else {
        panic!("vendor OUT request used TRANSFER_IN_REQUEST");
    };
    assert_eq!(request.ts_urb.func, UrbFunction::URB_FUNCTION_VENDOR_DEVICE);
}

#[test]
fn maximum_packet_size_values() {
    let high = UsbSpeed::High;
    let full = UsbSpeed::Full;
    // Two additional transactions of 1024 bytes at high speed.
    assert_eq!(maximum_packet_size(MaxPacketSize(0x1400), TransferType::Isochronous, high), Ok(3072));
    assert_eq!(maximum_packet_size(MaxPacketSize(0x0c00), TransferType::Interrupt, high), Ok(2048));
    assert_eq!(maximum_packet_size(MaxPacketSize(0x0040), TransferType::Interrupt, high), Ok(64));
    assert_eq!(maximum_packet_size(MaxPacketSize(0x17ff), TransferType::Isochronous, high), Ok(6141));
    // The reserved code 3 for additional transactions.
    assert_eq!(maximum_packet_size(MaxPacketSize(0x1840), TransferType::Interrupt, high), Err(0x1840));
    // Bits 15..13 are never valid.
    assert_eq!(maximum_packet_size(MaxPacketSize(0x2040), TransferType::Bulk, full), Err(0x2040));
    assert_eq!(maximum_packet_size(MaxPacketSize(0x8040), TransferType::Isochronous, high), Err(0x8040));
    // High-bandwidth bits outside high-speed periodic endpoints.
    assert_eq!(maximum_packet_size(MaxPacketSize(0x0840), TransferType::Bulk, high), Err(0x0840));
    assert_eq!(maximum_packet_size(MaxPacketSize(0x0840), TransferType::Isochronous, full), Err(0x0840));
    // Valid values are used unchanged elsewhere.
    assert_eq!(maximum_packet_size(MaxPacketSize(0x0200), TransferType::Bulk, high), Ok(512));
    assert_eq!(maximum_packet_size(MaxPacketSize(0x03ff), TransferType::Isochronous, full), Ok(1023));
    assert_eq!(maximum_packet_size(MaxPacketSize(0x0008), TransferType::Control, UsbSpeed::Low), Ok(8));
    assert_eq!(maximum_packet_size(MaxPacketSize(0x0400), TransferType::Interrupt, UsbSpeed::Super), Ok(1024));
}

#[test]
fn select_interface_agrees_with_select_configuration() {
    let descriptor = ConfigurationDescriptorSet::parse(&CONFIGURATION).unwrap();
    let selections = [selection(1, 1), selection(0, 0)];
    let request = select_configuration(Some(descriptor), &selections, UsbSpeed::High).unwrap();
    let TsUrbInKind::SelectConfig(urb) = request.ts_urb.kind else {
        panic!("selection used the wrong TS_URB variant");
    };
    // Caller order is kept.
    assert_eq!(urb.usbd_ifaces[0].interface_number, 1);
    assert_eq!(urb.usbd_ifaces[1].interface_number, 0);
    for (entry, chosen) in urb.usbd_ifaces.iter().zip(selections) {
        let interface = descriptor.interface(chosen.interface, chosen.alternate_setting).unwrap();
        let single = select_interface(7, interface, UsbSpeed::High).unwrap();
        let TsUrbInKind::SelectIface(single) = single.ts_urb.kind else {
            panic!("interface selection used the wrong TS_URB variant");
        };
        assert_eq!(&single.usbd_iface, entry);
        assert_eq!(single.config_handle, 7);
    }
    let config = urb.desc.unwrap();
    assert_eq!(config.length, 9);
    assert_eq!(config.descriptor_type, 2);
    assert_eq!(config.num_interfaces, 2);
    assert_eq!(config.configuration_value, 1);
    assert_eq!(config.configuration, 0);
    assert_eq!(config.attributes, 0x80);
    assert_eq!(config.max_power, 50);
}

#[test]
fn pipes_ignore_the_transfer_size_and_flags() {
    let descriptor = ConfigurationDescriptorSet::parse(&CONFIGURATION).unwrap();
    let interface = descriptor.interface(0, 0).unwrap();
    let request = select_interface(1, interface, UsbSpeed::Full).unwrap_err();
    // At full speed the high-bandwidth interrupt endpoint is refused.
    assert_eq!(
        request,
        ConversionError::InvalidMaximumPacketSize {
            selection: selection(0, 0),
            raw: 0x1040
        }
    );
    let interface = descriptor.interface(1, 1).unwrap();
    let request = select_interface(1, interface, UsbSpeed::Full).unwrap();
    let TsUrbInKind::SelectIface(urb) = request.ts_urb.kind else {
        panic!("interface selection used the wrong TS_URB variant");
    };
    assert_eq!(urb.usbd_iface.ts_usbd_pipe_info.len(), 1);
    assert_eq!(urb.usbd_iface.ts_usbd_pipe_info[0].max_transfer_size, 0);
    assert_eq!(urb.usbd_iface.ts_usbd_pipe_info[0].pipe_flags, 0);
}

#[test]
fn interface_without_endpoints_has_no_pipes() {
    let descriptor = ConfigurationDescriptorSet::parse(&CONFIGURATION).unwrap();
    let interface = descriptor.interface(1, 0).unwrap();
    let request = select_interface(3, interface, UsbSpeed::High).unwrap();
    assert_eq!(request.ts_urb.func, UrbFunction::URB_FUNCTION_SELECT_INTERFACE);
    let TsUrbInKind::SelectIface(urb) = request.ts_urb.kind else {
        panic!("interface selection used the wrong TS_URB variant");
    };
    assert_eq!(urb.usbd_iface.interface_number, 1);
    assert_eq!(urb.usbd_iface.alternate_setting, 0);
    assert!(urb.usbd_iface.ts_usbd_pipe_info.is_empty());
}

#[test]
fn selection_rejects_a_long_configuration_header() {
    // A 10-byte configuration header: USB allows it, RDPEUSB does not.
    let bytes = [
        10, 2, 19, 0, 1, 1, 0, 0x80, 50, 0, // configuration
        9, 4, 0, 0, 0, 0xff, 0, 0, 0, // interface 0, alternate 0
    ];
    let descriptor = ConfigurationDescriptorSet::parse(&bytes).unwrap();
    assert_eq!(
        select_configuration(Some(descriptor), &[selection(0, 0)], UsbSpeed::Full).unwrap_err(),
        ConversionError::InvalidConfigurationHeaderLength { actual: 10 }
    );
}

#[test]
fn selection_reports_the_first_failing_selection() {
    let descriptor = ConfigurationDescriptorSet::parse(&CONFIGURATION).unwrap();
    // The missing interface comes first, the duplicate later.
    assert_eq!(
        select_configuration(
            Some(descriptor),
            &[selection(1, 5), selection(0, 0), selection(0, 0)],
            UsbSpeed::High
        )
        .unwrap_err(),
        ConversionError::InterfaceNotFound {
            selection: selection(1, 5)
        }
    );
    assert_eq!(
        select_configuration(
            Some(descriptor),
            &[selection(0, 0), selection(0, 0), selection(1, 5)],
            UsbSpeed::High
        )
        .unwrap_err(),
        ConversionError::DuplicateInterface { interface: 0 }
    );
}
