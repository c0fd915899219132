use ironrdp_usb::control::{standard_request, Recipient, RequestKind, RequestType, SetupPacket};
use ironrdp_usb::pdu::{TsUrbInKind, TsUrbOutKind, UrbFunction};
use ironrdp_usb::usb::{control_transfer, ConversionError, TransferRequest, DEFAULT_CONTROL_PIPE_HANDLE};
use ironrdp_usb::value::Direction;

fn in_form_allows(kind: &TsUrbInKind, func: UrbFunction) -> bool {
    match kind {
        TsUrbInKind::SelectConfig(_) => func == UrbFunction::URB_FUNCTION_SELECT_CONFIGURATION,
        TsUrbInKind::SelectIface(_) => func == UrbFunction::URB_FUNCTION_SELECT_INTERFACE,
        TsUrbInKind::CtlDescReq(_) => matches!(
            func,
            UrbFunction::URB_FUNCTION_GET_DESCRIPTOR_FROM_DEVICE
                | UrbFunction::URB_FUNCTION_GET_DESCRIPTOR_FROM_INTERFACE
                | UrbFunction::URB_FUNCTION_GET_DESCRIPTOR_FROM_ENDPOINT
        ),
        TsUrbInKind::CtlFeatReq(_) => matches!(
            func,
            UrbFunction::URB_FUNCTION_SET_FEATURE_TO_DEVICE
                | UrbFunction::URB_FUNCTION_SET_FEATURE_TO_INTERFACE
                | UrbFunction::URB_FUNCTION_SET_FEATURE_TO_ENDPOINT
                | UrbFunction::URB_FUNCTION_SET_FEATURE_TO_OTHER
                | UrbFunction::URB_FUNCTION_CLEAR_FEATURE_TO_DEVICE
                | UrbFunction::URB_FUNCTION_CLEAR_FEATURE_TO_INTERFACE
                | UrbFunction::URB_FUNCTION_CLEAR_FEATURE_TO_ENDPOINT
                | UrbFunction::URB_FUNCTION_CLEAR_FEATURE_TO_OTHER
        ),
        TsUrbInKind::CtlGetStatus(_) => matches!(
            func,
            UrbFunction::URB_FUNCTION_GET_STATUS_FROM_DEVICE
                | UrbFunction::URB_FUNCTION_GET_STATUS_FROM_INTERFACE
                | UrbFunction::URB_FUNCTION_GET_STATUS_FROM_ENDPOINT
                | UrbFunction::URB_FUNCTION_GET_STATUS_FROM_OTHER
        ),
        TsUrbInKind::CtlGetConfig(_) => func == UrbFunction::URB_FUNCTION_GET_CONFIGURATION,
        TsUrbInKind::CtlGetIface(_) => func == UrbFunction::URB_FUNCTION_GET_INTERFACE,
        TsUrbInKind::VendorClassReq(_) => vendor_or_class(func),
        TsUrbInKind::CtlTransfer(_) => func == UrbFunction::URB_FUNCTION_CONTROL_TRANSFER,
        TsUrbInKind::BulkInterruptTransfer(_) => func == UrbFunction::URB_FUNCTION_BULK_OR_INTERRUPT_TRANSFER,
    }
}

fn vendor_or_class(func: UrbFunction) -> bool {
    matches!(
        func,
        UrbFunction::URB_FUNCTION_VENDOR_DEVICE
            | UrbFunction::URB_FUNCTION_VENDOR_INTERFACE
            | UrbFunction::URB_FUNCTION_VENDOR_ENDPOINT
            | UrbFunction::URB_FUNCTION_VENDOR_OTHER
            | UrbFunction::URB_FUNCTION_CLASS_DEVICE
            | UrbFunction::URB_FUNCTION_CLASS_INTERFACE
            | UrbFunction::URB_FUNCTION_CLASS_ENDPOINT
            | UrbFunction::URB_FUNCTION_CLASS_OTHER
    )
}

fn out_form_allows(kind: &TsUrbOutKind, func: UrbFunction) -> bool {
    match kind {
        TsUrbOutKind::CtlDescReq(_) => matches!(
            func,
            UrbFunction::URB_FUNCTION_SET_DESCRIPTOR_TO_DEVICE
                | UrbFunction::URB_FUNCTION_SET_DESCRIPTOR_TO_INTERFACE
                | UrbFunction::URB_FUNCTION_SET_DESCRIPTOR_TO_ENDPOINT
        ),
        TsUrbOutKind::VendorClassReq(_) => vendor_or_class(func),
        TsUrbOutKind::CtlTransfer(_) => func == UrbFunction::URB_FUNCTION_CONTROL_TRANSFER,
        TsUrbOutKind::BulkInterruptTransfer(_) => func == UrbFunction::URB_FUNCTION_BULK_OR_INTERRUPT_TRANSFER,
    }
}

fn setups() -> Vec<SetupPacket> {
    let recipients = [
        Recipient::DEVICE,
        Recipient::INTERFACE,
        Recipient::ENDPOINT,
        Recipient::OTHER,
        Recipient::VENDOR_SPECIFIC,
        Recipient::RESERVED(9),
    ];
    let kinds = [RequestKind::STANDARD, RequestKind::CLASS, RequestKind::VENDOR, RequestKind::RESERVED];
    let mut out = Vec::new();
    for direction in [Direction::Out, Direction::In] {
        for kind in kinds {
            for recipient in recipients {
                for request in 0u8..14 {
                    for (value, index, length) in [(0, 0, 0), (0, 0, 1), (0, 0, 2), (1, 3, 0), (0x0302, 0x0409, 8)] {
                        out.push(SetupPacket {
                            request_type: RequestType::new(direction, kind, recipient),
                            request,
                            value,
                            index,
                            length,
                        });
                    }
                }
            }
        }
    }
    out
}

fn matching_data(setup: SetupPacket) -> Vec<u8> {
    match setup.request_type.direction() {
        Direction::In => Vec::new(),
        Direction::Out => (0..setup.length).map(|b| b as u8).collect(),
    }
}

fn is_stateful(setup: SetupPacket) -> bool {
    setup.request_type.kind() == RequestKind::STANDARD
        && matches!(
            setup.request,
            standard_request::SET_ADDRESS | standard_request::SET_CONFIGURATION | standard_request::SET_INTERFACE
        )
}

#[test]
fn every_request_pairs_its_form_with_a_matching_function() {
    for setup in setups() {
        match control_transfer(setup, matching_data(setup)) {
            Ok(TransferRequest::In(p)) => assert!(in_form_allows(&p.ts_urb.kind, p.ts_urb.func), "{setup:?}"),
            Ok(TransferRequest::Out(p)) => assert!(out_form_allows(&p.ts_urb.kind, p.ts_urb.func), "{setup:?}"),
            Err(error) => assert_eq!(
                error,
                ConversionError::StatefulStandardRequest { request: setup.request }
            ),
        }
    }
}

#[test]
fn envelope_and_buffer_shape_agree() {
    for setup in setups() {
        let data = matching_data(setup);
        match control_transfer(setup, data.clone()) {
            Ok(TransferRequest::In(p)) => {
                assert!(data.is_empty());
                assert_eq!(p.output_buffer_size, u32::from(setup.length));
            }
            Ok(TransferRequest::Out(p)) => {
                assert_eq!(p.output_buffer, data);
                assert!(!p.ts_urb.no_ack);
                assert!(setup.request_type.direction() == Direction::Out || setup.length == 0);
            }
            Err(_) => assert!(is_stateful(setup)),
        }
    }
}

#[test]
fn generic_transfers_keep_every_setup_field() {
    for setup in setups() {
        let urb = match control_transfer(setup, matching_data(setup)) {
            Ok(TransferRequest::In(p)) => match p.ts_urb.kind {
                TsUrbInKind::CtlTransfer(urb) => urb,
                _ => continue,
            },
            Ok(TransferRequest::Out(p)) => match p.ts_urb.kind {
                TsUrbOutKind::CtlTransfer(urb) => urb,
                _ => continue,
            },
            Err(_) => continue,
        };
        assert_eq!(urb.pipe, DEFAULT_CONTROL_PIPE_HANDLE);
        assert_eq!(urb.setup_packet.request_type, setup.request_type.raw());
        assert_eq!(urb.setup_packet.request, setup.request);
        assert_eq!(urb.setup_packet.value, setup.value);
        assert_eq!(urb.setup_packet.index, setup.index);
        assert_eq!(urb.setup_packet.length, setup.length);
    }
}

#[test]
fn mismatched_data_is_always_refused_first() {
    for setup in setups() {
        let mut data = matching_data(setup);
        data.push(0xee);
        let expected = match setup.request_type.direction() {
            Direction::In => ConversionError::InTransferHasData { actual: data.len() },
            Direction::Out => ConversionError::OutTransferLengthMismatch {
                expected: usize::from(setup.length),
                actual: data.len(),
            },
        };
        assert_eq!(control_transfer(setup, data).unwrap_err(), expected);
    }
}
