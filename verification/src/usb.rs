//! Conversion of protocol-independent USB semantics into RDPEUSB requests.
//!
//! This module is sans-I/O. It does not know about usbredir packets, RDPEUSB
//! request IDs, device state, completion routing, or async execution. Each
//! function returns a complete backend-facing RDPEUSB transfer packet so that
//! the TS_URB payload, URB function, transfer envelope, flags, and buffer
//! shape cannot disagree.
use vstd::prelude::*;

use crate::control::standard_request;
use crate::control::{GetDescriptorRequest, Recipient, RequestKind, SetupPacket};
use crate::descriptor::{
    distinct_interface_count, find_interface, ConfigurationDescriptorSet, ConfigurationModel,
    EndpointModel, InterfaceDescriptor, InterfaceModel,
};
use crate::endpoint::{high_speed_payload_of, packet_size_of, MaxPacketSize};
use crate::pdu::{
    ConfigHandle, PipeHandle, RdpeusbSetupPacket, SpecTransferInPacket, SpecTransferOutPacket,
    SpecTsUrbInKind, SpecTsUrbInPacket, SpecTsUrbSelectConfig, SpecTsUrbSelectInterface,
    SpecTsUsbdInterfaceInfo, SpecUsbConfigDesc, TransferInPacket, TransferOutPacket,
    TsUrbBulkOrInterruptTransfer, TsUrbControlDescRequest, TsUrbControlFeatRequest,
    TsUrbControlGetConfigRequest, TsUrbControlGetInterfaceRequest, TsUrbControlGetStatusRequest,
    TsUrbControlTransfer, TsUrbControlVendorClassRequest, TsUrbInKind, TsUrbInPacket, TsUrbOutKind,
    TsUrbOutPacket, TsUrbSelectConfig, TsUrbSelectInterface, TsUsbdInterfaceInfo, TsUsbdPipeInfo,
    UrbFunction, UsbConfigDesc, MAX_NON_DEFAULT_EP_COUNT, USB_CONFIG_DESC_FIXED_PART_SIZE,
};
use crate::value::{transfer_type_of_code, Direction, InterfaceSelection, TransferType, UsbSpeed};

pub mod laws;
pub mod message;
pub mod semantics;

verus! {

/// WDK USBD transfer flag: data moves from the device to the host.
pub const USBD_TRANSFER_DIRECTION_IN: u32 = 0x0000_0001;

/// WDK USBD transfer flag: a short IN transfer is not an error.
pub const USBD_SHORT_TRANSFER_OK: u32 = 0x0000_0002;

/// WDK USBD transfer flag: the transfer uses the default control pipe.
pub const USBD_DEFAULT_PIPE_TRANSFER: u32 = 0x0000_0008;

/// A Windows URB addresses the default control endpoint with a null pipe
/// handle and USBD_DEFAULT_PIPE_TRANSFER (a Windows URB convention rather than
/// an RDPEUSB-assigned pipe handle).
pub const DEFAULT_CONTROL_PIPE_HANDLE: PipeHandle = 0;

/// A complete RDPEUSB transfer request, before request-ID allocation and I/O.
#[derive(Debug, Clone, PartialEq, Eq)]
pub enum TransferRequest {
    /// An RDPEUSB `TRANSFER_IN_REQUEST` envelope.
    In(TransferInPacket),
    /// An RDPEUSB `TRANSFER_OUT_REQUEST` envelope.
    Out(TransferOutPacket),
}

/// The mathematical view of [`TransferRequest`], with lists as sequences.
pub enum SpecTransferRequest {
    In(SpecTransferInPacket),
    Out(SpecTransferOutPacket),
}

impl View for TransferRequest {
    type V = SpecTransferRequest;

    open spec fn view(&self) -> SpecTransferRequest {
        match self {
            TransferRequest::In(p) => SpecTransferRequest::In(p@),
            TransferRequest::Out(p) => SpecTransferRequest::Out(p@),
        }
    }
}

/// A USB operation that cannot be represented by the requested RDPEUSB form.
#[allow(inconsistent_fields)]
#[derive(Debug, Clone, Copy, PartialEq, Eq, Structural, Hash)]
#[non_exhaustive]
pub enum ConversionError {
    InTransferHasData { actual: usize },
    OutTransferLengthMismatch { expected: usize, actual: usize },
    UnsupportedDescriptorRecipient { recipient: Recipient },
    StatefulStandardRequest { request: u8 },
    UnconfiguredDeviceHasInterfaces,
    InvalidConfigurationHeaderLength { actual: u8 },
    InterfaceCountMismatch { declared: u8, actual: usize },
    DuplicateInterface { interface: u8 },
    InterfaceNotFound { selection: InterfaceSelection },
    MissingInterfaceSelection { interface: u8 },
    TooManyPipes { selection: InterfaceSelection, actual: usize },
    TooManyActivePipes { actual: usize },
    EndpointCountMismatch { selection: InterfaceSelection, declared: u8, actual: usize },
    InvalidMaximumPacketSize { selection: InterfaceSelection, raw: u16 },
}

/// Whether a descriptor request reads or writes a descriptor.
#[derive(Debug, Clone, Copy, PartialEq, Eq, Structural, Hash)]
pub enum DescriptorOperation {
    Read,
    Write,
}

// ---------------------------------------------------------------------------
// Specifications
// ---------------------------------------------------------------------------

/// A TRANSFER_IN_REQUEST with the given TS_URB form, function and buffer size.
pub open spec fn spec_transfer_in(kind: SpecTsUrbInKind, func: UrbFunction, size: u32) -> SpecTransferInPacket {
    SpecTransferInPacket { ts_urb: SpecTsUrbInPacket { kind, func }, output_buffer_size: size }
}

/// A TRANSFER_OUT_REQUEST with the given TS_URB form, function and data; the
/// device is always asked to acknowledge it.
pub open spec fn spec_transfer_out(kind: TsUrbOutKind, func: UrbFunction, data: Seq<u8>) -> SpecTransferOutPacket {
    SpecTransferOutPacket { ts_urb: TsUrbOutPacket { kind, no_ack: false, func }, output_buffer: data }
}

/// The USBD flags of a transfer in a direction.
pub open spec fn spec_in_transfer_flags(direction: Direction) -> u32 {
    match direction {
        Direction::In => USBD_TRANSFER_DIRECTION_IN | USBD_SHORT_TRANSFER_OK,
        Direction::Out => 0,
    }
}

/// The RDPEUSB copy of a setup packet: every field unchanged.
pub open spec fn spec_rdpeusb_setup_packet(setup: SetupPacket) -> RdpeusbSetupPacket {
    RdpeusbSetupPacket {
        request_type: setup.request_type.0,
        request: setup.request,
        value: setup.value,
        index: setup.index,
        length: setup.length,
    }
}

/// The URB function of a typed descriptor request, for the recipients that
/// RDPEUSB has one for.
pub open spec fn spec_descriptor_function(recipient: Recipient, operation: DescriptorOperation) -> Option<UrbFunction> {
    match (operation, recipient) {
        (DescriptorOperation::Read, Recipient::DEVICE) => Some(UrbFunction::URB_FUNCTION_GET_DESCRIPTOR_FROM_DEVICE),
        (DescriptorOperation::Read, Recipient::INTERFACE) => Some(UrbFunction::URB_FUNCTION_GET_DESCRIPTOR_FROM_INTERFACE),
        (DescriptorOperation::Read, Recipient::ENDPOINT) => Some(UrbFunction::URB_FUNCTION_GET_DESCRIPTOR_FROM_ENDPOINT),
        (DescriptorOperation::Write, Recipient::DEVICE) => Some(UrbFunction::URB_FUNCTION_SET_DESCRIPTOR_TO_DEVICE),
        (DescriptorOperation::Write, Recipient::INTERFACE) => Some(UrbFunction::URB_FUNCTION_SET_DESCRIPTOR_TO_INTERFACE),
        (DescriptorOperation::Write, Recipient::ENDPOINT) => Some(UrbFunction::URB_FUNCTION_SET_DESCRIPTOR_TO_ENDPOINT),
        _ => None,
    }
}

/// The URB function of CLEAR_FEATURE or SET_FEATURE for a recipient.
pub open spec fn spec_feature_function(request: u8, recipient: Recipient) -> Option<UrbFunction> {
    if request == standard_request::CLEAR_FEATURE {
        match recipient {
            Recipient::DEVICE => Some(UrbFunction::URB_FUNCTION_CLEAR_FEATURE_TO_DEVICE),
            Recipient::INTERFACE => Some(UrbFunction::URB_FUNCTION_CLEAR_FEATURE_TO_INTERFACE),
            Recipient::ENDPOINT => Some(UrbFunction::URB_FUNCTION_CLEAR_FEATURE_TO_ENDPOINT),
            Recipient::OTHER => Some(UrbFunction::URB_FUNCTION_CLEAR_FEATURE_TO_OTHER),
            _ => None,
        }
    } else if request == standard_request::SET_FEATURE {
        match recipient {
            Recipient::DEVICE => Some(UrbFunction::URB_FUNCTION_SET_FEATURE_TO_DEVICE),
            Recipient::INTERFACE => Some(UrbFunction::URB_FUNCTION_SET_FEATURE_TO_INTERFACE),
            Recipient::ENDPOINT => Some(UrbFunction::URB_FUNCTION_SET_FEATURE_TO_ENDPOINT),
            Recipient::OTHER => Some(UrbFunction::URB_FUNCTION_SET_FEATURE_TO_OTHER),
            _ => None,
        }
    } else {
        None
    }
}

/// The URB function of GET_STATUS for a recipient.
pub open spec fn spec_get_status_function(recipient: Recipient) -> Option<UrbFunction> {
    match recipient {
        Recipient::DEVICE => Some(UrbFunction::URB_FUNCTION_GET_STATUS_FROM_DEVICE),
        Recipient::INTERFACE => Some(UrbFunction::URB_FUNCTION_GET_STATUS_FROM_INTERFACE),
        Recipient::ENDPOINT => Some(UrbFunction::URB_FUNCTION_GET_STATUS_FROM_ENDPOINT),
        Recipient::OTHER => Some(UrbFunction::URB_FUNCTION_GET_STATUS_FROM_OTHER),
        _ => None,
    }
}

/// The URB function of a vendor or class request for a recipient.
pub open spec fn spec_vendor_or_class_function(kind: RequestKind, recipient: Recipient) -> Option<UrbFunction> {
    match (kind, recipient) {
        (RequestKind::VENDOR, Recipient::DEVICE) => Some(UrbFunction::URB_FUNCTION_VENDOR_DEVICE),
        (RequestKind::VENDOR, Recipient::INTERFACE) => Some(UrbFunction::URB_FUNCTION_VENDOR_INTERFACE),
        (RequestKind::VENDOR, Recipient::ENDPOINT) => Some(UrbFunction::URB_FUNCTION_VENDOR_ENDPOINT),
        (RequestKind::VENDOR, Recipient::OTHER) => Some(UrbFunction::URB_FUNCTION_VENDOR_OTHER),
        (RequestKind::CLASS, Recipient::DEVICE) => Some(UrbFunction::URB_FUNCTION_CLASS_DEVICE),
        (RequestKind::CLASS, Recipient::INTERFACE) => Some(UrbFunction::URB_FUNCTION_CLASS_INTERFACE),
        (RequestKind::CLASS, Recipient::ENDPOINT) => Some(UrbFunction::URB_FUNCTION_CLASS_ENDPOINT),
        (RequestKind::CLASS, Recipient::OTHER) => Some(UrbFunction::URB_FUNCTION_CLASS_OTHER),
        _ => None,
    }
}

/// The error for a data stage that does not match the setup packet: an IN
/// transfer carries no data, an OUT transfer exactly `wLength` bytes.
pub open spec fn spec_control_data_error(setup: SetupPacket, len: nat) -> Option<ConversionError> {
    match setup.request_type.direction() {
        Direction::In => if len != 0 {
            Some(ConversionError::InTransferHasData { actual: len as usize })
        } else {
            None
        },
        Direction::Out => if len != setup.length {
            Some(ConversionError::OutTransferLengthMismatch { expected: setup.length as usize, actual: len as usize })
        } else {
            None
        },
    }
}

/// A typed GET_DESCRIPTOR request.
pub open spec fn spec_get_descriptor(request: GetDescriptorRequest) -> Result<SpecTransferInPacket, ConversionError> {
    match spec_descriptor_function(request.recipient, DescriptorOperation::Read) {
        None => Err(ConversionError::UnsupportedDescriptorRecipient { recipient: request.recipient }),
        Some(func) => Ok(
            spec_transfer_in(
                SpecTsUrbInKind::CtlDescReq(
                    TsUrbControlDescRequest {
                        index: request.descriptor_index,
                        desc_type: request.descriptor_type,
                        lang_id: request.index,
                    },
                ),
                func,
                request.requested_length as u32,
            ),
        ),
    }
}

/// The `wMaxPacketSize` semantics RDPEUSB uses for a pipe: bits 15..13 must
/// be clear; high-speed isochronous and interrupt endpoints count every
/// transaction of a microframe; other endpoints must have bits 12..11 clear.
/// An error carries the raw value.
pub open spec fn spec_maximum_packet_size(raw: u16, transfer_type: TransferType, speed: UsbSpeed) -> Result<u16, u16> {
    if raw & 0xe000 != 0 {
        Err(raw)
    } else if speed == UsbSpeed::High && (transfer_type == TransferType::Isochronous || transfer_type
        == TransferType::Interrupt) {
        high_speed_payload_of(raw)
    } else if raw & 0x1800 != 0 {
        Err(raw)
    } else {
        Ok(packet_size_of(raw))
    }
}

/// The packet size of an endpoint descriptor at a bus speed.
pub open spec fn spec_endpoint_packet_size(e: EndpointModel, speed: UsbSpeed) -> Result<u16, u16> {
    spec_maximum_packet_size(e.max_packet_size, transfer_type_of_code(e.attributes & 0x03), speed)
}

/// The raw `wMaxPacketSize` of the first endpoint whose value is invalid.
pub open spec fn first_invalid_packet_size(endpoints: Seq<EndpointModel>, speed: UsbSpeed) -> Option<u16>
    decreases endpoints.len(),
{
    if endpoints.len() == 0 {
        None
    } else {
        match spec_endpoint_packet_size(endpoints[0], speed) {
            Err(raw) => Some(raw),
            Ok(_) => first_invalid_packet_size(endpoints.drop_first(), speed),
        }
    }
}

/// The pipe of an endpoint with a valid packet size. The client ignores the
/// obsolete maximum transfer size, and no pipe flags are requested.
pub open spec fn spec_pipe(e: EndpointModel, speed: UsbSpeed) -> TsUsbdPipeInfo {
    TsUsbdPipeInfo {
        max_packet_size: match spec_endpoint_packet_size(e, speed) {
            Ok(size) => size,
            Err(_) => 0,
        },
        max_transfer_size: 0,
        pipe_flags: 0,
    }
}

/// The interface information RDPEUSB needs for one interface descriptor.
pub open spec fn spec_interface_information(i: InterfaceModel, speed: UsbSpeed) -> Result<SpecTsUsbdInterfaceInfo, ConversionError> {
    let selection = InterfaceSelection { interface: i.number, alternate_setting: i.alternate_setting };
    let count = i.endpoints.len();
    if count != i.num_endpoints {
        Err(ConversionError::EndpointCountMismatch { selection, declared: i.num_endpoints, actual: count as usize })
    } else if count > MAX_NON_DEFAULT_EP_COUNT {
        Err(ConversionError::TooManyPipes { selection, actual: count as usize })
    } else {
        match first_invalid_packet_size(i.endpoints, speed) {
            Some(raw) => Err(ConversionError::InvalidMaximumPacketSize { selection, raw }),
            None => Ok(
                SpecTsUsbdInterfaceInfo {
                    interface_number: i.number,
                    alternate_setting: i.alternate_setting,
                    ts_usbd_pipe_info: i.endpoints.map_values(|e: EndpointModel| spec_pipe(e, speed)),
                },
            ),
        }
    }
}

/// The low byte of a 16-bit value (its first byte in little-endian order).
pub open spec fn low_byte(v: u16) -> u8 {
    (v % 256) as u8
}

/// The high byte of a 16-bit value (its second byte in little-endian order).
pub open spec fn high_byte(v: u16) -> u8 {
    (v / 256) as u8
}

/// The typed TS_URB of a canonical standard request, when RDPEUSB has one
/// (MS-RDPEUSB 2.2.9.9 to 2.2.9.14). `None` for every other setup packet.
pub open spec fn spec_standard_control_transfer(setup: SetupPacket, data: Seq<u8>) -> Option<SpecTransferRequest> {
    let recipient = setup.request_type.recipient();
    let direction = setup.request_type.direction();
    let request = setup.request;
    if setup.request_type.kind() != RequestKind::STANDARD {
        None
    } else if request == standard_request::GET_DESCRIPTOR && (setup.length == 0 || direction
        == Direction::In) {
        match spec_descriptor_function(recipient, DescriptorOperation::Read) {
            None => None,
            Some(func) => Some(
                SpecTransferRequest::In(
                    spec_transfer_in(
                        SpecTsUrbInKind::CtlDescReq(
                            TsUrbControlDescRequest {
                                index: low_byte(setup.value),
                                desc_type: high_byte(setup.value),
                                lang_id: setup.index,
                            },
                        ),
                        func,
                        setup.length as u32,
                    ),
                ),
            ),
        }
    } else if request == standard_request::SET_DESCRIPTOR && (setup.length == 0 || direction
        == Direction::Out) {
        match spec_descriptor_function(recipient, DescriptorOperation::Write) {
            None => None,
            Some(func) => Some(
                SpecTransferRequest::Out(
                    spec_transfer_out(
                        TsUrbOutKind::CtlDescReq(
                            TsUrbControlDescRequest {
                                index: low_byte(setup.value),
                                desc_type: high_byte(setup.value),
                                lang_id: setup.index,
                            },
                        ),
                        func,
                        data,
                    ),
                ),
            ),
        }
    } else if request == standard_request::GET_STATUS && direction == Direction::In && setup.value
        == 0 && setup.length == 2 {
        match spec_get_status_function(recipient) {
            None => None,
            Some(func) => Some(
                SpecTransferRequest::In(
                    spec_transfer_in(
                        SpecTsUrbInKind::CtlGetStatus(TsUrbControlGetStatusRequest { index: setup.index }),
                        func,
                        2,
                    ),
                ),
            ),
        }
    } else if (request == standard_request::CLEAR_FEATURE || request == standard_request::SET_FEATURE)
        && direction == Direction::Out && setup.length == 0 {
        // MS-RDPEUSB 2.2.9.10 carries this host-to-device operation in
        // TRANSFER_IN_REQUEST with an empty output buffer.
        match spec_feature_function(request, recipient) {
            None => None,
            Some(func) => Some(
                SpecTransferRequest::In(
                    spec_transfer_in(
                        SpecTsUrbInKind::CtlFeatReq(
                            TsUrbControlFeatRequest { feat_selector: setup.value, index: setup.index },
                        ),
                        func,
                        0,
                    ),
                ),
            ),
        }
    } else if request == standard_request::GET_CONFIGURATION && direction == Direction::In
        && recipient == Recipient::DEVICE && setup.value == 0 && setup.index == 0 && setup.length == 1 {
        Some(
            SpecTransferRequest::In(
                spec_transfer_in(
                    SpecTsUrbInKind::CtlGetConfig(TsUrbControlGetConfigRequest),
                    UrbFunction::URB_FUNCTION_GET_CONFIGURATION,
                    1,
                ),
            ),
        )
    } else if request == standard_request::GET_INTERFACE && direction == Direction::In
        && recipient == Recipient::INTERFACE && setup.value == 0 && setup.length == 1 {
        Some(
            SpecTransferRequest::In(
                spec_transfer_in(
                    SpecTsUrbInKind::CtlGetIface(TsUrbControlGetInterfaceRequest { interface: setup.index }),
                    UrbFunction::URB_FUNCTION_GET_INTERFACE,
                    1,
                ),
            ),
        )
    } else {
        None
    }
}

/// The TS_URB_CONTROL_TRANSFER that carries a setup packet unchanged on the
/// default pipe.
pub open spec fn spec_generic_urb(setup: SetupPacket) -> TsUrbControlTransfer {
    TsUrbControlTransfer {
        pipe: DEFAULT_CONTROL_PIPE_HANDLE,
        transfer_flags: spec_in_transfer_flags(setup.request_type.direction()) | USBD_DEFAULT_PIPE_TRANSFER,
        setup_packet: spec_rdpeusb_setup_packet(setup),
    }
}

/// A setup packet sent losslessly in TS_URB_CONTROL_TRANSFER: IN with a
/// buffer of `wLength` bytes, OUT with the data stage.
pub open spec fn spec_generic_control_transfer(setup: SetupPacket, data: Seq<u8>) -> SpecTransferRequest {
    match setup.request_type.direction() {
        Direction::In => SpecTransferRequest::In(
            spec_transfer_in(
                SpecTsUrbInKind::CtlTransfer(spec_generic_urb(setup)),
                UrbFunction::URB_FUNCTION_CONTROL_TRANSFER,
                setup.length as u32,
            ),
        ),
        Direction::Out => SpecTransferRequest::Out(
            spec_transfer_out(
                TsUrbOutKind::CtlTransfer(spec_generic_urb(setup)),
                UrbFunction::URB_FUNCTION_CONTROL_TRANSFER,
                data,
            ),
        ),
    }
}

/// The TS_URB_CONTROL_VENDOR_OR_CLASS_REQUEST form of a setup packet.
pub open spec fn spec_vendor_class_urb(setup: SetupPacket) -> TsUrbControlVendorClassRequest {
    TsUrbControlVendorClassRequest {
        transfer_flags: spec_in_transfer_flags(setup.request_type.direction()),
        request: setup.request,
        value: setup.value,
        index: setup.index,
    }
}

/// A vendor or class request with a typed URB function.
pub open spec fn spec_vendor_class_transfer(setup: SetupPacket, data: Seq<u8>, func: UrbFunction) -> SpecTransferRequest {
    match setup.request_type.direction() {
        Direction::In => SpecTransferRequest::In(
            spec_transfer_in(SpecTsUrbInKind::VendorClassReq(spec_vendor_class_urb(setup)), func, setup.length as u32),
        ),
        Direction::Out => SpecTransferRequest::Out(
            spec_transfer_out(TsUrbOutKind::VendorClassReq(spec_vendor_class_urb(setup)), func, data),
        ),
    }
}

/// Standard requests whose execution changes host-controller state; the
/// owning state layer must handle them.
pub open spec fn is_stateful_standard_request(setup: SetupPacket) -> bool {
    &&& setup.request_type.kind() == RequestKind::STANDARD
    &&& (setup.request == standard_request::SET_ADDRESS || setup.request
        == standard_request::SET_CONFIGURATION || setup.request == standard_request::SET_INTERFACE)
}

/// The RDPEUSB transfer of a default-control-pipe request.
pub open spec fn spec_control_transfer(setup: SetupPacket, data: Seq<u8>) -> Result<SpecTransferRequest, ConversionError> {
    match spec_control_data_error(setup, data.len()) {
        Some(e) => Err(e),
        None => if is_stateful_standard_request(setup) {
            Err(ConversionError::StatefulStandardRequest { request: setup.request })
        } else if setup.request_type.kind() == RequestKind::STANDARD {
            match spec_standard_control_transfer(setup, data) {
                Some(r) => Ok(r),
                None => Ok(spec_generic_control_transfer(setup, data)),
            }
        } else if setup.request_type.kind() == RequestKind::CLASS || setup.request_type.kind()
            == RequestKind::VENDOR {
            match spec_vendor_or_class_function(setup.request_type.kind(), setup.request_type.recipient()) {
                Some(func) => Ok(spec_vendor_class_transfer(setup, data, func)),
                None => Ok(spec_generic_control_transfer(setup, data)),
            }
        } else {
            Ok(spec_generic_control_transfer(setup, data))
        },
    }
}

/// The configuration descriptor RDPEUSB carries: the 9-byte header fields and
/// every byte after them.
pub open spec fn spec_configuration_descriptor(d: ConfigurationModel) -> Result<SpecUsbConfigDesc, ConversionError> {
    if d.header.length != USB_CONFIG_DESC_FIXED_PART_SIZE {
        Err(ConversionError::InvalidConfigurationHeaderLength { actual: d.header.length })
    } else {
        Ok(
            SpecUsbConfigDesc {
                length: d.header.length,
                descriptor_type: d.header.descriptor_type,
                total_length: d.header.total_length,
                num_interfaces: d.header.num_interfaces,
                configuration_value: d.header.configuration_value,
                configuration: d.header.configuration_string,
                attributes: d.header.attributes,
                max_power: d.header.max_power,
                trailing: d.bytes.skip(USB_CONFIG_DESC_FIXED_PART_SIZE as int),
            },
        )
    }
}

/// The interface information of each selection, in the caller's order; the
/// first selection that repeats an interface number, names no interface
/// descriptor, or has invalid information gives the error.
pub open spec fn spec_selected_interfaces(
    interfaces: Seq<InterfaceModel>,
    active: Seq<InterfaceSelection>,
    speed: UsbSpeed,
) -> Result<Seq<SpecTsUsbdInterfaceInfo>, ConversionError>
    decreases active.len(),
{
    if active.len() == 0 {
        Ok(seq![])
    } else {
        match spec_selected_interfaces(interfaces, active.drop_last(), speed) {
            Err(e) => Err(e),
            Ok(previous) => {
                let selection = active.last();
                if exists|j: int|
                    0 <= j < active.len() - 1 && #[trigger] active[j].interface == selection.interface {
                    Err(ConversionError::DuplicateInterface { interface: selection.interface })
                } else {
                    match find_interface(interfaces, selection.interface, selection.alternate_setting) {
                        None => Err(ConversionError::InterfaceNotFound { selection }),
                        Some(i) => match spec_interface_information(i, speed) {
                            Err(e) => Err(e),
                            Ok(info) => Ok(previous.push(info)),
                        },
                    }
                }
            },
        }
    }
}

/// The number of the first interface descriptor whose interface no selection
/// names.
pub open spec fn first_unselected_interface(interfaces: Seq<InterfaceModel>, active: Seq<InterfaceSelection>) -> Option<u8>
    decreases interfaces.len(),
{
    if interfaces.len() == 0 {
        None
    } else if exists|j: int| 0 <= j < active.len() && #[trigger] active[j].interface == interfaces[0].number {
        first_unselected_interface(interfaces.drop_first(), active)
    } else {
        Some(interfaces[0].number)
    }
}

/// The number of pipes of all selected interfaces.
pub open spec fn total_pipes(infos: Seq<SpecTsUsbdInterfaceInfo>) -> nat
    decreases infos.len(),
{
    if infos.len() == 0 {
        0
    } else {
        total_pipes(infos.drop_last()) + infos.last().ts_usbd_pipe_info.len()
    }
}

/// The select-configuration TRANSFER_IN_REQUEST.
pub open spec fn spec_select_config_packet(
    usbd_ifaces: Seq<SpecTsUsbdInterfaceInfo>,
    desc: Option<SpecUsbConfigDesc>,
) -> SpecTransferInPacket {
    spec_transfer_in(
        SpecTsUrbInKind::SelectConfig(SpecTsUrbSelectConfig { usbd_ifaces, desc }),
        UrbFunction::URB_FUNCTION_SELECT_CONFIGURATION,
        0,
    )
}

/// The select-configuration request for a configuration (`None` is
/// configuration zero) and the alternate setting of each of its interfaces.
pub open spec fn spec_select_configuration(
    descriptor: Option<ConfigurationModel>,
    active: Seq<InterfaceSelection>,
    speed: UsbSpeed,
) -> Result<SpecTransferInPacket, ConversionError> {
    match descriptor {
        None => if active.len() > 0 {
            Err(ConversionError::UnconfiguredDeviceHasInterfaces)
        } else {
            Ok(spec_select_config_packet(seq![], None))
        },
        Some(d) => {
            let actual = distinct_interface_count(d.interfaces);
            if actual != d.header.num_interfaces {
                Err(ConversionError::InterfaceCountMismatch { declared: d.header.num_interfaces, actual: actual as usize })
            } else {
                match spec_selected_interfaces(d.interfaces, active, speed) {
                    Err(e) => Err(e),
                    Ok(infos) => match first_unselected_interface(d.interfaces, active) {
                        Some(number) => Err(ConversionError::MissingInterfaceSelection { interface: number }),
                        None => if total_pipes(infos) > MAX_NON_DEFAULT_EP_COUNT {
                            Err(ConversionError::TooManyActivePipes { actual: total_pipes(infos) as usize })
                        } else {
                            match spec_configuration_descriptor(d) {
                                Err(e) => Err(e),
                                Ok(desc) => Ok(spec_select_config_packet(infos, Some(desc))),
                            }
                        },
                    },
                }
            }
        },
    }
}

/// The select-interface request for one interface descriptor.
pub open spec fn spec_select_interface(
    config_handle: ConfigHandle,
    interface: InterfaceModel,
    speed: UsbSpeed,
) -> Result<SpecTransferInPacket, ConversionError> {
    match spec_interface_information(interface, speed) {
        Err(e) => Err(e),
        Ok(info) => Ok(
            spec_transfer_in(
                SpecTsUrbInKind::SelectIface(SpecTsUrbSelectInterface { config_handle, usbd_iface: info }),
                UrbFunction::URB_FUNCTION_SELECT_INTERFACE,
                0,
            ),
        ),
    }
}

// ---------------------------------------------------------------------------
// Building blocks
// ---------------------------------------------------------------------------

fn transfer_in(kind: TsUrbInKind, func: UrbFunction, output_buffer_size: u32) -> (r: TransferInPacket)
    ensures
        r@ == spec_transfer_in(kind@, func, output_buffer_size),
{
    TransferInPacket { ts_urb: TsUrbInPacket { kind, func }, output_buffer_size }
}

fn transfer_out(kind: TsUrbOutKind, func: UrbFunction, output_buffer: Vec<u8>) -> (r: TransferOutPacket)
    ensures
        r@ == spec_transfer_out(kind, func, output_buffer@),
{
    TransferOutPacket { ts_urb: TsUrbOutPacket { kind, no_ack: false, func }, output_buffer }
}

fn in_transfer_flags(direction: Direction) -> (r: u32)
    ensures
        r == spec_in_transfer_flags(direction),
{
    match direction {
        Direction::In => USBD_TRANSFER_DIRECTION_IN | USBD_SHORT_TRANSFER_OK,
        Direction::Out => 0,
    }
}

fn rdpeusb_setup_packet(setup: SetupPacket) -> (r: RdpeusbSetupPacket)
    ensures
        r == spec_rdpeusb_setup_packet(setup),
{
    RdpeusbSetupPacket {
        request_type: setup.request_type.raw(),
        request: setup.request,
        value: setup.value,
        index: setup.index,
        length: setup.length,
    }
}

fn descriptor_function(recipient: Recipient, operation: DescriptorOperation) -> (r: Option<UrbFunction>)
    ensures
        r == spec_descriptor_function(recipient, operation),
{
    match (operation, recipient) {
        (DescriptorOperation::Read, Recipient::DEVICE) => Some(UrbFunction::URB_FUNCTION_GET_DESCRIPTOR_FROM_DEVICE),
        (DescriptorOperation::Read, Recipient::INTERFACE) => Some(UrbFunction::URB_FUNCTION_GET_DESCRIPTOR_FROM_INTERFACE),
        (DescriptorOperation::Read, Recipient::ENDPOINT) => Some(UrbFunction::URB_FUNCTION_GET_DESCRIPTOR_FROM_ENDPOINT),
        (DescriptorOperation::Write, Recipient::DEVICE) => Some(UrbFunction::URB_FUNCTION_SET_DESCRIPTOR_TO_DEVICE),
        (DescriptorOperation::Write, Recipient::INTERFACE) => Some(UrbFunction::URB_FUNCTION_SET_DESCRIPTOR_TO_INTERFACE),
        (DescriptorOperation::Write, Recipient::ENDPOINT) => Some(UrbFunction::URB_FUNCTION_SET_DESCRIPTOR_TO_ENDPOINT),
        _ => None,
    }
}

fn feature_function(request: u8, recipient: Recipient) -> (r: Option<UrbFunction>)
    ensures
        r == spec_feature_function(request, recipient),
{
    if request == standard_request::CLEAR_FEATURE {
        match recipient {
            Recipient::DEVICE => Some(UrbFunction::URB_FUNCTION_CLEAR_FEATURE_TO_DEVICE),
            Recipient::INTERFACE => Some(UrbFunction::URB_FUNCTION_CLEAR_FEATURE_TO_INTERFACE),
            Recipient::ENDPOINT => Some(UrbFunction::URB_FUNCTION_CLEAR_FEATURE_TO_ENDPOINT),
            Recipient::OTHER => Some(UrbFunction::URB_FUNCTION_CLEAR_FEATURE_TO_OTHER),
            _ => None,
        }
    } else if request == standard_request::SET_FEATURE {
        match recipient {
            Recipient::DEVICE => Some(UrbFunction::URB_FUNCTION_SET_FEATURE_TO_DEVICE),
            Recipient::INTERFACE => Some(UrbFunction::URB_FUNCTION_SET_FEATURE_TO_INTERFACE),
            Recipient::ENDPOINT => Some(UrbFunction::URB_FUNCTION_SET_FEATURE_TO_ENDPOINT),
            Recipient::OTHER => Some(UrbFunction::URB_FUNCTION_SET_FEATURE_TO_OTHER),
            _ => None,
        }
    } else {
        None
    }
}

fn get_status_function(recipient: Recipient) -> (r: Option<UrbFunction>)
    ensures
        r == spec_get_status_function(recipient),
{
    match recipient {
        Recipient::DEVICE => Some(UrbFunction::URB_FUNCTION_GET_STATUS_FROM_DEVICE),
        Recipient::INTERFACE => Some(UrbFunction::URB_FUNCTION_GET_STATUS_FROM_INTERFACE),
        Recipient::ENDPOINT => Some(UrbFunction::URB_FUNCTION_GET_STATUS_FROM_ENDPOINT),
        Recipient::OTHER => Some(UrbFunction::URB_FUNCTION_GET_STATUS_FROM_OTHER),
        _ => None,
    }
}

fn vendor_or_class_function(kind: RequestKind, recipient: Recipient) -> (r: Option<UrbFunction>)
    ensures
        r == spec_vendor_or_class_function(kind, recipient),
{
    match (kind, recipient) {
        (RequestKind::VENDOR, Recipient::DEVICE) => Some(UrbFunction::URB_FUNCTION_VENDOR_DEVICE),
        (RequestKind::VENDOR, Recipient::INTERFACE) => Some(UrbFunction::URB_FUNCTION_VENDOR_INTERFACE),
        (RequestKind::VENDOR, Recipient::ENDPOINT) => Some(UrbFunction::URB_FUNCTION_VENDOR_ENDPOINT),
        (RequestKind::VENDOR, Recipient::OTHER) => Some(UrbFunction::URB_FUNCTION_VENDOR_OTHER),
        (RequestKind::CLASS, Recipient::DEVICE) => Some(UrbFunction::URB_FUNCTION_CLASS_DEVICE),
        (RequestKind::CLASS, Recipient::INTERFACE) => Some(UrbFunction::URB_FUNCTION_CLASS_INTERFACE),
        (RequestKind::CLASS, Recipient::ENDPOINT) => Some(UrbFunction::URB_FUNCTION_CLASS_ENDPOINT),
        (RequestKind::CLASS, Recipient::OTHER) => Some(UrbFunction::URB_FUNCTION_CLASS_OTHER),
        _ => None,
    }
}

fn validate_control_data(setup: SetupPacket, data: &[u8]) -> (r: Result<(), ConversionError>)
    ensures
        match r {
            Ok(()) => spec_control_data_error(setup, data@.len()) is None,
            Err(e) => spec_control_data_error(setup, data@.len()) == Some(e),
        },
{
    match setup.request_type.direction() {
        Direction::In => if data.len() != 0 {
            Err(ConversionError::InTransferHasData { actual: data.len() })
        } else {
            Ok(())
        },
        Direction::Out => if data.len() != setup.length as usize {
            Err(ConversionError::OutTransferLengthMismatch { expected: setup.length as usize, actual: data.len() })
        } else {
            Ok(())
        },
    }
}

// ---------------------------------------------------------------------------
// Public conversion functions
// ---------------------------------------------------------------------------

/// Build a typed RDPEUSB GET_DESCRIPTOR request.
///
/// RDPEUSB only defines typed descriptor URBs for device, interface, and
/// endpoint recipients. [`control_transfer`] falls back to a generic control
/// URB for other recipients, while this explicitly typed helper returns an
/// error.
pub fn get_descriptor(request: GetDescriptorRequest) -> (r: Result<TransferInPacket, ConversionError>)
    ensures
        match r {
            Ok(p) => spec_get_descriptor(request) == Ok::<SpecTransferInPacket, ConversionError>(p@),
            Err(e) => spec_get_descriptor(request) == Err::<SpecTransferInPacket, ConversionError>(e),
        },
{
    let func = match descriptor_function(request.recipient, DescriptorOperation::Read) {
        Some(func) => func,
        None => {
            return Err(ConversionError::UnsupportedDescriptorRecipient { recipient: request.recipient });
        },
    };
    let urb = TsUrbControlDescRequest {
        index: request.descriptor_index,
        desc_type: request.descriptor_type,
        lang_id: request.index,
    };
    Ok(transfer_in(TsUrbInKind::CtlDescReq(urb), func, request.requested_length as u32))
}

/// Build an RDPEUSB bulk or interrupt IN transfer.
pub fn bulk_or_interrupt_in(pipe_handle: PipeHandle, requested_length: u32) -> (r: TransferInPacket)
    ensures
        r@ == spec_transfer_in(
            SpecTsUrbInKind::BulkInterruptTransfer(
                TsUrbBulkOrInterruptTransfer {
                    pipe_handle,
                    transfer_flags: USBD_TRANSFER_DIRECTION_IN | USBD_SHORT_TRANSFER_OK,
                },
            ),
            UrbFunction::URB_FUNCTION_BULK_OR_INTERRUPT_TRANSFER,
            requested_length,
        ),
{
    transfer_in(
        TsUrbInKind::BulkInterruptTransfer(
            TsUrbBulkOrInterruptTransfer {
                pipe_handle,
                transfer_flags: USBD_TRANSFER_DIRECTION_IN | USBD_SHORT_TRANSFER_OK,
            },
        ),
        UrbFunction::URB_FUNCTION_BULK_OR_INTERRUPT_TRANSFER,
        requested_length,
    )
}

/// Build an RDPEUSB bulk or interrupt OUT transfer.
pub fn bulk_or_interrupt_out(pipe_handle: PipeHandle, data: Vec<u8>) -> (r: TransferOutPacket)
    ensures
        r@ == spec_transfer_out(
            TsUrbOutKind::BulkInterruptTransfer(TsUrbBulkOrInterruptTransfer { pipe_handle, transfer_flags: 0 }),
            UrbFunction::URB_FUNCTION_BULK_OR_INTERRUPT_TRANSFER,
            data@,
        ),
{
    transfer_out(
        TsUrbOutKind::BulkInterruptTransfer(TsUrbBulkOrInterruptTransfer { pipe_handle, transfer_flags: 0 }),
        UrbFunction::URB_FUNCTION_BULK_OR_INTERRUPT_TRANSFER,
        data,
    )
}

/// Convert USB `wMaxPacketSize` semantics into RDPEUSB's effective pipe size.
///
/// High-speed isochronous and interrupt endpoints include the additional
/// transactions per microframe. Other endpoint kinds and speeds reject those
/// high-bandwidth bits instead of silently changing their meaning.
pub fn maximum_packet_size(max_packet_size: MaxPacketSize, transfer_type: TransferType, speed: UsbSpeed) -> (r: Result<u16, u16>)
    ensures
        r == spec_maximum_packet_size(max_packet_size.0, transfer_type, speed),
        r matches Ok(bytes) ==> bytes <= 3 * 0x07ff,
        r matches Err(raw) ==> raw == max_packet_size.0,
{
    let raw = max_packet_size.raw();
    if raw & 0xe000 != 0 {
        return Err(raw);
    }
    let periodic = match transfer_type {
        TransferType::Isochronous | TransferType::Interrupt => true,
        _ => false,
    };
    let high = match speed {
        UsbSpeed::High => true,
        _ => false,
    };
    if high && periodic {
        max_packet_size.high_speed_payload_per_microframe()
    } else if raw & 0x1800 != 0 {
        Err(raw)
    } else {
        Ok(max_packet_size.packet_size())
    }
}

/// The little-endian bytes of a 16-bit value.
fn le_bytes(value: u16) -> (r: (u8, u8))
    ensures
        r.0 == low_byte(value),
        r.1 == high_byte(value),
{
    assert((value & 0xff) as u8 == (value % 256) as u8) by (bit_vector);
    assert((value >> 8u16) as u8 == (value / 256) as u8) by (bit_vector);
    ((value & 0xff) as u8, (value >> 8u16) as u8)
}

/// The typed TS_URB of a canonical standard request, or the data stage back
/// when the request has none.
fn standard_control_transfer(setup: SetupPacket, data: Vec<u8>) -> (r: Result<TransferRequest, Vec<u8>>)
    ensures
        match r {
            Ok(t) => spec_standard_control_transfer(setup, data@) == Some(t@),
            Err(d) => spec_standard_control_transfer(setup, data@) is None && d@ == data@,
        },
{
    let request = match setup.standard_request() {
        Some(request) => request,
        None => {
            return Err(data);
        },
    };
    let recipient = setup.request_type.recipient();
    let direction = setup.request_type.direction();
    let is_in = match direction {
        Direction::In => true,
        Direction::Out => false,
    };
    if request == standard_request::GET_DESCRIPTOR && (setup.length == 0 || is_in) {
        let func = match descriptor_function(recipient, DescriptorOperation::Read) {
            Some(func) => func,
            None => {
                return Err(data);
            },
        };
        let (index, desc_type) = le_bytes(setup.value);
        Ok(
            TransferRequest::In(
                transfer_in(
                    TsUrbInKind::CtlDescReq(TsUrbControlDescRequest { index, desc_type, lang_id: setup.index }),
                    func,
                    setup.length as u32,
                ),
            ),
        )
    } else if request == standard_request::SET_DESCRIPTOR && (setup.length == 0 || !is_in) {
        let func = match descriptor_function(recipient, DescriptorOperation::Write) {
            Some(func) => func,
            None => {
                return Err(data);
            },
        };
        let (index, desc_type) = le_bytes(setup.value);
        Ok(
            TransferRequest::Out(
                transfer_out(
                    TsUrbOutKind::CtlDescReq(TsUrbControlDescRequest { index, desc_type, lang_id: setup.index }),
                    func,
                    data,
                ),
            ),
        )
    } else if request == standard_request::GET_STATUS && is_in && setup.value == 0 && setup.length == 2 {
        let func = match get_status_function(recipient) {
            Some(func) => func,
            None => {
                return Err(data);
            },
        };
        Ok(
            TransferRequest::In(
                transfer_in(
                    TsUrbInKind::CtlGetStatus(TsUrbControlGetStatusRequest { index: setup.index }),
                    func,
                    2,
                ),
            ),
        )
    } else if (request == standard_request::CLEAR_FEATURE || request == standard_request::SET_FEATURE) && !is_in
        && setup.length == 0 {
        let func = match feature_function(request, recipient) {
            Some(func) => func,
            None => {
                return Err(data);
            },
        };
        // MS-RDPEUSB 2.2.9.10 requires this USB host-to-device operation in
        // TRANSFER_IN_REQUEST with an empty output buffer.
        Ok(
            TransferRequest::In(
                transfer_in(
                    TsUrbInKind::CtlFeatReq(TsUrbControlFeatRequest { feat_selector: setup.value, index: setup.index }),
                    func,
                    0,
                ),
            ),
        )
    } else if request == standard_request::GET_CONFIGURATION && is_in && recipient == Recipient::DEVICE
        && setup.value == 0 && setup.index == 0 && setup.length == 1 {
        Ok(
            TransferRequest::In(
                transfer_in(
                    TsUrbInKind::CtlGetConfig(TsUrbControlGetConfigRequest),
                    UrbFunction::URB_FUNCTION_GET_CONFIGURATION,
                    1,
                ),
            ),
        )
    } else if request == standard_request::GET_INTERFACE && is_in && recipient == Recipient::INTERFACE
        && setup.value == 0 && setup.length == 1 {
        Ok(
            TransferRequest::In(
                transfer_in(
                    TsUrbInKind::CtlGetIface(TsUrbControlGetInterfaceRequest { interface: setup.index }),
                    UrbFunction::URB_FUNCTION_GET_INTERFACE,
                    1,
                ),
            ),
        )
    } else {
        Err(data)
    }
}

/// A setup packet preserved losslessly in TS_URB_CONTROL_TRANSFER.
fn generic_control_transfer(setup: SetupPacket, data: Vec<u8>) -> (r: TransferRequest)
    ensures
        r@ == spec_generic_control_transfer(setup, data@),
{
    let direction = setup.request_type.direction();
    let urb = TsUrbControlTransfer {
        pipe: DEFAULT_CONTROL_PIPE_HANDLE,
        transfer_flags: in_transfer_flags(direction) | USBD_DEFAULT_PIPE_TRANSFER,
        setup_packet: rdpeusb_setup_packet(setup),
    };
    match direction {
        Direction::In => TransferRequest::In(
            transfer_in(TsUrbInKind::CtlTransfer(urb), UrbFunction::URB_FUNCTION_CONTROL_TRANSFER, setup.length as u32),
        ),
        Direction::Out => TransferRequest::Out(
            transfer_out(TsUrbOutKind::CtlTransfer(urb), UrbFunction::URB_FUNCTION_CONTROL_TRANSFER, data),
        ),
    }
}

/// Convert a default-control-pipe USB request into an RDPEUSB transfer.
///
/// Canonical standard, class, and vendor requests use the operation-specific
/// TS_URB forms from MS-RDPEUSB sections 2.2.9.9 through 2.2.9.14. Other setup
/// packets are preserved losslessly in `TS_URB_CONTROL_TRANSFER`. Requests
/// whose execution changes host-controller state must be handled by the
/// owning state layer instead of this function.
pub fn control_transfer(setup: SetupPacket, data: Vec<u8>) -> (r: Result<TransferRequest, ConversionError>)
    ensures
        match r {
            Ok(t) => spec_control_transfer(setup, data@) == Ok::<SpecTransferRequest, ConversionError>(t@),
            Err(e) => spec_control_transfer(setup, data@) == Err::<SpecTransferRequest, ConversionError>(e),
        },
{
    match validate_control_data(setup, data.as_slice()) {
        Ok(()) => {},
        Err(e) => {
            return Err(e);
        },
    }
    if let Some(request) = setup.standard_request() {
        if request == standard_request::SET_ADDRESS || request == standard_request::SET_CONFIGURATION
            || request == standard_request::SET_INTERFACE {
            return Err(ConversionError::StatefulStandardRequest { request });
        }
    }
    let kind = setup.request_type.kind();
    let data = match kind {
        RequestKind::STANDARD => match standard_control_transfer(setup, data) {
            Ok(request) => {
                return Ok(request);
            },
            Err(data) => data,
        },
        RequestKind::CLASS | RequestKind::VENDOR => {
            if let Some(func) = vendor_or_class_function(kind, setup.request_type.recipient()) {
                let direction = setup.request_type.direction();
                let urb = TsUrbControlVendorClassRequest {
                    transfer_flags: in_transfer_flags(direction),
                    request: setup.request,
                    value: setup.value,
                    index: setup.index,
                };
                return Ok(
                    match direction {
                        Direction::In => TransferRequest::In(
                            transfer_in(TsUrbInKind::VendorClassReq(urb), func, setup.length as u32),
                        ),
                        Direction::Out => TransferRequest::Out(
                            transfer_out(TsUrbOutKind::VendorClassReq(urb), func, data),
                        ),
                    },
                );
            }
            data
        },
        RequestKind::RESERVED => data,
    };
    Ok(generic_control_transfer(setup, data))
}

/// RDPEUSB interface information for one interface descriptor.
fn interface_information(interface: InterfaceDescriptor<'_>, speed: UsbSpeed) -> (r: Result<TsUsbdInterfaceInfo, ConversionError>)
    ensures
        match r {
            Ok(info) => spec_interface_information(interface@, speed) == Ok::<SpecTsUsbdInterfaceInfo, ConversionError>(info@),
            Err(e) => spec_interface_information(interface@, speed) == Err::<SpecTsUsbdInterfaceInfo, ConversionError>(e),
        },
{
    let ghost model = interface@;
    let selection = InterfaceSelection {
        interface: interface.number(),
        alternate_setting: interface.alternate_setting(),
    };
    let endpoints = interface.endpoints();
    let ghost eps = model.endpoints;
    let pipe_count = endpoints.len();
    if pipe_count != interface.num_endpoints() as usize {
        return Err(
            ConversionError::EndpointCountMismatch {
                selection,
                declared: interface.num_endpoints(),
                actual: pipe_count,
            },
        );
    }
    if pipe_count > MAX_NON_DEFAULT_EP_COUNT {
        return Err(ConversionError::TooManyPipes { selection, actual: pipe_count });
    }
    let mut pipes: Vec<TsUsbdPipeInfo> = Vec::new();
    let mut i: usize = 0;
    proof {
        assert(eps.skip(0) =~= eps);
    }
    while i < pipe_count
        invariant
            i <= pipe_count,
            pipe_count == endpoints@.len(),
            pipe_count == eps.len(),
            pipe_count == model.num_endpoints,
            pipe_count <= MAX_NON_DEFAULT_EP_COUNT,
            eps == interface@.endpoints,
            model == interface@,
            selection == (InterfaceSelection { interface: model.number, alternate_setting: model.alternate_setting }),
            forall|k: int| 0 <= k < pipe_count ==> #[trigger] endpoints@[k]@ == eps[k],
            first_invalid_packet_size(eps, speed) == first_invalid_packet_size(eps.skip(i as int), speed),
            pipes@ == eps.take(i as int).map_values(|e: EndpointModel| spec_pipe(e, speed)),
        decreases pipe_count - i,
    {
        let endpoint = endpoints[i];
        proof {
            assert(endpoint@ == eps[i as int]);
            assert(eps.skip(i as int)[0] == eps[i as int]);
            assert(eps.skip(i as int).drop_first() =~= eps.skip(i + 1));
        }
        let packet_size = maximum_packet_size(endpoint.max_packet_size(), endpoint.transfer_type(), speed);
        proof {
            assert(packet_size == spec_endpoint_packet_size(eps[i as int], speed));
        }
        match packet_size {
            Err(raw) => {
                proof {
                    assert(first_invalid_packet_size(eps.skip(i as int), speed) == Some(raw));
                }
                return Err(ConversionError::InvalidMaximumPacketSize { selection, raw });
            },
            Ok(max_packet_size) => {
                // The client ignores the obsolete USBD maximum transfer size;
                // zero requests its default. No general USB semantic asks for
                // a Windows pipe flag.
                pipes.push(TsUsbdPipeInfo { max_packet_size, max_transfer_size: 0, pipe_flags: 0 });
                proof {
                    assert(eps.take(i + 1) =~= eps.take(i as int).push(eps[i as int]));
                    assert(pipes@ =~= eps.take(i + 1).map_values(|e: EndpointModel| spec_pipe(e, speed)));
                }
            },
        }
        i += 1;
    }
    proof {
        assert(eps.take(pipe_count as int) =~= eps);
        assert(eps.skip(pipe_count as int).len() == 0);
    }
    Ok(
        TsUsbdInterfaceInfo {
            interface_number: selection.interface,
            alternate_setting: selection.alternate_setting,
            ts_usbd_pipe_info: pipes,
        },
    )
}

/// The configuration descriptor as RDPEUSB carries it.
fn configuration_descriptor(descriptor: ConfigurationDescriptorSet<'_>) -> (r: Result<UsbConfigDesc, ConversionError>)
    ensures
        match r {
            Ok(c) => spec_configuration_descriptor(descriptor@) == Ok::<SpecUsbConfigDesc, ConversionError>(c@),
            Err(e) => spec_configuration_descriptor(descriptor@) == Err::<SpecUsbConfigDesc, ConversionError>(e),
        },
{
    let configuration = descriptor.configuration();
    if configuration.length as usize != USB_CONFIG_DESC_FIXED_PART_SIZE {
        return Err(ConversionError::InvalidConfigurationHeaderLength { actual: configuration.length });
    }
    let bytes = descriptor.as_bytes();
    let rest = vstd::slice::slice_subrange(bytes, USB_CONFIG_DESC_FIXED_PART_SIZE, bytes.len());
    let trailing = vstd::slice::slice_to_vec(rest);
    proof {
        assert(trailing@ =~= descriptor@.bytes.skip(USB_CONFIG_DESC_FIXED_PART_SIZE as int));
    }
    Ok(
        UsbConfigDesc {
            length: configuration.length,
            descriptor_type: configuration.descriptor_type,
            total_length: configuration.total_length,
            num_interfaces: configuration.num_interfaces,
            configuration_value: configuration.configuration_value,
            configuration: configuration.configuration_string,
            attributes: configuration.attributes,
            max_power: configuration.max_power,
            trailing,
        },
    )
}

/// Build an RDPEUSB select-interface request for one resolved descriptor.
pub fn select_interface(config_handle: ConfigHandle, interface: InterfaceDescriptor<'_>, speed: UsbSpeed) -> (r: Result<TransferInPacket, ConversionError>)
    ensures
        match r {
            Ok(p) => spec_select_interface(config_handle, interface@, speed) == Ok::<SpecTransferInPacket, ConversionError>(p@),
            Err(e) => spec_select_interface(config_handle, interface@, speed) == Err::<SpecTransferInPacket, ConversionError>(e),
        },
{
    let usbd_iface = match interface_information(interface, speed) {
        Ok(info) => info,
        Err(e) => {
            return Err(e);
        },
    };
    let urb = TsUrbSelectInterface { config_handle, usbd_iface };
    Ok(transfer_in(TsUrbInKind::SelectIface(urb), UrbFunction::URB_FUNCTION_SELECT_INTERFACE, 0))
}

/// Once the selections of a prefix fail, every longer list of selections
/// fails with the same error.
proof fn lemma_selected_interfaces_error_persists(
    interfaces: Seq<InterfaceModel>,
    active: Seq<InterfaceSelection>,
    speed: UsbSpeed,
    k: int,
)
    requires
        0 <= k <= active.len(),
        spec_selected_interfaces(interfaces, active.take(k), speed) is Err,
    ensures
        spec_selected_interfaces(interfaces, active, speed) == spec_selected_interfaces(interfaces, active.take(k), speed),
    decreases active.len() - k,
{
    if k == active.len() {
        assert(active.take(k) =~= active);
    } else {
        let shorter = active.drop_last();
        assert(shorter.take(k) =~= active.take(k));
        lemma_selected_interfaces_error_persists(interfaces, shorter, speed, k);
    }
}

/// Interface numbers are bytes, so at most 256 selections name pairwise
/// different interfaces.
proof fn lemma_distinct_selections_bound(active: Seq<InterfaceSelection>)
    requires
        forall|j: int, k: int| 0 <= j < k < active.len() ==> active[j].interface != active[k].interface,
    ensures
        active.len() <= 256,
{
    let numbers = active.map_values(|s: InterfaceSelection| s.interface as int);
    assert forall|i: int, j: int|
        0 <= i < numbers.len() && 0 <= j < numbers.len() && i != j implies numbers[i] != numbers[j] by {
        if i < j {
            assert(active[i].interface != active[j].interface);
        } else {
            assert(active[j].interface != active[i].interface);
        }
    }
    assert(numbers.no_duplicates());
    numbers.unique_seq_to_set();
    vstd::set_lib::lemma_int_range(0, 256);
    assert forall|x: int| numbers.to_set().contains(x) implies vstd::set_lib::set_int_range(0, 256).contains(x) by {
        assert(numbers.contains(x));
        let i = choose|i: int| 0 <= i < numbers.len() && numbers[i] == x;
        assert(numbers[i] == active[i].interface as int);
    }
    vstd::set_lib::lemma_len_subset(numbers.to_set(), vstd::set_lib::set_int_range(0, 256));
}

/// A successful list of selections names each interface once, and every
/// selected interface has at most 30 pipes.
pub(crate) proof fn lemma_selected_interfaces_ok(
    interfaces: Seq<InterfaceModel>,
    active: Seq<InterfaceSelection>,
    speed: UsbSpeed,
    infos: Seq<SpecTsUsbdInterfaceInfo>,
)
    requires
        spec_selected_interfaces(interfaces, active, speed) == Ok::<Seq<SpecTsUsbdInterfaceInfo>, ConversionError>(
            infos,
        ),
    ensures
        infos.len() == active.len(),
        forall|k: int|
            0 <= k < infos.len() ==> #[trigger] infos[k].ts_usbd_pipe_info.len() <= MAX_NON_DEFAULT_EP_COUNT,
        forall|j: int, k: int| 0 <= j < k < active.len() ==> active[j].interface != active[k].interface,
    decreases active.len(),
{
    if active.len() > 0 {
        let shorter = active.drop_last();
        match spec_selected_interfaces(interfaces, shorter, speed) {
            Ok(previous) => {
                lemma_selected_interfaces_ok(interfaces, shorter, speed, previous);
                let selection = active.last();
                let i = find_interface(interfaces, selection.interface, selection.alternate_setting).unwrap();
                let info = spec_interface_information(i, speed)->Ok_0;
                assert(infos == previous.push(info));
                assert(info.ts_usbd_pipe_info.len() == i.endpoints.len());
                assert forall|k: int| 0 <= k < infos.len() implies #[trigger] infos[k].ts_usbd_pipe_info.len()
                    <= MAX_NON_DEFAULT_EP_COUNT by {
                    if k < previous.len() {
                        assert(infos[k] == previous[k]);
                    }
                }
                assert forall|j: int, k: int| 0 <= j < k < active.len() implies active[j].interface
                    != active[k].interface by {
                    if k == active.len() - 1 {
                        if active[j].interface == selection.interface {
                            assert(exists|jj: int|
                                0 <= jj < active.len() - 1 && #[trigger] active[jj].interface
                                    == selection.interface);
                        }
                    } else {
                        assert(shorter[j] == active[j] && shorter[k] == active[k]);
                    }
                }
            },
            Err(_) => {},
        }
    }
}

/// Whether the selection at `index` repeats the interface of an earlier one.
fn repeats_earlier_selection(active: &[InterfaceSelection], index: usize) -> (r: bool)
    requires
        index < active@.len(),
    ensures
        r == exists|j: int| 0 <= j < index && #[trigger] active@[j].interface == active@[index as int].interface,
{
    let interface = active[index].interface;
    let mut previous: usize = 0;
    while previous < index
        invariant
            previous <= index,
            index < active@.len(),
            interface == active@[index as int].interface,
            forall|j: int| 0 <= j < previous ==> #[trigger] active@[j].interface != interface,
        decreases index - previous,
    {
        if active[previous].interface == interface {
            assert(active@[previous as int].interface == interface);
            return true;
        }
        previous += 1;
    }
    false
}

/// Whether some selection names interface `number`.
fn is_selected(active: &[InterfaceSelection], number: u8) -> (r: bool)
    ensures
        r == exists|j: int| 0 <= j < active@.len() && #[trigger] active@[j].interface == number,
{
    let mut k: usize = 0;
    while k < active.len()
        invariant
            k <= active@.len(),
            forall|j: int| 0 <= j < k ==> #[trigger] active@[j].interface != number,
        decreases active@.len() - k,
    {
        if active[k].interface == number {
            assert(active@[k as int].interface == number);
            return true;
        }
        k += 1;
    }
    false
}

/// The interface information of each selection, in the caller's order.
fn selected_interfaces(
    descriptor: ConfigurationDescriptorSet<'_>,
    active_interfaces: &[InterfaceSelection],
    speed: UsbSpeed,
) -> (r: Result<Vec<TsUsbdInterfaceInfo>, ConversionError>)
    ensures
        match r {
            Ok(v) => spec_selected_interfaces(descriptor@.interfaces, active_interfaces@, speed) == Ok::<
                Seq<SpecTsUsbdInterfaceInfo>,
                ConversionError,
            >(v@.map_values(|x: TsUsbdInterfaceInfo| x@)),
            Err(e) => spec_selected_interfaces(descriptor@.interfaces, active_interfaces@, speed) == Err::<
                Seq<SpecTsUsbdInterfaceInfo>,
                ConversionError,
            >(e),
        },
{
    let ghost d = descriptor@;
    let ghost active = active_interfaces@;
    let n = active_interfaces.len();
    let mut usbd_ifaces: Vec<TsUsbdInterfaceInfo> = Vec::new();
    let mut index: usize = 0;
    proof {
        assert(active.take(0) =~= Seq::<InterfaceSelection>::empty());
        assert(usbd_ifaces@.map_values(|x: TsUsbdInterfaceInfo| x@) =~= Seq::<SpecTsUsbdInterfaceInfo>::empty());
    }
    while index < n
        invariant
            index <= n,
            n == active.len(),
            active == active_interfaces@,
            d == descriptor@,
            spec_selected_interfaces(d.interfaces, active.take(index as int), speed) == Ok::<
                Seq<SpecTsUsbdInterfaceInfo>,
                ConversionError,
            >(usbd_ifaces@.map_values(|x: TsUsbdInterfaceInfo| x@)),
        decreases n - index,
    {
        let selection = active_interfaces[index];
        let ghost prefix = active.take(index + 1);
        let ghost infos = usbd_ifaces@.map_values(|x: TsUsbdInterfaceInfo| x@);
        proof {
            assert(prefix.drop_last() =~= active.take(index as int));
            assert(prefix.last() == selection);
        }
        if repeats_earlier_selection(active_interfaces, index) {
            proof {
                let j = choose|j: int|
                    0 <= j < index && #[trigger] active[j].interface == active[index as int].interface;
                assert(prefix[j] == active[j]);
                assert(prefix[j].interface == selection.interface);
                lemma_selected_interfaces_error_persists(d.interfaces, active, speed, index + 1);
            }
            return Err(ConversionError::DuplicateInterface { interface: selection.interface });
        }
        proof {
            assert forall|j: int| 0 <= j < prefix.len() - 1 implies #[trigger] prefix[j].interface
                != selection.interface by {
                assert(prefix[j] == active[j]);
            }
        }
        let interface = match descriptor.interface(selection.interface, selection.alternate_setting) {
            Some(interface) => interface,
            None => {
                proof {
                    lemma_selected_interfaces_error_persists(d.interfaces, active, speed, index + 1);
                }
                return Err(ConversionError::InterfaceNotFound { selection });
            },
        };
        let info = match interface_information(interface, speed) {
            Ok(info) => info,
            Err(e) => {
                proof {
                    lemma_selected_interfaces_error_persists(d.interfaces, active, speed, index + 1);
                }
                return Err(e);
            },
        };
        let ghost info_view = info@;
        usbd_ifaces.push(info);
        proof {
            assert(usbd_ifaces@.map_values(|x: TsUsbdInterfaceInfo| x@) =~= infos.push(info_view));
        }
        index += 1;
    }
    proof {
        assert(active.take(n as int) =~= active);
    }
    Ok(usbd_ifaces)
}

/// The number of the first interface descriptor whose interface no
/// selection names.
fn first_unselected(descriptor: ConfigurationDescriptorSet<'_>, active_interfaces: &[InterfaceSelection]) -> (r:
    Option<u8>)
    ensures
        r == first_unselected_interface(descriptor@.interfaces, active_interfaces@),
{
    let ghost d = descriptor@;
    let interfaces = descriptor.interfaces();
    let count = interfaces.len();
    let mut position: usize = 0;
    proof {
        assert(d.interfaces.skip(0) =~= d.interfaces);
    }
    while position < count
        invariant
            position <= count,
            count == interfaces@.len(),
            count == d.interfaces.len(),
            d == descriptor@,
            forall|k: int| 0 <= k < count ==> #[trigger] interfaces@[k]@ == d.interfaces[k],
            first_unselected_interface(d.interfaces, active_interfaces@) == first_unselected_interface(
                d.interfaces.skip(position as int),
                active_interfaces@,
            ),
        decreases count - position,
    {
        let number = interfaces[position].number();
        let ghost rest = d.interfaces.skip(position as int);
        proof {
            assert(interfaces@[position as int]@ == d.interfaces[position as int]);
            assert(rest[0] == d.interfaces[position as int]);
            assert(rest.drop_first() =~= d.interfaces.skip(position + 1));
        }
        if !is_selected(active_interfaces, number) {
            return Some(number);
        }
        position += 1;
    }
    proof {
        assert(d.interfaces.skip(count as int).len() == 0);
    }
    None
}

/// Build an RDPEUSB select-configuration request.
///
/// `None` represents configuration zero. Otherwise, the complete descriptor
/// set is included, and `active_interfaces` determines the alternate setting
/// requested for every interface number. The interface array preserves caller
/// order.
pub fn select_configuration(
    descriptor: Option<ConfigurationDescriptorSet<'_>>,
    active_interfaces: &[InterfaceSelection],
    speed: UsbSpeed,
) -> (r: Result<TransferInPacket, ConversionError>)
    ensures
        match r {
            Ok(p) => spec_select_configuration(
                match descriptor {
                    Some(d) => Some(d@),
                    None => None,
                },
                active_interfaces@,
                speed,
            ) == Ok::<SpecTransferInPacket, ConversionError>(p@),
            Err(e) => spec_select_configuration(
                match descriptor {
                    Some(d) => Some(d@),
                    None => None,
                },
                active_interfaces@,
                speed,
            ) == Err::<SpecTransferInPacket, ConversionError>(e),
        },
{
    let descriptor = match descriptor {
        None => {
            if active_interfaces.len() != 0 {
                return Err(ConversionError::UnconfiguredDeviceHasInterfaces);
            }
            let urb = TsUrbSelectConfig { usbd_ifaces: Vec::new(), desc: None };
            proof {
                assert(urb@.usbd_ifaces =~= Seq::<SpecTsUsbdInterfaceInfo>::empty());
            }
            return Ok(transfer_in(TsUrbInKind::SelectConfig(urb), UrbFunction::URB_FUNCTION_SELECT_CONFIGURATION, 0));
        },
        Some(descriptor) => descriptor,
    };
    let ghost d = descriptor@;
    let ghost active = active_interfaces@;

    let actual_interface_count = descriptor.distinct_interface_count();
    let declared_interface_count = descriptor.configuration().num_interfaces;
    if actual_interface_count != declared_interface_count as usize {
        return Err(
            ConversionError::InterfaceCountMismatch {
                declared: declared_interface_count,
                actual: actual_interface_count,
            },
        );
    }

    let usbd_ifaces = match selected_interfaces(descriptor, active_interfaces, speed) {
        Ok(usbd_ifaces) => usbd_ifaces,
        Err(e) => {
            return Err(e);
        },
    };
    let ghost infos = usbd_ifaces@.map_values(|x: TsUsbdInterfaceInfo| x@);
    proof {
        lemma_selected_interfaces_ok(d.interfaces, active, speed, infos);
        lemma_distinct_selections_bound(active);
    }

    // Every interface of the configuration needs a selected alternate setting.
    match first_unselected(descriptor, active_interfaces) {
        Some(number) => {
            return Err(ConversionError::MissingInterfaceSelection { interface: number });
        },
        None => {},
    }

    // A device has at most 30 non-default endpoints in total.
    let n = usbd_ifaces.len();
    let mut active_pipe_count: usize = 0;
    let mut k: usize = 0;
    while k < n
        invariant
            k <= n,
            n <= 256,
            n == usbd_ifaces@.len(),
            infos == usbd_ifaces@.map_values(|x: TsUsbdInterfaceInfo| x@),
            forall|j: int|
                0 <= j < infos.len() ==> #[trigger] infos[j].ts_usbd_pipe_info.len() <= MAX_NON_DEFAULT_EP_COUNT,
            active_pipe_count == total_pipes(infos.take(k as int)),
            active_pipe_count <= k * 30,
        decreases n - k,
    {
        let pipes = usbd_ifaces[k].ts_usbd_pipe_info.len();
        proof {
            assert(infos[k as int] == usbd_ifaces@[k as int]@);
            assert(pipes == infos[k as int].ts_usbd_pipe_info.len());
            assert(infos.take(k + 1).drop_last() =~= infos.take(k as int));
            assert(k * 30 <= 256 * 30) by (nonlinear_arith)
                requires
                    k <= 256,
            ;
        }
        active_pipe_count = active_pipe_count + pipes;
        k += 1;
    }
    proof {
        assert(infos.take(n as int) =~= infos);
    }
    if active_pipe_count > MAX_NON_DEFAULT_EP_COUNT {
        return Err(ConversionError::TooManyActivePipes { actual: active_pipe_count });
    }

    let desc = match configuration_descriptor(descriptor) {
        Ok(desc) => desc,
        Err(e) => {
            return Err(e);
        },
    };
    let urb = TsUrbSelectConfig { usbd_ifaces, desc: Some(desc) };
    proof {
        assert(urb@.usbd_ifaces =~= infos);
    }
    Ok(transfer_in(TsUrbInKind::SelectConfig(urb), UrbFunction::URB_FUNCTION_SELECT_CONFIGURATION, 0))
}

} // verus!
