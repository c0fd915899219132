//! Properties of the conversion that span several requests or functions.
use vstd::prelude::*;

use crate::control::standard_request;
use crate::control::{
    encode_request_type, lemma_request_type_round_trip, GetDescriptorRequest, RequestKind, RequestType,
    SetupPacket,
};
use crate::descriptor::{configuration_model, find_interface, is_configuration_set, ConfigurationModel, InterfaceModel};
use crate::endpoint::packet_size_of;
use crate::pdu::{
    SpecTransferInPacket, SpecTsUrbInKind, SpecTsUrbSelectInterface, SpecTsUsbdInterfaceInfo, TsUrbOutKind, UrbFunction,
    MAX_NON_DEFAULT_EP_COUNT, USB_CONFIG_DESC_FIXED_PART_SIZE,
};
use crate::usb::{
    first_unselected_interface, high_byte, is_stateful_standard_request, low_byte, spec_control_data_error,
    spec_control_transfer, spec_generic_control_transfer, spec_get_descriptor, spec_in_transfer_flags,
    spec_interface_information, spec_maximum_packet_size, spec_rdpeusb_setup_packet, spec_select_configuration,
    spec_select_interface, spec_selected_interfaces, spec_transfer_in, total_pipes, ConversionError,
    SpecTransferRequest, DEFAULT_CONTROL_PIPE_HANDLE, USBD_DEFAULT_PIPE_TRANSFER,
};
use crate::value::{Direction, InterfaceSelection, TransferType, UsbSpeed};

verus! {

/// The setup packet of a standard GET_DESCRIPTOR request: device to host,
/// the descriptor type in the high byte of `wValue` and its index in the low
/// byte, the language ID or recipient index in `wIndex`.
pub open spec fn get_descriptor_setup(request: GetDescriptorRequest) -> SetupPacket {
    SetupPacket {
        request_type: RequestType(encode_request_type(Direction::In, RequestKind::STANDARD, request.recipient)),
        request: standard_request::GET_DESCRIPTOR,
        value: (request.descriptor_type * 256 + request.descriptor_index) as u16,
        index: request.index,
        length: request.requested_length,
    }
}

/// A typed GET_DESCRIPTOR request succeeds exactly for a device, interface
/// or endpoint recipient, and then gives the same TRANSFER_IN_REQUEST as its
/// setup packet sent through the control pipe. For any other recipient the
/// typed form is refused, while the control pipe falls back to a generic
/// control transfer.
pub proof fn lemma_get_descriptor_matches_control_transfer(request: GetDescriptorRequest)
    requires
        request.recipient.is_valid(),
    ensures
        spec_get_descriptor(request) is Ok <==> (request.recipient is DEVICE || request.recipient is INTERFACE
            || request.recipient is ENDPOINT),
        match spec_get_descriptor(request) {
            Ok(p) => spec_control_transfer(get_descriptor_setup(request), seq![]) == Ok::<
                SpecTransferRequest,
                ConversionError,
            >(SpecTransferRequest::In(p)),
            Err(e) => e == ConversionError::UnsupportedDescriptorRecipient { recipient: request.recipient }
                && spec_control_transfer(get_descriptor_setup(request), seq![]) == Ok::<
                SpecTransferRequest,
                ConversionError,
            >(spec_generic_control_transfer(get_descriptor_setup(request), seq![])),
        },
{
    lemma_request_type_round_trip(Direction::In, RequestKind::STANDARD, request.recipient);
    let setup = get_descriptor_setup(request);
    assert(low_byte(setup.value) == request.descriptor_index);
    assert(high_byte(setup.value) == request.descriptor_type);
}

/// `control_transfer` fails only for a data stage that does not match the
/// setup packet (checked first) or for a request that changes
/// host-controller state; every other setup packet is converted.
pub proof fn lemma_control_transfer_errors(setup: SetupPacket, data: Seq<u8>)
    ensures
        spec_control_data_error(setup, data.len()) matches Some(e) ==> spec_control_transfer(setup, data)
            == Err::<SpecTransferRequest, ConversionError>(e),
        spec_control_data_error(setup, data.len()) is None && is_stateful_standard_request(setup)
            ==> spec_control_transfer(setup, data) == Err::<SpecTransferRequest, ConversionError>(
            ConversionError::StatefulStandardRequest { request: setup.request },
        ),
        spec_control_transfer(setup, data) is Err <==> (spec_control_data_error(setup, data.len()) is Some
            || is_stateful_standard_request(setup)),
{
}

/// The transfer envelope and the buffer shape never disagree. A
/// TRANSFER_IN_REQUEST carries no data and asks for `wLength` bytes. A
/// TRANSFER_OUT_REQUEST carries exactly the data stage, asks for an
/// acknowledgement, and is used for a device-to-host request only when there
/// is no data stage at all.
pub proof fn lemma_control_transfer_envelope(setup: SetupPacket, data: Seq<u8>)
    ensures
        match spec_control_transfer(setup, data) {
            Ok(SpecTransferRequest::In(p)) => data.len() == 0 && p.output_buffer_size == setup.length,
            Ok(SpecTransferRequest::Out(p)) => {
                &&& p.output_buffer == data
                &&& data.len() == setup.length
                &&& !p.ts_urb.no_ack
                &&& (setup.request_type.direction() == Direction::Out || setup.length == 0)
            },
            Err(_) => true,
        },
{
}

/// A setup packet that has no typed RDPEUSB form is carried unchanged in a
/// TS_URB_CONTROL_TRANSFER on the default pipe; every TS_URB that carries
/// transfer flags marks the direction of the setup packet.
pub proof fn lemma_control_transfer_is_lossless(setup: SetupPacket, data: Seq<u8>)
    ensures
        match spec_control_transfer(setup, data) {
            Ok(SpecTransferRequest::In(p)) => match p.ts_urb.kind {
                SpecTsUrbInKind::CtlTransfer(urb) => {
                    &&& urb.setup_packet == spec_rdpeusb_setup_packet(setup)
                    &&& urb.pipe == DEFAULT_CONTROL_PIPE_HANDLE
                    &&& urb.transfer_flags == spec_in_transfer_flags(setup.request_type.direction())
                        | USBD_DEFAULT_PIPE_TRANSFER
                    &&& p.ts_urb.func == UrbFunction::URB_FUNCTION_CONTROL_TRANSFER
                },
                SpecTsUrbInKind::VendorClassReq(urb) => urb.transfer_flags == spec_in_transfer_flags(
                    setup.request_type.direction(),
                ) && urb.request == setup.request && urb.value == setup.value && urb.index == setup.index,
                _ => true,
            },
            Ok(SpecTransferRequest::Out(p)) => match p.ts_urb.kind {
                TsUrbOutKind::CtlTransfer(urb) => {
                    &&& urb.setup_packet == spec_rdpeusb_setup_packet(setup)
                    &&& urb.pipe == DEFAULT_CONTROL_PIPE_HANDLE
                    &&& urb.transfer_flags == spec_in_transfer_flags(setup.request_type.direction())
                        | USBD_DEFAULT_PIPE_TRANSFER
                    &&& p.ts_urb.func == UrbFunction::URB_FUNCTION_CONTROL_TRANSFER
                },
                TsUrbOutKind::VendorClassReq(urb) => urb.transfer_flags == spec_in_transfer_flags(
                    setup.request_type.direction(),
                ) && urb.request == setup.request && urb.value == setup.value && urb.index == setup.index,
                _ => true,
            },
            Err(_) => true,
        },
{
}

/// Bits 15..13 of `wMaxPacketSize` are never accepted. Outside high-speed
/// isochronous and interrupt endpoints the high-bandwidth bits 12..11 are
/// refused too and a valid value is used unchanged. A refused value is
/// reported as it was, and an accepted size is at most three transactions of
/// 2047 bytes.
pub proof fn lemma_maximum_packet_size(raw: u16, transfer_type: TransferType, speed: UsbSpeed)
    ensures
        raw & 0xe000 != 0 ==> spec_maximum_packet_size(raw, transfer_type, speed) == Err::<u16, u16>(raw),
        !(speed == UsbSpeed::High && (transfer_type == TransferType::Isochronous || transfer_type
            == TransferType::Interrupt)) ==> spec_maximum_packet_size(raw, transfer_type, speed) == (if raw
            & 0xf800 == 0 {
            Ok::<u16, u16>(raw)
        } else {
            Err::<u16, u16>(raw)
        }),
        spec_maximum_packet_size(raw, transfer_type, speed) matches Err(e) ==> e == raw,
        spec_maximum_packet_size(raw, transfer_type, speed) matches Ok(size) ==> size <= 3 * 0x07ff,
{
    assert(raw & 0xf800 == 0 <==> (raw & 0xe000 == 0 && raw & 0x1800 == 0)) by (bit_vector);
    assert(raw & 0xf800 == 0 ==> raw & 0x07ff == raw) by (bit_vector);
    assert(raw & 0x07ff <= 0x07ff) by (bit_vector);
    assert((raw >> 11u16) & 0x03 <= 3) by (bit_vector);
    assert(packet_size_of(raw) <= 0x07ff);
    if spec_maximum_packet_size(raw, transfer_type, speed) is Ok {
        let size = packet_size_of(raw) as int;
        let extra = ((raw >> 11u16) & 0x03) as int;
        assert(size * (extra + 1) <= 3 * 0x07ff || extra == 3) by (nonlinear_arith)
            requires
                0 <= size <= 0x07ff,
                0 <= extra <= 3,
        ;
    }
}

/// The interface descriptor `find_interface` gives has the number and
/// alternate setting it was asked for.
proof fn lemma_find_interface_matches(interfaces: Seq<InterfaceModel>, number: u8, alternate_setting: u8)
    ensures
        find_interface(interfaces, number, alternate_setting) matches Some(m) ==> m.number == number
            && m.alternate_setting == alternate_setting,
    decreases interfaces.len(),
{
    if interfaces.len() > 0 {
        lemma_find_interface_matches(interfaces.drop_first(), number, alternate_setting);
    }
}

/// The interface information of the first interface descriptor with the
/// number and alternate setting of a selection.
pub open spec fn resolved_interface_information(
    interfaces: Seq<InterfaceModel>,
    selection: InterfaceSelection,
    speed: UsbSpeed,
) -> Result<SpecTsUsbdInterfaceInfo, ConversionError> {
    match find_interface(interfaces, selection.interface, selection.alternate_setting) {
        Some(m) => spec_interface_information(m, speed),
        None => Err(ConversionError::InterfaceNotFound { selection }),
    }
}

/// Entry `i` of a successful list of selections is the interface information
/// of the first interface descriptor with the number and alternate setting of
/// selection `i`.
proof fn lemma_selected_interfaces_entries(
    interfaces: Seq<InterfaceModel>,
    active: Seq<InterfaceSelection>,
    speed: UsbSpeed,
    infos: Seq<SpecTsUsbdInterfaceInfo>,
)
    requires
        spec_selected_interfaces(interfaces, active, speed) == Ok::<Seq<SpecTsUsbdInterfaceInfo>, ConversionError>(
            infos,
        ),
    ensures
        infos.len() == active.len(),
        forall|i: int|
            0 <= i < active.len() ==> resolved_interface_information(interfaces, active[i], speed) == Ok::<
                SpecTsUsbdInterfaceInfo,
                ConversionError,
            >(#[trigger] infos[i]),
    decreases active.len(),
{
    if active.len() > 0 {
        let shorter = active.drop_last();
        match spec_selected_interfaces(interfaces, shorter, speed) {
            Ok(previous) => {
                lemma_selected_interfaces_entries(interfaces, shorter, speed, previous);
                let selection = active.last();
                let m = find_interface(interfaces, selection.interface, selection.alternate_setting)->0;
                assert(find_interface(interfaces, selection.interface, selection.alternate_setting) is Some);
                assert(spec_interface_information(m, speed) is Ok);
                let info = spec_interface_information(m, speed)->Ok_0;
                assert(infos == previous.push(info));
                assert forall|i: int| 0 <= i < active.len() implies resolved_interface_information(
                    interfaces,
                    active[i],
                    speed,
                ) == Ok::<SpecTsUsbdInterfaceInfo, ConversionError>(#[trigger] infos[i]) by {
                    if i < shorter.len() {
                        assert(shorter[i] == active[i]);
                        assert(infos[i] == previous[i]);
                    } else {
                        assert(active[i] == selection);
                        assert(infos[i] == info);
                    }
                }
            },
            Err(_) => {},
        }
    }
}

/// When no interface descriptor lacks a selection, every interface number of
/// the configuration is selected.
proof fn lemma_every_interface_selected(interfaces: Seq<InterfaceModel>, active: Seq<InterfaceSelection>)
    requires
        first_unselected_interface(interfaces, active) is None,
    ensures
        forall|k: int|
            0 <= k < interfaces.len() ==> exists|j: int|
                0 <= j < active.len() && active[j].interface == #[trigger] interfaces[k].number,
    decreases interfaces.len(),
{
    if interfaces.len() > 0 {
        let rest = interfaces.drop_first();
        lemma_every_interface_selected(rest, active);
        assert forall|k: int| 0 <= k < interfaces.len() implies exists|j: int|
            0 <= j < active.len() && active[j].interface == #[trigger] interfaces[k].number by {
            if k > 0 {
                assert(interfaces[k] == rest[k - 1]);
            }
        }
    }
}

/// A successful select-configuration request for a configuration descriptor
/// set asks for no output, has one interface entry per selection in the
/// caller's order with the selected interface number and alternate setting,
/// names each interface number once and every interface number of the
/// configuration, has at most 30 pipes in all, and carries the whole
/// descriptor set: the 9-byte header, whose `wTotalLength` is the length of
/// the set, and every byte after it.
pub proof fn lemma_select_configuration_result(
    bytes: Seq<u8>,
    active: Seq<InterfaceSelection>,
    speed: UsbSpeed,
)
    requires
        is_configuration_set(bytes),
        spec_select_configuration(Some(configuration_model(bytes)), active, speed) is Ok,
    ensures
        ({
            let p = spec_select_configuration(Some(configuration_model(bytes)), active, speed)->Ok_0;
            let interfaces = configuration_model(bytes).interfaces;
            &&& p.output_buffer_size == 0
            &&& p.ts_urb.func == UrbFunction::URB_FUNCTION_SELECT_CONFIGURATION
            &&& p.ts_urb.kind matches SpecTsUrbInKind::SelectConfig(urb)
            &&& urb.usbd_ifaces.len() == active.len()
            &&& forall|i: int|
                0 <= i < active.len() ==> (#[trigger] urb.usbd_ifaces[i]).interface_number == active[i].interface
                    && urb.usbd_ifaces[i].alternate_setting == active[i].alternate_setting
            &&& forall|j: int, k: int|
                0 <= j < k < active.len() ==> #[trigger] active[j].interface != #[trigger] active[k].interface
            &&& forall|k: int|
                0 <= k < interfaces.len() ==> exists|j: int|
                    0 <= j < active.len() && active[j].interface == #[trigger] interfaces[k].number
            &&& total_pipes(urb.usbd_ifaces) <= MAX_NON_DEFAULT_EP_COUNT
            &&& urb.desc matches Some(desc)
            &&& desc.length == USB_CONFIG_DESC_FIXED_PART_SIZE
            &&& desc.descriptor_type == bytes[1]
            &&& desc.total_length == bytes.len()
            &&& desc.num_interfaces == bytes[4]
            &&& desc.configuration_value == bytes[5]
            &&& desc.configuration == bytes[6]
            &&& desc.attributes == bytes[7]
            &&& desc.max_power == bytes[8]
            &&& desc.trailing == bytes.skip(USB_CONFIG_DESC_FIXED_PART_SIZE as int)
        }),
{
    let d = configuration_model(bytes);
    let infos = spec_selected_interfaces(d.interfaces, active, speed)->Ok_0;
    lemma_selected_interfaces_entries(d.interfaces, active, speed, infos);
    crate::usb::lemma_selected_interfaces_ok(d.interfaces, active, speed, infos);
    lemma_every_interface_selected(d.interfaces, active);
    assert forall|i: int| 0 <= i < active.len() implies (#[trigger] infos[i]).interface_number
        == active[i].interface && infos[i].alternate_setting == active[i].alternate_setting by {
        assert(resolved_interface_information(d.interfaces, active[i], speed) == Ok::<
            SpecTsUsbdInterfaceInfo,
            ConversionError,
        >(infos[i]));
        lemma_find_interface_matches(d.interfaces, active[i].interface, active[i].alternate_setting);
    }
}

/// The interface entry that a select-configuration request lists for a
/// selection is exactly the one a select-interface request gives for the
/// interface descriptor the selection resolves to.
pub proof fn lemma_select_interface_matches_select_configuration(
    bytes: Seq<u8>,
    active: Seq<InterfaceSelection>,
    speed: UsbSpeed,
    config_handle: u32,
    i: int,
)
    requires
        is_configuration_set(bytes),
        spec_select_configuration(Some(configuration_model(bytes)), active, speed) is Ok,
        0 <= i < active.len(),
    ensures
        ({
            let p = spec_select_configuration(Some(configuration_model(bytes)), active, speed)->Ok_0;
            let found = find_interface(configuration_model(bytes).interfaces, active[i].interface, active[i].alternate_setting);
            &&& found is Some
            &&& p.ts_urb.kind matches SpecTsUrbInKind::SelectConfig(urb)
            &&& spec_select_interface(config_handle, found->0, speed) == Ok::<SpecTransferInPacket, ConversionError>(
                spec_transfer_in(
                    SpecTsUrbInKind::SelectIface(
                        SpecTsUrbSelectInterface { config_handle, usbd_iface: urb.usbd_ifaces[i] },
                    ),
                    UrbFunction::URB_FUNCTION_SELECT_INTERFACE,
                    0,
                ),
            )
        }),
{
    let d = configuration_model(bytes);
    let infos = spec_selected_interfaces(d.interfaces, active, speed)->Ok_0;
    lemma_selected_interfaces_entries(d.interfaces, active, speed, infos);
    assert(resolved_interface_information(d.interfaces, active[i], speed) == Ok::<
        SpecTsUsbdInterfaceInfo,
        ConversionError,
    >(infos[i]));
}

/// The URB functions that go with each TS_URB form of a TRANSFER_IN_REQUEST.
pub open spec fn in_form_allows(kind: SpecTsUrbInKind, func: UrbFunction) -> bool {
    match kind {
        SpecTsUrbInKind::SelectConfig(_) => func == UrbFunction::URB_FUNCTION_SELECT_CONFIGURATION,
        SpecTsUrbInKind::SelectIface(_) => func == UrbFunction::URB_FUNCTION_SELECT_INTERFACE,
        SpecTsUrbInKind::CtlDescReq(_) => func == UrbFunction::URB_FUNCTION_GET_DESCRIPTOR_FROM_DEVICE || func
            == UrbFunction::URB_FUNCTION_GET_DESCRIPTOR_FROM_INTERFACE || func
            == UrbFunction::URB_FUNCTION_GET_DESCRIPTOR_FROM_ENDPOINT,
        SpecTsUrbInKind::CtlFeatReq(_) => func == UrbFunction::URB_FUNCTION_SET_FEATURE_TO_DEVICE || func
            == UrbFunction::URB_FUNCTION_SET_FEATURE_TO_INTERFACE || func
            == UrbFunction::URB_FUNCTION_SET_FEATURE_TO_ENDPOINT || func
            == UrbFunction::URB_FUNCTION_SET_FEATURE_TO_OTHER || func
            == UrbFunction::URB_FUNCTION_CLEAR_FEATURE_TO_DEVICE || func
            == UrbFunction::URB_FUNCTION_CLEAR_FEATURE_TO_INTERFACE || func
            == UrbFunction::URB_FUNCTION_CLEAR_FEATURE_TO_ENDPOINT || func
            == UrbFunction::URB_FUNCTION_CLEAR_FEATURE_TO_OTHER,
        SpecTsUrbInKind::CtlGetStatus(_) => func == UrbFunction::URB_FUNCTION_GET_STATUS_FROM_DEVICE || func
            == UrbFunction::URB_FUNCTION_GET_STATUS_FROM_INTERFACE || func
            == UrbFunction::URB_FUNCTION_GET_STATUS_FROM_ENDPOINT || func
            == UrbFunction::URB_FUNCTION_GET_STATUS_FROM_OTHER,
        SpecTsUrbInKind::CtlGetConfig(_) => func == UrbFunction::URB_FUNCTION_GET_CONFIGURATION,
        SpecTsUrbInKind::CtlGetIface(_) => func == UrbFunction::URB_FUNCTION_GET_INTERFACE,
        SpecTsUrbInKind::VendorClassReq(_) => vendor_or_class_urb_function(func),
        SpecTsUrbInKind::CtlTransfer(_) => func == UrbFunction::URB_FUNCTION_CONTROL_TRANSFER,
        SpecTsUrbInKind::BulkInterruptTransfer(_) => func == UrbFunction::URB_FUNCTION_BULK_OR_INTERRUPT_TRANSFER,
    }
}

/// The URB functions of vendor and class requests.
pub open spec fn vendor_or_class_urb_function(func: UrbFunction) -> bool {
    func == UrbFunction::URB_FUNCTION_VENDOR_DEVICE || func == UrbFunction::URB_FUNCTION_VENDOR_INTERFACE
        || func == UrbFunction::URB_FUNCTION_VENDOR_ENDPOINT || func == UrbFunction::URB_FUNCTION_VENDOR_OTHER
        || func == UrbFunction::URB_FUNCTION_CLASS_DEVICE || func == UrbFunction::URB_FUNCTION_CLASS_INTERFACE
        || func == UrbFunction::URB_FUNCTION_CLASS_ENDPOINT || func == UrbFunction::URB_FUNCTION_CLASS_OTHER
}

/// The URB functions that go with each TS_URB form of a TRANSFER_OUT_REQUEST.
pub open spec fn out_form_allows(kind: TsUrbOutKind, func: UrbFunction) -> bool {
    match kind {
        TsUrbOutKind::CtlDescReq(_) => func == UrbFunction::URB_FUNCTION_SET_DESCRIPTOR_TO_DEVICE || func
            == UrbFunction::URB_FUNCTION_SET_DESCRIPTOR_TO_INTERFACE || func
            == UrbFunction::URB_FUNCTION_SET_DESCRIPTOR_TO_ENDPOINT,
        TsUrbOutKind::VendorClassReq(_) => vendor_or_class_urb_function(func),
        TsUrbOutKind::CtlTransfer(_) => func == UrbFunction::URB_FUNCTION_CONTROL_TRANSFER,
        TsUrbOutKind::BulkInterruptTransfer(_) => func == UrbFunction::URB_FUNCTION_BULK_OR_INTERRUPT_TRANSFER,
    }
}

/// The TS_URB form and the URB function of a transfer request go together.
pub open spec fn form_agrees(request: SpecTransferRequest) -> bool {
    match request {
        SpecTransferRequest::In(p) => in_form_allows(p.ts_urb.kind, p.ts_urb.func),
        SpecTransferRequest::Out(p) => out_form_allows(p.ts_urb.kind, p.ts_urb.func),
    }
}

/// No request pairs a TS_URB form with a URB function of another form:
/// whatever `control_transfer`, `get_descriptor`, `select_configuration` and
/// `select_interface` build, the function belongs to the form.
pub proof fn lemma_urb_function_matches_form(
    setup: SetupPacket,
    data: Seq<u8>,
    request: GetDescriptorRequest,
    descriptor: Option<ConfigurationModel>,
    active: Seq<InterfaceSelection>,
    config_handle: u32,
    interface: InterfaceModel,
    speed: UsbSpeed,
)
    ensures
        spec_control_transfer(setup, data) matches Ok(r) ==> form_agrees(r),
        spec_get_descriptor(request) matches Ok(p) ==> form_agrees(SpecTransferRequest::In(p)),
        spec_select_configuration(descriptor, active, speed) matches Ok(p) ==> form_agrees(
            SpecTransferRequest::In(p),
        ),
        spec_select_interface(config_handle, interface, speed) matches Ok(p) ==> form_agrees(
            SpecTransferRequest::In(p),
        ),
{
}

} // verus!
