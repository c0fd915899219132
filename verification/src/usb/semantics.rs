//! What the conversion means, stated without the conversion's own
//! definitions: packet sizes from the USB rules for `wMaxPacketSize`, URB
//! functions by the operation and recipient their names carry, and the
//! selections for which a configuration request succeeds.
use vstd::prelude::*;

use crate::control::standard_request;
use crate::control::{Recipient, RequestKind, SetupPacket};
use crate::descriptor::{
    configuration_model, distinct_interface_count, find_interface, is_configuration_set, EndpointModel,
    InterfaceModel,
};
use crate::pdu::{SpecTsUrbInKind, SpecTsUsbdInterfaceInfo, TsUrbOutKind, UrbFunction};
use crate::usb::{
    first_invalid_packet_size, first_unselected_interface, spec_control_transfer, spec_endpoint_packet_size,
    spec_get_descriptor, spec_interface_information, spec_maximum_packet_size, spec_select_configuration,
    spec_select_interface, spec_selected_interfaces, total_pipes, ConversionError, SpecTransferRequest,
};
use crate::value::{transfer_type_of_code, Direction, InterfaceSelection, TransferType, UsbSpeed};

verus! {

// ---------------------------------------------------------------------------
// Packet sizes
// ---------------------------------------------------------------------------

/// The bytes per (micro)frame a pipe of an endpoint carries, by the USB
/// rules: `wMaxPacketSize` below 2^13; for a high-speed isochronous or
/// interrupt endpoint `raw / 2048` more transactions of `raw % 2048` bytes
/// each (three more is reserved); elsewhere no additional transactions at
/// all, so the size is the raw value. `None` for an invalid value.
pub open spec fn effective_packet_size(raw: u16, transfer_type: TransferType, speed: UsbSpeed) -> Option<int> {
    let periodic = transfer_type == TransferType::Isochronous || transfer_type == TransferType::Interrupt;
    if raw >= 0x2000 {
        None
    } else if speed == UsbSpeed::High && periodic {
        if raw / 2048 == 3 {
            None
        } else {
            Some((raw % 2048) * (raw / 2048 + 1))
        }
    } else if raw >= 0x0800 {
        None
    } else {
        Some(raw as int)
    }
}

/// The effective packet size of an endpoint descriptor, its transfer type
/// taken from `bmAttributes` bits 1..0.
pub open spec fn endpoint_effective_size(e: EndpointModel, speed: UsbSpeed) -> Option<int> {
    effective_packet_size(e.max_packet_size, transfer_type_of_code(e.attributes & 0x03), speed)
}

/// `maximum_packet_size` gives the effective packet size of the USB rules,
/// and refuses exactly the values those rules make invalid, reporting them
/// unchanged. In bit terms: a high-speed isochronous or interrupt endpoint
/// with bits 15..13 clear and an additional-transactions code `m` below 3
/// moves `(raw & 0x7ff) * (m + 1)` bytes.
pub proof fn lemma_maximum_packet_size_is_effective_size(raw: u16, transfer_type: TransferType, speed: UsbSpeed)
    ensures
        match effective_packet_size(raw, transfer_type, speed) {
            Some(v) => 0 <= v <= 3 * 0x07ff && spec_maximum_packet_size(raw, transfer_type, speed) == Ok::<
                u16,
                u16,
            >(v as u16),
            None => spec_maximum_packet_size(raw, transfer_type, speed) == Err::<u16, u16>(raw),
        },
        speed == UsbSpeed::High && (transfer_type == TransferType::Isochronous || transfer_type
            == TransferType::Interrupt) && raw & 0xe000 == 0 && (raw >> 11u16) & 0x03 < 3
            ==> spec_maximum_packet_size(raw, transfer_type, speed) == Ok::<u16, u16>(
            ((raw & 0x07ff) * (((raw >> 11u16) & 0x03) + 1)) as u16,
        ),
{
    assert(raw & 0xe000 != 0 <==> raw >= 0x2000) by (bit_vector);
    assert(raw < 0x2000 ==> (raw >> 11u16) & 0x03 == raw / 2048) by (bit_vector);
    assert(raw & 0x07ff == raw % 2048) by (bit_vector);
    assert(raw < 0x2000 ==> (raw & 0x1800 != 0 <==> raw >= 0x0800)) by (bit_vector);
    assert(raw < 0x0800 ==> raw & 0x07ff == raw) by (bit_vector);
    let p = (raw % 2048) as int;
    let m = (raw / 2048) as int;
    if m <= 2 {
        assert(p * (m + 1) <= 3 * 0x07ff) by (nonlinear_arith)
            requires
                0 <= p < 2048,
                0 <= m <= 2,
        ;
        assert(p * (m + 1) >= 0) by (nonlinear_arith)
            requires
                0 <= p,
                0 <= m,
        ;
    }
}

/// An endpoint's packet size is valid exactly when its effective size
/// exists, and then it is that size.
proof fn lemma_endpoint_packet_size(e: EndpointModel, speed: UsbSpeed)
    ensures
        match endpoint_effective_size(e, speed) {
            Some(v) => spec_endpoint_packet_size(e, speed) == Ok::<u16, u16>(v as u16) && 0 <= v <= 3 * 0x07ff,
            None => spec_endpoint_packet_size(e, speed) is Err,
        },
{
    lemma_maximum_packet_size_is_effective_size(
        e.max_packet_size,
        transfer_type_of_code(e.attributes & 0x03),
        speed,
    );
}

/// No endpoint of a list has an invalid packet size when each has an
/// effective size.
proof fn lemma_no_invalid_packet_size(endpoints: Seq<EndpointModel>, speed: UsbSpeed)
    requires
        forall|k: int| 0 <= k < endpoints.len() ==> #[trigger] endpoint_effective_size(endpoints[k], speed) is Some,
    ensures
        first_invalid_packet_size(endpoints, speed) is None,
    decreases endpoints.len(),
{
    if endpoints.len() > 0 {
        let rest = endpoints.drop_first();
        assert forall|k: int| 0 <= k < rest.len() implies #[trigger] endpoint_effective_size(rest[k], speed) is Some by {
            assert(rest[k] == endpoints[k + 1]);
        }
        lemma_no_invalid_packet_size(rest, speed);
        assert(endpoint_effective_size(endpoints[0], speed) is Some);
        lemma_endpoint_packet_size(endpoints[0], speed);
    }
}

/// An interface descriptor can be selected when it is followed by as many
/// endpoint descriptors as it declares, at most 30, each with an effective
/// packet size.
pub open spec fn interface_selectable(i: InterfaceModel, speed: UsbSpeed) -> bool {
    &&& i.endpoints.len() == i.num_endpoints
    &&& i.endpoints.len() <= 30
    &&& forall|k: int| 0 <= k < i.endpoints.len() ==> #[trigger] endpoint_effective_size(i.endpoints[k], speed) is Some
}

/// The interface information of an interface descriptor names the interface
/// and its alternate setting and has one pipe per endpoint, in order, whose
/// maximum packet size is the endpoint's effective packet size (additional
/// high-speed transactions included), with no transfer size and no pipe
/// flags; it exists exactly for a selectable interface.
pub proof fn lemma_interface_information_pipes(i: InterfaceModel, speed: UsbSpeed)
    ensures
        spec_interface_information(i, speed) is Ok <==> interface_selectable(i, speed),
        spec_interface_information(i, speed) matches Ok(info) ==> {
            &&& info.interface_number == i.number
            &&& info.alternate_setting == i.alternate_setting
            &&& info.ts_usbd_pipe_info.len() == i.endpoints.len()
            &&& forall|k: int|
                0 <= k < i.endpoints.len() ==> {
                    &&& (#[trigger] info.ts_usbd_pipe_info[k]).max_packet_size as int == endpoint_effective_size(
                        i.endpoints[k],
                        speed,
                    )->0
                    &&& info.ts_usbd_pipe_info[k].max_transfer_size == 0
                    &&& info.ts_usbd_pipe_info[k].pipe_flags == 0
                }
        },
{
    if interface_selectable(i, speed) {
        lemma_no_invalid_packet_size(i.endpoints, speed);
    }
    if spec_interface_information(i, speed) is Ok {
        lemma_first_invalid_none(i.endpoints, speed);
        let info = spec_interface_information(i, speed)->Ok_0;
        assert forall|k: int| 0 <= k < i.endpoints.len() implies {
            &&& (#[trigger] info.ts_usbd_pipe_info[k]).max_packet_size as int == endpoint_effective_size(
                i.endpoints[k],
                speed,
            )->0
            &&& info.ts_usbd_pipe_info[k].max_transfer_size == 0
            &&& info.ts_usbd_pipe_info[k].pipe_flags == 0
        } by {
            lemma_endpoint_packet_size(i.endpoints[k], speed);
        }
    }
}

/// When no endpoint of a list has an invalid packet size, every endpoint has
/// an effective size.
proof fn lemma_first_invalid_none(endpoints: Seq<EndpointModel>, speed: UsbSpeed)
    requires
        first_invalid_packet_size(endpoints, speed) is None,
    ensures
        forall|k: int| 0 <= k < endpoints.len() ==> #[trigger] endpoint_effective_size(endpoints[k], speed) is Some,
    decreases endpoints.len(),
{
    if endpoints.len() > 0 {
        let rest = endpoints.drop_first();
        lemma_first_invalid_none(rest, speed);
        lemma_endpoint_packet_size(endpoints[0], speed);
        assert forall|k: int| 0 <= k < endpoints.len() implies #[trigger] endpoint_effective_size(
            endpoints[k],
            speed,
        ) is Some by {
            if k > 0 {
                assert(endpoints[k] == rest[k - 1]);
            }
        }
    }
}

/// A select-interface request carries the configuration handle and the
/// interface information of the descriptor: one pipe per endpoint with the
/// endpoint's effective packet size. It succeeds exactly for a selectable
/// interface.
pub proof fn lemma_select_interface_meaning(config_handle: u32, i: InterfaceModel, speed: UsbSpeed)
    ensures
        spec_select_interface(config_handle, i, speed) is Ok <==> interface_selectable(i, speed),
        spec_select_interface(config_handle, i, speed) matches Ok(p) ==> {
            &&& p.ts_urb.func == UrbFunction::URB_FUNCTION_SELECT_INTERFACE
            &&& p.output_buffer_size == 0
            &&& p.ts_urb.kind matches SpecTsUrbInKind::SelectIface(u)
            &&& u.config_handle == config_handle
            &&& u.usbd_iface.interface_number == i.number
            &&& u.usbd_iface.alternate_setting == i.alternate_setting
            &&& u.usbd_iface.ts_usbd_pipe_info.len() == i.endpoints.len()
            &&& forall|k: int|
                0 <= k < i.endpoints.len() ==> (#[trigger] u.usbd_iface.ts_usbd_pipe_info[k]).max_packet_size as int
                    == endpoint_effective_size(i.endpoints[k], speed)->0
        },
{
    lemma_interface_information_pipes(i, speed);
}

// ---------------------------------------------------------------------------
// URB functions
// ---------------------------------------------------------------------------

/// The recipient that the name of a URB function ends in (`..._DEVICE`,
/// `..._INTERFACE`, `..._ENDPOINT`, `..._OTHER`), if any.
pub open spec fn function_recipient(func: UrbFunction) -> Option<Recipient> {
    match func {
        UrbFunction::URB_FUNCTION_GET_DESCRIPTOR_FROM_DEVICE | UrbFunction::URB_FUNCTION_SET_DESCRIPTOR_TO_DEVICE
        | UrbFunction::URB_FUNCTION_SET_FEATURE_TO_DEVICE | UrbFunction::URB_FUNCTION_CLEAR_FEATURE_TO_DEVICE
        | UrbFunction::URB_FUNCTION_GET_STATUS_FROM_DEVICE | UrbFunction::URB_FUNCTION_VENDOR_DEVICE
        | UrbFunction::URB_FUNCTION_CLASS_DEVICE => Some(Recipient::DEVICE),
        UrbFunction::URB_FUNCTION_GET_DESCRIPTOR_FROM_INTERFACE
        | UrbFunction::URB_FUNCTION_SET_DESCRIPTOR_TO_INTERFACE | UrbFunction::URB_FUNCTION_SET_FEATURE_TO_INTERFACE
        | UrbFunction::URB_FUNCTION_CLEAR_FEATURE_TO_INTERFACE | UrbFunction::URB_FUNCTION_GET_STATUS_FROM_INTERFACE
        | UrbFunction::URB_FUNCTION_VENDOR_INTERFACE | UrbFunction::URB_FUNCTION_CLASS_INTERFACE => Some(
            Recipient::INTERFACE,
        ),
        UrbFunction::URB_FUNCTION_GET_DESCRIPTOR_FROM_ENDPOINT | UrbFunction::URB_FUNCTION_SET_DESCRIPTOR_TO_ENDPOINT
        | UrbFunction::URB_FUNCTION_SET_FEATURE_TO_ENDPOINT | UrbFunction::URB_FUNCTION_CLEAR_FEATURE_TO_ENDPOINT
        | UrbFunction::URB_FUNCTION_GET_STATUS_FROM_ENDPOINT | UrbFunction::URB_FUNCTION_VENDOR_ENDPOINT
        | UrbFunction::URB_FUNCTION_CLASS_ENDPOINT => Some(Recipient::ENDPOINT),
        UrbFunction::URB_FUNCTION_SET_FEATURE_TO_OTHER | UrbFunction::URB_FUNCTION_CLEAR_FEATURE_TO_OTHER
        | UrbFunction::URB_FUNCTION_GET_STATUS_FROM_OTHER | UrbFunction::URB_FUNCTION_VENDOR_OTHER
        | UrbFunction::URB_FUNCTION_CLASS_OTHER => Some(Recipient::OTHER),
        _ => None,
    }
}

/// The `URB_FUNCTION_CLEAR_FEATURE_TO_*` functions.
pub open spec fn clears_feature(func: UrbFunction) -> bool {
    func == UrbFunction::URB_FUNCTION_CLEAR_FEATURE_TO_DEVICE || func
        == UrbFunction::URB_FUNCTION_CLEAR_FEATURE_TO_INTERFACE || func
        == UrbFunction::URB_FUNCTION_CLEAR_FEATURE_TO_ENDPOINT || func == UrbFunction::URB_FUNCTION_CLEAR_FEATURE_TO_OTHER
}

/// The `URB_FUNCTION_SET_FEATURE_TO_*` functions.
pub open spec fn sets_feature(func: UrbFunction) -> bool {
    func == UrbFunction::URB_FUNCTION_SET_FEATURE_TO_DEVICE || func == UrbFunction::URB_FUNCTION_SET_FEATURE_TO_INTERFACE
        || func == UrbFunction::URB_FUNCTION_SET_FEATURE_TO_ENDPOINT || func
        == UrbFunction::URB_FUNCTION_SET_FEATURE_TO_OTHER
}

/// The `URB_FUNCTION_GET_DESCRIPTOR_FROM_*` functions.
pub open spec fn gets_descriptor(func: UrbFunction) -> bool {
    func == UrbFunction::URB_FUNCTION_GET_DESCRIPTOR_FROM_DEVICE || func
        == UrbFunction::URB_FUNCTION_GET_DESCRIPTOR_FROM_INTERFACE || func
        == UrbFunction::URB_FUNCTION_GET_DESCRIPTOR_FROM_ENDPOINT
}

/// The `URB_FUNCTION_SET_DESCRIPTOR_TO_*` functions.
pub open spec fn sets_descriptor(func: UrbFunction) -> bool {
    func == UrbFunction::URB_FUNCTION_SET_DESCRIPTOR_TO_DEVICE || func
        == UrbFunction::URB_FUNCTION_SET_DESCRIPTOR_TO_INTERFACE || func
        == UrbFunction::URB_FUNCTION_SET_DESCRIPTOR_TO_ENDPOINT
}

/// The `URB_FUNCTION_GET_STATUS_FROM_*` functions.
pub open spec fn gets_status(func: UrbFunction) -> bool {
    func == UrbFunction::URB_FUNCTION_GET_STATUS_FROM_DEVICE || func == UrbFunction::URB_FUNCTION_GET_STATUS_FROM_INTERFACE
        || func == UrbFunction::URB_FUNCTION_GET_STATUS_FROM_ENDPOINT || func
        == UrbFunction::URB_FUNCTION_GET_STATUS_FROM_OTHER
}

/// The `URB_FUNCTION_VENDOR_*` functions.
pub open spec fn vendor_function(func: UrbFunction) -> bool {
    func == UrbFunction::URB_FUNCTION_VENDOR_DEVICE || func == UrbFunction::URB_FUNCTION_VENDOR_INTERFACE || func
        == UrbFunction::URB_FUNCTION_VENDOR_ENDPOINT || func == UrbFunction::URB_FUNCTION_VENDOR_OTHER
}

/// The `URB_FUNCTION_CLASS_*` functions.
pub open spec fn class_function(func: UrbFunction) -> bool {
    func == UrbFunction::URB_FUNCTION_CLASS_DEVICE || func == UrbFunction::URB_FUNCTION_CLASS_INTERFACE || func
        == UrbFunction::URB_FUNCTION_CLASS_ENDPOINT || func == UrbFunction::URB_FUNCTION_CLASS_OTHER
}

/// A typed GET_DESCRIPTOR request carries the request's fields unchanged,
/// asks for the requested length, and uses the GET_DESCRIPTOR function of
/// the request's recipient, for every descriptor type and index.
pub proof fn lemma_get_descriptor_keeps_fields(request: crate::control::GetDescriptorRequest)
    ensures
        spec_get_descriptor(request) matches Ok(p) ==> {
            &&& p.ts_urb.kind == SpecTsUrbInKind::CtlDescReq(
                crate::pdu::TsUrbControlDescRequest {
                    index: request.descriptor_index,
                    desc_type: request.descriptor_type,
                    lang_id: request.index,
                },
            )
            &&& p.output_buffer_size == request.requested_length
            &&& gets_descriptor(p.ts_urb.func)
            &&& function_recipient(p.ts_urb.func) == Some(request.recipient)
        },
{
}

/// A typed control request keeps the meaning of its setup packet: a
/// CLEAR_FEATURE is sent with a CLEAR_FEATURE function and a SET_FEATURE with
/// a SET_FEATURE function, a descriptor request reads or writes the
/// descriptor type in the high byte of `wValue` at the index in its low byte,
/// GET_STATUS asks for two bytes, a vendor request uses a vendor function and
/// a class request a class function, and every typed function names the
/// setup packet's recipient.
pub proof fn lemma_typed_requests_keep_their_meaning(setup: SetupPacket, data: Seq<u8>)
    ensures
        spec_control_transfer(setup, data) matches Ok(SpecTransferRequest::In(p)) ==> match p.ts_urb.kind {
            SpecTsUrbInKind::CtlFeatReq(u) => {
                &&& setup.request == standard_request::CLEAR_FEATURE ==> clears_feature(p.ts_urb.func)
                &&& setup.request == standard_request::SET_FEATURE ==> sets_feature(p.ts_urb.func)
                &&& (setup.request == standard_request::CLEAR_FEATURE || setup.request
                    == standard_request::SET_FEATURE)
                &&& function_recipient(p.ts_urb.func) == Some(setup.request_type.recipient())
                &&& u.feat_selector == setup.value
                &&& u.index == setup.index
                &&& p.output_buffer_size == 0
            },
            SpecTsUrbInKind::CtlDescReq(u) => {
                &&& setup.request == standard_request::GET_DESCRIPTOR
                &&& gets_descriptor(p.ts_urb.func)
                &&& function_recipient(p.ts_urb.func) == Some(setup.request_type.recipient())
                &&& u.desc_type as int == setup.value / 256
                &&& u.index as int == setup.value % 256
                &&& u.lang_id == setup.index
            },
            SpecTsUrbInKind::CtlGetStatus(u) => {
                &&& setup.request == standard_request::GET_STATUS
                &&& gets_status(p.ts_urb.func)
                &&& function_recipient(p.ts_urb.func) == Some(setup.request_type.recipient())
                &&& u.index == setup.index
                &&& p.output_buffer_size == 2
            },
            SpecTsUrbInKind::VendorClassReq(u) => {
                &&& (setup.request_type.kind() == RequestKind::VENDOR ==> vendor_function(p.ts_urb.func))
                &&& (setup.request_type.kind() == RequestKind::CLASS ==> class_function(p.ts_urb.func))
                &&& (setup.request_type.kind() == RequestKind::VENDOR || setup.request_type.kind()
                    == RequestKind::CLASS)
                &&& function_recipient(p.ts_urb.func) == Some(setup.request_type.recipient())
                &&& u.request == setup.request
            },
            _ => true,
        },
        spec_control_transfer(setup, data) matches Ok(SpecTransferRequest::Out(p)) ==> match p.ts_urb.kind {
            TsUrbOutKind::CtlDescReq(u) => {
                &&& setup.request == standard_request::SET_DESCRIPTOR
                &&& sets_descriptor(p.ts_urb.func)
                &&& function_recipient(p.ts_urb.func) == Some(setup.request_type.recipient())
                &&& u.desc_type as int == setup.value / 256
                &&& u.index as int == setup.value % 256
                &&& u.lang_id == setup.index
            },
            TsUrbOutKind::VendorClassReq(u) => {
                &&& (setup.request_type.kind() == RequestKind::VENDOR ==> vendor_function(p.ts_urb.func))
                &&& (setup.request_type.kind() == RequestKind::CLASS ==> class_function(p.ts_urb.func))
                &&& (setup.request_type.kind() == RequestKind::VENDOR || setup.request_type.kind()
                    == RequestKind::CLASS)
                &&& function_recipient(p.ts_urb.func) == Some(setup.request_type.recipient())
                &&& u.request == setup.request
            },
            _ => true,
        },
{
}

/// The four named recipients that have typed feature and status functions.
pub open spec fn named_recipient(r: Recipient) -> bool {
    r is DEVICE || r is INTERFACE || r is ENDPOINT || r is OTHER
}

/// Canonical standard requests use their typed forms: a host-to-device
/// CLEAR_FEATURE or SET_FEATURE without data stage to a named recipient is
/// a feature request, and a device-to-host GET_DESCRIPTOR to a device,
/// interface or endpoint is a descriptor request.
pub proof fn lemma_canonical_requests_are_typed(setup: SetupPacket)
    ensures
        setup.request_type.kind() == RequestKind::STANDARD && (setup.request == standard_request::CLEAR_FEATURE
            || setup.request == standard_request::SET_FEATURE) && setup.request_type.direction() == Direction::Out
            && setup.length == 0 && named_recipient(setup.request_type.recipient())
            ==> (spec_control_transfer(setup, seq![]) matches Ok(SpecTransferRequest::In(p))
            && p.ts_urb.kind is CtlFeatReq),
        setup.request_type.kind() == RequestKind::STANDARD && setup.request == standard_request::GET_DESCRIPTOR
            && setup.request_type.direction() == Direction::In && (setup.request_type.recipient() is DEVICE
            || setup.request_type.recipient() is INTERFACE || setup.request_type.recipient() is ENDPOINT)
            ==> (spec_control_transfer(setup, seq![]) matches Ok(SpecTransferRequest::In(p))
            && p.ts_urb.kind is CtlDescReq),
{
}

// ---------------------------------------------------------------------------
// Configuration selection
// ---------------------------------------------------------------------------

/// A selection names an interface descriptor of the configuration (its
/// interface number and alternate setting) that can be selected.
pub open spec fn selection_selectable(interfaces: Seq<InterfaceModel>, s: InterfaceSelection, speed: UsbSpeed) -> bool {
    match find_interface(interfaces, s.interface, s.alternate_setting) {
        Some(i) => interface_selectable(i, speed),
        None => false,
    }
}

/// The number of endpoint descriptors of the interface descriptors that the
/// selections name.
pub open spec fn selected_endpoint_total(interfaces: Seq<InterfaceModel>, active: Seq<InterfaceSelection>) -> nat
    decreases active.len(),
{
    if active.len() == 0 {
        0
    } else {
        selected_endpoint_total(interfaces, active.drop_last()) + match find_interface(
            interfaces,
            active.last().interface,
            active.last().alternate_setting,
        ) {
            Some(i) => i.endpoints.len(),
            None => 0,
        }
    }
}

/// Selections that name interfaces once each and selectable descriptors
/// give interface information for every selection, with as many pipes in
/// all as the named descriptors have endpoints.
proof fn lemma_selected_interfaces_succeed(
    interfaces: Seq<InterfaceModel>,
    active: Seq<InterfaceSelection>,
    speed: UsbSpeed,
)
    requires
        forall|j: int, k: int|
            0 <= j < k < active.len() ==> #[trigger] active[j].interface != #[trigger] active[k].interface,
        forall|j: int| 0 <= j < active.len() ==> #[trigger] selection_selectable(interfaces, active[j], speed),
    ensures
        spec_selected_interfaces(interfaces, active, speed) is Ok,
        total_pipes(spec_selected_interfaces(interfaces, active, speed)->Ok_0) == selected_endpoint_total(
            interfaces,
            active,
        ),
    decreases active.len(),
{
    if active.len() > 0 {
        let n = active.len() - 1;
        let shorter = active.drop_last();
        assert forall|j: int, k: int| 0 <= j < k < shorter.len() implies #[trigger] shorter[j].interface
            != #[trigger] shorter[k].interface by {
            assert(shorter[j] == active[j] && shorter[k] == active[k]);
        }
        assert forall|j: int| 0 <= j < shorter.len() implies #[trigger] selection_selectable(
            interfaces,
            shorter[j],
            speed,
        ) by {
            assert(shorter[j] == active[j]);
        }
        lemma_selected_interfaces_succeed(interfaces, shorter, speed);
        let selection = active.last();
        assert(selection_selectable(interfaces, active[n], speed));
        if exists|j: int| 0 <= j < n && #[trigger] active[j].interface == selection.interface {
            let j = choose|j: int| 0 <= j < n && #[trigger] active[j].interface == selection.interface;
            assert(active[j].interface != active[n].interface);
        }
        let i = find_interface(interfaces, selection.interface, selection.alternate_setting)->0;
        lemma_interface_information_pipes(i, speed);
        let previous = spec_selected_interfaces(interfaces, shorter, speed)->Ok_0;
        let info = spec_interface_information(i, speed)->Ok_0;
        assert(spec_selected_interfaces(interfaces, active, speed) == Ok::<
            Seq<SpecTsUsbdInterfaceInfo>,
            ConversionError,
        >(previous.push(info)));
        assert(previous.push(info).drop_last() =~= previous);
    }
}

/// When every interface number of the configuration has a selection, no
/// interface descriptor lacks one.
proof fn lemma_all_interfaces_selected(interfaces: Seq<InterfaceModel>, active: Seq<InterfaceSelection>)
    requires
        forall|k: int|
            0 <= k < interfaces.len() ==> exists|j: int|
                0 <= j < active.len() && active[j].interface == #[trigger] interfaces[k].number,
    ensures
        first_unselected_interface(interfaces, active) is None,
    decreases interfaces.len(),
{
    if interfaces.len() > 0 {
        let rest = interfaces.drop_first();
        assert forall|k: int| 0 <= k < rest.len() implies exists|j: int|
            0 <= j < active.len() && active[j].interface == #[trigger] rest[k].number by {
            assert(rest[k] == interfaces[k + 1]);
        }
        lemma_all_interfaces_selected(rest, active);
        let first = interfaces[0];
        let j = choose|j: int| 0 <= j < active.len() && active[j].interface == first.number;
        assert(active[j].interface == interfaces[0].number);
    }
}

/// A select-configuration request succeeds for every well-formed
/// configuration descriptor set with a 9-byte header and as many distinct
/// interface numbers as it declares, when the selections name each
/// interface number of the configuration exactly once, each by an existing
/// alternate setting that is followed by as many endpoints as it declares,
/// all with valid packet sizes, and at most 30 endpoints in all. An
/// alternate setting without endpoints is selected like any other.
pub proof fn lemma_select_configuration_succeeds(bytes: Seq<u8>, active: Seq<InterfaceSelection>, speed: UsbSpeed)
    requires
        is_configuration_set(bytes),
        bytes[0] == 9,
        distinct_interface_count(configuration_model(bytes).interfaces) == bytes[4],
        forall|j: int, k: int|
            0 <= j < k < active.len() ==> #[trigger] active[j].interface != #[trigger] active[k].interface,
        forall|k: int|
            0 <= k < configuration_model(bytes).interfaces.len() ==> exists|j: int|
                0 <= j < active.len() && active[j].interface
                    == #[trigger] configuration_model(bytes).interfaces[k].number,
        forall|j: int|
            0 <= j < active.len() ==> #[trigger] selection_selectable(
                configuration_model(bytes).interfaces,
                active[j],
                speed,
            ),
        selected_endpoint_total(configuration_model(bytes).interfaces, active) <= 30,
    ensures
        spec_select_configuration(Some(configuration_model(bytes)), active, speed) is Ok,
{
    let d = configuration_model(bytes);
    lemma_selected_interfaces_succeed(d.interfaces, active, speed);
    lemma_all_interfaces_selected(d.interfaces, active);
}

// ---------------------------------------------------------------------------
// Control transfers
// ---------------------------------------------------------------------------

/// The data stage is checked against the setup packet before anything else:
/// a device-to-host request with data is refused with the data length, a
/// host-to-device request whose data is not `wLength` bytes long with both
/// lengths; a standard SET_ADDRESS, SET_CONFIGURATION or SET_INTERFACE
/// with a matching data stage is refused with its request code.
pub proof fn lemma_control_transfer_refusals(setup: SetupPacket, data: Seq<u8>)
    ensures
        setup.request_type.direction() == Direction::In && data.len() > 0 ==> spec_control_transfer(setup, data)
            == Err::<SpecTransferRequest, ConversionError>(
            ConversionError::InTransferHasData { actual: data.len() as usize },
        ),
        setup.request_type.direction() == Direction::Out && data.len() != setup.length ==> spec_control_transfer(
            setup,
            data,
        ) == Err::<SpecTransferRequest, ConversionError>(
            ConversionError::OutTransferLengthMismatch { expected: setup.length as usize, actual: data.len() as usize },
        ),
        (setup.request_type.direction() == Direction::In ==> data.len() == 0) && (setup.request_type.direction()
            == Direction::Out ==> data.len() == setup.length) && setup.request_type.kind() == RequestKind::STANDARD
            && (setup.request == 5 || setup.request == 9 || setup.request == 11) ==> spec_control_transfer(setup, data)
            == Err::<SpecTransferRequest, ConversionError>(
            ConversionError::StatefulStandardRequest { request: setup.request },
        ),
{
}

/// The transfer flags and the copied setup packet: a control transfer on
/// the default pipe (handle 0) carries every field of the setup packet
/// unchanged, flags 0x8 (default pipe) plus, for a device-to-host request,
/// 0x1 (direction in) and 0x2 (short transfer OK); a vendor or class request
/// carries 0x3 for a device-to-host request and no flag otherwise, and the
/// request's `bRequest`, `wValue` and `wIndex`.
pub proof fn lemma_control_transfer_flags(setup: SetupPacket, data: Seq<u8>)
    ensures
        spec_control_transfer(setup, data) matches Ok(SpecTransferRequest::In(p)) ==> match p.ts_urb.kind {
            SpecTsUrbInKind::CtlTransfer(u) => {
                &&& u.pipe == 0
                &&& u.transfer_flags == (if setup.request_type.direction() == Direction::In {
                    0x0bu32
                } else {
                    0x08u32
                })
                &&& u.setup_packet.request_type == setup.request_type.0
                &&& u.setup_packet.request == setup.request
                &&& u.setup_packet.value == setup.value
                &&& u.setup_packet.index == setup.index
                &&& u.setup_packet.length == setup.length
            },
            SpecTsUrbInKind::VendorClassReq(u) => {
                &&& u.transfer_flags == (if setup.request_type.direction() == Direction::In {
                    0x03u32
                } else {
                    0u32
                })
                &&& u.request == setup.request
                &&& u.value == setup.value
                &&& u.index == setup.index
            },
            _ => true,
        },
        spec_control_transfer(setup, data) matches Ok(SpecTransferRequest::Out(p)) ==> match p.ts_urb.kind {
            TsUrbOutKind::CtlTransfer(u) => {
                &&& u.pipe == 0
                &&& u.transfer_flags == (if setup.request_type.direction() == Direction::In {
                    0x0bu32
                } else {
                    0x08u32
                })
                &&& u.setup_packet.request_type == setup.request_type.0
                &&& u.setup_packet.request == setup.request
                &&& u.setup_packet.value == setup.value
                &&& u.setup_packet.index == setup.index
                &&& u.setup_packet.length == setup.length
            },
            TsUrbOutKind::VendorClassReq(u) => {
                &&& u.transfer_flags == (if setup.request_type.direction() == Direction::In {
                    0x03u32
                } else {
                    0u32
                })
                &&& u.request == setup.request
                &&& u.value == setup.value
                &&& u.index == setup.index
            },
            _ => true,
        },
{
    assert(0x01u32 | 0x02u32 == 0x03u32) by (bit_vector);
    assert(0x03u32 | 0x08u32 == 0x0bu32) by (bit_vector);
    assert(0u32 | 0x08u32 == 0x08u32) by (bit_vector);
}

/// The other canonical requests use their typed forms too: GET_STATUS of a
/// named recipient (no `wValue`, two bytes), GET_CONFIGURATION of the device
/// and GET_INTERFACE of an interface (one byte each), and every vendor or
/// class request to a named recipient. Requests of the reserved kind, and
/// vendor or class requests to a vendor-specific or reserved recipient, are
/// sent as generic control transfers.
pub proof fn lemma_other_canonical_requests(setup: SetupPacket)
    ensures
        setup.request_type.kind() == RequestKind::STANDARD && setup.request == standard_request::GET_STATUS
            && setup.request_type.direction() == Direction::In && setup.value == 0 && setup.length == 2
            && named_recipient(setup.request_type.recipient()) ==> (spec_control_transfer(setup, seq![]) matches Ok(
            SpecTransferRequest::In(p),
        ) && p.ts_urb.kind is CtlGetStatus),
        setup.request_type.kind() == RequestKind::STANDARD && setup.request == standard_request::GET_CONFIGURATION
            && setup.request_type.direction() == Direction::In && setup.request_type.recipient() is DEVICE
            && setup.value == 0 && setup.index == 0 && setup.length == 1 ==> spec_control_transfer(setup, seq![])
            == Ok::<SpecTransferRequest, ConversionError>(
            SpecTransferRequest::In(
                crate::usb::spec_transfer_in(
                    SpecTsUrbInKind::CtlGetConfig(crate::pdu::TsUrbControlGetConfigRequest),
                    UrbFunction::URB_FUNCTION_GET_CONFIGURATION,
                    1,
                ),
            ),
        ),
        setup.request_type.kind() == RequestKind::STANDARD && setup.request == standard_request::GET_INTERFACE
            && setup.request_type.direction() == Direction::In && setup.request_type.recipient() is INTERFACE
            && setup.value == 0 && setup.length == 1 ==> spec_control_transfer(setup, seq![]) == Ok::<
            SpecTransferRequest,
            ConversionError,
        >(
            SpecTransferRequest::In(
                crate::usb::spec_transfer_in(
                    SpecTsUrbInKind::CtlGetIface(crate::pdu::TsUrbControlGetInterfaceRequest { interface: setup.index }),
                    UrbFunction::URB_FUNCTION_GET_INTERFACE,
                    1,
                ),
            ),
        ),
        (setup.request_type.kind() == RequestKind::VENDOR || setup.request_type.kind() == RequestKind::CLASS)
            && setup.request_type.direction() == Direction::In && named_recipient(setup.request_type.recipient())
            ==> (spec_control_transfer(setup, seq![]) matches Ok(SpecTransferRequest::In(p))
            && p.ts_urb.kind is VendorClassReq),
        setup.request_type.kind() != RequestKind::STANDARD && (setup.request_type.kind() == RequestKind::RESERVED
            || !named_recipient(setup.request_type.recipient())) && setup.request_type.direction() == Direction::In ==> (spec_control_transfer(setup, seq![]) matches Ok(
            SpecTransferRequest::In(p),
        ) && p.ts_urb.kind is CtlTransfer && p.ts_urb.func == UrbFunction::URB_FUNCTION_CONTROL_TRANSFER),
{
}

/// Configuration zero (no descriptor) is selected exactly with no
/// selections, by a request without interfaces and without a descriptor.
pub proof fn lemma_unconfigure(active: Seq<InterfaceSelection>, speed: UsbSpeed)
    ensures
        spec_select_configuration(None, active, speed) is Ok <==> active.len() == 0,
        active.len() > 0 ==> spec_select_configuration(None, active, speed) == Err::<
            crate::pdu::SpecTransferInPacket,
            ConversionError,
        >(ConversionError::UnconfiguredDeviceHasInterfaces),
        spec_select_configuration(None, active, speed) matches Ok(p) ==> {
            &&& p.output_buffer_size == 0
            &&& p.ts_urb.func == UrbFunction::URB_FUNCTION_SELECT_CONFIGURATION
            &&& p.ts_urb.kind matches SpecTsUrbInKind::SelectConfig(u)
            &&& u.usbd_ifaces.len() == 0
            &&& u.desc is None
        },
{
}

/// A successful select-configuration request implies that the descriptor
/// set declares as many interfaces as it has distinct interface numbers and
/// has a 9-byte header, and that every selection names an interface
/// descriptor that can be selected.
pub proof fn lemma_select_configuration_needs(bytes: Seq<u8>, active: Seq<InterfaceSelection>, speed: UsbSpeed)
    requires
        is_configuration_set(bytes),
        spec_select_configuration(Some(configuration_model(bytes)), active, speed) is Ok,
    ensures
        distinct_interface_count(configuration_model(bytes).interfaces) == bytes[4],
        bytes[0] == 9,
        forall|j: int|
            0 <= j < active.len() ==> #[trigger] selection_selectable(
                configuration_model(bytes).interfaces,
                active[j],
                speed,
            ),
{
    let d = configuration_model(bytes);
    lemma_selections_selectable(d.interfaces, active, speed);
}

/// Every selection of a successful list names a selectable interface
/// descriptor.
proof fn lemma_selections_selectable(interfaces: Seq<InterfaceModel>, active: Seq<InterfaceSelection>, speed: UsbSpeed)
    requires
        spec_selected_interfaces(interfaces, active, speed) is Ok,
    ensures
        forall|j: int| 0 <= j < active.len() ==> #[trigger] selection_selectable(interfaces, active[j], speed),
    decreases active.len(),
{
    if active.len() > 0 {
        let shorter = active.drop_last();
        lemma_selections_selectable(interfaces, shorter, speed);
        let selection = active.last();
        let i = find_interface(interfaces, selection.interface, selection.alternate_setting)->0;
        lemma_interface_information_pipes(i, speed);
        assert forall|j: int| 0 <= j < active.len() implies #[trigger] selection_selectable(
            interfaces,
            active[j],
            speed,
        ) by {
            if j < shorter.len() {
                assert(shorter[j] == active[j]);
            }
        }
    }
}

} // verus!
