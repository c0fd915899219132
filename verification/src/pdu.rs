//! RDPEUSB transfer request PDUs (MS-RDPEUSB 2.2.6 and 2.2.9) as plain data.
//!
//! Each type with a byte buffer or a nested list has a `Spec` counterpart
//! that `View` maps it to; contracts are stated over those.
use vstd::prelude::*;

verus! {

/// An RDPEUSB pipe handle.
pub type PipeHandle = u32;

/// An RDPEUSB configuration handle.
pub type ConfigHandle = u32;

/// A USB device has at most 30 non-default endpoints, so RDPEUSB carries at
/// most that many pipes.
pub const MAX_NON_DEFAULT_EP_COUNT: usize = 30;

/// Length of the fixed part of a USB configuration descriptor.
pub const USB_CONFIG_DESC_FIXED_PART_SIZE: usize = 9;

/// The `URB_FUNCTION_*` codes used by RDPEUSB transfer requests.
#[allow(non_camel_case_types)]
#[derive(Debug, Clone, Copy, PartialEq, Eq, Structural, Hash)]
pub enum UrbFunction {
    URB_FUNCTION_SELECT_CONFIGURATION,
    URB_FUNCTION_SELECT_INTERFACE,
    URB_FUNCTION_CONTROL_TRANSFER,
    URB_FUNCTION_BULK_OR_INTERRUPT_TRANSFER,
    URB_FUNCTION_GET_DESCRIPTOR_FROM_DEVICE,
    URB_FUNCTION_SET_DESCRIPTOR_TO_DEVICE,
    URB_FUNCTION_SET_FEATURE_TO_DEVICE,
    URB_FUNCTION_SET_FEATURE_TO_INTERFACE,
    URB_FUNCTION_SET_FEATURE_TO_ENDPOINT,
    URB_FUNCTION_CLEAR_FEATURE_TO_DEVICE,
    URB_FUNCTION_CLEAR_FEATURE_TO_INTERFACE,
    URB_FUNCTION_CLEAR_FEATURE_TO_ENDPOINT,
    URB_FUNCTION_GET_STATUS_FROM_DEVICE,
    URB_FUNCTION_GET_STATUS_FROM_INTERFACE,
    URB_FUNCTION_GET_STATUS_FROM_ENDPOINT,
    URB_FUNCTION_VENDOR_DEVICE,
    URB_FUNCTION_VENDOR_INTERFACE,
    URB_FUNCTION_VENDOR_ENDPOINT,
    URB_FUNCTION_CLASS_DEVICE,
    URB_FUNCTION_CLASS_INTERFACE,
    URB_FUNCTION_CLASS_ENDPOINT,
    URB_FUNCTION_CLASS_OTHER,
    URB_FUNCTION_VENDOR_OTHER,
    URB_FUNCTION_GET_STATUS_FROM_OTHER,
    URB_FUNCTION_CLEAR_FEATURE_TO_OTHER,
    URB_FUNCTION_SET_FEATURE_TO_OTHER,
    URB_FUNCTION_GET_DESCRIPTOR_FROM_ENDPOINT,
    URB_FUNCTION_SET_DESCRIPTOR_TO_ENDPOINT,
    URB_FUNCTION_GET_CONFIGURATION,
    URB_FUNCTION_GET_INTERFACE,
    URB_FUNCTION_GET_DESCRIPTOR_FROM_INTERFACE,
    URB_FUNCTION_SET_DESCRIPTOR_TO_INTERFACE,
}

/// The setup packet as RDPEUSB carries it (TS_URB_CONTROL_TRANSFER).
#[derive(Debug, Clone, Copy, PartialEq, Eq, Structural, Hash)]
pub struct RdpeusbSetupPacket {
    pub request_type: u8,
    pub request: u8,
    pub value: u16,
    pub index: u16,
    pub length: u16,
}

/// TS_URB_CONTROL_DESCRIPTOR_REQUEST.
#[derive(Debug, Clone, Copy, PartialEq, Eq, Structural, Hash)]
pub struct TsUrbControlDescRequest {
    pub index: u8,
    pub desc_type: u8,
    pub lang_id: u16,
}

/// TS_URB_CONTROL_FEATURE_REQUEST.
#[derive(Debug, Clone, Copy, PartialEq, Eq, Structural, Hash)]
pub struct TsUrbControlFeatRequest {
    pub feat_selector: u16,
    pub index: u16,
}

/// TS_URB_CONTROL_GET_CONFIGURATION_REQUEST.
#[derive(Debug, Clone, Copy, PartialEq, Eq, Structural, Hash)]
pub struct TsUrbControlGetConfigRequest;

/// TS_URB_CONTROL_GET_INTERFACE_REQUEST.
#[derive(Debug, Clone, Copy, PartialEq, Eq, Structural, Hash)]
pub struct TsUrbControlGetInterfaceRequest {
    pub interface: u16,
}

/// TS_URB_CONTROL_GET_STATUS_REQUEST.
#[derive(Debug, Clone, Copy, PartialEq, Eq, Structural, Hash)]
pub struct TsUrbControlGetStatusRequest {
    pub index: u16,
}

/// TS_URB_CONTROL_VENDOR_OR_CLASS_REQUEST.
#[derive(Debug, Clone, Copy, PartialEq, Eq, Structural, Hash)]
pub struct TsUrbControlVendorClassRequest {
    pub transfer_flags: u32,
    pub request: u8,
    pub value: u16,
    pub index: u16,
}

/// TS_URB_CONTROL_TRANSFER.
#[derive(Debug, Clone, Copy, PartialEq, Eq, Structural, Hash)]
pub struct TsUrbControlTransfer {
    pub pipe: PipeHandle,
    pub transfer_flags: u32,
    pub setup_packet: RdpeusbSetupPacket,
}

/// TS_URB_BULK_OR_INTERRUPT_TRANSFER.
#[derive(Debug, Clone, Copy, PartialEq, Eq, Structural, Hash)]
pub struct TsUrbBulkOrInterruptTransfer {
    pub pipe_handle: PipeHandle,
    pub transfer_flags: u32,
}

/// TS_USBD_PIPE_INFORMATION, as the server sends it.
#[derive(Debug, Clone, Copy, PartialEq, Eq, Structural, Hash)]
pub struct TsUsbdPipeInfo {
    pub max_packet_size: u16,
    pub max_transfer_size: u32,
    pub pipe_flags: u32,
}

/// TS_USBD_INTERFACE_INFORMATION, as the server sends it.
#[derive(Debug, Clone, PartialEq, Eq)]
pub struct TsUsbdInterfaceInfo {
    pub interface_number: u8,
    pub alternate_setting: u8,
    pub ts_usbd_pipe_info: Vec<TsUsbdPipeInfo>,
}

/// The mathematical view of [`TsUsbdInterfaceInfo`], with lists as sequences.
pub struct SpecTsUsbdInterfaceInfo {
    pub interface_number: u8,
    pub alternate_setting: u8,
    pub ts_usbd_pipe_info: Seq<TsUsbdPipeInfo>,
}

impl View for TsUsbdInterfaceInfo {
    type V = SpecTsUsbdInterfaceInfo;

    open spec fn view(&self) -> SpecTsUsbdInterfaceInfo {
        SpecTsUsbdInterfaceInfo {
            interface_number: self.interface_number,
            alternate_setting: self.alternate_setting,
            ts_usbd_pipe_info: self.ts_usbd_pipe_info@,
        }
    }
}

/// A USB configuration descriptor as RDPEUSB carries it: the fixed part,
/// followed by every byte of the descriptor set after it.
#[derive(Debug, Clone, PartialEq, Eq)]
pub struct UsbConfigDesc {
    pub length: u8,
    pub descriptor_type: u8,
    pub total_length: u16,
    pub num_interfaces: u8,
    pub configuration_value: u8,
    pub configuration: u8,
    pub attributes: u8,
    pub max_power: u8,
    pub trailing: Vec<u8>,
}

/// The mathematical view of [`UsbConfigDesc`], with lists as sequences.
pub struct SpecUsbConfigDesc {
    pub length: u8,
    pub descriptor_type: u8,
    pub total_length: u16,
    pub num_interfaces: u8,
    pub configuration_value: u8,
    pub configuration: u8,
    pub attributes: u8,
    pub max_power: u8,
    pub trailing: Seq<u8>,
}

impl View for UsbConfigDesc {
    type V = SpecUsbConfigDesc;

    open spec fn view(&self) -> SpecUsbConfigDesc {
        SpecUsbConfigDesc {
            length: self.length,
            descriptor_type: self.descriptor_type,
            total_length: self.total_length,
            num_interfaces: self.num_interfaces,
            configuration_value: self.configuration_value,
            configuration: self.configuration,
            attributes: self.attributes,
            max_power: self.max_power,
            trailing: self.trailing@,
        }
    }
}

/// TS_URB_SELECT_CONFIGURATION. `desc == None` selects configuration zero.
#[derive(Debug, Clone, PartialEq, Eq)]
pub struct TsUrbSelectConfig {
    pub usbd_ifaces: Vec<TsUsbdInterfaceInfo>,
    pub desc: Option<UsbConfigDesc>,
}

/// The mathematical view of [`TsUrbSelectConfig`], with lists as sequences.
pub struct SpecTsUrbSelectConfig {
    pub usbd_ifaces: Seq<SpecTsUsbdInterfaceInfo>,
    pub desc: Option<SpecUsbConfigDesc>,
}

impl View for TsUrbSelectConfig {
    type V = SpecTsUrbSelectConfig;

    open spec fn view(&self) -> SpecTsUrbSelectConfig {
        SpecTsUrbSelectConfig {
            usbd_ifaces: self.usbd_ifaces@.map_values(|i: TsUsbdInterfaceInfo| i@),
            desc: match self.desc {
                Some(d) => Some(d@),
                None => None,
            },
        }
    }
}

/// TS_URB_SELECT_INTERFACE.
#[derive(Debug, Clone, PartialEq, Eq)]
pub struct TsUrbSelectInterface {
    pub config_handle: ConfigHandle,
    pub usbd_iface: TsUsbdInterfaceInfo,
}

/// The mathematical view of [`TsUrbSelectInterface`], with lists as sequences.
pub struct SpecTsUrbSelectInterface {
    pub config_handle: ConfigHandle,
    pub usbd_iface: SpecTsUsbdInterfaceInfo,
}

impl View for TsUrbSelectInterface {
    type V = SpecTsUrbSelectInterface;

    open spec fn view(&self) -> SpecTsUrbSelectInterface {
        SpecTsUrbSelectInterface { config_handle: self.config_handle, usbd_iface: self.usbd_iface@ }
    }
}

/// The TS_URB forms carried by TRANSFER_IN_REQUEST.
#[derive(Debug, Clone, PartialEq, Eq)]
pub enum TsUrbInKind {
    SelectConfig(TsUrbSelectConfig),
    SelectIface(TsUrbSelectInterface),
    CtlDescReq(TsUrbControlDescRequest),
    CtlFeatReq(TsUrbControlFeatRequest),
    CtlGetStatus(TsUrbControlGetStatusRequest),
    CtlGetConfig(TsUrbControlGetConfigRequest),
    CtlGetIface(TsUrbControlGetInterfaceRequest),
    VendorClassReq(TsUrbControlVendorClassRequest),
    CtlTransfer(TsUrbControlTransfer),
    BulkInterruptTransfer(TsUrbBulkOrInterruptTransfer),
}

/// The mathematical view of [`TsUrbInKind`], with lists as sequences.
pub enum SpecTsUrbInKind {
    SelectConfig(SpecTsUrbSelectConfig),
    SelectIface(SpecTsUrbSelectInterface),
    CtlDescReq(TsUrbControlDescRequest),
    CtlFeatReq(TsUrbControlFeatRequest),
    CtlGetStatus(TsUrbControlGetStatusRequest),
    CtlGetConfig(TsUrbControlGetConfigRequest),
    CtlGetIface(TsUrbControlGetInterfaceRequest),
    VendorClassReq(TsUrbControlVendorClassRequest),
    CtlTransfer(TsUrbControlTransfer),
    BulkInterruptTransfer(TsUrbBulkOrInterruptTransfer),
}

impl View for TsUrbInKind {
    type V = SpecTsUrbInKind;

    open spec fn view(&self) -> SpecTsUrbInKind {
        match self {
            TsUrbInKind::SelectConfig(u) => SpecTsUrbInKind::SelectConfig(u@),
            TsUrbInKind::SelectIface(u) => SpecTsUrbInKind::SelectIface(u@),
            TsUrbInKind::CtlDescReq(u) => SpecTsUrbInKind::CtlDescReq(*u),
            TsUrbInKind::CtlFeatReq(u) => SpecTsUrbInKind::CtlFeatReq(*u),
            TsUrbInKind::CtlGetStatus(u) => SpecTsUrbInKind::CtlGetStatus(*u),
            TsUrbInKind::CtlGetConfig(u) => SpecTsUrbInKind::CtlGetConfig(*u),
            TsUrbInKind::CtlGetIface(u) => SpecTsUrbInKind::CtlGetIface(*u),
            TsUrbInKind::VendorClassReq(u) => SpecTsUrbInKind::VendorClassReq(*u),
            TsUrbInKind::CtlTransfer(u) => SpecTsUrbInKind::CtlTransfer(*u),
            TsUrbInKind::BulkInterruptTransfer(u) => SpecTsUrbInKind::BulkInterruptTransfer(*u),
        }
    }
}

/// The TS_URB forms carried by TRANSFER_OUT_REQUEST.
#[derive(Debug, Clone, Copy, PartialEq, Eq, Structural, Hash)]
pub enum TsUrbOutKind {
    CtlDescReq(TsUrbControlDescRequest),
    VendorClassReq(TsUrbControlVendorClassRequest),
    CtlTransfer(TsUrbControlTransfer),
    BulkInterruptTransfer(TsUrbBulkOrInterruptTransfer),
}

/// A TS_URB of a TRANSFER_IN_REQUEST: its form and URB function.
#[derive(Debug, Clone, PartialEq, Eq)]
pub struct TsUrbInPacket {
    pub kind: TsUrbInKind,
    pub func: UrbFunction,
}

/// The mathematical view of [`TsUrbInPacket`], with lists as sequences.
pub struct SpecTsUrbInPacket {
    pub kind: SpecTsUrbInKind,
    pub func: UrbFunction,
}

impl View for TsUrbInPacket {
    type V = SpecTsUrbInPacket;

    open spec fn view(&self) -> SpecTsUrbInPacket {
        SpecTsUrbInPacket { kind: self.kind@, func: self.func }
    }
}

/// A TS_URB of a TRANSFER_OUT_REQUEST: its form, NoAck flag and URB function.
#[derive(Debug, Clone, Copy, PartialEq, Eq, Structural, Hash)]
pub struct TsUrbOutPacket {
    pub kind: TsUrbOutKind,
    pub no_ack: bool,
    pub func: UrbFunction,
}

/// TRANSFER_IN_REQUEST: a TS_URB and the size of the buffer for the data
/// the device returns.
#[derive(Debug, Clone, PartialEq, Eq)]
pub struct TransferInPacket {
    pub ts_urb: TsUrbInPacket,
    pub output_buffer_size: u32,
}

/// The mathematical view of [`TransferInPacket`], with lists as sequences.
pub struct SpecTransferInPacket {
    pub ts_urb: SpecTsUrbInPacket,
    pub output_buffer_size: u32,
}

impl View for TransferInPacket {
    type V = SpecTransferInPacket;

    open spec fn view(&self) -> SpecTransferInPacket {
        SpecTransferInPacket { ts_urb: self.ts_urb@, output_buffer_size: self.output_buffer_size }
    }
}

/// TRANSFER_OUT_REQUEST: a TS_URB and the data sent to the device.
#[derive(Debug, Clone, PartialEq, Eq)]
pub struct TransferOutPacket {
    pub ts_urb: TsUrbOutPacket,
    pub output_buffer: Vec<u8>,
}

/// The mathematical view of [`TransferOutPacket`], with lists as sequences.
pub struct SpecTransferOutPacket {
    pub ts_urb: TsUrbOutPacket,
    pub output_buffer: Seq<u8>,
}

impl View for TransferOutPacket {
    type V = SpecTransferOutPacket;

    open spec fn view(&self) -> SpecTransferOutPacket {
        SpecTransferOutPacket { ts_urb: self.ts_urb, output_buffer: self.output_buffer@ }
    }
}

} // verus!
