//! The text by which a conversion error is shown.
use vstd::prelude::*;
use vstd::string::StringExecFns;

use crate::pdu::MAX_NON_DEFAULT_EP_COUNT;
use crate::text::{decimal, hex_digits, push_decimal, push_hex};
use crate::usb::ConversionError;

verus! {

/// The message of a conversion error. Numbers are decimal, but for the request
/// code (two hexadecimal digits) and `wMaxPacketSize` (four), both after `0x`.
pub open spec fn conversion_error_text(e: ConversionError) -> Seq<char> {
    match e {
        ConversionError::InTransferHasData { actual } => "USB IN transfer carries "@ + decimal(actual as nat) + " bytes of output data"@,
        ConversionError::OutTransferLengthMismatch { expected, actual } => "USB OUT transfer declares "@ + decimal(expected as nat) + " bytes but carries "@ + decimal(actual as nat) + " bytes"@,
        ConversionError::UnsupportedDescriptorRecipient { recipient } => "RDPEUSB has no typed descriptor request for USB recipient "@ + decimal(recipient.raw() as nat),
        ConversionError::StatefulStandardRequest { request } => "USB standard request 0x"@ + hex_digits(request as nat, 2) + " requires host-controller state and cannot use a generic RDPEUSB control transfer"@,
        ConversionError::UnconfiguredDeviceHasInterfaces => "an unconfigured USB device cannot have selected interfaces"@,
        ConversionError::InvalidConfigurationHeaderLength { actual } => "RDPEUSB requires a 9-byte USB configuration header, got "@ + decimal(actual as nat) + " bytes"@,
        ConversionError::InterfaceCountMismatch { declared, actual } => "USB configuration declares "@ + decimal(declared as nat) + " interfaces but contains "@ + decimal(actual as nat),
        ConversionError::DuplicateInterface { interface } => "USB interface "@ + decimal(interface as nat) + " is selected more than once"@,
        ConversionError::InterfaceNotFound { selection } => "USB interface "@ + decimal(selection.interface as nat) + " alternate setting "@ + decimal(selection.alternate_setting as nat) + " is absent from the configuration"@,
        ConversionError::MissingInterfaceSelection { interface } => "USB configuration has no selected alternate setting for interface "@ + decimal(interface as nat),
        ConversionError::TooManyPipes { selection, actual } => "USB interface "@ + decimal(selection.interface as nat) + " alternate setting "@ + decimal(selection.alternate_setting as nat) + " has "@ + decimal(actual as nat) + " pipes; RDPEUSB supports at most "@ + decimal(MAX_NON_DEFAULT_EP_COUNT as nat),
        ConversionError::TooManyActivePipes { actual } => "USB configuration selects "@ + decimal(actual as nat) + " pipes; a USB device supports at most "@ + decimal(MAX_NON_DEFAULT_EP_COUNT as nat) + " non-default endpoints"@,
        ConversionError::EndpointCountMismatch { selection, declared, actual } => "USB interface "@ + decimal(selection.interface as nat) + " alternate setting "@ + decimal(selection.alternate_setting as nat) + " declares "@ + decimal(declared as nat) + " endpoints but contains "@ + decimal(actual as nat),
        ConversionError::InvalidMaximumPacketSize { selection, raw } => "USB interface "@ + decimal(selection.interface as nat) + " alternate setting "@ + decimal(selection.alternate_setting as nat) + " has invalid wMaxPacketSize 0x"@ + hex_digits(raw as nat, 4),
    }
}

impl ConversionError {
    /// A human-readable description of the error.
    pub fn message(&self) -> (r: String)
        ensures
            r@ == conversion_error_text(*self),
    {
        match *self {
            ConversionError::InTransferHasData { actual } => {
                let mut s = String::from_str("USB IN transfer carries ");
                push_decimal(&mut s, actual);
                s.append(" bytes of output data");
                s
            },
            ConversionError::OutTransferLengthMismatch { expected, actual } => {
                let mut s = String::from_str("USB OUT transfer declares ");
                push_decimal(&mut s, expected);
                s.append(" bytes but carries ");
                push_decimal(&mut s, actual);
                s.append(" bytes");
                s
            },
            ConversionError::UnsupportedDescriptorRecipient { recipient } => {
                let mut s = String::from_str("RDPEUSB has no typed descriptor request for USB recipient ");
                push_decimal(&mut s, recipient.raw() as usize);
                s
            },
            ConversionError::StatefulStandardRequest { request } => {
                let mut s = String::from_str("USB standard request 0x");
                push_hex(&mut s, request as u16, 2);
                s.append(" requires host-controller state and cannot use a generic RDPEUSB control transfer");
                s
            },
            ConversionError::UnconfiguredDeviceHasInterfaces => {
                let mut s = String::from_str("an unconfigured USB device cannot have selected interfaces");
                s
            },
            ConversionError::InvalidConfigurationHeaderLength { actual } => {
                let mut s = String::from_str("RDPEUSB requires a 9-byte USB configuration header, got ");
                push_decimal(&mut s, actual as usize);
                s.append(" bytes");
                s
            },
            ConversionError::InterfaceCountMismatch { declared, actual } => {
                let mut s = String::from_str("USB configuration declares ");
                push_decimal(&mut s, declared as usize);
                s.append(" interfaces but contains ");
                push_decimal(&mut s, actual);
                s
            },
            ConversionError::DuplicateInterface { interface } => {
                let mut s = String::from_str("USB interface ");
                push_decimal(&mut s, interface as usize);
                s.append(" is selected more than once");
                s
            },
            ConversionError::InterfaceNotFound { selection } => {
                let mut s = String::from_str("USB interface ");
                push_decimal(&mut s, selection.interface as usize);
                s.append(" alternate setting ");
                push_decimal(&mut s, selection.alternate_setting as usize);
                s.append(" is absent from the configuration");
                s
            },
            ConversionError::MissingInterfaceSelection { interface } => {
                let mut s = String::from_str("USB configuration has no selected alternate setting for interface ");
                push_decimal(&mut s, interface as usize);
                s
            },
            ConversionError::TooManyPipes { selection, actual } => {
                let mut s = String::from_str("USB interface ");
                push_decimal(&mut s, selection.interface as usize);
                s.append(" alternate setting ");
                push_decimal(&mut s, selection.alternate_setting as usize);
                s.append(" has ");
                push_decimal(&mut s, actual);
                s.append(" pipes; RDPEUSB supports at most ");
                push_decimal(&mut s, MAX_NON_DEFAULT_EP_COUNT);
                s
            },
            ConversionError::TooManyActivePipes { actual } => {
                let mut s = String::from_str("USB configuration selects ");
                push_decimal(&mut s, actual);
                s.append(" pipes; a USB device supports at most ");
                push_decimal(&mut s, MAX_NON_DEFAULT_EP_COUNT);
                s.append(" non-default endpoints");
                s
            },
            ConversionError::EndpointCountMismatch { selection, declared, actual } => {
                let mut s = String::from_str("USB interface ");
                push_decimal(&mut s, selection.interface as usize);
                s.append(" alternate setting ");
                push_decimal(&mut s, selection.alternate_setting as usize);
                s.append(" declares ");
                push_decimal(&mut s, declared as usize);
                s.append(" endpoints but contains ");
                push_decimal(&mut s, actual);
                s
            },
            ConversionError::InvalidMaximumPacketSize { selection, raw } => {
                let mut s = String::from_str("USB interface ");
                push_decimal(&mut s, selection.interface as usize);
                s.append(" alternate setting ");
                push_decimal(&mut s, selection.alternate_setting as usize);
                s.append(" has invalid wMaxPacketSize 0x");
                push_hex(&mut s, raw, 4);
                s
            },
        }
    }
}

} // verus!
