//! Fundamental USB values which are independent of a transport protocol.
use vstd::prelude::*;

verus! {

/// USB transfer direction, always expressed from the host's point of view.
///
/// Direction is closed because the corresponding USB fields are one bit wide
/// and both possible encodings are defined.
#[derive(Debug, Clone, Copy, PartialEq, Eq, Structural, Hash)]
pub enum Direction {
    /// Host to device.
    Out,
    /// Device to host.
    In,
}

/// USB bus speed used to interpret speed-dependent descriptor fields.
///
/// This is a high-level semantic value, not a directly decoded USB wire field.
/// Transports map their own speed representation into it explicitly.
#[derive(Debug, Clone, Copy, PartialEq, Eq, Structural, Hash)]
#[non_exhaustive]
pub enum UsbSpeed {
    Low,
    Full,
    High,
    Super,
    SuperPlus,
}

impl UsbSpeed {
    /// Whether the speed is one of the SuperSpeed family.
    pub fn is_superspeed(self) -> (r: bool)
        ensures
            r == (self is Super || self is SuperPlus),
    {
        match self {
            UsbSpeed::Super | UsbSpeed::SuperPlus => true,
            _ => false,
        }
    }
}

/// Transfer type encoded in endpoint descriptor `bmAttributes` bits 1..0.
///
/// All four possible two-bit encodings are defined by USB, so decoding cannot
/// encounter an unknown transfer type.
#[derive(Debug, Clone, Copy, PartialEq, Eq, Structural, Hash)]
pub enum TransferType {
    Control,
    Isochronous,
    Bulk,
    Interrupt,
}

/// The transfer type that a two-bit code (0 to 3) stands for.
pub open spec fn transfer_type_of_code(code: u8) -> TransferType {
    if code == 0 {
        TransferType::Control
    } else if code == 1 {
        TransferType::Isochronous
    } else if code == 2 {
        TransferType::Bulk
    } else {
        TransferType::Interrupt
    }
}

/// The two-bit code of a transfer type.
pub open spec fn transfer_type_code(t: TransferType) -> u8 {
    match t {
        TransferType::Control => 0,
        TransferType::Isochronous => 1,
        TransferType::Bulk => 2,
        TransferType::Interrupt => 3,
    }
}

impl TransferType {
    /// Decode the transfer type from endpoint `bmAttributes`; only bits 1..0
    /// take part.
    pub fn from_endpoint_attributes(attributes: u8) -> (r: TransferType)
        ensures
            r == transfer_type_of_code(attributes & 0x03),
    {
        let code = attributes & 0x03;
        if code == 0 {
            TransferType::Control
        } else if code == 1 {
            TransferType::Isochronous
        } else if code == 2 {
            TransferType::Bulk
        } else {
            TransferType::Interrupt
        }
    }
}

/// The `k`-th binary-coded-decimal digit (nibble) of `raw`, counting from
/// the least significant one.
pub open spec fn bcd_nibble(raw: u16, k: nat) -> int {
    (raw as int / vstd::arithmetic::power::pow(16, k)) % 16
}

/// Whether every nibble in a USB binary-coded-decimal version is valid.
///
/// Descriptor fields `bcdUSB` and `bcdDevice` stay plain `u16` values; this
/// predicate states the USB constraint on them: each of the four nibbles is
/// a decimal digit.
pub fn is_valid_bcd_version(raw: u16) -> (r: bool)
    ensures
        r == (forall|k: nat| k < 4 ==> #[trigger] bcd_nibble(raw, k) <= 9),
{
    proof {
        reveal_with_fuel(vstd::arithmetic::power::pow, 5);
        assert(raw & 0x000f == raw % 16) by (bit_vector);
        assert((raw >> 4) & 0x000f == (raw / 16) % 16) by (bit_vector);
        assert((raw >> 8) & 0x000f == (raw / 256) % 16) by (bit_vector);
        assert((raw >> 12) & 0x000f == (raw / 4096) % 16) by (bit_vector);
        assert(bcd_nibble(raw, 0) == raw % 16);
        assert(bcd_nibble(raw, 1) == (raw / 16) % 16);
        assert(bcd_nibble(raw, 2) == (raw / 256) % 16);
        assert(bcd_nibble(raw, 3) == (raw / 4096) % 16);
    }
    let r = (raw & 0x000f) <= 9 && ((raw >> 4) & 0x000f) <= 9 && ((raw >> 8) & 0x000f) <= 9
        && ((raw >> 12) & 0x000f) <= 9;
    proof {
        if !r {
            if (raw & 0x000f) > 9 {
                assert(bcd_nibble(raw, 0) > 9);
            } else if ((raw >> 4) & 0x000f) > 9 {
                assert(bcd_nibble(raw, 1) > 9);
            } else if ((raw >> 8) & 0x000f) > 9 {
                assert(bcd_nibble(raw, 2) > 9);
            } else {
                assert(bcd_nibble(raw, 3) > 9);
            }
        } else {
            assert forall|k: nat| k < 4 implies #[trigger] bcd_nibble(raw, k) <= 9 by {
                if k == 0 {
                } else if k == 1 {
                } else if k == 2 {
                } else {
                }
            }
        }
    }
    r
}

/// One selected alternate setting of an interface.
#[derive(Debug, Clone, Copy, PartialEq, Eq, Structural, Hash)]
pub struct InterfaceSelection {
    /// `bInterfaceNumber` of the selected interface.
    pub interface: u8,
    /// `bAlternateSetting` of the selected alternate.
    pub alternate_setting: u8,
}

/// USB class, subclass, and protocol values.
///
/// These values deliberately remain open integers: USB-IF and device-class
/// specifications can assign values independently of this library.
#[derive(Debug, Clone, Copy, PartialEq, Eq, Structural, Hash)]
pub struct ClassCode {
    pub class: u8,
    pub subclass: u8,
    pub protocol: u8,
}

impl ClassCode {
    pub fn new(class: u8, subclass: u8, protocol: u8) -> (r: ClassCode)
        ensures
            r == (ClassCode { class, subclass, protocol }),
    {
        ClassCode { class, subclass, protocol }
    }
}

} // verus!
