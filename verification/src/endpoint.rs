//! Endpoint addresses and `wMaxPacketSize` values.
use vstd::prelude::*;

use crate::control::direction_of_raw;
use crate::value::Direction;

verus! {

/// An endpoint descriptor `bEndpointAddress`: bit 7 is the direction and bits
/// 3..0 the endpoint number.
#[derive(Debug, Clone, Copy, PartialEq, Eq, Structural, Hash)]
pub struct EndpointAddress(pub u8);

impl EndpointAddress {
    pub fn raw(self) -> (r: u8)
        ensures
            r == self.0,
    {
        self.0
    }

    /// Endpoint number, bits 3..0.
    pub fn number(self) -> (r: u8)
        ensures
            r == self.0 & 0x0f,
    {
        self.0 & 0x0f
    }

    /// Direction of the endpoint, bit 7.
    pub fn direction(self) -> (r: Direction)
        ensures
            r == direction_of_raw(self.0),
    {
        if self.0 & 0x80 == 0 {
            Direction::Out
        } else {
            Direction::In
        }
    }
}

/// Bits 10..0 of `wMaxPacketSize`: the packet size in bytes.
pub open spec fn packet_size_of(raw: u16) -> u16 {
    raw & 0x07ff
}

/// Bits 12..11 of `wMaxPacketSize`: additional transactions per microframe
/// of a high-speed periodic endpoint (3 is reserved).
pub open spec fn additional_transactions_of(raw: u16) -> u16 {
    (raw >> 11u16) & 0x03
}

/// The bytes per microframe of a high-speed periodic endpoint, or the raw
/// value when its additional-transactions code is the reserved one.
pub open spec fn high_speed_payload_of(raw: u16) -> Result<u16, u16> {
    if additional_transactions_of(raw) == 3 {
        Err(raw)
    } else {
        Ok((packet_size_of(raw) * (additional_transactions_of(raw) + 1)) as u16)
    }
}

/// An endpoint descriptor `wMaxPacketSize` value.
#[derive(Debug, Clone, Copy, PartialEq, Eq, Structural, Hash)]
pub struct MaxPacketSize(pub u16);

impl MaxPacketSize {
    pub fn raw(self) -> (r: u16)
        ensures
            r == self.0,
    {
        self.0
    }

    /// Packet size in bytes, bits 10..0.
    pub fn packet_size(self) -> (r: u16)
        ensures
            r == packet_size_of(self.0),
            r <= 0x07ff,
    {
        let raw = self.0;
        assert(raw & 0x07ff <= 0x07ff) by (bit_vector);
        raw & 0x07ff
    }

    /// Additional transactions per microframe, bits 12..11.
    pub fn additional_transactions(self) -> (r: u16)
        ensures
            r == additional_transactions_of(self.0),
            r <= 3,
    {
        let raw = self.0;
        assert((raw >> 11u16) & 0x03 <= 3) by (bit_vector);
        (raw >> 11u16) & 0x03
    }

    /// Bytes a high-speed isochronous or interrupt endpoint moves per
    /// microframe: the packet size times one plus the additional
    /// transactions. The reserved code 3 gives back the raw value as error.
    pub fn high_speed_payload_per_microframe(self) -> (r: Result<u16, u16>)
        ensures
            r == high_speed_payload_of(self.0),
            r matches Ok(bytes) ==> bytes <= 3 * 0x07ff,
    {
        let size = self.packet_size();
        let extra = self.additional_transactions();
        if extra == 3 {
            Err(self.0)
        } else {
            assert(size * (extra + 1) <= 3 * 0x07ff) by (nonlinear_arith)
                requires
                    size <= 0x07ff,
                    extra <= 2,
            ;
            Ok(size * (extra + 1))
        }
    }
}

} // verus!
