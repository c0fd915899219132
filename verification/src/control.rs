//! Default-control-pipe setup packets and their `bmRequestType` fields.
use vstd::prelude::*;

use crate::value::Direction;

pub mod standard_request;

verus! {

/// Recipient encoded in `bmRequestType` bits 4..0.
///
/// Codes 0 to 4 are named by USB; codes 5 to 31 are reserved and kept as
/// `RESERVED(code)` so that no setup packet loses information.
#[allow(non_camel_case_types)]
#[derive(Debug, Clone, Copy, PartialEq, Eq, Structural, Hash)]
pub enum Recipient {
    DEVICE,
    INTERFACE,
    ENDPOINT,
    OTHER,
    VENDOR_SPECIFIC,
    RESERVED(u8),
}

/// The recipient that a five-bit code stands for.
pub open spec fn recipient_of_code(code: u8) -> Recipient {
    if code == 0 {
        Recipient::DEVICE
    } else if code == 1 {
        Recipient::INTERFACE
    } else if code == 2 {
        Recipient::ENDPOINT
    } else if code == 3 {
        Recipient::OTHER
    } else if code == 4 {
        Recipient::VENDOR_SPECIFIC
    } else {
        Recipient::RESERVED(code)
    }
}

/// The code of a recipient, as `raw` returns it.
pub open spec fn recipient_code(r: Recipient) -> u8 {
    match r {
        Recipient::DEVICE => 0,
        Recipient::INTERFACE => 1,
        Recipient::ENDPOINT => 2,
        Recipient::OTHER => 3,
        Recipient::VENDOR_SPECIFIC => 4,
        Recipient::RESERVED(code) => code,
    }
}

impl Recipient {
    /// A recipient is valid when its code fits the five-bit field and a
    /// reserved recipient does not reuse a named code.
    pub open spec fn is_valid(self) -> bool {
        match self {
            Recipient::RESERVED(code) => 5 <= code < 32,
            _ => true,
        }
    }

    /// Decode the recipient from bits 4..0 of `raw`.
    pub fn from_raw(raw: u8) -> (r: Recipient)
        ensures
            r == recipient_of_code(raw & 0x1f),
            r.is_valid(),
    {
        let code = raw & 0x1f;
        assert(code < 32) by (bit_vector)
            requires
                code == raw & 0x1f,
        ;
        if code == 0 {
            Recipient::DEVICE
        } else if code == 1 {
            Recipient::INTERFACE
        } else if code == 2 {
            Recipient::ENDPOINT
        } else if code == 3 {
            Recipient::OTHER
        } else if code == 4 {
            Recipient::VENDOR_SPECIFIC
        } else {
            Recipient::RESERVED(code)
        }
    }

    /// The recipient code.
    pub open spec fn spec_raw(self) -> u8 {
        recipient_code(self)
    }

    /// The recipient code.
    #[verifier::when_used_as_spec(spec_raw)]
    pub fn raw(self) -> (r: u8)
        ensures
            r == recipient_code(self),
    {
        match self {
            Recipient::DEVICE => 0,
            Recipient::INTERFACE => 1,
            Recipient::ENDPOINT => 2,
            Recipient::OTHER => 3,
            Recipient::VENDOR_SPECIFIC => 4,
            Recipient::RESERVED(code) => code,
        }
    }
}

/// Request kind encoded in `bmRequestType` bits 6..5.
#[allow(non_camel_case_types)]
#[derive(Debug, Clone, Copy, PartialEq, Eq, Structural, Hash)]
pub enum RequestKind {
    STANDARD,
    CLASS,
    VENDOR,
    RESERVED,
}

/// The request kind that a two-bit code stands for.
pub open spec fn kind_of_code(code: u8) -> RequestKind {
    if code == 0 {
        RequestKind::STANDARD
    } else if code == 1 {
        RequestKind::CLASS
    } else if code == 2 {
        RequestKind::VENDOR
    } else {
        RequestKind::RESERVED
    }
}

/// The two-bit code of a request kind.
pub open spec fn kind_code(k: RequestKind) -> u8 {
    match k {
        RequestKind::STANDARD => 0,
        RequestKind::CLASS => 1,
        RequestKind::VENDOR => 2,
        RequestKind::RESERVED => 3,
    }
}

/// The direction that bit 7 of `bmRequestType` stands for.
pub open spec fn direction_of_raw(raw: u8) -> Direction {
    if raw & 0x80 == 0 {
        Direction::Out
    } else {
        Direction::In
    }
}

/// Bit 7 of `bmRequestType` for a direction.
pub open spec fn direction_bit(d: Direction) -> u8 {
    match d {
        Direction::Out => 0,
        Direction::In => 0x80,
    }
}

/// The `bmRequestType` byte of a direction, kind and recipient.
pub open spec fn encode_request_type(d: Direction, k: RequestKind, r: Recipient) -> u8 {
    direction_bit(d) | (kind_code(k) << 5u8) | (recipient_code(r) & 0x1f)
}

/// The `bmRequestType` field of a setup packet, kept as its raw byte.
#[derive(Debug, Clone, Copy, PartialEq, Eq, Structural, Hash)]
pub struct RequestType(pub u8);

impl RequestType {
    /// Data stage direction, bit 7.
    pub open spec fn spec_direction(self) -> Direction {
        direction_of_raw(self.0)
    }

    /// Request kind, bits 6..5.
    pub open spec fn spec_kind(self) -> RequestKind {
        kind_of_code((self.0 >> 5u8) & 0x03)
    }

    /// Request recipient, bits 4..0.
    pub open spec fn spec_recipient(self) -> Recipient {
        recipient_of_code(self.0 & 0x1f)
    }

    /// Encode a direction, kind and recipient. Only bits 4..0 of the
    /// recipient code are kept.
    pub fn new(direction: Direction, kind: RequestKind, recipient: Recipient) -> (r: RequestType)
        ensures
            r.0 == encode_request_type(direction, kind, recipient),
    {
        let d: u8 = match direction {
            Direction::Out => 0,
            Direction::In => 0x80,
        };
        let k: u8 = match kind {
            RequestKind::STANDARD => 0,
            RequestKind::CLASS => 1,
            RequestKind::VENDOR => 2,
            RequestKind::RESERVED => 3,
        };
        let code = recipient.raw();
        assert(k << 5u8 <= 0x60) by (bit_vector)
            requires
                k <= 3,
        ;
        RequestType(d | (k << 5u8) | (code & 0x1f))
    }

    /// The raw `bmRequestType` byte.
    pub fn raw(self) -> (r: u8)
        ensures
            r == self.0,
    {
        self.0
    }

    /// Data stage direction, bit 7.
    #[verifier::when_used_as_spec(spec_direction)]
    pub fn direction(self) -> (r: Direction)
        ensures
            r == direction_of_raw(self.0),
    {
        if self.0 & 0x80 == 0 {
            Direction::Out
        } else {
            Direction::In
        }
    }

    /// Request kind, bits 6..5.
    #[verifier::when_used_as_spec(spec_kind)]
    pub fn kind(self) -> (r: RequestKind)
        ensures
            r == kind_of_code((self.0 >> 5u8) & 0x03),
    {
        let code = (self.0 >> 5u8) & 0x03;
        if code == 0 {
            RequestKind::STANDARD
        } else if code == 1 {
            RequestKind::CLASS
        } else if code == 2 {
            RequestKind::VENDOR
        } else {
            RequestKind::RESERVED
        }
    }

    /// Request recipient, bits 4..0.
    #[verifier::when_used_as_spec(spec_recipient)]
    pub fn recipient(self) -> (r: Recipient)
        ensures
            r == recipient_of_code(self.0 & 0x1f),
            r.is_valid(),
    {
        Recipient::from_raw(self.0)
    }
}

/// Decoding a `bmRequestType` byte built by `RequestType::new` gives back its
/// direction, kind and recipient, for every valid recipient.
pub proof fn lemma_request_type_round_trip(d: Direction, k: RequestKind, r: Recipient)
    requires
        r.is_valid(),
    ensures
        direction_of_raw(encode_request_type(d, k, r)) == d,
        kind_of_code((encode_request_type(d, k, r) >> 5u8) & 0x03) == k,
        recipient_of_code(encode_request_type(d, k, r) & 0x1f) == r,
{
    let db = direction_bit(d);
    let kc = kind_code(k);
    let rc = recipient_code(r);
    let raw = encode_request_type(d, k, r);
    assert(raw == db | (kc << 5u8) | (rc & 0x1f));
    assert(rc < 32);
    assert((db == 0 || db == 0x80) && kc < 4 && rc < 32 ==> {
        let x = db | (kc << 5u8) | (rc & 0x1f);
        &&& (x & 0x80 == 0 <==> db == 0)
        &&& (x >> 5u8) & 0x03 == kc
        &&& x & 0x1f == rc
    }) by (bit_vector);
}

/// Decoding any `bmRequestType` byte and encoding its direction, kind and
/// recipient again gives back the same byte: no request type loses
/// information, reserved kinds and recipients included.
pub proof fn lemma_request_type_lossless(raw: u8)
    ensures
        encode_request_type(direction_of_raw(raw), kind_of_code((raw >> 5u8) & 0x03), recipient_of_code(raw & 0x1f))
            == raw,
{
    let code = raw & 0x1f;
    assert(code < 32) by (bit_vector)
        requires
            code == raw & 0x1f,
    ;
    assert(recipient_code(recipient_of_code(code)) == code);
    let k = (raw >> 5u8) & 0x03;
    assert(k < 4) by (bit_vector)
        requires
            k == (raw >> 5u8) & 0x03,
    ;
    assert(kind_code(kind_of_code(k)) == k);
    let top = raw & 0x80;
    assert(top == 0 || top == 0x80) by (bit_vector)
        requires
            top == raw & 0x80,
    ;
    assert(direction_bit(direction_of_raw(raw)) == top);
    assert(top | (k << 5u8) | (code & 0x1f) == raw) by (bit_vector)
        requires
            top == raw & 0x80,
            k == (raw >> 5u8) & 0x03,
            code == raw & 0x1f,
    ;
}

/// A USB setup packet (USB 2.0 section 9.3).
#[derive(Debug, Clone, Copy, PartialEq, Eq, Structural, Hash)]
pub struct SetupPacket {
    pub request_type: RequestType,
    pub request: u8,
    pub value: u16,
    pub index: u16,
    pub length: u16,
}

impl SetupPacket {
    /// The `bRequest` code when the packet is a standard request.
    pub fn standard_request(self) -> (r: Option<u8>)
        ensures
            r == (if self.request_type.kind() == RequestKind::STANDARD {
                Some(self.request)
            } else {
                None
            }),
    {
        match self.request_type.kind() {
            RequestKind::STANDARD => Some(self.request),
            _ => None,
        }
    }
}

/// A typed standard GET_DESCRIPTOR request.
#[derive(Debug, Clone, Copy, PartialEq, Eq, Structural, Hash)]
pub struct GetDescriptorRequest {
    pub recipient: Recipient,
    pub descriptor_type: u8,
    pub descriptor_index: u8,
    /// Language ID for string descriptors, otherwise zero or a recipient index.
    pub index: u16,
    pub requested_length: u16,
}

} // verus!
