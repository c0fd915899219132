//! Views over a USB configuration descriptor set (USB 2.0 section 9.6.3).
//!
//! A configuration descriptor set is the byte string a device returns for
//! GET_DESCRIPTOR(CONFIGURATION): the 9-byte-or-longer configuration header
//! followed by a chain of descriptors, each starting with its `bLength` and
//! `bDescriptorType`. Interface descriptors own the endpoint descriptors that
//! follow them up to the next interface descriptor. The views borrow their
//! input and never allocate a copy of it.
use vstd::prelude::*;

use crate::endpoint::{EndpointAddress, MaxPacketSize};
use crate::value::{transfer_type_of_code, ClassCode, TransferType};

pub mod descriptor_type;

verus! {

/// A little-endian 16-bit field from its two bytes.
pub open spec fn le16(lo: u8, hi: u8) -> u16 {
    (lo + 256 * hi) as u16
}

/// The descriptor chain that starts at offset `o` of `s` is well formed: every
/// descriptor has `bLength >= 2` and fits, interface descriptors are at least
/// 9 bytes and endpoint descriptors at least 7 bytes long, and the last one
/// ends exactly at the end of `s`.
pub open spec fn chain_ok(s: Seq<u8>, o: int) -> bool
    decreases s.len() - o,
{
    if o < 0 || o > s.len() {
        false
    } else if o == s.len() {
        true
    } else if o + 2 > s.len() || s[o] < 2 || o + s[o] > s.len() {
        false
    } else if s[o + 1] == descriptor_type::INTERFACE && s[o] < 9 {
        false
    } else if s[o + 1] == descriptor_type::ENDPOINT && s[o] < 7 {
        false
    } else {
        chain_ok(s, o + s[o])
    }
}

/// Whether the walk of the chain stops at offset `o`: no further descriptor
/// header fits there.
pub open spec fn chain_stops(s: Seq<u8>, o: int) -> bool {
    o < 0 || o + 2 > s.len() || s[o] < 2 || o + s[o] > s.len()
}

/// The parsed header of a configuration descriptor.
#[derive(Debug, Clone, Copy, PartialEq, Eq, Structural, Hash)]
pub struct ConfigurationDescriptor {
    /// `bLength`.
    pub length: u8,
    /// `bDescriptorType`.
    pub descriptor_type: u8,
    /// `wTotalLength`.
    pub total_length: u16,
    /// `bNumInterfaces`.
    pub num_interfaces: u8,
    /// `bConfigurationValue`.
    pub configuration_value: u8,
    /// `iConfiguration`.
    pub configuration_string: u8,
    /// `bmAttributes`.
    pub attributes: u8,
    /// `bMaxPower`, in the unit of the bus speed.
    pub max_power: u8,
}

/// The meaning of an endpoint descriptor.
pub struct EndpointModel {
    pub address: u8,
    pub attributes: u8,
    pub max_packet_size: u16,
    pub interval: u8,
}

/// The meaning of an interface descriptor and of the endpoint descriptors
/// that follow it.
pub struct InterfaceModel {
    pub number: u8,
    pub alternate_setting: u8,
    pub num_endpoints: u8,
    pub class_code: ClassCode,
    pub endpoints: Seq<EndpointModel>,
}

/// The meaning of a configuration descriptor set.
pub struct ConfigurationModel {
    pub bytes: Seq<u8>,
    pub header: ConfigurationDescriptor,
    /// All interface descriptors (every alternate setting), in byte order.
    pub interfaces: Seq<InterfaceModel>,
}

/// The endpoint descriptor at offset `o`.
pub open spec fn endpoint_at(s: Seq<u8>, o: int) -> EndpointModel {
    EndpointModel {
        address: s[o + 2],
        attributes: s[o + 3],
        max_packet_size: le16(s[o + 4], s[o + 5]),
        interval: s[o + 6],
    }
}

/// The endpoint descriptors from offset `o` up to the next interface
/// descriptor or the end of the chain.
pub open spec fn endpoints_from(s: Seq<u8>, o: int) -> Seq<EndpointModel>
    decreases s.len() - o,
{
    if chain_stops(s, o) || s[o + 1] == descriptor_type::INTERFACE {
        seq![]
    } else if s[o + 1] == descriptor_type::ENDPOINT {
        seq![endpoint_at(s, o)] + endpoints_from(s, o + s[o])
    } else {
        endpoints_from(s, o + s[o])
    }
}

/// The interface descriptor at offset `o`, with its endpoints.
pub open spec fn interface_at(s: Seq<u8>, o: int) -> InterfaceModel {
    InterfaceModel {
        number: s[o + 2],
        alternate_setting: s[o + 3],
        num_endpoints: s[o + 4],
        class_code: ClassCode { class: s[o + 5], subclass: s[o + 6], protocol: s[o + 7] },
        endpoints: endpoints_from(s, o + s[o]),
    }
}

/// The interface descriptors from offset `o` to the end of the chain.
pub open spec fn interfaces_from(s: Seq<u8>, o: int) -> Seq<InterfaceModel>
    decreases s.len() - o,
{
    if chain_stops(s, o) {
        seq![]
    } else if s[o + 1] == descriptor_type::INTERFACE {
        seq![interface_at(s, o)] + interfaces_from(s, o + s[o])
    } else {
        interfaces_from(s, o + s[o])
    }
}

/// The configuration header at the start of `s`.
pub open spec fn header_of(s: Seq<u8>) -> ConfigurationDescriptor {
    ConfigurationDescriptor {
        length: s[0],
        descriptor_type: s[1],
        total_length: le16(s[2], s[3]),
        num_interfaces: s[4],
        configuration_value: s[5],
        configuration_string: s[6],
        attributes: s[7],
        max_power: s[8],
    }
}

/// The meaning of the bytes `s` of a configuration descriptor set.
pub open spec fn configuration_model(s: Seq<u8>) -> ConfigurationModel {
    ConfigurationModel { bytes: s, header: header_of(s), interfaces: interfaces_from(s, 0) }
}

/// Why a byte string is not a configuration descriptor set.
#[allow(inconsistent_fields)]
#[derive(Debug, Clone, Copy, PartialEq, Eq, Structural, Hash)]
pub enum DescriptorError {
    /// Fewer than 9 bytes, a `bLength` under 9, or a type other than
    /// CONFIGURATION at the start.
    InvalidConfigurationHeader,
    /// `wTotalLength` differs from the number of bytes.
    TotalLengthMismatch { declared: u16, actual: usize },
    /// A descriptor of the chain is too short or does not fit.
    MalformedDescriptor,
    /// `bNumInterfaces` differs from the number of distinct interface numbers.
    InterfaceCountMismatch { declared: u8, actual: usize },
    /// An interface declares another number of endpoints than follow it.
    EndpointCountMismatch { interface: u8, alternate_setting: u8, declared: u8, actual: usize },
}

/// The error `parse` reports for `s`, if any.
pub open spec fn parse_error(s: Seq<u8>) -> Option<DescriptorError> {
    if s.len() < 9 || s[0] < 9 || s[1] != descriptor_type::CONFIGURATION {
        Some(DescriptorError::InvalidConfigurationHeader)
    } else if le16(s[2], s[3]) != s.len() {
        Some(DescriptorError::TotalLengthMismatch { declared: le16(s[2], s[3]), actual: s.len() as usize })
    } else if !chain_ok(s, 0) {
        Some(DescriptorError::MalformedDescriptor)
    } else {
        None
    }
}

/// `s` is a well-formed configuration descriptor set.
pub open spec fn is_configuration_set(s: Seq<u8>) -> bool {
    parse_error(s) is None
}

/// The number of distinct interface numbers among `ifaces`.
pub open spec fn distinct_interface_count(ifaces: Seq<InterfaceModel>) -> nat
    decreases ifaces.len(),
{
    if ifaces.len() == 0 {
        0
    } else {
        let prev = ifaces.drop_last();
        distinct_interface_count(prev) + if exists|j: int|
            0 <= j < prev.len() && #[trigger] prev[j].number == ifaces.last().number {
            0nat
        } else {
            1nat
        }
    }
}

/// The first interface descriptor with the given number and alternate setting.
pub open spec fn find_interface(ifaces: Seq<InterfaceModel>, number: u8, alternate_setting: u8) -> Option<
    InterfaceModel,
>
    decreases ifaces.len(),
{
    if ifaces.len() == 0 {
        None
    } else if ifaces[0].number == number && ifaces[0].alternate_setting == alternate_setting {
        Some(ifaces[0])
    } else {
        find_interface(ifaces.drop_first(), number, alternate_setting)
    }
}

/// The first interface descriptor whose endpoint count differs from its
/// `bNumEndpoints`.
pub open spec fn first_endpoint_count_mismatch(ifaces: Seq<InterfaceModel>) -> Option<InterfaceModel>
    decreases ifaces.len(),
{
    if ifaces.len() == 0 {
        None
    } else if ifaces[0].endpoints.len() != ifaces[0].num_endpoints {
        Some(ifaces[0])
    } else {
        first_endpoint_count_mismatch(ifaces.drop_first())
    }
}

/// The error `validate` reports for a configuration, if any.
pub open spec fn validation_error(m: ConfigurationModel) -> Option<DescriptorError> {
    if distinct_interface_count(m.interfaces) != m.header.num_interfaces {
        Some(
            DescriptorError::InterfaceCountMismatch {
                declared: m.header.num_interfaces,
                actual: distinct_interface_count(m.interfaces) as usize,
            },
        )
    } else {
        match first_endpoint_count_mismatch(m.interfaces) {
            Some(i) => Some(
                DescriptorError::EndpointCountMismatch {
                    interface: i.number,
                    alternate_setting: i.alternate_setting,
                    declared: i.num_endpoints,
                    actual: i.endpoints.len() as usize,
                },
            ),
            None => None,
        }
    }
}

proof fn lemma_le16(lo: u8, hi: u8)
    ensures
        ((lo as u16) | ((hi as u16) << 8u16)) == le16(lo, hi),
{
    assert(((lo as u16) | ((hi as u16) << 8u16)) == lo + 256 * hi) by (bit_vector);
}

/// A descriptor at a position of a well-formed chain fits in the bytes, with
/// the minimum length of its type.
proof fn lemma_descriptor_fits(s: Seq<u8>, o: int)
    requires
        chain_ok(s, o),
        o < s.len(),
    ensures
        o + 2 <= s.len(),
        s[o] >= 2,
        o + s[o] <= s.len(),
        s[o + 1] == descriptor_type::INTERFACE ==> s[o] >= 9,
        s[o + 1] == descriptor_type::ENDPOINT ==> s[o] >= 7,
        chain_ok(s, o + s[o]),
{
}

/// Reads the little-endian 16-bit field at `o`.
fn read_le16(bytes: &[u8], o: usize) -> (r: u16)
    requires
        o + 2 <= bytes@.len(),
    ensures
        r == le16(bytes@[o as int], bytes@[o + 1]),
{
    let lo = bytes[o];
    let hi = bytes[o + 1];
    proof {
        lemma_le16(lo, hi);
    }
    (lo as u16) | ((hi as u16) << 8u16)
}

/// Checks the descriptor chain of `bytes` from the start.
fn check_chain(bytes: &[u8]) -> (r: bool)
    ensures
        r == chain_ok(bytes@, 0),
{
    let len = bytes.len();
    let mut pos: usize = 0;
    while pos < len
        invariant
            pos <= len,
            len == bytes@.len(),
            chain_ok(bytes@, 0) == chain_ok(bytes@, pos as int),
        decreases len - pos,
    {
        if len - pos < 2 {
            return false;
        }
        let l = bytes[pos];
        let t = bytes[pos + 1];
        if l < 2 || l as usize > len - pos {
            return false;
        }
        if t == descriptor_type::INTERFACE && l < 9 {
            return false;
        }
        if t == descriptor_type::ENDPOINT && l < 7 {
            return false;
        }
        pos = pos + l as usize;
    }
    true
}

/// A borrowed, well-formed configuration descriptor set.
#[derive(Debug, Clone, Copy)]
pub struct ConfigurationDescriptorSet<'a> {
    bytes: &'a [u8],
}

impl<'a> View for ConfigurationDescriptorSet<'a> {
    type V = ConfigurationModel;

    closed spec fn view(&self) -> ConfigurationModel {
        configuration_model(self.bytes@)
    }
}

/// A borrowed interface descriptor inside a configuration descriptor set.
#[derive(Debug, Clone, Copy)]
pub struct InterfaceDescriptor<'a> {
    bytes: &'a [u8],
    offset: usize,
}

impl<'a> View for InterfaceDescriptor<'a> {
    type V = InterfaceModel;

    closed spec fn view(&self) -> InterfaceModel {
        interface_at(self.bytes@, self.offset as int)
    }
}

/// A borrowed endpoint descriptor inside a configuration descriptor set.
#[derive(Debug, Clone, Copy)]
pub struct EndpointDescriptor<'a> {
    bytes: &'a [u8],
    offset: usize,
}

impl<'a> View for EndpointDescriptor<'a> {
    type V = EndpointModel;

    closed spec fn view(&self) -> EndpointModel {
        endpoint_at(self.bytes@, self.offset as int)
    }
}

impl<'a> ConfigurationDescriptorSet<'a> {
    #[verifier::type_invariant]
    spec fn inv(self) -> bool {
        is_configuration_set(self.bytes@)
    }

    /// Accept `bytes` as a configuration descriptor set when its header, its
    /// `wTotalLength` and its descriptor chain are well formed.
    pub fn parse(bytes: &'a [u8]) -> (r: Result<ConfigurationDescriptorSet<'a>, DescriptorError>)
        ensures
            match r {
                Ok(d) => parse_error(bytes@) is None && d@ == configuration_model(bytes@),
                Err(e) => parse_error(bytes@) == Some(e),
            },
    {
        let len = bytes.len();
        if len < 9 || bytes[0] < 9 || bytes[1] != descriptor_type::CONFIGURATION {
            return Err(DescriptorError::InvalidConfigurationHeader);
        }
        let total = read_le16(bytes, 2);
        if total as usize != len {
            return Err(DescriptorError::TotalLengthMismatch { declared: total, actual: len });
        }
        if !check_chain(bytes) {
            return Err(DescriptorError::MalformedDescriptor);
        }
        Ok(ConfigurationDescriptorSet { bytes })
    }

    /// The complete descriptor set.
    pub fn as_bytes(&self) -> (r: &'a [u8])
        ensures
            r@ == self@.bytes,
            is_configuration_set(r@),
            self@ == configuration_model(r@),
    {
        proof {
            use_type_invariant(self);
        }
        self.bytes
    }

    /// The configuration header.
    pub fn configuration(&self) -> (r: ConfigurationDescriptor)
        ensures
            r == self@.header,
    {
        proof {
            use_type_invariant(self);
        }
        let b = self.bytes;
        ConfigurationDescriptor {
            length: b[0],
            descriptor_type: b[1],
            total_length: read_le16(b, 2),
            num_interfaces: b[4],
            configuration_value: b[5],
            configuration_string: b[6],
            attributes: b[7],
            max_power: b[8],
        }
    }

    /// Every interface descriptor (each alternate setting), in byte order.
    pub fn interfaces(&self) -> (r: Vec<InterfaceDescriptor<'a>>)
        ensures
            r@.len() == self@.interfaces.len(),
            forall|k: int| 0 <= k < r@.len() ==> #[trigger] r@[k]@ == self@.interfaces[k],
    {
        proof {
            use_type_invariant(self);
        }
        let s = self.bytes;
        let len = s.len();
        let mut pos: usize = 0;
        let mut out: Vec<InterfaceDescriptor<'a>> = Vec::new();
        let ghost mut acc: Seq<InterfaceModel> = seq![];
        while pos < len
            invariant
                pos <= len,
                len == s@.len(),
                chain_ok(s@, pos as int),
                interfaces_from(s@, 0) == acc + interfaces_from(s@, pos as int),
                out@.len() == acc.len(),
                forall|k: int| 0 <= k < out@.len() ==> #[trigger] out@[k]@ == acc[k],
                self@ == configuration_model(s@),
            decreases len - pos,
        {
            let l = s[pos] as usize;
            if s[pos + 1] == descriptor_type::INTERFACE {
                let d = InterfaceDescriptor { bytes: s, offset: pos };
                proof {
                    assert(d@ == interface_at(s@, pos as int));
                    acc = acc.push(interface_at(s@, pos as int));
                }
                out.push(d);
            }
            pos = pos + l;
        }
        proof {
            assert(interfaces_from(s@, pos as int) == Seq::<InterfaceModel>::empty());
            assert(acc + Seq::<InterfaceModel>::empty() =~= acc);
        }
        out
    }

    /// The first interface descriptor with the given number and alternate
    /// setting.
    pub fn interface(&self, number: u8, alternate_setting: u8) -> (r: Option<InterfaceDescriptor<'a>>)
        ensures
            match r {
                Some(i) => find_interface(self@.interfaces, number, alternate_setting) == Some(i@),
                None => find_interface(self@.interfaces, number, alternate_setting) is None,
            },
    {
        let ifaces = self.interfaces();
        let ghost models = self@.interfaces;
        let n = ifaces.len();
        let mut i: usize = 0;
        proof {
            assert(models.skip(0) =~= models);
        }
        while i < n
            invariant
                i <= n,
                n == ifaces@.len(),
                n == models.len(),
                models == self@.interfaces,
                forall|k: int| 0 <= k < n ==> #[trigger] ifaces@[k]@ == models[k],
                find_interface(models, number, alternate_setting) == find_interface(
                    models.skip(i as int),
                    number,
                    alternate_setting,
                ),
            decreases n - i,
        {
            let candidate = ifaces[i];
            proof {
                assert(candidate@ == models[i as int]);
                assert(models.skip(i as int)[0] == models[i as int]);
                assert(models.skip(i as int).drop_first() =~= models.skip(i + 1));
            }
            if candidate.number() == number && candidate.alternate_setting() == alternate_setting {
                proof {
                    let t = models.skip(i as int);
                    assert(t.len() > 0);
                    assert(t[0].number == number && t[0].alternate_setting == alternate_setting);
                    assert(find_interface(t, number, alternate_setting) == Some(t[0]));
                }
                return Some(candidate);
            }
            i += 1;
        }
        proof {
            assert(models.skip(i as int).len() == 0);
        }
        None
    }

    /// The number of distinct interface numbers in the set.
    pub fn distinct_interface_count(&self) -> (r: usize)
        ensures
            r == distinct_interface_count(self@.interfaces),
    {
        let ifaces = self.interfaces();
        let ghost models = self@.interfaces;
        let n = ifaces.len();
        let mut count: usize = 0;
        let mut i: usize = 0;
        while i < n
            invariant
                i <= n,
                n == ifaces@.len(),
                n == models.len(),
                forall|k: int| 0 <= k < n ==> #[trigger] ifaces@[k]@ == models[k],
                count == distinct_interface_count(models.take(i as int)),
                count <= i,
            decreases n - i,
        {
            let number = ifaces[i].number();
            let mut seen = false;
            let mut j: usize = 0;
            while j < i
                invariant
                    j <= i,
                    i < n,
                    n == ifaces@.len(),
                    n == models.len(),
                    forall|k: int| 0 <= k < n ==> #[trigger] ifaces@[k]@ == models[k],
                    number == models[i as int].number,
                    seen == exists|k: int| 0 <= k < j && #[trigger] models[k].number == number,
                decreases i - j,
            {
                if ifaces[j].number() == number {
                    seen = true;
                }
                proof {
                    assert(ifaces@[j as int]@ == models[j as int]);
                }
                j += 1;
            }
            proof {
                let t = models.take(i + 1);
                assert(t.drop_last() =~= models.take(i as int));
                assert(t.last() == models[i as int]);
                let prev = t.drop_last();
                if seen {
                    let k = choose|k: int| 0 <= k < i && #[trigger] models[k].number == number;
                    assert(prev[k].number == t.last().number);
                } else {
                    assert forall|k: int| 0 <= k < prev.len() implies #[trigger] prev[k].number
                        != t.last().number by {
                        assert(prev[k] == models[k]);
                    }
                }
            }
            if !seen {
                count = count + 1;
            }
            i += 1;
        }
        proof {
            assert(models.take(n as int) =~= models);
        }
        count
    }

    /// Check that `bNumInterfaces` counts the distinct interface numbers and
    /// that every interface is followed by as many endpoint descriptors as it
    /// declares.
    pub fn validate(&self) -> (r: Result<(), DescriptorError>)
        ensures
            match r {
                Ok(()) => validation_error(self@) is None,
                Err(e) => validation_error(self@) == Some(e),
            },
    {
        let declared = self.configuration().num_interfaces;
        let actual = self.distinct_interface_count();
        if actual != declared as usize {
            return Err(DescriptorError::InterfaceCountMismatch { declared, actual });
        }
        let ifaces = self.interfaces();
        let ghost models = self@.interfaces;
        let n = ifaces.len();
        let mut i: usize = 0;
        proof {
            assert(models.skip(0) =~= models);
        }
        while i < n
            invariant
                i <= n,
                n == ifaces@.len(),
                n == models.len(),
                models == self@.interfaces,
                distinct_interface_count(self@.interfaces) == self@.header.num_interfaces,
                forall|k: int| 0 <= k < n ==> #[trigger] ifaces@[k]@ == models[k],
                first_endpoint_count_mismatch(models) == first_endpoint_count_mismatch(
                    models.skip(i as int),
                ),
            decreases n - i,
        {
            let iface = ifaces[i];
            let found = iface.endpoints().len();
            proof {
                assert(iface@ == models[i as int]);
                assert(models.skip(i as int)[0] == models[i as int]);
                assert(models.skip(i as int).drop_first() =~= models.skip(i + 1));
            }
            if found != iface.num_endpoints() as usize {
                proof {
                    let t = models.skip(i as int);
                    assert(t.len() > 0);
                    assert(first_endpoint_count_mismatch(t) == Some(t[0]));
                }
                return Err(
                    DescriptorError::EndpointCountMismatch {
                        interface: iface.number(),
                        alternate_setting: iface.alternate_setting(),
                        declared: iface.num_endpoints(),
                        actual: found,
                    },
                );
            }
            i += 1;
        }
        proof {
            assert(models.skip(i as int).len() == 0);
        }
        Ok(())
    }
}

impl<'a> InterfaceDescriptor<'a> {
    #[verifier::type_invariant]
    spec fn inv(self) -> bool {
        &&& chain_ok(self.bytes@, self.offset as int)
        &&& self.offset < self.bytes.len()
        &&& self.bytes.len() == self.bytes@.len()
        &&& self.bytes@[self.offset + 1] == descriptor_type::INTERFACE
    }

    /// `bInterfaceNumber`.
    pub fn number(&self) -> (r: u8)
        ensures
            r == self@.number,
    {
        proof {
            use_type_invariant(self);
            lemma_descriptor_fits(self.bytes@, self.offset as int);
        }
        self.bytes[self.offset + 2]
    }

    /// `bAlternateSetting`.
    pub fn alternate_setting(&self) -> (r: u8)
        ensures
            r == self@.alternate_setting,
    {
        proof {
            use_type_invariant(self);
            lemma_descriptor_fits(self.bytes@, self.offset as int);
        }
        self.bytes[self.offset + 3]
    }

    /// `bNumEndpoints`, as declared.
    pub fn num_endpoints(&self) -> (r: u8)
        ensures
            r == self@.num_endpoints,
    {
        proof {
            use_type_invariant(self);
            lemma_descriptor_fits(self.bytes@, self.offset as int);
        }
        self.bytes[self.offset + 4]
    }

    /// `bInterfaceClass`, `bInterfaceSubClass` and `bInterfaceProtocol`.
    pub fn class_code(&self) -> (r: ClassCode)
        ensures
            r == self@.class_code,
    {
        proof {
            use_type_invariant(self);
            lemma_descriptor_fits(self.bytes@, self.offset as int);
        }
        ClassCode::new(
            self.bytes[self.offset + 5],
            self.bytes[self.offset + 6],
            self.bytes[self.offset + 7],
        )
    }

    /// The endpoint descriptors that follow this interface descriptor, up to
    /// the next interface descriptor.
    pub fn endpoints(&self) -> (r: Vec<EndpointDescriptor<'a>>)
        ensures
            r@.len() == self@.endpoints.len(),
            forall|k: int| 0 <= k < r@.len() ==> #[trigger] r@[k]@ == self@.endpoints[k],
    {
        proof {
            use_type_invariant(self);
        }
        let s = self.bytes;
        let len = s.len();
        proof {
            lemma_descriptor_fits(s@, self.offset as int);
        }
        let mut pos: usize = self.offset + s[self.offset] as usize;
        let mut out: Vec<EndpointDescriptor<'a>> = Vec::new();
        let ghost mut acc: Seq<EndpointModel> = seq![];
        let ghost start = pos as int;
        while pos < len
            invariant
                pos <= len,
                len == s@.len(),
                chain_ok(s@, pos as int),
                endpoints_from(s@, start) == acc + endpoints_from(s@, pos as int),
                out@.len() == acc.len(),
                forall|k: int| 0 <= k < out@.len() ==> #[trigger] out@[k]@ == acc[k],
                self@.endpoints == endpoints_from(s@, start),
            ensures
                pos >= len || s@[pos + 1] == descriptor_type::INTERFACE,
            decreases len - pos,
        {
            let l = s[pos] as usize;
            let t = s[pos + 1];
            if t == descriptor_type::INTERFACE {
                break;
            }
            if t == descriptor_type::ENDPOINT {
                let e = EndpointDescriptor { bytes: s, offset: pos };
                proof {
                    assert(e@ == endpoint_at(s@, pos as int));
                    acc = acc.push(endpoint_at(s@, pos as int));
                }
                out.push(e);
            }
            pos = pos + l;
        }
        proof {
            assert(endpoints_from(s@, pos as int) == Seq::<EndpointModel>::empty());
            assert(acc + Seq::<EndpointModel>::empty() =~= acc);
        }
        out
    }
}

impl<'a> EndpointDescriptor<'a> {
    #[verifier::type_invariant]
    spec fn inv(self) -> bool {
        &&& chain_ok(self.bytes@, self.offset as int)
        &&& self.offset < self.bytes.len()
        &&& self.bytes.len() == self.bytes@.len()
        &&& self.bytes@[self.offset + 1] == descriptor_type::ENDPOINT
    }

    /// `bEndpointAddress`.
    pub fn address(&self) -> (r: EndpointAddress)
        ensures
            r.0 == self@.address,
    {
        proof {
            use_type_invariant(self);
            lemma_descriptor_fits(self.bytes@, self.offset as int);
        }
        EndpointAddress(self.bytes[self.offset + 2])
    }

    /// `bmAttributes`.
    pub fn attributes(&self) -> (r: u8)
        ensures
            r == self@.attributes,
    {
        proof {
            use_type_invariant(self);
            lemma_descriptor_fits(self.bytes@, self.offset as int);
        }
        self.bytes[self.offset + 3]
    }

    /// `wMaxPacketSize`.
    pub fn max_packet_size(&self) -> (r: MaxPacketSize)
        ensures
            r.0 == self@.max_packet_size,
    {
        proof {
            use_type_invariant(self);
            lemma_descriptor_fits(self.bytes@, self.offset as int);
        }
        MaxPacketSize(read_le16(self.bytes, self.offset + 4))
    }

    /// The transfer type, from `bmAttributes` bits 1..0.
    pub fn transfer_type(&self) -> (r: TransferType)
        ensures
            r == transfer_type_of_code(self@.attributes & 0x03),
    {
        TransferType::from_endpoint_attributes(self.attributes())
    }

    /// `bInterval`.
    pub fn interval(&self) -> (r: u8)
        ensures
            r == self@.interval,
    {
        proof {
            use_type_invariant(self);
            lemma_descriptor_fits(self.bytes@, self.offset as int);
        }
        self.bytes[self.offset + 6]
    }
}

} // verus!
