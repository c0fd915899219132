//! `bDescriptorType` codes of the USB 2.0 standard descriptors (Table 9-5).
use vstd::prelude::*;

verus! {

pub const DEVICE: u8 = 1;
pub const CONFIGURATION: u8 = 2;
pub const STRING: u8 = 3;
pub const INTERFACE: u8 = 4;
pub const ENDPOINT: u8 = 5;

} // verus!
