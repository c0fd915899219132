//! USB values, descriptors and transfers, and their conversion into
//! RDPEUSB (USB redirection over RDP) transfer requests.

pub mod control;
pub mod descriptor;
pub mod endpoint;
pub mod pdu;
pub mod text;
pub mod transfer;
pub mod urbdrc;
pub mod usb;
pub mod value;

use vstd::prelude::*;

verus! {
} // verus!
