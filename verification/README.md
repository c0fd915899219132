# ironrdp_usb

USB values, configuration descriptor views and transfer types, and their
conversion into RDPEUSB (USB redirection over RDP) transfer requests, written
in Verus. Every function of the library states its result in its contract, and
Verus proves the code against it.

Layout:

- `src/value.rs`, `src/control.rs`, `src/endpoint.rs`: USB values, setup
  packets and `bmRequestType` fields, endpoint addresses and `wMaxPacketSize`.
- `src/descriptor.rs`: borrowed views over a configuration descriptor set,
  modelled by `ConfigurationModel`.
- `src/transfer.rs`: transport-independent transfer requests and completions.
- `src/pdu.rs`: the RDPEUSB transfer request PDUs as plain data, each with a
  mathematical view.
- `src/usb.rs`: the conversion functions (`control_transfer`,
  `get_descriptor`, `select_configuration`, `select_interface`, bulk and
  interrupt builders, `maximum_packet_size`); `src/usb/laws.rs` proves the
  properties that span them; `src/usb/message.rs` gives each error its text.
- `src/text.rs`: decimal and hexadecimal digits of integers.
- `src/urbdrc.rs`: the message the redirection backend hands to the server.
- `app/lib.rs`: the server-side handles that send that message over a tokio
  channel.
