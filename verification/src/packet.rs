//! Captured-packet records: the human-readable hex dump of a frame and the
//! record that carries one synthetic packet across the boundary.

use vstd::prelude::*;
use crate::framer::{frame_spec, generate_usb_data_packet, Direction};
use crate::text::{dec_str, hex2, push_char, push_dec, push_hex2};
use vstd::string::StringExecFns;

verus! {

/// A captured packet, ready to be serialized and handed out.
pub struct UsbPacket {
    /// Milliseconds since the epoch, shared by every packet of one poll.
    pub timestamp: u64,
    /// 0 for a received packet, 1 for a sent one, 2 for a system notice.
    pub packet_type: i32,
    /// Human-readable hex dump of the frame.
    pub content: String,
    /// Number of bytes in the frame.
    pub data_length: usize,
}

/// Upper-case two-digit hex rendering of each byte, separated by spaces.
pub open spec fn hex_dump(data: Seq<u8>) -> Seq<char>
    decreases data.len(),
{
    if data.len() == 0 {
        Seq::empty()
    } else if data.len() == 1 {
        hex2(data[0])
    } else {
        hex_dump(data.drop_last()) + seq![' '] + hex2(data.last())
    }
}

/// The `content` field of a packet: the hex dump annotated with the byte
/// count.
pub open spec fn packet_content(data: Seq<u8>) -> Seq<char> {
    "HEX: "@ + hex_dump(data) + " ("@ + dec_str(data.len()) + " bytes)"@
}

/// Appends the space-separated hex dump of the bytes.
pub fn push_hex_dump(s: &mut String, data: &Vec<u8>)
    ensures
        final(s)@ == old(s)@ + hex_dump(data@),
{
    let mut i: usize = 0;
    while i < data.len()
        invariant
            i <= data@.len(),
            s@ == old(s)@ + hex_dump(data@.take(i as int)),
        decreases data@.len() - i,
    {
        if i > 0 {
            push_char(s, ' ');
        }
        push_hex2(s, data[i]);
        proof {
            assert(data@.take((i + 1) as int).drop_last() =~= data@.take(i as int));
            assert(data@.take((i + 1) as int).last() == data@[i as int]);
            assert(s@ =~= old(s)@ + hex_dump(data@.take((i + 1) as int)));
        }
        i = i + 1;
    }
    assert(data@.take(data@.len() as int) =~= data@);
}

/// Renders the `content` string of a frame.
pub fn render_content(data: &Vec<u8>) -> (s: String)
    ensures
        s@ == packet_content(data@),
{
    let mut s = String::new();
    s.append("HEX: ");
    push_hex_dump(&mut s, data);
    s.append(" (");
    push_dec(&mut s, data.len() as u64);
    s.append(" bytes)");
    assert(s@ =~= packet_content(data@));
    s
}

/// What the one inbound packet of a poll looks like: a 16-byte
/// device-to-host frame.
pub open spec fn is_receive_packet(p: UsbPacket, ts: u64) -> bool {
    &&& p.timestamp == ts
    &&& p.packet_type == 0
    &&& p.data_length == 16
    &&& p.content@ == packet_content(frame_spec(Direction::DeviceToHost, 16))
}

/// What the one outbound packet of a poll looks like: an 8-byte
/// host-to-device frame.
pub open spec fn is_send_packet(p: UsbPacket, ts: u64) -> bool {
    &&& p.timestamp == ts
    &&& p.packet_type == 1
    &&& p.data_length == 8
    &&& p.content@ == packet_content(frame_spec(Direction::HostToDevice, 8))
}

/// Builds the inbound packet of a poll.
pub fn make_receive_packet(ts: u64) -> (p: UsbPacket)
    ensures
        is_receive_packet(p, ts),
{
    let data = generate_usb_data_packet(16, Direction::DeviceToHost);
    let content = render_content(&data);
    UsbPacket { timestamp: ts, packet_type: 0, content, data_length: data.len() }
}

/// Builds the outbound packet of a poll.
pub fn make_send_packet(ts: u64) -> (p: UsbPacket)
    ensures
        is_send_packet(p, ts),
{
    let data = generate_usb_data_packet(8, Direction::HostToDevice);
    let content = render_content(&data);
    UsbPacket { timestamp: ts, packet_type: 1, content, data_length: data.len() }
}

} // verus!
