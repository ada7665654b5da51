//! The structured-text encoding of the records that cross the boundary:
//! objects with the field names written out, numbers in decimal, strings
//! quoted with quote and backslash escaped, lists in square brackets.

use vstd::prelude::*;
use crate::devices::UsbDeviceInfo;
use crate::packet::UsbPacket;
use crate::session::Stats;
use crate::text::{dec_str, escape_str, push_char, push_dec, push_escaped};
use vstd::string::StringExecFns;

verus! {

/// A quoted, escaped string of the encoding.
pub open spec fn json_string(s: Seq<char>) -> Seq<char> {
    seq!['"'] + escape_str(s) + seq!['"']
}

/// One encoded device descriptor.
pub open spec fn json_of_device(d: UsbDeviceInfo) -> Seq<char> {
    "{\"vendor_id\":"@ + dec_str(d.vendor_id as nat) + ",\"product_id\":"@ + dec_str(
        d.product_id as nat,
    ) + ",\"vendor_name\":"@ + json_string(d.vendor_name@) + ",\"product_name\":"@ + json_string(
        d.product_name@,
    ) + ",\"device_id\":"@ + json_string(d.device_id@) + "}"@
}

/// The comma-separated encoded descriptors, without the brackets.
pub open spec fn json_of_devices_body(ds: Seq<UsbDeviceInfo>) -> Seq<char>
    decreases ds.len(),
{
    if ds.len() == 0 {
        Seq::empty()
    } else if ds.len() == 1 {
        json_of_device(ds[0])
    } else {
        json_of_devices_body(ds.drop_last()) + seq![','] + json_of_device(ds.last())
    }
}

/// The encoded descriptor list.
pub open spec fn json_of_devices(ds: Seq<UsbDeviceInfo>) -> Seq<char> {
    seq!['['] + json_of_devices_body(ds) + seq![']']
}

/// The record shape the encoding promises of a packet: its type is one of
/// the three ordinals.
pub open spec fn packet_wf(p: UsbPacket) -> bool {
    0 <= p.packet_type <= 2
}

/// One encoded packet.
pub open spec fn json_of_packet(p: UsbPacket) -> Seq<char> {
    "{\"timestamp\":"@ + dec_str(p.timestamp as nat) + ",\"packet_type\":"@ + dec_str(
        p.packet_type as nat,
    ) + ",\"content\":"@ + json_string(p.content@) + ",\"data_length\":"@ + dec_str(
        p.data_length as nat,
    ) + "}"@
}

/// The comma-separated encoded packets, without the brackets.
pub open spec fn json_of_packets_body(ps: Seq<UsbPacket>) -> Seq<char>
    decreases ps.len(),
{
    if ps.len() == 0 {
        Seq::empty()
    } else if ps.len() == 1 {
        json_of_packet(ps[0])
    } else {
        json_of_packets_body(ps.drop_last()) + seq![','] + json_of_packet(ps.last())
    }
}

/// The encoded packet list.
pub open spec fn json_of_packets(ps: Seq<UsbPacket>) -> Seq<char> {
    seq!['['] + json_of_packets_body(ps) + seq![']']
}

/// The encoded counter snapshot.
pub open spec fn json_of_stats(st: Stats) -> Seq<char> {
    "{\"packet_counter\":"@ + dec_str(st.packet_counter as nat) + ",\"bytes_received\":"@
        + dec_str(st.bytes_received as nat) + ",\"bytes_sent\":"@ + dec_str(st.bytes_sent as nat)
        + ",\"is_capturing\":"@ + (if st.is_capturing {
        "true"@
    } else {
        "false"@
    }) + "}"@
}

/// Appends a quoted, escaped string.
fn push_json_string(s: &mut String, t: &str)
    ensures
        final(s)@ == old(s)@ + json_string(t@),
{
    push_char(s, '"');
    push_escaped(s, t);
    push_char(s, '"');
    assert(final(s)@ =~= old(s)@ + json_string(t@));
}

/// Appends one encoded device descriptor.
fn push_device(s: &mut String, d: &UsbDeviceInfo)
    ensures
        final(s)@ == old(s)@ + json_of_device(*d),
{
    s.append("{\"vendor_id\":");
    push_dec(s, d.vendor_id as u64);
    s.append(",\"product_id\":");
    push_dec(s, d.product_id as u64);
    s.append(",\"vendor_name\":");
    push_json_string(s, d.vendor_name.as_str());
    s.append(",\"product_name\":");
    push_json_string(s, d.product_name.as_str());
    s.append(",\"device_id\":");
    push_json_string(s, d.device_id.as_str());
    s.append("}");
    assert(final(s)@ =~= old(s)@ + json_of_device(*d));
}

/// Encodes a descriptor list.
pub fn encode_device_list(ds: &Vec<UsbDeviceInfo>) -> (s: String)
    ensures
        s@ == json_of_devices(ds@),
{
    let mut s = String::new();
    push_char(&mut s, '[');
    let mut i: usize = 0;
    while i < ds.len()
        invariant
            i <= ds@.len(),
            s@ == seq!['['] + json_of_devices_body(ds@.take(i as int)),
        decreases ds@.len() - i,
    {
        if i > 0 {
            push_char(&mut s, ',');
        }
        push_device(&mut s, &ds[i]);
        proof {
            assert(ds@.take((i + 1) as int).drop_last() =~= ds@.take(i as int));
            assert(ds@.take((i + 1) as int).last() == ds@[i as int]);
            assert(s@ =~= seq!['['] + json_of_devices_body(ds@.take((i + 1) as int)));
        }
        i = i + 1;
    }
    push_char(&mut s, ']');
    proof {
        assert(ds@.take(ds@.len() as int) =~= ds@);
        assert(s@ =~= json_of_devices(ds@));
    }
    s
}

/// Appends one encoded packet.
fn push_packet(s: &mut String, p: &UsbPacket)
    requires
        packet_wf(*p),
    ensures
        final(s)@ == old(s)@ + json_of_packet(*p),
{
    s.append("{\"timestamp\":");
    push_dec(s, p.timestamp);
    s.append(",\"packet_type\":");
    push_dec(s, p.packet_type as u64);
    s.append(",\"content\":");
    push_json_string(s, p.content.as_str());
    s.append(",\"data_length\":");
    push_dec(s, p.data_length as u64);
    s.append("}");
    assert(final(s)@ =~= old(s)@ + json_of_packet(*p));
}

/// Encodes a packet list.
pub fn encode_packet_list(ps: &Vec<UsbPacket>) -> (s: String)
    requires
        forall|i: int| 0 <= i < ps@.len() ==> packet_wf(ps@[i]),
    ensures
        s@ == json_of_packets(ps@),
{
    let mut s = String::new();
    push_char(&mut s, '[');
    let mut i: usize = 0;
    while i < ps.len()
        invariant
            i <= ps@.len(),
            forall|j: int| 0 <= j < ps@.len() ==> packet_wf(ps@[j]),
            s@ == seq!['['] + json_of_packets_body(ps@.take(i as int)),
        decreases ps@.len() - i,
    {
        if i > 0 {
            push_char(&mut s, ',');
        }
        push_packet(&mut s, &ps[i]);
        proof {
            assert(ps@.take((i + 1) as int).drop_last() =~= ps@.take(i as int));
            assert(ps@.take((i + 1) as int).last() == ps@[i as int]);
            assert(s@ =~= seq!['['] + json_of_packets_body(ps@.take((i + 1) as int)));
        }
        i = i + 1;
    }
    push_char(&mut s, ']');
    proof {
        assert(ps@.take(ps@.len() as int) =~= ps@);
        assert(s@ =~= json_of_packets(ps@));
    }
    s
}

/// Encodes a counter snapshot.
pub fn encode_stats(st: &Stats) -> (s: String)
    ensures
        s@ == json_of_stats(*st),
{
    let mut s = String::new();
    s.append("{\"packet_counter\":");
    push_dec(&mut s, st.packet_counter);
    s.append(",\"bytes_received\":");
    push_dec(&mut s, st.bytes_received);
    s.append(",\"bytes_sent\":");
    push_dec(&mut s, st.bytes_sent);
    s.append(",\"is_capturing\":");
    if st.is_capturing {
        s.append("true");
    } else {
        s.append("false");
    }
    s.append("}");
    assert(s@ =~= json_of_stats(*st));
    s
}

} // verus!
