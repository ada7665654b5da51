//! The capture session state machine: start/stop guarding, the synthetic
//! packet cadence of poll, and the running counters.

use vstd::prelude::*;
use crate::packet::{is_receive_packet, is_send_packet, make_receive_packet, make_send_packet,
    UsbPacket};

verus! {

/// The expected state-machine conflicts: starting twice, stopping twice.
#[derive(Clone, Copy, PartialEq, Eq, Structural, Debug)]
pub enum CaptureError {
    AlreadyCapturing,
    NotCapturing,
}

/// Read-only snapshot of the session counters.
#[derive(Clone, Copy, PartialEq, Eq, Structural, Debug)]
pub struct Stats {
    pub packet_counter: u64,
    pub bytes_received: u64,
    pub bytes_sent: u64,
    pub is_capturing: bool,
}

/// The one capture session: a flag, the selected device, and counters that
/// only ever grow (stop clears the flag, never the counters).
#[derive(Clone, Copy, PartialEq, Eq, Structural, Debug)]
pub struct CaptureState {
    pub is_capturing: bool,
    pub selected_device_vendor_id: u16,
    pub selected_device_product_id: u16,
    pub packet_counter: u64,
    pub bytes_received: u64,
    pub bytes_sent: u64,
}

/// A poll of this state emits an inbound packet.
pub open spec fn receive_due(s: CaptureState) -> bool {
    s.packet_counter % 3 == 0
}

/// A poll of this state emits an outbound packet.
pub open spec fn send_due(s: CaptureState) -> bool {
    s.packet_counter % 5 == 0
}

/// The state after a successful start: capturing, with the ids recorded and
/// the counters kept.
pub open spec fn spec_start(s: CaptureState, vendor_id: u16, product_id: u16) -> CaptureState {
    (CaptureState {
        is_capturing: true,
        selected_device_vendor_id: vendor_id,
        selected_device_product_id: product_id,
        ..s
    })
}

/// The state with the capturing flag cleared and everything else kept.
pub open spec fn spec_idle(s: CaptureState) -> CaptureState {
    (CaptureState { is_capturing: false, ..s })
}

/// The counters leave room for one more poll.
pub open spec fn poll_fits(s: CaptureState) -> bool {
    &&& s.packet_counter < u64::MAX
    &&& s.bytes_received <= u64::MAX - 16
    &&& s.bytes_sent <= u64::MAX - 8
}

/// The state after one poll: idle states are untouched; a capturing state
/// counts the packets that were due and advances the counter by one.
pub open spec fn spec_poll(s: CaptureState) -> CaptureState {
    if !s.is_capturing {
        s
    } else {
        (CaptureState {
            packet_counter: (s.packet_counter + 1) as u64,
            bytes_received: if receive_due(s) {
                (s.bytes_received + 16) as u64
            } else {
                s.bytes_received
            },
            bytes_sent: if send_due(s) {
                (s.bytes_sent + 8) as u64
            } else {
                s.bytes_sent
            },
            ..s
        })
    }
}

impl CaptureState {
    /// A fresh session: idle, no device selected, all counters zero.
    pub fn new() -> (s: Self)
        ensures
            !s.is_capturing,
            s.selected_device_vendor_id == 0,
            s.selected_device_product_id == 0,
            s.packet_counter == 0,
            s.bytes_received == 0,
            s.bytes_sent == 0,
    {
        CaptureState {
            is_capturing: false,
            selected_device_vendor_id: 0,
            selected_device_product_id: 0,
            packet_counter: 0,
            bytes_received: 0,
            bytes_sent: 0,
        }
    }

    /// Begins capturing from the given device. On a session that is already
    /// capturing nothing changes and the conflict is reported.
    pub fn start(&mut self, vendor_id: u16, product_id: u16) -> (r: Result<(), CaptureError>)
        ensures
            old(self).is_capturing ==> r == Err::<(), CaptureError>(CaptureError::AlreadyCapturing)
                && *final(self) == *old(self),
            !old(self).is_capturing ==> r == Ok::<(), CaptureError>(())
                && *final(self) == spec_start(*old(self), vendor_id, product_id),
    {
        if self.is_capturing {
            return Err(CaptureError::AlreadyCapturing);
        }
        self.is_capturing = true;
        self.selected_device_vendor_id = vendor_id;
        self.selected_device_product_id = product_id;
        Ok(())
    }

    /// Stops capturing. The counters are kept; on an idle session nothing
    /// changes and the conflict is reported.
    pub fn stop(&mut self) -> (r: Result<(), CaptureError>)
        ensures
            *final(self) == spec_idle(*old(self)),
            old(self).is_capturing ==> r == Ok::<(), CaptureError>(()),
            !old(self).is_capturing ==> r == Err::<(), CaptureError>(CaptureError::NotCapturing),
    {
        if !self.is_capturing {
            return Err(CaptureError::NotCapturing);
        }
        self.is_capturing = false;
        Ok(())
    }

    /// Forces the session idle, whatever state it was in: the effect of
    /// tearing the surrounding context down. Counters are kept.
    pub fn force_idle(&mut self)
        ensures
            *final(self) == spec_idle(*old(self)),
    {
        self.is_capturing = false;
    }

    /// Snapshot of the counters and the capturing flag.
    pub fn stats(&self) -> (st: Stats)
        ensures
            st.packet_counter == self.packet_counter,
            st.bytes_received == self.bytes_received,
            st.bytes_sent == self.bytes_sent,
            st.is_capturing == self.is_capturing,
    {
        Stats {
            packet_counter: self.packet_counter,
            bytes_received: self.bytes_received,
            bytes_sent: self.bytes_sent,
            is_capturing: self.is_capturing,
        }
    }

    /// One poll. Idle sessions yield nothing and stay as they are. A
    /// capturing session emits an inbound 16-byte packet when the counter is
    /// divisible by 3 and an outbound 8-byte packet when it is divisible by
    /// 5 (inbound first when both), stamps every packet with the one given
    /// timestamp, adds the emitted lengths to the byte counters, and then
    /// advances the packet counter by exactly one.
    pub fn poll(&mut self, timestamp: u64) -> (packets: Vec<UsbPacket>)
        requires
            old(self).is_capturing ==> poll_fits(*old(self)),
        ensures
            *final(self) == spec_poll(*old(self)),
            !old(self).is_capturing ==> packets@.len() == 0,
            old(self).is_capturing ==> ({
                let s = *old(self);
                &&& receive_due(s) && send_due(s) ==> packets@.len() == 2
                    && is_receive_packet(packets@[0], timestamp)
                    && is_send_packet(packets@[1], timestamp)
                &&& receive_due(s) && !send_due(s) ==> packets@.len() == 1
                    && is_receive_packet(packets@[0], timestamp)
                &&& !receive_due(s) && send_due(s) ==> packets@.len() == 1
                    && is_send_packet(packets@[0], timestamp)
                &&& !receive_due(s) && !send_due(s) ==> packets@.len() == 0
            }),
    {
        let mut packets: Vec<UsbPacket> = Vec::new();
        if !self.is_capturing {
            return packets;
        }
        if self.packet_counter % 3 == 0 {
            let p = make_receive_packet(timestamp);
            packets.push(p);
            self.bytes_received = self.bytes_received + 16;
        }
        if self.packet_counter % 5 == 0 {
            let p = make_send_packet(timestamp);
            packets.push(p);
            self.bytes_sent = self.bytes_sent + 8;
        }
        self.packet_counter = self.packet_counter + 1;
        packets
    }
}

/// Counts one more packet and adds its length to the counter that its type
/// selects: 0 for received bytes, 1 for sent bytes, anything else touches
/// neither.
pub fn update_stats(state: &mut CaptureState, packet_type: i32, data_length: usize)
    requires
        old(state).packet_counter < u64::MAX,
        packet_type == 0 ==> old(state).bytes_received + data_length <= u64::MAX,
        packet_type == 1 ==> old(state).bytes_sent + data_length <= u64::MAX,
    ensures
        final(state).packet_counter == old(state).packet_counter + 1,
        final(state).bytes_received == old(state).bytes_received + (if packet_type == 0 {
            data_length as int
        } else {
            0
        }),
        final(state).bytes_sent == old(state).bytes_sent + (if packet_type == 1 {
            data_length as int
        } else {
            0
        }),
        final(state).is_capturing == old(state).is_capturing,
        final(state).selected_device_vendor_id == old(state).selected_device_vendor_id,
        final(state).selected_device_product_id == old(state).selected_device_product_id,
{
    state.packet_counter = state.packet_counter + 1;
    if packet_type == 0 {
        state.bytes_received = state.bytes_received + data_length as u64;
    } else if packet_type == 1 {
        state.bytes_sent = state.bytes_sent + data_length as u64;
    }
}

/// The state after `n` polls of `s`.
pub open spec fn polls(s: CaptureState, n: nat) -> CaptureState
    decreases n,
{
    if n == 0 {
        s
    } else {
        spec_poll(polls(s, (n - 1) as nat))
    }
}

/// How many of the first `n` polls of a fresh session emit an inbound
/// packet: those whose counter value is divisible by 3.
pub open spec fn receive_fire_count(n: nat) -> nat
    decreases n,
{
    if n == 0 {
        0
    } else {
        receive_fire_count((n - 1) as nat) + if ((n - 1) as nat) % 3 == 0 {
            1nat
        } else {
            0nat
        }
    }
}

/// How many of the first `n` polls of a fresh session emit an outbound
/// packet: those whose counter value is divisible by 5.
pub open spec fn send_fire_count(n: nat) -> nat
    decreases n,
{
    if n == 0 {
        0
    } else {
        send_fire_count((n - 1) as nat) + if ((n - 1) as nat) % 5 == 0 {
            1nat
        } else {
            0nat
        }
    }
}

/// The poll cadence, from a fresh capturing session: after `n` polls the
/// packet counter is exactly `n`; poll number `k` (1-based, so acting on
/// counter value `k - 1`) emits an inbound packet iff `(k - 1) % 3 == 0` and
/// an outbound one iff `(k - 1) % 5 == 0`; `bytes_received` is 16 times the
/// number of polls whose inbound packet fired and `bytes_sent` 8 times the
/// number whose outbound packet fired.
pub proof fn lemma_poll_cadence(s: CaptureState, n: nat)
    requires
        s.is_capturing,
        s.packet_counter == 0,
        s.bytes_received == 0,
        s.bytes_sent == 0,
        n <= 0x0fff_ffff_ffff_ffff,
    ensures
        polls(s, n).is_capturing,
        polls(s, n).packet_counter == n,
        polls(s, n).bytes_received == 16 * receive_fire_count(n),
        polls(s, n).bytes_sent == 8 * send_fire_count(n),
        receive_fire_count(n) <= n,
        send_fire_count(n) <= n,
        receive_due(polls(s, n)) <==> n % 3 == 0,
        send_due(polls(s, n)) <==> n % 5 == 0,
    decreases n,
{
    if n > 0 {
        lemma_poll_cadence(s, (n - 1) as nat);
    }
}

/// Stopping makes the next poll a no-op: the stopped state is idle, a poll
/// of it changes nothing (and by poll's contract yields no packets), and
/// stopping itself left the packet counter untouched.
pub proof fn lemma_stop_then_poll(s: CaptureState)
    ensures
        !spec_idle(s).is_capturing,
        spec_poll(spec_idle(s)) == spec_idle(s),
        spec_idle(s).packet_counter == s.packet_counter,
{
}

/// Tearing the context down while capturing leaves the session idle with its
/// counters intact, so a following stop finds a non-capturing session and,
/// by stop's contract, reports the NotCapturing conflict.
pub proof fn lemma_cleanup_forces_idle(s: CaptureState)
    ensures
        !spec_idle(s).is_capturing,
        spec_idle(s).packet_counter == s.packet_counter,
        spec_idle(s).bytes_received == s.bytes_received,
        spec_idle(s).bytes_sent == s.bytes_sent,
        spec_idle(s).selected_device_vendor_id == s.selected_device_vendor_id,
        spec_idle(s).selected_device_product_id == s.selected_device_product_id,
{
}

} // verus!
