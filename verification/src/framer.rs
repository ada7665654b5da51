//! Deterministic framing of synthetic USB packets: a fixed 4-byte header, a
//! payload derived from the byte index alone, and a fixed 2-byte trailer.

use vstd::prelude::*;
use vstd::arithmetic::div_mod::lemma_mul_mod_noop_left;

verus! {

/// Transfer direction of a synthetic frame.
#[derive(Clone, Copy, PartialEq, Eq, Structural, Debug)]
pub enum Direction {
    DeviceToHost,
    HostToDevice,
}

/// Sync byte, packet id, address and endpoint for the given direction.
pub open spec fn frame_header(dir: Direction) -> Seq<u8> {
    match dir {
        Direction::DeviceToHost => seq![0x80u8, 0x69u8, 0x12u8, 0x34u8],
        Direction::HostToDevice => seq![0x80u8, 0xE1u8, 0xABu8, 0xCDu8],
    }
}

/// Fixed two-byte pseudo-CRC trailer for the given direction.
pub open spec fn frame_trailer(dir: Direction) -> Seq<u8> {
    match dir {
        Direction::DeviceToHost => seq![0x56u8, 0x78u8],
        Direction::HostToDevice => seq![0x9Au8, 0xBCu8],
    }
}

/// Multiplier that generates the payload bytes for the given direction.
pub open spec fn frame_multiplier(dir: Direction) -> int {
    match dir {
        Direction::DeviceToHost => 7,
        Direction::HostToDevice => 11,
    }
}

/// Payload length: the target length minus the 6 bytes of framing overhead,
/// saturating at zero.
pub open spec fn payload_len(target: nat) -> nat {
    if target >= 6 {
        (target - 6) as nat
    } else {
        0
    }
}

/// Payload byte at 0-based index `i`.
pub open spec fn payload_byte(dir: Direction, i: int) -> u8 {
    (((i + 4) * frame_multiplier(dir)) % 256) as u8
}

pub open spec fn frame_payload(dir: Direction, n: nat) -> Seq<u8> {
    Seq::new(n, |i: int| payload_byte(dir, i))
}

/// The whole frame for a target length: header, payload, trailer.
pub open spec fn frame_spec(dir: Direction, target: nat) -> Seq<u8> {
    frame_header(dir) + frame_payload(dir, payload_len(target)) + frame_trailer(dir)
}

/// Builds one synthetic frame of the given target length and direction.
pub fn generate_usb_data_packet(length: usize, direction: Direction) -> (data: Vec<u8>)
    ensures
        data@ == frame_spec(direction, length as nat),
        data@.len() == payload_len(length as nat) + 6,
{
    let mut data: Vec<u8> = Vec::new();
    match direction {
        Direction::DeviceToHost => {
            data.push(0x80);
            data.push(0x69);
            data.push(0x12);
            data.push(0x34);
        },
        Direction::HostToDevice => {
            data.push(0x80);
            data.push(0xE1);
            data.push(0xAB);
            data.push(0xCD);
        },
    }
    assert(data@ =~= frame_header(direction));
    let multiplier: usize = match direction {
        Direction::DeviceToHost => 7,
        Direction::HostToDevice => 11,
    };
    let n: usize = if length >= 6 {
        length - 6
    } else {
        0
    };
    assert(n as nat == payload_len(length as nat));
    let mut i: usize = 0;
    while i < n
        invariant
            i <= n,
            n <= usize::MAX - 6,
            multiplier == frame_multiplier(direction),
            data@ == frame_header(direction) + frame_payload(direction, i as nat),
        decreases n - i,
    {
        let t: usize = (i + 4) % 256;
        let b: u8 = ((t * multiplier) % 256) as u8;
        proof {
            lemma_mul_mod_noop_left((i + 4) as int, multiplier as int, 256);
            assert(b == payload_byte(direction, i as int));
        }
        data.push(b);
        proof {
            assert(frame_payload(direction, (i + 1) as nat) =~= frame_payload(
                direction,
                i as nat,
            ).push(payload_byte(direction, i as int)));
            assert(data@ =~= frame_header(direction) + frame_payload(direction, (i + 1) as nat));
        }
        i = i + 1;
    }
    match direction {
        Direction::DeviceToHost => {
            data.push(0x56);
            data.push(0x78);
        },
        Direction::HostToDevice => {
            data.push(0x9A);
            data.push(0xBC);
        },
    }
    assert(data@ =~= frame_spec(direction, length as nat));
    data
}

} // verus!
