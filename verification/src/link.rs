use crate::constants::ACK_TERMINATOR;
use vstd::prelude::*;

verus! {

/// One shift step of the XMODEM CRC: shift left and, when the high bit
/// falls out, fold in the 0x1021 polynomial.
pub open spec fn crc_shift(c: u16) -> u16 {
    if c & 0x8000 != 0 {
        (c << 1) ^ 0x1021
    } else {
        c << 1
    }
}

/// `crc_shift` applied `n` times.
pub open spec fn crc_shifts(c: u16, n: nat) -> u16
    decreases n,
{
    if n == 0 {
        c
    } else {
        crc_shift(crc_shifts(c, (n - 1) as nat))
    }
}

/// Folding one byte into the CRC state: the byte enters through the high
/// eight bits, then the register shifts eight times.
pub open spec fn crc_step(c: u16, b: u8) -> u16 {
    crc_shifts(c ^ ((b as u16) << 8), 8)
}

/// CRC-16/XMODEM of a byte sequence: polynomial 0x1021, zero seed, bytes
/// folded in order.
pub open spec fn crc16_xmodem(s: Seq<u8>) -> u16
    decreases s.len(),
{
    if s.len() == 0 {
        0u16
    } else {
        crc_step(crc16_xmodem(s.drop_last()), s.last())
    }
}

/// Wire bytes of a link control frame: the control byte and optional
/// payload, the CRC-16/XMODEM over them in big-endian order, then the
/// fixed terminator.
pub open spec fn control_frame_bytes(control: u8, payload: Seq<u8>) -> Seq<u8> {
    let body = seq![control] + payload;
    let crc = crc16_xmodem(body);
    body + seq![(crc >> 8) as u8, (crc & 0xFF) as u8, ACK_TERMINATOR]
}

/// CRC-16/XMODEM over a byte buffer, bit-serial form: zero seed, 0x1021
/// polynomial, no reflection.
pub fn calc_crc16(data: &[u8]) -> (r: u16)
    ensures
        r == crc16_xmodem(data@),
{
    let mut crc: u16 = 0;
    let mut i: usize = 0;
    while i < data.len()
        invariant
            i <= data@.len(),
            crc == crc16_xmodem(data@.take(i as int)),
        decreases data@.len() - i,
    {
        let b: u8 = data[i];
        let mut c: u16 = crc ^ ((b as u16) << 8);
        let ghost start: u16 = c;
        let mut j: usize = 0;
        while j < 8
            invariant
                j <= 8,
                c == crc_shifts(start, j as nat),
            decreases 8 - j,
        {
            if c & 0x8000 != 0 {
                c = (c << 1) ^ 0x1021;
            } else {
                c = c << 1;
            }
            j = j + 1;
        }
        proof {
            assert(data@.take(i + 1).drop_last() =~= data@.take(i as int));
            assert(data@.take(i + 1).last() == data@[i as int]);
        }
        crc = c;
        i = i + 1;
    }
    proof {
        assert(data@.take(data@.len() as int) =~= data@);
    }
    crc
}

/// Build a link control frame: the control byte, the payload if one is
/// given, the CRC-16/XMODEM over both as two big-endian bytes, and the
/// terminator.
pub fn make_control_frame(control: u8, payload: Option<Vec<u8>>) -> (r: Vec<u8>)
    ensures
        match payload {
            Some(p) => r@ == control_frame_bytes(control, p@),
            None => r@ == control_frame_bytes(control, Seq::<u8>::empty()),
        },
{
    let mut body: Vec<u8> = Vec::new();
    body.push(control);
    match &payload {
        Some(p) => {
            let mut i: usize = 0;
            while i < p.len()
                invariant
                    i <= p@.len(),
                    body@ == seq![control] + p@.take(i as int),
                decreases p@.len() - i,
            {
                body.push(p[i]);
                proof {
                    assert(p@.take(i + 1) =~= p@.take(i as int).push(p@[i as int]));
                }
                i = i + 1;
            }
            proof {
                assert(p@.take(p@.len() as int) =~= p@);
            }
        },
        None => {
            proof {
                assert(body@ =~= seq![control] + Seq::<u8>::empty());
            }
        },
    }
    let crc: u16 = calc_crc16(body.as_slice());
    body.push((crc >> 8) as u8);
    body.push((crc & 0x00FF) as u8);
    body.push(ACK_TERMINATOR);
    proof {
        match payload {
            Some(p) => {
                assert(body@ =~= control_frame_bytes(control, p@));
            },
            None => {
                assert(body@ =~= control_frame_bytes(control, Seq::<u8>::empty()));
            },
        }
    }
    body
}

/// Build the acknowledgement frame for a sequence number: the control
/// byte marks an ACK in its high bit and carries the sequence in its low
/// three bits; the frame carries no payload.
pub fn make_ack_frame(sequence: u8) -> (r: Vec<u8>)
    ensures
        r@ == control_frame_bytes(0x80u8 | (sequence & 0x07), Seq::<u8>::empty()),
{
    let control: u8 = 0x80 | (sequence & 0x07);
    make_control_frame(control, None)
}

/// Frame number carried in bits[6:4] of a received link control byte.
pub fn frame_number(control: u8) -> (r: u8)
    ensures
        r == (control & 0x70) >> 4,
{
    (control & 0x70) >> 4
}

/// Retransmit flag carried in bit 3 of a received link control byte.
pub fn retransmit_flag(control: u8) -> (r: u8)
    ensures
        r == (control & 0x08) >> 3,
{
    (control & 0x08) >> 3
}

/// Sequence number to acknowledge after `frame_number`: one more, wrapping
/// in the 3-bit sequence space.
pub fn next_ack_sequence(frame_number: u8) -> (r: u8)
    ensures
        r == ((frame_number + 1) as u8) & 0x07,
{
    proof {
        let n = frame_number;
        assert(((n & 0x07) + 1) < 256) by (bit_vector);
        assert((((n & 0x07) + 1) as u8) & 0x07 == ((n + 1) as u8) & 0x07) by (bit_vector);
    }
    ((frame_number & 0x07) + 1) & 0x07
}

} // verus!
