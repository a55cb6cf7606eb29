//! Framing of register writes for the chained serial bus.
//!
//! A write is an eleven-byte frame: the preamble `55 AA`, a header byte that
//! tells a broadcast from a write to one chip, the length byte `09`, the chip
//! address, the register address, the value most significant byte first, and
//! a five-bit checksum over everything behind the preamble.

use vstd::prelude::*;

verus! {

/// Header byte of a write addressed to every chip of the chain.
pub const HEADER_WRITE_ALL: u8 = 0x51;

/// Header byte of a write addressed to one chip.
pub const HEADER_WRITE_CHIP: u8 = 0x41;

/// Whom a command is for.
#[derive(Clone, Copy, Debug, PartialEq, Eq, Structural)]
pub enum Destination {
    /// Every chip of the chain.
    All,
    /// The chip with this address.
    Chip(u8),
}

impl Destination {
    /// The header byte that announces a write to this destination.
    pub open spec fn header(self) -> u8 {
        match self {
            Destination::All => HEADER_WRITE_ALL,
            Destination::Chip(_) => HEADER_WRITE_CHIP,
        }
    }

    /// The chip-address byte of a frame for this destination.
    pub open spec fn address_byte(self) -> u8 {
        match self {
            Destination::All => 0,
            Destination::Chip(address) => address,
        }
    }
}

/// One command for the bus and the pause the host keeps after sending it.
#[derive(Clone, Copy, Debug, PartialEq, Eq)]
pub struct CmdDelay {
    /// The frame, ready to transmit.
    pub cmd: [u8; 11],
    /// Milliseconds to wait once the frame is out.
    pub delay_ms: u32,
}

/// A register write as the sequence generators decide it, before framing.
pub struct RegisterWrite {
    pub address: u8,
    pub value: u32,
    pub destination: Destination,
    pub delay_ms: u32,
}

/// The checksum register after one more message bit. The generator
/// polynomial is x^5 + x^2 + 1.
pub open spec fn crc5_bit(crc: u8, bit: bool) -> u8 {
    let shifted = (crc << 1) & 0x1f;
    if ((crc >> 4) & 1 == 1) != bit {
        shifted ^ 0x05
    } else {
        shifted
    }
}

/// The checksum register after the `count` most significant bits of `byte`.
pub open spec fn crc5_bits(crc: u8, byte: u8, count: nat) -> u8
    decreases count,
{
    if count == 0 {
        crc
    } else {
        crc5_bit(
            crc5_bits(crc, byte, (count - 1) as nat),
            (byte >> ((8 - count) as u8)) & 1 == 1,
        )
    }
}

/// The five-bit checksum of `data`: the register starts with all five bits
/// set and takes the bytes in order, each most significant bit first.
pub open spec fn crc5(data: Seq<u8>) -> u8
    decreases data.len(),
{
    if data.len() == 0 {
        0x1f
    } else {
        crc5_bits(crc5(data.drop_last()), data.last(), 8)
    }
}

/// Byte `index` of `value`, counted from the least significant.
pub open spec fn value_byte(value: u32, index: u32) -> u8 {
    ((value >> (8 * index)) & 0xff) as u8
}

/// The eight bytes between preamble and checksum.
pub open spec fn write_reg_payload(address: u8, value: u32, destination: Destination) -> Seq<u8> {
    seq![
        destination.header(),
        0x09u8,
        destination.address_byte(),
        address,
        value_byte(value, 3),
        value_byte(value, 2),
        value_byte(value, 1),
        value_byte(value, 0),
    ]
}

/// The frame that writes `value` to register `address` at `destination`.
pub open spec fn write_reg_frame(address: u8, value: u32, destination: Destination) -> Seq<u8> {
    let payload = write_reg_payload(address, value, destination);
    seq![0x55u8, 0xaau8] + payload + seq![crc5(payload)]
}

/// Whether `step` carries `write`: the frame of the write and its delay.
pub open spec fn step_encodes(step: CmdDelay, write: RegisterWrite) -> bool {
    &&& step.cmd@ == write_reg_frame(write.address, write.value, write.destination)
    &&& step.delay_ms == write.delay_ms
}

/// Whether `steps` carries `writes`, one step for each write, in order.
pub open spec fn steps_encode(steps: Seq<CmdDelay>, writes: Seq<RegisterWrite>) -> bool {
    &&& steps.len() == writes.len()
    &&& forall|i: int| 0 <= i < steps.len() ==> step_encodes(#[trigger] steps[i], writes[i])
}

fn crc5_step(crc: u8, bit: bool) -> (next: u8)
    ensures
        next == crc5_bit(crc, bit),
{
    let shifted: u8 = (crc << 1) & 0x1f;
    if ((crc >> 4) & 1 == 1) != bit {
        shifted ^ 0x05
    } else {
        shifted
    }
}

fn crc5_update(crc: u8, byte: u8) -> (next: u8)
    ensures
        next == crc5_bits(crc, byte, 8),
{
    let mut state: u8 = crc;
    let mut done: u8 = 0;
    while done < 8
        invariant
            done <= 8,
            state == crc5_bits(crc, byte, done as nat),
        decreases 8 - done,
    {
        let bit = (byte >> (7 - done)) & 1 == 1;
        state = crc5_step(state, bit);
        done = done + 1;
    }
    state
}

/// A checksum has five bits.
pub proof fn lemma_crc5_has_five_bits(data: Seq<u8>)
    ensures
        crc5(data) <= 0x1f,
    decreases data.len(),
{
    if data.len() > 0 {
        lemma_crc5_has_five_bits(data.drop_last());
        lemma_crc5_bits_has_five_bits(crc5(data.drop_last()), data.last(), 8);
    }
}

proof fn lemma_crc5_bits_has_five_bits(crc: u8, byte: u8, count: nat)
    requires
        crc <= 0x1f,
    ensures
        crc5_bits(crc, byte, count) <= 0x1f,
    decreases count,
{
    if count > 0 {
        lemma_crc5_bits_has_five_bits(crc, byte, (count - 1) as nat);
        let before = crc5_bits(crc, byte, (count - 1) as nat);
        assert(((before << 1) & 0x1f) ^ 0x05 <= 0x1f && (before << 1) & 0x1f <= 0x1f) by (bit_vector);
    }
}

/// The five-bit checksum the chips expect behind a frame's payload.
pub fn crc5_checksum(data: &[u8]) -> (crc: u8)
    ensures
        crc == crc5(data@),
        crc <= 0x1f,
{
    proof {
        lemma_crc5_has_five_bits(data@);
    }
    let mut state: u8 = 0x1f;
    let mut index: usize = 0;
    while index < data.len()
        invariant
            index <= data.len(),
            state == crc5(data@.take(index as int)),
        decreases data.len() - index,
    {
        proof {
            let next = data@.take(index + 1);
            assert(next.drop_last() == data@.take(index as int));
            assert(next.last() == data@[index as int]);
        }
        state = crc5_update(state, data[index]);
        index = index + 1;
    }
    proof {
        assert(data@.take(index as int) == data@);
    }
    state
}

/// Frames a write of `value` to register `address` at `destination`.
pub fn write_reg(address: u8, value: u32, destination: Destination) -> (frame: [u8; 11])
    ensures
        frame@ == write_reg_frame(address, value, destination),
{
    let (header, chip): (u8, u8) = match destination {
        Destination::All => (HEADER_WRITE_ALL, 0),
        Destination::Chip(chip_address) => (HEADER_WRITE_CHIP, chip_address),
    };
    let payload: [u8; 8] = [
        header,
        0x09,
        chip,
        address,
        #[verifier::truncate] (((value >> 24) & 0xff) as u8),
        #[verifier::truncate] (((value >> 16) & 0xff) as u8),
        #[verifier::truncate] (((value >> 8) & 0xff) as u8),
        #[verifier::truncate] ((value & 0xff) as u8),
    ];
    proof {
        assert(value >> 0 == value) by (bit_vector);
        assert(payload@ =~= write_reg_payload(address, value, destination));
    }
    let crc = crc5_checksum(payload.as_slice());
    let frame: [u8; 11] = [
        0x55,
        0xaa,
        payload[0],
        payload[1],
        payload[2],
        payload[3],
        payload[4],
        payload[5],
        payload[6],
        payload[7],
        crc,
    ];
    proof {
        assert(frame@ =~= write_reg_frame(address, value, destination));
    }
    frame
}

/// Frames a register write and attaches the pause to keep after it.
pub fn encode_step(address: u8, value: u32, destination: Destination, delay_ms: u32) -> (step: CmdDelay)
    ensures
        step_encodes(
            step,
            (RegisterWrite { address, value, destination, delay_ms }),
        ),
{
    CmdDelay { cmd: write_reg(address, value, destination), delay_ms }
}

} // verus!
