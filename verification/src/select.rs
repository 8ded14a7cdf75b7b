//! The control byte of the multiplexer.
//!
//! The chip has one control register of eight bits, one bit for each
//! channel. Whatever byte is written to the chip's address lands in that
//! register, and a channel is connected to the upstream bus exactly while its
//! bit is set.
use vstd::prelude::*;

verus! {

/// Number of downstream channels behind one chip.
pub const CHANNELS: u8 = 8;

/// The control byte that disconnects every channel.
pub const DESELECT_ALL: u8 = 0x00;

/// Whether the control byte `byte` connects `channel`: whether bit `channel`
/// of `byte` is set.
pub open spec fn connects(byte: u8, channel: u8) -> bool {
    (byte >> channel) & 1 == 1
}

/// The control byte that selects `channel`: bit `channel` set, all other
/// bits clear.
pub open spec fn select_byte(channel: u8) -> u8 {
    1u8 << channel
}

/// Computes the control byte that selects `channel`.
pub fn select(channel: u8) -> (byte: u8)
    requires
        channel < CHANNELS,
    ensures
        byte == select_byte(channel),
{
    1u8 << channel
}

/// The select byte of a channel connects that channel and no other.
pub proof fn lemma_select_byte_connects_one_channel(channel: u8, other: u8)
    requires
        channel < CHANNELS,
        other < CHANNELS,
    ensures
        connects(select_byte(channel), other) <==> other == channel,
{
    assert(channel < 8 && other < 8 ==> ((((1u8 << channel) >> other) & 1 == 1) <==> other
        == channel)) by (bit_vector);
}

/// The deselect byte connects no channel, and no select byte equals it.
pub proof fn lemma_deselect_connects_no_channel(channel: u8)
    requires
        channel < CHANNELS,
    ensures
        !connects(DESELECT_ALL, channel),
        select_byte(channel) != DESELECT_ALL,
{
    assert(channel < 8 ==> (0u8 >> channel) & 1 != 1) by (bit_vector);
    assert(channel < 8 ==> (1u8 << channel) != 0u8) by (bit_vector);
}

} // verus!
