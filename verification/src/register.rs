//! Registers of the chips: where they are and how their fields lie in a
//! word.
//!
//! A chip has 32-bit registers, found by an address of one byte, and behind
//! one of them a second file of 8-bit core registers, found by an id.

use vstd::prelude::*;

verus! {

pub const CHIP_IDENTIFICATION_ADDR: u8 = 0x00;

pub const HASH_RATE_ADDR: u8 = 0x04;

pub const PLL0_PARAMETER_ADDR: u8 = 0x08;

pub const CHIP_NONCE_OFFSET_ADDR: u8 = 0x0c;

pub const HASH_COUNTING_NUMBER_ADDR: u8 = 0x10;

pub const TICKET_MASK_ADDR: u8 = 0x14;

pub const MISC_CONTROL_ADDR: u8 = 0x18;

pub const I2C_CONTROL_ADDR: u8 = 0x1c;

pub const ORDERED_CLOCK_ENABLE_ADDR: u8 = 0x20;

pub const FAST_UART_CONFIGURATION_ADDR: u8 = 0x28;

pub const UART_RELAY_ADDR: u8 = 0x2c;

pub const TICKET_MASK2_ADDR: u8 = 0x38;

pub const CORE_REGISTER_CONTROL_ADDR: u8 = 0x3c;

pub const CORE_REGISTER_VALUE_ADDR: u8 = 0x40;

pub const EXTERNAL_TEMPERATURE_SENSOR_READ_ADDR: u8 = 0x44;

pub const ERROR_FLAG_ADDR: u8 = 0x48;

pub const NONCE_ERROR_COUNTER_ADDR: u8 = 0x4c;

pub const NONCE_OVERFLOW_COUNTER_ADDR: u8 = 0x50;

pub const ANALOG_MUX_CONTROL_ADDR: u8 = 0x54;

pub const IO_DRIVER_STRENGTH_CONFIGURATION_ADDR: u8 = 0x58;

pub const TIME_OUT_ADDR: u8 = 0x5c;

pub const PLL1_PARAMETER_ADDR: u8 = 0x60;

pub const PLL2_PARAMETER_ADDR: u8 = 0x64;

pub const PLL3_PARAMETER_ADDR: u8 = 0x68;

pub const ORDERED_CLOCK_MONITOR_ADDR: u8 = 0x6c;

pub const PLL0_DIVIDER_ADDR: u8 = 0x70;

pub const PLL1_DIVIDER_ADDR: u8 = 0x74;

pub const PLL2_DIVIDER_ADDR: u8 = 0x78;

pub const PLL3_DIVIDER_ADDR: u8 = 0x7c;

pub const CLOCK_ORDER_CONTROL0_ADDR: u8 = 0x80;

pub const CLOCK_ORDER_CONTROL1_ADDR: u8 = 0x84;

pub const CLOCK_ORDER_STATUS_ADDR: u8 = 0x8c;

pub const FREQUENCY_SWEEP_CONTROL1_ADDR: u8 = 0x90;

pub const GOLDEN_NONCE_FOR_SWEEP_RETURN_ADDR: u8 = 0x94;

pub const RETURNED_GROUP_PATTERN_STATUS_ADDR: u8 = 0x98;

pub const NONCE_RETURNED_TIMEOUT_ADDR: u8 = 0x9c;

pub const RETURNED_SINGLE_PATTERN_STATUS_ADDR: u8 = 0xa0;

pub const VERSION_ROLLING_ADDR: u8 = 0xa4;

pub const REG_A8_ADDR: u8 = 0xa8;

pub const REG_B9_ADDR: u8 = 0xb9;

/// Id of the clock-delay control among the core registers.
pub const CLOCK_DELAY_CTRL_ID: u8 = 0;

pub const CORE_REG2_ID: u8 = 2;

pub const HASH_CLOCK_CTRL_ID: u8 = 5;

pub const HASH_CLOCK_COUNTER_ID: u8 = 6;

pub const CORE_REG8_ID: u8 = 8;

pub const CORE_REG11_ID: u8 = 11;

pub const CORE_REG22_ID: u8 = 22;

/// `word` with the field of width `mask` at bit `offset` replaced by
/// `value`; bits of `value` beyond the field are dropped.
pub open spec fn with_field(word: u32, offset: u32, mask: u32, value: u32) -> u32 {
    (word & !(mask << offset)) | ((value & mask) << offset)
}

/// The field of width `mask` at bit `offset` of `word`.
pub open spec fn field(word: u32, offset: u32, mask: u32) -> u32 {
    (word >> offset) & mask
}

/// `with_field` for the 8-bit core registers.
pub open spec fn with_field8(word: u8, offset: u8, mask: u8, value: u8) -> u8 {
    (word & !(mask << offset)) | ((value & mask) << offset)
}

/// Replaces the field of width `mask` at bit `offset` of `word`.
pub fn set_field(word: u32, offset: u32, mask: u32, value: u32) -> (updated: u32)
    requires
        offset < 32,
    ensures
        updated == with_field(word, offset, mask, value),
{
    (word & !(mask << offset)) | ((value & mask) << offset)
}

/// Reads the field of width `mask` at bit `offset` of `word`.
pub fn get_field(word: u32, offset: u32, mask: u32) -> (value: u32)
    requires
        offset < 32,
    ensures
        value == field(word, offset, mask),
{
    (word >> offset) & mask
}

/// Replaces the field of width `mask` at bit `offset` of a core register.
pub fn set_field8(word: u8, offset: u8, mask: u8, value: u8) -> (updated: u8)
    requires
        offset < 8,
    ensures
        updated == with_field8(word, offset, mask, value),
{
    (word & !(mask << offset)) | ((value & mask) << offset)
}

/// A field that was set reads back as it was written, cut to the width of
/// the field, and the bits outside the field stay as they were, as long as
/// the field lies inside the word.
pub proof fn lemma_field_round_trip(word: u32, offset: u32, mask: u32, value: u32)
    requires
        offset < 32,
        (mask << offset) >> offset == mask,
    ensures
        field(with_field(word, offset, mask, value), offset, mask) == value & mask,
        with_field(word, offset, mask, value) & !(mask << offset) == word & !(mask << offset),
{
    assert(((((word & !(mask << offset)) | ((value & mask) << offset)) >> offset) & mask) == value
        & mask && ((word & !(mask << offset)) | ((value & mask) << offset)) & !(mask << offset)
        == word & !(mask << offset)) by (bit_vector)
        requires
            offset < 32,
            (mask << offset) >> offset == mask,
    ;
}

// Core register control

/// Bit 31 of a core-register command: carry it out.
pub const CORE_REGISTER_DO_COMMAND: u32 = 0x8000_0000;

/// Bit 15 of a core-register command: write.
pub const CORE_REGISTER_WRITE: u32 = 0x0000_8000;

/// The word for the core-register control that writes `value` to core
/// register `register_id` of core `core_id`. The id takes five bits.
pub open spec fn spec_write_core_reg(core_id: u8, register_id: u8, value: u8) -> u32 {
    CORE_REGISTER_DO_COMMAND | ((core_id as u32) << 16) | CORE_REGISTER_WRITE | (((register_id
        & 0x1f) as u32) << 8) | (value as u32)
}

/// The word for the core-register control that writes `value` to core
/// register `register_id` of core `core_id`.
pub fn write_core_reg(core_id: u8, register_id: u8, value: u8) -> (word: u32)
    ensures
        word == spec_write_core_reg(core_id, register_id, value),
{
    CORE_REGISTER_DO_COMMAND | ((core_id as u32) << 16) | CORE_REGISTER_WRITE | (((register_id
        & 0x1f) as u32) << 8) | (value as u32)
}

// Clock delay control

/// The clock-delay control with the delay counter in bits 6 and 7 set.
pub open spec fn spec_set_ccdly(word: u8, ccdly: u8) -> u8 {
    with_field8(word, 6, 0x3, ccdly)
}

/// The clock-delay control with the pulse width in bits 3 to 5 set.
pub open spec fn spec_set_pwth(word: u8, pwth: u8) -> u8 {
    with_field8(word, 3, 0x7, pwth)
}

/// The clock-delay control with bit 0, the frequency sweep, cleared.
pub open spec fn spec_disable_sweep_frequency_mode(word: u8) -> u8 {
    with_field8(word, 0, 0x1, 0)
}

/// Sets the delay counter of a clock-delay control.
pub fn set_ccdly(word: u8, ccdly: u8) -> (updated: u8)
    ensures
        updated == spec_set_ccdly(word, ccdly),
{
    set_field8(word, 6, 0x3, ccdly)
}

/// Sets the pulse width of a clock-delay control.
pub fn set_pwth(word: u8, pwth: u8) -> (updated: u8)
    ensures
        updated == spec_set_pwth(word, pwth),
{
    set_field8(word, 3, 0x7, pwth)
}

/// Switches the frequency sweep of a clock-delay control off.
pub fn disable_sweep_frequency_mode(word: u8) -> (updated: u8)
    ensures
        updated == spec_disable_sweep_frequency_mode(word),
{
    set_field8(word, 0, 0x1, 0)
}

// Ticket mask

/// `byte` with its bits in the opposite order.
pub open spec fn reversed_byte(byte: u32) -> u32 {
    ((byte & 0x01) << 7) | ((byte & 0x02) << 5) | ((byte & 0x04) << 3) | ((byte & 0x08) << 1) | ((
    byte & 0x10) >> 1) | ((byte & 0x20) >> 3) | ((byte & 0x40) >> 5) | ((byte & 0x80) >> 7)
}

/// Every bit below the highest set bit of `difficulty`: one less than the
/// largest power of two that is not above `difficulty`.
pub open spec fn below_top_bit(difficulty: u32) -> u32 {
    if difficulty == 0 {
        0
    } else {
        ((1u32 << ((31 - difficulty.leading_zeros()) as u32)) - 1) as u32
    }
}

/// The ticket mask for `difficulty`: the bits below its highest set bit,
/// each byte with its bits in the opposite order.
pub open spec fn spec_ticket_mask(difficulty: u32) -> u32 {
    let plain = below_top_bit(difficulty);
    reversed_byte(plain & 0xff) | (reversed_byte((plain >> 8) & 0xff) << 8) | (reversed_byte(
        (plain >> 16) & 0xff,
    ) << 16) | (reversed_byte((plain >> 24) & 0xff) << 24)
}

/// Bit `index` of a reversed byte is bit `7 - index` of the byte.
pub proof fn lemma_reversed_byte(byte: u32, index: u32)
    requires
        byte <= 0xff,
        index < 8,
    ensures
        (reversed_byte(byte) >> index) & 1 == (byte >> ((7 - index) as u32)) & 1,
        reversed_byte(byte) <= 0xff,
{
    let reversed = reversed_byte(byte);
    let opposite: u32 = (7 - index) as u32;
    assert((reversed >> index) & 1 == (byte >> opposite) & 1 && reversed <= 0xff) by (bit_vector)
        requires
            byte <= 0xff,
            index < 8,
            opposite == 7 - index,
            reversed == ((byte & 0x01) << 7) | ((byte & 0x02) << 5) | ((byte & 0x04) << 3) | ((
            byte & 0x08) << 1) | ((byte & 0x10) >> 1) | ((byte & 0x20) >> 3) | ((byte & 0x40)
                >> 5) | ((byte & 0x80) >> 7),
    ;
}

/// The bits below the highest set bit of a difficulty are one less than a
/// power of two, and the difficulty lies from that power up to below twice
/// that power.
pub proof fn lemma_below_top_bit(difficulty: u32)
    requires
        difficulty >= 1,
    ensures
        below_top_bit(difficulty) & ((below_top_bit(difficulty) + 1) as u32) == 0,
        below_top_bit(difficulty) + 1 <= difficulty <= 2 * below_top_bit(difficulty) + 1,
{
    broadcast use vstd::std_specs::bits::axiom_u32_leading_zeros;

    let zeros = difficulty.leading_zeros();
    let top: u32 = (31 - zeros) as u32;
    let plain = below_top_bit(difficulty);
    assert(difficulty >> ((32 - zeros) as u32) == 0);
    assert((difficulty >> top) & 1 != 0);
    let above: u32 = (32 - zeros) as u32;
    assert(plain & ((plain + 1) as u32) == 0 && plain + 1 <= difficulty && difficulty <= 2 * plain
        + 1) by (bit_vector)
        requires
            top < 32,
            above == top + 1,
            above == 32 || difficulty >> above == 0,
            (difficulty >> top) & 1 != 0,
            plain == ((1u32 << top) - 1) as u32,
    ;
}

/// Reverses the bits of a byte.
fn reverse_byte(byte: u32) -> (reversed: u32)
    ensures
        reversed == reversed_byte(byte),
{
    ((byte & 0x01) << 7) | ((byte & 0x02) << 5) | ((byte & 0x04) << 3) | ((byte & 0x08) << 1) | ((
    byte & 0x10) >> 1) | ((byte & 0x20) >> 3) | ((byte & 0x40) >> 5) | ((byte & 0x80) >> 7)
}

/// The ticket mask that lets through the nonces of at least `difficulty`.
pub fn ticket_mask_from_difficulty(difficulty: u32) -> (mask: u32)
    ensures
        mask == spec_ticket_mask(difficulty),
{
    broadcast use vstd::std_specs::bits::axiom_u32_leading_zeros;

    let plain: u32 = if difficulty == 0 {
        0
    } else {
        let top: u32 = 31 - difficulty.leading_zeros();
        assert(1u32 << top >= 1) by (bit_vector)
            requires
                top < 32,
        ;
        (1u32 << top) - 1
    };
    reverse_byte(plain & 0xff) | (reverse_byte((plain >> 8) & 0xff) << 8) | (reverse_byte(
        (plain >> 16) & 0xff,
    ) << 16) | (reverse_byte((plain >> 24) & 0xff) << 24)
}

// UART relay

/// The UART relay with the gap count in bits 16 to 31 set.
pub open spec fn spec_set_gap_cnt(word: u32, gap_cnt: u16) -> u32 {
    with_field(word, 16, 0xffff, gap_cnt as u32)
}

/// The UART relay with bit 1, the relay of the RO line, set.
pub open spec fn spec_enable_ro_relay(word: u32) -> u32 {
    with_field(word, 1, 0x1, 1)
}

/// The UART relay with bit 0, the relay of the CO line, set.
pub open spec fn spec_enable_co_relay(word: u32) -> u32 {
    with_field(word, 0, 0x1, 1)
}

/// Sets the gap count of a UART relay.
pub fn set_gap_cnt(word: u32, gap_cnt: u16) -> (updated: u32)
    ensures
        updated == spec_set_gap_cnt(word, gap_cnt),
{
    set_field(word, 16, 0xffff, gap_cnt as u32)
}

/// Switches the relay of the RO line on.
pub fn enable_ro_relay(word: u32) -> (updated: u32)
    ensures
        updated == spec_enable_ro_relay(word),
{
    set_field(word, 1, 0x1, 1)
}

/// Switches the relay of the CO line on.
pub fn enable_co_relay(word: u32) -> (updated: u32)
    ensures
        updated == spec_enable_co_relay(word),
{
    set_field(word, 0, 0x1, 1)
}

// Fast UART configuration

/// The fast UART configuration with bit 26 cleared: the baud clock comes
/// from the input clock, not from PLL 3.
pub open spec fn spec_select_input_clock(word: u32) -> u32 {
    with_field(word, 26, 0x1, 0)
}

/// The fast UART configuration with the baud divider in bits 8 to 15 set.
pub open spec fn spec_set_bt8d(word: u32, bt8d: u8) -> u32 {
    with_field(word, 8, 0xff, bt8d as u32)
}

/// Takes the baud clock from the input clock.
pub fn select_input_clock(word: u32) -> (updated: u32)
    ensures
        updated == spec_select_input_clock(word),
{
    set_field(word, 26, 0x1, 0)
}

/// Sets the baud divider of a fast UART configuration.
pub fn set_bt8d(word: u32, bt8d: u8) -> (updated: u32)
    ensures
        updated == spec_set_bt8d(word, bt8d),
{
    set_field(word, 8, 0xff, bt8d as u32)
}

// Register A8

/// Register A8 with bit 8 set.
pub open spec fn spec_set_b8(word: u32) -> u32 {
    with_field(word, 8, 0x1, 1)
}

/// Register A8 with bits 4 to 7 set.
pub open spec fn spec_set_b7_4(word: u32, value: u8) -> u32 {
    with_field(word, 4, 0xf, value as u32)
}

/// Sets bit 8 of register A8.
pub fn set_b8(word: u32) -> (updated: u32)
    ensures
        updated == spec_set_b8(word),
{
    set_field(word, 8, 0x1, 1)
}

/// Sets bits 4 to 7 of register A8.
pub fn set_b7_4(word: u32, value: u8) -> (updated: u32)
    ensures
        updated == spec_set_b7_4(word, value),
{
    set_field(word, 4, 0xf, value as u32)
}

// Misc control

/// The misc control with bits 28 to 31 set: which cores return nonces.
pub open spec fn spec_set_core_return_nonce(word: u32, value: u8) -> u32 {
    with_field(word, 28, 0xf, value as u32)
}

/// The misc control with bits 26 and 27 set.
pub open spec fn spec_set_b27_26(word: u32, value: u8) -> u32 {
    with_field(word, 26, 0x3, value as u32)
}

/// The misc control with bits 24 and 25 set.
pub open spec fn spec_set_b25_24(word: u32, value: u8) -> u32 {
    with_field(word, 24, 0x3, value as u32)
}

/// The misc control with bits 16 to 19 set.
pub open spec fn spec_set_b19_16(word: u32, value: u8) -> u32 {
    with_field(word, 16, 0xf, value as u32)
}

/// Sets which cores return nonces.
pub fn set_core_return_nonce(word: u32, value: u8) -> (updated: u32)
    ensures
        updated == spec_set_core_return_nonce(word, value),
{
    set_field(word, 28, 0xf, value as u32)
}

/// Sets bits 26 and 27 of the misc control.
pub fn set_b27_26(word: u32, value: u8) -> (updated: u32)
    ensures
        updated == spec_set_b27_26(word, value),
{
    set_field(word, 26, 0x3, value as u32)
}

/// Sets bits 24 and 25 of the misc control.
pub fn set_b25_24(word: u32, value: u8) -> (updated: u32)
    ensures
        updated == spec_set_b25_24(word, value),
{
    set_field(word, 24, 0x3, value as u32)
}

/// Sets bits 16 to 19 of the misc control.
pub fn set_b19_16(word: u32, value: u8) -> (updated: u32)
    ensures
        updated == spec_set_b19_16(word, value),
{
    set_field(word, 16, 0xf, value as u32)
}

// Version rolling

/// Bits 31 and 28 of the version-rolling control: rolling is on.
pub const VERSION_ROLLING_ENABLE: u32 = 0x9000_0000;

/// Position of the lowest bit of a block version that a chip can roll.
pub const VERSION_ROLLING_SHIFT: u32 = 13;

/// The version-rolling control with rolling switched on.
pub open spec fn spec_enable_version_rolling(word: u32) -> u32 {
    word | VERSION_ROLLING_ENABLE
}

/// The version-rolling control with bits 13 to 28 of `version_mask` in its
/// low sixteen bits.
pub open spec fn spec_set_version_mask(word: u32, version_mask: u32) -> u32 {
    with_field(word, 0, 0xffff, version_mask >> VERSION_ROLLING_SHIFT)
}

/// Switches version rolling on.
pub fn enable_version_rolling(word: u32) -> (updated: u32)
    ensures
        updated == spec_enable_version_rolling(word),
{
    word | VERSION_ROLLING_ENABLE
}

/// Sets the version mask of a version-rolling control.
pub fn set_version_mask(word: u32, version_mask: u32) -> (updated: u32)
    ensures
        updated == spec_set_version_mask(word, version_mask),
{
    set_field(word, 0, 0xffff, version_mask >> VERSION_ROLLING_SHIFT)
}

} // verus!
