//! The command sequences that configure a chain of BM1370.
//!
//! Each generator returns the commands in the order in which they are to go
//! out, each with the pause to keep after it, and writes into the shadow
//! registers of the model what the commands write into the chips.

use crate::bm1370::{
    ChipState, BM1370, BM1370_PLL_ID_HASH, BM1370_PLL_ID_UART, BM1370_PLL_OUT_UART,
};
use crate::command::{encode_step, steps_encode, Destination, RegisterWrite};
use crate::pll::{
    lemma_command_word_fields, lemma_found_dividers_reach_target, search_dividers, spec_search,
    Pll, PllDividers,
};
use crate::register::{
    disable_sweep_frequency_mode, enable_co_relay, enable_ro_relay, enable_version_rolling,
    select_input_clock,
    set_b19_16, set_b25_24, set_b27_26, set_b7_4, set_b8, set_bt8d, set_ccdly,
    set_core_return_nonce, set_gap_cnt, set_pwth, set_version_mask,
    spec_disable_sweep_frequency_mode, spec_enable_co_relay, spec_enable_ro_relay,
    spec_enable_version_rolling, spec_select_input_clock, spec_set_b19_16, spec_set_b25_24,
    spec_set_b27_26, spec_set_b7_4, spec_set_b8, spec_set_bt8d, spec_set_ccdly,
    spec_set_core_return_nonce, spec_set_gap_cnt, spec_set_pwth, spec_set_version_mask,
    spec_ticket_mask, spec_write_core_reg, ticket_mask_from_difficulty, write_core_reg,
    ANALOG_MUX_CONTROL_ADDR, CHIP_NONCE_OFFSET_ADDR, CLOCK_DELAY_CTRL_ID, CORE_REG11_ID,
    CORE_REG2_ID, CORE_REGISTER_CONTROL_ADDR, FAST_UART_CONFIGURATION_ADDR,
    HASH_COUNTING_NUMBER_ADDR, IO_DRIVER_STRENGTH_CONFIGURATION_ADDR, MISC_CONTROL_ADDR,
    PLL0_PARAMETER_ADDR, PLL3_PARAMETER_ADDR, REG_A8_ADDR, REG_B9_ADDR, TICKET_MASK_ADDR,
    UART_RELAY_ADDR, VERSION_ROLLING_ADDR,
};
use crate::topology::ChainTopology;
use crate::shadow::{
    command_steps, core_register_get, core_register_insert, core_register_values,
    new_command_list, push_command, register_get, register_insert, register_values, CommandList,
    CoreRegisterMap, RegisterMap, COMMAND_CAPACITY,
};
use vstd::prelude::*;

verus! {

/// Pause after each command of the initialisation and of a core reset.
pub const SETTLE_DELAY_MS: u32 = 10;

/// What a core reset writes into the clock-delay control.
pub const RESET_CLOCK_DELAY: u8 = 0x0c;

/// What a core reset writes into core register 2.
pub const RESET_CORE_REG2: u8 = 0xaa;

/// The write of `value` to register `address` at `destination`, followed by
/// a pause of `delay_ms`.
pub open spec fn write_to(address: u8, value: u32, destination: Destination, delay_ms: u32)
    -> RegisterWrite {
    RegisterWrite { address, value, destination, delay_ms }
}

/// Appends the command for one register write to `list`.
fn emit(
    list: &mut CommandList,
    Ghost(done): Ghost<Seq<RegisterWrite>>,
    address: u8,
    value: u32,
    destination: Destination,
    delay_ms: u32,
)
    requires
        steps_encode(command_steps(*old(list)), done),
        done.len() < COMMAND_CAPACITY,
    ensures
        steps_encode(
            command_steps(*final(list)),
            done.push(write_to(address, value, destination, delay_ms)),
        ),
{
    let step = encode_step(address, value, destination, delay_ms);
    let _ = push_command(list, step);
}

/// Reads a register from the shadow.
fn shadow_read(registers: &RegisterMap, address: u8) -> (value: u32)
    requires
        register_values(*registers).contains_key(address),
    ensures
        value == register_values(*registers)[address],
{
    register_get(registers, address).unwrap()
}

/// Writes a register that the shadow holds already.
fn shadow_write(registers: &mut RegisterMap, address: u8, value: u32)
    requires
        register_values(*old(registers)).contains_key(address),
    ensures
        register_values(*final(registers)) == register_values(*old(registers)).insert(
            address,
            value,
        ),
{
    let _ = register_insert(registers, address, value);
}

/// Reads a core register from the shadow.
fn core_shadow_read(registers: &CoreRegisterMap, id: u8) -> (value: u8)
    requires
        core_register_values(*registers).contains_key(id),
    ensures
        value == core_register_values(*registers)[id],
{
    core_register_get(registers, id).unwrap()
}

/// Writes a core register that the shadow holds already.
fn core_shadow_write(registers: &mut CoreRegisterMap, id: u8, value: u8)
    requires
        core_register_values(*old(registers)).contains_key(id),
    ensures
        core_register_values(*final(registers)) == core_register_values(*old(registers)).insert(
            id,
            value,
        ),
{
    let _ = core_register_insert(registers, id, value);
}

// Initialisation

/// The clock-delay control as the initialisation sets it: delay counter 0,
/// pulse width 2, no frequency sweep.
pub open spec fn init_clock_delay(current: u8) -> u8 {
    spec_disable_sweep_frequency_mode(spec_set_pwth(spec_set_ccdly(current, 0), 2))
}

/// The writes of the initialisation: core register 11 as it stands, the
/// clock-delay control, and the ticket mask for `difficulty`, each to every
/// chip.
pub open spec fn init_writes(state: ChipState, difficulty: u32) -> Seq<RegisterWrite> {
    seq![
        write_to(
            CORE_REGISTER_CONTROL_ADDR,
            spec_write_core_reg(0, CORE_REG11_ID, state.core_registers[CORE_REG11_ID]),
            Destination::All,
            SETTLE_DELAY_MS,
        ),
        write_to(
            CORE_REGISTER_CONTROL_ADDR,
            spec_write_core_reg(
                0,
                CLOCK_DELAY_CTRL_ID,
                init_clock_delay(state.core_registers[CLOCK_DELAY_CTRL_ID]),
            ),
            Destination::All,
            SETTLE_DELAY_MS,
        ),
        write_to(TICKET_MASK_ADDR, spec_ticket_mask(difficulty), Destination::All, SETTLE_DELAY_MS),
    ]
}

/// The state that the initialisation leaves.
pub open spec fn after_init(state: ChipState, difficulty: u32) -> ChipState {
    ChipState {
        core_registers: state.core_registers.insert(
            CLOCK_DELAY_CTRL_ID,
            init_clock_delay(state.core_registers[CLOCK_DELAY_CTRL_ID]),
        ),
        registers: state.registers.insert(TICKET_MASK_ADDR, spec_ticket_mask(difficulty)),
        ..state
    }
}

// Core reset

/// Register A8 as a core reset sets it.
pub open spec fn reset_reg_a8(current: u32) -> u32 {
    spec_set_b7_4(spec_set_b8(current), 0xf)
}

/// The misc control as a core reset sets it: every core returns its nonces.
pub open spec fn reset_misc_control(current: u32) -> u32 {
    spec_set_b19_16(spec_set_b25_24(spec_set_b27_26(spec_set_core_return_nonce(current, 0xf), 0), 0), 0)
}

/// The writes of a core reset, each to `destination`.
pub open spec fn reset_core_writes(state: ChipState, destination: Destination) -> Seq<RegisterWrite> {
    seq![
        write_to(REG_A8_ADDR, reset_reg_a8(state.registers[REG_A8_ADDR]), destination, SETTLE_DELAY_MS),
        write_to(
            MISC_CONTROL_ADDR,
            reset_misc_control(state.registers[MISC_CONTROL_ADDR]),
            destination,
            SETTLE_DELAY_MS,
        ),
        write_to(
            CORE_REGISTER_CONTROL_ADDR,
            spec_write_core_reg(0, CORE_REG11_ID, state.core_registers[CORE_REG11_ID]),
            destination,
            SETTLE_DELAY_MS,
        ),
        write_to(
            CORE_REGISTER_CONTROL_ADDR,
            spec_write_core_reg(0, CLOCK_DELAY_CTRL_ID, RESET_CLOCK_DELAY),
            destination,
            SETTLE_DELAY_MS,
        ),
        write_to(
            CORE_REGISTER_CONTROL_ADDR,
            spec_write_core_reg(0, CORE_REG2_ID, RESET_CORE_REG2),
            destination,
            SETTLE_DELAY_MS,
        ),
    ]
}

/// The state that a core reset leaves.
pub open spec fn after_reset_core(state: ChipState) -> ChipState {
    ChipState {
        registers: state.registers.insert(
            REG_A8_ADDR,
            reset_reg_a8(state.registers[REG_A8_ADDR]),
        ).insert(MISC_CONTROL_ADDR, reset_misc_control(state.registers[MISC_CONTROL_ADDR])),
        core_registers: state.core_registers.insert(
            CORE_REG11_ID,
            state.core_registers[CORE_REG11_ID],
        ).insert(CLOCK_DELAY_CTRL_ID, RESET_CLOCK_DELAY).insert(CORE_REG2_ID, RESET_CORE_REG2),
        ..state
    }
}

// Between reset and frequency ramp

/// The four writes that go out between the core reset and the frequency
/// ramp, each to every chip.
pub open spec fn between_reset_and_set_freq_writes() -> Seq<RegisterWrite> {
    seq![
        write_to(REG_B9_ADDR, 0x0000_4480, Destination::All, 20),
        write_to(ANALOG_MUX_CONTROL_ADDR, 0x0000_0002, Destination::All, 100),
        write_to(REG_B9_ADDR, 0x0000_4480, Destination::All, 20),
        write_to(CORE_REGISTER_CONTROL_ADDR, 0x8000_8dee, Destination::All, 100),
    ]
}

// Baud rate

/// Drive strength of the IO pins of a chip inside a voltage domain.
pub const IO_DRIVER_STRENGTH_NORMAL: u32 = 0x0001_1111;

/// Drive strength of the IO pins of the last chip of a voltage domain.
pub const IO_DRIVER_STRENGTH_DOMAIN_END: u32 = 0x0001_3111;

/// What the PLL 3 parameter is set to before the UART relays.
pub const UART_RELAY_PLL_PARAMETER: u32 = 0x5aa5_5aa5;

/// Gap count of a UART relay behind which no chip follows.
pub const UART_RELAY_GAP_BASE: u16 = 14;

/// Feedback divider of the PLL that clocks a fast UART.
pub const UART_PLL_FEEDBACK_DIVIDER: u8 = 112;

/// Divider code of the tap that clocks a fast UART.
pub const UART_PLL_OUTPUT_DIVIDER: u8 = 6;

/// The chain with these three measures.
pub open spec fn chain(domains: u8, chips_per_domain: u8, interval: u16) -> ChainTopology {
    ChainTopology {
        voltage_domain_count: domains,
        chips_per_domain,
        chip_address_interval: interval,
    }
}

impl ChipState {
    /// The clock that feeds the chip: the input of its hashing PLL.
    pub open spec fn input_clock(self) -> u64 {
        self.plls[BM1370_PLL_ID_HASH as int].input_frequency
    }
}

/// The write that raises the drive strength of the last chip of a domain;
/// the `position`-th such write is for the domain that many from the end of
/// the chain.
pub open spec fn domain_end_write(topology: ChainTopology, position: int) -> RegisterWrite {
    write_to(
        IO_DRIVER_STRENGTH_CONFIGURATION_ADDR,
        IO_DRIVER_STRENGTH_DOMAIN_END,
        Destination::Chip(
            topology.spec_last_chip_address(topology.voltage_domain_count - 1 - position) as u8,
        ),
        0,
    )
}

/// The first `count` writes that raise the drive strength at the ends of the
/// domains, the last domain first.
pub open spec fn domain_end_writes(topology: ChainTopology, count: int) -> Seq<RegisterWrite> {
    Seq::new(count as nat, |position: int| domain_end_write(topology, position))
}

/// The gap count of the UART relays of `domain`: the chips from the start of
/// that domain to the end of the chain, and 14.
pub open spec fn relay_gap_count(topology: ChainTopology, domain: int) -> u16 {
    (topology.chips_per_domain * (topology.voltage_domain_count - domain) + UART_RELAY_GAP_BASE) as u16
}

/// The UART relay of the chips at both ends of `domain`: its gap count set,
/// both lines relayed.
pub open spec fn relay_word(current: u32, topology: ChainTopology, domain: int) -> u32 {
    spec_enable_co_relay(
        spec_enable_ro_relay(spec_set_gap_cnt(current, relay_gap_count(topology, domain))),
    )
}

/// The `position`-th write of a UART relay: two for each domain, the last
/// domain first, to its first chip and then to its last.
pub open spec fn relay_write(current: u32, topology: ChainTopology, position: int) -> RegisterWrite {
    let domain = topology.voltage_domain_count - 1 - position / 2;
    write_to(
        UART_RELAY_ADDR,
        relay_word(current, topology, domain),
        Destination::Chip(
            (if position % 2 == 0 {
                topology.spec_first_chip_address(domain)
            } else {
                topology.spec_last_chip_address(domain)
            }) as u8,
        ),
        0,
    )
}

/// The first `count` writes of UART relays.
pub open spec fn relay_writes(current: u32, topology: ChainTopology, count: int) -> Seq<RegisterWrite> {
    Seq::new(count as nat, |position: int| relay_write(current, topology, position))
}

/// Whether the UART reaches `baudrate` from the input clock alone: the
/// input clock is at least eight times as fast.
pub open spec fn uses_input_clock(input: u64, baudrate: u32) -> bool {
    baudrate <= input / 8
}

/// The divider that brings an eighth of the input clock down to `baudrate`,
/// less one, cut to eight bits.
pub open spec fn baud_divider(input: u64, baudrate: u32) -> u8 {
    ((input as int / (8 * baudrate) - 1) % 256) as u8
}

/// The fast UART configuration that takes the baud clock from the input
/// clock, divided for `baudrate`.
pub open spec fn fast_uart_word(current: u32, input: u64, baudrate: u32) -> u32 {
    spec_set_bt8d(spec_select_input_clock(current), baud_divider(input, baudrate))
}

/// The UART PLL as it is set up for a baud rate out of reach of the input
/// clock: locked, enabled, 112 times the input, its UART tap dividing by
/// seven.
pub open spec fn uart_pll(pll: Pll) -> Pll {
    Pll {
        locked: true,
        enabled: true,
        feedback_divider: UART_PLL_FEEDBACK_DIVIDER,
        reference_divider: 1,
        post_divider_1: 1,
        post_divider_2: 1,
        output_dividers: [
            pll.output_dividers[0],
            pll.output_dividers[1],
            pll.output_dividers[2],
            UART_PLL_OUTPUT_DIVIDER,
        ],
        ..pll
    }
}

/// The write that closes the baud-rate sequence: the fast UART configuration
/// where the input clock is fast enough, else the parameter of the UART PLL.
pub open spec fn baud_clock_write(state: ChipState, baudrate: u32) -> RegisterWrite {
    if uses_input_clock(state.input_clock(), baudrate) {
        write_to(
            FAST_UART_CONFIGURATION_ADDR,
            fast_uart_word(
                state.registers[FAST_UART_CONFIGURATION_ADDR],
                state.input_clock(),
                baudrate,
            ),
            Destination::All,
            0,
        )
    } else {
        write_to(
            PLL3_PARAMETER_ADDR,
            uart_pll(state.plls[BM1370_PLL_ID_UART as int]).spec_parameter(),
            Destination::All,
            0,
        )
    }
}

/// The writes that set the baud rate of a chain, none followed by a pause:
/// the normal drive strength to every chip, the raised one to the last chip
/// of each domain, the PLL 3 parameter to every chip, the UART relay to the
/// first and the last chip of each domain, and the write that sets the baud
/// clock to every chip. The domains are taken from the end of the chain.
pub open spec fn baudrate_writes(state: ChipState, baudrate: u32, topology: ChainTopology) -> Seq<
    RegisterWrite,
> {
    seq![
        write_to(
            IO_DRIVER_STRENGTH_CONFIGURATION_ADDR,
            IO_DRIVER_STRENGTH_NORMAL,
            Destination::All,
            0,
        ),
    ] + domain_end_writes(topology, topology.voltage_domain_count as int) + seq![
        write_to(PLL3_PARAMETER_ADDR, UART_RELAY_PLL_PARAMETER, Destination::All, 0),
    ] + relay_writes(
        state.registers[UART_RELAY_ADDR],
        topology,
        2 * topology.voltage_domain_count,
    ) + seq![baud_clock_write(state, baudrate)]
}

/// The state that the baud-rate sequence leaves.
pub open spec fn after_baudrate(state: ChipState, baudrate: u32) -> ChipState {
    let registers = state.registers.insert(
        IO_DRIVER_STRENGTH_CONFIGURATION_ADDR,
        IO_DRIVER_STRENGTH_NORMAL,
    ).insert(PLL3_PARAMETER_ADDR, UART_RELAY_PLL_PARAMETER);
    if uses_input_clock(state.input_clock(), baudrate) {
        ChipState {
            registers: registers.insert(
                FAST_UART_CONFIGURATION_ADDR,
                fast_uart_word(
                    state.registers[FAST_UART_CONFIGURATION_ADDR],
                    state.input_clock(),
                    baudrate,
                ),
            ),
            ..state
        }
    } else {
        ChipState {
            registers: registers.insert(
                PLL3_PARAMETER_ADDR,
                uart_pll(state.plls[BM1370_PLL_ID_UART as int]).spec_parameter(),
            ),
            plls: state.plls.update(
                BM1370_PLL_ID_UART as int,
                uart_pll(state.plls[BM1370_PLL_ID_UART as int]),
            ),
            ..state
        }
    }
}

// Version rolling

/// Where the nonce offsets of the chips start.
pub const NONCE_OFFSET_BASE: u32 = 0x8000_0000;

/// What the nonce offsets of a chain share out among its chips.
pub const NONCE_OFFSET_SPAN: u32 = 0x1_0000;

/// What the hash counting number is set to for version rolling.
pub const HASH_COUNTING_NUMBER: u32 = 0x0000_1eb5;

/// Pause after each of the two writes that switch version rolling on.
pub const VERSION_ROLLING_DELAY_MS: u32 = 1;

/// The nonce offset of the chip with `number` on a chain of `chip_count`:
/// the chips share the offsets out evenly, rounded down.
pub open spec fn nonce_offset(chip_count: int, number: int) -> u32 {
    (NONCE_OFFSET_BASE + (NONCE_OFFSET_SPAN as int / chip_count) * number) as u32
}

/// The write that gives the chip with `number` its nonce offset.
pub open spec fn nonce_offset_write(topology: ChainTopology, number: int) -> RegisterWrite {
    write_to(
        CHIP_NONCE_OFFSET_ADDR,
        nonce_offset(topology.spec_chip_count(), number),
        Destination::Chip(topology.address_of(number) as u8),
        0,
    )
}

/// The nonce-offset writes of the first `count` chips, in the order of the
/// chain.
pub open spec fn nonce_offset_writes(topology: ChainTopology, count: int) -> Seq<RegisterWrite> {
    Seq::new(count as nat, |number: int| nonce_offset_write(topology, number))
}

/// The version-rolling control with rolling on and `version_mask` set.
pub open spec fn version_rolling_word(current: u32, version_mask: u32) -> u32 {
    spec_set_version_mask(spec_enable_version_rolling(current), version_mask)
}

/// The writes that switch version rolling on: to each chip its nonce
/// offset, then to every chip the hash counting number and the
/// version-rolling control.
pub open spec fn version_rolling_writes(state: ChipState, version_mask: u32, topology: ChainTopology)
    -> Seq<RegisterWrite> {
    nonce_offset_writes(topology, topology.spec_chip_count()) + seq![
        write_to(
            HASH_COUNTING_NUMBER_ADDR,
            HASH_COUNTING_NUMBER,
            Destination::All,
            VERSION_ROLLING_DELAY_MS,
        ),
        write_to(
            VERSION_ROLLING_ADDR,
            version_rolling_word(state.registers[VERSION_ROLLING_ADDR], version_mask),
            Destination::All,
            VERSION_ROLLING_DELAY_MS,
        ),
    ]
}

/// The state that switching version rolling on leaves.
pub open spec fn after_version_rolling(state: ChipState, version_mask: u32) -> ChipState {
    ChipState {
        registers: state.registers.insert(HASH_COUNTING_NUMBER_ADDR, HASH_COUNTING_NUMBER).insert(
            VERSION_ROLLING_ADDR,
            version_rolling_word(state.registers[VERSION_ROLLING_ADDR], version_mask),
        ),
        version_rolling_enabled: true,
        version_mask,
        ..state
    }
}

// Hash frequency

/// The input clock that the words for the hash PLL are worked out for.
pub const HASH_SEARCH_INPUT_HZ: u64 = 25_000_000;

/// How far from the wanted frequency a step of the ramp may be.
pub const HASH_FREQUENCY_TOLERANCE_HZ: u64 = 1_000;

/// How far one step of the ramp raises the hash clock.
pub const HASH_FREQUENCY_STEP_HZ: u64 = 6_250_000;

/// Above this frequency a step of the ramp flips between the short and the
/// long pause.
pub const LONG_DELAY_THRESHOLD_HZ: u64 = 380_000_000;

/// The short pause after a step of the ramp.
pub const RAMP_DELAY_MS: u32 = 400;

/// The long pause after a step of the ramp.
pub const RAMP_LONG_DELAY_MS: u32 = 2300;

/// Why a ramp of the hash clock cannot be made.
#[derive(Clone, Copy, Debug, PartialEq, Eq, Structural)]
pub enum RampError {
    /// The ramp has more steps than a command list has room for.
    TooManySteps,
    /// No dividers bring the hash PLL to the frequency of some step.
    NoDividers,
}

/// The dividers that bring the hash PLL to `target`, worked out for an
/// input clock of 25 MHz.
pub open spec fn hash_dividers(target: int, max_diff: int) -> Option<PllDividers> {
    spec_search(HASH_SEARCH_INPUT_HZ as int, target, max_diff)
}

/// The parameter word that brings the hash PLL to `target`.
pub open spec fn spec_hash_frequency_word(target: int, max_diff: int) -> Option<u32> {
    match hash_dividers(target, max_diff) {
        Some(dividers) => Some(dividers.spec_command_word(HASH_SEARCH_INPUT_HZ as int)),
        None => None,
    }
}

/// Steps of the ramp from `current` to `target`: as many steps of 6.25 MHz
/// as it takes to reach `target`, the last one cut short. A ramp that does
/// not go up is one step.
pub open spec fn ramp_len(current: int, target: int) -> int {
    if target <= current {
        1
    } else {
        (target - current + HASH_FREQUENCY_STEP_HZ - 1) / (HASH_FREQUENCY_STEP_HZ as int)
    }
}

/// The frequency that step `index` of the ramp sets.
pub open spec fn ramp_frequency(current: int, target: int, index: int) -> int {
    if current + (index + 1) * HASH_FREQUENCY_STEP_HZ > target {
        target
    } else {
        current + (index + 1) * HASH_FREQUENCY_STEP_HZ
    }
}

/// Whether the pause is the long one after `count` steps of the ramp: it
/// starts as the short one and flips with every step that sets a frequency
/// above 380 MHz.
pub open spec fn ramp_long_delay(current: int, target: int, count: int) -> bool
    decreases count,
{
    if count <= 0 {
        false
    } else {
        ramp_long_delay(current, target, count - 1) != (ramp_frequency(current, target, count - 1)
            > LONG_DELAY_THRESHOLD_HZ)
    }
}

/// Whether dividers exist for step `index` of the ramp.
pub open spec fn ramp_step_possible(current: int, target: int, index: int) -> bool {
    hash_dividers(ramp_frequency(current, target, index), HASH_FREQUENCY_TOLERANCE_HZ as int) is Some
}

/// Whether dividers exist for every step of the ramp.
pub open spec fn ramp_possible(current: int, target: int) -> bool {
    forall|index: int|
        0 <= index < ramp_len(current, target) ==> #[trigger] ramp_step_possible(
            current,
            target,
            index,
        )
}

/// The write of step `index` of the ramp: the parameter word for the
/// frequency of the step, to every chip, followed by the pause that the
/// steps up to this one have come to.
pub open spec fn ramp_write(current: int, target: int, index: int) -> RegisterWrite {
    write_to(
        PLL0_PARAMETER_ADDR,
        spec_hash_frequency_word(
            ramp_frequency(current, target, index),
            HASH_FREQUENCY_TOLERANCE_HZ as int,
        ).unwrap(),
        Destination::All,
        if ramp_long_delay(current, target, index + 1) {
            RAMP_LONG_DELAY_MS
        } else {
            RAMP_DELAY_MS
        },
    )
}

/// The writes of the first `count` steps of the ramp.
pub open spec fn ramp_writes(current: int, target: int, count: int) -> Seq<RegisterWrite> {
    Seq::new(count as nat, |index: int| ramp_write(current, target, index))
}

/// The state that a ramp to `target` leaves: the hash PLL has the dividers
/// for `target`, and the shadow of its parameter the word that the last
/// step wrote.
pub open spec fn after_ramp(state: ChipState, target: int) -> ChipState {
    let dividers = hash_dividers(target, HASH_FREQUENCY_TOLERANCE_HZ as int).unwrap();
    ChipState {
        plls: state.plls.update(
            BM1370_PLL_ID_HASH as int,
            state.plls[BM1370_PLL_ID_HASH as int].with_dividers(dividers),
        ),
        registers: state.registers.insert(
            PLL0_PARAMETER_ADDR,
            dividers.spec_command_word(HASH_SEARCH_INPUT_HZ as int),
        ),
        ..state
    }
}

/// Every step of a ramp but the last stays below the target, and the last
/// step sets the target.
pub proof fn lemma_ramp_reaches_target(current: int, target: int, index: int)
    requires
        0 <= index < ramp_len(current, target),
    ensures
        ramp_len(current, target) >= 1,
        index < ramp_len(current, target) - 1 ==> ramp_frequency(current, target, index) < target,
        index == ramp_len(current, target) - 1 ==> ramp_frequency(current, target, index)
            == target,
{
    let step = HASH_FREQUENCY_STEP_HZ as int;
    let len = ramp_len(current, target);
    if target > current {
        let rise = target - current + step - 1;
        assert(len * step <= rise < len * step + step) by (nonlinear_arith)
            requires
                len == rise / step,
                step > 0,
        ;
        assert((index + 1) * step <= (len - 1) * step || index == len - 1) by (nonlinear_arith)
            requires
                0 <= index < len,
                step > 0,
        ;
        assert((len - 1) * step == len * step - step) by (nonlinear_arith);
    }
}

/// After a ramp the model hashes within 1 kHz of the target, where the chip
/// is fed with the 25 MHz that the parameter words are worked out for and
/// the tap of the hash clock does not divide.
pub proof fn lemma_ramp_sets_hash_frequency(state: ChipState, target: int)
    requires
        state.wf(),
        state.input_clock() == HASH_SEARCH_INPUT_HZ,
        state.plls[BM1370_PLL_ID_HASH as int].output_dividers[0] == 0,
        hash_dividers(target, HASH_FREQUENCY_TOLERANCE_HZ as int) is Some,
    ensures
        target - HASH_FREQUENCY_TOLERANCE_HZ <= after_ramp(state, target).hash_freq() < target
            + HASH_FREQUENCY_TOLERANCE_HZ,
{
    let input = HASH_SEARCH_INPUT_HZ as int;
    let tolerance = HASH_FREQUENCY_TOLERANCE_HZ as int;
    lemma_found_dividers_reach_target(input, target, tolerance);
    let d = hash_dividers(target, tolerance)->Some_0;
    let product = d.reference_divider * d.post_divider_1 * d.post_divider_2;
    let reached = input * d.feedback_divider;
    let pll = after_ramp(state, target).plls[BM1370_PLL_ID_HASH as int];
    assert(pll == state.plls[BM1370_PLL_ID_HASH as int].with_dividers(d));
    assert(pll.output_dividers[0] == 0);
    assert(product >= 1) by (nonlinear_arith)
        requires
            product == d.reference_divider * d.post_divider_1 * d.post_divider_2,
            d.reference_divider >= 1,
            d.post_divider_1 >= 1,
            d.post_divider_2 >= 1,
    ;
    assert(target - tolerance <= reached / product < target + tolerance) by (nonlinear_arith)
        requires
            product >= 1,
            -(tolerance * product) < target * product - reached < tolerance * product,
    ;
}

/// After a ramp the shadow of the parameter register and the hash PLL of the
/// model hold the same dividers: their words differ in the top byte at most.
pub proof fn lemma_ramp_keeps_word_and_model_together(state: ChipState, target: int)
    requires
        state.wf(),
        hash_dividers(target, HASH_FREQUENCY_TOLERANCE_HZ as int) is Some,
    ensures
        after_ramp(state, target).registers[PLL0_PARAMETER_ADDR] & 0x00ff_ffff == after_ramp(
            state,
            target,
        ).plls[BM1370_PLL_ID_HASH as int].spec_parameter() & 0x00ff_ffff,
{
    let input = HASH_SEARCH_INPUT_HZ as int;
    let tolerance = HASH_FREQUENCY_TOLERANCE_HZ as int;
    lemma_found_dividers_reach_target(input, target, tolerance);
    let d = hash_dividers(target, tolerance)->Some_0;
    lemma_command_word_fields(d, input);
    let pll = after_ramp(state, target).plls[BM1370_PLL_ID_HASH as int];
    assert(pll == state.plls[BM1370_PLL_ID_HASH as int].with_dividers(d));
    assert(pll.dividers() == d);
    let word = d.spec_command_word(input);
    let bits = d.divider_bits();
    let locked: u32 = if pll.locked {
        0x8000_0000u32
    } else {
        0u32
    };
    let enabled: u32 = if pll.enabled {
        0x4000_0000u32
    } else {
        0u32
    };
    let parameter = pll.spec_parameter();
    assert(parameter & 0x00ff_ffff == bits) by (bit_vector)
        requires
            parameter == locked | enabled | bits,
            word & 0x00ff_ffff == bits,
            locked == 0x8000_0000u32 || locked == 0u32,
            enabled == 0x4000_0000u32 || enabled == 0u32,
    ;
}

/// The parameter word that brings the hash PLL to `target_freq`, if there
/// are dividers that come closer to it than `max_diff`.
pub fn bm1370_send_hash_frequency(target_freq: u64, max_diff: u64) -> (word: Option<u32>)
    ensures
        word == spec_hash_frequency_word(target_freq as int, max_diff as int),
{
    match search_dividers(HASH_SEARCH_INPUT_HZ, target_freq, max_diff) {
        Some(dividers) => Some(dividers.command_word(HASH_SEARCH_INPUT_HZ)),
        None => None,
    }
}

/// Steps of the ramp from `current` to `target`.
pub fn ramp_step_count(current: u64, target: u64) -> (steps: u64)
    ensures
        steps == ramp_len(current as int, target as int),
        steps >= 1,
{
    if target <= current {
        1
    } else {
        (target - current - 1) / HASH_FREQUENCY_STEP_HZ + 1
    }
}

/// The frequency that step `index` of the ramp sets.
pub fn ramp_step_frequency(current: u64, target: u64, index: u64) -> (hz: u64)
    ensures
        hz == ramp_frequency(current as int, target as int, index as int),
{
    assert((index + 1) * HASH_FREQUENCY_STEP_HZ <= 0x1_0000_0000_0000_0000 * 6_250_000)
        by (nonlinear_arith)
        requires
            0 <= index <= 0xffff_ffff_ffff_ffff,
            HASH_FREQUENCY_STEP_HZ == 6_250_000,
    ;
    let raised: u128 = (current as u128) + ((index as u128) + 1) * (HASH_FREQUENCY_STEP_HZ as u128);
    if raised > (target as u128) {
        target
    } else {
        raised as u64
    }
}

impl BM1370 {
    /// The commands that initialise the chips of a chain.
    ///
    /// Three writes go to every chip, each followed by a pause of 10 ms:
    /// core register 11 as the shadow holds it, the clock-delay control with
    /// delay counter 0, pulse width 2 and no frequency sweep, and the ticket
    /// mask for `initial_difficulty`. The shape of the chain has no part in
    /// them.
    pub fn send_init(
        &mut self,
        initial_difficulty: u32,
        chain_domain_cnt: u8,
        domain_asic_cnt: u8,
        asic_addr_interval: u16,
    ) -> (list: CommandList)
        requires
            old(self).wf(),
        ensures
            steps_encode(command_steps(list), init_writes(old(self)@, initial_difficulty)),
            final(self)@ == after_init(old(self)@, initial_difficulty),
            final(self).wf(),
    {
        let mut list = new_command_list();
        let ghost done: Seq<RegisterWrite> = Seq::empty();
        let ghost expected = init_writes(self@, initial_difficulty);
        assert(self@.registers.contains_key(TICKET_MASK_ADDR));

        let reg11 = core_shadow_read(&self.core_registers, CORE_REG11_ID);
        emit(
            &mut list,
            Ghost(done),
            CORE_REGISTER_CONTROL_ADDR,
            write_core_reg(0, CORE_REG11_ID, reg11),
            Destination::All,
            SETTLE_DELAY_MS,
        );
        let ghost done = done.push(expected[0]);

        let clock_delay = disable_sweep_frequency_mode(
            set_pwth(set_ccdly(core_shadow_read(&self.core_registers, CLOCK_DELAY_CTRL_ID), 0), 2),
        );
        emit(
            &mut list,
            Ghost(done),
            CORE_REGISTER_CONTROL_ADDR,
            write_core_reg(0, CLOCK_DELAY_CTRL_ID, clock_delay),
            Destination::All,
            SETTLE_DELAY_MS,
        );
        let ghost done = done.push(expected[1]);
        core_shadow_write(&mut self.core_registers, CLOCK_DELAY_CTRL_ID, clock_delay);

        let ticket_mask = ticket_mask_from_difficulty(initial_difficulty);
        emit(&mut list, Ghost(done), TICKET_MASK_ADDR, ticket_mask, Destination::All, SETTLE_DELAY_MS);
        let ghost done = done.push(expected[2]);
        shadow_write(&mut self.registers, TICKET_MASK_ADDR, ticket_mask);

        assert(done =~= expected);
        list
    }

    /// The commands that reset the cores of the chip, or of the chips, at
    /// `dest`.
    ///
    /// Five writes go out, each followed by a pause of 10 ms: register A8
    /// with bit 8 and bits 4 to 7 set, the misc control with every core
    /// returning its nonces, core register 11 as the shadow holds it, the
    /// clock-delay control, and core register 2. A reset of every chip at
    /// once is not defined.
    pub fn send_reset_core(&mut self, dest: Destination) -> (list: CommandList)
        requires
            old(self).wf(),
            dest != Destination::All,
        ensures
            steps_encode(command_steps(list), reset_core_writes(old(self)@, dest)),
            final(self)@ == after_reset_core(old(self)@),
            final(self).wf(),
    {
        let mut list = new_command_list();
        let ghost done: Seq<RegisterWrite> = Seq::empty();
        let ghost expected = reset_core_writes(self@, dest);

        let reg_a8 = set_b7_4(set_b8(shadow_read(&self.registers, REG_A8_ADDR)), 0xf);
        emit(&mut list, Ghost(done), REG_A8_ADDR, reg_a8, dest, SETTLE_DELAY_MS);
        let ghost done = done.push(expected[0]);
        shadow_write(&mut self.registers, REG_A8_ADDR, reg_a8);

        let misc = set_b19_16(
            set_b25_24(
                set_b27_26(
                    set_core_return_nonce(shadow_read(&self.registers, MISC_CONTROL_ADDR), 0xf),
                    0,
                ),
                0,
            ),
            0,
        );
        emit(&mut list, Ghost(done), MISC_CONTROL_ADDR, misc, dest, SETTLE_DELAY_MS);
        let ghost done = done.push(expected[1]);
        shadow_write(&mut self.registers, MISC_CONTROL_ADDR, misc);

        let reg11 = core_shadow_read(&self.core_registers, CORE_REG11_ID);
        emit(
            &mut list,
            Ghost(done),
            CORE_REGISTER_CONTROL_ADDR,
            write_core_reg(0, CORE_REG11_ID, reg11),
            dest,
            SETTLE_DELAY_MS,
        );
        let ghost done = done.push(expected[2]);
        core_shadow_write(&mut self.core_registers, CORE_REG11_ID, reg11);

        emit(
            &mut list,
            Ghost(done),
            CORE_REGISTER_CONTROL_ADDR,
            write_core_reg(0, CLOCK_DELAY_CTRL_ID, RESET_CLOCK_DELAY),
            dest,
            SETTLE_DELAY_MS,
        );
        let ghost done = done.push(expected[3]);
        core_shadow_write(&mut self.core_registers, CLOCK_DELAY_CTRL_ID, RESET_CLOCK_DELAY);

        emit(
            &mut list,
            Ghost(done),
            CORE_REGISTER_CONTROL_ADDR,
            write_core_reg(0, CORE_REG2_ID, RESET_CORE_REG2),
            dest,
            SETTLE_DELAY_MS,
        );
        let ghost done = done.push(expected[4]);
        core_shadow_write(&mut self.core_registers, CORE_REG2_ID, RESET_CORE_REG2);

        assert(done =~= expected);
        list
    }

    /// The commands that set the baud rate of a chain.
    ///
    /// None is followed by a pause. Every chip gets the normal drive
    /// strength for its IO pins, then the last chip of each voltage domain
    /// the raised one. Every chip gets a fixed PLL 3 parameter, then the
    /// first and the last chip of each domain their UART relay, with the
    /// gap count of the domain. The domains are taken from the end of the
    /// chain. Last, where the input clock is at least eight times
    /// `baudrate`, every chip gets a fast UART configuration that divides
    /// the input clock, the divider cut to eight bits; else the UART PLL of
    /// the model is set up and every chip gets its parameter.
    pub fn send_baudrate(
        &mut self,
        baudrate: u32,
        chain_domain_cnt: u8,
        domain_asic_cnt: u8,
        asic_addr_interval: u16,
    ) -> (list: CommandList)
        requires
            old(self).wf(),
            baudrate > 0,
            chain(chain_domain_cnt, domain_asic_cnt, asic_addr_interval).valid(),
            chain(chain_domain_cnt, domain_asic_cnt, asic_addr_interval).populated(),
        ensures
            steps_encode(
                command_steps(list),
                baudrate_writes(
                    old(self)@,
                    baudrate,
                    chain(chain_domain_cnt, domain_asic_cnt, asic_addr_interval),
                ),
            ),
            final(self)@ == after_baudrate(old(self)@, baudrate),
            final(self).wf(),
    {
        let topology = ChainTopology {
            voltage_domain_count: chain_domain_cnt,
            chips_per_domain: domain_asic_cnt,
            chip_address_interval: asic_addr_interval,
        };
        let ghost before = self@;
        let ghost expected = baudrate_writes(before, baudrate, topology);
        let ghost domains = chain_domain_cnt as int;
        assert(before.registers.contains_key(IO_DRIVER_STRENGTH_CONFIGURATION_ADDR));
        assert(before.registers.contains_key(PLL3_PARAMETER_ADDR));
        assert(before.registers.contains_key(UART_RELAY_ADDR));
        assert(before.registers.contains_key(FAST_UART_CONFIGURATION_ADDR));
        assert(before.plls[BM1370_PLL_ID_UART as int].well_formed());
        let input = self.input_clock_freq();

        let mut list = new_command_list();
        let ghost mut done: Seq<RegisterWrite> = Seq::empty();
        emit(
            &mut list,
            Ghost(done),
            IO_DRIVER_STRENGTH_CONFIGURATION_ADDR,
            IO_DRIVER_STRENGTH_NORMAL,
            Destination::All,
            0,
        );
        proof {
            done = done.push(expected[0]);
        }
        shadow_write(
            &mut self.registers,
            IO_DRIVER_STRENGTH_CONFIGURATION_ADDR,
            IO_DRIVER_STRENGTH_NORMAL,
        );

        let ghost head = done;
        let mut remaining: u8 = chain_domain_cnt;
        while remaining > 0
            invariant
                remaining <= chain_domain_cnt,
                domains == chain_domain_cnt,
                topology == chain(chain_domain_cnt, domain_asic_cnt, asic_addr_interval),
                topology.valid(),
                topology.populated(),
                head.len() == 1,
                done =~= head + domain_end_writes(topology, domains - remaining),
                steps_encode(command_steps(list), done),
            decreases remaining,
        {
            let domain: u8 = remaining - 1;
            let address = topology.last_chip_address(domain);
            proof {
                topology.lemma_address_in_range(domain as int, domain_asic_cnt - 1);
            }
            emit(
                &mut list,
                Ghost(done),
                IO_DRIVER_STRENGTH_CONFIGURATION_ADDR,
                IO_DRIVER_STRENGTH_DOMAIN_END,
                Destination::Chip(address),
                0,
            );
            proof {
                done = done.push(domain_end_write(topology, domains - remaining));
            }
            remaining = remaining - 1;
        }

        emit(
            &mut list,
            Ghost(done),
            PLL3_PARAMETER_ADDR,
            UART_RELAY_PLL_PARAMETER,
            Destination::All,
            0,
        );
        proof {
            done = done.push(
                write_to(PLL3_PARAMETER_ADDR, UART_RELAY_PLL_PARAMETER, Destination::All, 0),
            );
        }
        shadow_write(&mut self.registers, PLL3_PARAMETER_ADDR, UART_RELAY_PLL_PARAMETER);

        let relay = shadow_read(&self.registers, UART_RELAY_ADDR);
        let ghost middle = done;
        let mut remaining: u8 = chain_domain_cnt;
        while remaining > 0
            invariant
                remaining <= chain_domain_cnt,
                domains == chain_domain_cnt,
                topology == chain(chain_domain_cnt, domain_asic_cnt, asic_addr_interval),
                topology.valid(),
                topology.populated(),
                middle.len() == domains + 2,
                done =~= middle + relay_writes(relay, topology, 2 * (domains - remaining)),
                steps_encode(command_steps(list), done),
            decreases remaining,
        {
            let domain: u8 = remaining - 1;
            let ghost position = 2 * (domains - remaining);
            assert(domain_asic_cnt * (chain_domain_cnt - domain) <= 0xff * 0xff)
                by (nonlinear_arith)
                requires
                    0 <= domain_asic_cnt <= 0xff,
                    0 <= chain_domain_cnt - domain <= 0xff,
            ;
            let gap_count: u16 = (domain_asic_cnt as u16) * ((chain_domain_cnt as u16) - (
            domain as u16)) + UART_RELAY_GAP_BASE;
            let word = enable_co_relay(enable_ro_relay(set_gap_cnt(relay, gap_count)));
            let first = topology.first_chip_address(domain);
            let last = topology.last_chip_address(domain);
            proof {
                topology.lemma_address_in_range(domain as int, 0);
                topology.lemma_address_in_range(domain as int, domain_asic_cnt - 1);
                assert(position / 2 == domains - remaining);
                assert((position + 1) / 2 == domains - remaining);
            }
            emit(&mut list, Ghost(done), UART_RELAY_ADDR, word, Destination::Chip(first), 0);
            proof {
                done = done.push(relay_write(relay, topology, position));
            }
            emit(&mut list, Ghost(done), UART_RELAY_ADDR, word, Destination::Chip(last), 0);
            proof {
                done = done.push(relay_write(relay, topology, position + 1));
            }
            remaining = remaining - 1;
        }

        if (baudrate as u64) <= input / 8 {
            assert(input as int / (8 * baudrate) >= 1) by (nonlinear_arith)
                requires
                    baudrate > 0,
                    baudrate <= input as int / 8,
            ;
            let divided: u64 = input / (8 * (baudrate as u64)) - 1;
            let word = set_bt8d(
                select_input_clock(shadow_read(&self.registers, FAST_UART_CONFIGURATION_ADDR)),
                (divided % 256) as u8,
            );
            emit(&mut list, Ghost(done), FAST_UART_CONFIGURATION_ADDR, word, Destination::All, 0);
            shadow_write(&mut self.registers, FAST_UART_CONFIGURATION_ADDR, word);
        } else {
            let mut pll = self.plls[BM1370_PLL_ID_UART];
            pll.lock();
            pll.enable();
            pll.set_feedback_divider(UART_PLL_FEEDBACK_DIVIDER);
            pll.set_reference_divider(1);
            pll.set_post_divider_1(1);
            pll.set_post_divider_2(1);
            pll.set_output_divider(BM1370_PLL_OUT_UART, UART_PLL_OUTPUT_DIVIDER);
            proof {
                let wanted = uart_pll(before.plls[BM1370_PLL_ID_UART as int]);
                assert(pll.output_dividers@ =~= wanted.output_dividers@);
                assert(pll.output_dividers == wanted.output_dividers);
                assert(pll == wanted);
            }
            self.plls[BM1370_PLL_ID_UART] = pll;
            let word = pll.parameter();
            emit(&mut list, Ghost(done), PLL3_PARAMETER_ADDR, word, Destination::All, 0);
            shadow_write(&mut self.registers, PLL3_PARAMETER_ADDR, word);
        }
        proof {
            done = done.push(baud_clock_write(before, baudrate));
            assert(done =~= expected);
            assert(self@.plls =~= after_baudrate(before, baudrate).plls);
            assert(self@.registers =~= after_baudrate(before, baudrate).registers);
        }
        list
    }

    /// The commands that raise the hash clock to `target_freq`, step by
    /// step.
    ///
    /// The ramp starts at the hash frequency of the model. Each step is
    /// 6.25 MHz above the one before, the last one cut short at
    /// `target_freq`; a ramp that does not go up is the one step to
    /// `target_freq`. A step writes the parameter word for its frequency to
    /// the hash PLL of every chip. The pause after a step is 400 ms to begin
    /// with, and flips between that and 2300 ms with every step above
    /// 380 MHz. The hash PLL of the model takes over the dividers of the last
    /// step.
    ///
    /// The ramp is refused, and the model stays as it is, if it has more
    /// steps than a command list has room for, or else if the frequency of
    /// some step cannot be reached within 1 kHz.
    pub fn send_hash_freq(&mut self, target_freq: u64) -> (result: Result<CommandList, RampError>)
        requires
            old(self).wf(),
            old(self)@.plls[BM1370_PLL_ID_HASH as int].valid(),
        ensures
            match result {
                Ok(list) => {
                    &&& ramp_len(old(self)@.hash_freq(), target_freq as int) <= COMMAND_CAPACITY
                    &&& ramp_possible(old(self)@.hash_freq(), target_freq as int)
                    &&& steps_encode(
                        command_steps(list),
                        ramp_writes(
                            old(self)@.hash_freq(),
                            target_freq as int,
                            ramp_len(old(self)@.hash_freq(), target_freq as int),
                        ),
                    )
                    &&& final(self)@ == after_ramp(old(self)@, target_freq as int)
                },
                Err(RampError::TooManySteps) => {
                    &&& ramp_len(old(self)@.hash_freq(), target_freq as int) > COMMAND_CAPACITY
                    &&& final(self)@ == old(self)@
                },
                Err(RampError::NoDividers) => {
                    &&& ramp_len(old(self)@.hash_freq(), target_freq as int) <= COMMAND_CAPACITY
                    &&& !ramp_possible(old(self)@.hash_freq(), target_freq as int)
                    &&& final(self)@ == old(self)@
                },
            },
            final(self).wf(),
    {
        let ghost before = self@;
        assert(before.registers.contains_key(PLL0_PARAMETER_ADDR));
        let current = self.hash_freq();
        let ghost c = current as int;
        let ghost t = target_freq as int;
        let steps = ramp_step_count(current, target_freq);
        if steps > COMMAND_CAPACITY as u64 {
            return Err(RampError::TooManySteps);
        }
        let mut list = new_command_list();
        let ghost mut done: Seq<RegisterWrite> = Seq::empty();
        let mut long_delay = false;
        let mut last_dividers = PllDividers {
            reference_divider: 1,
            feedback_divider: 0,
            post_divider_1: 1,
            post_divider_2: 1,
        };
        let mut last_word: u32 = 0;
        let mut index: u64 = 0;
        while index < steps
            invariant
                index <= steps,
                steps == ramp_len(c, t),
                steps <= COMMAND_CAPACITY,
                c == current,
                t == target_freq,
                long_delay == ramp_long_delay(c, t, index as int),
                forall|done_index: int|
                    0 <= done_index < index ==> #[trigger] ramp_step_possible(c, t, done_index),
                index >= 1 ==> Some(last_dividers) == hash_dividers(
                    ramp_frequency(c, t, index - 1),
                    HASH_FREQUENCY_TOLERANCE_HZ as int,
                ),
                index >= 1 ==> last_dividers.best(
                    HASH_SEARCH_INPUT_HZ as int,
                    ramp_frequency(c, t, index - 1),
                    HASH_FREQUENCY_TOLERANCE_HZ as int,
                ),
                index >= 1 ==> last_word == last_dividers.spec_command_word(
                    HASH_SEARCH_INPUT_HZ as int,
                ),
                before == old(self)@,
                before.wf(),
                c == before.hash_freq(),
                done =~= ramp_writes(c, t, index as int),
                steps_encode(command_steps(list), done),
                self@ == before,
            decreases steps - index,
        {
            let frequency = ramp_step_frequency(current, target_freq, index);
            match search_dividers(HASH_SEARCH_INPUT_HZ, frequency, HASH_FREQUENCY_TOLERANCE_HZ) {
                Some(dividers) => {
                    assert(ramp_step_possible(c, t, index as int));
                    if frequency > LONG_DELAY_THRESHOLD_HZ {
                        long_delay = !long_delay;
                    }
                    let word = dividers.command_word(HASH_SEARCH_INPUT_HZ);
                    let delay = if long_delay {
                        RAMP_LONG_DELAY_MS
                    } else {
                        RAMP_DELAY_MS
                    };
                    emit(&mut list, Ghost(done), PLL0_PARAMETER_ADDR, word, Destination::All, delay);
                    proof {
                        done = done.push(ramp_write(c, t, index as int));
                    }
                    last_dividers = dividers;
                    last_word = word;
                },
                None => {
                    assert(!ramp_step_possible(c, t, index as int));
                    return Err(RampError::NoDividers);
                },
            }
            index = index + 1;
        }
        proof {
            lemma_ramp_reaches_target(c, t, steps - 1);
        }
        let mut pll = self.plls[BM1370_PLL_ID_HASH];
        pll.apply(last_dividers);
        self.plls[BM1370_PLL_ID_HASH] = pll;
        shadow_write(&mut self.registers, PLL0_PARAMETER_ADDR, last_word);
        proof {
            assert(self@.plls =~= after_ramp(before, t).plls);
            let d = last_dividers;
            assert(d.best(HASH_SEARCH_INPUT_HZ as int, t, HASH_FREQUENCY_TOLERANCE_HZ as int));
            assert forall|other: int| 0 <= other < 4 implies (#[trigger] self@.plls[other]).well_formed() by {
                if other != 0 {
                    assert(self@.plls[other] == before.plls[other]);
                }
            }
        }
        Ok(list)
    }

    /// The commands that switch version rolling on along a chain.
    ///
    /// Each chip gets its nonce offset, in the order of the chain and
    /// without a pause: the chips share 65536 offsets out evenly, from
    /// `0x8000_0000` on. Every chip then gets the hash counting number and
    /// the version-rolling control with rolling on and `mask` set, each
    /// followed by a pause of 1 ms. The model notes that rolling is on, and
    /// the mask.
    pub fn send_version_rolling(
        &mut self,
        mask: u32,
        chain_domain_cnt: u8,
        domain_asic_cnt: u8,
        asic_addr_interval: u16,
    ) -> (list: CommandList)
        requires
            old(self).wf(),
            chain(chain_domain_cnt, domain_asic_cnt, asic_addr_interval).valid(),
            chain(chain_domain_cnt, domain_asic_cnt, asic_addr_interval).spec_chip_count() + 2
                <= COMMAND_CAPACITY,
        ensures
            steps_encode(
                command_steps(list),
                version_rolling_writes(
                    old(self)@,
                    mask,
                    chain(chain_domain_cnt, domain_asic_cnt, asic_addr_interval),
                ),
            ),
            final(self)@ == after_version_rolling(old(self)@, mask),
            final(self).wf(),
    {
        let topology = ChainTopology {
            voltage_domain_count: chain_domain_cnt,
            chips_per_domain: domain_asic_cnt,
            chip_address_interval: asic_addr_interval,
        };
        let ghost before = self@;
        let ghost expected = version_rolling_writes(before, mask, topology);
        assert(before.registers.contains_key(HASH_COUNTING_NUMBER_ADDR));
        assert(before.registers.contains_key(VERSION_ROLLING_ADDR));
        let count = topology.chip_count();

        let mut list = new_command_list();
        let ghost mut done: Seq<RegisterWrite> = Seq::empty();
        let mut number: u64 = 0;
        while number < count
            invariant
                number <= count,
                count == topology.spec_chip_count(),
                count + 2 <= COMMAND_CAPACITY,
                topology.valid(),
                done =~= nonce_offset_writes(topology, number as int),
                steps_encode(command_steps(list), done),
            decreases count - number,
        {
            let share: u64 = (NONCE_OFFSET_SPAN as u64) / count;
            assert(share * number <= 0x1_0000) by (nonlinear_arith)
                requires
                    share == 0x1_0000int / (count as int),
                    0 <= number < count,
            ;
            let offset: u32 = NONCE_OFFSET_BASE + (share * number) as u32;
            let address = topology.numbered_chip_address(number);
            emit(
                &mut list,
                Ghost(done),
                CHIP_NONCE_OFFSET_ADDR,
                offset,
                Destination::Chip(address),
                0,
            );
            proof {
                topology.lemma_numbered_address_in_range(number as int);
                done = done.push(nonce_offset_write(topology, number as int));
            }
            number = number + 1;
        }

        emit(
            &mut list,
            Ghost(done),
            HASH_COUNTING_NUMBER_ADDR,
            HASH_COUNTING_NUMBER,
            Destination::All,
            VERSION_ROLLING_DELAY_MS,
        );
        proof {
            done = done.push(
                write_to(
                    HASH_COUNTING_NUMBER_ADDR,
                    HASH_COUNTING_NUMBER,
                    Destination::All,
                    VERSION_ROLLING_DELAY_MS,
                ),
            );
        }
        shadow_write(&mut self.registers, HASH_COUNTING_NUMBER_ADDR, HASH_COUNTING_NUMBER);

        let word = set_version_mask(
            enable_version_rolling(shadow_read(&self.registers, VERSION_ROLLING_ADDR)),
            mask,
        );
        emit(
            &mut list,
            Ghost(done),
            VERSION_ROLLING_ADDR,
            word,
            Destination::All,
            VERSION_ROLLING_DELAY_MS,
        );
        proof {
            done = done.push(
                write_to(VERSION_ROLLING_ADDR, word, Destination::All, VERSION_ROLLING_DELAY_MS),
            );
            assert(done =~= expected);
        }
        shadow_write(&mut self.registers, VERSION_ROLLING_ADDR, word);
        self.enable_version_rolling(mask);
        list
    }

    /// The commands that go out between the core reset and the frequency
    /// ramp. The model stays as it is.
    pub fn between_reset_and_set_freq(&self) -> (list: CommandList)
        ensures
            steps_encode(command_steps(list), between_reset_and_set_freq_writes()),
    {
        let mut list = new_command_list();
        let ghost done: Seq<RegisterWrite> = Seq::empty();
        let ghost expected = between_reset_and_set_freq_writes();
        emit(&mut list, Ghost(done), REG_B9_ADDR, 0x0000_4480, Destination::All, 20);
        let ghost done = done.push(expected[0]);
        emit(&mut list, Ghost(done), ANALOG_MUX_CONTROL_ADDR, 0x0000_0002, Destination::All, 100);
        let ghost done = done.push(expected[1]);
        emit(&mut list, Ghost(done), REG_B9_ADDR, 0x0000_4480, Destination::All, 20);
        let ghost done = done.push(expected[2]);
        emit(&mut list, Ghost(done), CORE_REGISTER_CONTROL_ADDR, 0x8000_8dee, Destination::All, 100);
        let ghost done = done.push(expected[3]);
        assert(done =~= expected);
        list
    }
}

// Sending a sequence again

/// The initialisation sent a second time goes out as the same commands and
/// leaves the model as the first time did.
pub proof fn lemma_init_again(state: ChipState, difficulty: u32)
    ensures
        init_writes(after_init(state, difficulty), difficulty) == init_writes(state, difficulty),
        after_init(after_init(state, difficulty), difficulty) == after_init(state, difficulty),
{
    let current = state.core_registers[CLOCK_DELAY_CTRL_ID];
    assert(init_clock_delay(init_clock_delay(current)) == init_clock_delay(current)) by (bit_vector);
    let after = after_init(state, difficulty);
    let twice = after_init(after, difficulty);
    assert(twice.core_registers =~= after.core_registers);
    assert(twice.registers =~= after.registers);
    assert(init_writes(after, difficulty) =~= init_writes(state, difficulty));
}

/// A core reset sent a second time to the same chip goes out as the same
/// commands and leaves the model as the first time did.
pub proof fn lemma_reset_core_again(state: ChipState, destination: Destination)
    ensures
        reset_core_writes(after_reset_core(state), destination) == reset_core_writes(
            state,
            destination,
        ),
        after_reset_core(after_reset_core(state)) == after_reset_core(state),
{
    let a8 = state.registers[REG_A8_ADDR];
    let misc = state.registers[MISC_CONTROL_ADDR];
    assert(reset_reg_a8(reset_reg_a8(a8)) == reset_reg_a8(a8)) by (bit_vector);
    assert(reset_misc_control(reset_misc_control(misc)) == reset_misc_control(misc)) by (bit_vector);
    let after = after_reset_core(state);
    let twice = after_reset_core(after);
    assert(twice.registers =~= after.registers);
    assert(twice.core_registers =~= after.core_registers);
    assert(reset_core_writes(after, destination) =~= reset_core_writes(state, destination));
}

/// The baud-rate sequence sent a second time goes out as the same commands
/// and leaves the model as the first time did.
pub proof fn lemma_baudrate_again(state: ChipState, baudrate: u32, topology: ChainTopology)
    requires
        state.wf(),
    ensures
        baudrate_writes(after_baudrate(state, baudrate), baudrate, topology) == baudrate_writes(
            state,
            baudrate,
            topology,
        ),
        after_baudrate(after_baudrate(state, baudrate), baudrate) == after_baudrate(
            state,
            baudrate,
        ),
{
    let input = state.input_clock();
    let current = state.registers[FAST_UART_CONFIGURATION_ADDR];
    let divider = baud_divider(input, baudrate);
    assert(spec_set_bt8d(
        spec_select_input_clock(spec_set_bt8d(spec_select_input_clock(current), divider)),
        divider,
    ) == spec_set_bt8d(spec_select_input_clock(current), divider)) by (bit_vector);
    let pll = state.plls[BM1370_PLL_ID_UART as int];
    assert(uart_pll(uart_pll(pll)).output_dividers@ =~= uart_pll(pll).output_dividers@);
    assert(uart_pll(uart_pll(pll)).output_dividers == uart_pll(pll).output_dividers);
    assert(uart_pll(uart_pll(pll)) == uart_pll(pll));
    let after = after_baudrate(state, baudrate);
    let twice = after_baudrate(after, baudrate);
    assert(after.input_clock() == input);
    assert(twice.registers =~= after.registers);
    assert(twice.plls =~= after.plls);
    assert(baud_clock_write(after, baudrate) == baud_clock_write(state, baudrate));
    assert(after.registers[UART_RELAY_ADDR] == state.registers[UART_RELAY_ADDR]);
}

/// Switching version rolling on a second time, with the same mask, goes out
/// as the same commands and leaves the model as the first time did.
pub proof fn lemma_version_rolling_again(state: ChipState, version_mask: u32, topology: ChainTopology)
    ensures
        version_rolling_writes(
            after_version_rolling(state, version_mask),
            version_mask,
            topology,
        ) == version_rolling_writes(state, version_mask, topology),
        after_version_rolling(after_version_rolling(state, version_mask), version_mask)
            == after_version_rolling(state, version_mask),
{
    let current = state.registers[VERSION_ROLLING_ADDR];
    assert(version_rolling_word(version_rolling_word(current, version_mask), version_mask)
        == version_rolling_word(current, version_mask)) by (bit_vector);
    let after = after_version_rolling(state, version_mask);
    let twice = after_version_rolling(after, version_mask);
    assert(twice.registers =~= after.registers);
}

} // verus!
