//! The BM1370: its geometry, its state at power-on, and what a nonce tells
//! about the core that found it.

use crate::nonce::{ChipGeometry, RollingDuration};
use crate::pll::{Pll, PllDividers, INPUT_FREQUENCY_MAX};
use crate::shadow::{
    core_register_get, core_register_insert, core_register_values, new_core_register_map,
    new_register_map, register_get, register_insert, register_values, CoreRegisterMap,
    RegisterMap,
};
use vstd::prelude::*;

verus! {

pub const BM1370_CHIP_ID: u16 = 0x1370;

pub const BM1370_CORE_CNT: usize = 128;

pub const BM1370_SMALL_CORE_CNT: usize = 2040;

pub const BM1370_CORE_SMALL_CORE_CNT: usize = 16;

pub const BM1370_DOMAIN_CNT: usize = 4;

pub const BM1370_PLL_CNT: usize = 4;

/// The PLL that clocks the hashing cores.
pub const BM1370_PLL_ID_HASH: usize = 0;

/// The tap of that PLL which the cores take their clock from.
pub const BM1370_PLL_OUT_HASH: usize = 0;

/// The PLL that can clock the UART.
pub const BM1370_PLL_ID_UART: usize = 3;

/// The tap of that PLL which the UART takes its clock from.
pub const BM1370_PLL_OUT_UART: usize = 3;

pub const BM1370_NONCE_CORES_BITS: u32 = 7;

pub const BM1370_NONCE_CORES_MASK: u32 = 0b111_1111;

pub const BM1370_NONCE_SMALL_CORES_BITS: u32 = 3;

pub const BM1370_NONCE_SMALL_CORES_MASK: u32 = 0b111;

/// The clock that a chip is fed with unless it is made with another.
pub const BM1370_INPUT_CLOCK_HZ: u64 = 25_000_000;

/// The version mask of a chip at power-on.
pub const BM1370_VERSION_MASK: u32 = 0x1fff_e000;

/// The parameter words of the four PLLs at power-on.
pub const BM1370_PLL_PARAMETERS: [u32; 4] = [0xc054_0165, 0x2050_0174, 0x2050_0174, 0x0000_0000];

/// The registers at power-on, each at a quarter of its address. A chip has
/// no register at address `0x88`.
pub const BM1370_REGISTERS: [u32; 64] = [
    0x1370_0000,  // 00 chip identification
    0x0001_2a89,  // 04 hash rate
    0xc054_0165,  // 08 PLL 0 parameter
    0x0000_0000,  // 0c chip nonce offset
    0x0000_1eb5,  // 10 hash counting number
    0x0000_0000,  // 14 ticket mask
    0x0000_c100,  // 18 misc control
    0x0000_0000,  // 1c I2C control
    0x0000_0007,  // 20 ordered clock enable
    0x0010_0000,  // 24
    0x0130_1a00,  // 28 fast UART configuration
    0x000f_0000,  // 2c UART relay
    0x0000_0080,  // 30
    0x0000_0000,  // 34
    0x0000_0000,  // 38 ticket mask 2
    0x0000_0000,  // 3c core register control
    0x007f_0000,  // 40 core register value
    0x0000_0000,  // 44 external temperature sensor read
    0x0000_0000,  // 48 error flag
    0x0000_0000,  // 4c nonce error counter
    0x0000_0000,  // 50 nonce overflow counter
    0x0000_0000,  // 54 analog mux control
    0x0001_2111,  // 58 IO driver strength configuration
    0x0000_ffff,  // 5c time out
    0x2050_0174,  // 60 PLL 1 parameter
    0x2050_0174,  // 64 PLL 2 parameter
    0x0000_0000,  // 68 PLL 3 parameter
    0x0001_0200,  // 6c ordered clock monitor
    0x0000_0000,  // 70 PLL 0 divider
    0x0000_0000,  // 74 PLL 1 divider
    0x0000_0000,  // 78 PLL 2 divider
    0x0000_0000,  // 7c PLL 3 divider
    0x0000_0000,  // 80 clock order control 0
    0x0000_0000,  // 84 clock order control 1
    0x0000_0000,  // 88 no register
    0x0000_0000,  // 8c clock order status
    0x0000_0000,  // 90 frequency sweep control 1
    0x0000_0000,  // 94 golden nonce for sweep return
    0x0000_0000,  // 98 returned group pattern status
    0x00f7_0073,  // 9c nonce returned timeout
    0x0000_0000,  // a0 returned single pattern status
    0x0000_ffff,  // a4 version rolling
    0x0007_0000,  // a8
    0x0000_0000,  // ac
    0x0000_0000,  // b0
    0x0000_0000,  // b4
    0x2000_0000,  // b8
    0x0000_3313,  // bc
    0x0000_2000,  // c0
    0x0000_b850,  // c4
    0x0000_0000,  // c8
    0x0000_0000,  // cc
    0x0000_0000,  // d0
    0x0000_0000,  // d4
    0x0000_0000,  // d8
    0x0000_0000,  // dc
    0x0000_0000,  // e0
    0x0000_0000,  // e4
    0x0000_0000,  // e8
    0x0000_0000,  // ec
    0x0000_0000,  // f0
    0x0000_0000,  // f4
    0x0000_0000,  // f8
    0x0000_0000,  // fc
];

/// The core registers at power-on, each at its id. Only twelve of the ids
/// are in use.
pub const BM1370_CORE_REGISTERS: [u8; 23] = [
    0x98,  // 0 clock delay control
    0x00,
    0x55,  // 2
    0x00,  // 3
    0x00,  // 4
    0x40,  // 5 hash clock control
    0x08,  // 6 hash clock counter
    0x11,  // 7
    0x00,  // 8
    0x00,
    0x00,
    0x00,  // 11
    0x00,
    0x00,
    0x00,
    0x00,  // 15
    0x00,  // 16
    0x00,
    0x00,
    0x00,
    0x00,
    0x00,
    0x00,  // 22
];

/// Whether a BM1370 has a register at `address`.
pub open spec fn is_register(address: u8) -> bool {
    address % 4 == 0 && address != 0x88
}

/// Whether a BM1370 has a core register with `id`.
pub open spec fn is_core_register(id: u8) -> bool {
    id == 0 || (2 <= id <= 8) || id == 11 || id == 15 || id == 16 || id == 22
}

/// The register file of a BM1370 at power-on.
pub open spec fn power_on_registers() -> Map<u8, u32> {
    Map::new(|address: u8| is_register(address), |address: u8| BM1370_REGISTERS[address as int / 4])
}

/// The core-register file of a BM1370 at power-on.
pub open spec fn power_on_core_registers() -> Map<u8, u8> {
    Map::new(|id: u8| is_core_register(id), |id: u8| BM1370_CORE_REGISTERS[id as int])
}

/// The model of one BM1370.
///
/// The two register files shadow what has been queued for the chip: a
/// sequence generator writes each value here as it emits the command.
#[derive(Debug)]
pub struct BM1370 {
    pub plls: [Pll; 4],
    pub chip_addr: u8,
    pub registers: RegisterMap,
    pub core_registers: CoreRegisterMap,
    pub version_rolling_enabled: bool,
    pub version_mask: u32,
}

/// What a chip model holds, as plain mathematical values.
pub struct ChipState {
    pub plls: Seq<Pll>,
    pub chip_addr: u8,
    pub registers: Map<u8, u32>,
    pub core_registers: Map<u8, u8>,
    pub version_rolling_enabled: bool,
    pub version_mask: u32,
}

impl View for BM1370 {
    type V = ChipState;

    open spec fn view(&self) -> ChipState {
        ChipState {
            plls: self.plls@,
            chip_addr: self.chip_addr,
            registers: register_values(self.registers),
            core_registers: core_register_values(self.core_registers),
            version_rolling_enabled: self.version_rolling_enabled,
            version_mask: self.version_mask,
        }
    }
}

impl ChipState {
    /// Whether both register files hold every register of the chip, and
    /// every PLL can be written into its parameter word.
    pub open spec fn wf(self) -> bool {
        &&& self.plls.len() == 4
        &&& forall|address: u8| is_register(address) ==> #[trigger] self.registers.contains_key(address)
        &&& forall|id: u8| is_core_register(id) ==> #[trigger] self.core_registers.contains_key(id)
        &&& forall|index: int| 0 <= index < 4 ==> (#[trigger] self.plls[index]).well_formed()
    }

    /// The frequency at which the cores hash.
    pub open spec fn hash_freq(self) -> int {
        self.plls[BM1370_PLL_ID_HASH as int].spec_frequency(BM1370_PLL_OUT_HASH as int)
    }
}

/// The state of a chip at power-on, fed with `clock`.
pub open spec fn power_on_state(clock: u64) -> ChipState {
    ChipState {
        plls: Seq::new(4, |index: int| Pll::spec_from_words(clock, BM1370_PLL_PARAMETERS[index], 0)),
        chip_addr: 0,
        registers: power_on_registers(),
        core_registers: power_on_core_registers(),
        version_rolling_enabled: false,
        version_mask: BM1370_VERSION_MASK,
    }
}

/// At power-on the hashing PLL multiplies its input by 84 and divides it by
/// 7 and by 6: a chip fed with 25 MHz hashes at 50 MHz.
pub proof fn lemma_power_on_hash_pll(clock: u64)
    ensures
        power_on_state(clock).plls[BM1370_PLL_ID_HASH as int].dividers() == (PllDividers {
            reference_divider: 1,
            feedback_divider: 84,
            post_divider_1: 7,
            post_divider_2: 6,
        }),
        power_on_state(clock).plls[BM1370_PLL_ID_HASH as int].locked,
        power_on_state(clock).plls[BM1370_PLL_ID_HASH as int].enabled,
        power_on_state(clock).hash_freq() == clock * 84 / 42,
        clock <= INPUT_FREQUENCY_MAX ==> power_on_state(clock).plls[BM1370_PLL_ID_HASH as int].valid(),
{
    let word: u32 = BM1370_PLL_PARAMETERS[0];
    assert(word & 0x8000_0000 != 0 && word & 0x4000_0000 != 0 && (word >> 16) & 0xff == 84 && (word
        >> 8) & 0xff == 1 && (word >> 4) & 0xf == 6 && word & 0xf == 5 && 0u32 & 0xf == 0) by (bit_vector)
        requires
            word == 0xc054_0165,
    ;
    let pll = power_on_state(clock).plls[BM1370_PLL_ID_HASH as int];
    assert(pll.output_dividers[0] == 0);
    assert(1 * 7 * 6 == 42) by (nonlinear_arith);
}

/// Fills a register file with the values of power-on.
fn power_on_register_map() -> (registers: RegisterMap)
    ensures
        register_values(registers) == power_on_registers(),
{
    let mut registers = new_register_map();
    let mut index: usize = 0;
    while index < 64
        invariant
            index <= 64,
            register_values(registers).dom().finite(),
            register_values(registers).dom().len() <= index,
            register_values(registers) =~= Map::new(
                |address: u8| is_register(address) && address < 4 * index,
                |address: u8| BM1370_REGISTERS[address as int / 4],
            ),
        decreases 64 - index,
    {
        let address: u8 = (4 * index) as u8;
        if address != 0x88 {
            let _ = register_insert(&mut registers, address, BM1370_REGISTERS[index]);
        }
        index = index + 1;
    }
    assert(register_values(registers) =~= power_on_registers());
    registers
}

/// Fills a core-register file with the values of power-on.
fn power_on_core_register_map() -> (registers: CoreRegisterMap)
    ensures
        core_register_values(registers) == power_on_core_registers(),
{
    let mut registers = new_core_register_map();
    let ghost mut count: nat = 0;
    let mut index: usize = 0;
    while index < 23
        invariant
            index <= 23,
            count <= 12,
            index <= 22 ==> count <= 11,
            index <= 16 ==> count <= 10,
            index <= 15 ==> count <= 9,
            index <= 11 ==> count <= 8,
            index <= 8 ==> count <= index,
            2 <= index <= 8 ==> count + 1 <= index,
            core_register_values(registers).dom().finite(),
            core_register_values(registers).dom().len() <= count,
            core_register_values(registers) =~= Map::new(
                |id: u8| is_core_register(id) && id < index,
                |id: u8| BM1370_CORE_REGISTERS[id as int],
            ),
        decreases 23 - index,
    {
        let id: u8 = index as u8;
        if id == 0 || (2 <= id && id <= 8) || id == 11 || id == 15 || id == 16 || id == 22 {
            let _ = core_register_insert(&mut registers, id, BM1370_CORE_REGISTERS[index]);
            proof {
                count = count + 1;
            }
        }
        index = index + 1;
    }
    assert(core_register_values(registers) =~= power_on_core_registers());
    registers
}

impl BM1370 {
    /// What is fixed for every BM1370.
    pub open spec fn spec_geometry() -> ChipGeometry {
        ChipGeometry {
            chip_id: BM1370_CHIP_ID,
            core_count: BM1370_CORE_CNT,
            small_core_count: BM1370_SMALL_CORE_CNT,
            cores_per_big_core: BM1370_CORE_SMALL_CORE_CNT,
            voltage_domain_count: BM1370_DOMAIN_CNT,
            pll_count: BM1370_PLL_CNT,
            nonce_core_id_bits: BM1370_NONCE_CORES_BITS,
            nonce_small_core_id_bits: BM1370_NONCE_SMALL_CORES_BITS,
            chip_address_bits: 8,
            supports_version_rolling: true,
        }
    }

    /// Whether both register files hold every register of the chip, and
    /// every PLL can be written into its parameter word.
    pub open spec fn wf(&self) -> bool {
        self@.wf()
    }

    /// The frequency at which the cores hash.
    pub open spec fn spec_hash_freq(&self) -> int {
        self@.hash_freq()
    }

    /// What is fixed for every BM1370.
    pub fn geometry() -> (geometry: ChipGeometry)
        ensures
            geometry == Self::spec_geometry(),
            geometry.valid(),
    {
        ChipGeometry {
            chip_id: BM1370_CHIP_ID,
            core_count: BM1370_CORE_CNT,
            small_core_count: BM1370_SMALL_CORE_CNT,
            cores_per_big_core: BM1370_CORE_SMALL_CORE_CNT,
            voltage_domain_count: BM1370_DOMAIN_CNT,
            pll_count: BM1370_PLL_CNT,
            nonce_core_id_bits: BM1370_NONCE_CORES_BITS,
            nonce_small_core_id_bits: BM1370_NONCE_SMALL_CORES_BITS,
            chip_address_bits: 8,
            supports_version_rolling: true,
        }
    }

    /// A chip at power-on, fed with `clk`.
    pub fn new_with_clk(clk: u64) -> (chip: Self)
        ensures
            chip@ == power_on_state(clk),
            chip.wf(),
            chip@.hash_freq() == clk * 84 / 42,
            clk <= INPUT_FREQUENCY_MAX ==> chip@.plls[BM1370_PLL_ID_HASH as int].valid(),
    {
        let chip = BM1370 {
            plls: [
                Pll::from_words(clk, BM1370_PLL_PARAMETERS[0], 0),
                Pll::from_words(clk, BM1370_PLL_PARAMETERS[1], 0),
                Pll::from_words(clk, BM1370_PLL_PARAMETERS[2], 0),
                Pll::from_words(clk, BM1370_PLL_PARAMETERS[3], 0),
            ],
            chip_addr: 0,
            registers: power_on_register_map(),
            core_registers: power_on_core_register_map(),
            version_rolling_enabled: false,
            version_mask: BM1370_VERSION_MASK,
        };
        assert(chip@.plls =~= power_on_state(clk).plls);
        proof {
            lemma_power_on_hash_pll(clk);
        }
        chip
    }

    /// Whether both register files hold every register of the chip, and
    /// every PLL can be written into its parameter word.
    pub fn is_wf(&self) -> (wf: bool)
        ensures
            wf == self.wf(),
    {
        let mut index: usize = 0;
        while index < 4
            invariant
                index <= 4,
                forall|done: int| 0 <= done < index ==> (#[trigger] self@.plls[done]).well_formed(),
            decreases 4 - index,
        {
            if !self.plls[index].is_well_formed() {
                return false;
            }
            index = index + 1;
        }
        let mut address: u8 = 0;
        loop
            invariant
                forall|done: int| 0 <= done < 4 ==> (#[trigger] self@.plls[done]).well_formed(),
                forall|done: u8|
                    done < address && is_register(done) ==> #[trigger] self@.registers.contains_key(
                        done,
                    ),
                forall|done: u8|
                    done < address && is_core_register(done)
                        ==> #[trigger] self@.core_registers.contains_key(done),
            ensures
                self.wf(),
            decreases 255 - address,
        {
            if address % 4 == 0 && address != 0x88 && register_get(&self.registers, address).is_none() {
                assert(is_register(address) && !self@.registers.contains_key(address));
                return false;
            }
            if (address == 0 || (2 <= address && address <= 8) || address == 11 || address == 15
                || address == 16 || address == 22) && core_register_get(
                &self.core_registers,
                address,
            ).is_none() {
                assert(is_core_register(address) && !self@.core_registers.contains_key(address));
                return false;
            }
            if address == 255 {
                break;
            }
            address = address + 1;
        }
        true
    }

    /// The clock that feeds the chip: the input of its hashing PLL.
    pub fn input_clock_freq(&self) -> (clock: u64)
        ensures
            clock == self@.plls[BM1370_PLL_ID_HASH as int].input_frequency,
    {
        self.plls[BM1370_PLL_ID_HASH].input_frequency
    }

    /// Sets the address by which the chip is spoken to.
    pub fn set_chip_addr(&mut self, chip_addr: u8)
        ensures
            final(self)@ == (ChipState { chip_addr, ..old(self)@ }),
    {
        self.chip_addr = chip_addr;
    }

    /// Notes that the chip rolls the versions in `version_mask`. No command
    /// for the chip comes of this: see `send_version_rolling`.
    pub fn enable_version_rolling(&mut self, version_mask: u32)
        ensures
            final(self)@ == (ChipState {
                version_rolling_enabled: true,
                version_mask,
                ..old(self)@
            }),
    {
        self.version_rolling_enabled = true;
        self.version_mask = version_mask;
    }

    /// The frequency at which the cores hash.
    pub fn hash_freq(&self) -> (hz: u64)
        requires
            self@.plls[BM1370_PLL_ID_HASH as int].valid(),
        ensures
            hz == self.spec_hash_freq(),
    {
        self.plls[BM1370_PLL_ID_HASH].frequency(BM1370_PLL_OUT_HASH)
    }

    /// Brings the hash clock to `freq` in the model, if dividers for it
    /// exist; the model stays as it is where there are none. No command for
    /// the chip comes of this: see `send_hash_freq`.
    pub fn set_hash_freq(&mut self, freq: u64) -> (found: bool)
        requires
            old(self)@.plls[BM1370_PLL_ID_HASH as int].input_frequency > 0,
            freq * (old(self)@.plls[BM1370_PLL_ID_HASH as int].output_dividers[BM1370_PLL_OUT_HASH as int]
                + 1) <= u64::MAX,
        ensures
            found == old(self)@.plls[BM1370_PLL_ID_HASH as int].reaches(
                BM1370_PLL_OUT_HASH as int,
                freq as int,
            ),
            final(self)@ == (ChipState {
                plls: old(self)@.plls.update(
                    BM1370_PLL_ID_HASH as int,
                    old(self)@.plls[BM1370_PLL_ID_HASH as int].spec_set_frequency(
                        BM1370_PLL_OUT_HASH as int,
                        freq as int,
                    ),
                ),
                ..old(self)@
            }),
    {
        let mut pll = self.plls[BM1370_PLL_ID_HASH];
        let found = pll.set_frequency(BM1370_PLL_OUT_HASH, freq);
        self.plls[BM1370_PLL_ID_HASH] = pll;
        assert(self@.plls =~= old(self)@.plls.update(BM1370_PLL_ID_HASH as int, pll));
        found
    }

    /// Hashes a second that the chip can do at most: each small core one
    /// for every cycle of the hash clock.
    pub fn theoretical_hashrate(&self) -> (hashes: u128)
        requires
            self@.plls[BM1370_PLL_ID_HASH as int].valid(),
        ensures
            hashes == self.spec_hash_freq() * BM1370_SMALL_CORE_CNT,
    {
        let hz = self.hash_freq();
        assert(hz * BM1370_SMALL_CORE_CNT <= 0xffff_ffff_ffff_ffff * 2040) by (nonlinear_arith)
            requires
                0 <= hz <= 0xffff_ffff_ffff_ffff,
                BM1370_SMALL_CORE_CNT == 2040,
        ;
        (hz as u128) * (BM1370_SMALL_CORE_CNT as u128)
    }

    /// How long the chip takes to go through the nonces, and with version
    /// rolling the versions, that are its own.
    pub fn rolling_duration(&self) -> (duration: RollingDuration)
        requires
            self@.plls[BM1370_PLL_ID_HASH as int].valid(),
            self.spec_hash_freq() > 0,
        ensures
            duration == Self::spec_geometry().spec_rolling_duration(
                self.version_rolling_enabled,
                self.version_mask,
                self.spec_hash_freq() as u64,
            ),
            duration.positive(),
    {
        let hz = self.hash_freq();
        Self::geometry().rolling_duration(self.version_rolling_enabled, self.version_mask, hz)
    }

    /// The core that a nonce comes from: bits 25 to 31.
    pub fn nonce2core_id(&self, nonce: u32) -> (id: usize)
        ensures
            id == Self::spec_geometry().spec_core_id(nonce),
    {
        Self::geometry().core_id(nonce)
    }

    /// The small core that a nonce comes from, where version rolling is off:
    /// bits 22 to 24.
    pub fn nonce2small_core_id(&self, nonce: u32) -> (id: usize)
        ensures
            id == Self::spec_geometry().spec_small_core_id(nonce),
    {
        Self::geometry().small_core_id(nonce)
    }

    /// The small core that a block version comes from, where version rolling
    /// is on: three bits from the lowest set bit of the version mask on.
    pub fn version2small_core_id(&self, version: u32) -> (id: usize)
        requires
            self.version_rolling_enabled,
            self.version_mask != 0,
        ensures
            id == Self::spec_geometry().spec_small_core_id_from_version(version, self.version_mask),
    {
        Self::geometry().small_core_id_from_version(version, self.version_mask)
    }

    /// The address of the chip that a nonce comes from: bits 17 to 24 with
    /// version rolling, bits 14 to 21 without.
    pub fn nonce2chip_addr(&self, nonce: u32) -> (address: usize)
        ensures
            address == Self::spec_geometry().spec_chip_address(nonce, self.version_rolling_enabled),
            address <= 0xff,
    {
        Self::geometry().chip_address(nonce, self.version_rolling_enabled)
    }

    /// The id by which the chip names its generation.
    pub fn chip_id(&self) -> (id: u16)
        ensures
            id == BM1370_CHIP_ID,
    {
        BM1370_CHIP_ID
    }

    /// Whether the chip can roll versions in hardware.
    pub fn has_version_rolling(&self) -> (rolls: bool)
        ensures
            rolls,
    {
        true
    }
}

impl Default for BM1370 {
    /// A chip at power-on, fed with 25 MHz.
    fn default() -> (chip: Self)
        ensures
            chip@ == power_on_state(BM1370_INPUT_CLOCK_HZ),
            chip.wf(),
            chip@.hash_freq() == 50_000_000,
            chip@.plls[BM1370_PLL_ID_HASH as int].valid(),
    {
        BM1370::new_with_clk(BM1370_INPUT_CLOCK_HZ)
    }
}

} // verus!
