//! The BM1397: its geometry, its state at power-on, and what a nonce tells
//! about the core that found it. This generation does not roll versions.

use crate::nonce::{ChipGeometry, RollingDuration};
use crate::pll::{Pll, PllDividers, INPUT_FREQUENCY_MAX};
use vstd::prelude::*;

verus! {

pub const BM1397_CHIP_ID: u16 = 0x1397;

pub const BM1397_CORE_CNT: usize = 168;

pub const BM1397_SMALL_CORE_CNT: usize = 672;

pub const BM1397_CORE_SMALL_CORE_CNT: usize = 4;

pub const BM1397_DOMAIN_CNT: usize = 4;

pub const BM1397_PLL_CNT: usize = 4;

/// The core id is in bits 24 to 31 of a nonce.
pub const BM1397_NONCE_CORES_BITS: u32 = 8;

pub const BM1397_NONCE_CORES_MASK: u32 = 0b1111_1111;

/// The small-core id is in bits 22 and 23 of a nonce.
pub const BM1397_NONCE_SMALL_CORES_BITS: u32 = 2;

pub const BM1397_NONCE_SMALL_CORES_MASK: u32 = 0b11;

/// The clock that a chip is fed with unless it is made with another.
pub const BM1397_INPUT_CLOCK_HZ: u64 = 25_000_000;

/// The parameter words of the four PLLs at power-on. PLL 0 is locked and
/// enabled, multiplies by 96 and divides by 6: it runs at 400 MHz from
/// 25 MHz.
pub const BM1397_PLL_PARAMETERS: [u32; 4] = [0xc060_0150, 0x0064_0100, 0x0068_0100, 0x0070_0100];

/// The divider words of the four PLLs at power-on. Tap 0 of PLL 0 divides
/// by 8.
pub const BM1397_PLL_DIVIDERS: [u32; 4] = [0x0304_0607, 0x0304_0506, 0x0304_0506, 0x0304_0506];

/// The model of one BM1397.
#[derive(Clone, Copy, Debug)]
pub struct BM1397 {
    pub plls: [Pll; 4],
    pub chip_addr: u8,
}

impl BM1397 {
    /// What is fixed for every BM1397.
    pub open spec fn spec_geometry() -> ChipGeometry {
        ChipGeometry {
            chip_id: BM1397_CHIP_ID,
            core_count: BM1397_CORE_CNT,
            small_core_count: BM1397_SMALL_CORE_CNT,
            cores_per_big_core: BM1397_CORE_SMALL_CORE_CNT,
            voltage_domain_count: BM1397_DOMAIN_CNT,
            pll_count: BM1397_PLL_CNT,
            nonce_core_id_bits: BM1397_NONCE_CORES_BITS,
            nonce_small_core_id_bits: BM1397_NONCE_SMALL_CORES_BITS,
            chip_address_bits: 8,
            supports_version_rolling: false,
        }
    }

    /// Whether the chip is as it comes up when fed with `clock`.
    pub open spec fn is_power_on(&self, clock: u64) -> bool {
        &&& forall|index: int|
            0 <= index < 4 ==> #[trigger] self.plls[index] == Pll::spec_from_words(
                clock,
                BM1397_PLL_PARAMETERS[index],
                BM1397_PLL_DIVIDERS[index],
            )
        &&& self.chip_addr == 0
    }

    /// The frequency at which the cores hash: that of tap 0 of PLL 0.
    pub open spec fn spec_hash_freq(&self) -> int {
        self.plls[0].spec_frequency(0)
    }

    /// What is fixed for every BM1397.
    pub fn geometry() -> (geometry: ChipGeometry)
        ensures
            geometry == Self::spec_geometry(),
            geometry.valid(),
    {
        ChipGeometry {
            chip_id: BM1397_CHIP_ID,
            core_count: BM1397_CORE_CNT,
            small_core_count: BM1397_SMALL_CORE_CNT,
            cores_per_big_core: BM1397_CORE_SMALL_CORE_CNT,
            voltage_domain_count: BM1397_DOMAIN_CNT,
            pll_count: BM1397_PLL_CNT,
            nonce_core_id_bits: BM1397_NONCE_CORES_BITS,
            nonce_small_core_id_bits: BM1397_NONCE_SMALL_CORES_BITS,
            chip_address_bits: 8,
            supports_version_rolling: false,
        }
    }

    /// At power-on the hashing PLL multiplies its input by 96 and divides
    /// it by 6, and its tap 0 divides by 8: a chip fed with 25 MHz hashes at
    /// 50 MHz.
    pub proof fn lemma_power_on_hash_pll(self, clock: u64)
        requires
            self.is_power_on(clock),
        ensures
            self.plls[0].dividers() == (PllDividers {
                reference_divider: 1,
                feedback_divider: 96,
                post_divider_1: 6,
                post_divider_2: 1,
            }),
            self.plls[0].output_dividers[0] == 7,
            self.plls[0].locked,
            self.plls[0].enabled,
            self.spec_hash_freq() == clock * 96 / 6 / 8,
            clock <= INPUT_FREQUENCY_MAX ==> self.plls[0].valid(),
    {
        let word: u32 = BM1397_PLL_PARAMETERS[0];
        let taps: u32 = BM1397_PLL_DIVIDERS[0];
        assert(word & 0x8000_0000 != 0 && word & 0x4000_0000 != 0 && (word >> 16) & 0xff == 96 && (
        word >> 8) & 0xff == 1 && (word >> 4) & 0xf == 5 && word & 0xf == 0 && taps & 0xf == 7)
            by (bit_vector)
            requires
                word == 0xc060_0150,
                taps == 0x0304_0607,
        ;
        assert(self.plls[0] == Pll::spec_from_words(clock, word, taps));
        assert(self.plls[0].output_dividers[0] == 7);
        assert(1 * 6 * 1 == 6) by (nonlinear_arith);
    }

    /// A chip at power-on, fed with `clk`.
    pub fn new_with_clk(clk: u64) -> (chip: Self)
        ensures
            chip.is_power_on(clk),
            chip.spec_hash_freq() == clk * 96 / 6 / 8,
            clk <= INPUT_FREQUENCY_MAX ==> chip.plls[0].valid(),
    {
        let chip = BM1397 {
            plls: [
                Pll::from_words(clk, BM1397_PLL_PARAMETERS[0], BM1397_PLL_DIVIDERS[0]),
                Pll::from_words(clk, BM1397_PLL_PARAMETERS[1], BM1397_PLL_DIVIDERS[1]),
                Pll::from_words(clk, BM1397_PLL_PARAMETERS[2], BM1397_PLL_DIVIDERS[2]),
                Pll::from_words(clk, BM1397_PLL_PARAMETERS[3], BM1397_PLL_DIVIDERS[3]),
            ],
            chip_addr: 0,
        };
        proof {
            chip.lemma_power_on_hash_pll(clk);
        }
        chip
    }

    /// Sets the address by which the chip is spoken to.
    pub fn set_chip_addr(&mut self, chip_addr: u8)
        ensures
            *final(self) == (BM1397 { chip_addr, ..*old(self) }),
    {
        self.chip_addr = chip_addr;
    }

    /// The frequency at which the cores hash.
    pub fn hash_freq(&self) -> (hz: u64)
        requires
            self.plls[0].valid(),
        ensures
            hz == self.spec_hash_freq(),
    {
        self.plls[0].frequency(0)
    }

    /// Hashes a second that the chip can do at most: each small core one
    /// for every cycle of the hash clock.
    pub fn theoretical_hashrate(&self) -> (hashes: u128)
        requires
            self.plls[0].valid(),
        ensures
            hashes == self.spec_hash_freq() * BM1397_SMALL_CORE_CNT,
    {
        let hz = self.hash_freq();
        assert(hz * BM1397_SMALL_CORE_CNT <= 0xffff_ffff_ffff_ffff * 672) by (nonlinear_arith)
            requires
                0 <= hz <= 0xffff_ffff_ffff_ffff,
                BM1397_SMALL_CORE_CNT == 672,
        ;
        (hz as u128) * (BM1397_SMALL_CORE_CNT as u128)
    }

    /// How long the chip takes to go through the nonces that are its own.
    pub fn rolling_duration(&self) -> (duration: RollingDuration)
        requires
            self.plls[0].valid(),
            self.spec_hash_freq() > 0,
        ensures
            duration == Self::spec_geometry().spec_rolling_duration(
                false,
                0,
                self.spec_hash_freq() as u64,
            ),
            duration.positive(),
    {
        let hz = self.hash_freq();
        Self::geometry().rolling_duration(false, 0, hz)
    }

    /// The core that a nonce comes from: bits 24 to 31.
    pub fn nonce2core_id(&self, nonce: u32) -> (id: usize)
        ensures
            id == Self::spec_geometry().spec_core_id(nonce),
    {
        Self::geometry().core_id(nonce)
    }

    /// The small core that a nonce comes from: bits 22 and 23.
    pub fn nonce2small_core_id(&self, nonce: u32) -> (id: usize)
        ensures
            id == Self::spec_geometry().spec_small_core_id(nonce),
    {
        Self::geometry().small_core_id(nonce)
    }

    /// The address of the chip that a nonce comes from: bits 14 to 21.
    pub fn nonce2chip_addr(&self, nonce: u32) -> (address: usize)
        ensures
            address == Self::spec_geometry().spec_chip_address(nonce, false),
            address <= 0xff,
    {
        Self::geometry().chip_address(nonce, false)
    }
}

impl Default for BM1397 {
    /// A chip at power-on, fed with 25 MHz.
    fn default() -> (chip: Self)
        ensures
            chip.is_power_on(BM1397_INPUT_CLOCK_HZ),
            chip.spec_hash_freq() == 50_000_000,
            chip.plls[0].valid(),
    {
        BM1397::new_with_clk(BM1397_INPUT_CLOCK_HZ)
    }
}

} // verus!
