//! The BM1366: its geometry, its state at power-on, and what a nonce tells
//! about the core that found it.

use crate::nonce::{ChipGeometry, RollingDuration};
use crate::pll::{Pll, PllDividers, INPUT_FREQUENCY_MAX};
use vstd::prelude::*;

verus! {

pub const BM1366_CHIP_ID: u16 = 0x1366;

pub const BM1366_CORE_CNT: usize = 112;

pub const BM1366_SMALL_CORE_CNT: usize = 894;

pub const BM1366_CORE_SMALL_CORE_CNT: usize = 8;

pub const BM1366_DOMAIN_CNT: usize = 1;

pub const BM1366_PLL_CNT: usize = 2;

/// The core id is in bits 25 to 31 of a nonce.
pub const BM1366_NONCE_CORES_BITS: u32 = 7;

pub const BM1366_NONCE_CORES_MASK: u32 = 0b111_1111;

/// The small-core id is in bits 22 to 24 of a nonce.
pub const BM1366_NONCE_SMALL_CORES_BITS: u32 = 3;

pub const BM1366_NONCE_SMALL_CORES_MASK: u32 = 0b111;

/// The clock that a chip is fed with unless it is made with another.
pub const BM1366_INPUT_CLOCK_HZ: u64 = 25_000_000;

/// The version mask of a chip at power-on.
pub const BM1366_VERSION_MASK: u32 = 0x1fff_e000;

/// The parameter words of the two PLLs at power-on. PLL 0 is locked and
/// enabled, multiplies by 84 and divides by 6 and by 5: it puts out 70 MHz
/// from 25 MHz.
pub const BM1366_PLL_PARAMETERS: [u32; 2] = [0xc054_0154, 0x0050_0163];

/// The model of one BM1366.
#[derive(Clone, Copy, Debug)]
pub struct BM1366 {
    pub plls: [Pll; 2],
    pub chip_addr: u8,
    pub version_rolling_enabled: bool,
    pub version_mask: u32,
}

impl BM1366 {
    /// What is fixed for every BM1366.
    pub open spec fn spec_geometry() -> ChipGeometry {
        ChipGeometry {
            chip_id: BM1366_CHIP_ID,
            core_count: BM1366_CORE_CNT,
            small_core_count: BM1366_SMALL_CORE_CNT,
            cores_per_big_core: BM1366_CORE_SMALL_CORE_CNT,
            voltage_domain_count: BM1366_DOMAIN_CNT,
            pll_count: BM1366_PLL_CNT,
            nonce_core_id_bits: BM1366_NONCE_CORES_BITS,
            nonce_small_core_id_bits: BM1366_NONCE_SMALL_CORES_BITS,
            chip_address_bits: 8,
            supports_version_rolling: true,
        }
    }

    /// Whether the chip is as it comes up when fed with `clock`.
    pub open spec fn is_power_on(&self, clock: u64) -> bool {
        &&& self.plls[0] == Pll::spec_from_words(clock, BM1366_PLL_PARAMETERS[0], 0)
        &&& self.plls[1] == Pll::spec_from_words(clock, BM1366_PLL_PARAMETERS[1], 0)
        &&& self.chip_addr == 0
        &&& !self.version_rolling_enabled
        &&& self.version_mask == BM1366_VERSION_MASK
    }

    /// The frequency at which the cores hash: that of tap 0 of PLL 0.
    pub open spec fn spec_hash_freq(&self) -> int {
        self.plls[0].spec_frequency(0)
    }

    /// What is fixed for every BM1366.
    pub fn geometry() -> (geometry: ChipGeometry)
        ensures
            geometry == Self::spec_geometry(),
            geometry.valid(),
    {
        ChipGeometry {
            chip_id: BM1366_CHIP_ID,
            core_count: BM1366_CORE_CNT,
            small_core_count: BM1366_SMALL_CORE_CNT,
            cores_per_big_core: BM1366_CORE_SMALL_CORE_CNT,
            voltage_domain_count: BM1366_DOMAIN_CNT,
            pll_count: BM1366_PLL_CNT,
            nonce_core_id_bits: BM1366_NONCE_CORES_BITS,
            nonce_small_core_id_bits: BM1366_NONCE_SMALL_CORES_BITS,
            chip_address_bits: 8,
            supports_version_rolling: true,
        }
    }

    /// At power-on the hashing PLL multiplies its input by 84 and divides
    /// it by 6 and by 5: a chip fed with 25 MHz hashes at 70 MHz.
    pub proof fn lemma_power_on_hash_pll(self, clock: u64)
        requires
            self.is_power_on(clock),
        ensures
            self.plls[0].dividers() == (PllDividers {
                reference_divider: 1,
                feedback_divider: 84,
                post_divider_1: 6,
                post_divider_2: 5,
            }),
            self.plls[0].locked,
            self.plls[0].enabled,
            self.spec_hash_freq() == clock * 84 / 30,
            clock <= INPUT_FREQUENCY_MAX ==> self.plls[0].valid(),
    {
        let word: u32 = BM1366_PLL_PARAMETERS[0];
        assert(word & 0x8000_0000 != 0 && word & 0x4000_0000 != 0 && (word >> 16) & 0xff == 84 && (
        word >> 8) & 0xff == 1 && (word >> 4) & 0xf == 5 && word & 0xf == 4 && 0u32 & 0xf == 0)
            by (bit_vector)
            requires
                word == 0xc054_0154,
        ;
        assert(self.plls[0].output_dividers[0] == 0);
        assert(1 * 6 * 5 == 30) by (nonlinear_arith);
    }

    /// A chip at power-on, fed with `clk`.
    pub fn new_with_clk(clk: u64) -> (chip: Self)
        ensures
            chip.is_power_on(clk),
            chip.spec_hash_freq() == clk * 84 / 30,
            clk <= INPUT_FREQUENCY_MAX ==> chip.plls[0].valid(),
    {
        let chip = BM1366 {
            plls: [
                Pll::from_words(clk, BM1366_PLL_PARAMETERS[0], 0),
                Pll::from_words(clk, BM1366_PLL_PARAMETERS[1], 0),
            ],
            chip_addr: 0,
            version_rolling_enabled: false,
            version_mask: BM1366_VERSION_MASK,
        };
        proof {
            chip.lemma_power_on_hash_pll(clk);
        }
        chip
    }

    /// Sets the address by which the chip is spoken to.
    pub fn set_chip_addr(&mut self, chip_addr: u8)
        ensures
            *final(self) == (BM1366 { chip_addr, ..*old(self) }),
    {
        self.chip_addr = chip_addr;
    }

    /// Notes that the chip rolls the versions in `version_mask`.
    pub fn enable_version_rolling(&mut self, version_mask: u32)
        ensures
            *final(self) == (BM1366 { version_rolling_enabled: true, version_mask, ..*old(self) }),
    {
        self.version_rolling_enabled = true;
        self.version_mask = version_mask;
    }

    /// The frequency at which the cores hash.
    pub fn hash_freq(&self) -> (hz: u64)
        requires
            self.plls[0].valid(),
        ensures
            hz == self.spec_hash_freq(),
    {
        self.plls[0].frequency(0)
    }

    /// Hashes a second that the chip can do at most: each small core one
    /// for every cycle of the hash clock.
    pub fn theoretical_hashrate(&self) -> (hashes: u128)
        requires
            self.plls[0].valid(),
        ensures
            hashes == self.spec_hash_freq() * BM1366_SMALL_CORE_CNT,
    {
        let hz = self.hash_freq();
        assert(hz * BM1366_SMALL_CORE_CNT <= 0xffff_ffff_ffff_ffff * 894) by (nonlinear_arith)
            requires
                0 <= hz <= 0xffff_ffff_ffff_ffff,
                BM1366_SMALL_CORE_CNT == 894,
        ;
        (hz as u128) * (BM1366_SMALL_CORE_CNT as u128)
    }

    /// How long the chip takes to go through the nonces, and with version
    /// rolling the versions, that are its own.
    pub fn rolling_duration(&self) -> (duration: RollingDuration)
        requires
            self.plls[0].valid(),
            self.spec_hash_freq() > 0,
        ensures
            duration == Self::spec_geometry().spec_rolling_duration(
                self.version_rolling_enabled,
                self.version_mask,
                self.spec_hash_freq() as u64,
            ),
            duration.positive(),
    {
        let hz = self.hash_freq();
        Self::geometry().rolling_duration(self.version_rolling_enabled, self.version_mask, hz)
    }

    /// The core that a nonce comes from: bits 25 to 31.
    pub fn nonce2core_id(&self, nonce: u32) -> (id: usize)
        ensures
            id == Self::spec_geometry().spec_core_id(nonce),
    {
        Self::geometry().core_id(nonce)
    }

    /// The small core that a nonce comes from, where version rolling is off:
    /// bits 22 to 24.
    pub fn nonce2small_core_id(&self, nonce: u32) -> (id: usize)
        ensures
            id == Self::spec_geometry().spec_small_core_id(nonce),
    {
        Self::geometry().small_core_id(nonce)
    }

    /// The small core that a block version comes from, where version rolling
    /// is on: three bits from the lowest set bit of the version mask on.
    pub fn version2small_core_id(&self, version: u32) -> (id: usize)
        requires
            self.version_rolling_enabled,
            self.version_mask != 0,
        ensures
            id == Self::spec_geometry().spec_small_core_id_from_version(version, self.version_mask),
    {
        Self::geometry().small_core_id_from_version(version, self.version_mask)
    }

    /// The address of the chip that a nonce comes from: bits 17 to 24 with
    /// version rolling, bits 14 to 21 without.
    pub fn nonce2chip_addr(&self, nonce: u32) -> (address: usize)
        ensures
            address == Self::spec_geometry().spec_chip_address(nonce, self.version_rolling_enabled),
            address <= 0xff,
    {
        Self::geometry().chip_address(nonce, self.version_rolling_enabled)
    }
}

impl Default for BM1366 {
    /// A chip at power-on, fed with 25 MHz.
    fn default() -> (chip: Self)
        ensures
            chip.is_power_on(BM1366_INPUT_CLOCK_HZ),
            chip.spec_hash_freq() == 70_000_000,
            chip.plls[0].valid(),
    {
        BM1366::new_with_clk(BM1366_INPUT_CLOCK_HZ)
    }
}

} // verus!
