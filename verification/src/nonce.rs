//! Which core of which chip found a nonce.
//!
//! A chip does not search the whole 32-bit nonce: the top bits name the core,
//! the bits below them the small core inside it and the address of the chip.
//! With version rolling in hardware the small core moves into the block
//! version, at the lowest bit of the version mask, and the chip address
//! moves up in the nonce by as many bits.

use vstd::prelude::*;

verus! {

/// Bits of a nonce.
pub const NONCE_BITS: u32 = 32;

/// Bits of a chip address.
pub const CHIP_ADDR_BITS: u32 = 8;

/// Mask of a chip address.
pub const CHIP_ADDR_MASK: u32 = 0xff;

/// What is fixed for all chips of one generation.
#[derive(Clone, Copy, Debug, PartialEq, Eq, Structural)]
pub struct ChipGeometry {
    pub chip_id: u16,
    pub core_count: usize,
    pub small_core_count: usize,
    /// Small cores in one core. The small cores of a chip need not be the
    /// product of this and `core_count`.
    pub cores_per_big_core: usize,
    pub voltage_domain_count: usize,
    pub pll_count: usize,
    /// Width of the core id at the top of a nonce.
    pub nonce_core_id_bits: u32,
    /// Width of the small-core id.
    pub nonce_small_core_id_bits: u32,
    pub chip_address_bits: u32,
    pub supports_version_rolling: bool,
}

/// The number with the low `bits` bits set.
pub open spec fn low_mask(bits: u32) -> u32 {
    if bits >= 32 {
        0xffff_ffff
    } else {
        ((1u32 << bits) - 1) as u32
    }
}

/// How many bits of `word` are set.
pub open spec fn popcount(word: u32) -> nat
    decreases word,
{
    if word == 0 {
        0
    } else {
        (word % 2) as nat + popcount(word / 2)
    }
}

/// Two to the power `exponent`.
pub open spec fn pow2(exponent: nat) -> nat
    decreases exponent,
{
    if exponent == 0 {
        1
    } else {
        2 * pow2((exponent - 1) as nat)
    }
}

impl ChipGeometry {
    /// Whether the three id fields fit into a nonce, the core id with at
    /// least one bit, the chip address with eight.
    pub open spec fn valid(self) -> bool {
        &&& self.nonce_core_id_bits >= 1
        &&& self.chip_address_bits == CHIP_ADDR_BITS
        &&& self.nonce_core_id_bits + self.nonce_small_core_id_bits + self.chip_address_bits
            <= NONCE_BITS
    }

    /// Position of the lowest bit of the core id in a nonce.
    pub open spec fn core_id_shift(self) -> u32 {
        (NONCE_BITS - self.nonce_core_id_bits) as u32
    }

    /// Position of the lowest bit of the small-core id in a nonce.
    pub open spec fn small_core_id_shift(self) -> u32 {
        (NONCE_BITS - self.nonce_core_id_bits - self.nonce_small_core_id_bits) as u32
    }

    /// Position of the lowest bit of the chip address in a nonce.
    pub open spec fn chip_address_shift(self, version_rolling: bool) -> u32 {
        if version_rolling {
            (NONCE_BITS - self.nonce_core_id_bits - self.chip_address_bits) as u32
        } else {
            (NONCE_BITS - self.nonce_core_id_bits - self.nonce_small_core_id_bits
                - self.chip_address_bits) as u32
        }
    }

    /// The core that a nonce comes from: its top `nonce_core_id_bits` bits.
    pub open spec fn spec_core_id(self, nonce: u32) -> u32 {
        (nonce >> self.core_id_shift()) & low_mask(self.nonce_core_id_bits)
    }

    /// The small core that a nonce comes from, without version rolling: the
    /// bits below the core id.
    pub open spec fn spec_small_core_id(self, nonce: u32) -> u32 {
        (nonce >> self.small_core_id_shift()) & low_mask(self.nonce_small_core_id_bits)
    }

    /// The small core that a block version comes from, with version rolling:
    /// the bits from the lowest set bit of the version mask on.
    pub open spec fn spec_small_core_id_from_version(self, version: u32, version_mask: u32) -> u32 {
        (version >> version_mask.trailing_zeros()) & low_mask(self.nonce_small_core_id_bits)
    }

    /// The address of the chip that a nonce comes from.
    pub open spec fn spec_chip_address(self, nonce: u32, version_rolling: bool) -> u32 {
        (nonce >> self.chip_address_shift(version_rolling)) & CHIP_ADDR_MASK
    }

    /// Binary logarithm of the number of nonces, or of nonces and versions,
    /// that one chip goes through before its work repeats.
    pub open spec fn rolling_space_bits(self, version_rolling: bool, version_mask: u32) -> nat {
        if version_rolling {
            (NONCE_BITS - self.nonce_core_id_bits - self.chip_address_bits + popcount(
                version_mask,
            ) - self.nonce_small_core_id_bits) as nat
        } else {
            (NONCE_BITS - self.nonce_core_id_bits - self.nonce_small_core_id_bits
                - self.chip_address_bits) as nat
        }
    }

    /// The number of nonces, or of nonces and versions, that one chip goes
    /// through before its work repeats.
    pub open spec fn spec_rolling_space(self, version_rolling: bool, version_mask: u32) -> nat {
        pow2(self.rolling_space_bits(version_rolling, version_mask))
    }

    /// The core that a nonce comes from.
    pub fn core_id(&self, nonce: u32) -> (id: usize)
        requires
            self.valid(),
        ensures
            id == self.spec_core_id(nonce),
    {
        let shift: u32 = NONCE_BITS - self.nonce_core_id_bits;
        ((nonce >> shift) & mask_of(self.nonce_core_id_bits)) as usize
    }

    /// The small core that a nonce comes from, where version rolling is off.
    pub fn small_core_id(&self, nonce: u32) -> (id: usize)
        requires
            self.valid(),
        ensures
            id == self.spec_small_core_id(nonce),
    {
        let shift: u32 = NONCE_BITS - self.nonce_core_id_bits - self.nonce_small_core_id_bits;
        ((nonce >> shift) & mask_of(self.nonce_small_core_id_bits)) as usize
    }

    /// The small core that a block version comes from, where version rolling
    /// is on with mask `version_mask`.
    pub fn small_core_id_from_version(&self, version: u32, version_mask: u32) -> (id: usize)
        requires
            self.valid(),
            version_mask != 0,
        ensures
            id == self.spec_small_core_id_from_version(version, version_mask),
    {
        broadcast use vstd::std_specs::bits::axiom_u32_trailing_zeros;

        let shift: u32 = version_mask.trailing_zeros();
        ((version >> shift) & mask_of(self.nonce_small_core_id_bits)) as usize
    }

    /// The address of the chip that a nonce comes from.
    pub fn chip_address(&self, nonce: u32, version_rolling: bool) -> (address: usize)
        requires
            self.valid(),
        ensures
            address == self.spec_chip_address(nonce, version_rolling),
            address <= 0xff,
    {
        let shift: u32 = if version_rolling {
            NONCE_BITS - self.nonce_core_id_bits - self.chip_address_bits
        } else {
            NONCE_BITS - self.nonce_core_id_bits - self.nonce_small_core_id_bits
                - self.chip_address_bits
        };
        let address: u32 = (nonce >> shift) & CHIP_ADDR_MASK;
        assert(address <= 0xff) by (bit_vector)
            requires
                address == (nonce >> shift) & 0xff,
        ;
        address as usize
    }

    /// The number of nonces, or of nonces and versions, that one chip goes
    /// through before its work repeats.
    pub fn rolling_space(&self, version_rolling: bool, version_mask: u32) -> (space: u64)
        requires
            self.valid(),
        ensures
            space == self.spec_rolling_space(version_rolling, version_mask),
            space >= 1,
    {
        let fixed: u32 = NONCE_BITS - self.nonce_core_id_bits - self.nonce_small_core_id_bits
            - self.chip_address_bits;
        let bits: u32 = if version_rolling {
            fixed + count_ones(version_mask)
        } else {
            fixed
        };
        power_of_two(bits)
    }
}

/// A span of time as an exact fraction: `space` hashes at `frequency`
/// hashes a second take `space / frequency` seconds.
#[derive(Clone, Copy, Debug, PartialEq, Eq, Structural)]
pub struct RollingDuration {
    pub space: u64,
    pub frequency: u64,
}

/// Nanoseconds in a second.
pub const NANOS_PER_SECOND: u64 = 1_000_000_000;

impl RollingDuration {
    /// Whether the span is longer than no time at all.
    pub open spec fn positive(self) -> bool {
        self.space > 0 && self.frequency > 0
    }

    /// Whether this span is longer than `other`.
    pub open spec fn longer_than(self, other: RollingDuration) -> bool {
        self.space * other.frequency > other.space * self.frequency
    }

    /// The span in nanoseconds, rounded down.
    pub open spec fn spec_nanos(self) -> int {
        self.space * NANOS_PER_SECOND / (self.frequency as int)
    }

    /// The span in nanoseconds, rounded down.
    pub fn nanos(&self) -> (nanos: u128)
        requires
            self.frequency > 0,
        ensures
            nanos == self.spec_nanos(),
    {
        assert(self.space * NANOS_PER_SECOND <= 0xffff_ffff_ffff_ffff * 1_000_000_000)
            by (nonlinear_arith)
            requires
                0 <= self.space <= 0xffff_ffff_ffff_ffff,
                NANOS_PER_SECOND == 1_000_000_000,
        ;
        (self.space as u128) * (NANOS_PER_SECOND as u128) / (self.frequency as u128)
    }
}

impl ChipGeometry {
    /// How long a chip that hashes at `hash_frequency` takes to go through
    /// its rolling space.
    pub open spec fn spec_rolling_duration(
        self,
        version_rolling: bool,
        version_mask: u32,
        hash_frequency: u64,
    ) -> RollingDuration {
        RollingDuration {
            space: self.spec_rolling_space(version_rolling, version_mask) as u64,
            frequency: hash_frequency,
        }
    }

    /// How long a chip that hashes at `hash_frequency` takes to go through
    /// its rolling space.
    pub fn rolling_duration(&self, version_rolling: bool, version_mask: u32, hash_frequency: u64)
        -> (duration: RollingDuration)
        requires
            self.valid(),
            hash_frequency > 0,
        ensures
            duration == self.spec_rolling_duration(version_rolling, version_mask, hash_frequency),
            duration.positive(),
    {
        RollingDuration {
            space: self.rolling_space(version_rolling, version_mask),
            frequency: hash_frequency,
        }
    }

    /// The rolling duration is longer than no time, and a chip that hashes
    /// faster has a shorter one, the version mask being the same.
    pub proof fn lemma_rolling_duration_decreases(
        self,
        version_rolling: bool,
        version_mask: u32,
        slower: u64,
        faster: u64,
    )
        requires
            self.valid(),
            0 < slower < faster,
        ensures
            self.spec_rolling_duration(version_rolling, version_mask, slower).positive(),
            self.spec_rolling_duration(version_rolling, version_mask, faster).positive(),
            self.spec_rolling_duration(version_rolling, version_mask, slower).longer_than(
                self.spec_rolling_duration(version_rolling, version_mask, faster),
            ),
    {
        self.lemma_rolling_space_fits(version_rolling, version_mask);
        let space = self.spec_rolling_space(version_rolling, version_mask) as int;
        assert(space * faster > space * slower) by (nonlinear_arith)
            requires
                space >= 1,
                slower < faster,
        ;
    }

    /// The rolling space is at least one and fits into 64 bits.
    pub proof fn lemma_rolling_space_fits(self, version_rolling: bool, version_mask: u32)
        requires
            self.valid(),
        ensures
            1 <= self.spec_rolling_space(version_rolling, version_mask) < 0x8000_0000_0000_0000,
    {
        lemma_pow2_values();
        lemma_pow2_63();
        lemma_popcount_below(version_mask, 32);
        let bits = self.rolling_space_bits(version_rolling, version_mask);
        lemma_pow2_monotone(bits, 62);
        lemma_pow2_monotone(62, 63);
        assert(pow2(63) == 2 * pow2(62));
    }
}

/// The number with the low `bits` bits set.
pub fn mask_of(bits: u32) -> (mask: u32)
    ensures
        mask == low_mask(bits),
{
    if bits >= 32 {
        0xffff_ffff
    } else {
        assert(1u32 << bits >= 1) by (bit_vector)
            requires
                bits < 32,
        ;
        (1u32 << bits) - 1
    }
}

proof fn lemma_popcount_below(word: u32, bits: nat)
    requires
        word < pow2(bits),
    ensures
        popcount(word) <= bits,
    decreases bits,
{
    if word != 0 {
        assert(bits >= 1);
        lemma_popcount_below(word / 2, (bits - 1) as nat);
    }
}

/// How many bits of `word` are set.
pub fn count_ones(word: u32) -> (count: u32)
    ensures
        count == popcount(word),
        count <= 32,
{
    let mut rest: u32 = word;
    let mut count: u32 = 0;
    proof {
        lemma_pow2_values();
        lemma_popcount_below(word, 32);
    }
    while rest != 0
        invariant
            count + popcount(rest) == popcount(word),
            popcount(word) <= 32,
        decreases rest,
    {
        count = count + rest % 2;
        rest = rest / 2;
    }
    count
}

proof fn lemma_pow2_values()
    ensures
        pow2(32) == 0x1_0000_0000,
        pow2(31) == 0x8000_0000,
{
    reveal_with_fuel(pow2, 33);
}

proof fn lemma_pow2_monotone(small: nat, large: nat)
    requires
        small <= large,
    ensures
        1 <= pow2(small) <= pow2(large),
    decreases large,
{
    if small < large {
        lemma_pow2_monotone(small, (large - 1) as nat);
    } else if large > 0 {
        lemma_pow2_monotone((small - 1) as nat, (large - 1) as nat);
    }
}

/// Two to the power `exponent`.
pub fn power_of_two(exponent: u32) -> (power: u64)
    requires
        exponent < 64,
    ensures
        power == pow2(exponent as nat),
        power >= 1,
{
    let mut power: u64 = 1;
    let mut done: u32 = 0;
    proof {
        lemma_pow2_63();
    }
    while done < exponent
        invariant
            done <= exponent < 64,
            power == pow2(done as nat),
            pow2(63) == 0x8000_0000_0000_0000,
        decreases exponent - done,
    {
        proof {
            lemma_pow2_monotone((done + 1) as nat, 63);
        }
        power = power * 2;
        done = done + 1;
    }
    proof {
        lemma_pow2_monotone(0, exponent as nat);
    }
    power
}

proof fn lemma_pow2_63()
    ensures
        pow2(63) == 0x8000_0000_0000_0000,
{
    reveal_with_fuel(pow2, 64);
}

impl ChipGeometry {
    /// The nonce that has `core`, `small_core` and `address` in their fields
    /// and every other bit zero. With version rolling the nonce has no field
    /// for the small core.
    pub open spec fn compose_nonce(
        self,
        core: u32,
        small_core: u32,
        address: u32,
        version_rolling: bool,
    ) -> u32 {
        (core << self.core_id_shift()) | (if version_rolling {
            0u32
        } else {
            small_core << self.small_core_id_shift()
        }) | (address << self.chip_address_shift(version_rolling))
    }

    /// The block version that has `small_core` at the lowest set bit of
    /// `version_mask` and every other bit zero.
    pub open spec fn compose_version(self, small_core: u32, version_mask: u32) -> u32 {
        small_core << version_mask.trailing_zeros()
    }

    /// Without version rolling, a nonce put together from a core, a small
    /// core and a chip address decodes to these three.
    pub proof fn lemma_nonce_round_trip(self, core: u32, small_core: u32, address: u32)
        requires
            self.valid(),
            core <= low_mask(self.nonce_core_id_bits),
            small_core <= low_mask(self.nonce_small_core_id_bits),
            address <= CHIP_ADDR_MASK,
        ensures
            self.spec_core_id(self.compose_nonce(core, small_core, address, false)) == core,
            self.spec_small_core_id(self.compose_nonce(core, small_core, address, false))
                == small_core,
            self.spec_chip_address(self.compose_nonce(core, small_core, address, false), false)
                == address,
    {
        let cb = self.nonce_core_id_bits;
        let sb = self.nonce_small_core_id_bits;
        let s1 = self.core_id_shift();
        let s2 = self.small_core_id_shift();
        let s3 = self.chip_address_shift(false);
        let m1 = low_mask(cb);
        let m2 = low_mask(sb);
        let nonce = self.compose_nonce(core, small_core, address, false);
        assert(m1 == ((1u32 << cb) - 1) as u32);
        assert(m2 == ((1u32 << sb) - 1) as u32);
        assert(((nonce >> s1) & m1) == core && ((nonce >> s2) & m2) == small_core && ((nonce >> s3)
            & 0xff) == address) by (bit_vector)
            requires
                1 <= cb,
                cb + sb + 8 <= 32,
                s1 == 32 - cb,
                s2 == 32 - cb - sb,
                s3 == 32 - cb - sb - 8,
                m1 == ((1u32 << cb) - 1) as u32,
                m2 == ((1u32 << sb) - 1) as u32,
                core <= m1,
                small_core <= m2,
                address <= 0xff,
                nonce == (core << s1) | (small_core << s2) | (address << s3),
        ;
    }

    /// With version rolling, a nonce put together from a core and a chip
    /// address, and a block version put together from a small core, decode
    /// to these three, as long as the small-core id has room above the
    /// lowest set bit of the version mask.
    pub proof fn lemma_rolling_round_trip(
        self,
        core: u32,
        small_core: u32,
        address: u32,
        version_mask: u32,
    )
        requires
            self.valid(),
            core <= low_mask(self.nonce_core_id_bits),
            small_core <= low_mask(self.nonce_small_core_id_bits),
            address <= CHIP_ADDR_MASK,
            version_mask != 0,
            version_mask.trailing_zeros() + self.nonce_small_core_id_bits <= 32,
        ensures
            self.spec_core_id(self.compose_nonce(core, small_core, address, true)) == core,
            self.spec_small_core_id_from_version(
                self.compose_version(small_core, version_mask),
                version_mask,
            ) == small_core,
            self.spec_chip_address(self.compose_nonce(core, small_core, address, true), true)
                == address,
    {
        broadcast use vstd::std_specs::bits::axiom_u32_trailing_zeros;

        let cb = self.nonce_core_id_bits;
        let sb = self.nonce_small_core_id_bits;
        let s1 = self.core_id_shift();
        let s3 = self.chip_address_shift(true);
        let z = version_mask.trailing_zeros();
        let m1 = low_mask(cb);
        let m2 = low_mask(sb);
        let nonce = self.compose_nonce(core, small_core, address, true);
        let version = self.compose_version(small_core, version_mask);
        assert(m1 == ((1u32 << cb) - 1) as u32);
        assert(m2 == ((1u32 << sb) - 1) as u32);
        assert(((nonce >> s1) & m1) == core && ((nonce >> s3) & 0xff) == address) by (bit_vector)
            requires
                1 <= cb,
                cb + 8 <= 32,
                s1 == 32 - cb,
                s3 == 32 - cb - 8,
                m1 == ((1u32 << cb) - 1) as u32,
                core <= m1,
                address <= 0xff,
                nonce == (core << s1) | 0u32 | (address << s3),
        ;
        assert(((version >> z) & m2) == small_core) by (bit_vector)
            requires
                z < 32,
                z + sb <= 32,
                m2 == ((1u32 << sb) - 1) as u32,
                small_core <= m2,
                version == small_core << z,
        ;
    }
}

} // verus!
