//! Addresses along a chain of chips.
//!
//! A chain is a row of voltage domains, each with the same number of chips.
//! Chips are numbered along the chain, and the address of a chip is its
//! number times the address interval.

use vstd::prelude::*;

verus! {

/// Largest address a chip can have.
pub const CHIP_ADDRESS_MAX: u64 = 255;

/// The shape of a chain.
#[derive(Clone, Copy, Debug, PartialEq, Eq, Structural)]
pub struct ChainTopology {
    pub voltage_domain_count: u8,
    pub chips_per_domain: u8,
    pub chip_address_interval: u16,
}

impl ChainTopology {
    /// Chips on the chain.
    pub open spec fn spec_chip_count(self) -> int {
        self.voltage_domain_count * self.chips_per_domain
    }

    /// Whether every chip has an address of one byte: the last chip's
    /// address is at most 255. A chain without chips is valid.
    pub open spec fn valid(self) -> bool {
        (self.spec_chip_count() - 1) * self.chip_address_interval <= CHIP_ADDRESS_MAX
    }

    /// Whether no domain is empty.
    pub open spec fn populated(self) -> bool {
        self.voltage_domain_count == 0 || self.chips_per_domain >= 1
    }

    /// Number along the chain of chip `index` of `domain`.
    pub open spec fn spec_chip_number(self, domain: int, index: int) -> int {
        domain * self.chips_per_domain + index
    }

    /// Address of the chip with `number` along the chain.
    pub open spec fn address_of(self, number: int) -> int {
        number * self.chip_address_interval
    }

    /// Address of chip `index` of `domain`.
    pub open spec fn spec_chip_address(self, domain: int, index: int) -> int {
        self.address_of(self.spec_chip_number(domain, index))
    }

    /// Address of the first chip of `domain`.
    pub open spec fn spec_first_chip_address(self, domain: int) -> int {
        self.spec_chip_address(domain, 0)
    }

    /// Address of the last chip of `domain`.
    pub open spec fn spec_last_chip_address(self, domain: int) -> int {
        self.spec_chip_address(domain, self.chips_per_domain - 1)
    }

    /// Whether the chip with `number` is the first of its domain.
    pub open spec fn spec_is_domain_first(self, number: int) -> bool {
        self.chips_per_domain >= 1 && number % (self.chips_per_domain as int) == 0
    }

    /// Whether the chip with `number` is the last of its domain.
    pub open spec fn spec_is_domain_last(self, number: int) -> bool {
        self.chips_per_domain >= 1 && number % (self.chips_per_domain as int)
            == self.chips_per_domain - 1
    }

    /// In a valid chain the address of every chip fits into a byte.
    pub proof fn lemma_address_in_range(self, domain: int, index: int)
        requires
            self.valid(),
            0 <= domain < self.voltage_domain_count,
            0 <= index < self.chips_per_domain,
        ensures
            0 <= self.spec_chip_number(domain, index) < self.spec_chip_count(),
            0 <= self.spec_chip_address(domain, index) <= CHIP_ADDRESS_MAX,
    {
        let chips = self.chips_per_domain as int;
        let domains = self.voltage_domain_count as int;
        let interval = self.chip_address_interval as int;
        let number = domain * chips + index;
        assert(0 <= domain * chips && domain * chips + chips <= domains * chips)
            by (nonlinear_arith)
            requires
                0 <= domain < domains,
                0 <= chips,
        ;
        assert(0 <= number * interval <= (domains * chips - 1) * interval) by (nonlinear_arith)
            requires
                0 <= number <= domains * chips - 1,
                0 <= interval,
        ;
    }

    /// The chain with these three measures, if every chip of it has an
    /// address of one byte.
    pub fn new(voltage_domain_count: u8, chips_per_domain: u8, chip_address_interval: u16) -> (chain:
        Option<Self>)
        ensures
            chain == (if (ChainTopology {
                voltage_domain_count,
                chips_per_domain,
                chip_address_interval,
            }).valid() {
                Some(
                    ChainTopology { voltage_domain_count, chips_per_domain, chip_address_interval },
                )
            } else {
                None
            }),
    {
        let chain = ChainTopology { voltage_domain_count, chips_per_domain, chip_address_interval };
        if chain.is_valid() {
            Some(chain)
        } else {
            None
        }
    }

    /// Whether every chip has an address of one byte.
    pub fn is_valid(&self) -> (valid: bool)
        ensures
            valid == self.valid(),
    {
        let count = self.chip_count();
        if count == 0 {
            assert((0 - 1) * self.chip_address_interval <= 0) by (nonlinear_arith)
                requires
                    self.chip_address_interval >= 0,
            ;
            true
        } else {
            assert((count - 1) * self.chip_address_interval <= 0xffff * 0xffff) by (nonlinear_arith)
                requires
                    1 <= count <= 0xff * 0xff,
                    0 <= self.chip_address_interval <= 0xffff,
            ;
            (count - 1) * (self.chip_address_interval as u64) <= CHIP_ADDRESS_MAX
        }
    }

    /// Whether no domain is empty.
    pub fn is_populated(&self) -> (populated: bool)
        ensures
            populated == self.populated(),
    {
        self.voltage_domain_count == 0 || self.chips_per_domain >= 1
    }

    /// Chips on the chain.
    pub fn chip_count(&self) -> (count: u64)
        ensures
            count == self.spec_chip_count(),
            count <= 0xff * 0xff,
    {
        assert(self.voltage_domain_count * self.chips_per_domain <= 0xff * 0xff)
            by (nonlinear_arith)
            requires
                0 <= self.voltage_domain_count <= 0xff,
                0 <= self.chips_per_domain <= 0xff,
        ;
        (self.voltage_domain_count as u64) * (self.chips_per_domain as u64)
    }

    /// Address of chip `index` of `domain`.
    pub fn chip_address(&self, domain: u8, index: u8) -> (address: u8)
        requires
            self.valid(),
            domain < self.voltage_domain_count,
            index < self.chips_per_domain,
        ensures
            address == self.spec_chip_address(domain as int, index as int),
    {
        proof {
            self.lemma_address_in_range(domain as int, index as int);
        }
        assert(domain * self.chips_per_domain <= 0xff * 0xff) by (nonlinear_arith)
            requires
                0 <= domain <= 0xff,
                0 <= self.chips_per_domain <= 0xff,
        ;
        let number: u64 = (domain as u64) * (self.chips_per_domain as u64) + (index as u64);
        let address: u64 = number * (self.chip_address_interval as u64);
        address as u8
    }

    /// In a valid chain the address of every chip, found by its number
    /// along the chain, fits into a byte.
    pub proof fn lemma_numbered_address_in_range(self, number: int)
        requires
            self.valid(),
            0 <= number < self.spec_chip_count(),
        ensures
            0 <= self.address_of(number) <= CHIP_ADDRESS_MAX,
    {
        let interval = self.chip_address_interval as int;
        let count = self.spec_chip_count();
        assert(0 <= number * interval <= (count - 1) * interval) by (nonlinear_arith)
            requires
                0 <= number <= count - 1,
                0 <= interval,
        ;
    }

    /// Address of the chip with `number` along the chain.
    pub fn numbered_chip_address(&self, number: u64) -> (address: u8)
        requires
            self.valid(),
            number < self.spec_chip_count(),
        ensures
            address == self.address_of(number as int),
    {
        proof {
            self.lemma_numbered_address_in_range(number as int);
        }
        assert(self.voltage_domain_count * self.chips_per_domain <= 0xff * 0xff)
            by (nonlinear_arith)
            requires
                0 <= self.voltage_domain_count <= 0xff,
                0 <= self.chips_per_domain <= 0xff,
        ;
        let address: u64 = number * (self.chip_address_interval as u64);
        address as u8
    }

    /// Address of the first chip of `domain`.
    pub fn first_chip_address(&self, domain: u8) -> (address: u8)
        requires
            self.valid(),
            domain < self.voltage_domain_count,
            self.chips_per_domain >= 1,
        ensures
            address == self.spec_first_chip_address(domain as int),
    {
        self.chip_address(domain, 0)
    }

    /// Address of the last chip of `domain`.
    pub fn last_chip_address(&self, domain: u8) -> (address: u8)
        requires
            self.valid(),
            domain < self.voltage_domain_count,
            self.chips_per_domain >= 1,
        ensures
            address == self.spec_last_chip_address(domain as int),
    {
        self.chip_address(domain, self.chips_per_domain - 1)
    }

    /// Whether the chip with `number` along the chain is the first of its
    /// domain.
    pub fn is_domain_first(&self, number: u64) -> (first: bool)
        ensures
            first == self.spec_is_domain_first(number as int),
    {
        self.chips_per_domain >= 1 && number % (self.chips_per_domain as u64) == 0
    }

    /// Whether the chip with `number` along the chain is the last of its
    /// domain.
    pub fn is_domain_last(&self, number: u64) -> (last: bool)
        ensures
            last == self.spec_is_domain_last(number as int),
    {
        self.chips_per_domain >= 1 && number % (self.chips_per_domain as u64) == (
        self.chips_per_domain as u64) - 1
    }
}

} // verus!
