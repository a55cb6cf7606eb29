//! The clock generators of a chip: what frequency a PLL puts out for given
//! dividers, and which dividers reach a wanted frequency.
//!
//! All frequencies are in hertz.

use vstd::prelude::*;

verus! {

/// Output taps of one PLL.
pub const PLL_OUTPUT_COUNT: usize = 4;

/// Smallest feedback divider the search accepts.
pub const FEEDBACK_DIVIDER_MIN: u8 = 0xa0;

/// Largest feedback divider the search accepts.
pub const FEEDBACK_DIVIDER_MAX: u8 = 0xef;

/// Largest post divider the search tries.
pub const POST_DIVIDER_MAX: u8 = 7;

/// Largest reference divider the search tries.
pub const REFERENCE_DIVIDER_MAX: u8 = 2;

/// From this oscillator frequency on, the parameter word selects the high
/// range.
pub const VCO_HIGH_RANGE_HZ: u64 = 2_400_000_000;

/// How far from the wanted frequency `Pll::set_frequency` lets a tap be.
pub const FREQUENCY_TOLERANCE_HZ: u64 = 1_000;

/// Largest input frequency for which no output frequency overflows.
pub const INPUT_FREQUENCY_MAX: u64 = 0x0101_0101_0101_0101;

/// The four dividers that fix the frequency of a PLL ahead of its taps.
#[derive(Clone, Copy, Debug, PartialEq, Eq, Structural)]
pub struct PllDividers {
    pub reference_divider: u8,
    pub feedback_divider: u8,
    pub post_divider_1: u8,
    pub post_divider_2: u8,
}

/// The feedback divider nearest to `target * product / input`, halves
/// rounded up.
pub open spec fn rounded_feedback(input: int, target: int, product: int) -> int {
    (2 * target * product + input) / (2 * input)
}

/// Whether the search accepts reference divider `r` with post dividers `p1`
/// and `p2`: the rounded feedback divider is in range, the frequency reached
/// is closer to `target` than `tolerance`, and the first post divider is not
/// the smaller one.
pub open spec fn candidate_accepted(
    input: int,
    target: int,
    tolerance: int,
    r: int,
    p1: int,
    p2: int,
) -> bool {
    let product = r * p1 * p2;
    let feedback = rounded_feedback(input, target, product);
    let wanted = target * product;
    let reached = input * feedback;
    &&& 1 <= r <= REFERENCE_DIVIDER_MAX
    &&& 1 <= p2 <= p1 <= POST_DIVIDER_MAX
    &&& FEEDBACK_DIVIDER_MIN <= feedback <= FEEDBACK_DIVIDER_MAX
    &&& wanted - reached < tolerance * product
    &&& reached - wanted < tolerance * product
}

/// Whether post dividers `a1`, `a2` are to be taken before `b1`, `b2`: the
/// smaller product wins, and of two equal products the smaller second
/// divider.
pub open spec fn preferred(a1: int, a2: int, b1: int, b2: int) -> bool {
    a1 * a2 < b1 * b2 || (a1 * a2 == b1 * b2 && a2 <= b2)
}

/// A post divider as it stands in a parameter word: less one, in four bits.
pub open spec fn post_nibble(divider: u8) -> u32 {
    (((divider - 1) as u8) & 0xf) as u32
}

impl PllDividers {
    /// Whether these dividers are a candidate the search accepts.
    pub open spec fn accepted(self, input: int, target: int, tolerance: int) -> bool {
        &&& candidate_accepted(
            input,
            target,
            tolerance,
            self.reference_divider as int,
            self.post_divider_1 as int,
            self.post_divider_2 as int,
        )
        &&& self.feedback_divider == rounded_feedback(
            input,
            target,
            self.reference_divider * self.post_divider_1 * self.post_divider_2,
        )
    }

    /// Whether these dividers are what the search returns: accepted, and
    /// preferred to every other accepted candidate.
    pub open spec fn best(self, input: int, target: int, tolerance: int) -> bool {
        &&& self.accepted(input, target, tolerance)
        &&& forall|r: int, p1: int, p2: int| #[trigger]
            candidate_accepted(input, target, tolerance, r, p1, p2) ==> preferred(
                self.post_divider_1 as int,
                self.post_divider_2 as int,
                p1,
                p2,
            )
    }

    /// Bits 24 to 31 of the word that programs these dividers: `0x50` where
    /// the oscillator runs in its high range, `0x40` below.
    pub open spec fn range_byte(self, input: int) -> u8 {
        if self.feedback_divider * input >= VCO_HIGH_RANGE_HZ * self.reference_divider {
            0x50
        } else {
            0x40
        }
    }

    /// The low three bytes of a parameter word: feedback divider, reference
    /// divider, and the two post dividers less one in a nibble each.
    pub open spec fn divider_bits(self) -> u32 {
        ((self.feedback_divider as u32) << 16) | ((self.reference_divider as u32) << 8) | (
        post_nibble(self.post_divider_1) << 4) | post_nibble(self.post_divider_2)
    }

    /// The register word that programs these dividers into a PLL fed with
    /// `input`.
    pub open spec fn spec_command_word(self, input: int) -> u32 {
        ((self.range_byte(input) as u32) << 24) | self.divider_bits()
    }

    /// The low three bytes of a parameter word for these dividers.
    pub fn packed(&self) -> (bits: u32)
        requires
            self.post_divider_1 >= 1,
            self.post_divider_2 >= 1,
        ensures
            bits == self.divider_bits(),
    {
        let high: u32 = ((self.post_divider_1 - 1) & 0xf) as u32;
        let low: u32 = ((self.post_divider_2 - 1) & 0xf) as u32;
        ((self.feedback_divider as u32) << 16) | ((self.reference_divider as u32) << 8) | (high
            << 4) | low
    }

    /// The register word that programs these dividers into a PLL fed with
    /// `input`.
    pub fn command_word(&self, input: u64) -> (word: u32)
        requires
            self.post_divider_1 >= 1,
            self.post_divider_2 >= 1,
        ensures
            word == self.spec_command_word(input as int),
    {
        assert(self.feedback_divider * input <= 0xff * 0xffff_ffff_ffff_ffff) by (nonlinear_arith)
            requires
                0 <= self.feedback_divider <= 0xff,
                0 <= input <= 0xffff_ffff_ffff_ffff,
        ;
        assert(VCO_HIGH_RANGE_HZ * self.reference_divider <= 2_400_000_000 * 0xff)
            by (nonlinear_arith)
            requires
                VCO_HIGH_RANGE_HZ == 2_400_000_000,
                0 <= self.reference_divider <= 0xff,
        ;
        let oscillator: u128 = (self.feedback_divider as u128) * (input as u128);
        let threshold: u128 = (VCO_HIGH_RANGE_HZ as u128) * (self.reference_divider as u128);
        let range: u8 = if oscillator >= threshold {
            0x50
        } else {
            0x40
        };
        ((range as u32) << 24) | self.packed()
    }
}

/// The fields of a command word give the dividers back: the feedback divider
/// from bits 16 to 23, the reference divider from bits 8 to 15, each post
/// divider from its nibble plus one, and the range from the top byte.
pub proof fn lemma_command_word_fields(dividers: PllDividers, input: int)
    requires
        1 <= dividers.post_divider_1 <= 16,
        1 <= dividers.post_divider_2 <= 16,
    ensures
        (dividers.spec_command_word(input) >> 24) & 0xff == dividers.range_byte(input),
        (dividers.spec_command_word(input) >> 16) & 0xff == dividers.feedback_divider,
        (dividers.spec_command_word(input) >> 8) & 0xff == dividers.reference_divider,
        ((dividers.spec_command_word(input) >> 4) & 0xf) + 1 == dividers.post_divider_1,
        (dividers.spec_command_word(input) & 0xf) + 1 == dividers.post_divider_2,
        dividers.spec_command_word(input) & 0x00ff_ffff == dividers.divider_bits(),
{
    let range = dividers.range_byte(input);
    let f = dividers.feedback_divider;
    let r = dividers.reference_divider;
    let p1 = dividers.post_divider_1;
    let p2 = dividers.post_divider_2;
    let n1 = (p1 - 1) as u8;
    let n2 = (p2 - 1) as u8;
    let bits = dividers.divider_bits();
    let word = dividers.spec_command_word(input);
    assert(bits == ((f as u32) << 16) | ((r as u32) << 8) | (((n1 & 0xf) as u32) << 4) | ((n2
        & 0xf) as u32));
    assert((word >> 24) & 0xff == range && (word >> 16) & 0xff == f && (word >> 8) & 0xff == r && (
    word >> 4) & 0xf == n1 && word & 0xf == n2 && word & 0x00ff_ffff == bits) by (bit_vector)
        requires
            n1 <= 15,
            n2 <= 15,
            bits == ((f as u32) << 16) | ((r as u32) << 8) | (((n1 & 0xf) as u32) << 4) | ((n2
                & 0xf) as u32),
            word == ((range as u32) << 24) | bits,
    ;
}

/// Whether any candidate is accepted for `target`.
pub open spec fn dividers_exist(input: int, target: int, tolerance: int) -> bool {
    exists|r: int, p1: int, p2: int| #[trigger]
        candidate_accepted(input, target, tolerance, r, p1, p2)
}

/// What the search returns for `target`: the best dividers, or nothing where
/// no candidate is accepted.
pub open spec fn spec_search(input: int, target: int, tolerance: int) -> Option<PllDividers> {
    if dividers_exist(input, target, tolerance) {
        Some(choose|d: PllDividers| d.best(input, target, tolerance))
    } else {
        None
    }
}

/// The place of candidate `(r, p1, p2)` in a count through all candidates.
spec fn position(r: int, p1: int, p2: int) -> int {
    (r - 1) * 49 + (p1 - 1) * 7 + (p2 - 1)
}

/// Among the candidates at the first `bound` places, one that is accepted
/// and preferred to every other accepted one, if any is accepted.
proof fn lemma_best_below(input: int, target: int, tolerance: int, bound: int) -> (best: Option<
    PllDividers,
>)
    requires
        0 <= bound <= 98,
    ensures
        match best {
            Some(d) => d.accepted(input, target, tolerance),
            None => true,
        },
        forall|r: int, p1: int, p2: int|
            #![trigger candidate_accepted(input, target, tolerance, r, p1, p2)]
            candidate_accepted(input, target, tolerance, r, p1, p2) && position(r, p1, p2) < bound
                ==> holds_preferred(best, p1, p2),
    decreases bound,
{
    if bound == 0 {
        None
    } else {
        let before = lemma_best_below(input, target, tolerance, bound - 1);
        let place = bound - 1;
        let r = place / 49 + 1;
        let p1 = (place % 49) / 7 + 1;
        let p2 = place % 7 + 1;
        assert(position(r, p1, p2) == place);
        assert forall|cr: int, cp1: int, cp2: int|
            candidate_accepted(input, target, tolerance, cr, cp1, cp2) && position(cr, cp1, cp2)
                == place implies cr == r && cp1 == p1 && cp2 == p2 by {}
        if candidate_accepted(input, target, tolerance, r, p1, p2) {
            let candidate = PllDividers {
                reference_divider: r as u8,
                feedback_divider: rounded_feedback(input, target, r * p1 * p2) as u8,
                post_divider_1: p1 as u8,
                post_divider_2: p2 as u8,
            };
            assert(candidate.accepted(input, target, tolerance));
            match before {
                Some(held) => {
                    if preferred(
                        held.post_divider_1 as int,
                        held.post_divider_2 as int,
                        p1,
                        p2,
                    ) {
                        before
                    } else {
                        Some(candidate)
                    }
                },
                None => Some(candidate),
            }
        } else {
            before
        }
    }
}

/// What the search returns for a target is the best of the accepted
/// candidates, and it returns nothing only where none is accepted.
pub proof fn lemma_search_finds_best(input: int, target: int, tolerance: int)
    ensures
        match spec_search(input, target, tolerance) {
            Some(d) => d.best(input, target, tolerance),
            None => !dividers_exist(input, target, tolerance),
        },
{
    if dividers_exist(input, target, tolerance) {
        let best = lemma_best_below(input, target, tolerance, 98);
        let (r, p1, p2) = choose|r: int, p1: int, p2: int| #[trigger]
            candidate_accepted(input, target, tolerance, r, p1, p2);
        assert(position(r, p1, p2) < 98);
        assert(holds_preferred(best, p1, p2));
        let d = best->Some_0;
        assert forall|cr: int, cp1: int, cp2: int| #[trigger]
            candidate_accepted(input, target, tolerance, cr, cp1, cp2) implies preferred(
            d.post_divider_1 as int,
            d.post_divider_2 as int,
            cp1,
            cp2,
        ) by {
            assert(position(cr, cp1, cp2) < 98);
        }
        assert(d.best(input, target, tolerance));
    }
}

/// The dividers that the search returns reach the target: the feedback
/// divider lies from `0xA0` to `0xEF`, the first post divider is not the
/// smaller one, and the frequency reached is closer to the target than the
/// tolerance.
pub proof fn lemma_found_dividers_reach_target(input: int, target: int, tolerance: int)
    requires
        spec_search(input, target, tolerance) is Some,
    ensures
        ({
            let d = spec_search(input, target, tolerance)->Some_0;
            let product = d.reference_divider * d.post_divider_1 * d.post_divider_2;
            &&& FEEDBACK_DIVIDER_MIN <= d.feedback_divider <= FEEDBACK_DIVIDER_MAX
            &&& 1 <= d.reference_divider <= REFERENCE_DIVIDER_MAX
            &&& 1 <= d.post_divider_2 <= d.post_divider_1 <= POST_DIVIDER_MAX
            &&& -(tolerance * product) < target * product - input * d.feedback_divider < tolerance
                * product
        }),
{
    lemma_search_finds_best(input, target, tolerance);
}

/// A feedback divider in range for reference divider 1 is out of range for
/// reference divider 2 with the same post dividers.
proof fn lemma_one_reference_divider(input: int, target: int, product: int)
    requires
        input > 0,
        target >= 0,
        product >= 0,
        FEEDBACK_DIVIDER_MIN <= rounded_feedback(input, target, product),
    ensures
        rounded_feedback(input, target, 2 * product) > FEEDBACK_DIVIDER_MAX,
{
    let low = 2 * target * product + input;
    let high = 2 * target * (2 * product) + input;
    assert(low >= 320 * input) by (nonlinear_arith)
        requires
            input > 0,
            low / (2 * input) >= 160,
    ;
    assert(high == 2 * low - input) by (nonlinear_arith)
        requires
            low == 2 * target * product + input,
            high == 2 * target * (2 * product) + input,
    ;
    assert(high / (2 * input) >= 319) by (nonlinear_arith)
        requires
            input > 0,
            high >= 639 * input,
    ;
}

/// No two dividers are both the best for one target: what the search
/// returns is fixed by its inputs.
pub proof fn lemma_best_is_unique(
    first: PllDividers,
    second: PllDividers,
    input: int,
    target: int,
    tolerance: int,
)
    requires
        input > 0,
        target >= 0,
        first.best(input, target, tolerance),
        second.best(input, target, tolerance),
    ensures
        first == second,
{
    let a1 = first.post_divider_1 as int;
    let a2 = first.post_divider_2 as int;
    let b1 = second.post_divider_1 as int;
    let b2 = second.post_divider_2 as int;
    let ra = first.reference_divider as int;
    let rb = second.reference_divider as int;
    assert(candidate_accepted(input, target, tolerance, ra, a1, a2));
    assert(candidate_accepted(input, target, tolerance, rb, b1, b2));
    assert(preferred(a1, a2, b1, b2));
    assert(preferred(b1, b2, a1, a2));
    assert(a2 == b2);
    assert(a1 == b1) by (nonlinear_arith)
        requires
            a1 * a2 == b1 * a2,
            a2 >= 1,
    ;
    assert(a1 * a2 >= 0) by (nonlinear_arith)
        requires
            a1 >= 0,
            a2 >= 0,
    ;
    if ra != rb {
        assert(1 * a1 * a2 == a1 * a2 && 2 * a1 * a2 == 2 * (a1 * a2)) by (nonlinear_arith);
        lemma_one_reference_divider(input, target, a1 * a2);
    }
}

/// Whether the search has been at candidate `(r, p1, p2)` when it stands
/// before `(at_r, at_p1, at_p2)`: it walks each divider downwards, the
/// reference divider slowest.
spec fn visited(r: int, p1: int, p2: int, at_r: int, at_p1: int, at_p2: int) -> bool {
    r > at_r || (r == at_r && (p1 > at_p1 || (p1 == at_p1 && p2 > at_p2)))
}

/// Whether the search holds dividers that are to be taken before post
/// dividers `p1`, `p2`.
spec fn holds_preferred(best: Option<PllDividers>, p1: int, p2: int) -> bool {
    match best {
        Some(d) => preferred(d.post_divider_1 as int, d.post_divider_2 as int, p1, p2),
        None => false,
    }
}

/// Whether `best` is the outcome of the search so far, standing before
/// `(at_r, at_p1, at_p2)`.
spec fn search_state(
    best: Option<PllDividers>,
    input: int,
    target: int,
    tolerance: int,
    at_r: int,
    at_p1: int,
    at_p2: int,
) -> bool {
    &&& match best {
        Some(d) => d.accepted(input, target, tolerance),
        None => true,
    }
    &&& forall|r: int, p1: int, p2: int|
        #![trigger candidate_accepted(input, target, tolerance, r, p1, p2)]
        candidate_accepted(input, target, tolerance, r, p1, p2) && visited(
            r,
            p1,
            p2,
            at_r,
            at_p1,
            at_p2,
        ) ==> holds_preferred(best, p1, p2)
}

/// The product of two dividers.
fn divider_product(a: u8, b: u8) -> (product: u16)
    ensures
        product == a * b,
{
    assert(a * b <= 0xff * 0xff) by (nonlinear_arith)
        requires
            0 <= a <= 0xff,
            0 <= b <= 0xff,
    ;
    (a as u16) * (b as u16)
}

/// Tests one candidate; returns its feedback divider if it is accepted.
fn try_candidate(input: u64, target: u64, tolerance: u64, r: u8, p1: u8, p2: u8) -> (feedback:
    Option<u8>)
    requires
        input > 0,
        1 <= r <= REFERENCE_DIVIDER_MAX,
        1 <= p1 <= POST_DIVIDER_MAX,
        1 <= p2 <= POST_DIVIDER_MAX,
    ensures
        feedback is Some <==> candidate_accepted(
            input as int,
            target as int,
            tolerance as int,
            r as int,
            p1 as int,
            p2 as int,
        ),
        match feedback {
            Some(f) => f == rounded_feedback(input as int, target as int, r * p1 * p2),
            None => true,
        },
{
    assert(1 <= r * p1 * p2 <= 98) by (nonlinear_arith)
        requires
            1 <= r <= 2,
            1 <= p1 <= 7,
            1 <= p2 <= 7,
    ;
    assert(r * p1 <= 14) by (nonlinear_arith)
        requires
            1 <= r <= 2,
            1 <= p1 <= 7,
    ;
    let product: u128 = (r as u128) * (p1 as u128) * (p2 as u128);
    assert(target * product <= 0xffff_ffff_ffff_ffff * 98) by (nonlinear_arith)
        requires
            0 <= target <= 0xffff_ffff_ffff_ffff,
            1 <= product <= 98,
    ;
    assert(tolerance * product <= 0xffff_ffff_ffff_ffff * 98) by (nonlinear_arith)
        requires
            0 <= tolerance <= 0xffff_ffff_ffff_ffff,
            1 <= product <= 98,
    ;
    let wanted: u128 = (target as u128) * product;
    let rounded: u128 = (2 * wanted + (input as u128)) / (2 * (input as u128));
    assert(2 * (target * product) == 2 * target * product) by (nonlinear_arith);
    assert(rounded == rounded_feedback(input as int, target as int, product as int));
    if p1 < p2 || rounded < (FEEDBACK_DIVIDER_MIN as u128) || rounded > (FEEDBACK_DIVIDER_MAX as u128) {
        return None;
    }
    assert(input * rounded <= 0xffff_ffff_ffff_ffff * 0xef) by (nonlinear_arith)
        requires
            0 <= input <= 0xffff_ffff_ffff_ffff,
            0 <= rounded <= 0xef,
    ;
    let reached: u128 = (input as u128) * rounded;
    let bound: u128 = (tolerance as u128) * product;
    let apart: u128 = if wanted >= reached {
        wanted - reached
    } else {
        reached - wanted
    };
    if apart < bound {
        Some(rounded as u8)
    } else {
        None
    }
}

/// Searches the dividers that bring a PLL fed with `input` to `target`.
///
/// Every reference divider up to 2 and every pair of post dividers up to 7
/// is tried. The feedback divider of a candidate is `target * r * p1 * p2 /
/// input`, rounded; the candidate is accepted if that lies between `0xA0` and
/// `0xEF`, the frequency reached is closer to `target` than `tolerance`, and
/// `p1 >= p2`. Of the accepted candidates the one with the smallest product
/// of post dividers is returned, and of several such the one with the
/// smallest second post divider.
pub fn search_dividers(input: u64, target: u64, tolerance: u64) -> (found: Option<PllDividers>)
    requires
        input > 0,
    ensures
        match found {
            Some(d) => d.best(input as int, target as int, tolerance as int),
            None => !dividers_exist(input as int, target as int, tolerance as int),
        },
        found == spec_search(input as int, target as int, tolerance as int),
{
    let ghost i = input as int;
    let ghost t = target as int;
    let ghost tol = tolerance as int;
    let mut best: Option<PllDividers> = None;
    let mut r: u8 = REFERENCE_DIVIDER_MAX;
    while r >= 1
        invariant
            input > 0,
            i == input,
            t == target,
            tol == tolerance,
            r <= REFERENCE_DIVIDER_MAX,
            search_state(best, i, t, tol, r as int, 7, 7),
        decreases r,
    {
        let mut p1: u8 = POST_DIVIDER_MAX;
        while p1 >= 1
            invariant
                input > 0,
                i == input,
                t == target,
                tol == tolerance,
                1 <= r <= REFERENCE_DIVIDER_MAX,
                p1 <= POST_DIVIDER_MAX,
                search_state(best, i, t, tol, r as int, p1 as int, 7),
            decreases p1,
        {
            let mut p2: u8 = POST_DIVIDER_MAX;
            while p2 >= 1
                invariant
                    input > 0,
                    i == input,
                    t == target,
                    tol == tolerance,
                    1 <= r <= REFERENCE_DIVIDER_MAX,
                    1 <= p1 <= POST_DIVIDER_MAX,
                    p2 <= POST_DIVIDER_MAX,
                    search_state(best, i, t, tol, r as int, p1 as int, p2 as int),
                decreases p2,
            {
                match try_candidate(input, target, tolerance, r, p1, p2) {
                    Some(feedback) => {
                        let candidate = PllDividers {
                            reference_divider: r,
                            feedback_divider: feedback,
                            post_divider_1: p1,
                            post_divider_2: p2,
                        };
                        let take = match best {
                            None => true,
                            Some(held) => {
                                let mine = divider_product(p1, p2);
                                let theirs = divider_product(
                                    held.post_divider_1,
                                    held.post_divider_2,
                                );
                                mine < theirs || (mine == theirs && p2 < held.post_divider_2)
                            },
                        };
                        if take {
                            best = Some(candidate);
                        }
                    },
                    None => {},
                }
                p2 = p2 - 1;
                assert(search_state(best, i, t, tol, r as int, p1 as int, p2 as int));
            }
            p1 = p1 - 1;
            assert(search_state(best, i, t, tol, r as int, p1 as int, 7));
        }
        r = r - 1;
        assert(search_state(best, i, t, tol, r as int, 7, 7));
    }
    proof {
        if dividers_exist(i, t, tol) {
            let (cr, cp1, cp2) = choose|cr: int, cp1: int, cp2: int| #[trigger]
                candidate_accepted(i, t, tol, cr, cp1, cp2);
            assert(visited(cr, cp1, cp2, 0, 7, 7));
        }
        if let Some(d) = best {
            assert(d.accepted(i, t, tol));
            assert forall|r: int, p1: int, p2: int| #[trigger]
                candidate_accepted(i, t, tol, r, p1, p2) implies preferred(
                d.post_divider_1 as int,
                d.post_divider_2 as int,
                p1,
                p2,
            ) by {
                assert(visited(r, p1, p2, 0, 7, 7));
            }
            assert(d.best(i, t, tol));
            assert(candidate_accepted(
                i,
                t,
                tol,
                d.reference_divider as int,
                d.post_divider_1 as int,
                d.post_divider_2 as int,
            ));
            let chosen = choose|c: PllDividers| c.best(i, t, tol);
            lemma_best_is_unique(d, chosen, i, t, tol);
        }
    }
    best
}

/// One PLL of a chip.
#[derive(Clone, Copy, Debug, PartialEq, Eq)]
pub struct Pll {
    /// Frequency of the clock that feeds the PLL.
    pub input_frequency: u64,
    pub locked: bool,
    pub enabled: bool,
    pub reference_divider: u8,
    pub feedback_divider: u8,
    pub post_divider_1: u8,
    pub post_divider_2: u8,
    /// Divider code of each output tap; a tap divides by its code plus one.
    pub output_dividers: [u8; 4],
}

/// Bit 31 of a parameter word: the PLL is locked.
pub const PARAMETER_LOCKED: u32 = 0x8000_0000;

/// Bit 30 of a parameter word: the PLL is enabled.
pub const PARAMETER_ENABLED: u32 = 0x4000_0000;

/// The bits of a parameter word that a `Pll` keeps.
pub const PARAMETER_KEPT: u32 = 0xc0ff_ffff;

/// The bits of a divider word that a `Pll` keeps.
pub const DIVIDER_KEPT: u32 = 0x0f0f_0f0f;

impl Pll {
    /// Whether the post dividers can be written into a parameter word: each
    /// goes there less one, in four bits.
    pub open spec fn well_formed(self) -> bool {
        &&& 1 <= self.post_divider_1 <= 16
        &&& 1 <= self.post_divider_2 <= 16
    }

    /// Whether the output frequencies are defined: no divider is zero, and
    /// the input is small enough for 64 bits to hold the oscillator
    /// frequency.
    pub open spec fn valid(self) -> bool {
        &&& self.well_formed()
        &&& self.reference_divider >= 1
        &&& self.input_frequency <= INPUT_FREQUENCY_MAX
    }

    /// The four dividers ahead of the taps.
    pub open spec fn dividers(self) -> PllDividers {
        PllDividers {
            reference_divider: self.reference_divider,
            feedback_divider: self.feedback_divider,
            post_divider_1: self.post_divider_1,
            post_divider_2: self.post_divider_2,
        }
    }

    /// The frequency at output `tap`: the input times the feedback divider,
    /// divided by the reference divider and both post dividers, then by the
    /// tap's own divider.
    pub open spec fn spec_frequency(self, tap: int) -> int {
        self.input_frequency * self.feedback_divider / (self.reference_divider
            * self.post_divider_1 * self.post_divider_2) / (self.output_dividers[tap] + 1)
    }

    /// The PLL with `dividers` taken over and marked as locked.
    pub open spec fn with_dividers(self, dividers: PllDividers) -> Pll {
        Pll {
            locked: true,
            reference_divider: dividers.reference_divider,
            feedback_divider: dividers.feedback_divider,
            post_divider_1: dividers.post_divider_1,
            post_divider_2: dividers.post_divider_2,
            ..self
        }
    }

    /// The dividers that bring output `tap` to `target`, as the search finds
    /// them: it runs for the frequency ahead of the tap's divider, with a
    /// tolerance of `FREQUENCY_TOLERANCE_HZ` at the tap.
    pub open spec fn dividers_for(self, tap: int, target: int) -> Option<PllDividers> {
        spec_search(
            self.input_frequency as int,
            target * (self.output_dividers[tap] + 1),
            FREQUENCY_TOLERANCE_HZ * (self.output_dividers[tap] + 1),
        )
    }

    /// Whether dividers exist that bring output `tap` to `target`.
    pub open spec fn reaches(self, tap: int, target: int) -> bool {
        self.dividers_for(tap, target) is Some
    }

    /// The PLL after an attempt to bring output `tap` to `target`: with the
    /// dividers found, or as it was where there are none.
    pub open spec fn spec_set_frequency(self, tap: int, target: int) -> Pll {
        match self.dividers_for(tap, target) {
            Some(dividers) => self.with_dividers(dividers),
            None => self,
        }
    }

    /// The parameter word: lock and enable flags in bits 31 and 30, the
    /// dividers in the low three bytes.
    pub open spec fn spec_parameter(self) -> u32 {
        (if self.locked {
            PARAMETER_LOCKED
        } else {
            0u32
        }) | (if self.enabled {
            PARAMETER_ENABLED
        } else {
            0u32
        }) | self.dividers().divider_bits()
    }

    /// The divider word: the low four bits of each tap's code, tap 0 in the
    /// lowest byte.
    pub open spec fn spec_divider(self) -> u32 {
        ((self.output_dividers[0] & 0xf) as u32) | (((self.output_dividers[1] & 0xf) as u32) << 8)
            | (((self.output_dividers[2] & 0xf) as u32) << 16) | (((self.output_dividers[3]
            & 0xf) as u32) << 24)
    }

    /// A PLL as it is with both its words zero: off, unlocked, reference and
    /// feedback dividers zero, post dividers one, no tap dividing.
    pub fn new(input_frequency: u64) -> (pll: Self)
        ensures
            pll.well_formed(),
            pll == (Pll {
                input_frequency,
                locked: false,
                enabled: false,
                reference_divider: 0,
                feedback_divider: 0,
                post_divider_1: 1,
                post_divider_2: 1,
                output_dividers: pll.output_dividers,
            }),
            pll.output_dividers@ == seq![0u8, 0u8, 0u8, 0u8],
    {
        let pll = Pll {
            input_frequency,
            locked: false,
            enabled: false,
            reference_divider: 0,
            feedback_divider: 0,
            post_divider_1: 1,
            post_divider_2: 1,
            output_dividers: [0, 0, 0, 0],
        };
        assert(pll.output_dividers@ =~= seq![0u8, 0u8, 0u8, 0u8]);
        pll
    }

    /// The PLL fed with `input_frequency` whose registers hold `parameter`
    /// and `divider`.
    pub open spec fn spec_from_words(input_frequency: u64, parameter: u32, divider: u32) -> Pll {
        Pll {
            input_frequency,
            locked: parameter & PARAMETER_LOCKED != 0,
            enabled: parameter & PARAMETER_ENABLED != 0,
            feedback_divider: ((parameter >> 16) & 0xff) as u8,
            reference_divider: ((parameter >> 8) & 0xff) as u8,
            post_divider_1: (((parameter >> 4) & 0xf) + 1) as u8,
            post_divider_2: ((parameter & 0xf) + 1) as u8,
            output_dividers: [
                (divider & 0xf) as u8,
                ((divider >> 8) & 0xf) as u8,
                ((divider >> 16) & 0xf) as u8,
                ((divider >> 24) & 0xf) as u8,
            ],
        }
    }

    /// The PLL fed with `input_frequency` whose registers hold `parameter`
    /// and `divider`.
    pub fn from_words(input_frequency: u64, parameter: u32, divider: u32) -> (pll: Self)
        ensures
            pll == Self::spec_from_words(input_frequency, parameter, divider),
            pll.well_formed(),
            pll.spec_parameter() == parameter & PARAMETER_KEPT,
            pll.spec_divider() == divider & DIVIDER_KEPT,
    {
        let mut pll = Pll::new(input_frequency);
        pll.set_parameter(parameter);
        pll.set_divider(divider);
        assert(pll.output_dividers@ =~= Self::spec_from_words(
            input_frequency,
            parameter,
            divider,
        ).output_dividers@);
        assert(pll.output_dividers == Self::spec_from_words(
            input_frequency,
            parameter,
            divider,
        ).output_dividers);
        pll
    }

    /// Whether the post dividers can be written into a parameter word.
    pub fn is_well_formed(&self) -> (well_formed: bool)
        ensures
            well_formed == self.well_formed(),
    {
        1 <= self.post_divider_1 && self.post_divider_1 <= 16 && 1 <= self.post_divider_2
            && self.post_divider_2 <= 16
    }

    /// Whether the output frequencies are defined.
    pub fn is_valid(&self) -> (valid: bool)
        ensures
            valid == self.valid(),
    {
        self.is_well_formed() && self.reference_divider >= 1 && self.input_frequency
            <= INPUT_FREQUENCY_MAX
    }

    /// The frequency at output `tap`.
    pub fn frequency(&self, tap: usize) -> (hz: u64)
        requires
            self.valid(),
            tap < PLL_OUTPUT_COUNT,
        ensures
            hz == self.spec_frequency(tap as int),
    {
        assert(self.input_frequency * self.feedback_divider <= 0xffff_ffff_ffff_ffff)
            by (nonlinear_arith)
            requires
                0 <= self.input_frequency <= 0x0101_0101_0101_0101,
                0 <= self.feedback_divider <= 0xff,
        ;
        assert(1 <= self.reference_divider * self.post_divider_1 <= 0xff * 16) by (nonlinear_arith)
            requires
                1 <= self.reference_divider <= 0xff,
                1 <= self.post_divider_1 <= 16,
        ;
        assert(1 <= self.reference_divider * self.post_divider_1 * self.post_divider_2 <= 0xff
            * 16 * 16) by (nonlinear_arith)
            requires
                1 <= self.reference_divider * self.post_divider_1 <= 0xff * 16,
                1 <= self.post_divider_2 <= 16,
        ;
        let oscillator: u64 = self.input_frequency * (self.feedback_divider as u64);
        let product: u64 = (self.reference_divider as u64) * (self.post_divider_1 as u64) * (
        self.post_divider_2 as u64);
        oscillator / product / ((self.output_dividers[tap] as u64) + 1)
    }

    /// Sets the clock that feeds the PLL.
    pub fn set_input_frequency(&mut self, input_frequency: u64)
        ensures
            *final(self) == (Pll { input_frequency, ..*old(self) }),
    {
        self.input_frequency = input_frequency;
    }

    /// Marks the PLL as locked.
    pub fn lock(&mut self)
        ensures
            *final(self) == (Pll { locked: true, ..*old(self) }),
    {
        self.locked = true;
    }

    /// Marks the PLL as not locked.
    pub fn unlock(&mut self)
        ensures
            *final(self) == (Pll { locked: false, ..*old(self) }),
    {
        self.locked = false;
    }

    /// Switches the PLL on.
    pub fn enable(&mut self)
        ensures
            *final(self) == (Pll { enabled: true, ..*old(self) }),
    {
        self.enabled = true;
    }

    /// Switches the PLL off.
    pub fn disable(&mut self)
        ensures
            *final(self) == (Pll { enabled: false, ..*old(self) }),
    {
        self.enabled = false;
    }

    /// Sets the reference divider.
    pub fn set_reference_divider(&mut self, divider: u8)
        ensures
            *final(self) == (Pll { reference_divider: divider, ..*old(self) }),
    {
        self.reference_divider = divider;
    }

    /// Sets the feedback divider.
    pub fn set_feedback_divider(&mut self, divider: u8)
        ensures
            *final(self) == (Pll { feedback_divider: divider, ..*old(self) }),
    {
        self.feedback_divider = divider;
    }

    /// Sets the first post divider.
    pub fn set_post_divider_1(&mut self, divider: u8)
        ensures
            *final(self) == (Pll { post_divider_1: divider, ..*old(self) }),
    {
        self.post_divider_1 = divider;
    }

    /// Sets the second post divider.
    pub fn set_post_divider_2(&mut self, divider: u8)
        ensures
            *final(self) == (Pll { post_divider_2: divider, ..*old(self) }),
    {
        self.post_divider_2 = divider;
    }

    /// Sets the divider code of output `tap`.
    pub fn set_output_divider(&mut self, tap: usize, code: u8)
        requires
            tap < PLL_OUTPUT_COUNT,
        ensures
            final(self).output_dividers@ == old(self).output_dividers@.update(tap as int, code),
            *final(self) == (Pll { output_dividers: final(self).output_dividers, ..*old(self) }),
    {
        self.output_dividers[tap] = code;
    }

    /// Takes over the four dividers and marks the PLL as locked.
    pub fn apply(&mut self, dividers: PllDividers)
        ensures
            *final(self) == old(self).with_dividers(dividers),
    {
        self.locked = true;
        self.reference_divider = dividers.reference_divider;
        self.feedback_divider = dividers.feedback_divider;
        self.post_divider_1 = dividers.post_divider_1;
        self.post_divider_2 = dividers.post_divider_2;
    }

    /// Brings output `tap` to `target`, if dividers for it exist.
    ///
    /// The search of `search_dividers` runs for the frequency that the PLL
    /// must have ahead of the tap's divider, with a tolerance of
    /// `FREQUENCY_TOLERANCE_HZ` at the tap. Where it finds dividers the PLL
    /// takes them over and is marked as locked; where it finds none the PLL
    /// stays as it is.
    pub fn set_frequency(&mut self, tap: usize, target: u64) -> (found: bool)
        requires
            tap < PLL_OUTPUT_COUNT,
            old(self).input_frequency > 0,
            target * (old(self).output_dividers[tap as int] + 1) <= u64::MAX,
        ensures
            found == old(self).reaches(tap as int, target as int),
            *final(self) == old(self).spec_set_frequency(tap as int, target as int),
    {
        let scale: u64 = (self.output_dividers[tap] as u64) + 1;
        let scaled_target: u64 = target * scale;
        let scaled_tolerance: u64 = FREQUENCY_TOLERANCE_HZ * scale;
        match search_dividers(self.input_frequency, scaled_target, scaled_tolerance) {
            Some(dividers) => {
                self.apply(dividers);
                true
            },
            None => false,
        }
    }

    /// The parameter word of the PLL.
    pub fn parameter(&self) -> (word: u32)
        requires
            self.well_formed(),
        ensures
            word == self.spec_parameter(),
    {
        let dividers = PllDividers {
            reference_divider: self.reference_divider,
            feedback_divider: self.feedback_divider,
            post_divider_1: self.post_divider_1,
            post_divider_2: self.post_divider_2,
        };
        (if self.locked {
            PARAMETER_LOCKED
        } else {
            0u32
        }) | (if self.enabled {
            PARAMETER_ENABLED
        } else {
            0u32
        }) | dividers.packed()
    }

    /// Sets flags and dividers from a parameter word. Bits 24 to 29 of the
    /// word are not kept.
    pub fn set_parameter(&mut self, word: u32)
        ensures
            final(self).well_formed(),
            final(self).spec_parameter() == word & PARAMETER_KEPT,
            final(self).locked == (word & PARAMETER_LOCKED != 0),
            final(self).enabled == (word & PARAMETER_ENABLED != 0),
            final(self).feedback_divider == (word >> 16) & 0xff,
            final(self).reference_divider == (word >> 8) & 0xff,
            final(self).post_divider_1 == ((word >> 4) & 0xf) + 1,
            final(self).post_divider_2 == (word & 0xf) + 1,
            final(self).input_frequency == old(self).input_frequency,
            final(self).output_dividers == old(self).output_dividers,
    {
        let feedback: u32 = (word >> 16) & 0xff;
        let reference: u32 = (word >> 8) & 0xff;
        let post_1: u32 = (word >> 4) & 0xf;
        let post_2: u32 = word & 0xf;
        let locked = word & PARAMETER_LOCKED != 0;
        let enabled = word & PARAMETER_ENABLED != 0;
        assert(feedback <= 0xff && reference <= 0xff && post_1 <= 0xf && post_2 <= 0xf)
            by (bit_vector)
            requires
                feedback == (word >> 16) & 0xff,
                reference == (word >> 8) & 0xff,
                post_1 == (word >> 4) & 0xf,
                post_2 == word & 0xf,
        ;
        self.locked = locked;
        self.enabled = enabled;
        self.feedback_divider = feedback as u8;
        self.reference_divider = reference as u8;
        self.post_divider_1 = (post_1 as u8) + 1;
        self.post_divider_2 = (post_2 as u8) + 1;
        proof {
            let f = self.feedback_divider;
            let r = self.reference_divider;
            let p1 = self.post_divider_1;
            let p2 = self.post_divider_2;
            let flags: u32 = (if locked {
                PARAMETER_LOCKED
            } else {
                0u32
            }) | (if enabled {
                PARAMETER_ENABLED
            } else {
                0u32
            });
            assert(flags == word & 0xc000_0000) by (bit_vector)
                requires
                    locked == (word & 0x8000_0000 != 0),
                    enabled == (word & 0x4000_0000 != 0),
                    flags == (if locked {
                        0x8000_0000u32
                    } else {
                        0u32
                    }) | (if enabled {
                        0x4000_0000u32
                    } else {
                        0u32
                    }),
            ;
            let n1 = (p1 - 1) as u8 & 0xf;
            let n2 = (p2 - 1) as u8 & 0xf;
            assert(n1 == post_1 && n2 == post_2) by (bit_vector)
                requires
                    post_1 <= 0xf,
                    post_2 <= 0xf,
                    p1 == post_1 + 1,
                    p2 == post_2 + 1,
                    n1 == (p1 - 1) as u8 & 0xf,
                    n2 == (p2 - 1) as u8 & 0xf,
            ;
            assert(flags | (((f as u32) << 16) | ((r as u32) << 8) | ((n1 as u32) << 4) | (
            n2 as u32)) == word & 0xc0ff_ffff) by (bit_vector)
                requires
                    flags == word & 0xc000_0000,
                    f == (word >> 16) & 0xff,
                    r == (word >> 8) & 0xff,
                    n1 == (word >> 4) & 0xf,
                    n2 == word & 0xf,
            ;
        }
    }

    /// The divider word of the PLL.
    pub fn divider(&self) -> (word: u32)
        ensures
            word == self.spec_divider(),
    {
        ((self.output_dividers[0] & 0xf) as u32) | (((self.output_dividers[1] & 0xf) as u32) << 8)
            | (((self.output_dividers[2] & 0xf) as u32) << 16) | (((self.output_dividers[3]
            & 0xf) as u32) << 24)
    }

    /// Sets the tap dividers from a divider word: tap 0 from the lowest
    /// byte, four bits each.
    pub fn set_divider(&mut self, word: u32)
        ensures
            final(self).output_dividers@ == seq![
                (word & 0xf) as u8,
                ((word >> 8) & 0xf) as u8,
                ((word >> 16) & 0xf) as u8,
                ((word >> 24) & 0xf) as u8,
            ],
            final(self).spec_divider() == word & DIVIDER_KEPT,
            *final(self) == (Pll { output_dividers: final(self).output_dividers, ..*old(self) }),
    {
        let d0: u32 = word & 0xf;
        let d1: u32 = (word >> 8) & 0xf;
        let d2: u32 = (word >> 16) & 0xf;
        let d3: u32 = (word >> 24) & 0xf;
        assert(d0 <= 0xf && d1 <= 0xf && d2 <= 0xf && d3 <= 0xf) by (bit_vector)
            requires
                d0 == word & 0xf,
                d1 == (word >> 8) & 0xf,
                d2 == (word >> 16) & 0xf,
                d3 == (word >> 24) & 0xf,
        ;
        self.output_dividers = [d0 as u8, d1 as u8, d2 as u8, d3 as u8];
        proof {
            assert(self.output_dividers@ =~= seq![d0 as u8, d1 as u8, d2 as u8, d3 as u8]);
            let b0 = self.output_dividers[0];
            let b1 = self.output_dividers[1];
            let b2 = self.output_dividers[2];
            let b3 = self.output_dividers[3];
            assert(((b0 & 0xf) as u32) | (((b1 & 0xf) as u32) << 8) | (((b2 & 0xf) as u32) << 16)
                | (((b3 & 0xf) as u32) << 24) == word & 0x0f0f_0f0f) by (bit_vector)
                requires
                    b0 == word & 0xf,
                    b1 == (word >> 8) & 0xf,
                    b2 == (word >> 16) & 0xf,
                    b3 == (word >> 24) & 0xf,
            ;
        }
    }
}

} // verus!
