use bm13xx::bm1366::BM1366;
use bm13xx::bm1370::{BM1370, BM1370_PLL_ID_HASH};
use bm13xx::bm1397::BM1397;
use bm13xx::pll::{search_dividers, Pll, PllDividers};
use bm13xx::sequence::bm1370_send_hash_frequency;

const INPUT: u64 = 25_000_000;
const TOLERANCE: u64 = 1_000;

fn dividers(reference: u8, feedback: u8, post_1: u8, post_2: u8) -> PllDividers {
    PllDividers {
        reference_divider: reference,
        feedback_divider: feedback,
        post_divider_1: post_1,
        post_divider_2: post_2,
    }
}

fn check_found(target: u64, found: PllDividers) {
    assert!(found.feedback_divider >= 0xa0 && found.feedback_divider <= 0xef);
    assert!(found.post_divider_1 >= found.post_divider_2);
    let product = (found.reference_divider as u128)
        * (found.post_divider_1 as u128)
        * (found.post_divider_2 as u128);
    let wanted = (target as u128) * product;
    let reached = (INPUT as u128) * (found.feedback_divider as u128);
    let apart = if wanted > reached { wanted - reached } else { reached - wanted };
    assert!(apart < (TOLERANCE as u128) * product);
}

#[test]
fn search_finds_dividers_for_50_mhz() {
    let found = search_dividers(INPUT, 50_000_000, TOLERANCE).unwrap();
    assert_eq!(found, dividers(2, 168, 7, 6));
    check_found(50_000_000, found);
}

#[test]
fn search_finds_dividers_for_75_mhz() {
    let found = search_dividers(INPUT, 75_000_000, TOLERANCE).unwrap();
    assert_eq!(found, dividers(2, 168, 7, 4));
    check_found(75_000_000, found);
}

#[test]
fn search_finds_dividers_for_200_mhz() {
    let found = search_dividers(INPUT, 200_000_000, TOLERANCE).unwrap();
    assert_eq!(found, dividers(2, 160, 5, 2));
    check_found(200_000_000, found);
}

#[test]
fn search_finds_dividers_for_400_mhz() {
    let found = search_dividers(INPUT, 400_000_000, TOLERANCE).unwrap();
    assert_eq!(found, dividers(2, 160, 5, 1));
    check_found(400_000_000, found);
}

#[test]
fn search_takes_smallest_product_of_post_dividers() {
    let found = search_dividers(INPUT, 100_000_000, TOLERANCE).unwrap();
    assert_eq!(found, dividers(2, 160, 5, 4));
    check_found(100_000_000, found);
}

#[test]
fn search_breaks_ties_by_second_post_divider() {
    let found = search_dividers(INPUT, 600_000_000, TOLERANCE).unwrap();
    assert_eq!(found, dividers(2, 192, 4, 1));
    check_found(600_000_000, found);
}

#[test]
fn search_finds_nothing_out_of_range() {
    assert_eq!(search_dividers(INPUT, 10_000_000, TOLERANCE), None);
    assert_eq!(search_dividers(INPUT, 0, TOLERANCE), None);
    assert_eq!(search_dividers(INPUT, 10_000_000_000, TOLERANCE), None);
    assert_eq!(search_dividers(INPUT, u64::MAX, TOLERANCE), None);
}

#[test]
fn search_finds_nothing_within_zero_tolerance() {
    assert_eq!(search_dividers(INPUT, 75_000_000, 0), None);
}

#[test]
fn search_is_exact_about_tolerance() {
    assert_eq!(search_dividers(INPUT, 75_000_000, 1), Some(dividers(2, 168, 7, 4)));
    assert_eq!(search_dividers(INPUT, 75_000_100, 100), None);
    assert!(search_dividers(INPUT, 75_000_100, 101).is_some());
}

#[test]
fn search_results_hold_on_a_sweep() {
    let mut target = 40_000_000u64;
    while target <= 1_200_000_000 {
        if let Some(found) = search_dividers(INPUT, target, TOLERANCE) {
            check_found(target, found);
        }
        target += 6_250_000;
    }
}

#[test]
fn command_word_packs_dividers() {
    assert_eq!(dividers(2, 168, 7, 4).command_word(INPUT), 0x40a8_0263);
    assert_eq!(dividers(2, 160, 5, 2).command_word(INPUT), 0x40a0_0241);
    assert_eq!(dividers(2, 192, 4, 1).command_word(INPUT), 0x50c0_0230);
    assert_eq!(dividers(2, 191, 4, 1).command_word(INPUT), 0x40bf_0230);
    assert_eq!(dividers(1, 160, 7, 7).command_word(INPUT), 0x50a0_0166);
}

#[test]
fn hash_frequency_word_for_given_frequencies() {
    assert_eq!(bm1370_send_hash_frequency(50_000_000, 1_000), Some(0x40a8_0265));
    assert_eq!(bm1370_send_hash_frequency(75_000_000, 1_000), Some(0x40a8_0263));
    assert_eq!(bm1370_send_hash_frequency(200_000_000, 1_000), Some(0x40a0_0241));
    assert_eq!(bm1370_send_hash_frequency(400_000_000, 1_000), Some(0x40a0_0240));
    assert_eq!(bm1370_send_hash_frequency(600_000_000, 1_000), Some(0x50c0_0230));
    assert_eq!(bm1370_send_hash_frequency(10_000_000, 1_000), None);
}

#[test]
fn pll_starts_with_both_words_zero() {
    let pll = Pll::new(INPUT);
    assert_eq!(pll.input_frequency, INPUT);
    assert!(!pll.locked);
    assert!(!pll.enabled);
    assert_eq!(pll.reference_divider, 0);
    assert_eq!(pll.feedback_divider, 0);
    assert_eq!(pll.post_divider_1, 1);
    assert_eq!(pll.post_divider_2, 1);
    assert_eq!(pll.output_dividers, [0, 0, 0, 0]);
    assert_eq!(pll.parameter(), 0);
    assert_eq!(pll.divider(), 0);
}

#[test]
fn pll_frequency_follows_dividers() {
    let pll = Pll::from_words(INPUT, 0xc054_0165, 0);
    assert_eq!(pll.frequency(0), 50_000_000);
    let pll = Pll::from_words(INPUT, 0xc060_0150, 0x0304_0607);
    assert_eq!(pll.frequency(0), 50_000_000);
    assert_eq!(pll.frequency(1), 57_142_857);
    assert_eq!(pll.frequency(2), 80_000_000);
    assert_eq!(pll.frequency(3), 100_000_000);
}

#[test]
fn pll_frequency_rounds_down() {
    let mut pll = Pll::new(10);
    pll.set_reference_divider(1);
    pll.set_feedback_divider(1);
    pll.set_post_divider_1(3);
    assert_eq!(pll.frequency(0), 3);
    pll.set_output_divider(0, 1);
    assert_eq!(pll.frequency(0), 1);
}

#[test]
fn pll_parameter_round_trip() {
    let mut pll = Pll::new(INPUT);
    pll.set_parameter(0xc0a8_0263);
    assert!(pll.locked);
    assert!(pll.enabled);
    assert_eq!(pll.feedback_divider, 168);
    assert_eq!(pll.reference_divider, 2);
    assert_eq!(pll.post_divider_1, 7);
    assert_eq!(pll.post_divider_2, 4);
    assert_eq!(pll.parameter(), 0xc0a8_0263);
    pll.set_parameter(0x2050_0174);
    assert!(!pll.locked);
    assert!(!pll.enabled);
    assert_eq!(pll.post_divider_1, 8);
    assert_eq!(pll.post_divider_2, 5);
    assert_eq!(pll.parameter(), 0x0050_0174);
    pll.set_parameter(0xffff_ffff);
    assert_eq!(pll.post_divider_1, 16);
    assert_eq!(pll.parameter(), 0xc0ff_ffff);
}

#[test]
fn pll_divider_round_trip() {
    let mut pll = Pll::new(INPUT);
    pll.set_divider(0x0304_0607);
    assert_eq!(pll.output_dividers, [7, 6, 4, 3]);
    assert_eq!(pll.divider(), 0x0304_0607);
    pll.set_divider(0xffff_ffff);
    assert_eq!(pll.output_dividers, [15, 15, 15, 15]);
    assert_eq!(pll.divider(), 0x0f0f_0f0f);
    assert_eq!(pll.parameter(), 0);
}

#[test]
fn pll_flags() {
    let mut pll = Pll::new(INPUT);
    pll.lock();
    assert_eq!(pll.parameter(), 0x8000_0000);
    pll.enable();
    assert_eq!(pll.parameter(), 0xc000_0000);
    pll.unlock();
    assert_eq!(pll.parameter(), 0x4000_0000);
    pll.disable();
    assert_eq!(pll.parameter(), 0);
}

#[test]
fn pll_setters_change_one_field() {
    let mut pll = Pll::from_words(INPUT, 0xc054_0165, 0x0304_0607);
    pll.set_feedback_divider(112);
    assert_eq!(pll.parameter(), 0xc070_0165);
    pll.set_reference_divider(2);
    assert_eq!(pll.parameter(), 0xc070_0265);
    pll.set_post_divider_1(1);
    assert_eq!(pll.parameter(), 0xc070_0205);
    pll.set_post_divider_2(1);
    assert_eq!(pll.parameter(), 0xc070_0200);
    pll.set_output_divider(3, 6);
    assert_eq!(pll.divider(), 0x0604_0607);
    pll.set_input_frequency(1);
    assert_eq!(pll.input_frequency, 1);
    assert_eq!(pll.parameter(), 0xc070_0200);
}

#[test]
fn pll_set_frequency_takes_found_dividers() {
    let mut pll = Pll::from_words(INPUT, 0x4054_0165, 0);
    assert!(pll.set_frequency(0, 200_000_000));
    assert_eq!(pll.frequency(0), 200_000_000);
    assert_eq!(pll.parameter(), 0xc0a0_0241);
    assert_eq!(pll.input_frequency, INPUT);
    assert_eq!(pll.output_dividers, [0, 0, 0, 0]);
}

#[test]
fn pll_set_frequency_allows_for_tap_divider() {
    let mut pll = Pll::from_words(INPUT, 0xc054_0165, 0x0000_0001);
    assert!(pll.set_frequency(0, 100_000_000));
    assert_eq!(pll.frequency(0), 100_000_000);
    assert_eq!(pll.parameter(), 0xc0a0_0241);
}

#[test]
fn pll_set_frequency_leaves_pll_where_nothing_is_found() {
    let mut pll = Pll::from_words(INPUT, 0x4054_0165, 0);
    let before = pll;
    assert!(!pll.set_frequency(0, 10_000_000));
    assert_eq!(pll, before);
}

#[test]
fn pll_apply_locks() {
    let mut pll = Pll::new(INPUT);
    pll.apply(dividers(2, 168, 7, 4));
    assert!(pll.locked);
    assert!(!pll.enabled);
    assert_eq!(pll.parameter(), 0x80a8_0263);
    assert_eq!(pll.frequency(0), 75_000_000);
}

#[test]
fn default_hash_frequencies() {
    assert_eq!(BM1366::default().hash_freq(), 70_000_000);
    assert_eq!(BM1370::default().hash_freq(), 50_000_000);
    assert_eq!(BM1397::default().hash_freq(), 50_000_000);
}

#[test]
fn hash_frequency_scales_with_input_clock() {
    assert_eq!(BM1366::new_with_clk(50_000_000).hash_freq(), 140_000_000);
    assert_eq!(BM1370::new_with_clk(50_000_000).hash_freq(), 100_000_000);
    assert_eq!(BM1397::new_with_clk(50_000_000).hash_freq(), 100_000_000);
}

#[test]
fn bm1370_set_hash_freq() {
    let mut chip = BM1370::default();
    assert_eq!(chip.hash_freq(), 50_000_000);
    assert!(chip.set_hash_freq(200_000_000));
    assert_eq!(chip.hash_freq(), 200_000_000);
    assert_eq!(chip.plls[BM1370_PLL_ID_HASH].parameter(), 0xc0a0_0241);
    assert!(!chip.set_hash_freq(1));
    assert_eq!(chip.hash_freq(), 200_000_000);
}

#[test]
fn theoretical_hashrates() {
    assert_eq!(BM1366::default().theoretical_hashrate(), 62_580_000_000);
    assert_eq!(BM1370::default().theoretical_hashrate(), 102_000_000_000);
    assert_eq!(BM1397::default().theoretical_hashrate(), 33_600_000_000);
}

#[test]
fn pll_validity() {
    let pll = Pll::new(INPUT);
    assert!(pll.is_well_formed());
    assert!(!pll.is_valid());
    let mut pll = Pll::from_words(INPUT, 0xc054_0165, 0);
    assert!(pll.is_well_formed());
    assert!(pll.is_valid());
    pll.set_input_frequency(0x0101_0101_0101_0101);
    assert!(pll.is_valid());
    assert_eq!(pll.frequency(0), 144_680_345_676_153_346);
    pll.set_input_frequency(0x0101_0101_0101_0102);
    assert!(!pll.is_valid());
    pll.set_input_frequency(INPUT);
    pll.set_post_divider_2(0);
    assert!(!pll.is_well_formed());
    assert!(!pll.is_valid());
    pll.set_post_divider_2(16);
    assert!(pll.is_valid());
    pll.set_post_divider_1(17);
    assert!(!pll.is_well_formed());
}
