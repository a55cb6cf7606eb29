use bm13xx::bm1366::BM1366;
use bm13xx::bm1370::BM1370;
use bm13xx::bm1397::BM1397;
use bm13xx::nonce::{count_ones, mask_of, power_of_two, ChipGeometry, RollingDuration};

fn compose(geometry: &ChipGeometry, core: u32, small_core: u32, address: u32) -> u32 {
    let core_shift = 32 - geometry.nonce_core_id_bits;
    let small_shift = core_shift - geometry.nonce_small_core_id_bits;
    let address_shift = small_shift - 8;
    (core << core_shift) | (small_core << small_shift) | (address << address_shift)
}

fn compose_rolling(geometry: &ChipGeometry, core: u32, address: u32) -> u32 {
    let core_shift = 32 - geometry.nonce_core_id_bits;
    let address_shift = core_shift - 8;
    (core << core_shift) | (address << address_shift)
}

#[test]
fn bm1366_core_id_is_top_seven_bits() {
    let chip = BM1366::default();
    assert_eq!(chip.nonce2core_id(0x12345678), 0x09);
    assert_eq!(chip.nonce2core_id(0x0000_0000), 0);
    assert_eq!(chip.nonce2core_id(0xffff_ffff), 0x7f);
}

#[test]
fn bm1370_core_id_is_top_seven_bits() {
    let chip = BM1370::default();
    assert_eq!(chip.nonce2core_id(0x12345678), 0x09);
    assert_eq!(chip.nonce2core_id(0x906732c8), 72);
}

#[test]
fn bm1397_core_id_is_top_byte() {
    let chip = BM1397::default();
    assert_eq!(chip.nonce2core_id(0x12345678), 0x12);
    assert_eq!(chip.nonce2core_id(0xffff_ffff), 0xff);
}

#[test]
fn bm1366_small_core_id_from_nonce() {
    let chip = BM1366::default();
    assert_eq!(chip.nonce2small_core_id(0x12045678), 0);
    assert_eq!(chip.nonce2small_core_id(0x12445678), 1);
    assert_eq!(chip.nonce2small_core_id(0x12845678), 2);
    assert_eq!(chip.nonce2small_core_id(0x12c45678), 3);
    assert_eq!(chip.nonce2small_core_id(0x13045678), 4);
    assert_eq!(chip.nonce2small_core_id(0x13445678), 5);
    assert_eq!(chip.nonce2small_core_id(0x13845678), 6);
    assert_eq!(chip.nonce2small_core_id(0x13c45678), 7);
}

#[test]
fn bm1370_small_core_id_from_nonce() {
    let chip = BM1370::default();
    assert_eq!(chip.nonce2small_core_id(0x12045678), 0);
    assert_eq!(chip.nonce2small_core_id(0x12445678), 1);
    assert_eq!(chip.nonce2small_core_id(0x12845678), 2);
    assert_eq!(chip.nonce2small_core_id(0x12c45678), 3);
    assert_eq!(chip.nonce2small_core_id(0x13045678), 4);
    assert_eq!(chip.nonce2small_core_id(0x13445678), 5);
    assert_eq!(chip.nonce2small_core_id(0x13845678), 6);
    assert_eq!(chip.nonce2small_core_id(0x13c45678), 7);
}

#[test]
fn bm1397_small_core_id_from_nonce() {
    let chip = BM1397::default();
    assert_eq!(chip.nonce2small_core_id(0x12045678), 0);
    assert_eq!(chip.nonce2small_core_id(0x12445678), 1);
    assert_eq!(chip.nonce2small_core_id(0x12845678), 2);
    assert_eq!(chip.nonce2small_core_id(0x12c45678), 3);
}

#[test]
fn bm1366_small_core_id_from_version() {
    let mut chip = BM1366::default();
    chip.enable_version_rolling(0x1fffe000);
    assert_eq!(chip.version2small_core_id(0x1fff0000), 0);
    assert_eq!(chip.version2small_core_id(0x1fff2000), 1);
    assert_eq!(chip.version2small_core_id(0x1fff4000), 2);
    assert_eq!(chip.version2small_core_id(0x1fff6000), 3);
    assert_eq!(chip.version2small_core_id(0x1fff8000), 4);
    assert_eq!(chip.version2small_core_id(0x1fffa000), 5);
    assert_eq!(chip.version2small_core_id(0x1fffd000), 6);
    assert_eq!(chip.version2small_core_id(0x1fffe000), 7);
}

#[test]
fn bm1370_small_core_id_from_version() {
    let mut chip = BM1370::default();
    chip.enable_version_rolling(0x1fffe000);
    assert_eq!(chip.version2small_core_id(0x1fff0000), 0);
    assert_eq!(chip.version2small_core_id(0x1fff2000), 1);
    assert_eq!(chip.version2small_core_id(0x1fff4000), 2);
    assert_eq!(chip.version2small_core_id(0x1fff6000), 3);
    assert_eq!(chip.version2small_core_id(0x1fff8000), 4);
    assert_eq!(chip.version2small_core_id(0x1fffa000), 5);
    assert_eq!(chip.version2small_core_id(0x1fffd000), 6);
    assert_eq!(chip.version2small_core_id(0x1fffe000), 7);
    assert_eq!(chip.version2small_core_id(0x00f94000), 2);
}

#[test]
fn small_core_id_follows_lowest_bit_of_mask() {
    let mut chip = BM1370::default();
    chip.enable_version_rolling(0x0000_0070);
    assert_eq!(chip.version2small_core_id(0x0000_0050), 5);
    chip.enable_version_rolling(0x8000_0000);
    assert_eq!(chip.version2small_core_id(0x8000_0000), 1);
    assert_eq!(chip.version2small_core_id(0x7fff_ffff), 0);
}

#[test]
fn bm1366_chip_address_moves_with_version_rolling() {
    let mut chip = BM1366::default();
    assert_eq!(chip.nonce2chip_addr(0x12345678), 0xd1);
    chip.enable_version_rolling(0x1fffe000);
    assert_eq!(chip.nonce2chip_addr(0x12345679), 0x1a);
}

#[test]
fn bm1370_chip_address_moves_with_version_rolling() {
    let mut chip = BM1370::default();
    assert_eq!(chip.nonce2chip_addr(0x12345678), 0xd1);
    chip.enable_version_rolling(0x1fffe000);
    assert_eq!(chip.nonce2chip_addr(0x12345679), 0x1a);
}

#[test]
fn bm1397_chip_address() {
    let chip = BM1397::default();
    assert_eq!(chip.nonce2chip_addr(0x12345678), 0xd1);
}

#[test]
fn decoding_does_not_change_the_chip() {
    let chip = BM1366::default();
    let first = chip.nonce2core_id(0xdead_beef);
    let _ = chip.nonce2small_core_id(0xdead_beef);
    let _ = chip.nonce2chip_addr(0xdead_beef);
    assert_eq!(chip.nonce2core_id(0xdead_beef), first);
    assert_eq!(chip.chip_addr, 0);
    assert!(!chip.version_rolling_enabled);
    assert_eq!(chip.version_mask, 0x1fffe000);
}

#[test]
fn nonce_round_trip_without_version_rolling() {
    for geometry in [BM1366::geometry(), BM1370::geometry(), BM1397::geometry()] {
        let cores = [0u32, 1, 5, (1 << geometry.nonce_core_id_bits) - 1];
        let smalls = [0u32, 1, (1 << geometry.nonce_small_core_id_bits) - 1];
        let addresses = [0u32, 1, 0x80, 0xff];
        for core in cores {
            for small in smalls {
                for address in addresses {
                    let nonce = compose(&geometry, core, small, address);
                    assert_eq!(geometry.core_id(nonce), core as usize);
                    assert_eq!(geometry.small_core_id(nonce), small as usize);
                    assert_eq!(geometry.chip_address(nonce, false), address as usize);
                }
            }
        }
    }
}

#[test]
fn nonce_round_trip_with_version_rolling() {
    let geometry = BM1370::geometry();
    let mask = 0x1fff_e000u32;
    for core in [0u32, 9, 0x7f] {
        for small in [0u32, 3, 7] {
            for address in [0u32, 0x1a, 0xff] {
                let nonce = compose_rolling(&geometry, core, address);
                let version = small << mask.trailing_zeros();
                assert_eq!(geometry.core_id(nonce), core as usize);
                assert_eq!(geometry.small_core_id_from_version(version, mask), small as usize);
                assert_eq!(geometry.chip_address(nonce, true), address as usize);
            }
        }
    }
}

#[test]
fn round_trip_fails_where_small_core_has_no_room() {
    let geometry = BM1370::geometry();
    let mask = 0x8000_0000u32;
    let version = 2u32.wrapping_shl(mask.trailing_zeros());
    assert_ne!(geometry.small_core_id_from_version(version, mask), 2);
}

#[test]
fn rolling_space_without_version_rolling() {
    assert_eq!(BM1366::geometry().rolling_space(false, 0x1fffe000), 1 << 14);
    assert_eq!(BM1370::geometry().rolling_space(false, 0), 1 << 14);
    assert_eq!(BM1397::geometry().rolling_space(false, 0), 1 << 14);
}

#[test]
fn rolling_space_with_version_rolling() {
    assert_eq!(BM1366::geometry().rolling_space(true, 0x1fffe000), 1 << 30);
    assert_eq!(BM1370::geometry().rolling_space(true, 0xffff_ffff), 1 << 46);
    assert_eq!(BM1370::geometry().rolling_space(true, 0), 1 << 14);
}

#[test]
fn bm1366_rolling_duration() {
    let mut chip = BM1366::default();
    let duration = chip.rolling_duration();
    assert_eq!(duration, RollingDuration { space: 16_384, frequency: 70_000_000 });
    assert_eq!(duration.nanos(), 234_057);
    chip.enable_version_rolling(0x1fffe000);
    let duration = chip.rolling_duration();
    assert_eq!(duration, RollingDuration { space: 1 << 30, frequency: 70_000_000 });
    assert_eq!(duration.nanos(), 15_339_168_914);
}

#[test]
fn bm1370_rolling_duration() {
    let mut chip = BM1370::default();
    assert_eq!(chip.rolling_duration().nanos(), 327_680);
    chip.enable_version_rolling(0x1fffe000);
    assert_eq!(chip.rolling_duration().nanos(), 21_474_836_480);
}

#[test]
fn bm1397_rolling_duration() {
    let chip = BM1397::default();
    assert_eq!(chip.rolling_duration().nanos(), 327_680);
}

#[test]
fn rolling_duration_falls_as_frequency_rises() {
    let geometry = BM1370::geometry();
    let mut previous = geometry.rolling_duration(true, 0x1fffe000, 1);
    assert!(previous.space > 0 && previous.frequency > 0);
    for frequency in [2u64, 50_000_000, 50_000_001, 400_000_000, u64::MAX] {
        let next = geometry.rolling_duration(true, 0x1fffe000, frequency);
        assert!(next.space > 0 && next.frequency > 0);
        let left = (previous.space as u128) * (next.frequency as u128);
        let right = (next.space as u128) * (previous.frequency as u128);
        assert!(left > right);
        previous = next;
    }
}

#[test]
fn count_ones_counts_set_bits() {
    assert_eq!(count_ones(0), 0);
    assert_eq!(count_ones(1), 1);
    assert_eq!(count_ones(0x1fffe000), 16);
    assert_eq!(count_ones(0x8000_0001), 2);
    assert_eq!(count_ones(0xffff_ffff), 32);
}

#[test]
fn mask_of_sets_low_bits() {
    assert_eq!(mask_of(0), 0);
    assert_eq!(mask_of(3), 0b111);
    assert_eq!(mask_of(7), 0x7f);
    assert_eq!(mask_of(31), 0x7fff_ffff);
    assert_eq!(mask_of(32), 0xffff_ffff);
    assert_eq!(mask_of(40), 0xffff_ffff);
}

#[test]
fn power_of_two_doubles() {
    assert_eq!(power_of_two(0), 1);
    assert_eq!(power_of_two(14), 16_384);
    assert_eq!(power_of_two(63), 0x8000_0000_0000_0000);
}

#[test]
fn geometry_constants() {
    let geometry = BM1366::geometry();
    assert_eq!(geometry.core_count, 112);
    assert_eq!(geometry.small_core_count, 894);
    assert_eq!(geometry.cores_per_big_core, 8);
    assert_ne!(geometry.small_core_count, geometry.core_count * geometry.cores_per_big_core);
    assert!(geometry.supports_version_rolling);
    let geometry = BM1370::geometry();
    assert_eq!(geometry.chip_id, 0x1370);
    assert_eq!(geometry.core_count, 128);
    assert_eq!(geometry.small_core_count, 2040);
    assert_eq!(geometry.pll_count, 4);
    let geometry = BM1397::geometry();
    assert_eq!(geometry.nonce_core_id_bits, 8);
    assert_eq!(geometry.nonce_small_core_id_bits, 2);
    assert!(!geometry.supports_version_rolling);
}
