use bm13xx::bm1370::{BM1370, BM1370_PLL_ID_HASH, BM1370_PLL_ID_UART, BM1370_PLL_OUT_UART};
use bm13xx::command::Destination;
use bm13xx::sequence::{ramp_step_count, ramp_step_frequency, RampError};

#[test]
fn init_writes_three_registers() {
    let mut chip = BM1370::default();
    let steps = chip.send_init(256, 1, 10, 2);
    assert_eq!(steps.len(), 3);
    assert_eq!(steps[0].cmd, [0x55, 0xaa, 0x51, 0x09, 0x00, 0x3c, 0x80, 0x00, 0x8b, 0x00, 0x12]);
    assert_eq!(steps[1].cmd, [0x55, 0xaa, 0x51, 0x09, 0x00, 0x3c, 0x80, 0x00, 0x80, 0x10, 0x12]);
    assert_eq!(steps[2].cmd, [0x55, 0xaa, 0x51, 0x09, 0x00, 0x14, 0x00, 0x00, 0x00, 0xff, 0x08]);
    for step in steps.iter() {
        assert_eq!(step.delay_ms, 10);
    }
    assert_eq!(chip.core_registers.get(&5), Some(&0x40));
    assert_eq!(chip.core_registers.get(&0), Some(&0x10));
    assert_eq!(chip.core_registers.get(&11), Some(&0x00));
    assert_eq!(chip.registers.get(&0x14), Some(&0x0000_00ff));
}

#[test]
fn init_of_91_chips_does_not_depend_on_the_chain() {
    let mut chip = BM1370::default();
    let steps = chip.send_init(256, 13, 7, 2);
    assert_eq!(steps.len(), 3);
    assert_eq!(steps[0].cmd, [0x55, 0xaa, 0x51, 0x09, 0x00, 0x3c, 0x80, 0x00, 0x8b, 0x00, 0x12]);
    assert_eq!(steps[1].cmd, [0x55, 0xaa, 0x51, 0x09, 0x00, 0x3c, 0x80, 0x00, 0x80, 0x10, 0x12]);
    assert_eq!(steps[2].cmd, [0x55, 0xaa, 0x51, 0x09, 0x00, 0x14, 0x00, 0x00, 0x00, 0xff, 0x08]);
    let mut other = BM1370::default();
    let again = other.send_init(256, 255, 255, 0xffff);
    assert_eq!(steps, again);
}

#[test]
fn init_reads_the_shadow() {
    let mut chip = BM1370::default();
    chip.core_registers.insert(11, 0x5a).unwrap();
    chip.core_registers.insert(0, 0xff).unwrap();
    let steps = chip.send_init(512, 1, 1, 1);
    assert_eq!(steps[0].cmd[6..10], [0x80, 0x00, 0x8b, 0x5a]);
    assert_eq!(steps[1].cmd[6..10], [0x80, 0x00, 0x80, 0x16]);
    assert_eq!(steps[2].cmd[6..10], [0x00, 0x00, 0x80, 0xff]);
    assert_eq!(chip.core_registers.get(&0), Some(&0x16));
    assert_eq!(chip.registers.get(&0x14), Some(&0x0000_80ff));
}

#[test]
fn init_twice_gives_the_same_commands() {
    let mut chip = BM1370::default();
    let first = chip.send_init(256, 13, 7, 2);
    let second = chip.send_init(256, 13, 7, 2);
    assert_eq!(first, second);
}

#[test]
fn init_leaves_the_rest_of_the_model() {
    let mut chip = BM1370::default();
    chip.set_chip_addr(4);
    let _ = chip.send_init(256, 13, 7, 2);
    assert_eq!(chip.chip_addr, 4);
    assert!(!chip.version_rolling_enabled);
    assert_eq!(chip.version_mask, 0x1fff_e000);
    assert_eq!(chip.hash_freq(), 50_000_000);
    assert_eq!(chip.registers.len(), 63);
    assert_eq!(chip.core_registers.len(), 12);
    assert_eq!(chip.registers.get(&0x58), Some(&0x0001_2111));
}

#[test]
fn baudrate_of_91_chips() {
    let mut chip = BM1370::default();
    let steps = chip.send_baudrate(3_125_000, 13, 7, 2);
    assert_eq!(steps.len(), 42);
    assert_eq!(steps[0].cmd, [0x55, 0xaa, 0x51, 0x09, 0x00, 0x58, 0x00, 0x01, 0x11, 0x11, 0x0d]);
    assert_eq!(steps[1].cmd, [0x55, 0xaa, 0x41, 0x09, 0xb4, 0x58, 0x00, 0x01, 0x31, 0x11, 0x00]);
    assert_eq!(steps[13].cmd, [0x55, 0xaa, 0x41, 0x09, 0x0c, 0x58, 0x00, 0x01, 0x31, 0x11, 0x0e]);
    assert_eq!(steps[14].cmd, [0x55, 0xaa, 0x51, 0x09, 0x00, 0x68, 0x5a, 0xa5, 0x5a, 0xa5, 0x1c]);
    assert_eq!(steps[15].cmd, [0x55, 0xaa, 0x41, 0x09, 0xa8, 0x2c, 0x00, 0x15, 0x00, 0x03, 0x14]);
    assert_eq!(steps[16].cmd, [0x55, 0xaa, 0x41, 0x09, 0xb4, 0x2c, 0x00, 0x15, 0x00, 0x03, 0x1f]);
    assert_eq!(steps[39].cmd, [0x55, 0xaa, 0x41, 0x09, 0x00, 0x2c, 0x00, 0x69, 0x00, 0x03, 0x0d]);
    assert_eq!(steps[40].cmd, [0x55, 0xaa, 0x41, 0x09, 0x0c, 0x2c, 0x00, 0x69, 0x00, 0x03, 0x05]);
    assert_eq!(steps[41].cmd, [0x55, 0xaa, 0x51, 0x09, 0x00, 0x28, 0x01, 0x30, 0x00, 0x00, 0x1a]);
    for step in steps.iter() {
        assert_eq!(step.delay_ms, 0);
    }
}

#[test]
fn baudrate_walks_the_domains_from_the_end() {
    let mut chip = BM1370::default();
    let steps = chip.send_baudrate(3_125_000, 13, 7, 2);
    for position in 0..13usize {
        let domain = 12 - position;
        let first = (domain * 7 * 2) as u8;
        let last = ((domain * 7 + 6) * 2) as u8;
        let gap = (7 * (13 - domain) + 14) as u8;
        let raised = &steps[1 + position].cmd;
        assert_eq!(raised[2..10], [0x41, 0x09, last, 0x58, 0x00, 0x01, 0x31, 0x11]);
        let relay_first = &steps[15 + 2 * position].cmd;
        assert_eq!(relay_first[2..10], [0x41, 0x09, first, 0x2c, 0x00, gap, 0x00, 0x03]);
        let relay_last = &steps[16 + 2 * position].cmd;
        assert_eq!(relay_last[2..10], [0x41, 0x09, last, 0x2c, 0x00, gap, 0x00, 0x03]);
    }
}

#[test]
fn baudrate_within_reach_of_input_clock() {
    let mut chip = BM1370::default();
    let steps = chip.send_baudrate(3_125_000, 0, 0, 0);
    assert_eq!(steps.len(), 3);
    assert_eq!(steps[1].cmd, [0x55, 0xaa, 0x51, 0x09, 0x00, 0x68, 0x5a, 0xa5, 0x5a, 0xa5, 0x1c]);
    assert_eq!(steps[2].cmd, [0x55, 0xaa, 0x51, 0x09, 0x00, 0x28, 0x01, 0x30, 0x00, 0x00, 0x1a]);
    assert_eq!(chip.registers.get(&0x68), Some(&0x5aa5_5aa5));
    assert_eq!(chip.registers.get(&0x28), Some(&0x0130_0000));
    assert_eq!(chip.registers.get(&0x58), Some(&0x0001_1111));
    assert_eq!(chip.registers.get(&0x2c), Some(&0x000f_0000));
    assert!(!chip.plls[BM1370_PLL_ID_UART].enabled);
    assert_eq!(chip.plls[BM1370_PLL_ID_UART].parameter(), 0);
}

#[test]
fn baudrate_divides_the_input_clock() {
    let mut chip = BM1370::default();
    let steps = chip.send_baudrate(1_000_000, 1, 1, 1);
    assert_eq!(steps.len(), 6);
    assert_eq!(steps[5].cmd, [0x55, 0xaa, 0x51, 0x09, 0x00, 0x28, 0x01, 0x30, 0x02, 0x00, 0x07]);
    let mut chip = BM1370::default();
    let steps = chip.send_baudrate(115_200, 1, 1, 1);
    assert_eq!(steps[5].cmd, [0x55, 0xaa, 0x51, 0x09, 0x00, 0x28, 0x01, 0x30, 0x1a, 0x00, 0x0f]);
    let mut chip = BM1370::default();
    let steps = chip.send_baudrate(9_600, 1, 1, 1);
    assert_eq!(steps[5].cmd, [0x55, 0xaa, 0x51, 0x09, 0x00, 0x28, 0x01, 0x30, 0x44, 0x00, 0x03]);
    assert_eq!(chip.registers.get(&0x28), Some(&0x0130_4400));
}

#[test]
fn baudrate_out_of_reach_sets_up_the_uart_pll() {
    let mut chip = BM1370::default();
    let steps = chip.send_baudrate(3_125_001, 1, 1, 1);
    assert_eq!(steps.len(), 6);
    assert_eq!(steps[5].cmd, [0x55, 0xaa, 0x51, 0x09, 0x00, 0x68, 0xc0, 0x70, 0x01, 0x00, 0x1f]);
    let pll = chip.plls[BM1370_PLL_ID_UART];
    assert!(pll.locked);
    assert!(pll.enabled);
    assert_eq!(pll.feedback_divider, 112);
    assert_eq!(pll.reference_divider, 1);
    assert_eq!(pll.post_divider_1, 1);
    assert_eq!(pll.post_divider_2, 1);
    assert_eq!(pll.output_dividers, [0, 0, 0, 6]);
    assert_eq!(pll.frequency(BM1370_PLL_OUT_UART), 400_000_000);
    assert_eq!(chip.registers.get(&0x68), Some(&0xc070_0100));
    assert_eq!(chip.registers.get(&0x28), Some(&0x0130_1a00));
    assert_eq!(chip.hash_freq(), 50_000_000);
}

#[test]
fn baudrate_of_a_single_chip() {
    let mut chip = BM1370::default();
    let steps = chip.send_baudrate(3_125_000, 1, 1, 256);
    assert_eq!(steps.len(), 6);
    assert_eq!(steps[1].cmd[2..10], [0x41, 0x09, 0x00, 0x58, 0x00, 0x01, 0x31, 0x11]);
    assert_eq!(steps[3].cmd[2..10], [0x41, 0x09, 0x00, 0x2c, 0x00, 0x0f, 0x00, 0x03]);
    assert_eq!(steps[4].cmd[2..10], [0x41, 0x09, 0x00, 0x2c, 0x00, 0x0f, 0x00, 0x03]);
}

#[test]
fn baudrate_fills_up_to_255_domains() {
    let mut chip = BM1370::default();
    let steps = chip.send_baudrate(3_125_000, 255, 1, 1);
    assert_eq!(steps.len(), 768);
    assert_eq!(steps[1].cmd[4], 254);
    assert_eq!(steps[255].cmd[4], 0);
    assert_eq!(steps[257].cmd[2..10], [0x41, 0x09, 254, 0x2c, 0x00, 15, 0x00, 0x03]);
    assert_eq!(steps[766].cmd[2..10], [0x41, 0x09, 0, 0x2c, 0x01, 13, 0x00, 0x03]);
}

#[test]
fn reset_core_of_one_chip() {
    let mut chip = BM1370::default();
    let steps = chip.send_reset_core(Destination::Chip(0));
    assert_eq!(steps.len(), 5);
    assert_eq!(steps[0].cmd, [0x55, 0xaa, 0x41, 0x09, 0x00, 0xa8, 0x00, 0x07, 0x01, 0xf0, 0x15]);
    assert_eq!(steps[1].cmd, [0x55, 0xaa, 0x41, 0x09, 0x00, 0x18, 0xf0, 0x00, 0xc1, 0x00, 0x0c]);
    assert_eq!(steps[2].cmd, [0x55, 0xaa, 0x41, 0x09, 0x00, 0x3c, 0x80, 0x00, 0x8b, 0x00, 0x1a]);
    assert_eq!(steps[3].cmd, [0x55, 0xaa, 0x41, 0x09, 0x00, 0x3c, 0x80, 0x00, 0x80, 0x0c, 0x19]);
    assert_eq!(steps[4].cmd, [0x55, 0xaa, 0x41, 0x09, 0x00, 0x3c, 0x80, 0x00, 0x82, 0xaa, 0x05]);
    for step in steps.iter() {
        assert_eq!(step.delay_ms, 10);
    }
    assert_eq!(chip.registers.get(&0xa8), Some(&0x0007_01f0));
    assert_eq!(chip.registers.get(&0x18), Some(&0xf000_c100));
    assert_eq!(chip.core_registers.get(&11), Some(&0x00));
    assert_eq!(chip.core_registers.get(&0), Some(&0x0c));
    assert_eq!(chip.core_registers.get(&2), Some(&0xaa));
}

#[test]
fn reset_core_goes_to_the_chip_named() {
    let mut chip = BM1370::default();
    let steps = chip.send_reset_core(Destination::Chip(0x12));
    assert_eq!(steps.len(), 5);
    for step in steps.iter() {
        assert_eq!(step.cmd[2], 0x41);
        assert_eq!(step.cmd[4], 0x12);
    }
}

#[test]
fn commands_between_reset_and_ramp() {
    let chip = BM1370::default();
    let steps = chip.between_reset_and_set_freq();
    assert_eq!(steps.len(), 4);
    assert_eq!(steps[0].cmd, [0x55, 0xaa, 0x51, 0x09, 0x00, 0xb9, 0x00, 0x00, 0x44, 0x80, 0x0d]);
    assert_eq!(steps[1].cmd, [0x55, 0xaa, 0x51, 0x09, 0x00, 0x54, 0x00, 0x00, 0x00, 0x02, 0x18]);
    assert_eq!(steps[2].cmd, [0x55, 0xaa, 0x51, 0x09, 0x00, 0xb9, 0x00, 0x00, 0x44, 0x80, 0x0d]);
    assert_eq!(steps[3].cmd, [0x55, 0xaa, 0x51, 0x09, 0x00, 0x3c, 0x80, 0x00, 0x8d, 0xee, 0x1b]);
    assert_eq!(steps[0].delay_ms, 20);
    assert_eq!(steps[1].delay_ms, 100);
    assert_eq!(steps[2].delay_ms, 20);
    assert_eq!(steps[3].delay_ms, 100);
    assert_eq!(chip.registers.get(&0x54), Some(&0));
    assert_eq!(chip.registers.get(&0xb9), None);
}

#[test]
fn ramp_from_50_to_75_mhz() {
    let mut chip = BM1370::default();
    let steps = chip.send_hash_freq(75_000_000).unwrap();
    assert_eq!(steps.len(), 4);
    assert_eq!(steps[0].cmd, [0x55, 0xaa, 0x51, 0x09, 0x00, 0x08, 0x40, 0xa2, 0x02, 0x55, 0x0f]);
    assert_eq!(steps[1].cmd, [0x55, 0xaa, 0x51, 0x09, 0x00, 0x08, 0x40, 0xaf, 0x02, 0x64, 0x08]);
    assert_eq!(steps[2].cmd, [0x55, 0xaa, 0x51, 0x09, 0x00, 0x08, 0x40, 0xa5, 0x02, 0x54, 0x08]);
    assert_eq!(steps[3].cmd, [0x55, 0xaa, 0x51, 0x09, 0x00, 0x08, 0x40, 0xa8, 0x02, 0x63, 0x11]);
    for step in steps.iter() {
        assert_eq!(step.cmd[2], 0x51);
        assert_eq!(step.cmd[5], 0x08);
        assert_eq!(step.delay_ms, 400);
    }
    assert_eq!(chip.plls[BM1370_PLL_ID_HASH].parameter(), 0xc0a8_0263);
    assert_eq!(chip.hash_freq(), 75_000_000);
    assert_eq!(chip.registers.get(&0x08), Some(&0x40a8_0263));
}

#[test]
fn ramp_cuts_the_last_step_short() {
    let mut chip = BM1370::default();
    let steps = chip.send_hash_freq(60_000_000).unwrap();
    assert_eq!(steps.len(), 2);
    assert_eq!(steps[0].cmd[6..10], [0x40, 0xa2, 0x02, 0x55]);
    assert_eq!(chip.hash_freq(), 60_000_000);
}

#[test]
fn ramp_to_the_current_frequency_is_one_step() {
    let mut chip = BM1370::default();
    let steps = chip.send_hash_freq(50_000_000).unwrap();
    assert_eq!(steps.len(), 1);
    assert_eq!(steps[0].cmd, [0x55, 0xaa, 0x51, 0x09, 0x00, 0x08, 0x40, 0xa8, 0x02, 0x65, 0x0f]);
    assert_eq!(chip.plls[BM1370_PLL_ID_HASH].parameter(), 0xc0a8_0265);
}

#[test]
fn ramp_downwards_is_one_step() {
    let mut chip = BM1370::default();
    assert!(chip.set_hash_freq(200_000_000));
    let steps = chip.send_hash_freq(75_000_000).unwrap();
    assert_eq!(steps.len(), 1);
    assert_eq!(steps[0].cmd[6..10], [0x40, 0xa8, 0x02, 0x63]);
    assert_eq!(steps[0].delay_ms, 400);
    assert_eq!(chip.hash_freq(), 75_000_000);
}

#[test]
fn ramp_flips_the_pause_above_380_mhz() {
    let mut chip = BM1370::default();
    assert!(chip.set_hash_freq(375_000_000));
    let steps = chip.send_hash_freq(400_000_000).unwrap();
    assert_eq!(steps.len(), 4);
    assert_eq!(steps[0].cmd, [0x55, 0xaa, 0x51, 0x09, 0x00, 0x08, 0x40, 0xb7, 0x02, 0x50, 0x10]);
    assert_eq!(steps[1].cmd, [0x55, 0xaa, 0x51, 0x09, 0x00, 0x08, 0x40, 0xba, 0x02, 0x50, 0x19]);
    assert_eq!(steps[2].cmd, [0x55, 0xaa, 0x51, 0x09, 0x00, 0x08, 0x40, 0xbd, 0x02, 0x50, 0x1b]);
    assert_eq!(steps[3].cmd, [0x55, 0xaa, 0x51, 0x09, 0x00, 0x08, 0x40, 0xa0, 0x02, 0x40, 0x11]);
    assert_eq!(steps[0].delay_ms, 2300);
    assert_eq!(steps[1].delay_ms, 400);
    assert_eq!(steps[2].delay_ms, 2300);
    assert_eq!(steps[3].delay_ms, 400);
    assert_eq!(chip.hash_freq(), 400_000_000);
}

#[test]
fn ramp_does_not_flip_at_380_mhz() {
    let mut chip = BM1370::default();
    assert!(chip.set_hash_freq(375_000_000));
    let steps = chip.send_hash_freq(380_000_000).unwrap();
    assert_eq!(steps.len(), 1);
    assert_eq!(steps[0].delay_ms, 400);
    let steps = chip.send_hash_freq(380_000_001).unwrap();
    assert_eq!(steps.len(), 1);
    assert_eq!(steps[0].delay_ms, 2300);
}

#[test]
fn ramp_without_dividers_is_refused() {
    let mut chip = BM1370::default();
    assert_eq!(chip.send_hash_freq(10_000_000), Err(RampError::NoDividers));
    assert_eq!(chip.hash_freq(), 50_000_000);
    assert_eq!(chip.plls[BM1370_PLL_ID_HASH].parameter(), 0xc054_0165);
    assert_eq!(chip.registers.get(&0x08), Some(&0xc054_0165));
}

#[test]
fn ramp_with_too_many_steps_is_refused() {
    let mut chip = BM1370::default();
    let target = 50_000_000 + 2048 * 6_250_000 + 1;
    assert_eq!(chip.send_hash_freq(target), Err(RampError::TooManySteps));
    assert_eq!(chip.send_hash_freq(u64::MAX), Err(RampError::TooManySteps));
    assert_eq!(chip.send_hash_freq(target - 1), Err(RampError::NoDividers));
    assert_eq!(chip.hash_freq(), 50_000_000);
    assert_eq!(chip.registers.get(&0x08), Some(&0xc054_0165));
}

#[test]
fn ramp_steps_are_counted() {
    assert_eq!(ramp_step_count(50_000_000, 75_000_000), 4);
    assert_eq!(ramp_step_count(50_000_000, 75_000_001), 5);
    assert_eq!(ramp_step_count(50_000_000, 56_250_000), 1);
    assert_eq!(ramp_step_count(50_000_000, 50_000_001), 1);
    assert_eq!(ramp_step_count(50_000_000, 50_000_000), 1);
    assert_eq!(ramp_step_count(50_000_000, 0), 1);
    assert_eq!(ramp_step_count(0, u64::MAX), 2_951_479_051_794);
}

#[test]
fn ramp_step_frequencies() {
    assert_eq!(ramp_step_frequency(50_000_000, 75_000_000, 0), 56_250_000);
    assert_eq!(ramp_step_frequency(50_000_000, 75_000_000, 3), 75_000_000);
    assert_eq!(ramp_step_frequency(50_000_000, 75_000_000, 100), 75_000_000);
    assert_eq!(ramp_step_frequency(50_000_000, 60_000_000, 1), 60_000_000);
    assert_eq!(ramp_step_frequency(50_000_000, 10_000_000, 0), 10_000_000);
    assert_eq!(ramp_step_frequency(u64::MAX, u64::MAX, u64::MAX), u64::MAX);
}

#[test]
fn version_rolling_without_chips() {
    let mut chip = BM1370::default();
    let steps = chip.send_version_rolling(0x1fff_e000, 0, 0, 0);
    assert_eq!(steps.len(), 2);
    assert_eq!(steps[0].cmd, [0x55, 0xaa, 0x51, 0x09, 0x00, 0x10, 0x00, 0x00, 0x1e, 0xb5, 0x0f]);
    assert_eq!(steps[1].cmd, [0x55, 0xaa, 0x51, 0x09, 0x00, 0xa4, 0x90, 0x00, 0xff, 0xff, 0x1c]);
    assert_eq!(steps[0].delay_ms, 1);
    assert_eq!(steps[1].delay_ms, 1);
    assert!(chip.version_rolling_enabled);
    assert_eq!(chip.version_mask, 0x1fff_e000);
    assert_eq!(chip.registers.get(&0x10), Some(&0x0000_1eb5));
    assert_eq!(chip.registers.get(&0xa4), Some(&0x9000_ffff));
}

#[test]
fn version_rolling_of_a_single_chip() {
    let mut chip = BM1370::default();
    let steps = chip.send_version_rolling(0x1fff_e000, 1, 1, 256);
    assert_eq!(steps.len(), 3);
    assert_eq!(steps[0].cmd, [0x55, 0xaa, 0x41, 0x09, 0x00, 0x0c, 0x80, 0x00, 0x00, 0x00, 0x1a]);
    assert_eq!(steps[0].delay_ms, 0);
    assert_eq!(steps[1].cmd, [0x55, 0xaa, 0x51, 0x09, 0x00, 0x10, 0x00, 0x00, 0x1e, 0xb5, 0x0f]);
    assert_eq!(steps[2].cmd, [0x55, 0xaa, 0x51, 0x09, 0x00, 0xa4, 0x90, 0x00, 0xff, 0xff, 0x1c]);
    assert!(chip.version_rolling_enabled);
    assert_eq!(chip.version_mask, 0x1fff_e000);
    assert_eq!(chip.registers.get(&0x0c), Some(&0));
}

#[test]
fn version_rolling_of_91_chips() {
    let mut chip = BM1370::default();
    let steps = chip.send_version_rolling(0x1fff_e000, 13, 7, 2);
    assert_eq!(steps.len(), 93);
    assert_eq!(steps[0].cmd, [0x55, 0xaa, 0x41, 0x09, 0x00, 0x0c, 0x80, 0x00, 0x00, 0x00, 0x1a]);
    assert_eq!(steps[1].cmd, [0x55, 0xaa, 0x41, 0x09, 0x02, 0x0c, 0x80, 0x00, 0x02, 0xd0, 0x0b]);
    assert_eq!(steps[90].cmd, [0x55, 0xaa, 0x41, 0x09, 0xb4, 0x0c, 0x80, 0x00, 0xfd, 0x20, 0x0f]);
    assert_eq!(steps[91].cmd, [0x55, 0xaa, 0x51, 0x09, 0x00, 0x10, 0x00, 0x00, 0x1e, 0xb5, 0x0f]);
    assert_eq!(steps[92].cmd, [0x55, 0xaa, 0x51, 0x09, 0x00, 0xa4, 0x90, 0x00, 0xff, 0xff, 0x1c]);
    for number in 0..91usize {
        assert_eq!(steps[number].cmd[4], (2 * number) as u8);
        assert_eq!(steps[number].delay_ms, 0);
    }
}

#[test]
fn version_rolling_of_256_chips() {
    let mut chip = BM1370::default();
    let steps = chip.send_version_rolling(0x1fff_e000, 16, 16, 1);
    assert_eq!(steps.len(), 258);
    assert_eq!(steps[255].cmd[2..10], [0x41, 0x09, 0xff, 0x0c, 0x80, 0x00, 0xff, 0x00]);
}

#[test]
fn version_rolling_writes_the_mask_given() {
    let mut chip = BM1370::default();
    let steps = chip.send_version_rolling(0x0000_e000, 0, 0, 0);
    assert_eq!(steps[1].cmd[6..10], [0x90, 0x00, 0x00, 0x07]);
    assert!(chip.version_rolling_enabled);
    assert_eq!(chip.version_mask, 0x0000_e000);
    assert_eq!(chip.nonce2chip_addr(0x12345679), 0x1a);
    assert_eq!(chip.version2small_core_id(0x0000_a000), 5);
}

#[test]
fn sequences_follow_one_another_on_one_model() {
    let mut chip = BM1370::default();
    assert_eq!(chip.send_init(256, 13, 7, 2).len(), 3);
    assert_eq!(chip.send_baudrate(3_125_000, 13, 7, 2).len(), 42);
    assert_eq!(chip.send_reset_core(Destination::Chip(0)).len(), 5);
    assert_eq!(chip.between_reset_and_set_freq().len(), 4);
    assert_eq!(chip.send_hash_freq(75_000_000).unwrap().len(), 4);
    assert_eq!(chip.send_version_rolling(0x1fff_e000, 13, 7, 2).len(), 93);
    assert_eq!(chip.registers.len(), 63);
    assert_eq!(chip.core_registers.len(), 12);
    let init = chip.send_init(256, 13, 7, 2);
    assert_eq!(init[1].cmd[6..10], [0x80, 0x00, 0x80, 0x14]);
}

#[test]
fn ramp_keeps_word_and_model_together() {
    for target in [56_250_000u64, 100_000_000, 400_000_000, 600_000_000] {
        let mut chip = BM1370::default();
        let steps = chip.send_hash_freq(target).unwrap();
        assert!(!steps.is_empty());
        let word = *chip.registers.get(&0x08).unwrap();
        let parameter = chip.plls[BM1370_PLL_ID_HASH].parameter();
        assert_eq!(word & 0x00ff_ffff, parameter & 0x00ff_ffff);
        assert_eq!(chip.hash_freq(), target);
    }
}

#[test]
fn reset_core_twice_gives_the_same_commands() {
    let mut chip = BM1370::default();
    let first = chip.send_reset_core(Destination::Chip(4));
    let registers = chip.registers.clone();
    let core_registers = chip.core_registers.clone();
    let second = chip.send_reset_core(Destination::Chip(4));
    assert_eq!(first, second);
    assert_eq!(chip.registers, registers);
    assert_eq!(chip.core_registers, core_registers);
}

#[test]
fn baudrate_twice_gives_the_same_commands() {
    for baudrate in [115_200u32, 3_125_000, 6_250_000] {
        let mut chip = BM1370::default();
        let first = chip.send_baudrate(baudrate, 13, 7, 2);
        let registers = chip.registers.clone();
        let plls = chip.plls;
        let second = chip.send_baudrate(baudrate, 13, 7, 2);
        assert_eq!(first, second);
        assert_eq!(chip.registers, registers);
        assert_eq!(chip.plls, plls);
    }
}

#[test]
fn version_rolling_twice_gives_the_same_commands() {
    let mut chip = BM1370::default();
    let first = chip.send_version_rolling(0x1fff_e000, 13, 7, 2);
    let registers = chip.registers.clone();
    let second = chip.send_version_rolling(0x1fff_e000, 13, 7, 2);
    assert_eq!(first, second);
    assert_eq!(chip.registers, registers);
    assert!(chip.version_rolling_enabled);
}
