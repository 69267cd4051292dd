use ws2812_flexio::errors::WS2812InitError;
use ws2812_flexio::{DriverBuilder, FlexioParams, PinAllocation, WS2812Driver};

fn params(available_pins: u8, available_timers: u32, available_shifters: u32) -> FlexioParams {
    FlexioParams { available_pins, available_timers, available_shifters }
}

#[test]
fn init_three_lanes_programs_all_timers() {
    let driver = WS2812Driver::init(params(32, 8, 4), &vec![4, 5, 6]).unwrap();
    assert_eq!(
        driver.pin_allocation(),
        PinAllocation { shifter_output_start_pin: 0, shift_timer_output_pin: 7 }
    );
    let config = driver.config();
    assert_eq!(config.shifters.len(), 1);
    let shifter = config.shifters[0];
    assert_eq!(shifter.shifter_id, 0);
    assert_eq!(shifter.control.timsel, 0);
    assert_eq!(shifter.control.pinsel, 0);
    assert_eq!(shifter.control.smod, 2);
    assert_eq!(shifter.config.sstart, 1);

    let ids: Vec<u8> = config.timers.iter().map(|t| t.timer_id).collect();
    assert_eq!(ids, vec![0, 1, 2, 3, 4, 5, 6, 7]);

    let shift_timer = config.timers[0];
    assert_eq!(shift_timer.compare, 0x3F09);
    assert_eq!(shift_timer.control.trgsel, 1);
    assert_eq!(shift_timer.control.pinsel, 7);
    assert_eq!(shift_timer.control.timod, 1);

    let idle = config.timers[1];
    assert_eq!(idle.compare, 4800);
    assert_eq!(idle.control.trgsel, 14);
    assert_eq!(idle.control.pincfg, 0);
    assert_eq!(idle.config.timrst, 6);

    let low0 = config.timers[2];
    assert_eq!(low0.compare, 0x0E04);
    assert_eq!(low0.control.trgsel, 14);
    assert_eq!(low0.control.pinsel, 4);
    assert_eq!(low0.config.timdis, 2);

    let high0 = config.timers[3];
    assert_eq!(high0.compare, 0x040E);
    assert_eq!(high0.control.trgsel, 0);
    assert_eq!(high0.control.pinsel, 4);
    assert_eq!(high0.config.timdis, 6);

    let high2 = config.timers[7];
    assert_eq!(high2.control.trgsel, 4);
    assert_eq!(high2.control.pinsel, 6);
    assert_eq!(driver.pin_offsets(), &vec![4, 5, 6]);
}

#[test]
fn init_allocates_distinct_resources_for_every_lane_count() {
    let lanes: Vec<u8> = vec![9, 3, 12, 0];
    for n in 1..=4 {
        let pins: Vec<u8> = lanes[..n].to_vec();
        let driver = WS2812Driver::init(params(16, 10, 1), &pins).unwrap();
        let alloc = driver.pin_allocation();
        let mut used: Vec<u8> = pins.clone();
        for p in alloc.shifter_output_start_pin..alloc.shifter_output_start_pin + 4 {
            used.push(p);
        }
        used.push(alloc.shift_timer_output_pin);
        let mut sorted = used.clone();
        sorted.sort();
        sorted.dedup();
        assert_eq!(sorted.len(), used.len());
        assert!(used.iter().all(|p| *p < 16));
        let mut ids: Vec<u8> = driver.config().timers.iter().map(|t| t.timer_id).collect();
        assert_eq!(ids.len(), 2 + 2 * n);
        ids.sort();
        ids.dedup();
        assert_eq!(ids.len(), 2 + 2 * n);
    }
}

#[test]
fn init_finds_first_run_after_occupied_pins() {
    let driver = WS2812Driver::init(params(10, 6, 1), &vec![0, 3]).unwrap();
    assert_eq!(
        driver.pin_allocation(),
        PinAllocation { shifter_output_start_pin: 4, shift_timer_output_pin: 1 }
    );
}

#[test]
fn init_without_shifters_fails() {
    let r = WS2812Driver::init(params(32, 32, 0), &vec![1, 2]);
    assert_eq!(r.err(), Some(WS2812InitError::NotEnoughShifters));
}

#[test]
fn init_reports_missing_shifters_before_other_resources() {
    let r = WS2812Driver::init(params(0, 0, 0), &vec![1, 2, 3, 4]);
    assert_eq!(r.err(), Some(WS2812InitError::NotEnoughShifters));
}

#[test]
fn init_without_enough_timers_fails() {
    let r = WS2812Driver::init(params(32, 7, 1), &vec![1, 2, 3]);
    assert_eq!(r.err(), Some(WS2812InitError::NotEnoughTimers));
    assert!(WS2812Driver::init(params(32, 8, 1), &vec![1, 2, 3]).is_ok());
}

#[test]
fn init_without_four_consecutive_pins_fails() {
    let r = WS2812Driver::init(params(6, 4, 1), &vec![3]);
    assert_eq!(r.err(), Some(WS2812InitError::NeedFourConsecutiveInternalPins));
}

#[test]
fn init_without_clock_pin_fails() {
    let r = WS2812Driver::init(params(5, 4, 1), &vec![4]);
    assert_eq!(r.err(), Some(WS2812InitError::NotEnoughPins));
}

#[test]
fn init_two_lanes_share_one_shifter() {
    assert!(WS2812Driver::init(params(32, 6, 1), &vec![1, 2]).is_ok());
}

#[test]
fn resource_ids() {
    assert_eq!(WS2812Driver::get_shifter_id(), 0);
    assert_eq!(WS2812Driver::get_shifter_timer_id(), 0);
    assert_eq!(WS2812Driver::get_idle_timer_id(), 1);
    assert_eq!(WS2812Driver::get_low_bit_timer_id(3), 8);
    assert_eq!(WS2812Driver::get_high_bit_timer_id(3), 9);
    assert_eq!(WS2812Driver::get_low_bit_timer_id(126), 254);
    assert_eq!(WS2812Driver::get_high_bit_timer_id(126), 255);
}

#[test]
fn idle_timer_with_output_pin() {
    let mut builder = DriverBuilder::new();
    builder.configure_idle_timer(1, 5, Some(9));
    let config = builder.build();
    assert_eq!(config.timers.len(), 1);
    assert_eq!(config.timers[0].control.pinsel, 9);
    assert_eq!(config.timers[0].control.pincfg, 3);
    assert_eq!(config.timers[0].control.trgsel, 10);
    assert!(config.shifters.is_empty());
}
