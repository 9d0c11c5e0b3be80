use loadcell_core::calib::{mean_samples, round_scaled};
use loadcell_core::persist::{boot_plan, startup, BootPlan, OffsetCell, OFFSET_SENTINEL};
use loadcell_core::reader::{decode_sample, read_transfer, GainMode, ReaderState};
use loadcell_core::scale::{poll_step, poll_until_ready, PollStep, Scale, ScaleError};

/// The 24 data-line levels (MSB first) that shift out the given pattern.
fn levels_of(pattern: u32) -> Vec<bool> {
    let mut levels = Vec::new();
    let mut bit: usize = 24;
    while bit > 0 {
        bit -= 1;
        levels.push((pattern >> bit) & 1 == 1);
    }
    levels
}

#[test]
fn decode_zero() {
    assert_eq!(decode_sample(0x000000), 0);
}

#[test]
fn decode_positive_maximum() {
    assert_eq!(decode_sample(0x7FFFFF), 8_388_607);
}

#[test]
fn decode_negative_minimum() {
    assert_eq!(decode_sample(0x800000), -8_388_608);
}

#[test]
fn decode_minus_one() {
    assert_eq!(decode_sample(0xFFFFFF), -1);
}

#[test]
fn transfer_assembles_msb_first() {
    let levels = levels_of(0x000FA0);
    assert_eq!(read_transfer(&levels), 4000);
    let levels = levels_of(0xFFFFFF);
    assert_eq!(read_transfer(&levels), -1);
    let levels = levels_of(0x800001);
    assert_eq!(read_transfer(&levels), -8_388_607);
}

#[test]
fn reader_state_machine_walks_one_sample() {
    let st = ReaderState::NotReady;
    let st = st.poll(false);
    assert!(matches!(st, ReaderState::NotReady));
    let st = st.poll(true);
    assert!(matches!(st, ReaderState::Ready));
    let mut st = st.begin_transfer();
    // shift in 0x000002: 22 low levels, one high, one low
    for _ in 0..22 {
        st = st.shift_in(false);
    }
    st = st.shift_in(true);
    st = st.shift_in(false);
    let st = st.finish();
    assert_eq!(st.into_sample(), 2);
}

#[test]
fn gain_mode_pulse_counts() {
    assert_eq!(GainMode::A128.extra_pulses(), 1);
    assert_eq!(GainMode::B32.extra_pulses(), 2);
    assert_eq!(GainMode::A64.extra_pulses(), 3);
    assert_eq!(GainMode::A128.total_pulses(), 25);
    assert_eq!(GainMode::B32.total_pulses(), 26);
    assert_eq!(GainMode::A64.total_pulses(), 27);
}

#[test]
fn tare_of_identical_samples_is_exact() {
    let mut scale = Scale::new(27, 10000);
    let samples = vec![-123_456; 32];
    scale.tare(&samples);
    assert_eq!(scale.get_offset(), -123_456);
}

#[test]
fn tare_mean_truncates_toward_zero() {
    assert_eq!(mean_samples(&[1, 2]), 1);
    assert_eq!(mean_samples(&[-1, -2]), -1);
    assert_eq!(mean_samples(&[5, 5, 5, 6]), 5);
    assert_eq!(mean_samples(&[8_388_607, 8_388_607]), 8_388_607);
    assert_eq!(mean_samples(&[-8_388_608]), -8_388_608);
}

#[test]
fn rounding_is_linear_in_the_raw_sample() {
    // scale factor 3/10: reading = round((raw - offset) * 3 / 10)
    let mut scale = Scale::new(3, 10);
    scale.set_offset(100);
    assert_eq!(scale.read_rounded(100), 0); // 0.0
    assert_eq!(scale.read_rounded(110), 3); // 3.0
    assert_eq!(scale.read_rounded(114), 4); // 4.2
    assert_eq!(scale.read_rounded(90), -3); // -3.0
}

#[test]
fn rounding_ties_go_away_from_zero() {
    // scale factor 1/2: a difference of 1 is exactly half a unit
    assert_eq!(round_scaled(1, 1, 2), 1);
    assert_eq!(round_scaled(-1, 1, 2), -1);
    assert_eq!(round_scaled(3, 1, 2), 2);
    assert_eq!(round_scaled(-3, 1, 2), -2);
    assert_eq!(round_scaled(2, 1, 2), 1);
    // scale factor 1/4: below the half rounds down, above rounds up
    assert_eq!(round_scaled(1, 1, 4), 0);
    assert_eq!(round_scaled(2, 1, 4), 1);
    assert_eq!(round_scaled(3, 1, 4), 1);
}

#[test]
fn freshly_tared_scale_reads_zero() {
    let mut scale = Scale::new(27, 10000);
    scale.tare(&[-5, -5, -5, -5]);
    assert_eq!(scale.read_rounded(-5), 0);
    let mut scale = Scale::new(1, 1);
    scale.tare(&[8_388_607]);
    assert_eq!(scale.read_rounded(8_388_607), 0);
}

#[test]
fn persisted_offset_resume_reproduces_readings() {
    // before sleep: fresh boot, tare, persist
    let mut scale = Scale::new(27, 10000);
    let mut cell = OffsetCell::power_on();
    let no_load = vec![4000; 32];
    startup(&mut scale, &mut cell, &no_load);
    assert_eq!(scale.get_offset(), 4000);
    assert_eq!(cell.get(), 4000);
    let before = scale.read_rounded(8000);

    // simulated sleep/wake: the cell survives, the scale is rebuilt
    let mut woken = Scale::new(27, 10000);
    woken.set_offset(cell.get());
    assert_eq!(woken.read_rounded(8000), before);
}

#[test]
fn startup_restores_without_retaring() {
    let mut scale = Scale::new(27, 10000);
    let mut cell = OffsetCell::power_on();
    cell.set(777);
    // the no-load run would give a different offset; a persisted value wins
    let no_load = vec![4000; 8];
    startup(&mut scale, &mut cell, &no_load);
    assert_eq!(scale.get_offset(), 777);
    assert_eq!(cell.get(), 777);
}

#[test]
fn sentinel_forces_fresh_tare() {
    assert!(matches!(boot_plan(OFFSET_SENTINEL), BootPlan::RunTare));
    assert!(matches!(boot_plan(777), BootPlan::Restore(777)));
    assert!(matches!(boot_plan(-1), BootPlan::Restore(-1)));

    let mut scale = Scale::new(27, 10000);
    let mut cell = OffsetCell::power_on();
    let no_load = vec![250; 4];
    startup(&mut scale, &mut cell, &no_load);
    assert_eq!(scale.get_offset(), 250);
    assert_eq!(cell.get(), 250);
}

#[test]
fn poll_step_spends_the_retry_budget() {
    assert!(matches!(poll_step(5, false), PollStep::Proceed));
    assert!(matches!(poll_step(0, false), PollStep::Proceed));
    assert!(matches!(poll_step(5, true), PollStep::Retry { attempts_left: 4 }));
    assert!(matches!(poll_step(0, true), PollStep::GiveUp));
}

#[test]
fn poll_until_ready_finds_the_first_low_level() {
    assert_eq!(poll_until_ready(&[true, true, false, true]), Ok(2));
    assert_eq!(poll_until_ready(&[false]), Ok(0));
}

#[test]
fn exhausted_poll_reports_read_timeout() {
    assert_eq!(poll_until_ready(&[true, true, true]), Err(ScaleError::ReadTimeout));
    assert_eq!(poll_until_ready(&[]), Err(ScaleError::ReadTimeout));
}

#[test]
fn end_to_end_calibrate_then_read() {
    // the lines shift out 0x000FA0 (4000) on two consecutive reads while
    // calibrating with scale factor 0.0027 = 27/10000 and one tare sample
    let mut scale = Scale::new(27, 10000);
    let first = read_transfer(&levels_of(0x000FA0));
    let second = read_transfer(&levels_of(0x000FA0));
    assert_eq!(first, 4000);
    assert_eq!(second, 4000);
    scale.tare(&[first]);
    assert_eq!(scale.get_offset(), 4000);

    // a subsequent read of 0x000FB4 (4020) weighs round(20 * 0.0027) = 0
    assert_eq!(scale.read_rounded_from_levels(&levels_of(0x000FB4)), 0);
}
