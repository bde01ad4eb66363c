use issuance::{
    check_setup, displayed_reward, simulate, IssuanceConfig, IssuanceState, SetupError,
    StepOutcome, Termination,
};

const FRACTION: u64 = 720_720_000;
const MIN_REWARD: u64 = 60;
const SHIFT: u64 = 20;
const STEPS_PER_MONTH: u64 = 2880 * 30;
const STEP_LIMIT: u64 = 10 * 12 * 30 * 2880;

fn reference_config() -> IssuanceConfig {
    IssuanceConfig {
        target_supply: 1_350_000_000 * FRACTION,
        scale_fraction: FRACTION,
        min_reward_floor: MIN_REWARD,
        damping_shift: SHIFT,
    }
}

fn small_config() -> IssuanceConfig {
    IssuanceConfig {
        target_supply: 1000,
        scale_fraction: 5,
        min_reward_floor: 3,
        damping_shift: 2,
    }
}

#[test]
fn step_updates_supply_then_reward_from_new_gap() {
    let cfg = small_config();
    let mut st = IssuanceState {
        current_supply: 0,
        block_reward: 100,
    };
    let outcome = st.step(&cfg);
    // supply 0 + 100 = 100; gap 900; 900 >> 2 = 225; floor 3 * 5 = 15.
    assert_eq!(st.current_supply, 100);
    assert_eq!(st.block_reward, 240);
    assert_eq!(outcome, StepOutcome::Accumulating);
}

#[test]
fn step_pins_reward_at_floor_on_saturation() {
    let cfg = small_config();
    let mut st = IssuanceState {
        current_supply: 990,
        block_reward: 100,
    };
    let outcome = st.step(&cfg);
    assert_eq!(outcome, StepOutcome::Saturated);
    assert_eq!(st.current_supply, 1090);
    assert_eq!(st.block_reward, 15);
}

#[test]
fn supply_never_decreases_and_reward_never_drops_below_floor() {
    let cfg = small_config();
    let floor = cfg.floor_reward();
    let mut st = IssuanceState {
        current_supply: 0,
        block_reward: 50,
    };
    let mut prev_supply = st.current_supply;
    for _ in 0..200 {
        let outcome = st.step(&cfg);
        assert!(st.current_supply >= prev_supply);
        assert!(st.block_reward >= floor);
        prev_supply = st.current_supply;
        if outcome == StepOutcome::Saturated {
            break;
        }
    }
}

#[test]
fn reference_run_reaches_target_within_bound() {
    let cfg = reference_config();
    let initial_supply = 1_250_000_000 * FRACTION;
    let floor = MIN_REWARD * FRACTION;
    let initial_reward = ((cfg.target_supply - initial_supply) >> SHIFT) + floor;
    assert_eq!(displayed_reward(initial_reward, FRACTION), 155);
    let init = IssuanceState {
        current_supply: initial_supply,
        block_reward: initial_reward,
    };
    let out = simulate(&cfg, init, STEPS_PER_MONTH, STEP_LIMIT).unwrap();
    assert_eq!(out.termination, Termination::TargetReached);
    assert_eq!(out.steps_taken, 997_666);
    assert_eq!(out.final_state.block_reward, floor);
    assert_eq!(out.final_state.current_supply, 972_972_028_026_352_132);
    let displayed: Vec<u64> = out
        .reports
        .iter()
        .map(|r| displayed_reward(*r, FRACTION))
        .collect();
    assert_eq!(
        displayed,
        vec![143, 131, 121, 111, 102, 94, 87, 80, 74, 68, 62]
    );
    for r in out.reports.iter() {
        assert!(*r >= floor);
    }
}

#[test]
fn saturates_on_first_step_when_supply_already_at_target() {
    let cfg = small_config();
    let init = IssuanceState {
        current_supply: 1000,
        block_reward: 20,
    };
    let out = simulate(&cfg, init, 10, 50).unwrap();
    assert_eq!(out.termination, Termination::TargetReached);
    assert_eq!(out.steps_taken, 1);
    assert_eq!(out.final_state.current_supply, 1020);
    assert_eq!(out.final_state.block_reward, 15);
    assert!(out.reports.is_empty());
}

#[test]
fn saturates_on_first_step_when_supply_above_target() {
    let cfg = small_config();
    let init = IssuanceState {
        current_supply: 5000,
        block_reward: 15,
    };
    let out = simulate(&cfg, init, 10, 50).unwrap();
    assert_eq!(out.termination, Termination::TargetReached);
    assert_eq!(out.steps_taken, 1);
    assert_eq!(out.final_state.current_supply, 5015);
    assert_eq!(out.final_state.block_reward, 15);
}

#[test]
fn report_on_saturating_step_shows_floor_reward() {
    let cfg = IssuanceConfig {
        target_supply: 100,
        scale_fraction: 1,
        min_reward_floor: 1,
        damping_shift: 0,
    };
    let init = IssuanceState {
        current_supply: 0,
        block_reward: 10,
    };
    // step 1: supply 10, reward 91; step 2: supply 101, saturated, reward 1.
    // The report due at step 2 must show the terminal floor reward.
    let out = simulate(&cfg, init, 2, 10).unwrap();
    assert_eq!(out.termination, Termination::TargetReached);
    assert_eq!(out.steps_taken, 2);
    assert_eq!(out.final_state.current_supply, 101);
    assert_eq!(out.reports, vec![1]);
}

#[test]
fn exhaustion_is_distinct_from_reaching_the_target() {
    let cfg = IssuanceConfig {
        target_supply: 10_000,
        scale_fraction: 1,
        min_reward_floor: 1,
        damping_shift: 63,
    };
    let init = IssuanceState {
        current_supply: 0,
        block_reward: 1,
    };
    let out = simulate(&cfg, init, 3, 10).unwrap();
    assert_eq!(out.termination, Termination::Exhausted);
    assert_eq!(out.steps_taken, 10);
    assert_eq!(out.final_state.current_supply, 10);
    assert_eq!(out.reports, vec![1, 1, 1]);
}

#[test]
fn setup_rejections_name_the_first_failing_check() {
    let cfg = small_config();
    let ok_state = IssuanceState {
        current_supply: 0,
        block_reward: 50,
    };
    assert_eq!(check_setup(&cfg, &ok_state, 10, 50), Ok(()));

    let shift_cfg = IssuanceConfig {
        damping_shift: 64,
        ..cfg
    };
    assert_eq!(
        check_setup(&shift_cfg, &ok_state, 10, 50),
        Err(SetupError::DampingShiftTooLarge)
    );

    let floor_cfg = IssuanceConfig {
        scale_fraction: u64::MAX,
        min_reward_floor: 2,
        ..cfg
    };
    assert_eq!(
        check_setup(&floor_cfg, &ok_state, 10, 50),
        Err(SetupError::ScaledFloorOverflow)
    );

    let target_cfg = IssuanceConfig {
        target_supply: u64::MAX,
        ..cfg
    };
    assert_eq!(
        check_setup(&target_cfg, &ok_state, 10, 50),
        Err(SetupError::TargetOverflow)
    );

    let low_reward = IssuanceState {
        current_supply: 0,
        block_reward: 14,
    };
    assert_eq!(
        check_setup(&cfg, &low_reward, 10, 50),
        Err(SetupError::RewardBelowFloor)
    );

    let huge_state = IssuanceState {
        current_supply: u64::MAX,
        block_reward: 50,
    };
    assert_eq!(
        check_setup(&cfg, &huge_state, 10, 50),
        Err(SetupError::SupplyOverflow)
    );

    assert_eq!(
        check_setup(&cfg, &ok_state, 0, 50),
        Err(SetupError::ZeroReportCadence)
    );
    assert_eq!(
        check_setup(&cfg, &ok_state, 10, 0),
        Err(SetupError::ZeroStepLimit)
    );

    assert!(simulate(&shift_cfg, ok_state, 10, 50).is_err());
}

#[test]
fn displayed_reward_truncates_toward_zero() {
    assert_eq!(displayed_reward(111_976_415_332, FRACTION), 155);
    assert_eq!(displayed_reward(86_486_400_000, FRACTION), 120);
    assert_eq!(displayed_reward(719_999_999, 720_720_000), 0);
    assert_eq!(displayed_reward(0, 1), 0);
}
