//! Integer-only simulation of a monetary supply that grows toward a fixed
//! target under a negative-feedback block reward.
//!
//! Each step adds the current block reward to the supply and then recomputes
//! the reward from the remaining gap to the target: the gap is divided by a
//! power of two (the damping shift) and a fixed floor is added, so the reward
//! decays toward the floor as the supply approaches the target. The run ends
//! in the same step that the supply reaches the target, with the reward pinned
//! at the floor, or when a caller-supplied step bound is exhausted.

use vstd::prelude::*;

verus! {

use vstd::arithmetic::power2::pow2;
use vstd::arithmetic::power2::lemma_pow2_pos;
use vstd::arithmetic::div_mod::lemma_div_pos_is_pos;
use vstd::arithmetic::div_mod::lemma_div_nonincreasing;
use vstd::bits::lemma_u64_shr_is_div;
use vstd::arithmetic::div_mod::lemma_fundamental_div_mod_converse_div;
use vstd::arithmetic::mul::lemma_mul_is_distributive_add_other_way;

/// Fixed parameters of one simulation run.
#[derive(Clone, Copy, Debug)]
pub struct IssuanceConfig {
    /// Supply level at which issuance stops, in scaled units.
    pub target_supply: u64,
    /// Denominator that carries fractional precision through integer
    /// arithmetic; rewards are displayed as `block_reward / scale_fraction`.
    pub scale_fraction: u64,
    /// Reward value, before scaling, that the loop converges to and never
    /// drops below.
    pub min_reward_floor: u64,
    /// Number of bits the remaining gap is shifted right by when computing
    /// the next reward; controls convergence speed.
    pub damping_shift: u64,
}

impl IssuanceConfig {
    /// The reward floor carried in scaled units.
    pub open spec fn scaled_floor(self) -> int {
        self.min_reward_floor * self.scale_fraction
    }

    /// The feedback law. While the supply is short of the target, the next
    /// reward is the remaining gap divided by `2^damping_shift`, plus the
    /// scaled floor; once the target is reached it is pinned at the floor.
    pub open spec fn next_reward(self, supply: int) -> int {
        if supply < self.target_supply {
            (self.target_supply - supply) / (pow2(self.damping_shift as nat) as int)
                + self.scaled_floor()
        } else {
            self.scaled_floor()
        }
    }

    /// Machine-level side conditions: the damping shift is a valid `u64`
    /// shift amount, and both the scaled floor and its sum with the target
    /// fit in `u64` (the latter bounds every reward the feedback law can
    /// produce).
    pub open spec fn wf(self) -> bool {
        &&& self.damping_shift < 64
        &&& self.scaled_floor() <= u64::MAX
        &&& self.target_supply + self.scaled_floor() <= u64::MAX
    }

    /// The reward floor in scaled units, as an executable value.
    pub fn floor_reward(&self) -> (r: u64)
        requires
            self.wf(),
        ensures
            r == self.scaled_floor(),
    {
        self.min_reward_floor * self.scale_fraction
    }
}

/// Mutable state of a simulation run.
#[derive(Clone, Copy, Debug, PartialEq, Eq, Structural)]
pub struct IssuanceState {
    /// Total supply issued so far, in scaled units; non-decreasing.
    pub current_supply: u64,
    /// Amount added to the supply on the next step, in scaled units.
    pub block_reward: u64,
}

impl IssuanceState {
    /// The next supply update cannot overflow. Every accumulating step
    /// re-establishes this on a well-formed configuration, because the
    /// recomputed reward never exceeds the remaining gap plus the scaled
    /// floor.
    pub open spec fn steppable(self) -> bool {
        self.current_supply + self.block_reward <= u64::MAX
    }
}

/// Whether a step left the supply short of the target or reached it.
#[derive(Clone, Copy, Debug, PartialEq, Eq, Structural)]
pub enum StepOutcome {
    /// The supply is still below the target; the loop keeps running.
    Accumulating,
    /// The supply reached the target; the reward is pinned at the scaled
    /// floor and no further step runs.
    Saturated,
}

/// One transition of the issuance state machine, as a mathematical function:
/// the reward is added to the supply, then the reward is recomputed from the
/// updated gap by the feedback law.
pub open spec fn spec_step(cfg: IssuanceConfig, s: IssuanceState) -> IssuanceState {
    let supply = (s.current_supply + s.block_reward) as u64;
    IssuanceState {
        current_supply: supply,
        block_reward: cfg.next_reward(supply as int) as u64,
    }
}

/// The state reached after `n` transitions from `init`.
pub open spec fn state_at(cfg: IssuanceConfig, init: IssuanceState, n: nat) -> IssuanceState
    decreases n,
{
    if n == 0 {
        init
    } else {
        spec_step(cfg, state_at(cfg, init, (n - 1) as nat))
    }
}

/// One step of a steppable state never decreases the supply, always leaves
/// the reward at or above the scaled floor, and, while the target is still
/// ahead, keeps the state inside the overflow-free envelope.
pub proof fn lemma_step_bounds(cfg: IssuanceConfig, s: IssuanceState)
    requires
        cfg.wf(),
        s.steppable(),
    ensures
        spec_step(cfg, s).current_supply == s.current_supply + s.block_reward,
        spec_step(cfg, s).current_supply >= s.current_supply,
        spec_step(cfg, s).block_reward == cfg.next_reward(spec_step(cfg, s).current_supply as int),
        spec_step(cfg, s).block_reward >= cfg.scaled_floor(),
        spec_step(cfg, s).current_supply < cfg.target_supply ==> spec_step(cfg, s).current_supply
            + spec_step(cfg, s).block_reward <= cfg.target_supply + cfg.scaled_floor(),
        spec_step(cfg, s).current_supply < cfg.target_supply ==> spec_step(cfg, s).steppable(),
{
    let supply = s.current_supply + s.block_reward;
    if supply < cfg.target_supply {
        let gap = cfg.target_supply - supply;
        let p = pow2(cfg.damping_shift as nat) as int;
        lemma_pow2_pos(cfg.damping_shift as nat);
        lemma_div_pos_is_pos(gap, p);
        lemma_div_nonincreasing(gap, p);
    }
}

impl IssuanceState {
    /// Advance the simulation by one step: add the reward to the supply, then
    /// recompute the reward from the updated gap. Reaching the target pins
    /// the reward at the scaled floor and reports `Saturated`; the caller
    /// must not step a saturated state again.
    pub fn step(&mut self, cfg: &IssuanceConfig) -> (outcome: StepOutcome)
        requires
            cfg.wf(),
            old(self).steppable(),
        ensures
            *final(self) == spec_step(*cfg, *old(self)),
            final(self).current_supply == old(self).current_supply + old(self).block_reward,
            final(self).current_supply >= old(self).current_supply,
            final(self).block_reward == cfg.next_reward(final(self).current_supply as int),
            final(self).block_reward >= cfg.scaled_floor(),
            outcome == StepOutcome::Saturated <==> final(self).current_supply
                >= cfg.target_supply,
            outcome == StepOutcome::Accumulating ==> final(self).steppable(),
    {
        proof {
            lemma_step_bounds(*cfg, *self);
        }
        self.current_supply = self.current_supply + self.block_reward;
        if self.current_supply < cfg.target_supply {
            let gap: u64 = cfg.target_supply - self.current_supply;
            let damped: u64 = gap >> cfg.damping_shift;
            proof {
                lemma_u64_shr_is_div(gap, cfg.damping_shift);
                lemma_pow2_pos(cfg.damping_shift as nat);
                lemma_div_nonincreasing(gap as int, pow2(cfg.damping_shift as nat) as int);
            }
            self.block_reward = damped + cfg.floor_reward();
            StepOutcome::Accumulating
        } else {
            self.block_reward = cfg.floor_reward();
            StepOutcome::Saturated
        }
    }
}

/// How a run ended.
#[derive(Clone, Copy, Debug, PartialEq, Eq, Structural)]
pub enum Termination {
    /// The supply reached the target; the loop stopped in that same step.
    TargetReached,
    /// The step bound ran out before the supply reached the target.
    Exhausted,
}

/// Everything a run reports back to its caller.
#[derive(Debug)]
pub struct RunResult {
    /// State after the last executed step.
    pub final_state: IssuanceState,
    /// The reward as it stood at the end of each full reporting period, in
    /// scaled units and in order.
    pub reports: Vec<u64>,
    /// Whether the target was reached or the step bound ran out.
    pub termination: Termination,
    /// Number of steps actually executed.
    pub steps_taken: u64,
}

/// Run the issuance loop from `init` until the supply reaches the target or
/// `step_limit` steps have run, recording the reward once every
/// `report_cadence` steps. A report that falls on the step that reaches the
/// target reflects the terminal floor reward, since the reward is recomputed
/// before the report is taken.
pub fn run(
    cfg: &IssuanceConfig,
    init: IssuanceState,
    report_cadence: u64,
    step_limit: u64,
) -> (r: RunResult)
    requires
        cfg.wf(),
        init.steppable(),
        init.block_reward >= cfg.scaled_floor(),
        report_cadence >= 1,
        step_limit >= 1,
    ensures
        1 <= r.steps_taken <= step_limit,
        r.final_state == state_at(*cfg, init, r.steps_taken as nat),
        r.termination == Termination::TargetReached <==> r.final_state.current_supply
            >= cfg.target_supply,
        r.termination == Termination::TargetReached ==> r.final_state.block_reward
            == cfg.scaled_floor(),
        r.termination == Termination::Exhausted ==> r.steps_taken == step_limit,
        forall|n: int|
            1 <= n < r.steps_taken ==> #[trigger] state_at(*cfg, init, n as nat).current_supply
                < cfg.target_supply,
        forall|n: int|
            0 <= n < r.steps_taken ==> #[trigger] state_at(*cfg, init, (n + 1) as nat).current_supply
                >= state_at(*cfg, init, n as nat).current_supply,
        r.final_state.current_supply >= init.current_supply,
        r.final_state.block_reward >= cfg.scaled_floor(),
        forall|n: int|
            1 <= n <= r.steps_taken ==> #[trigger] state_at(*cfg, init, n as nat).block_reward
                >= cfg.scaled_floor(),
        r.reports@.len() == r.steps_taken as int / report_cadence as int,
        forall|i: int|
            0 <= i < r.reports@.len() ==> r.reports@[i] == state_at(
                *cfg,
                init,
                ((i + 1) * report_cadence as int) as nat,
            ).block_reward,
        forall|i: int| 0 <= i < r.reports@.len() ==> r.reports@[i] >= cfg.scaled_floor(),
        init.current_supply >= cfg.target_supply ==> r.steps_taken == 1 && r.termination
            == Termination::TargetReached,
{
    let mut state = init;
    let mut steps: u64 = 0;
    let mut since_report: u64 = 0;
    let mut reports: Vec<u64> = Vec::new();
    let mut saturated = false;
    proof {
        vstd::arithmetic::mul::lemma_mul_basics(report_cadence as int);
    }
    while !saturated && steps < step_limit
        invariant
            cfg.wf(),
            init.steppable(),
            init.block_reward >= cfg.scaled_floor(),
            report_cadence >= 1,
            step_limit >= 1,
            steps <= step_limit,
            state == state_at(*cfg, init, steps as nat),
            saturated <==> 1 <= steps && state.current_supply >= cfg.target_supply,
            saturated ==> state.block_reward == cfg.scaled_floor(),
            !saturated ==> state.steppable(),
            state.block_reward >= cfg.scaled_floor(),
            state.current_supply >= init.current_supply,
            forall|n: int|
                1 <= n < steps ==> #[trigger] state_at(*cfg, init, n as nat).current_supply
                    < cfg.target_supply,
            forall|n: int|
                0 <= n < steps ==> #[trigger] state_at(*cfg, init, (n + 1) as nat).current_supply
                    >= state_at(*cfg, init, n as nat).current_supply,
            forall|n: int|
                1 <= n <= steps ==> #[trigger] state_at(*cfg, init, n as nat).block_reward
                    >= cfg.scaled_floor(),
            since_report < report_cadence,
            reports@.len() * report_cadence + since_report == steps,
            forall|i: int|
                0 <= i < reports@.len() ==> reports@[i] == state_at(
                    *cfg,
                    init,
                    ((i + 1) * report_cadence as int) as nat,
                ).block_reward,
            forall|i: int| 0 <= i < reports@.len() ==> reports@[i] >= cfg.scaled_floor(),
            init.current_supply >= cfg.target_supply ==> steps == 0 || (saturated && steps == 1),
        decreases step_limit - steps,
    {
        let ghost prev_steps = steps;
        let outcome = state.step(cfg);
        steps = steps + 1;
        since_report = since_report + 1;
        proof {
            assert(state_at(*cfg, init, steps as nat) == spec_step(
                *cfg,
                state_at(*cfg, init, prev_steps as nat),
            ));
        }
        if since_report == report_cadence {
            proof {
                lemma_mul_is_distributive_add_other_way(
                    report_cadence as int,
                    reports@.len() as int,
                    1,
                );
            }
            reports.push(state.block_reward);
            since_report = 0;
        }
        if outcome == StepOutcome::Saturated {
            saturated = true;
        }
    }
    proof {
        lemma_fundamental_div_mod_converse_div(
            steps as int,
            report_cadence as int,
            reports@.len() as int,
            since_report as int,
        );
    }
    RunResult {
        final_state: state,
        reports,
        termination: if saturated {
            Termination::TargetReached
        } else {
            Termination::Exhausted
        },
        steps_taken: steps,
    }
}

/// Why a simulation setup was rejected before the loop started.
#[derive(Clone, Copy, Debug, PartialEq, Eq, Structural)]
pub enum SetupError {
    /// The damping shift is not a valid `u64` shift amount.
    DampingShiftTooLarge,
    /// `min_reward_floor * scale_fraction` does not fit in `u64`.
    ScaledFloorOverflow,
    /// `target_supply` plus the scaled floor does not fit in `u64`, so a
    /// recomputed reward could overflow.
    TargetOverflow,
    /// The initial reward already sits below the scaled floor, which the loop
    /// would otherwise never drop under.
    RewardBelowFloor,
    /// The first supply update would overflow `u64`.
    SupplyOverflow,
    /// A reporting period of zero steps was requested.
    ZeroReportCadence,
    /// A run of zero steps was requested.
    ZeroStepLimit,
}

/// The setup checks, in the order they are applied: configuration
/// well-formedness first, then the initial state against the configuration,
/// then the run parameters.
pub open spec fn spec_check_setup(
    cfg: IssuanceConfig,
    init: IssuanceState,
    report_cadence: u64,
    step_limit: u64,
) -> Result<(), SetupError> {
    if cfg.damping_shift >= 64 {
        Err(SetupError::DampingShiftTooLarge)
    } else if cfg.scaled_floor() > u64::MAX {
        Err(SetupError::ScaledFloorOverflow)
    } else if cfg.target_supply + cfg.scaled_floor() > u64::MAX {
        Err(SetupError::TargetOverflow)
    } else if init.block_reward < cfg.scaled_floor() {
        Err(SetupError::RewardBelowFloor)
    } else if !init.steppable() {
        Err(SetupError::SupplyOverflow)
    } else if report_cadence == 0 {
        Err(SetupError::ZeroReportCadence)
    } else if step_limit == 0 {
        Err(SetupError::ZeroStepLimit)
    } else {
        Ok(())
    }
}

/// Reject a degenerate setup before the loop starts: reports the first check
/// that fails, and succeeds exactly when the configuration is well-formed,
/// the initial reward is at or above the scaled floor, the first supply
/// update cannot overflow, and the run parameters are non-zero.
pub fn check_setup(
    cfg: &IssuanceConfig,
    init: &IssuanceState,
    report_cadence: u64,
    step_limit: u64,
) -> (r: Result<(), SetupError>)
    ensures
        r == spec_check_setup(*cfg, *init, report_cadence, step_limit),
        r is Ok <==> {
            &&& cfg.wf()
            &&& init.block_reward >= cfg.scaled_floor()
            &&& init.steppable()
            &&& report_cadence >= 1
            &&& step_limit >= 1
        },
{
    if cfg.damping_shift >= 64 {
        return Err(SetupError::DampingShiftTooLarge);
    }
    proof {
        vstd::arithmetic::mul::lemma_mul_upper_bound(
            cfg.min_reward_floor as int,
            u64::MAX as int,
            cfg.scale_fraction as int,
            u64::MAX as int,
        );
        assert((u64::MAX as int) * (u64::MAX as int) <= u128::MAX as int) by (nonlinear_arith);
    }
    let scaled = (cfg.min_reward_floor as u128) * (cfg.scale_fraction as u128);
    if scaled > u64::MAX as u128 {
        return Err(SetupError::ScaledFloorOverflow);
    }
    let floor: u64 = scaled as u64;
    if cfg.target_supply > u64::MAX - floor {
        return Err(SetupError::TargetOverflow);
    }
    if init.block_reward < floor {
        return Err(SetupError::RewardBelowFloor);
    }
    if init.current_supply > u64::MAX - init.block_reward {
        return Err(SetupError::SupplyOverflow);
    }
    if report_cadence == 0 {
        return Err(SetupError::ZeroReportCadence);
    }
    if step_limit == 0 {
        return Err(SetupError::ZeroStepLimit);
    }
    Ok(())
}

/// Validate a setup and, when it is accepted, run the issuance loop on it.
/// Rejections carry the first failing check; an accepted setup runs with all
/// of [`run`]'s guarantees.
pub fn simulate(
    cfg: &IssuanceConfig,
    init: IssuanceState,
    report_cadence: u64,
    step_limit: u64,
) -> (r: Result<RunResult, SetupError>)
    ensures
        r matches Err(e) ==> Err::<(), SetupError>(e) == spec_check_setup(
            *cfg,
            init,
            report_cadence,
            step_limit,
        ),
        r is Ok <==> spec_check_setup(*cfg, init, report_cadence, step_limit) is Ok,
        r matches Ok(out) ==> {
            &&& 1 <= out.steps_taken <= step_limit
            &&& out.final_state == state_at(*cfg, init, out.steps_taken as nat)
            &&& (out.termination == Termination::TargetReached <==> out.final_state.current_supply
                >= cfg.target_supply)
            &&& (out.termination == Termination::TargetReached ==> out.final_state.block_reward
                == cfg.scaled_floor())
            &&& (out.termination == Termination::Exhausted ==> out.steps_taken == step_limit)
            &&& out.final_state.current_supply >= init.current_supply
            &&& out.final_state.block_reward >= cfg.scaled_floor()
            &&& (forall|n: int|
                1 <= n < out.steps_taken ==> #[trigger] state_at(
                    *cfg,
                    init,
                    n as nat,
                ).current_supply < cfg.target_supply)
            &&& (forall|n: int|
                0 <= n < out.steps_taken ==> #[trigger] state_at(
                    *cfg,
                    init,
                    (n + 1) as nat,
                ).current_supply >= state_at(*cfg, init, n as nat).current_supply)
            &&& out.reports@.len() == out.steps_taken as int / report_cadence as int
            &&& (forall|i: int|
                0 <= i < out.reports@.len() ==> out.reports@[i] == state_at(
                    *cfg,
                    init,
                    ((i + 1) * report_cadence as int) as nat,
                ).block_reward)
            &&& (forall|i: int| 0 <= i < out.reports@.len() ==> out.reports@[i]
                >= cfg.scaled_floor())
            &&& (init.current_supply >= cfg.target_supply ==> out.steps_taken == 1
                && out.termination == Termination::TargetReached)
        },
{
    match check_setup(cfg, &init, report_cadence, step_limit) {
        Ok(()) => Ok(run(cfg, init, report_cadence, step_limit)),
        Err(e) => Err(e),
    }
}

/// The reward as a trace line shows it: scaled units divided by the scale
/// fraction, truncated toward zero.
pub fn displayed_reward(reward: u64, scale_fraction: u64) -> (r: u64)
    requires
        scale_fraction >= 1,
    ensures
        r == reward as int / scale_fraction as int,
{
    reward / scale_fraction
}

} // verus!
