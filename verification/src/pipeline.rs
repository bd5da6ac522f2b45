use vstd::prelude::*;

verus! {

/// One stage of the processing chain.
#[derive(Debug, Clone, Copy, PartialEq, Eq, Structural)]
pub enum Stage {
    /// Removes DC and very low frequencies.
    HighPass,
    /// Suppresses the ultrasonic band.
    Ultrasonic,
    /// Frame-based spectral gating.
    Spectral,
    /// Suppresses audio whose envelope is below a threshold.
    NoiseGate,
    /// Anti-aliasing before output.
    LowPass,
}

/// The complete chain, in the order in which audio runs through it:
/// high-pass, ultrasonic, spectral gate, noise gate, low-pass.
pub open spec fn full_chain() -> Seq<Stage> {
    seq![Stage::HighPass, Stage::Ultrasonic, Stage::Spectral, Stage::NoiseGate, Stage::LowPass]
}

/// The position of a stage in the complete chain.
pub open spec fn stage_rank(s: Stage) -> int {
    match s {
        Stage::HighPass => 0,
        Stage::Ultrasonic => 1,
        Stage::Spectral => 2,
        Stage::NoiseGate => 3,
        Stage::LowPass => 4,
    }
}

/// Whether a stage runs under the given switches: the ultrasonic filter and the
/// spectral gate can be switched off, the other three stages always run.
pub open spec fn stage_enabled(s: Stage, enable_ultrasonic: bool, enable_spectral: bool) -> bool {
    match s {
        Stage::Ultrasonic => enable_ultrasonic,
        Stage::Spectral => enable_spectral,
        _ => true,
    }
}

/// The stages that run, in order: the complete chain with the switched-off
/// stages left out.
pub open spec fn spec_stage_plan(enable_ultrasonic: bool, enable_spectral: bool) -> Seq<Stage> {
    full_chain().filter(|s: Stage| stage_enabled(s, enable_ultrasonic, enable_spectral))
}

/// The stages that one call of the processor runs over a buffer, in order.
pub fn stage_plan(enable_ultrasonic: bool, enable_spectral: bool) -> (plan: Vec<Stage>)
    ensures
        plan@ == spec_stage_plan(enable_ultrasonic, enable_spectral),
{
    let mut plan: Vec<Stage> = Vec::new();
    plan.push(Stage::HighPass);
    if enable_ultrasonic {
        plan.push(Stage::Ultrasonic);
    }
    if enable_spectral {
        plan.push(Stage::Spectral);
    }
    plan.push(Stage::NoiseGate);
    plan.push(Stage::LowPass);
    proof {
        lemma_plan_explicit(enable_ultrasonic, enable_spectral);
    }
    plan
}

proof fn lemma_plan_explicit(u: bool, s: bool)
    ensures
        spec_stage_plan(u, s) == seq![Stage::HighPass]
            + (if u { seq![Stage::Ultrasonic] } else { Seq::<Stage>::empty() })
            + (if s { seq![Stage::Spectral] } else { Seq::<Stage>::empty() })
            + seq![Stage::NoiseGate, Stage::LowPass],
{
    reveal_with_fuel(Seq::<_>::filter, 6);
    let f = |st: Stage| stage_enabled(st, u, s);
    let c = full_chain();
    assert(c.drop_last() =~= seq![Stage::HighPass, Stage::Ultrasonic, Stage::Spectral, Stage::NoiseGate]);
    assert(c.drop_last().drop_last() =~= seq![Stage::HighPass, Stage::Ultrasonic, Stage::Spectral]);
    assert(c.drop_last().drop_last().drop_last() =~= seq![Stage::HighPass, Stage::Ultrasonic]);
    assert(c.drop_last().drop_last().drop_last().drop_last() =~= seq![Stage::HighPass]);
    assert(c.drop_last().drop_last().drop_last().drop_last().drop_last() =~= Seq::<Stage>::empty());
    assert(spec_stage_plan(u, s) =~= seq![Stage::HighPass]
            + (if u { seq![Stage::Ultrasonic] } else { Seq::<Stage>::empty() })
            + (if s { seq![Stage::Spectral] } else { Seq::<Stage>::empty() })
            + seq![Stage::NoiseGate, Stage::LowPass]);
}

/// Whatever the switches, the stages that run keep the order of the complete
/// chain (each comes strictly after the one before it), the high-pass filter
/// comes first, the low-pass filter last, the noise gate always runs, and a
/// stage runs exactly when it is enabled.
pub proof fn lemma_plan_follows_chain(enable_ultrasonic: bool, enable_spectral: bool)
    ensures
        ({
            let plan = spec_stage_plan(enable_ultrasonic, enable_spectral);
            &&& forall|i: int, j: int|
                0 <= i < j < plan.len() ==> stage_rank(#[trigger] plan[i]) < stage_rank(#[trigger] plan[j])
            &&& plan.len() >= 3
            &&& plan[0] == Stage::HighPass
            &&& plan.last() == Stage::LowPass
            &&& plan.contains(Stage::NoiseGate)
            &&& forall|s: Stage| #[trigger] plan.contains(s) <==> stage_enabled(s, enable_ultrasonic, enable_spectral)
        }),
{
    lemma_plan_explicit(enable_ultrasonic, enable_spectral);
    let plan = spec_stage_plan(enable_ultrasonic, enable_spectral);
    assert(plan[plan.len() - 2] == Stage::NoiseGate);
    assert forall|s: Stage| #[trigger] plan.contains(s) <==> stage_enabled(s, enable_ultrasonic, enable_spectral) by {
        if stage_enabled(s, enable_ultrasonic, enable_spectral) {
            match s {
                Stage::HighPass => assert(plan[0] == s),
                Stage::Ultrasonic => assert(plan[1] == s),
                Stage::Spectral => assert(plan[plan.len() - 3] == s),
                Stage::NoiseGate => assert(plan[plan.len() - 2] == s),
                Stage::LowPass => assert(plan[plan.len() - 1] == s),
            }
        }
    }
}

/// The order of the stages that run, named stage by stage: nothing runs before
/// the high-pass filter or after the low-pass filter, the ultrasonic filter
/// runs before the spectral gate, both run before the noise gate, and no stage
/// runs twice.
pub proof fn lemma_plan_order_by_name(enable_ultrasonic: bool, enable_spectral: bool)
    ensures
        ({
            let plan = spec_stage_plan(enable_ultrasonic, enable_spectral);
            forall|i: int, j: int| 0 <= i < j < plan.len() ==> {
                &&& #[trigger] plan[i] != #[trigger] plan[j]
                &&& plan[j] != Stage::HighPass
                &&& plan[i] != Stage::LowPass
                &&& !(plan[i] == Stage::Spectral && plan[j] == Stage::Ultrasonic)
                &&& !(plan[i] == Stage::NoiseGate && (plan[j] == Stage::Ultrasonic || plan[j] == Stage::Spectral))
            }
        }),
{
    lemma_plan_explicit(enable_ultrasonic, enable_spectral);
}

} // verus!
