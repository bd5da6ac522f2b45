use noise_cancellation::pipeline::{stage_plan, Stage};
use noise_cancellation::settings::EngineSettings;

#[test]
fn full_plan_runs_every_stage_in_order() {
    assert_eq!(
        stage_plan(true, true),
        vec![Stage::HighPass, Stage::Ultrasonic, Stage::Spectral, Stage::NoiseGate, Stage::LowPass]
    );
}

#[test]
fn plan_without_optional_stages() {
    assert_eq!(stage_plan(false, false), vec![Stage::HighPass, Stage::NoiseGate, Stage::LowPass]);
}

#[test]
fn plan_without_ultrasonic() {
    assert_eq!(
        stage_plan(false, true),
        vec![Stage::HighPass, Stage::Spectral, Stage::NoiseGate, Stage::LowPass]
    );
}

#[test]
fn plan_without_spectral() {
    assert_eq!(
        stage_plan(true, false),
        vec![Stage::HighPass, Stage::Ultrasonic, Stage::NoiseGate, Stage::LowPass]
    );
}

#[test]
fn plan_keeps_chain_order_for_every_switch_setting() {
    let rank = |s: &Stage| match s {
        Stage::HighPass => 0,
        Stage::Ultrasonic => 1,
        Stage::Spectral => 2,
        Stage::NoiseGate => 3,
        Stage::LowPass => 4,
    };
    for u in [false, true] {
        for s in [false, true] {
            let plan = stage_plan(u, s);
            assert_eq!(plan[0], Stage::HighPass);
            assert_eq!(*plan.last().unwrap(), Stage::LowPass);
            assert!(plan.contains(&Stage::NoiseGate));
            for w in plan.windows(2) {
                assert!(rank(&w[0]) < rank(&w[1]));
            }
        }
    }
}

#[test]
fn settings_plan_follows_switches() {
    let mut settings = EngineSettings::default();
    settings.enable_ultrasonic_cancellation = false;
    assert_eq!(
        settings.stage_plan(),
        vec![Stage::HighPass, Stage::Spectral, Stage::NoiseGate, Stage::LowPass]
    );
}
