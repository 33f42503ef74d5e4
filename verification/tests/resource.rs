use pincher_core::resource::{control_action, runtime_mode, ControlAction, RuntimeMode};

#[test]
fn normal_mode_at_low_ram() {
    assert_eq!(runtime_mode(0.50f64.to_bits()), RuntimeMode::Normal);
}

#[test]
fn critical_mode_at_high_ram() {
    assert_eq!(runtime_mode(0.95f64.to_bits()), RuntimeMode::Critical);
}

#[test]
fn light_mode_at_moderate_ram() {
    assert_eq!(runtime_mode(0.85f64.to_bits()), RuntimeMode::Light);
}

#[test]
fn tick_recommends_unload_at_95_percent() {
    // First tick of the default controller (kp 2.0, ki 0.1, kd 0.5, target
    // 0.75) at 95 % RAM: error = integral = derivative = 0.2.
    let error = 0.95f64 - 0.75;
    let output = 2.0 * error + 0.1 * error + 0.5 * error;
    assert_eq!(control_action(output.to_bits(), 0.95f64.to_bits()), ControlAction::UnloadLLM);
}

#[test]
fn mode_thresholds_are_strict() {
    assert_eq!(runtime_mode(0.90f64.to_bits()), RuntimeMode::Light);
    assert_eq!(runtime_mode(0.80f64.to_bits()), RuntimeMode::Normal);
    assert_eq!(runtime_mode(0.0f64.to_bits()), RuntimeMode::Normal);
    assert_eq!(runtime_mode((-0.0f64).to_bits()), RuntimeMode::Normal);
    assert_eq!(runtime_mode(f64::NAN.to_bits()), RuntimeMode::Normal);
    assert_eq!(runtime_mode(f64::INFINITY.to_bits()), RuntimeMode::Critical);
}

#[test]
fn control_actions_by_output() {
    let r = 0.5f64.to_bits();
    assert_eq!(control_action(0.3f64.to_bits(), r), ControlAction::ReduceContextWindow);
    assert_eq!(control_action(0.15f64.to_bits(), r), ControlAction::Maintain);
    assert_eq!(control_action(0.0f64.to_bits(), r), ControlAction::Maintain);
    assert_eq!(control_action((-0.15f64).to_bits(), r), ControlAction::Maintain);
    assert_eq!(control_action((-0.2f64).to_bits(), r), ControlAction::LoadLLM);
    assert_eq!(control_action(f64::NAN.to_bits(), r), ControlAction::Maintain);
}
