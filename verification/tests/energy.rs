use pincher_core::energy::EnergyPolicy;

#[test]
fn policy_follows_the_battery() {
    assert_eq!(EnergyPolicy::auto_policy(false, 0.05f64.to_bits()), EnergyPolicy::Performance);
    assert_eq!(EnergyPolicy::auto_policy(true, 0.8f64.to_bits()), EnergyPolicy::Balanced);
    assert_eq!(EnergyPolicy::auto_policy(true, 0.5f64.to_bits()), EnergyPolicy::Saver);
    assert_eq!(EnergyPolicy::auto_policy(true, 0.21f64.to_bits()), EnergyPolicy::Saver);
    assert_eq!(EnergyPolicy::auto_policy(true, 0.2f64.to_bits()), EnergyPolicy::Emergency);
    assert_eq!(EnergyPolicy::auto_policy(true, 0.0f64.to_bits()), EnergyPolicy::Emergency);
    assert_eq!(EnergyPolicy::auto_policy(true, f64::NAN.to_bits()), EnergyPolicy::Emergency);
}
