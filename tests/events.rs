use kobold::events::PlaytestConfig;

#[test]
fn playtest_budget_defaults_to_sixty() {
    let config = PlaytestConfig { objective: "explore".to_string(), max_duration_secs: None };
    assert_eq!(config.max_steps(), 60);
    let config = PlaytestConfig { objective: "explore".to_string(), max_duration_secs: Some(5) };
    assert_eq!(config.max_steps(), 5);
    let config = PlaytestConfig { objective: String::new(), max_duration_secs: Some((1u64 << 32) + 7) };
    assert_eq!(config.max_steps(), 7);
}
