use temp_cleaner::config::build_config;

#[test]
fn build_config_takes_a_parsed_cutoff() {
    let day: u128 = 86_400_000_000_000;
    let cfg = build_config(Some(Ok(day)), false, false, None, false, false).unwrap();
    assert_eq!(cfg.since, Some(day));
}

#[test]
fn build_config_propagates_a_parse_failure() {
    let r = build_config(
        Some(Err(String::from("expected number at 0"))),
        false,
        false,
        None,
        false,
        false,
    );
    match r {
        Err(message) => assert_eq!(message, "expected number at 0"),
        Ok(_) => panic!("a failed parse must fail the configuration"),
    }
}

#[test]
fn build_config_without_cutoff_disables_filtering() {
    let cfg = build_config(
        None,
        true,
        false,
        Some(String::from("clean.log")),
        true,
        false,
    )
    .unwrap();
    assert_eq!(cfg.since, None);
    assert!(cfg.dry_run);
    assert!(!cfg.install_task);
    assert_eq!(cfg.log_path.as_deref(), Some("clean.log"));
    assert!(cfg.quiet);
    assert!(!cfg.verbose);
}

#[test]
fn build_config_keeps_the_flags_beside_a_cutoff() {
    let cfg = build_config(Some(Ok(600_000_000_000)), false, true, None, false, true).unwrap();
    assert_eq!(cfg.since, Some(600_000_000_000));
    assert!(!cfg.dry_run);
    assert!(cfg.install_task);
    assert!(cfg.verbose);
}
