use podcast_admin::report::error_report;

#[test]
fn report_without_causes() {
    assert_eq!(error_report("Invalid issuer URL", &Vec::new()), "ERROR: Invalid issuer URL");
}

#[test]
fn report_lists_every_cause_in_order() {
    let causes = vec!["request failed".to_string(), "connection refused".to_string()];
    assert_eq!(
        error_report("Failed to discover OpenID Provider", &causes),
        "ERROR: Failed to discover OpenID Provider\n    caused by: request failed\n    caused by: connection refused"
    );
}
