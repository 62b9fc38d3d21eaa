use andon::{CronSource, Span};

#[test]
fn valid_six_field_expression_is_accepted() {
    let c = CronSource::new(
        "daily-window".to_string(),
        "0 0 8 * * *",
        Span::from_secs(8 * 3600),
        vec!["my-sink".to_string()],
    )
    .expect("valid cron");
    assert_eq!(c.name(), "daily-window");
    assert_eq!(c.sink_names(), &vec!["my-sink".to_string()]);
    assert_eq!(c.duration().secs(), 8 * 3600);
}

#[test]
fn invalid_expression_names_the_spec() {
    let e = CronSource::new("c".to_string(), "not a cron", Span::from_secs(1), vec![])
        .err()
        .expect("invalid cron");
    assert_eq!(
        e,
        "invalid cron spec \"not a cron\": Invalid expression: Invalid cron expression."
    );
}
