use tokio_metrics_prometheus::{assert_approx_output, compare_approx_output};

/// Checks, as the original helper does, that every value handed back is a
/// non-zero floating-point number.
fn approx_eq(actual: &str, expected: &str) -> bool {
    match compare_approx_output(actual, expected) {
        Ok(values) => values.iter().all(|v| {
            let text = std::str::from_utf8(v).unwrap();
            text.trim().parse::<f64>().map(|x| x != 0f64).unwrap_or(false)
        }),
        Err(_) => false,
    }
}

const EXPOSITION: &str = r#"# HELP workers_count The number of worker threads.
# TYPE workers_count gauge
workers_count 1
# HELP busy_duration_seconds The amount of time worker threads were busy.
# TYPE busy_duration_seconds counter
busy_duration_seconds{measurement="min"} 0.000246749
busy_duration_seconds{measurement="max"} 0.000246749
busy_duration_seconds{measurement="total"} 0.000246749
# HELP mean_polls_per_park The mean number of polls per park.
# TYPE mean_polls_per_park gauge
mean_polls_per_park 0.0
# HELP busy_ratio The proportion of time spent polling for tasks.
# TYPE busy_ratio gauge
busy_ratio 0.002416951543231039
# EOF"#;

#[test]
fn identical_output_hands_back_approximate_values() {
    let values = compare_approx_output(EXPOSITION, EXPOSITION).unwrap();
    let values: Vec<&str> = values.iter().map(|v| std::str::from_utf8(v).unwrap()).collect();
    assert_eq!(
        values,
        vec!["0.000246749", "0.000246749", "0.000246749", "0.002416951543231039"]
    );
    assert!(approx_eq(EXPOSITION, EXPOSITION));
}

#[test]
fn approximate_values_may_differ() {
    let actual = EXPOSITION
        .replace("0.000246749", "0.5")
        .replace("0.002416951543231039", "0.25");
    assert_eq!(compare_approx_output(&actual, EXPOSITION).unwrap().len(), 4);
    assert!(approx_eq(&actual, EXPOSITION));
}

#[test]
fn zero_approximate_value_is_handed_back() {
    let actual = EXPOSITION.replace("busy_ratio 0.002416951543231039", "busy_ratio 0");
    let values = compare_approx_output(&actual, EXPOSITION).unwrap();
    assert_eq!(values[3], b"0".to_vec());
    assert!(!approx_eq(&actual, EXPOSITION));
}

#[test]
fn exact_lines_must_be_equal() {
    let actual = EXPOSITION.replace("workers_count 1", "workers_count 2");
    assert_eq!(compare_approx_output(&actual, EXPOSITION), Err(2));
    // An exact line whose value looks like a float is still compared exactly.
    let actual = EXPOSITION.replace("mean_polls_per_park 0.0", "mean_polls_per_park 1.0");
    assert_eq!(compare_approx_output(&actual, EXPOSITION), Err(10));
}

#[test]
fn approximate_lines_must_name_the_same_series() {
    let actual = EXPOSITION.replace(
        "busy_duration_seconds{measurement=\"max\"}",
        "busy_duration_seconds{measurement=\"min\"}",
    );
    assert_eq!(compare_approx_output(&actual, EXPOSITION), Err(6));
}

#[test]
fn approximate_lines_need_a_space() {
    assert_eq!(compare_approx_output("busy_ratio", "busy_ratio 1"), Err(0));
    assert_eq!(compare_approx_output("busy_ratio 1", "busy_ratio"), Err(0));
}

#[test]
fn comments_are_compared_exactly() {
    assert_eq!(
        compare_approx_output("# TYPE a_seconds counter", "# TYPE a_seconds gauge"),
        Err(0)
    );
    assert_eq!(compare_approx_output("# a_seconds x", "# a_seconds x"), Ok(vec![]));
}

#[test]
fn only_the_shorter_text_is_compared() {
    assert_eq!(compare_approx_output("a\nb\nc", "a\nb"), Ok(vec![]));
    assert_eq!(compare_approx_output("a", "a\nb\nc"), Ok(vec![]));
    assert_eq!(compare_approx_output("", "anything"), Ok(vec![]));
}

#[test]
fn lines_end_at_newline_or_crlf() {
    assert_eq!(compare_approx_output("a\r\nb\n", "a\nb"), Ok(vec![]));
    assert_eq!(compare_approx_output("x_ratio 2\r\n", "x_ratio 1"), Ok(vec![b"2".to_vec()]));
    // A final `\r` without `\n` stays part of the line.
    assert_eq!(compare_approx_output("a\r", "a"), Err(0));
    // An empty line between two lines is a line.
    assert_eq!(compare_approx_output("a\n\nb", "a\nc\nb"), Err(1));
}

#[test]
fn value_is_what_follows_the_first_space() {
    assert_eq!(
        compare_approx_output("m_seconds{l=\"a b\"} 3", "m_seconds{l=\"a 0"),
        Ok(vec![b"b\"} 3".to_vec()])
    );
}

#[test]
fn asserting_agreeing_outputs_hands_back_values() {
    let actual = EXPOSITION.replace("0.002416951543231039", "0.25");
    let values = assert_approx_output(&actual, EXPOSITION);
    assert_eq!(values.len(), 4);
    assert_eq!(values[3], b"0.25".to_vec());
    assert_eq!(assert_approx_output("a\nb_seconds 2", "a\nb_seconds 1"), vec![b"2".to_vec()]);
}
