use acepe_reconciler::benchmark::{
    group_average_duration, slowest_first, smallest_first, stable_order, summarize, tercile_bounds,
    SessionResult,
};

fn result(id: &str, duration: u128, messages: usize, size: u64) -> SessionResult {
    SessionResult {
        session_id: id.to_string(),
        project_path: "/p".to_string(),
        duration,
        message_count: messages,
        entry_count: messages,
        file_size_bytes: size,
    }
}

#[test]
fn summary_of_no_session() {
    let stats = summarize(0, &Vec::new(), 0, 0, 0, 0);
    assert_eq!(stats.total_sessions, 0);
    assert_eq!(stats.successful_parses, 0);
    assert_eq!(stats.avg_time, 0);
    assert!(stats.slowest_session.is_none());
    assert!(stats.largest_session.is_none());
}

#[test]
fn summary_when_every_parse_failed() {
    let stats = summarize(3, &Vec::new(), 3, 1234, 0, 0);
    assert_eq!(stats.total_sessions, 3);
    assert_eq!(stats.failed_parses, 3);
    assert_eq!(stats.total_time, 1234);
    assert_eq!(stats.max_time, 0);
}

#[test]
fn summary_statistics() {
    let results = vec![
        result("a", 50, 3, 10),
        result("b", 10, 9, 20),
        result("c", 40, 9, 30),
        result("d", 20, 1, 40),
        result("e", 50, 2, 50),
    ];
    // 5 results: p95 index (5 * 0.95) = 4, p99 index 4.
    let stats = summarize(6, &results, 1, 999, 4, 4);
    assert_eq!(stats.total_sessions, 6);
    assert_eq!(stats.successful_parses, 5);
    assert_eq!(stats.failed_parses, 1);
    assert_eq!(stats.total_time, 999);
    assert_eq!(stats.min_time, 10);
    assert_eq!(stats.max_time, 50);
    assert_eq!(stats.median_time, 40);
    assert_eq!(stats.p95_time, 50);
    assert_eq!(stats.p99_time, 50);
    assert_eq!(stats.avg_time, 34);
    // Ties go to the last maximum, as `max_by_key` picks it.
    assert_eq!(stats.slowest_session, Some(("e".to_string(), 50, 2)));
    assert_eq!(stats.largest_session, Some(("c".to_string(), 9, 40)));
}

#[test]
fn percentile_index_is_clamped() {
    let results = vec![result("a", 3, 1, 1), result("b", 1, 1, 1)];
    let stats = summarize(2, &results, 0, 4, 7, 1);
    assert_eq!(stats.p95_time, 3);
    assert_eq!(stats.p99_time, 3);
    assert_eq!(stats.median_time, 3);
    assert_eq!(stats.min_time, 1);
    assert_eq!(stats.avg_time, 2);
}

#[test]
fn slowest_first_is_stable() {
    let results = vec![
        result("a", 50, 3, 30),
        result("b", 10, 9, 10),
        result("c", 40, 9, 30),
        result("d", 20, 1, 5),
        result("e", 50, 2, 30),
    ];
    assert_eq!(slowest_first(&results), vec![0, 4, 2, 3, 1]);
    assert_eq!(smallest_first(&results), vec![3, 1, 0, 2, 4]);
}

#[test]
fn stable_order_of_keys() {
    assert_eq!(stable_order(&vec![3, 1, 2, 1], false), vec![1, 3, 2, 0]);
    assert_eq!(stable_order(&vec![3, 1, 2, 1], true), vec![0, 2, 1, 3]);
    assert_eq!(stable_order(&Vec::new(), true), Vec::<usize>::new());
}

#[test]
fn tercile_groups_and_averages() {
    assert_eq!(tercile_bounds(5), (1, 2, 3));
    assert_eq!(tercile_bounds(9), (3, 6, 6));
    assert_eq!(tercile_bounds(0), (0, 0, 0));
    let results = vec![
        result("a", 7, 1, 1),
        result("b", 10, 1, 2),
        result("c", 20, 1, 3),
    ];
    let order = smallest_first(&results);
    assert_eq!(group_average_duration(&results, &order, 0, 1), 7);
    assert_eq!(group_average_duration(&results, &order, 1, 3), 15);
    assert_eq!(group_average_duration(&results, &order, 2, 2), 0);
}
