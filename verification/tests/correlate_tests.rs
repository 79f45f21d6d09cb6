use pod_usage_analyzer::band::{classify, Band, BandColor};
use pod_usage_analyzer::correlate::{
    average_utilization, band_passes, compare_data, correlate, correlate_one, count_valid_pairs,
    find_request,
    ratio_of, PodRow, MAX_RATIO,
};
use pod_usage_analyzer::models::{MemoryRequest, MemoryUsage, MetricPoint};

fn points(values: &[u64]) -> Vec<MetricPoint> {
    let mut out = Vec::new();
    for (i, v) in values.iter().enumerate() {
        out.push(MetricPoint { timestamp: 1_700_000_000 + 15 * i as i64, value: *v });
    }
    out
}

fn request(namespace: &str, pod: &str, values: &[u64]) -> MemoryRequest {
    MemoryRequest { pod_name: pod.to_string(), namespace: namespace.to_string(), metrics: points(values) }
}

fn usage(namespace: &str, pod: &str, values: &[u64]) -> MemoryUsage {
    MemoryUsage { pod_name: pod.to_string(), namespace: namespace.to_string(), metrics: points(values) }
}

fn names(rows: &[PodRow]) -> Vec<String> {
    rows.iter().map(|r| r.name.clone()).collect()
}

#[test]
fn classify_limits_belong_to_outer_bands() {
    assert_eq!(classify(90_000_000), Band::Overutilized);
    assert_eq!(classify(10_000_000), Band::Underutilized);
    assert_eq!(classify(10_000_100), Band::Normal);
    assert_eq!(classify(89_999_900), Band::Normal);
}

#[test]
fn classify_one_unit_inside_the_limits_is_normal() {
    assert_eq!(classify(10_000_001), Band::Normal);
    assert_eq!(classify(89_999_999), Band::Normal);
    assert_eq!(classify(50_000_000), Band::Normal);
}

#[test]
fn classify_extremes() {
    assert_eq!(classify(0), Band::Underutilized);
    assert_eq!(classify(u128::MAX), Band::Overutilized);
    assert_eq!(classify(250_000_000), Band::Overutilized);
}

#[test]
fn band_labels() {
    assert_eq!(Band::Overutilized.label(), "Overutilized");
    assert_eq!(Band::Underutilized.label(), "Underutilized");
    assert_eq!(Band::Normal.label(), "Normal");
}

#[test]
fn ratio_is_usage_over_request_in_millionths_of_a_percent() {
    assert_eq!(ratio_of(100, 95), 95_000_000);
    assert_eq!(ratio_of(100, 85), 85_000_000);
    assert_eq!(ratio_of(3, 1), 33_333_333);
    assert_eq!(ratio_of(1, 0), 0);
    assert_eq!(ratio_of(50, 100), 200_000_000);
}

#[test]
fn ratio_of_largest_usage_over_smallest_request() {
    assert_eq!(ratio_of(1, u64::MAX), MAX_RATIO);
    assert_eq!(ratio_of(u64::MAX, u64::MAX), 100_000_000);
}

#[test]
fn average_of_two_full_pairs() {
    let avg = average_utilization(&points(&[100, 100]), &points(&[95, 85]));
    assert_eq!(avg, Some(90_000_000));
    assert_eq!(classify(avg.unwrap()), Band::Overutilized);
}

#[test]
fn average_leaves_out_pairs_without_request() {
    let avg = average_utilization(&points(&[0, 100]), &points(&[10, 5]));
    assert_eq!(avg, Some(5_000_000));
    assert_eq!(classify(avg.unwrap()), Band::Underutilized);
}

#[test]
fn average_goes_on_after_a_pair_without_request() {
    let avg = average_utilization(&points(&[100, 0, 100, 0]), &points(&[20, 999, 40, 999]));
    assert_eq!(avg, Some(30_000_000));
}

#[test]
fn average_is_the_mean_of_the_ratios() {
    // ratios: 50 %, 25 %, 100 %: mean 58.333333 %
    let avg = average_utilization(&points(&[200, 400, 10]), &points(&[100, 100, 10]));
    assert_eq!(avg, Some((50_000_000 + 25_000_000 + 100_000_000) / 3));
    assert_eq!(avg, Some(58_333_333));
}

#[test]
fn average_pairs_by_position_up_to_the_shorter_series() {
    let avg = average_utilization(&points(&[100, 100, 100]), &points(&[10]));
    assert_eq!(avg, Some(10_000_000));
    let avg = average_utilization(&points(&[100]), &points(&[30, 90, 90]));
    assert_eq!(avg, Some(30_000_000));
}

#[test]
fn average_of_nothing_is_none() {
    assert_eq!(average_utilization(&points(&[]), &points(&[1, 2])), None);
    assert_eq!(average_utilization(&points(&[1, 2]), &points(&[])), None);
    assert_eq!(average_utilization(&points(&[0, 0]), &points(&[1, 2])), None);
}

#[test]
fn find_request_takes_the_last_of_the_same_names() {
    let requests = vec![
        request("ns", "a", &[1]),
        request("ns", "b", &[1]),
        request("ns", "a", &[2]),
        request("other", "a", &[3]),
    ];
    assert_eq!(find_request(&requests, &"ns".to_string(), &"a".to_string()), Some(2));
    assert_eq!(find_request(&requests, &"ns".to_string(), &"b".to_string()), Some(1));
    assert_eq!(find_request(&requests, &"other".to_string(), &"a".to_string()), Some(3));
    assert_eq!(find_request(&requests, &"other".to_string(), &"b".to_string()), None);
    assert_eq!(find_request(&Vec::new(), &"ns".to_string(), &"a".to_string()), None);
}

#[test]
fn correlate_one_builds_the_row() {
    let requests = vec![request("prod", "api", &[100, 100])];
    let row = correlate_one(&requests, &usage("prod", "api", &[95, 85])).unwrap();
    assert_eq!(row.namespace, "prod");
    assert_eq!(row.name, "api");
    assert_eq!(row.band, Band::Overutilized);
    assert_eq!(row.usage, 90_000_000);
}

#[test]
fn correlate_zero_guard_row() {
    let requests = vec![request("prod", "api", &[0, 100])];
    let rows = correlate(&requests, &vec![usage("prod", "api", &[10, 5])]);
    assert_eq!(rows.len(), 1);
    assert_eq!(rows[0].usage, 5_000_000);
    assert_eq!(rows[0].band, Band::Underutilized);
}

#[test]
fn correlate_drops_usage_without_request() {
    let requests = vec![request("prod", "api", &[100])];
    let usages = vec![usage("prod", "worker", &[50]), usage("prod", "api", &[50])];
    let rows = correlate(&requests, &usages);
    assert_eq!(names(&rows), vec!["api".to_string()]);
    assert_eq!(rows[0].band, Band::Normal);
    assert_eq!(rows[0].usage, 50_000_000);
}

#[test]
fn correlate_tells_namespaces_apart() {
    let requests = vec![request("a", "api", &[100])];
    let usages = vec![usage("b", "api", &[50])];
    assert!(correlate(&requests, &usages).is_empty());
}

#[test]
fn correlate_drops_workload_without_valid_pair() {
    let requests = vec![request("prod", "api", &[0, 0]), request("prod", "db", &[])];
    let usages = vec![usage("prod", "api", &[5, 5]), usage("prod", "db", &[5])];
    assert!(correlate(&requests, &usages).is_empty());
}

#[test]
fn correlate_keeps_the_order_of_the_usage_series() {
    let requests = vec![
        request("n", "a", &[100]),
        request("n", "b", &[100]),
        request("n", "c", &[100]),
    ];
    let usages = vec![usage("n", "c", &[95]), usage("n", "a", &[5]), usage("n", "b", &[50])];
    let rows = correlate(&requests, &usages);
    assert_eq!(names(&rows), vec!["c".to_string(), "a".to_string(), "b".to_string()]);
    assert_eq!(rows[0].band, Band::Overutilized);
    assert_eq!(rows[1].band, Band::Underutilized);
    assert_eq!(rows[2].band, Band::Normal);
}

#[test]
fn correlate_empty_inputs() {
    assert!(correlate(&Vec::new(), &Vec::new()).is_empty());
    assert!(correlate(&vec![request("n", "a", &[1])], &Vec::new()).is_empty());
    assert!(correlate(&Vec::new(), &vec![usage("n", "a", &[1])]).is_empty());
}

#[test]
fn band_passes_compares_in_upper_case() {
    assert!(band_passes(None, Band::Normal));
    assert!(band_passes(Some("overutilized"), Band::Overutilized));
    assert!(band_passes(Some("OVERUTILIZED"), Band::Overutilized));
    assert!(band_passes(Some("Normal"), Band::Normal));
    assert!(!band_passes(Some("normal"), Band::Overutilized));
    assert!(!band_passes(Some("over"), Band::Overutilized));
    assert!(!band_passes(Some(""), Band::Underutilized));
}

#[test]
fn compare_data_without_filter_keeps_every_row() {
    let requests = vec![request("n", "a", &[100]), request("n", "b", &[100])];
    let usages = vec![usage("n", "a", &[95]), usage("n", "b", &[50])];
    let rows = compare_data(&requests, &usages, None);
    assert_eq!(names(&rows), vec!["a".to_string(), "b".to_string()]);
}

#[test]
fn compare_data_with_filter_keeps_the_band() {
    let requests = vec![
        request("n", "a", &[100]),
        request("n", "b", &[100]),
        request("n", "c", &[100]),
        request("n", "d", &[100]),
    ];
    let usages = vec![
        usage("n", "a", &[95]),
        usage("n", "b", &[50]),
        usage("n", "c", &[5]),
        usage("n", "d", &[100]),
    ];
    let over = compare_data(&requests, &usages, Some("overutilized"));
    assert_eq!(names(&over), vec!["a".to_string(), "d".to_string()]);
    let under = compare_data(&requests, &usages, Some("UNDERUTILIZED"));
    assert_eq!(names(&under), vec!["c".to_string()]);
    let normal = compare_data(&requests, &usages, Some("Normal"));
    assert_eq!(names(&normal), vec!["b".to_string()]);
    let none = compare_data(&requests, &usages, Some("idle"));
    assert!(none.is_empty());
}

#[test]
fn row_copy_keeps_every_field() {
    let row = PodRow { namespace: "n".to_string(), name: "a".to_string(), band: Band::Normal, usage: 42 };
    let copy = row.copy();
    assert_eq!(copy.namespace, "n");
    assert_eq!(copy.name, "a");
    assert_eq!(copy.band, Band::Normal);
    assert_eq!(copy.usage, 42);
}

#[test]
fn band_colors() {
    assert_eq!(Band::Overutilized.color(), BandColor::Red);
    assert_eq!(Band::Underutilized.color(), BandColor::Yellow);
    assert_eq!(Band::Normal.color(), BandColor::Green);
    assert!(Band::Overutilized.is_outer());
    assert!(Band::Underutilized.is_outer());
    assert!(!Band::Normal.is_outer());
}

#[test]
fn average_of_the_largest_ratios() {
    let avg = average_utilization(&points(&[1, 1, 1]), &points(&[u64::MAX, u64::MAX, u64::MAX]));
    assert_eq!(avg, Some(MAX_RATIO));
    let avg = average_utilization(&points(&[1, 1, 2]), &points(&[u64::MAX, u64::MAX, 1]));
    assert_eq!(avg, Some((2 * MAX_RATIO + 50_000_000) / 3));
}

#[test]
fn average_rounds_the_mean_down() {
    // ratios: 1 %, 1 %, 2 %: mean 1.333333 %
    let avg = average_utilization(&points(&[100, 100, 100]), &points(&[1, 1, 2]));
    assert_eq!(avg, Some(1_333_333));
    // ratios: 0.000001 % twice and nothing once: mean below one unit
    let avg = average_utilization(&points(&[100_000_000, 100_000_000, 1]), &points(&[1, 1, 0]));
    assert_eq!(avg, Some(0));
}

#[test]
fn count_valid_pairs_counts_requests_above_zero() {
    assert_eq!(count_valid_pairs(&points(&[0, 100, 5, 0]), &points(&[1, 2, 3, 4])), 2);
    assert_eq!(count_valid_pairs(&points(&[1, 1, 1]), &points(&[1])), 1);
    assert_eq!(count_valid_pairs(&points(&[]), &points(&[1])), 0);
}
