use op_export::errors::FetchError;
use op_export::item::Item;
use op_export::item::id_of_item;
use op_export::progress::ProgressReporter;
use op_export::retry::backoff_millis;
use op_export::sort::sort_items_by_id;
use op_export::text::{str_eq, str_le, u64_to_string};
use op_export::tool::check_output;

fn payload(text: &str) -> serde_json::Value {
    serde_json::from_str(text).unwrap()
}

#[test]
fn progress_counts_pending_work() {
    let mut progress = ProgressReporter::new();
    assert_eq!(0, progress.num_pending);
    progress.pending();
    progress.pending();
    assert_eq!(2, progress.num_pending);
}

#[test]
fn progress_report_is_throttled() {
    let mut progress = ProgressReporter { last_report_millis: 0, num_pending: 4 };

    // Too soon after the last report: no line.
    assert_eq!(None, progress.done(1000));
    assert_eq!(3, progress.num_pending);
    assert_eq!(0, progress.last_report_millis);

    // The quiet period has passed and work remains: one line, timer reset.
    assert_eq!(Some(2), progress.done(1500));
    assert_eq!(2, progress.num_pending);
    assert_eq!(1500, progress.last_report_millis);

    // Right after a report: quiet again.
    assert_eq!(None, progress.done(1600));
    assert_eq!(1, progress.num_pending);
}

#[test]
fn progress_never_reports_when_nothing_remains() {
    let mut progress = ProgressReporter { last_report_millis: 0, num_pending: 1 };
    assert_eq!(None, progress.done(50_000));
    assert_eq!(0, progress.num_pending);
}

#[test]
fn decimal_rendering_is_exact() {
    assert_eq!("0", u64_to_string(0).as_str());
    assert_eq!("7", u64_to_string(7).as_str());
    assert_eq!("10", u64_to_string(10).as_str());
    assert_eq!("409", u64_to_string(409).as_str());
    assert_eq!("18446744073709551615", u64_to_string(u64::MAX).as_str());
}

#[test]
fn string_comparisons() {
    assert!(str_eq("abc", "abc"));
    assert!(!str_eq("abc", "abd"));
    assert!(!str_eq("abc", "ab"));
    assert!(str_le("", "a"));
    assert!(str_le("ab", "ab"));
    assert!(str_le("ab", "abc"));
    assert!(str_le("ab", "b"));
    assert!(!str_le("b", "ab"));
    assert!(!str_le("abc", "ab"));
}

#[test]
fn backoff_window_grows_with_the_attempt() {
    for _ in 0..32 {
        let first = backoff_millis(1);
        assert!((3000..6000).contains(&first));
        let fourth = backoff_millis(4);
        assert!((12000..15000).contains(&fourth));
    }
}

#[test]
fn check_output_hands_stdout_through_on_success() {
    let r = check_output(true, "payload".to_string(), "noise".to_string());
    assert_eq!("payload", r.unwrap());
}

#[test]
fn check_output_reports_both_streams_on_failure() {
    let r = check_output(false, "out".to_string(), "err".to_string());
    assert_eq!(
        "cmd exited unsuccessfully: stdout: out stderr: err",
        r.unwrap_err().message().as_str()
    );
}

#[test]
fn id_of_item_reads_the_id_string() {
    assert_eq!("x1", id_of_item(&payload("{\"id\": \"x1\", \"rest\": 3}")).unwrap());
}

#[test]
fn id_of_item_reports_each_shape_of_missing_id() {
    assert_eq!(
        "item did not have an id",
        id_of_item(&payload("{\"name\": \"x\"}")).unwrap_err().message().as_str()
    );
    assert_eq!(
        "item's id was not a string",
        id_of_item(&payload("{\"id\": 7}")).unwrap_err().message().as_str()
    );
    assert_eq!(
        "item not an object",
        id_of_item(&payload("[1, 2]")).unwrap_err().message().as_str()
    );
}

#[test]
fn sorting_orders_items_by_id_and_keeps_duplicates() {
    let items = vec![
        Item { id: "b".to_string(), payload: payload("2") },
        Item { id: "a".to_string(), payload: payload("1") },
        Item { id: "c".to_string(), payload: payload("3") },
        Item { id: "a".to_string(), payload: payload("4") },
    ];
    let sorted = sort_items_by_id(items);
    let ids: Vec<&str> = sorted.iter().map(|it| it.id.as_str()).collect();
    assert_eq!(vec!["a", "a", "b", "c"], ids);
}

#[test]
fn error_messages_come_back_unchanged() {
    let provider = FetchError::Provider { message: "p".to_string() };
    let validation = FetchError::Validation { message: "v".to_string() };
    let pool = FetchError::Pool { message: "w".to_string() };
    assert_eq!("p", provider.message().as_str());
    assert_eq!("v", validation.message().as_str());
    assert_eq!("w", pool.message().as_str());
}
