use std::sync::atomic::{AtomicU64, Ordering};

use op_export::errors::FetchError;
use op_export::mock::MockOp;
use op_export::pipeline::fetch_all_items;
use op_export::provider::Op;
use op_export::retry::{RetryOp, MAX_ATTEMPTS};

/// A provider that counts its `get_item` calls and always fails them.
struct CountingOp {
    ids: Vec<String>,
    calls: AtomicU64,
    message: String,
}

impl CountingOp {
    fn new(ids: &[&str], message: &str) -> CountingOp {
        CountingOp {
            ids: ids.iter().map(|s| s.to_string()).collect(),
            calls: AtomicU64::new(0),
            message: message.to_string(),
        }
    }
}

impl Op for CountingOp {
    fn list_items(&self) -> Result<Vec<String>, FetchError> {
        Ok(self.ids.clone())
    }

    fn get_item(&self, _id: &str) -> Result<serde_json::Value, FetchError> {
        self.calls.fetch_add(1, Ordering::SeqCst);
        Err(FetchError::Provider { message: self.message.clone() })
    }
}

/// A provider that succeeds for every id but one, which always fails with a
/// configured message.
struct OneBadId {
    ids: Vec<String>,
    bad: String,
    message: String,
}

impl Op for OneBadId {
    fn list_items(&self) -> Result<Vec<String>, FetchError> {
        Ok(self.ids.clone())
    }

    fn get_item(&self, id: &str) -> Result<serde_json::Value, FetchError> {
        if id == self.bad {
            Err(FetchError::Provider { message: self.message.clone() })
        } else {
            Ok(serde_json::Value::String(id.to_string()))
        }
    }
}

#[test]
fn empty_listing_makes_zero_fetch_calls() {
    let op = CountingOp::new(&[], "unused");
    let items = fetch_all_items(&op).unwrap();
    assert_eq!(0, items.len());
    assert_eq!(0, op.calls.load(Ordering::SeqCst));
}

#[test]
fn always_failing_fetch_is_tried_at_most_five_times() {
    let op = RetryOp::new_without_backoff(CountingOp::new(&["only"], "still broken"));
    let err = fetch_all_items(&op).unwrap_err();
    assert_eq!("still broken", err.message().as_str());
    assert_eq!(MAX_ATTEMPTS, op.inner.calls.load(Ordering::SeqCst));
}

#[test]
fn retry_reports_its_attempt_count() {
    let op = RetryOp::new_without_backoff(CountingOp::new(&["only"], "nope"));
    let (result, attempts) = op.get_item_with_attempts("only");
    assert!(result.is_err());
    assert_eq!(MAX_ATTEMPTS, attempts);
    assert_eq!(MAX_ATTEMPTS, op.inner.calls.load(Ordering::SeqCst));
}

#[test]
fn retry_fetches_a_successful_id_once() {
    let op = RetryOp::new_without_backoff(MockOp {
        items: vec![("a".to_owned(), Some(serde_json::Value::Null))],
    });
    let (result, attempts) = op.get_item_with_attempts("a");
    assert_eq!(serde_json::Value::Null, result.unwrap());
    assert_eq!(1, attempts);
}

#[test]
fn one_bad_id_fails_the_run_with_its_exact_message() {
    let op = OneBadId {
        ids: vec!["id1".to_string(), "id2".to_string(), "id3".to_string()],
        bad: "id2".to_string(),
        message: "boom".to_string(),
    };
    let err = fetch_all_items(&op).unwrap_err();
    assert_eq!("boom", err.message().as_str());
}

/// A provider whose listing always fails.
struct NoList;

impl Op for NoList {
    fn list_items(&self) -> Result<Vec<String>, FetchError> {
        Err(FetchError::Provider { message: "cannot list".to_string() })
    }

    fn get_item(&self, _id: &str) -> Result<serde_json::Value, FetchError> {
        Ok(serde_json::Value::Null)
    }
}

#[test]
fn retrying_listing_is_handed_through_untouched() {
    // The decorator never retries the listing: one failure is fatal.
    let op = RetryOp::new_without_backoff(NoList);
    let err = fetch_all_items(&op).unwrap_err();
    assert_eq!("cannot list", err.message().as_str());
}
