use op_export::channels::{conclude, consume_result, drain_results, enqueue_ids, fetch_one, get_items};
use op_export::errors::FetchError;
use op_export::item::Item;
use op_export::mock::MockOp;
use op_export::progress::ProgressReporter;
use op_export::tool::{ToolOp, decode_listing, parsed_as_json};

#[test]
fn decode_listing_empty() {
    let ids = decode_listing("[]").unwrap();
    assert_eq!(0, ids.len());
}

#[test]
fn decode_listing_one_item() {
    let ids = decode_listing("[{\"id\": \"value\"}]").unwrap();
    assert_eq!(1, ids.len());
    assert_eq!("value", ids.get(0).unwrap());
}

#[test]
fn decode_listing_two_items() {
    let ids = decode_listing("[{\"id\": \"value1\"}, {\"id\": \"value2\"}]").unwrap();
    assert_eq!(2, ids.len());
    assert_eq!("value1", ids.get(0).unwrap());
    assert_eq!("value2", ids.get(1).unwrap());
}

#[test]
fn decode_listing_not_json() {
    assert!(decode_listing("this is not json").is_err());
}

#[test]
fn decode_listing_not_a_list() {
    assert_eq!(
        "expected JSON list from 'items list', received something else",
        decode_listing("{\"id\": \"value\"}").unwrap_err().message().as_str()
    );
}

#[test]
fn decode_listing_item_not_an_object() {
    assert_eq!(
        "item is not an object",
        decode_listing("[3]").unwrap_err().message().as_str()
    );
}

#[test]
fn decode_listing_item_without_id() {
    assert_eq!(
        "item has no id key",
        decode_listing("[{\"id\": \"ok\"}, {}]").unwrap_err().message().as_str()
    );
}

#[test]
fn decode_listing_id_not_a_string() {
    assert_eq!(
        "item's id key's value is not a string",
        decode_listing("[{\"id\": 7}]").unwrap_err().message().as_str()
    );
}

#[test]
fn parsed_as_json_accepts_json_and_keeps_failures() {
    let v = parsed_as_json(Ok("{\"key\": \"value\"}".to_string())).unwrap();
    assert_eq!(serde_json::from_str::<serde_json::Value>("{\"key\": \"value\"}").unwrap(), v);

    assert!(parsed_as_json(Ok("no json here".to_string())).is_err());

    let upstream = FetchError::Provider { message: "earlier failure".to_string() };
    assert_eq!(
        "earlier failure",
        parsed_as_json(Err(upstream)).unwrap_err().message().as_str()
    );
}

#[test]
fn tool_argv_for_listing_and_fetching() {
    let tool = ToolOp::new("op".to_string());
    assert!(tool.backoff);
    assert_eq!(vec!["op", "items", "list", "--format=json"], tool.list_argv());
    assert_eq!(vec!["op", "items", "get", "--format=json", "some-id"], tool.get_argv("some-id"));

    let quiet = ToolOp::new_without_backoff("op".to_string());
    assert!(!quiet.backoff);
}

#[test]
fn channel_pipeline_carries_every_result() {
    // The worker loop and the aggregation loop, wired together on one
    // thread: enqueue everything, close the queue, run one worker to
    // exhaustion, then drain.
    let op = MockOp {
        items: vec![
            ("a".to_owned(), Some(serde_json::Value::Null)),
            ("b".to_owned(), Some(serde_json::Value::Bool(true))),
        ],
    };
    let (id_tx, id_rx) = crossbeam::channel::unbounded::<String>();
    let (res_tx, res_rx) = crossbeam::channel::unbounded::<Result<Item, FetchError>>();
    let mut progress = ProgressReporter::new();

    let ids = vec!["a".to_string(), "b".to_string()];
    assert!(enqueue_ids(&id_tx, ids, &mut progress));
    assert_eq!(2, progress.num_pending);
    drop(id_tx);

    get_items(&id_rx, &res_tx, &op, 2);
    drop(res_tx);

    let items = drain_results(res_rx, &mut progress).unwrap();
    assert_eq!(0, progress.num_pending);
    assert_eq!(2, items.len());
    assert_eq!("a", items[0].id);
    assert_eq!(serde_json::Value::Null, items[0].payload);
    assert_eq!("b", items[1].id);
    assert_eq!(serde_json::Value::Bool(true), items[1].payload);
}

#[test]
fn channel_pipeline_surfaces_the_first_failure() {
    let op = MockOp {
        items: vec![
            ("a".to_owned(), Some(serde_json::Value::Null)),
            ("b".to_owned(), None),
            ("c".to_owned(), Some(serde_json::Value::Null)),
        ],
    };
    let (id_tx, id_rx) = crossbeam::channel::unbounded::<String>();
    let (res_tx, res_rx) = crossbeam::channel::unbounded::<Result<Item, FetchError>>();
    let mut progress = ProgressReporter::new();

    let ids = vec!["a".to_string(), "b".to_string(), "c".to_string()];
    assert!(enqueue_ids(&id_tx, ids, &mut progress));
    drop(id_tx);

    get_items(&id_rx, &res_tx, &op, 3);
    drop(res_tx);

    let err = drain_results(res_rx, &mut progress).unwrap_err();
    assert_eq!("mock error for id b", err.message().as_str());
}

#[test]
fn fetch_one_tags_the_outcome_with_the_id() {
    let op = MockOp {
        items: vec![
            ("a".to_owned(), Some(serde_json::Value::Null)),
            ("b".to_owned(), None),
        ],
    };
    let item = fetch_one(&op, "a".to_string()).unwrap();
    assert_eq!("a", item.id);
    assert_eq!(serde_json::Value::Null, item.payload);

    let err = fetch_one(&op, "b".to_string()).unwrap_err();
    assert_eq!("mock error for id b", err.message().as_str());
}

#[test]
fn consume_result_collects_successes_and_stops_on_failure() {
    let mut collected: Vec<Item> = Vec::new();
    let stop = consume_result(
        &mut collected,
        Ok(Item { id: "a".to_string(), payload: serde_json::Value::Null }),
    );
    assert!(stop.is_none());
    assert_eq!(1, collected.len());
    assert_eq!("a", collected[0].id);

    let stop = consume_result(
        &mut collected,
        Err(FetchError::Provider { message: "halt".to_string() }),
    );
    assert_eq!("halt", stop.unwrap().message().as_str());
    assert_eq!(1, collected.len());
}

#[test]
fn conclude_surfaces_a_dead_worker_over_success() {
    let died = conclude(true, Ok(Vec::new())).unwrap_err();
    assert_eq!("thread died", died.message().as_str());
    assert!(matches!(died, FetchError::Pool { .. }));

    let kept = conclude(
        false,
        Ok(vec![Item { id: "a".to_string(), payload: serde_json::Value::Null }]),
    )
    .unwrap();
    assert_eq!(1, kept.len());

    let handed_through = conclude(
        false,
        Err(FetchError::Provider { message: "first failure".to_string() }),
    )
    .unwrap_err();
    assert_eq!("first failure", handed_through.message().as_str());
}
