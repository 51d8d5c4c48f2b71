use op_export::item::Item;
use op_export::mock::MockOp;
use op_export::pipeline::fetch_all_items;

fn payload(text: &str) -> serde_json::Value {
    serde_json::from_str(text).unwrap()
}

#[test]
fn test_fetch_all_items_all_no_items() {
    let items = fetch_all_items(&MockOp { items: Vec::new() }).unwrap();

    assert_eq!(0, items.len());
}

#[test]
fn test_fetch_all_items_all_success() {
    let items = fetch_all_items(&MockOp {
        items: vec![
            ("id1".to_owned(), Some(payload("{\"id\": \"id1\"}"))),
            ("id2".to_owned(), Some(payload("{\"id\": \"id2\"}"))),
        ],
    })
    .unwrap();

    let items: std::collections::HashMap<String, Item> =
        items.into_iter().map(|it| (it.id.clone(), it)).collect();

    assert_eq!(2, items.len());
    assert_eq!(
        Item { id: "id1".into(), payload: payload("{\"id\": \"id1\"}") },
        *items.get("id1").unwrap()
    );
    assert_eq!(
        Item { id: "id2".into(), payload: payload("{\"id\": \"id2\"}") },
        *items.get("id2").unwrap()
    );
}

#[test]
fn test_fetch_all_items_some_failed() {
    let items = fetch_all_items(&MockOp {
        items: vec![
            ("id1".to_owned(), Some(payload("{\"id\": \"id1\"}"))),
            ("id2".to_owned(), None),
            ("id3".to_owned(), Some(payload("{\"id\": \"id3\"}"))),
        ],
    });

    match items {
        Ok(_) => panic!("fetch should have failed"),
        Err(e) => {
            assert_eq!("mock error for id id2", e.message().as_str());
        }
    }
}

#[test]
fn mock_reports_an_unknown_id_as_missing() {
    let op = MockOp { items: vec![("a".to_owned(), Some(payload("1")))] };
    let direct = op_export::provider::Op::get_item(&op, "zzz");
    assert_eq!("no id zzz in mock", direct.unwrap_err().message().as_str());
}

#[test]
fn fetch_all_twice_yields_the_same_items() {
    // Idempotence against a deterministic provider: both runs agree.
    let op = MockOp {
        items: vec![
            ("b".to_owned(), Some(payload("{\"id\": \"b\"}"))),
            ("a".to_owned(), Some(payload("{\"id\": \"a\"}"))),
        ],
    };
    let first = fetch_all_items(&op).unwrap();
    let second = fetch_all_items(&op).unwrap();
    assert_eq!(first, second);
}

#[test]
fn fetch_all_twice_yields_the_same_error() {
    let op = MockOp { items: vec![("a".to_owned(), None)] };
    let first = fetch_all_items(&op).unwrap_err();
    let second = fetch_all_items(&op).unwrap_err();
    assert_eq!(first.message(), second.message());
}

#[test]
fn export_scenario_two_ids_sorted_output() {
    // Listed out of order on purpose: the export body is sorted by id.
    let op = MockOp {
        items: vec![
            ("id2".to_owned(), Some(payload("{\"id\": \"id2\"}"))),
            ("id1".to_owned(), Some(payload("{\"id\": \"id1\"}"))),
        ],
    };
    let items = fetch_all_items(&op).unwrap();
    assert_eq!(2, items.len());

    let body = op_export::export::render_export(items).unwrap();
    let expected = serde_json::to_string_pretty(&payload("[{\"id\": \"id1\"}, {\"id\": \"id2\"}]"))
        .unwrap();
    assert_eq!(expected, body);
}
