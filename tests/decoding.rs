use message_store_view::directory::{active_stream_names, StreamActivity, ACTIVE_STREAM_LIMIT};
use message_store_view::message::{
    decode_row, decode_rows, DecodeError, JsonColumn, MessageRow, Object,
};

fn row(global_position: i64, metadata: Option<&str>, data: &str) -> MessageRow {
    MessageRow {
        id: format!("id-{}", global_position),
        stream_name: "order-123".to_string(),
        message_type: "Placed".to_string(),
        position: global_position - 1,
        global_position,
        metadata: metadata.map(|m| m.to_string()),
        data: data.to_string(),
        time: "2024-01-01T00:00:00".to_string(),
    }
}

fn object(text: &str) -> Object {
    serde_json::from_str(text).unwrap()
}

#[test]
fn row_without_metadata() {
    let message = decode_row(&row(7, None, "{\"amount\": 5}")).unwrap();
    assert!(message.metadata.is_none());
    assert_eq!(message.data, object("{\"amount\": 5}"));
    assert_eq!(message.data.get("amount"), Some(&serde_json::Value::from(5)));
    assert_eq!(message.id, "id-7");
    assert_eq!(message.stream_name, "order-123");
    assert_eq!(message.message_type, "Placed");
    assert_eq!(message.position, 6);
    assert_eq!(message.global_position, 7);
    assert_eq!(message.time, "2024-01-01T00:00:00");
}

#[test]
fn row_with_metadata() {
    let message =
        decode_row(&row(3, Some("{\"causation\": \"x\", \"n\": [1, 2]}"), "{}")).unwrap();
    assert_eq!(message.metadata, Some(object("{\"n\": [1, 2], \"causation\": \"x\"}")));
    assert!(message.data.is_empty());
}

#[test]
fn invalid_data_fails() {
    assert_eq!(decode_row(&row(1, None, "not json")).unwrap_err(), JsonColumn::Data);
    assert_eq!(decode_row(&row(1, Some("{}"), "[1, 2]")).unwrap_err(), JsonColumn::Data);
    assert_eq!(decode_row(&row(1, Some("{"), "{")).unwrap_err(), JsonColumn::Data);
}

#[test]
fn invalid_metadata_fails() {
    assert_eq!(decode_row(&row(1, Some("{"), "{}")).unwrap_err(), JsonColumn::Metadata);
    assert_eq!(decode_row(&row(1, Some("null"), "{}")).unwrap_err(), JsonColumn::Metadata);
}

#[test]
fn rows_keep_order_and_count() {
    let rows = vec![row(2, None, "{\"a\": 1}"), row(5, Some("{}"), "{\"a\": 2}"), row(9, None, "{}")];
    let messages = decode_rows(&rows).unwrap();
    assert_eq!(messages.len(), 3);
    let positions: Vec<i64> = messages.iter().map(|m| m.global_position).collect();
    assert_eq!(positions, vec![2, 5, 9]);
    assert_eq!(messages[1].data, object("{\"a\": 2}"));
    assert!(messages[1].metadata.is_some());
}

#[test]
fn no_rows_decode_to_no_messages() {
    assert_eq!(decode_rows(&Vec::new()).unwrap().len(), 0);
}

#[test]
fn one_bad_row_fails_the_whole_read() {
    let rows = vec![row(1, None, "{}"), row(2, None, "{oops"), row(3, Some("x"), "{}")];
    assert_eq!(
        decode_rows(&rows).unwrap_err(),
        DecodeError { row: 1, column: JsonColumn::Data }
    );
}

#[test]
fn full_batch_decodes() {
    let rows: Vec<MessageRow> = (1..=100).map(|p| row(p, None, "{}")).collect();
    let messages = decode_rows(&rows).unwrap();
    assert_eq!(messages.len(), 100);
    assert_eq!(messages[99].global_position, 100);
}

fn activity(count: i64) -> Vec<StreamActivity> {
    (0..count)
        .map(|k| StreamActivity {
            stream_name: format!("stream-{}", k),
            latest_global_position: 1000 - k,
        })
        .collect()
}

#[test]
fn directory_lists_at_most_the_limit() {
    let names = active_stream_names(&activity(30));
    assert_eq!(names.len(), ACTIVE_STREAM_LIMIT);
    assert_eq!(names.len(), 25);
    assert_eq!(names[0], "stream-0");
    assert_eq!(names[24], "stream-24");
}

#[test]
fn directory_keeps_short_lists_whole() {
    let names = active_stream_names(&activity(3));
    assert_eq!(names, vec!["stream-0", "stream-1", "stream-2"]);
    assert!(active_stream_names(&Vec::new()).is_empty());
}
