use message_store_view::address::{
    category_name, contains_char, resolve_stream_address, to_wildcard_pattern, AddressError,
    StreamAddress,
};
use message_store_view::query::{
    plan_messages_read, plan_read, StoreRead, BATCH_SIZE, READ_CATEGORY_SQL, READ_STREAM_SQL,
    START_POSITION,
};

#[test]
fn exact_stream_name() {
    assert_eq!(
        resolve_stream_address("order-123"),
        Ok(StreamAddress::Exact { name: "order-123".to_string() })
    );
}

#[test]
fn category_wildcard() {
    assert_eq!(
        resolve_stream_address("order-*"),
        Ok(StreamAddress::Category {
            name: "order".to_string(),
            filter_condition: "stream_name like 'order-%'".to_string(),
        })
    );
}

#[test]
fn category_is_text_before_first_separator() {
    assert_eq!(
        resolve_stream_address("account-12-*"),
        Ok(StreamAddress::Category {
            name: "account".to_string(),
            filter_condition: "stream_name like 'account-12-%'".to_string(),
        })
    );
}

#[test]
fn every_wildcard_becomes_percent() {
    assert_eq!(to_wildcard_pattern("a*-b*c*"), "a%-b%c%");
    assert_eq!(to_wildcard_pattern("none"), "none");
}

#[test]
fn wildcard_without_separator_is_an_error() {
    assert_eq!(resolve_stream_address("order*"), Err(AddressError::MissingSeparator));
    assert_eq!(plan_messages_read("*"), Err(AddressError::MissingSeparator));
}

#[test]
fn name_without_wildcard_is_exact_even_without_separator() {
    assert_eq!(
        resolve_stream_address("order"),
        Ok(StreamAddress::Exact { name: "order".to_string() })
    );
}

#[test]
fn adversarial_wildcard_is_escaped() {
    assert_eq!(
        resolve_stream_address("x-*' or '1'='1"),
        Ok(StreamAddress::Category {
            name: "x".to_string(),
            filter_condition: "stream_name like 'x-%'' or ''1''=''1'".to_string(),
        })
    );
    assert_eq!(
        resolve_stream_address("x-*\\'"),
        Ok(StreamAddress::Category {
            name: "x".to_string(),
            filter_condition: "stream_name like E'x-%\\\\'''".to_string(),
        })
    );
}

#[test]
fn helpers_on_edges() {
    assert!(contains_char("a*b", '*'));
    assert!(!contains_char("", '*'));
    assert_eq!(category_name("-x"), Some(String::new()));
    assert_eq!(category_name("abc"), None);
    assert_eq!(category_name("ab-c-d"), Some("ab".to_string()));
}

#[test]
fn exact_read_asks_for_first_page_unfiltered() {
    let read = plan_messages_read("order-123").unwrap();
    assert_eq!(read.statement(), READ_STREAM_SQL);
    match read {
        StoreRead::Stream { stream_name, page } => {
            assert_eq!(stream_name, "order-123");
            assert_eq!(page.position, 0);
            assert_eq!(page.batch_size, 100);
            assert_eq!(page.condition, None);
            assert_eq!(page.correlation, None);
        }
        other => panic!("expected a stream read, got {:?}", other),
    }
}

#[test]
fn category_read_carries_filter() {
    let read = plan_messages_read("order-*").unwrap();
    assert_eq!(read.statement(), READ_CATEGORY_SQL);
    match read {
        StoreRead::Category { category, page } => {
            assert_eq!(category, "order");
            assert_eq!(page.position, START_POSITION);
            assert_eq!(page.batch_size, BATCH_SIZE);
            assert_eq!(page.correlation, None);
            assert_eq!(page.consumer_group_member, None);
            assert_eq!(page.consumer_group_size, None);
            assert_eq!(page.condition, Some("stream_name like 'order-%'".to_string()));
        }
        other => panic!("expected a category read, got {:?}", other),
    }
}

#[test]
fn plan_read_of_exact_address() {
    let read = plan_read(StreamAddress::Exact { name: "s-1".to_string() });
    assert!(matches!(read, StoreRead::Stream { ref stream_name, .. } if stream_name == "s-1"));
}
