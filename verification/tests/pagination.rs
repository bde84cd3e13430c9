use workos::pagination::{
    ListMetadata, PaginatedList, PaginatedPage, PaginationOrder, PaginationParams,
};
use workos::query::{decimal_text, push_optional, push_pair};

fn entry(key: &str, value: &str) -> (String, String) {
    (key.to_string(), value.to_string())
}

#[test]
fn the_default_pagination_is_newest_first_without_cursor() {
    let params = PaginationParams::default();

    assert_eq!(params.order, PaginationOrder::Desc);
    assert_eq!(params.limit, None);
    assert_eq!(params.after, None);
    assert_eq!(params.before, None);
    assert_eq!(PaginationOrder::default(), PaginationOrder::Desc);

    let mut out = Vec::new();
    params.append_to(&mut out);
    assert_eq!(out, vec![entry("order", "desc")]);
}

#[test]
fn the_pagination_fields_come_in_a_fixed_order() {
    let params = PaginationParams {
        order: PaginationOrder::Asc,
        limit: Some(100),
        after: Some("cursor_a"),
        before: Some("cursor_b"),
    };
    let mut out = vec![entry("first", "1")];
    params.append_to(&mut out);

    assert_eq!(
        out,
        vec![
            entry("first", "1"),
            entry("order", "asc"),
            entry("limit", "100"),
            entry("after", "cursor_a"),
            entry("before", "cursor_b"),
        ]
    );
}

#[test]
fn the_order_is_written_in_lower_case() {
    assert_eq!(PaginationOrder::Asc.as_str(), "asc");
    assert_eq!(PaginationOrder::Desc.as_str(), "desc");
}

#[test]
fn a_limit_is_written_as_a_decimal_numeral() {
    assert_eq!(decimal_text(0), "0");
    assert_eq!(decimal_text(7), "7");
    assert_eq!(decimal_text(10), "10");
    assert_eq!(decimal_text(25), "25");
    assert_eq!(decimal_text(100), "100");
    assert_eq!(decimal_text(1_000_000), "1000000");
    assert_eq!(decimal_text(4_294_967_295), "4294967295");
    for n in [1u32, 9, 11, 99, 101, 12_345, 987_654_321] {
        assert_eq!(decimal_text(n), n.to_string());
    }
}

#[test]
fn pairs_are_appended_at_the_end() {
    let mut out = Vec::new();
    push_pair(&mut out, "a", "1");
    push_optional(&mut out, "b", None);
    push_optional(&mut out, "c", Some("3"));
    push_pair(&mut out, "a", "");

    assert_eq!(out, vec![entry("a", "1"), entry("c", "3"), entry("a", "")]);
}

#[test]
fn a_page_keeps_the_items_and_takes_the_cursor() {
    let list = PaginatedList {
        data: vec!["event_1", "event_3", "event_2"],
        list_metadata: ListMetadata { after: Some("event_2".to_string()) },
    };
    let page = list.into_page();

    assert_eq!(
        page,
        PaginatedPage {
            data: vec!["event_1", "event_3", "event_2"],
            next_cursor: Some("event_2".to_string()),
        }
    );
    assert!(!page.is_last());
}

#[test]
fn a_response_without_cursor_ends_the_listing() {
    let list = PaginatedList {
        data: vec![1u8, 2, 3],
        list_metadata: ListMetadata { after: None },
    };
    let page = list.into_page();

    assert_eq!(page.next_cursor, None);
    assert!(page.is_last());
    assert_eq!(page.data, vec![1u8, 2, 3]);

    let empty: PaginatedList<u8> =
        PaginatedList { data: Vec::new(), list_metadata: ListMetadata { after: None } };
    let last = empty.into_page();
    assert!(last.is_last());
    assert!(last.data.is_empty());
}

#[test]
fn a_listing_is_resumed_from_the_cursor_of_a_page() {
    let first = PaginatedList {
        data: vec!["event_1", "event_2"],
        list_metadata: ListMetadata { after: Some("event_2".to_string()) },
    }
    .into_page();

    let cursor = first.next_cursor.clone().unwrap();
    let next = PaginationParams {
        order: PaginationOrder::Desc,
        limit: None,
        after: Some(cursor.as_str()),
        before: None,
    };
    let mut out = Vec::new();
    next.append_to(&mut out);

    assert_eq!(out, vec![entry("order", "desc"), entry("after", "event_2")]);
}
