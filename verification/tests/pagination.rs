use msgraph_mail::list_attachments::ListAttachmentsRequest;
use msgraph_mail::list_messages::ListMessagesRequest;
use msgraph_mail::page::Page;
use msgraph_mail::paginate::{collect_all, Paginator};

fn page(items: &[u32], next: Option<&str>) -> Page<u32> {
    Page {
        context: "ctx".to_string(),
        next_link: next.map(|s| s.to_string()),
        value: items.to_vec(),
    }
}

#[test]
fn three_pages_concatenate_in_order() {
    let pages = vec![
        page(&[1, 2], Some("p2")),
        page(&[3], Some("p3")),
        page(&[4, 5, 6], None),
    ];
    assert_eq!(collect_all(pages), vec![1, 2, 3, 4, 5, 6]);
}

#[test]
fn single_page_walk() {
    assert_eq!(collect_all(vec![page(&[7], None)]), vec![7]);
}

#[test]
fn empty_pages_yield_nothing() {
    let pages = vec![page(&[], Some("p2")), page(&[], None)];
    assert_eq!(collect_all(pages), Vec::<u32>::new());
}

#[test]
fn feed_tracks_cursor_and_termination() {
    let mut p = Paginator::new();
    assert!(!p.finished);
    assert!(p.cursor.is_none());
    let items = p.feed(page(&[1], Some("next-url")));
    assert_eq!(items, vec![1]);
    assert_eq!(p.cursor.as_deref(), Some("next-url"));
    assert!(!p.finished);
    let items = p.feed(page(&[], None));
    assert!(items.is_empty());
    assert!(p.finished);
    assert!(p.cursor.is_none());
}

#[test]
fn cursor_supersedes_all_query_parameters() {
    let req = ListMessagesRequest::new()
        .filter("subject eq 'x'".to_string())
        .select(vec!["id".to_string(), "subject".to_string()])
        .top(25)
        .skip(50)
        .order_by("receivedDateTime desc".to_string())
        .next("https://example.invalid/page2".to_string());
    let plan = req.build_plan();
    assert_eq!(plan.url, "https://example.invalid/page2");
    assert!(plan.query.is_empty());
    assert!(plan.headers.is_empty());
}

#[test]
fn fresh_fetch_carries_exactly_the_supplied_parameters() {
    let req = ListMessagesRequest::new()
        .select(vec!["id".to_string(), "subject".to_string()])
        .filter("isRead eq false".to_string())
        .top(25)
        .skip(50)
        .order_by("receivedDateTime desc".to_string());
    let plan = req.build_plan();
    assert_eq!(plan.url, "/me/messages");
    let q = plan.query;
    assert_eq!(q.len(), 5);
    assert_eq!(q[0], ("$select".to_string(), "id,subject".to_string()));
    assert_eq!(q[1], ("$filter".to_string(), "isRead eq false".to_string()));
    assert_eq!(q[2], ("$top".to_string(), "25".to_string()));
    assert_eq!(q[3], ("$skip".to_string(), "50".to_string()));
    assert_eq!(q[4], ("$orderby".to_string(), "receivedDateTime desc".to_string()));
}

#[test]
fn large_counts_are_written_in_full() {
    let plan = ListMessagesRequest::new().top(1234567890).build_plan();
    assert_eq!(plan.query, vec![("$top".to_string(), "1234567890".to_string())]);
    let plan = ListMessagesRequest::new().skip(0).build_plan();
    assert_eq!(plan.query, vec![("$skip".to_string(), "0".to_string())]);
}

#[test]
fn mailbox_override_changes_the_path() {
    let req = ListMessagesRequest::new().mailbox("box@example.com".to_string());
    let plan = req.build_plan();
    assert_eq!(plan.url, "/users/box@example.com/messages");
    assert!(plan.query.is_empty());
}

#[test]
fn empty_query_has_no_parameters() {
    let plan = ListMessagesRequest::new().build_plan();
    assert_eq!(plan.url, "/me/messages");
    assert!(plan.query.is_empty());
}

#[test]
fn single_select_is_not_joined() {
    let plan = ListMessagesRequest::new().select(vec!["id".to_string()]).build_plan();
    assert_eq!(plan.query, vec![("$select".to_string(), "id".to_string())]);
}

#[test]
fn attachment_listing_paths() {
    let plan = ListAttachmentsRequest::new("MSG".to_string()).build_plan();
    assert_eq!(plan.url, "/me/messages/MSG/attachments");
    assert!(plan.query.is_empty());
    let plan = ListAttachmentsRequest::new("MSG".to_string())
        .next("https://example.invalid/more".to_string())
        .build_plan();
    assert_eq!(plan.url, "https://example.invalid/more");
}
