use ticket_backend::models::{PaginatedResponse, Priority, TicketStatus};

#[test]
fn status_defaults_to_open() {
    assert_eq!(TicketStatus::default(), TicketStatus::Open);
}

#[test]
fn priority_defaults_to_medium() {
    assert_eq!(Priority::default(), Priority::Medium);
}

#[test]
fn status_texts_round_trip() {
    for status in [
        TicketStatus::Open,
        TicketStatus::InProgress,
        TicketStatus::Resolved,
        TicketStatus::Closed,
    ] {
        assert_eq!(TicketStatus::parse(status.as_str()), Some(status));
    }
    assert_eq!(TicketStatus::InProgress.as_str(), "in_progress");
    assert_eq!(TicketStatus::parse("Open"), None);
    assert_eq!(TicketStatus::parse(""), None);
}

#[test]
fn page_keeps_what_it_is_given() {
    let page = PaginatedResponse::new(vec![1u8, 2, 3], 40, 3, 6);
    assert_eq!(page.data, vec![1u8, 2, 3]);
    assert_eq!(page.total, 40);
    assert_eq!(page.limit, 3);
    assert_eq!(page.offset, 6);
}
