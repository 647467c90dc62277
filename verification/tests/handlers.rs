use ticket_backend::database::{get_database_stats, health_check, DatabaseStats};
use ticket_backend::error::{AppError, FieldError};
use ticket_backend::handlers::tags::{
    add_ticket_tag, create_tag_with, get_popular_tags, get_tag_stats, list_tags,
    remove_ticket_tag, search_tags, set_ticket_tags, update_tag_at, ListTagsQuery,
    ListTagsResponse, PopularTagsQuery, SearchQuery, SetTicketTagsRequest, TagStats,
};
use ticket_backend::handlers::tickets::{
    add_comment, add_comment_with, bulk_update_status_at, create_ticket_with, error_line, get_ticket,
    get_ticket_stats, list_tickets, tally_priorities, tally_statuses, update_ticket_at,
    BulkUpdateResult, BulkUpdateStatusRequest, CommentOp, ListTicketsQuery, PriorityStats,
    StatusStats, TicketStats, TicketStatsQuery,
};
use ticket_backend::commands::Index;
use ticket_backend::handlers::{
    create_ticket_with_id, delete_ticket, gather_ids, get_tag, health_check_detailed,
    index_failure, read_ids, read_parts, read_priority, read_status, read_tag_ids, split_commas,
    update_ticket_read, HealthReport, TicketFields, TicketListQuery,
};
use ticket_backend::ids::{format_id, is_random_version, parse_id};
use ticket_backend::models::{
    Comment, CreateCommentRequest, CreateTagRequest, CreateTicketRequest, PaginatedResponse,
    Priority, Tag, TagWithCount, Ticket, TicketStatus, TicketWithDetails, Timestamp,
    UpdateTagRequest, UpdateTicketRequest,
};
use ticket_backend::sql::SqlValue;
use ticket_backend::store::{Expect, PriorityCount, Reply, Request, StatusCount, Step};

fn asked<F, T>(step: Step<F, T>) -> (F, Request) {
    match step {
        Step::Ask(state, request) => (state, request),
        Step::Done(_) => panic!("the operation ended where a request was due"),
    }
}

fn ended<F, T>(step: Step<F, T>) -> Result<T, AppError> {
    match step {
        Step::Done(result) => result,
        Step::Ask(_, request) => panic!("unexpected request: {}", request.statement.sql),
    }
}

fn text(value: &str) -> SqlValue {
    SqlValue::Text(value.to_string())
}

const AT: Timestamp = Timestamp { micros: 1_700_000_000_000_000 };

const SOME_ID: &str = "550e8400-e29b-41d4-a716-446655440000";
const SOME_ID_VALUE: u128 = 0x550e8400_e29b_41d4_a716_446655440000;

fn tag(id: u128, name: &str) -> Tag {
    Tag { id, name: name.to_string(), color: "#000000".to_string(), created_at: AT, updated_at: AT }
}

fn ticket(id: u128, title: &str) -> Ticket {
    Ticket {
        id,
        title: title.to_string(),
        description: None,
        status: TicketStatus::Open,
        priority: Priority::Medium,
        assignee_id: None,
        reporter_id: None,
        created_at: AT,
        updated_at: AT,
        resolved_at: None,
    }
}

#[test]
fn identifiers_are_read_and_written() {
    assert_eq!(parse_id(SOME_ID), Ok(SOME_ID_VALUE));
    assert_eq!(parse_id("550E8400E29B41D4A716446655440000"), Ok(SOME_ID_VALUE));
    assert_eq!(parse_id("not-an-id"), Err(AppError::BadRequest("无效的标识符".to_string())));
    assert_eq!(parse_id(""), Err(AppError::BadRequest("无效的标识符".to_string())));
    assert_eq!(format_id(SOME_ID_VALUE), SOME_ID);
    assert_eq!(format_id(0), "00000000-0000-0000-0000-000000000000");
    assert_eq!(parse_id(&format_id(u128::MAX)), Ok(u128::MAX));
    assert!(is_random_version(0x550e8400_e29b_41d4_a716_446655440000));
    assert!(!is_random_version(0x550e8400_e29b_11d4_a716_446655440000));
    assert!(!is_random_version(0x550e8400_e29b_41d4_e716_446655440000));
}

#[test]
fn invalid_tag_is_refused_before_the_store() {
    let request = CreateTagRequest { name: String::new(), color: None };
    let refused = ended(create_tag_with(request, 1, AT));
    assert_eq!(
        refused,
        Err(AppError::Validation(vec![FieldError {
            field: "name".to_string(),
            message: "标签名称长度必须在1-50个字符之间".to_string(),
        }]))
    );
    assert_eq!(refused.unwrap_err().status_code(), 400);
    let change = UpdateTagRequest { name: None, color: Some("blue".to_string()) };
    assert!(matches!(ended(update_tag_at(1, change, AT)), Err(AppError::Validation(_))));
    let request = CreateTagRequest { name: "ok".to_string(), color: None };
    let (_, check) = asked(create_tag_with(request, 1, AT));
    assert_eq!(check.statement.sql, "SELECT COUNT(*) FROM tags WHERE name = $1");
}

#[test]
fn invalid_ticket_is_refused_before_the_store() {
    let request = CreateTicketRequest {
        title: String::new(),
        description: None,
        priority: None,
        assignee_id: None,
        reporter_id: None,
        tag_ids: None,
    };
    assert!(matches!(ended(create_ticket_with(request, 1, AT)), Err(AppError::Validation(_))));
    let change = UpdateTicketRequest {
        title: Some("x".repeat(256)),
        description: None,
        status: None,
        priority: None,
        assignee_id: None,
        tag_ids: None,
    };
    assert!(matches!(ended(update_ticket_at(1, change, AT)), Err(AppError::Validation(_))));
}

#[test]
fn tag_listing_with_and_without_counts() {
    let (state, request) = asked(list_tags(ListTagsQuery { with_counts: None }));
    assert_eq!(request.expect, Expect::Tags);
    assert_eq!(
        ended(state.advance(Reply::Tags(vec![tag(1, "a")]))),
        Ok(ListTagsResponse::Simple(vec![tag(1, "a")]))
    );
    let (_, request) = asked(list_tags(ListTagsQuery { with_counts: Some(false) }));
    assert_eq!(request.expect, Expect::Tags);
    let (state, request) = asked(list_tags(ListTagsQuery { with_counts: Some(true) }));
    assert_eq!(request.expect, Expect::CountedTags);
    let rows = vec![TagWithCount { tag: tag(1, "a"), ticket_count: 4 }];
    assert_eq!(
        ended(state.advance(Reply::CountedTags(rows.clone()))),
        Ok(ListTagsResponse::WithCounts(rows))
    );
}

#[test]
fn tag_queries_pass_their_values_on() {
    let (_, request) = asked(search_tags(SearchQuery { q: "ui".to_string() }));
    assert_eq!(request.statement.params, vec![text("%ui%"), SqlValue::Int(20)]);
    let (_, request) = asked(get_popular_tags(PopularTagsQuery { limit: Some(7) }));
    assert_eq!(request.statement.params, vec![SqlValue::Int(7)]);
}

#[test]
fn tag_set_is_replaced_after_every_tag_is_found() {
    let request = SetTicketTagsRequest { tag_ids: vec![5, 6] };
    let (state, first) = asked(set_ticket_tags(9, request));
    assert_eq!(
        first.statement.sql,
        "SELECT id, name, color, created_at, updated_at FROM tags WHERE id = $1"
    );
    assert_eq!(first.statement.params, vec![SqlValue::Id(5)]);
    let (state, second) = asked(state.advance(Reply::Tags(vec![tag(5, "a")])));
    assert_eq!(second.statement.params, vec![SqlValue::Id(6)]);
    let (state, clear) = asked(state.advance(Reply::Tags(vec![tag(6, "b")])));
    assert_eq!(clear.statement.sql, "DELETE FROM ticket_tags WHERE ticket_id = $1");
    assert_eq!(clear.statement.params, vec![SqlValue::Id(9)]);
    let (state, write) = asked(state.advance(Reply::Affected(1)));
    assert_eq!(
        write.statement.sql,
        "INSERT INTO ticket_tags (ticket_id, tag_id) VALUES ($1, $2), ($3, $4) ON CONFLICT DO NOTHING"
    );
    assert_eq!(
        write.statement.params,
        vec![SqlValue::Id(9), SqlValue::Id(5), SqlValue::Id(9), SqlValue::Id(6)]
    );
    let (state, list) = asked(state.advance(Reply::Affected(2)));
    assert!(list.statement.sql.ends_with("WHERE tt.ticket_id = $1 ORDER BY t.name"));
    let tags = vec![tag(5, "a"), tag(6, "b")];
    assert_eq!(ended(state.advance(Reply::Tags(tags.clone()))), Ok(tags));
}

#[test]
fn missing_tag_leaves_the_set_untouched() {
    let request = SetTicketTagsRequest { tag_ids: vec![5, 6] };
    let (state, _) = asked(set_ticket_tags(9, request));
    let (state, _) = asked(state.advance(Reply::Tags(vec![tag(5, "a")])));
    assert_eq!(
        ended(state.advance(Reply::Tags(vec![]))),
        Err(AppError::NotFound("标签未找到".to_string()))
    );
}

#[test]
fn empty_set_only_clears() {
    let (state, clear) = asked(set_ticket_tags(9, SetTicketTagsRequest { tag_ids: vec![] }));
    assert_eq!(clear.statement.sql, "DELETE FROM ticket_tags WHERE ticket_id = $1");
    let (state, list) = asked(state.advance(Reply::Affected(4)));
    assert_eq!(list.statement.params, vec![SqlValue::Id(9)]);
    assert_eq!(list.expect, Expect::Tags);
    assert_eq!(ended(state.advance(Reply::Tags(vec![]))), Ok(vec![]));
}

#[test]
fn single_tag_is_added_if_it_exists() {
    let (state, check) = asked(add_ticket_tag(9, 5));
    assert_eq!(check.statement.params, vec![SqlValue::Id(5)]);
    let (state, attach) = asked(state.advance(Reply::Tags(vec![tag(5, "a")])));
    assert_eq!(
        attach.statement.sql,
        "INSERT INTO ticket_tags (ticket_id, tag_id) VALUES ($1, $2) ON CONFLICT DO NOTHING"
    );
    assert_eq!(attach.statement.params, vec![SqlValue::Id(9), SqlValue::Id(5)]);
    let (state, _) = asked(state.advance(Reply::Affected(0)));
    assert_eq!(ended(state.advance(Reply::Tags(vec![tag(5, "a")]))), Ok(vec![tag(5, "a")]));
    let (state, _) = asked(add_ticket_tag(9, 5));
    assert_eq!(
        ended(state.advance(Reply::Tags(vec![]))),
        Err(AppError::NotFound("标签未找到".to_string()))
    );
}

#[test]
fn single_tag_is_removed() {
    let (state, detach) = asked(remove_ticket_tag(9, 5));
    assert_eq!(detach.statement.sql, "DELETE FROM ticket_tags WHERE ticket_id = $1 AND tag_id = $2");
    assert_eq!(detach.statement.params, vec![SqlValue::Id(9), SqlValue::Id(5)]);
    let (state, list) = asked(state.advance(Reply::Affected(0)));
    assert_eq!(list.statement.params, vec![SqlValue::Id(9)]);
    assert_eq!(ended(state.advance(Reply::Tags(vec![]))), Ok(vec![]));
}

#[test]
fn tag_figures() {
    let (state, first) = asked(get_tag_stats());
    assert_eq!(first.statement.sql, "SELECT COUNT(*) FROM tags");
    let (state, second) = asked(state.advance(Reply::Count(10)));
    assert_eq!(second.statement.sql, "SELECT COUNT(*) FROM ticket_tags");
    let (state, third) = asked(state.advance(Reply::Count(25)));
    assert!(third.statement.sql.ends_with("WHERE tt.tag_id IS NULL"));
    let (state, fourth) = asked(state.advance(Reply::Count(3)));
    assert!(fourth.statement.sql.ends_with("ORDER BY COUNT(tt.tag_id) DESC LIMIT $1"));
    assert_eq!(fourth.statement.params, vec![SqlValue::Int(5)]);
    let most_used = vec![TagWithCount { tag: tag(1, "a"), ticket_count: 9 }];
    assert_eq!(
        ended(state.advance(Reply::CountedTags(most_used.clone()))),
        Ok(TagStats { total_tags: 10, total_usage: 25, unused_tags: 3, most_used_tags: most_used })
    );
}

#[test]
fn ticket_details_come_in_three_steps() {
    let (state, _) = asked(get_ticket(9));
    let (state, tags) = asked(state.advance(Reply::Tickets(vec![ticket(9, "T")])));
    assert_eq!(tags.expect, Expect::Tags);
    let (state, comments) = asked(state.advance(Reply::Tags(vec![tag(1, "a")])));
    assert_eq!(
        comments.statement.sql,
        "SELECT id, ticket_id, author_id, content, created_at, updated_at FROM comments WHERE ticket_id = $1 ORDER BY created_at ASC"
    );
    assert_eq!(comments.statement.params, vec![SqlValue::Id(9)]);
    let comment = Comment {
        id: 2,
        ticket_id: 9,
        author_id: None,
        content: "hi".to_string(),
        created_at: AT,
        updated_at: AT,
    };
    assert_eq!(
        ended(state.advance(Reply::Comments(vec![comment.clone()]))),
        Ok(TicketWithDetails { ticket: ticket(9, "T"), tags: vec![tag(1, "a")], comments: vec![comment] })
    );
    let (state, _) = asked(get_ticket(9));
    assert_eq!(
        ended(state.advance(Reply::Tickets(vec![]))),
        Err(AppError::NotFound("工单未找到".to_string()))
    );
}

#[test]
fn typed_listing_goes_to_the_repository() {
    let query = ListTicketsQuery {
        status: Some(TicketStatus::Closed),
        priority: None,
        assignee_id: None,
        reporter_id: None,
        tag_id: None,
        search: None,
        limit: Some(3),
        offset: None,
        sort_by: Some("title".to_string()),
        sort_order: Some("asc".to_string()),
    };
    let (state, count) = asked(list_tickets(query));
    assert_eq!(count.statement.sql, "SELECT COUNT(*) FROM tickets WHERE status = $1");
    assert_eq!(count.statement.params, vec![text("closed")]);
    let (state, page) = asked(state.advance(Reply::Count(0)));
    assert!(page.statement.sql.ends_with(" WHERE status = $1 ORDER BY title ASC LIMIT $2 OFFSET $3"));
    assert_eq!(
        ended(state.advance(Reply::Tickets(vec![]))),
        Ok(PaginatedResponse { data: vec![], total: 0, limit: 3, offset: 0 })
    );
}

#[test]
fn comment_needs_its_ticket() {
    let request = CreateCommentRequest { content: "looks good".to_string(), author_id: Some(4) };
    let (state, check) = asked(add_comment_with(9, request, 2, AT));
    assert!(check.statement.sql.ends_with("FROM tickets WHERE id = $1"));
    assert_eq!(check.statement.params, vec![SqlValue::Id(9)]);
    let (state, insert) = asked(state.advance(Reply::Tickets(vec![ticket(9, "T")])));
    assert_eq!(
        insert.statement.params,
        vec![
            SqlValue::Id(2),
            SqlValue::Id(9),
            SqlValue::Id(4),
            text("looks good"),
            SqlValue::Time(AT)
        ]
    );
    let stored = Comment {
        id: 2,
        ticket_id: 9,
        author_id: Some(4),
        content: "looks good".to_string(),
        created_at: AT,
        updated_at: AT,
    };
    assert_eq!(ended(state.advance(Reply::Comments(vec![stored.clone()]))), Ok(stored));
    let request = CreateCommentRequest { content: "x".to_string(), author_id: None };
    let (state, _) = asked(add_comment_with(9, request, 2, AT));
    assert_eq!(
        ended(state.advance(Reply::Tickets(vec![]))),
        Err(AppError::NotFound("工单未找到".to_string()))
    );
    let request = CreateCommentRequest { content: String::new(), author_id: None };
    assert!(matches!(ended(add_comment_with(9, request, 2, AT)), Err(AppError::Validation(_))));
}

#[test]
fn comment_gets_a_random_identifier() {
    let request = CreateCommentRequest { content: "x".to_string(), author_id: None };
    let (state, _) = asked(add_comment(9, request));
    match state {
        CommentOp::Checking { id, ticket_id, now, .. } => {
            assert!(is_random_version(id));
            assert_eq!(ticket_id, 9);
            assert!(now.micros > 1_600_000_000_000_000);
        }
        other => panic!("unexpected state {:?}", other),
    }
}

#[test]
fn bulk_change_reports_each_failure() {
    let request = BulkUpdateStatusRequest {
        ticket_ids: vec![SOME_ID_VALUE, 2, 3],
        status: TicketStatus::Resolved,
    };
    let (state, first) = asked(bulk_update_status_at(request, AT));
    assert!(first.statement.sql.starts_with("UPDATE tickets SET updated_at = $1, status = $2 WHERE id = $3"));
    assert_eq!(
        first.statement.params,
        vec![SqlValue::Time(AT), text("resolved"), SqlValue::Id(SOME_ID_VALUE)]
    );
    let (state, second) = asked(state.advance(Reply::Tickets(vec![])));
    assert_eq!(second.statement.params[2], SqlValue::Id(2));
    let (state, third) = asked(state.advance(Reply::Tickets(vec![ticket(2, "b")])));
    assert_eq!(third.statement.params[2], SqlValue::Id(3));
    let result = ended(state.advance(Reply::Failed("deadlock".to_string())));
    assert_eq!(
        result,
        Ok(BulkUpdateResult {
            updated_count: 1,
            total_count: 3,
            errors: Some(vec![
                format!("{}: 未找到资源: 工单未找到", SOME_ID),
                "00000000-0000-0000-0000-000000000003: 数据库错误: deadlock".to_string(),
            ]),
        })
    );
}

#[test]
fn bulk_change_without_failures_has_no_errors() {
    let request = BulkUpdateStatusRequest { ticket_ids: vec![], status: TicketStatus::Closed };
    assert_eq!(
        ended(bulk_update_status_at(request, AT)),
        Ok(BulkUpdateResult { updated_count: 0, total_count: 0, errors: None })
    );
    let request = BulkUpdateStatusRequest { ticket_ids: vec![1, 2], status: TicketStatus::Closed };
    let (state, _) = asked(bulk_update_status_at(request, AT));
    let (state, _) = asked(state.advance(Reply::Tickets(vec![ticket(1, "a")])));
    assert_eq!(
        ended(state.advance(Reply::Tickets(vec![ticket(2, "b")]))),
        Ok(BulkUpdateResult { updated_count: 2, total_count: 2, errors: None })
    );
}

#[test]
fn counts_are_added_up_by_status_and_priority() {
    let rows = vec![
        StatusCount { status: TicketStatus::Open, count: 4 },
        StatusCount { status: TicketStatus::Closed, count: 1 },
        StatusCount { status: TicketStatus::Open, count: 6 },
    ];
    assert_eq!(
        tally_statuses(&rows),
        Some(StatusStats { open: 10, in_progress: 0, resolved: 0, closed: 1 })
    );
    assert_eq!(
        tally_statuses(&vec![]),
        Some(StatusStats { open: 0, in_progress: 0, resolved: 0, closed: 0 })
    );
    let too_many = vec![
        StatusCount { status: TicketStatus::Resolved, count: i64::MAX },
        StatusCount { status: TicketStatus::Resolved, count: 1 },
    ];
    assert_eq!(tally_statuses(&too_many), None);
    let rows = vec![
        PriorityCount { priority: Priority::Low, count: 2 },
        PriorityCount { priority: Priority::Urgent, count: 3 },
        PriorityCount { priority: Priority::Medium, count: 5 },
        PriorityCount { priority: Priority::High, count: 7 },
    ];
    assert_eq!(
        tally_priorities(&rows),
        Some(PriorityStats { urgent: 3, high: 7, medium: 5, low: 2 })
    );
}

#[test]
fn ticket_figures() {
    let (state, first) = asked(get_ticket_stats(TicketStatsQuery { assignee_id: Some(6) }));
    assert_eq!(
        first.statement.sql,
        "SELECT status, COUNT(*) FROM tickets WHERE assignee_id = $1 GROUP BY status"
    );
    assert_eq!(first.statement.params, vec![SqlValue::Id(6)]);
    assert_eq!(first.expect, Expect::StatusCounts);
    let statuses = vec![StatusCount { status: TicketStatus::InProgress, count: 2 }];
    let (state, second) = asked(state.advance(Reply::StatusCounts(statuses)));
    assert_eq!(
        second.statement.sql,
        "SELECT priority, COUNT(*) FROM tickets WHERE assignee_id = $1 GROUP BY priority"
    );
    assert_eq!(second.expect, Expect::PriorityCounts);
    let priorities = vec![PriorityCount { priority: Priority::High, count: 2 }];
    assert_eq!(
        ended(state.advance(Reply::PriorityCounts(priorities))),
        Ok(TicketStats {
            total_by_status: StatusStats { open: 0, in_progress: 2, resolved: 0, closed: 0 },
            total_by_priority: PriorityStats { urgent: 0, high: 2, medium: 0, low: 0 },
        })
    );
    let (state, _) = asked(get_ticket_stats(TicketStatsQuery { assignee_id: None }));
    let overflow = vec![
        StatusCount { status: TicketStatus::Open, count: i64::MAX },
        StatusCount { status: TicketStatus::Open, count: i64::MAX },
    ];
    assert_eq!(
        ended(state.advance(Reply::StatusCounts(overflow))),
        Err(AppError::Internal("count out of range".to_string()))
    );
}

#[test]
fn statuses_and_priorities_are_read_from_text() {
    assert_eq!(read_status(&None), Ok(None));
    assert_eq!(read_status(&Some("in_progress".to_string())), Ok(Some(TicketStatus::InProgress)));
    assert_eq!(
        read_status(&Some("done".to_string())),
        Err(AppError::BadRequest("无效的状态".to_string()))
    );
    assert_eq!(read_priority(&None), Ok(None));
    assert_eq!(read_priority(&Some("urgent".to_string())), Ok(Some(Priority::Urgent)));
    assert_eq!(
        read_priority(&Some("HIGH".to_string())),
        Err(AppError::BadRequest("无效的优先级".to_string()))
    );
}

#[test]
fn texts_are_split_at_commas() {
    assert_eq!(split_commas("a,b"), vec!["a", "b"]);
    assert_eq!(split_commas(""), vec![""]);
    assert_eq!(split_commas("abc"), vec!["abc"]);
    assert_eq!(split_commas("a,,b,"), vec!["a", "", "b", ""]);
    assert_eq!(split_commas(",标签, x"), vec!["", "标签", " x"]);
    for text in ["", ",", "a", "a,b,c", ",,", "x,y,"] {
        let expected: Vec<String> = text.split(',').map(|piece| piece.to_string()).collect();
        assert_eq!(split_commas(text), expected);
    }
}

#[test]
fn tag_lists_are_read_from_text() {
    assert_eq!(read_tag_ids(&None), Ok(vec![]));
    assert_eq!(read_tag_ids(&Some("  ".to_string())), Ok(vec![]));
    assert_eq!(read_tag_ids(&Some(SOME_ID.to_string())), Ok(vec![SOME_ID_VALUE]));
    let two = format!(" {} , 00000000-0000-0000-0000-000000000007", SOME_ID);
    assert_eq!(read_tag_ids(&Some(two)), Ok(vec![SOME_ID_VALUE, 7]));
    let broken = format!("{},seven", SOME_ID);
    assert_eq!(read_tag_ids(&Some(broken)), Err(AppError::BadRequest("无效的标识符".to_string())));
    let trailing = format!("{},", SOME_ID);
    assert_eq!(read_tag_ids(&Some(trailing)), Err(AppError::BadRequest("无效的标识符".to_string())));
    assert_eq!(read_ids(&vec![]), Some(vec![]));
    assert_eq!(read_ids(&vec![SOME_ID.to_string(), "x".to_string()]), None);
}

fn text_query() -> TicketListQuery {
    TicketListQuery { search: None, status: None, priority: None, tag_ids: None, page: None, limit: None }
}

#[test]
fn pages_turn_into_offsets() {
    let listing = text_query().resolve().unwrap();
    assert_eq!((listing.limit, listing.offset), (20, 0));
    let listing = TicketListQuery { page: Some(3), limit: Some(10), ..text_query() }.resolve().unwrap();
    assert_eq!((listing.limit, listing.offset), (10, 20));
    let listing = TicketListQuery { page: Some(2), limit: Some(1000), ..text_query() }.resolve().unwrap();
    assert_eq!((listing.limit, listing.offset), (100, 100));
    let listing =
        TicketListQuery { page: Some(u32::MAX), limit: Some(100), ..text_query() }.resolve().unwrap();
    assert_eq!((listing.limit, listing.offset), (100, 429_496_729_400));
    assert_eq!(
        TicketListQuery { page: Some(0), ..text_query() }.resolve(),
        Err(AppError::BadRequest("无效的页码".to_string()))
    );
}

#[test]
fn text_query_is_checked_at_the_boundary() {
    let refused = |query: TicketListQuery| query.resolve().unwrap_err();
    assert_eq!(
        refused(TicketListQuery { status: Some("opened".to_string()), ..text_query() }),
        AppError::BadRequest("无效的状态".to_string())
    );
    assert_eq!(
        refused(TicketListQuery { priority: Some("highest".to_string()), ..text_query() }),
        AppError::BadRequest("无效的优先级".to_string())
    );
    assert_eq!(
        refused(TicketListQuery { tag_ids: Some("1,2".to_string()), ..text_query() }),
        AppError::BadRequest("无效的标识符".to_string())
    );
    assert_eq!(
        refused(TicketListQuery {
            status: Some("x".to_string()),
            priority: Some("y".to_string()),
            page: Some(0),
            ..text_query()
        }),
        AppError::BadRequest("无效的状态".to_string())
    );
}

#[test]
fn ticket_fields_are_read_from_text() {
    let fields = TicketFields {
        title: Some("T".to_string()),
        description: None,
        status: Some("closed".to_string()),
        priority: Some("low".to_string()),
    };
    assert_eq!(
        fields.clone().into_change(),
        Ok(UpdateTicketRequest {
            title: Some("T".to_string()),
            description: None,
            status: Some(TicketStatus::Closed),
            priority: Some(Priority::Low),
            assignee_id: None,
            tag_ids: None,
        })
    );
    assert_eq!(
        fields.into_creation(),
        Ok(CreateTicketRequest {
            title: "T".to_string(),
            description: None,
            priority: Some(Priority::Low),
            assignee_id: None,
            reporter_id: None,
            tag_ids: None,
        })
    );
    let no_title = TicketFields { title: None, description: None, status: None, priority: Some("x".to_string()) };
    assert_eq!(
        no_title.clone().into_creation(),
        Err(AppError::BadRequest("缺少标题".to_string()))
    );
    assert_eq!(no_title.into_change(), Err(AppError::BadRequest("无效的优先级".to_string())));
    let bad_both = TicketFields {
        title: Some("T".to_string()),
        description: None,
        status: Some("x".to_string()),
        priority: Some("y".to_string()),
    };
    assert_eq!(bad_both.clone().into_change(), Err(AppError::BadRequest("无效的状态".to_string())));
    assert_eq!(bad_both.into_creation(), Err(AppError::BadRequest("无效的优先级".to_string())));
}

#[test]
fn malformed_identifier_is_a_bad_request() {
    assert_eq!(ended(get_tag("12")), Err(AppError::BadRequest("无效的标识符".to_string())));
    assert_eq!(ended(delete_ticket("")), Err(AppError::BadRequest("无效的标识符".to_string())));
    let (_, request) = asked(get_tag(SOME_ID));
    assert_eq!(request.statement.params, vec![SqlValue::Id(SOME_ID_VALUE)]);
    let (_, request) = asked(delete_ticket(SOME_ID));
    assert_eq!(request.statement.sql, "DELETE FROM ticket_tags WHERE ticket_id = $1");
    let fields = TicketFields { title: None, description: None, status: Some("x".to_string()), priority: None };
    assert_eq!(
        ended(update_ticket_read(None, fields.clone(), AT)),
        Err(AppError::BadRequest("无效的标识符".to_string()))
    );
    assert_eq!(
        ended(update_ticket_read(Some(1), fields, AT)),
        Err(AppError::BadRequest("无效的状态".to_string()))
    );
}

#[test]
fn ticket_from_text_without_title() {
    let fields = TicketFields { title: None, description: None, status: None, priority: None };
    let refused = ended(create_ticket_with_id(fields, 1, AT));
    assert_eq!(refused, Err(AppError::BadRequest("缺少标题".to_string())));
}

#[test]
fn health_follows_the_store() {
    let (state, ping) = asked(health_check());
    assert_eq!(ping.statement.sql, "SELECT 1");
    assert_eq!(ended(state.advance(Reply::Affected(1))), Ok(true));
    let (state, _) = asked(health_check());
    assert_eq!(ended(state.advance(Reply::Failed("refused".to_string()))), Ok(false));
    let (state, _) = asked(health_check_detailed());
    let report = ended(state.advance(Reply::Affected(0))).unwrap();
    assert_eq!(report, HealthReport { database: true });
    assert_eq!(report.status(), "healthy");
    let (state, _) = asked(health_check_detailed());
    let report = ended(state.advance(Reply::Failed("refused".to_string()))).unwrap();
    assert_eq!(report.status(), "unhealthy");
}

#[test]
fn strict_counting_fails_with_the_store() {
    let (state, first) = asked(get_database_stats());
    assert_eq!(first.statement.sql, "SELECT COUNT(*) FROM tickets");
    let (state, second) = asked(state.advance(Reply::Count(3)));
    assert_eq!(second.statement.sql, "SELECT COUNT(*) FROM tags");
    let (state, third) = asked(state.advance(Reply::Count(2)));
    assert_eq!(third.statement.sql, "SELECT COUNT(*) FROM comments");
    assert_eq!(
        ended(state.advance(Reply::Count(1))),
        Ok(DatabaseStats { tickets_count: 3, tags_count: 2, comments_count: 1 })
    );
    let (state, _) = asked(get_database_stats());
    assert_eq!(
        ended(state.advance(Reply::Failed("down".to_string()))),
        Err(AppError::Database("down".to_string()))
    );
}

#[test]
fn identifiers_are_gathered_if_all_are_there() {
    assert_eq!(gather_ids(&vec![]), Some(vec![]));
    assert_eq!(gather_ids(&vec![Some(3), Some(1), Some(3)]), Some(vec![3, 1, 3]));
    assert_eq!(gather_ids(&vec![Some(3), None, Some(1)]), None);
    assert_eq!(gather_ids(&vec![None]), None);
    let parts = vec![format!(" {}\t", SOME_ID), "x".to_string(), String::new()];
    assert_eq!(read_parts(&parts), vec![Some(SOME_ID_VALUE), None, None]);
    assert_eq!(read_parts(&vec![]), vec![]);
}

#[test]
fn failure_lines() {
    assert_eq!(
        error_line("abc", &AppError::NotFound("工单未找到".to_string())),
        "abc: 未找到资源: 工单未找到"
    );
    assert_eq!(error_line("", &AppError::Database("down".to_string())), ": 数据库错误: down");
    assert_eq!(
        index_failure(Index::TagsName, "permission denied"),
        "索引创建失败 CREATE INDEX IF NOT EXISTS idx_tags_name ON tags(name): permission denied"
    );
}
