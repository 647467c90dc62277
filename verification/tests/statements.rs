use ticket_backend::commands::{
    attach_tags_request, count_tags_named_request, grouped_count_request, insert_comment_request,
    insert_tag_request, update_tag_request, Index, Table, COUNT_BY_PRIORITY_HEAD,
    COUNT_BY_STATUS_HEAD, GROUP_BY_PRIORITY, GROUP_BY_STATUS,
};
use ticket_backend::listing::{
    count_request, page_request, resolve_order, resolve_pattern, Direction, Listing, Order,
    SortColumn, TicketFilter,
};
use ticket_backend::models::{Priority, TicketQuery, TicketStatus, Timestamp, UpdateTicketRequest};
use ticket_backend::repositories::tickets::update_ticket_request;
use ticket_backend::sql::{SqlValue, Statement};
use ticket_backend::store::Expect;

fn text(value: &str) -> SqlValue {
    SqlValue::Text(value.to_string())
}

fn no_filter() -> TicketFilter {
    TicketFilter {
        status: None,
        priority: None,
        assignee_id: None,
        reporter_id: None,
        pattern: None,
        tag_ids: vec![],
    }
}

fn newest_first() -> Order {
    Order { column: SortColumn::CreatedAt, direction: Direction::Descending }
}

const TICKET_COLUMNS: &str = "id, title, description, status, priority, assignee_id, reporter_id, created_at, updated_at, resolved_at";

#[test]
fn placeholders_count_the_bound_values() {
    let mut statement = Statement::new("SELECT ");
    statement.push_bind(SqlValue::Int(1));
    statement.push(", ");
    statement.push_bind(text("two"));
    statement.push(", ");
    statement.push_again();
    statement.push(", ");
    statement.push_bind(SqlValue::NoText);
    assert_eq!(statement.sql, "SELECT $1, $2, $2, $3");
    assert_eq!(statement.params, vec![SqlValue::Int(1), text("two"), SqlValue::NoText]);
}

#[test]
fn tenth_placeholder_has_two_digits() {
    let mut statement = Statement::new("");
    for n in 0..12 {
        statement.push_bind(SqlValue::Int(n));
        statement.push(" ");
    }
    assert_eq!(statement.sql, "$1 $2 $3 $4 $5 $6 $7 $8 $9 $10 $11 $12 ");
    assert_eq!(statement.params.len(), 12);
}

#[test]
fn optional_values_bind_null() {
    assert_eq!(SqlValue::optional_id(Some(9)), SqlValue::Id(9));
    assert_eq!(SqlValue::optional_id(None), SqlValue::NoId);
    assert_eq!(SqlValue::optional_text(Some("x".to_string())), text("x"));
    assert_eq!(SqlValue::optional_text(None), SqlValue::NoText);
}

#[test]
fn count_without_criteria_has_no_where() {
    let request = count_request(&no_filter());
    assert_eq!(request.statement.sql, "SELECT COUNT(*) FROM tickets");
    assert_eq!(request.statement.params, vec![]);
    assert_eq!(request.expect, Expect::Count);
}

#[test]
fn single_criterion_follows_where() {
    let filter = TicketFilter { status: Some(TicketStatus::Open), ..no_filter() };
    let request = count_request(&filter);
    assert_eq!(request.statement.sql, "SELECT COUNT(*) FROM tickets WHERE status = $1");
    assert_eq!(request.statement.params, vec![text("open")]);
    let filter = TicketFilter { reporter_id: Some(44), ..no_filter() };
    let request = count_request(&filter);
    assert_eq!(request.statement.sql, "SELECT COUNT(*) FROM tickets WHERE reporter_id = $1");
    assert_eq!(request.statement.params, vec![SqlValue::Id(44)]);
}

#[test]
fn criteria_are_joined_by_and() {
    let filter = TicketFilter {
        status: Some(TicketStatus::Open),
        priority: Some(Priority::High),
        ..no_filter()
    };
    let request = count_request(&filter);
    assert_eq!(
        request.statement.sql,
        "SELECT COUNT(*) FROM tickets WHERE status = $1 AND priority = $2"
    );
    assert_eq!(request.statement.params, vec![text("open"), text("high")]);
}

#[test]
fn every_criterion_binds_its_values() {
    let filter = TicketFilter {
        status: Some(TicketStatus::InProgress),
        priority: Some(Priority::Urgent),
        assignee_id: Some(1),
        reporter_id: Some(2),
        pattern: Some("%login%".to_string()),
        tag_ids: vec![10, 11, 12],
    };
    let listing = Listing { filter, order: newest_first(), limit: 20, offset: 40 };
    let count = count_request(&listing.filter);
    let where_clause = " WHERE status = $1 AND priority = $2 AND assignee_id = $3 AND reporter_id = $4 AND (title ILIKE $5 OR description ILIKE $5) AND id IN (SELECT ticket_id FROM ticket_tags WHERE tag_id IN ($6, $7, $8))";
    assert_eq!(count.statement.sql, format!("SELECT COUNT(*) FROM tickets{}", where_clause));
    let values = vec![
        text("in_progress"),
        text("urgent"),
        SqlValue::Id(1),
        SqlValue::Id(2),
        text("%login%"),
        SqlValue::Id(10),
        SqlValue::Id(11),
        SqlValue::Id(12),
    ];
    assert_eq!(count.statement.params, values);
    let page = page_request(&listing);
    assert_eq!(
        page.statement.sql,
        format!(
            "SELECT {} FROM tickets{} ORDER BY created_at DESC LIMIT $9 OFFSET $10",
            TICKET_COLUMNS, where_clause
        )
    );
    let mut page_values = values.clone();
    page_values.push(SqlValue::Int(20));
    page_values.push(SqlValue::Int(40));
    assert_eq!(page.statement.params, page_values);
    assert_eq!(page.expect, Expect::Tickets);
}

#[test]
fn values_never_reach_the_text() {
    let hostile = "'; DROP TABLE tickets; --";
    let query = TicketQuery {
        status: None,
        priority: None,
        assignee_id: None,
        reporter_id: None,
        tag_id: None,
        search: Some(hostile.to_string()),
        limit: None,
        offset: None,
        sort_by: None,
        sort_order: None,
    };
    let listing = query.resolve().unwrap();
    let page = page_request(&listing);
    assert_eq!(
        page.statement.sql,
        format!(
            "SELECT {} FROM tickets WHERE (title ILIKE $1 OR description ILIKE $1) ORDER BY created_at DESC LIMIT $2 OFFSET $3",
            TICKET_COLUMNS
        )
    );
    assert_eq!(
        page.statement.params,
        vec![text("%'; DROP TABLE tickets; --%"), SqlValue::Int(20), SqlValue::Int(0)]
    );
    let injected = TicketQuery { sort_by: Some("title; DROP TABLE tickets".to_string()), ..query };
    assert!(injected.resolve().is_err());
}

#[test]
fn order_comes_from_the_list_of_columns() {
    assert_eq!(resolve_order(&None, &None), Ok(newest_first()));
    let by = |name: &str| resolve_order(&Some(name.to_string()), &None).map(|o| o.column);
    assert_eq!(by("created_at"), Ok(SortColumn::CreatedAt));
    assert_eq!(by("updated_at"), Ok(SortColumn::UpdatedAt));
    assert_eq!(by("resolved_at"), Ok(SortColumn::ResolvedAt));
    assert_eq!(by("title"), Ok(SortColumn::Title));
    assert_eq!(by("status"), Ok(SortColumn::Status));
    assert_eq!(by("priority"), Ok(SortColumn::Priority));
    assert_eq!(
        by("id"),
        Err(ticket_backend::error::AppError::BadRequest("无效的排序字段".to_string()))
    );
    assert_eq!(
        resolve_order(&None, &Some("up".to_string())),
        Err(ticket_backend::error::AppError::BadRequest("无效的排序方向".to_string()))
    );
    assert_eq!(
        resolve_order(&Some("nope".to_string()), &Some("up".to_string())),
        Err(ticket_backend::error::AppError::BadRequest("无效的排序字段".to_string()))
    );
    assert_eq!(
        resolve_order(&Some("title".to_string()), &Some("asc".to_string())),
        Ok(Order { column: SortColumn::Title, direction: Direction::Ascending })
    );
    let listing = Listing {
        filter: no_filter(),
        order: Order { column: SortColumn::Priority, direction: Direction::Ascending },
        limit: 5,
        offset: 0,
    };
    assert_eq!(
        page_request(&listing).statement.sql,
        format!("SELECT {} FROM tickets ORDER BY priority ASC LIMIT $1 OFFSET $2", TICKET_COLUMNS)
    );
}

#[test]
fn blank_search_is_no_criterion() {
    assert_eq!(resolve_pattern(&None), None);
    assert_eq!(resolve_pattern(&Some("   ".to_string())), None);
    assert_eq!(resolve_pattern(&Some(String::new())), None);
    assert_eq!(resolve_pattern(&Some(" crash ".to_string())), Some("%crash%".to_string()));
}

#[test]
fn tag_statements() {
    let at = Timestamp { micros: 1_700_000_000_000_000 };
    let insert = insert_tag_request(3, "bug".to_string(), "#FF5733".to_string(), at);
    assert_eq!(
        insert.statement.sql,
        "INSERT INTO tags (id, name, color, created_at, updated_at) VALUES ($1, $2, $3, $4, $4) RETURNING id, name, color, created_at, updated_at"
    );
    assert_eq!(
        insert.statement.params,
        vec![SqlValue::Id(3), text("bug"), text("#FF5733"), SqlValue::Time(at)]
    );
    assert_eq!(insert.expect, Expect::Tags);
    let count = count_tags_named_request("bug".to_string(), None);
    assert_eq!(count.statement.sql, "SELECT COUNT(*) FROM tags WHERE name = $1");
    assert_eq!(count.statement.params, vec![text("bug")]);
    let count = count_tags_named_request("bug".to_string(), Some(3));
    assert_eq!(count.statement.sql, "SELECT COUNT(*) FROM tags WHERE name = $1 AND id != $2");
    assert_eq!(count.statement.params, vec![text("bug"), SqlValue::Id(3)]);
}

#[test]
fn tag_change_writes_only_what_is_given() {
    let at = Timestamp { micros: 9 };
    let tail = " RETURNING id, name, color, created_at, updated_at";
    let none = update_tag_request(3, None, None, at);
    assert_eq!(none.statement.sql, format!("UPDATE tags SET updated_at = $1 WHERE id = $2{}", tail));
    assert_eq!(none.statement.params, vec![SqlValue::Time(at), SqlValue::Id(3)]);
    let name = update_tag_request(3, Some("ui".to_string()), None, at);
    assert_eq!(
        name.statement.sql,
        format!("UPDATE tags SET updated_at = $1, name = $2 WHERE id = $3{}", tail)
    );
    assert_eq!(name.statement.params, vec![SqlValue::Time(at), text("ui"), SqlValue::Id(3)]);
    let color = update_tag_request(3, None, Some("#000000".to_string()), at);
    assert_eq!(
        color.statement.sql,
        format!("UPDATE tags SET updated_at = $1, color = $2 WHERE id = $3{}", tail)
    );
    let both = update_tag_request(3, Some("ui".to_string()), Some("#000000".to_string()), at);
    assert_eq!(
        both.statement.sql,
        format!("UPDATE tags SET updated_at = $1, name = $2, color = $3 WHERE id = $4{}", tail)
    );
    assert_eq!(
        both.statement.params,
        vec![SqlValue::Time(at), text("ui"), text("#000000"), SqlValue::Id(3)]
    );
}

#[test]
fn ticket_change_writes_only_what_is_given() {
    let at = Timestamp { micros: 9 };
    let change = UpdateTicketRequest {
        title: None,
        description: None,
        status: Some(TicketStatus::Closed),
        priority: None,
        assignee_id: None,
        tag_ids: Some(vec![4]),
    };
    let (request, tags) = update_ticket_request(8, change, at);
    assert_eq!(
        request.statement.sql,
        format!(
            "UPDATE tickets SET updated_at = $1, status = $2 WHERE id = $3 RETURNING {}",
            TICKET_COLUMNS
        )
    );
    assert_eq!(request.statement.params, vec![SqlValue::Time(at), text("closed"), SqlValue::Id(8)]);
    assert_eq!(tags, Some(vec![4]));
    let change = UpdateTicketRequest {
        title: Some("T".to_string()),
        description: Some("D".to_string()),
        status: Some(TicketStatus::Resolved),
        priority: Some(Priority::Low),
        assignee_id: Some(77),
        tag_ids: None,
    };
    let (request, tags) = update_ticket_request(8, change, at);
    assert_eq!(
        request.statement.sql,
        format!(
            "UPDATE tickets SET updated_at = $1, title = $2, description = $3, status = $4, priority = $5, assignee_id = $6 WHERE id = $7 RETURNING {}",
            TICKET_COLUMNS
        )
    );
    assert_eq!(
        request.statement.params,
        vec![
            SqlValue::Time(at),
            text("T"),
            text("D"),
            text("resolved"),
            text("low"),
            SqlValue::Id(77),
            SqlValue::Id(8)
        ]
    );
    assert_eq!(tags, None);
}

#[test]
fn attachments_in_one_statement() {
    let one = attach_tags_request(5, &vec![9]);
    assert_eq!(
        one.statement.sql,
        "INSERT INTO ticket_tags (ticket_id, tag_id) VALUES ($1, $2) ON CONFLICT DO NOTHING"
    );
    assert_eq!(one.statement.params, vec![SqlValue::Id(5), SqlValue::Id(9)]);
    let three = attach_tags_request(5, &vec![9, 8, 9]);
    assert_eq!(
        three.statement.sql,
        "INSERT INTO ticket_tags (ticket_id, tag_id) VALUES ($1, $2), ($3, $4), ($5, $6) ON CONFLICT DO NOTHING"
    );
    assert_eq!(
        three.statement.params,
        vec![
            SqlValue::Id(5),
            SqlValue::Id(9),
            SqlValue::Id(5),
            SqlValue::Id(8),
            SqlValue::Id(5),
            SqlValue::Id(9)
        ]
    );
    assert_eq!(three.expect, Expect::Affected);
}

#[test]
fn grouped_counts() {
    let all = grouped_count_request(COUNT_BY_STATUS_HEAD, None, GROUP_BY_STATUS, Expect::StatusCounts);
    assert_eq!(all.statement.sql, "SELECT status, COUNT(*) FROM tickets GROUP BY status");
    assert_eq!(all.statement.params, vec![]);
    let one = grouped_count_request(
        COUNT_BY_PRIORITY_HEAD,
        Some(6),
        GROUP_BY_PRIORITY,
        Expect::PriorityCounts,
    );
    assert_eq!(
        one.statement.sql,
        "SELECT priority, COUNT(*) FROM tickets WHERE assignee_id = $1 GROUP BY priority"
    );
    assert_eq!(one.statement.params, vec![SqlValue::Id(6)]);
}

#[test]
fn comment_statement() {
    let at = Timestamp { micros: 77 };
    let request = insert_comment_request(1, 2, None, "first".to_string(), at);
    assert_eq!(
        request.statement.sql,
        "INSERT INTO comments (id, ticket_id, author_id, content, created_at, updated_at) VALUES ($1, $2, $3, $4, $5, $5) RETURNING id, ticket_id, author_id, content, created_at, updated_at"
    );
    assert_eq!(
        request.statement.params,
        vec![SqlValue::Id(1), SqlValue::Id(2), SqlValue::NoId, text("first"), SqlValue::Time(at)]
    );
    assert_eq!(request.expect, Expect::Comments);
}

#[test]
fn maintenance_statements() {
    assert_eq!(Table::Tickets.count_sql(), "SELECT COUNT(*) FROM tickets");
    assert_eq!(Table::Tags.count_sql(), "SELECT COUNT(*) FROM tags");
    assert_eq!(Table::TicketTags.count_sql(), "SELECT COUNT(*) FROM ticket_tags");
    assert_eq!(Table::Comments.count_sql(), "SELECT COUNT(*) FROM comments");
    assert_eq!(Table::Tags.analyze_sql(), "ANALYZE tags");
    assert_eq!(
        Index::TicketsStatusCreatedAt.create_sql(),
        "CREATE INDEX IF NOT EXISTS idx_tickets_status_created_at ON tickets(status, created_at DESC)"
    );
    assert_eq!(Index::TagsName.create_sql(), "CREATE INDEX IF NOT EXISTS idx_tags_name ON tags(name)");
}
