use ticket_backend::database::DatabaseStats;
use ticket_backend::error::AppError;
use ticket_backend::handlers::{
    create_tag_with_id, create_ticket_with_id, database_optimize, database_stats, delete_tag,
    delete_ticket, get_tag, get_ticket, health_check_basic, list_tickets, update_ticket_read,
    OptimizeReport, TicketFields, TicketListQuery, MAINTENANCE_DONE,
};
use ticket_backend::ids::format_id;
use ticket_backend::models::{
    PaginatedResponse, Priority, Tag, Ticket, TicketStatus, TicketWithDetails, Timestamp,
};
use ticket_backend::sql::SqlValue;
use ticket_backend::store::{Reply, Request, Step};

fn asked<F, T>(step: Step<F, T>) -> (F, Request) {
    match step {
        Step::Ask(state, request) => (state, request),
        Step::Done(_) => panic!("the operation ended where a request was due"),
    }
}

fn ended<F, T>(step: Step<F, T>) -> Result<T, AppError> {
    match step {
        Step::Done(result) => result,
        Step::Ask(_, request) => panic!("unexpected request: {}", request.statement.sql),
    }
}

fn text(value: &str) -> SqlValue {
    SqlValue::Text(value.to_string())
}

const AT: Timestamp = Timestamp { micros: 1_700_000_000_000_000 };

const ID: u128 = 0x0f0e0d0c_0b0a_4908_8706_050403020100;

#[test]
fn test_health_check() {
    let body = health_check_basic();
    assert_eq!(body, "Ticket backend is running!");
}

#[test]
fn test_database_stats() {
    let (state, _) = asked(database_stats());
    let (state, _) = asked(state.advance(Reply::Count(12)));
    let (state, _) = asked(state.advance(Reply::Failed("relation missing".to_string())));
    let stats = ended(state.advance(Reply::Count(30))).unwrap();
    assert_eq!(stats, DatabaseStats { tickets_count: 12, tags_count: 0, comments_count: 30 });
}

#[test]
fn test_create_and_get_tag() {
    let (state, _) =
        asked(create_tag_with_id(Some("测试标签".to_string()), Some("#FF5733".to_string()), ID, AT));
    let (state, insert) = asked(state.advance(Reply::Count(0)));
    assert_eq!(
        insert.statement.params,
        vec![SqlValue::Id(ID), text("测试标签"), text("#FF5733"), SqlValue::Time(AT)]
    );
    let stored = Tag {
        id: ID,
        name: "测试标签".to_string(),
        color: "#FF5733".to_string(),
        created_at: AT,
        updated_at: AT,
    };
    let created_tag = ended(state.advance(Reply::Tags(vec![stored.clone()]))).unwrap();
    assert_eq!(created_tag.name, "测试标签");
    let tag_id = format_id(created_tag.id);

    let (state, select) = asked(get_tag(&tag_id));
    assert_eq!(select.statement.params, vec![SqlValue::Id(ID)]);
    let retrieved_tag = ended(state.advance(Reply::Tags(vec![stored]))).unwrap();
    assert_eq!(format_id(retrieved_tag.id), tag_id);
    assert_eq!(retrieved_tag.name, "测试标签");
    assert_eq!(retrieved_tag.color, "#FF5733");

    let (state, _) = asked(delete_tag(&tag_id));
    let (state, _) = asked(state.advance(Reply::Affected(0)));
    assert_eq!(ended(state.advance(Reply::Affected(1))), Ok(()));
}

#[test]
fn test_create_and_get_ticket() {
    let fields = TicketFields {
        title: Some("测试工单".to_string()),
        description: Some("这是一个测试工单的描述".to_string()),
        status: None,
        priority: Some("high".to_string()),
    };
    let (state, insert) = asked(create_ticket_with_id(fields, ID, AT));
    assert_eq!(insert.statement.params[1], text("测试工单"));
    assert_eq!(insert.statement.params[2], text("这是一个测试工单的描述"));
    assert_eq!(insert.statement.params[3], text("open"));
    assert_eq!(insert.statement.params[4], text("high"));
    let stored = Ticket {
        id: ID,
        title: "测试工单".to_string(),
        description: Some("这是一个测试工单的描述".to_string()),
        status: TicketStatus::Open,
        priority: Priority::High,
        assignee_id: None,
        reporter_id: None,
        created_at: AT,
        updated_at: AT,
        resolved_at: None,
    };
    let created_ticket = ended(state.advance(Reply::Tickets(vec![stored.clone()]))).unwrap();
    let ticket_id = format_id(created_ticket.id);
    assert_eq!(created_ticket.title, "测试工单");
    assert_eq!(created_ticket.status.as_str(), "open");
    assert_eq!(created_ticket.priority.as_str(), "high");

    let (state, _) = asked(get_ticket(&ticket_id));
    let (state, _) = asked(state.advance(Reply::Tickets(vec![stored.clone()])));
    let (state, _) = asked(state.advance(Reply::Tags(vec![])));
    let retrieved_ticket = ended(state.advance(Reply::Comments(vec![]))).unwrap();
    assert_eq!(
        retrieved_ticket,
        TicketWithDetails { ticket: stored, tags: vec![], comments: vec![] }
    );
    assert_eq!(format_id(retrieved_ticket.ticket.id), ticket_id);
    assert_eq!(retrieved_ticket.ticket.title, "测试工单");

    let (state, _) = asked(delete_ticket(&ticket_id));
    let (state, _) = asked(state.advance(Reply::Affected(0)));
    let (state, _) = asked(state.advance(Reply::Affected(0)));
    assert_eq!(ended(state.advance(Reply::Affected(1))), Ok(()));
}

#[test]
fn created_ticket_is_closed_by_a_change_of_status_alone() {
    let fields = TicketFields {
        title: Some("T1".to_string()),
        description: None,
        status: None,
        priority: Some("high".to_string()),
    };
    let (state, insert) = asked(create_ticket_with_id(fields, ID, AT));
    assert_eq!(insert.statement.params[3], text("open"));
    assert_eq!(insert.statement.params[4], text("high"));
    let stored = Ticket {
        id: ID,
        title: "T1".to_string(),
        description: None,
        status: TicketStatus::Open,
        priority: Priority::High,
        assignee_id: None,
        reporter_id: None,
        created_at: AT,
        updated_at: AT,
        resolved_at: None,
    };
    let created = ended(state.advance(Reply::Tickets(vec![stored.clone()]))).unwrap();
    assert_eq!(created.status.as_str(), "open");
    assert_eq!(created.priority.as_str(), "high");

    let later = Timestamp { micros: AT.micros + 1 };
    let change = TicketFields {
        title: None,
        description: None,
        status: Some("closed".to_string()),
        priority: None,
    };
    let (state, update) = asked(update_ticket_read(Some(ID), change, later));
    assert!(update
        .statement
        .sql
        .starts_with("UPDATE tickets SET updated_at = $1, status = $2 WHERE id = $3 RETURNING "));
    assert_eq!(
        update.statement.params,
        vec![SqlValue::Time(later), text("closed"), SqlValue::Id(ID)]
    );
    let changed = Ticket { status: TicketStatus::Closed, updated_at: later, ..stored };
    let updated = ended(state.advance(Reply::Tickets(vec![changed]))).unwrap();
    assert_eq!(updated.status.as_str(), "closed");
    assert_eq!(updated.title, "T1");
}

#[test]
fn test_advanced_search() {
    let query = TicketListQuery {
        search: Some("test".to_string()),
        status: Some("open".to_string()),
        priority: Some("high".to_string()),
        tag_ids: None,
        page: None,
        limit: Some(10),
    };
    let (state, count) = asked(list_tickets(query));
    assert_eq!(
        count.statement.sql,
        "SELECT COUNT(*) FROM tickets WHERE status = $1 AND priority = $2 AND (title ILIKE $3 OR description ILIKE $3)"
    );
    assert_eq!(count.statement.params, vec![text("open"), text("high"), text("%test%")]);
    let (state, page) = asked(state.advance(Reply::Count(0)));
    assert_eq!(
        page.statement.params,
        vec![text("open"), text("high"), text("%test%"), SqlValue::Int(10), SqlValue::Int(0)]
    );
    let search_result = ended(state.advance(Reply::Tickets(vec![]))).unwrap();
    assert_eq!(
        search_result,
        PaginatedResponse { data: vec![], total: 0, limit: 10, offset: 0 }
    );
}

#[test]
fn test_database_optimization() {
    let mut step = database_optimize();
    let mut statements = Vec::new();
    let result = loop {
        match step {
            Step::Ask(state, request) => {
                statements.push(request.statement.sql.clone());
                step = state.advance(Reply::Affected(0));
            }
            Step::Done(result) => break result.unwrap(),
        }
    };
    assert_eq!(MAINTENANCE_DONE, "数据库优化完成");
    assert!(result.created_indexes > 0);
    assert_eq!(result, OptimizeReport { created_indexes: 7, errors: vec![] });
    assert_eq!(
        statements,
        vec![
            "CREATE INDEX IF NOT EXISTS idx_tickets_created_at ON tickets(created_at DESC)",
            "CREATE INDEX IF NOT EXISTS idx_tickets_status ON tickets(status)",
            "CREATE INDEX IF NOT EXISTS idx_tickets_priority ON tickets(priority)",
            "CREATE INDEX IF NOT EXISTS idx_tags_name ON tags(name)",
            "CREATE INDEX IF NOT EXISTS idx_ticket_tags_ticket_id ON ticket_tags(ticket_id)",
            "CREATE INDEX IF NOT EXISTS idx_ticket_tags_tag_id ON ticket_tags(tag_id)",
            "CREATE INDEX IF NOT EXISTS idx_tickets_status_created_at ON tickets(status, created_at DESC)",
            "ANALYZE tickets",
            "ANALYZE tags",
        ]
    );
}

#[test]
fn maintenance_goes_on_after_a_failure() {
    let mut step = database_optimize();
    let mut asked_so_far = 0;
    let result = loop {
        match step {
            Step::Ask(state, _) => {
                asked_so_far += 1;
                let reply = if asked_so_far == 2 || asked_so_far == 8 {
                    Reply::Failed("permission denied".to_string())
                } else {
                    Reply::Affected(0)
                };
                step = state.advance(reply);
            }
            Step::Done(result) => break result.unwrap(),
        }
    };
    assert_eq!(asked_so_far, 9);
    assert_eq!(
        result,
        OptimizeReport {
            created_indexes: 6,
            errors: vec![
                "索引创建失败 CREATE INDEX IF NOT EXISTS idx_tickets_status ON tickets(status): permission denied"
                    .to_string()
            ],
        }
    );
}
