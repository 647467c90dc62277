use ticket_backend::error::AppError;
use ticket_backend::ids::is_random_version;
use ticket_backend::models::{CreateTagRequest, Tag, TagWithCount, Timestamp, UpdateTagRequest};
use ticket_backend::repositories::tags::{TagOp, TagRepository};
use ticket_backend::sql::SqlValue;
use ticket_backend::store::{Expect, Reply, Request, Step};

fn asked<F, T>(step: Step<F, T>) -> (F, Request) {
    match step {
        Step::Ask(state, request) => (state, request),
        Step::Done(_) => panic!("the operation ended where a request was due"),
    }
}

fn ended<F, T>(step: Step<F, T>) -> Result<T, AppError> {
    match step {
        Step::Done(result) => result,
        Step::Ask(_, request) => panic!("unexpected request: {}", request.statement.sql),
    }
}

fn text(value: &str) -> SqlValue {
    SqlValue::Text(value.to_string())
}

fn tag(id: u128, name: &str, color: &str) -> Tag {
    Tag {
        id,
        name: name.to_string(),
        color: color.to_string(),
        created_at: Timestamp { micros: 10 },
        updated_at: Timestamp { micros: 10 },
    }
}

const AT: Timestamp = Timestamp { micros: 1_700_000_000_000_000 };

#[test]
fn taken_name_is_a_conflict() {
    let repository = TagRepository::new();
    let request = CreateTagRequest { name: "bug".to_string(), color: None };
    let (state, check) = asked(repository.create_with(request, 1, AT));
    assert_eq!(check.statement.sql, "SELECT COUNT(*) FROM tags WHERE name = $1");
    assert_eq!(check.statement.params, vec![text("bug")]);
    assert_eq!(check.expect, Expect::Count);
    let result = ended(state.advance(Reply::Count(1)));
    assert_eq!(result, Err(AppError::Conflict("标签名称已存在".to_string())));
    assert_eq!(result.unwrap_err().status_code(), 409);
}

#[test]
fn fresh_name_gets_the_default_color() {
    let repository = TagRepository::new();
    let request = CreateTagRequest { name: "bug".to_string(), color: None };
    let (state, _) = asked(repository.create_with(request, 1, AT));
    let (state, insert) = asked(state.advance(Reply::Count(0)));
    assert_eq!(
        insert.statement.params,
        vec![SqlValue::Id(1), text("bug"), text("#3B82F6"), SqlValue::Time(AT)]
    );
    assert_eq!(insert.expect, Expect::Tags);
    let stored = tag(1, "bug", "#3B82F6");
    assert_eq!(ended(state.advance(Reply::Tags(vec![stored.clone()]))), Ok(stored));
}

#[test]
fn given_color_is_kept() {
    let repository = TagRepository::new();
    let request = CreateTagRequest { name: "ui".to_string(), color: Some("#FF5733".to_string()) };
    let (state, _) = asked(repository.create_with(request, 2, AT));
    let (_, insert) = asked(state.advance(Reply::Count(0)));
    assert_eq!(
        insert.statement.params,
        vec![SqlValue::Id(2), text("ui"), text("#FF5733"), SqlValue::Time(AT)]
    );
}

#[test]
fn creation_draws_a_random_identifier() {
    let repository = TagRepository::new();
    let mut seen = Vec::new();
    for _ in 0..4 {
        let request = CreateTagRequest { name: "bug".to_string(), color: None };
        let (state, _) = asked(repository.create(request));
        match state {
            TagOp::CreateChecking { id, name, color, now } => {
                assert!(is_random_version(id));
                assert_eq!(name, "bug");
                assert_eq!(color, None);
                assert!(now.micros > 1_600_000_000_000_000);
                assert!(!seen.contains(&id));
                seen.push(id);
            }
            other => panic!("unexpected state {:?}", other),
        }
    }
}

#[test]
fn store_failure_ends_the_creation() {
    let repository = TagRepository::new();
    let request = CreateTagRequest { name: "bug".to_string(), color: None };
    let (state, _) = asked(repository.create_with(request, 1, AT));
    let result = ended(state.advance(Reply::Failed("connection reset".to_string())));
    assert_eq!(result, Err(AppError::Database("connection reset".to_string())));
    let request = CreateTagRequest { name: "bug".to_string(), color: None };
    let (state, _) = asked(repository.create_with(request, 1, AT));
    let (state, _) = asked(state.advance(Reply::Count(0)));
    let result = ended(state.advance(Reply::Failed("duplicate key".to_string())));
    let error = result.unwrap_err();
    assert_eq!(error.status_code(), 500);
    assert_eq!(error.response_message(), "数据库操作失败");
}

#[test]
fn unexpected_reply_is_an_inner_failure() {
    let repository = TagRepository::new();
    let (state, _) = asked(repository.get_by_id(5));
    let result = ended(state.advance(Reply::Count(3)));
    assert_eq!(result, Err(AppError::Internal("unexpected reply from the store".to_string())));
    let request = CreateTagRequest { name: "bug".to_string(), color: None };
    let (state, _) = asked(repository.create_with(request, 1, AT));
    let (state, _) = asked(state.advance(Reply::Count(0)));
    let result = ended(state.advance(Reply::Tags(vec![])));
    assert_eq!(result, Err(AppError::Internal("unexpected reply from the store".to_string())));
}

#[test]
fn look_up_by_id_and_by_name() {
    let repository = TagRepository::new();
    let (state, request) = asked(repository.get_by_id(5));
    assert_eq!(
        request.statement.sql,
        "SELECT id, name, color, created_at, updated_at FROM tags WHERE id = $1"
    );
    assert_eq!(request.statement.params, vec![SqlValue::Id(5)]);
    let found = tag(5, "bug", "#000000");
    assert_eq!(ended(state.advance(Reply::Tags(vec![found.clone()]))), Ok(found));
    let (state, _) = asked(repository.get_by_id(5));
    assert_eq!(
        ended(state.advance(Reply::Tags(vec![]))),
        Err(AppError::NotFound("标签未找到".to_string()))
    );
    let (state, request) = asked(repository.get_by_name("bug"));
    assert_eq!(
        request.statement.sql,
        "SELECT id, name, color, created_at, updated_at FROM tags WHERE name = $1"
    );
    assert_eq!(request.statement.params, vec![text("bug")]);
    assert_eq!(
        ended(state.advance(Reply::Tags(vec![]))),
        Err(AppError::NotFound("标签未找到".to_string()))
    );
}

#[test]
fn name_exists_reads_the_count() {
    let repository = TagRepository::new();
    let (state, request) = asked(repository.name_exists("bug", None));
    assert_eq!(request.statement.sql, "SELECT COUNT(*) FROM tags WHERE name = $1");
    assert_eq!(ended(state.advance(Reply::Count(0))), Ok(false));
    let (state, request) = asked(repository.name_exists("bug", Some(8)));
    assert_eq!(request.statement.sql, "SELECT COUNT(*) FROM tags WHERE name = $1 AND id != $2");
    assert_eq!(request.statement.params, vec![text("bug"), SqlValue::Id(8)]);
    assert_eq!(ended(state.advance(Reply::Count(2))), Ok(true));
    let (state, _) = asked(repository.name_exists("bug", None));
    assert_eq!(
        ended(state.advance(Reply::Failed("down".to_string()))),
        Err(AppError::Database("down".to_string()))
    );
}

#[test]
fn rename_checks_other_tags_first() {
    let repository = TagRepository::new();
    let change = UpdateTagRequest { name: Some("ui".to_string()), color: None };
    let (state, check) = asked(repository.update_at(3, change, AT));
    assert_eq!(check.statement.sql, "SELECT COUNT(*) FROM tags WHERE name = $1 AND id != $2");
    assert_eq!(check.statement.params, vec![text("ui"), SqlValue::Id(3)]);
    assert_eq!(
        ended(state.advance(Reply::Count(1))),
        Err(AppError::Conflict("标签名称已存在".to_string()))
    );
    let change = UpdateTagRequest { name: Some("ui".to_string()), color: Some("#111111".to_string()) };
    let (state, _) = asked(repository.update_at(3, change, AT));
    let (state, update) = asked(state.advance(Reply::Count(0)));
    assert_eq!(
        update.statement.sql,
        "UPDATE tags SET updated_at = $1, name = $2, color = $3 WHERE id = $4 RETURNING id, name, color, created_at, updated_at"
    );
    assert_eq!(
        update.statement.params,
        vec![SqlValue::Time(AT), text("ui"), text("#111111"), SqlValue::Id(3)]
    );
    let changed = tag(3, "ui", "#111111");
    assert_eq!(ended(state.advance(Reply::Tags(vec![changed.clone()]))), Ok(changed));
}

#[test]
fn change_without_name_asks_no_count() {
    let repository = TagRepository::new();
    let change = UpdateTagRequest { name: None, color: Some("#111111".to_string()) };
    let (state, update) = asked(repository.update_at(3, change, AT));
    assert_eq!(
        update.statement.sql,
        "UPDATE tags SET updated_at = $1, color = $2 WHERE id = $3 RETURNING id, name, color, created_at, updated_at"
    );
    assert_eq!(
        ended(state.advance(Reply::Tags(vec![]))),
        Err(AppError::NotFound("标签未找到".to_string()))
    );
}

#[test]
fn change_is_timed_by_the_clock() {
    let repository = TagRepository::new();
    let change = UpdateTagRequest { name: None, color: None };
    let (_, update) = asked(repository.update(3, change));
    match &update.statement.params[0] {
        SqlValue::Time(at) => assert!(at.micros > 1_600_000_000_000_000),
        other => panic!("unexpected value {:?}", other),
    }
}

#[test]
fn removal_detaches_first() {
    let repository = TagRepository::new();
    let (state, first) = asked(repository.delete(4));
    assert_eq!(first.statement.sql, "DELETE FROM ticket_tags WHERE tag_id = $1");
    assert_eq!(first.statement.params, vec![SqlValue::Id(4)]);
    assert_eq!(first.expect, Expect::Affected);
    let (state, second) = asked(state.advance(Reply::Affected(3)));
    assert_eq!(second.statement.sql, "DELETE FROM tags WHERE id = $1");
    assert_eq!(second.statement.params, vec![SqlValue::Id(4)]);
    assert_eq!(ended(state.advance(Reply::Affected(1))), Ok(()));
}

#[test]
fn removal_of_a_missing_tag() {
    let repository = TagRepository::new();
    let (state, _) = asked(repository.delete(4));
    let (state, _) = asked(state.advance(Reply::Affected(0)));
    assert_eq!(
        ended(state.advance(Reply::Affected(0))),
        Err(AppError::NotFound("标签未找到".to_string()))
    );
    let (state, _) = asked(repository.delete(4));
    assert_eq!(
        ended(state.advance(Reply::Failed("locked".to_string()))),
        Err(AppError::Database("locked".to_string()))
    );
}

#[test]
fn listings_pass_the_rows_on() {
    let repository = TagRepository::new();
    let rows = vec![tag(1, "a", "#000000"), tag(2, "b", "#ffffff")];
    let (state, request) = asked(repository.list());
    assert_eq!(
        request.statement.sql,
        "SELECT id, name, color, created_at, updated_at FROM tags ORDER BY name"
    );
    assert_eq!(ended(state.advance(Reply::Tags(rows.clone()))), Ok(rows.clone()));
    let (state, request) = asked(repository.get_ticket_tags(9));
    assert_eq!(
        request.statement.sql,
        "SELECT t.id, t.name, t.color, t.created_at, t.updated_at FROM tags t INNER JOIN ticket_tags tt ON t.id = tt.tag_id WHERE tt.ticket_id = $1 ORDER BY t.name"
    );
    assert_eq!(request.statement.params, vec![SqlValue::Id(9)]);
    assert_eq!(ended(state.advance(Reply::Tags(vec![]))), Ok(vec![]));
    let counted = vec![TagWithCount { tag: tag(1, "a", "#000000"), ticket_count: 0 }];
    let (state, request) = asked(repository.list_with_counts());
    assert!(request.statement.sql.contains("COALESCE(tt.ticket_count, 0)"));
    assert!(request.statement.sql.ends_with("ORDER BY t.name"));
    assert_eq!(request.expect, Expect::CountedTags);
    assert_eq!(ended(state.advance(Reply::CountedTags(counted.clone()))), Ok(counted));
}

#[test]
fn search_is_capped_at_twenty() {
    let repository = TagRepository::new();
    let (_, request) = asked(repository.search(" Bug_1 "));
    assert_eq!(
        request.statement.sql,
        "SELECT id, name, color, created_at, updated_at FROM tags WHERE name ILIKE $1 ORDER BY name LIMIT $2"
    );
    assert_eq!(request.statement.params, vec![text("%Bug\\_1%"), SqlValue::Int(20)]);
}

#[test]
fn popular_tags_default_to_ten() {
    let repository = TagRepository::new();
    let (_, request) = asked(repository.get_popular(None));
    assert!(request.statement.sql.contains("WHERE tt.ticket_count > 0"));
    assert!(request.statement.sql.ends_with("ORDER BY tt.ticket_count DESC, t.name LIMIT $1"));
    assert_eq!(request.statement.params, vec![SqlValue::Int(10)]);
    let (_, request) = asked(repository.get_popular(Some(3)));
    assert_eq!(request.statement.params, vec![SqlValue::Int(3)]);
}
