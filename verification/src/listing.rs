//! The filtered, ordered and paged listing of tickets: which tickets a
//! listing selects, in which order, and the statements that ask the store for
//! their number and for one page of them.
//!
//! Every value of a filter is bound to a placeholder. The text of a statement
//! depends on which criteria are present, on the number of tags asked for and
//! on the order, which is one of a fixed list of columns: never on a value
//! that a caller supplied.

use vstd::prelude::*;
use vstd::string::*;
use crate::error::{AppError, ErrorView};
use crate::models::{Id, Priority, TicketQuery, TicketStatus};
use crate::sql::{Param, SqlValue, Statement, StatementView};
use crate::store::{Expect, Request, RequestView};
use crate::commands::{text_of, CLOSE, COMMA};
use crate::text::{contains_pattern, same_text, search_pattern, trim, trimmed};

verus! {

/// The number of tickets on a page where none is asked for.
pub const DEFAULT_LIMIT: i64 = 20;

/// The largest number of tickets on a page.
pub const MAX_LIMIT: i64 = 100;

/// The columns by which tickets can be ordered. A listing is never ordered
/// by anything else.
#[derive(Clone, Copy, Debug, PartialEq, Eq, Structural)]
pub enum SortColumn {
    CreatedAt,
    UpdatedAt,
    ResolvedAt,
    Title,
    Status,
    Priority,
}

impl SortColumn {
    /// The name of the column, as a caller writes it and as the statement holds it.
    pub open spec fn text(self) -> Seq<char> {
        match self {
            SortColumn::CreatedAt => "created_at"@,
            SortColumn::UpdatedAt => "updated_at"@,
            SortColumn::ResolvedAt => "resolved_at"@,
            SortColumn::Title => "title"@,
            SortColumn::Status => "status"@,
            SortColumn::Priority => "priority"@,
        }
    }

    /// The column that a text names, if it names one.
    pub open spec fn named_by(text: Seq<char>) -> Option<SortColumn> {
        if text == "created_at"@ {
            Some(SortColumn::CreatedAt)
        } else if text == "updated_at"@ {
            Some(SortColumn::UpdatedAt)
        } else if text == "resolved_at"@ {
            Some(SortColumn::ResolvedAt)
        } else if text == "title"@ {
            Some(SortColumn::Title)
        } else if text == "status"@ {
            Some(SortColumn::Status)
        } else if text == "priority"@ {
            Some(SortColumn::Priority)
        } else {
            None
        }
    }

    pub fn as_str(&self) -> (text: &'static str)
        ensures
            text@ == self.text(),
    {
        match self {
            SortColumn::CreatedAt => "created_at",
            SortColumn::UpdatedAt => "updated_at",
            SortColumn::ResolvedAt => "resolved_at",
            SortColumn::Title => "title",
            SortColumn::Status => "status",
            SortColumn::Priority => "priority",
        }
    }

    /// Reads a column from its name. Any other text is refused.
    pub fn parse(text: &str) -> (column: Option<SortColumn>)
        ensures
            column == SortColumn::named_by(text@),
    {
        if same_text(text, "created_at") {
            Some(SortColumn::CreatedAt)
        } else if same_text(text, "updated_at") {
            Some(SortColumn::UpdatedAt)
        } else if same_text(text, "resolved_at") {
            Some(SortColumn::ResolvedAt)
        } else if same_text(text, "title") {
            Some(SortColumn::Title)
        } else if same_text(text, "status") {
            Some(SortColumn::Status)
        } else if same_text(text, "priority") {
            Some(SortColumn::Priority)
        } else {
            None
        }
    }
}

/// The direction of an order.
#[derive(Clone, Copy, Debug, PartialEq, Eq, Structural)]
pub enum Direction {
    Ascending,
    Descending,
}

impl Direction {
    /// The key word of the direction in a statement.
    pub open spec fn keyword(self) -> Seq<char> {
        match self {
            Direction::Ascending => "ASC"@,
            Direction::Descending => "DESC"@,
        }
    }

    /// The direction that a text names: `asc` or `desc`.
    pub open spec fn named_by(text: Seq<char>) -> Option<Direction> {
        if text == "asc"@ {
            Some(Direction::Ascending)
        } else if text == "desc"@ {
            Some(Direction::Descending)
        } else {
            None
        }
    }

    pub fn as_keyword(&self) -> (text: &'static str)
        ensures
            text@ == self.keyword(),
    {
        match self {
            Direction::Ascending => "ASC",
            Direction::Descending => "DESC",
        }
    }

    /// Reads a direction from its name. Any other text is refused.
    pub fn parse(text: &str) -> (direction: Option<Direction>)
        ensures
            direction == Direction::named_by(text@),
    {
        if same_text(text, "asc") {
            Some(Direction::Ascending)
        } else if same_text(text, "desc") {
            Some(Direction::Descending)
        } else {
            None
        }
    }
}

/// The order of a listing.
#[derive(Clone, Copy, Debug, PartialEq, Eq, Structural)]
pub struct Order {
    pub column: SortColumn,
    pub direction: Direction,
}

/// The refusal of an order by something that is no column of the list.
pub open spec fn unknown_sort_column() -> ErrorView {
    ErrorView::BadRequest("无效的排序字段"@)
}

/// The refusal of a direction that is neither `asc` nor `desc`.
pub open spec fn unknown_sort_direction() -> ErrorView {
    ErrorView::BadRequest("无效的排序方向"@)
}

/// The order that a query asks for: by creation time, newest first, unless
/// it names a column and a direction. A name outside the list of columns, or
/// a direction other than `asc` and `desc`, is a bad request.
pub open spec fn order_of(sort_by: Option<Seq<char>>, sort_order: Option<Seq<char>>) -> Result<
    Order,
    ErrorView,
> {
    let column = match sort_by {
        Some(name) => SortColumn::named_by(name),
        None => Some(SortColumn::CreatedAt),
    };
    let direction = match sort_order {
        Some(name) => Direction::named_by(name),
        None => Some(Direction::Descending),
    };
    if column is None {
        Err(unknown_sort_column())
    } else if direction is None {
        Err(unknown_sort_direction())
    } else {
        Ok(Order { column: column->0, direction: direction->0 })
    }
}

/// Works out the order that a query asks for.
pub fn resolve_order(sort_by: &Option<String>, sort_order: &Option<String>) -> (result: Result<
    Order,
    AppError,
>)
    ensures
        match result {
            Ok(order) => order_of(text_of(*sort_by), text_of(*sort_order)) == Ok::<
                Order,
                ErrorView,
            >(order),
            Err(error) => order_of(text_of(*sort_by), text_of(*sort_order)) == Err::<
                Order,
                ErrorView,
            >(error@),
        },
{
    let column = match sort_by {
        Some(name) => SortColumn::parse(name.as_str()),
        None => Some(SortColumn::CreatedAt),
    };
    let direction = match sort_order {
        Some(name) => Direction::parse(name.as_str()),
        None => Some(Direction::Descending),
    };
    match column {
        None => Err(AppError::bad_request("无效的排序字段")),
        Some(column) => match direction {
            None => Err(AppError::bad_request("无效的排序方向")),
            Some(direction) => Ok(Order { column, direction }),
        },
    }
}

/// The number of tickets on a page: what is asked for, twenty where nothing
/// is, and never more than a hundred.
pub open spec fn page_limit(limit: Option<i64>) -> i64 {
    let asked = match limit {
        Some(n) => n,
        None => DEFAULT_LIMIT,
    };
    if asked > MAX_LIMIT {
        MAX_LIMIT
    } else {
        asked
    }
}

/// The number of tickets that a page leaves out at the start: what is asked
/// for, none where nothing is.
pub open spec fn page_offset(offset: Option<i64>) -> i64 {
    match offset {
        Some(n) => n,
        None => 0,
    }
}

/// The pattern under which a search term is looked up, where the term holds
/// more than white space.
pub open spec fn pattern_of(search: Option<Seq<char>>) -> Option<Seq<char>> {
    match search {
        Some(term) => if trimmed(term).len() > 0 {
            Some(contains_pattern(term))
        } else {
            None
        },
        None => None,
    }
}

/// Works out the pattern of a search term.
pub fn resolve_pattern(search: &Option<String>) -> (pattern: Option<String>)
    ensures
        text_of(pattern) == pattern_of(text_of(*search)),
{
    match search {
        Some(term) => {
            if trim(term.as_str()).unicode_len() > 0 {
                Some(search_pattern(term.as_str()))
            } else {
                None
            }
        },
        None => None,
    }
}

/// Which tickets a listing selects. Every criterion that is present must
/// hold of a ticket.
#[derive(Debug, Clone, PartialEq, Eq)]
pub struct TicketFilter {
    pub status: Option<TicketStatus>,
    pub priority: Option<Priority>,
    pub assignee_id: Option<Id>,
    pub reporter_id: Option<Id>,
    /// The pattern that the title or the description must match.
    pub pattern: Option<String>,
    /// The tags of which the ticket must bear at least one; no criterion
    /// where the list is empty.
    pub tag_ids: Vec<Id>,
}

/// A filter with its texts as sequences of characters.
pub struct FilterView {
    pub status: Option<TicketStatus>,
    pub priority: Option<Priority>,
    pub assignee_id: Option<Id>,
    pub reporter_id: Option<Id>,
    pub pattern: Option<Seq<char>>,
    pub tag_ids: Seq<Id>,
}

impl View for TicketFilter {
    type V = FilterView;

    open spec fn view(&self) -> FilterView {
        FilterView {
            status: self.status,
            priority: self.priority,
            assignee_id: self.assignee_id,
            reporter_id: self.reporter_id,
            pattern: text_of(self.pattern),
            tag_ids: self.tag_ids@,
        }
    }
}

/// A listing of tickets: filter, order and page.
#[derive(Debug, Clone, PartialEq, Eq)]
pub struct Listing {
    pub filter: TicketFilter,
    pub order: Order,
    pub limit: i64,
    pub offset: i64,
}

/// A listing with its filter as a view.
pub struct ListingView {
    pub filter: FilterView,
    pub order: Order,
    pub limit: i64,
    pub offset: i64,
}

impl View for Listing {
    type V = ListingView;

    open spec fn view(&self) -> ListingView {
        ListingView {
            filter: self.filter@,
            order: self.order,
            limit: self.limit,
            offset: self.offset,
        }
    }
}

/// A result whose value and failure are both seen as views.
pub open spec fn listing_outcome(result: Result<Listing, AppError>) -> Result<
    ListingView,
    ErrorView,
> {
    match result {
        Ok(listing) => Ok(listing@),
        Err(error) => Err(error@),
    }
}

impl TicketQuery {
    /// The tags a query asks for: the one it names, or none.
    pub open spec fn tags(self) -> Seq<Id> {
        match self.tag_id {
            Some(id) => seq![id],
            None => Seq::empty(),
        }
    }

    /// The listing that a query describes, or the refusal of its order.
    pub open spec fn resolved(self) -> Result<ListingView, ErrorView> {
        match order_of(text_of(self.sort_by), text_of(self.sort_order)) {
            Err(error) => Err(error),
            Ok(order) => Ok(
                ListingView {
                    filter: FilterView {
                        status: self.status,
                        priority: self.priority,
                        assignee_id: self.assignee_id,
                        reporter_id: self.reporter_id,
                        pattern: pattern_of(text_of(self.search)),
                        tag_ids: self.tags(),
                    },
                    order,
                    limit: page_limit(self.limit),
                    offset: page_offset(self.offset),
                },
            ),
        }
    }

    /// Works out the listing that a query describes.
    pub fn resolve(&self) -> (result: Result<Listing, AppError>)
        ensures
            listing_outcome(result) == self.resolved(),
    {
        let order = match resolve_order(&self.sort_by, &self.sort_order) {
            Ok(order) => order,
            Err(error) => {
                return Err(error);
            },
        };
        let asked: i64 = match self.limit {
            Some(n) => n,
            None => DEFAULT_LIMIT,
        };
        let limit: i64 = if asked > MAX_LIMIT {
            MAX_LIMIT
        } else {
            asked
        };
        let offset: i64 = match self.offset {
            Some(n) => n,
            None => 0,
        };
        let mut tag_ids: Vec<Id> = Vec::new();
        if let Some(id) = self.tag_id {
            tag_ids.push(id);
        }
        assert(tag_ids@ =~= self.tags());
        Ok(
            Listing {
                filter: TicketFilter {
                    status: self.status,
                    priority: self.priority,
                    assignee_id: self.assignee_id,
                    reporter_id: self.reporter_id,
                    pattern: resolve_pattern(&self.search),
                    tag_ids,
                },
                order,
                limit,
                offset,
            },
        )
    }
}

/// One condition on a ticket.
pub enum Criterion {
    Status(TicketStatus),
    Priority(Priority),
    Assignee(Id),
    Reporter(Id),
    /// The title or the description matches the pattern, whatever the case
    /// of its letters.
    Matching(Seq<char>),
    /// The ticket bears at least one of the tags.
    Tagged(Seq<Id>),
}

/// A list of criteria with one more where a value is present.
pub open spec fn then_if<V>(
    before: Seq<Criterion>,
    value: Option<V>,
    make: spec_fn(V) -> Criterion,
) -> Seq<Criterion> {
    match value {
        Some(v) => before.push(make(v)),
        None => before,
    }
}

/// The criteria of a filter, in the order in which a statement names them:
/// status, priority, assignee, reporter, pattern, tags.
pub open spec fn criteria(filter: FilterView) -> Seq<Criterion> {
    let by_status = then_if(Seq::empty(), filter.status, |s: TicketStatus| Criterion::Status(s));
    let by_priority = then_if(by_status, filter.priority, |p: Priority| Criterion::Priority(p));
    let by_assignee = then_if(by_priority, filter.assignee_id, |id: Id| Criterion::Assignee(id));
    let by_reporter = then_if(by_assignee, filter.reporter_id, |id: Id| Criterion::Reporter(id));
    let by_pattern = then_if(by_reporter, filter.pattern, |p: Seq<char>| Criterion::Matching(p));
    if filter.tag_ids.len() > 0 {
        by_pattern.push(Criterion::Tagged(filter.tag_ids))
    } else {
        by_pattern
    }
}

pub const COUNT_TICKETS: &'static str = "SELECT COUNT(*) FROM tickets";

pub const SELECT_TICKETS: &'static str =
    "SELECT id, title, description, status, priority, assignee_id, reporter_id, created_at, updated_at, resolved_at FROM tickets";

pub const WHERE: &'static str = " WHERE ";

pub const AND: &'static str = " AND ";

pub const STATUS_IS: &'static str = "status = ";

pub const PRIORITY_IS: &'static str = "priority = ";

pub const ASSIGNEE_IS: &'static str = "assignee_id = ";

pub const REPORTER_IS: &'static str = "reporter_id = ";

pub const TITLE_LIKE: &'static str = "(title ILIKE ";

pub const OR_DESCRIPTION_LIKE: &'static str = " OR description ILIKE ";

pub const TAGGED_WITH: &'static str =
    "id IN (SELECT ticket_id FROM ticket_tags WHERE tag_id IN (";

pub const CLOSE_BOTH: &'static str = "))";

pub const ORDER_BY: &'static str = " ORDER BY ";

pub const SPACE: &'static str = " ";

pub const LIMIT: &'static str = " LIMIT ";

pub const OFFSET: &'static str = " OFFSET ";

/// A statement with a list of identifiers bound at its end, separated by commas.
pub open spec fn with_ids(statement: StatementView, ids: Seq<Id>) -> StatementView
    decreases ids.len(),
{
    if ids.len() == 0 {
        statement
    } else if ids.len() == 1 {
        statement.bind(Param::Id(ids[0]))
    } else {
        with_ids(statement, ids.drop_last()).text(COMMA@).bind(Param::Id(ids.last()))
    }
}

/// A statement with one condition at its end, its values bound.
pub open spec fn with_criterion(statement: StatementView, criterion: Criterion) -> StatementView {
    match criterion {
        Criterion::Status(status) => statement.text(STATUS_IS@).bind(Param::Text(status.text())),
        Criterion::Priority(priority) => statement.text(PRIORITY_IS@).bind(
            Param::Text(priority.text()),
        ),
        Criterion::Assignee(id) => statement.text(ASSIGNEE_IS@).bind(Param::Id(id)),
        Criterion::Reporter(id) => statement.text(REPORTER_IS@).bind(Param::Id(id)),
        Criterion::Matching(pattern) => statement.text(TITLE_LIKE@).bind(
            Param::Text(pattern),
        ).text(OR_DESCRIPTION_LIKE@).again().text(CLOSE@),
        Criterion::Tagged(ids) => with_ids(statement.text(TAGGED_WITH@), ids).text(CLOSE_BOTH@),
    }
}

/// A statement with a list of conditions at its end, all of which must
/// hold: the first follows `WHERE`, each further one `AND`. Without
/// conditions the statement is as it was.
pub open spec fn with_criteria(statement: StatementView, conditions: Seq<Criterion>) -> StatementView
    decreases conditions.len(),
{
    if conditions.len() == 0 {
        statement
    } else {
        let before = with_criteria(statement, conditions.drop_last());
        let joint = if conditions.len() == 1 {
            WHERE@
        } else {
            AND@
        };
        with_criterion(before.text(joint), conditions.last())
    }
}

/// The statement that counts the tickets a filter selects.
pub open spec fn count_tickets(filter: FilterView) -> RequestView {
    RequestView {
        statement: with_criteria(StatementView::start(COUNT_TICKETS@), criteria(filter)),
        expect: Expect::Count,
    }
}

/// The statement that fetches one page of a listing.
pub open spec fn select_page(listing: ListingView) -> RequestView {
    RequestView {
        statement: with_criteria(
            StatementView::start(SELECT_TICKETS@),
            criteria(listing.filter),
        ).text(ORDER_BY@).text(listing.order.column.text()).text(SPACE@).text(
            listing.order.direction.keyword(),
        ).text(LIMIT@).bind(Param::Int(listing.limit)).text(OFFSET@).bind(
            Param::Int(listing.offset),
        ),
        expect: Expect::Tickets,
    }
}

/// The word that joins a condition to what stands before it.
pub open spec fn joint(first: bool) -> Seq<char> {
    if first {
        WHERE@
    } else {
        AND@
    }
}

proof fn lemma_add_criterion(statement: StatementView, done: Seq<Criterion>, criterion: Criterion)
    ensures
        with_criteria(statement, done.push(criterion)) == with_criterion(
            with_criteria(statement, done).text(joint(done.len() == 0)),
            criterion,
        ),
{
    assert(done.push(criterion).drop_last() =~= done);
}

fn push_joint(statement: &mut Statement, first: bool)
    ensures
        final(statement)@ == old(statement)@.text(joint(first)),
{
    if first {
        statement.push(WHERE);
    } else {
        statement.push(AND);
    }
}

fn push_ids(statement: &mut Statement, ids: &Vec<Id>)
    ensures
        final(statement)@ == with_ids(old(statement)@, ids@),
{
    let mut i: usize = 0;
    while i < ids.len()
        invariant
            i <= ids.len(),
            statement@ == with_ids(old(statement)@, ids@.subrange(0, i as int)),
        decreases ids.len() - i,
    {
        assert(ids@.subrange(0, i + 1).drop_last() =~= ids@.subrange(0, i as int));
        if i > 0 {
            statement.push(COMMA);
        }
        statement.push_bind(SqlValue::Id(ids[i]));
        i = i + 1;
    }
    assert(ids@.subrange(0, ids.len() as int) =~= ids@);
}

fn push_text_criterion(statement: &mut Statement, first: bool, column_is: &str, value: &str)
    ensures
        final(statement)@ == old(statement)@.text(joint(first)).text(column_is@).bind(
            Param::Text(value@),
        ),
{
    push_joint(statement, first);
    statement.push(column_is);
    statement.push_bind(SqlValue::Text(String::from_str(value)));
}

fn push_id_criterion(statement: &mut Statement, first: bool, column_is: &str, id: Id)
    ensures
        final(statement)@ == old(statement)@.text(joint(first)).text(column_is@).bind(
            Param::Id(id),
        ),
{
    push_joint(statement, first);
    statement.push(column_is);
    statement.push_bind(SqlValue::Id(id));
}

fn push_pattern_criterion(statement: &mut Statement, first: bool, pattern: &String)
    ensures
        final(statement)@ == with_criterion(
            old(statement)@.text(joint(first)),
            Criterion::Matching(pattern@),
        ),
{
    push_joint(statement, first);
    statement.push(TITLE_LIKE);
    statement.push_bind(SqlValue::Text(pattern.clone()));
    statement.push(OR_DESCRIPTION_LIKE);
    statement.push_again();
    statement.push(CLOSE);
}

fn push_tags_criterion(statement: &mut Statement, first: bool, ids: &Vec<Id>)
    ensures
        final(statement)@ == with_criterion(
            old(statement)@.text(joint(first)),
            Criterion::Tagged(ids@),
        ),
{
    push_joint(statement, first);
    statement.push(TAGGED_WITH);
    push_ids(statement, ids);
    statement.push(CLOSE_BOTH);
}

/// Appends the conditions of a filter to a statement.
pub fn push_criteria(statement: &mut Statement, filter: &TicketFilter)
    ensures
        final(statement)@ == with_criteria(old(statement)@, criteria(filter@)),
{
    let ghost base = statement@;
    let ghost by_status = then_if(
        Seq::empty(),
        filter.status,
        |s: TicketStatus| Criterion::Status(s),
    );
    let ghost by_priority = then_if(
        by_status,
        filter.priority,
        |p: Priority| Criterion::Priority(p),
    );
    let ghost by_assignee = then_if(
        by_priority,
        filter.assignee_id,
        |id: Id| Criterion::Assignee(id),
    );
    let ghost by_reporter = then_if(
        by_assignee,
        filter.reporter_id,
        |id: Id| Criterion::Reporter(id),
    );
    let ghost by_pattern = then_if(
        by_reporter,
        filter@.pattern,
        |p: Seq<char>| Criterion::Matching(p),
    );
    let mut first = true;
    if let Some(status) = filter.status {
        push_text_criterion(statement, first, STATUS_IS, status.as_str());
        proof {
            lemma_add_criterion(base, Seq::empty(), Criterion::Status(status));
        }
        first = false;
    }
    assert(statement@ == with_criteria(base, by_status) && first == (by_status.len() == 0));
    if let Some(priority) = filter.priority {
        push_text_criterion(statement, first, PRIORITY_IS, priority.as_str());
        proof {
            lemma_add_criterion(base, by_status, Criterion::Priority(priority));
        }
        first = false;
    }
    assert(statement@ == with_criteria(base, by_priority) && first == (by_priority.len() == 0));
    if let Some(id) = filter.assignee_id {
        push_id_criterion(statement, first, ASSIGNEE_IS, id);
        proof {
            lemma_add_criterion(base, by_priority, Criterion::Assignee(id));
        }
        first = false;
    }
    assert(statement@ == with_criteria(base, by_assignee) && first == (by_assignee.len() == 0));
    if let Some(id) = filter.reporter_id {
        push_id_criterion(statement, first, REPORTER_IS, id);
        proof {
            lemma_add_criterion(base, by_assignee, Criterion::Reporter(id));
        }
        first = false;
    }
    assert(statement@ == with_criteria(base, by_reporter) && first == (by_reporter.len() == 0));
    if let Some(pattern) = &filter.pattern {
        push_pattern_criterion(statement, first, pattern);
        proof {
            lemma_add_criterion(base, by_reporter, Criterion::Matching(pattern@));
        }
        first = false;
    }
    assert(statement@ == with_criteria(base, by_pattern) && first == (by_pattern.len() == 0));
    if filter.tag_ids.len() > 0 {
        push_tags_criterion(statement, first, &filter.tag_ids);
        proof {
            lemma_add_criterion(base, by_pattern, Criterion::Tagged(filter.tag_ids@));
        }
    }
}

/// Builds the statement that counts the tickets a filter selects.
pub fn count_request(filter: &TicketFilter) -> (request: Request)
    ensures
        request@ == count_tickets(filter@),
{
    let mut statement = Statement::new(COUNT_TICKETS);
    push_criteria(&mut statement, filter);
    Request { statement, expect: Expect::Count }
}

/// Builds the statement that fetches one page of a listing.
pub fn page_request(listing: &Listing) -> (request: Request)
    ensures
        request@ == select_page(listing@),
{
    let mut statement = Statement::new(SELECT_TICKETS);
    push_criteria(&mut statement, &listing.filter);
    statement.push(ORDER_BY);
    statement.push(listing.order.column.as_str());
    statement.push(SPACE);
    statement.push(listing.order.direction.as_keyword());
    statement.push(LIMIT);
    statement.push_bind(SqlValue::Int(listing.limit));
    statement.push(OFFSET);
    statement.push_bind(SqlValue::Int(listing.offset));
    Request { statement, expect: Expect::Tickets }
}

/// Whether two filters have the same shape: the same criteria are present
/// in both, and both ask for the same number of tags. The values of the
/// criteria may differ.
pub open spec fn same_shape(a: FilterView, b: FilterView) -> bool {
    &&& a.status is Some <==> b.status is Some
    &&& a.priority is Some <==> b.priority is Some
    &&& a.assignee_id is Some <==> b.assignee_id is Some
    &&& a.reporter_id is Some <==> b.reporter_id is Some
    &&& a.pattern is Some <==> b.pattern is Some
    &&& a.tag_ids.len() == b.tag_ids.len()
}

/// Whether two conditions are of the same kind, and name as many tags where
/// they name tags.
pub open spec fn same_kind(a: Criterion, b: Criterion) -> bool {
    match (a, b) {
        (Criterion::Status(_), Criterion::Status(_)) => true,
        (Criterion::Priority(_), Criterion::Priority(_)) => true,
        (Criterion::Assignee(_), Criterion::Assignee(_)) => true,
        (Criterion::Reporter(_), Criterion::Reporter(_)) => true,
        (Criterion::Matching(_), Criterion::Matching(_)) => true,
        (Criterion::Tagged(x), Criterion::Tagged(y)) => x.len() == y.len(),
        _ => false,
    }
}

/// Whether two statements have the same text and bind as many values.
pub open spec fn alike(a: StatementView, b: StatementView) -> bool {
    a.sql == b.sql && a.params.len() == b.params.len()
}

proof fn lemma_ids_alike(a: StatementView, b: StatementView, x: Seq<Id>, y: Seq<Id>)
    requires
        alike(a, b),
        x.len() == y.len(),
    ensures
        alike(with_ids(a, x), with_ids(b, y)),
    decreases x.len(),
{
    if x.len() > 1 {
        lemma_ids_alike(a, b, x.drop_last(), y.drop_last());
    }
}

proof fn lemma_criterion_alike(a: StatementView, b: StatementView, x: Criterion, y: Criterion)
    requires
        alike(a, b),
        same_kind(x, y),
    ensures
        alike(with_criterion(a, x), with_criterion(b, y)),
{
    match (x, y) {
        (Criterion::Tagged(p), Criterion::Tagged(q)) => {
            lemma_ids_alike(a.text(TAGGED_WITH@), b.text(TAGGED_WITH@), p, q);
        },
        _ => {},
    }
}

proof fn lemma_push_alike(
    a: StatementView,
    b: StatementView,
    done_a: Seq<Criterion>,
    done_b: Seq<Criterion>,
    x: Criterion,
    y: Criterion,
)
    requires
        alike(with_criteria(a, done_a), with_criteria(b, done_b)),
        done_a.len() == done_b.len(),
        same_kind(x, y),
    ensures
        alike(with_criteria(a, done_a.push(x)), with_criteria(b, done_b.push(y))),
{
    lemma_add_criterion(a, done_a, x);
    lemma_add_criterion(b, done_b, y);
    let first = done_a.len() == 0;
    lemma_criterion_alike(
        with_criteria(a, done_a).text(joint(first)),
        with_criteria(b, done_b).text(joint(first)),
        x,
        y,
    );
}

proof fn lemma_then_alike<V>(
    a: StatementView,
    b: StatementView,
    done_a: Seq<Criterion>,
    done_b: Seq<Criterion>,
    value_a: Option<V>,
    value_b: Option<V>,
    make: spec_fn(V) -> Criterion,
)
    requires
        alike(with_criteria(a, done_a), with_criteria(b, done_b)),
        done_a.len() == done_b.len(),
        value_a is Some <==> value_b is Some,
        forall|x: V, y: V| same_kind(#[trigger] make(x), #[trigger] make(y)),
    ensures
        alike(
            with_criteria(a, then_if(done_a, value_a, make)),
            with_criteria(b, then_if(done_b, value_b, make)),
        ),
        then_if(done_a, value_a, make).len() == then_if(done_b, value_b, make).len(),
{
    if value_a is Some {
        lemma_push_alike(a, b, done_a, done_b, make(value_a->0), make(value_b->0));
    }
}

/// The conditions of two filters of the same shape, appended to statements
/// of the same text that bind as many values, give statements of the same
/// text that bind as many values.
pub proof fn lemma_shape_decides_the_text(
    a: StatementView,
    b: StatementView,
    first: FilterView,
    second: FilterView,
)
    requires
        alike(a, b),
        same_shape(first, second),
    ensures
        alike(with_criteria(a, criteria(first)), with_criteria(b, criteria(second))),
{
    let by_status = |s: TicketStatus| Criterion::Status(s);
    let by_priority = |p: Priority| Criterion::Priority(p);
    let by_assignee = |id: Id| Criterion::Assignee(id);
    let by_reporter = |id: Id| Criterion::Reporter(id);
    let by_pattern = |p: Seq<char>| Criterion::Matching(p);
    let a1 = then_if(Seq::empty(), first.status, by_status);
    let b1 = then_if(Seq::empty(), second.status, by_status);
    lemma_then_alike(a, b, Seq::empty(), Seq::empty(), first.status, second.status, by_status);
    let a2 = then_if(a1, first.priority, by_priority);
    let b2 = then_if(b1, second.priority, by_priority);
    lemma_then_alike(a, b, a1, b1, first.priority, second.priority, by_priority);
    let a3 = then_if(a2, first.assignee_id, by_assignee);
    let b3 = then_if(b2, second.assignee_id, by_assignee);
    lemma_then_alike(a, b, a2, b2, first.assignee_id, second.assignee_id, by_assignee);
    let a4 = then_if(a3, first.reporter_id, by_reporter);
    let b4 = then_if(b3, second.reporter_id, by_reporter);
    lemma_then_alike(a, b, a3, b3, first.reporter_id, second.reporter_id, by_reporter);
    let a5 = then_if(a4, first.pattern, by_pattern);
    let b5 = then_if(b4, second.pattern, by_pattern);
    lemma_then_alike(a, b, a4, b4, first.pattern, second.pattern, by_pattern);
    if first.tag_ids.len() > 0 {
        lemma_push_alike(
            a,
            b,
            a5,
            b5,
            Criterion::Tagged(first.tag_ids),
            Criterion::Tagged(second.tag_ids),
        );
    }
    assert(criteria(first) == if first.tag_ids.len() > 0 {
        a5.push(Criterion::Tagged(first.tag_ids))
    } else {
        a5
    });
    assert(criteria(second) == if second.tag_ids.len() > 0 {
        b5.push(Criterion::Tagged(second.tag_ids))
    } else {
        b5
    });
}

} // verus!
