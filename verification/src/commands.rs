//! What the service asks of the store. A command says what is wanted in the
//! service's own terms; its rendering is the statement that carries it out,
//! with every value bound to a placeholder.

use vstd::prelude::*;
use vstd::string::*;
use crate::listing::{count_tickets, select_page, FilterView, ListingView};
use crate::models::{Id, Priority, TicketStatus, Timestamp};
use crate::sql::{params_of, Param, SqlValue, Statement, StatementView};
use crate::store::{Expect, Request, RequestView};

verus! {

/// The tables of the store.
#[derive(Clone, Copy, Debug, PartialEq, Eq, Structural)]
pub enum Table {
    Tickets,
    Tags,
    TicketTags,
    Comments,
}

/// The indexes that the maintenance of the store creates.
#[derive(Clone, Copy, Debug, PartialEq, Eq, Structural)]
pub enum Index {
    TicketsCreatedAt,
    TicketsStatus,
    TicketsPriority,
    TagsName,
    TicketTagsTicketId,
    TicketTagsTagId,
    TicketsStatusCreatedAt,
}

/// The fields of a ticket that a change writes: those that are present.
pub struct TicketChanges {
    pub title: Option<Seq<char>>,
    pub description: Option<Seq<char>>,
    pub status: Option<TicketStatus>,
    pub priority: Option<Priority>,
    pub assignee_id: Option<Id>,
}

/// What can be asked of the store.
pub enum Command {
    /// Store a new tag and give it back.
    InsertTag { id: Id, name: Seq<char>, color: Seq<char>, now: Timestamp },
    SelectTagById(Id),
    SelectTagByName(Seq<char>),
    /// Count the tags of a name, leaving one tag out where one is named.
    CountTagsNamed { name: Seq<char>, exclude: Option<Id> },
    /// All tags, by name.
    SelectTags,
    /// All tags, by name, each with the number of tickets that bear it.
    SelectTagsWithCounts,
    /// The tags that a ticket bears at all, the most used first.
    SelectPopularTags { limit: i64 },
    /// The tags of a ticket, by name.
    SelectTagsOfTicket(Id),
    /// The tags whose name matches a pattern, by name.
    SearchTags { pattern: Seq<char>, limit: i64 },
    /// Write the time of change of a tag, and its name and colour where given.
    UpdateTag { id: Id, name: Option<Seq<char>>, color: Option<Seq<char>>, now: Timestamp },
    /// Take a tag off all tickets.
    DeleteTagLinks(Id),
    DeleteTag(Id),
    /// Count the tags that no ticket bears.
    CountUnusedTags,
    /// All tags with their usage counts, the most used first.
    SelectMostUsedTags { limit: i64 },
    /// Store a new ticket and give it back.
    InsertTicket {
        id: Id,
        title: Seq<char>,
        description: Option<Seq<char>>,
        status: TicketStatus,
        priority: Priority,
        assignee_id: Option<Id>,
        reporter_id: Option<Id>,
        now: Timestamp,
    },
    SelectTicketById(Id),
    /// The tickets whose title or description matches a pattern, newest first.
    SearchTickets { pattern: Seq<char>, limit: i64 },
    /// Write the time of change of a ticket and the fields given, and give
    /// the ticket back.
    UpdateTicket { id: Id, changes: TicketChanges, now: Timestamp },
    /// Attach a tag to a ticket, or do nothing where it is attached already.
    AttachTag { ticket_id: Id, tag_id: Id },
    /// Attach each tag of a list to a ticket, skipping those attached already.
    AttachTags { ticket_id: Id, tag_ids: Seq<Id> },
    DetachTag { ticket_id: Id, tag_id: Id },
    /// Take all tags off a ticket.
    DeleteTicketLinks(Id),
    DeleteTicketComments(Id),
    DeleteTicket(Id),
    /// Count the tickets that a filter selects.
    CountTickets(FilterView),
    /// One page of the tickets that a filter selects, in the listing's order.
    SelectPage(ListingView),
    /// The number of tickets in each status, of one assignee where one is named.
    CountTicketsByStatus { assignee_id: Option<Id> },
    /// The number of tickets of each priority, of one assignee where one is named.
    CountTicketsByPriority { assignee_id: Option<Id> },
    /// Store a new comment and give it back.
    InsertComment {
        id: Id,
        ticket_id: Id,
        author_id: Option<Id>,
        content: Seq<char>,
        now: Timestamp,
    },
    /// The comments of a ticket, oldest first.
    SelectCommentsOfTicket(Id),
    /// Count the rows of a table.
    CountRows(Table),
    /// Ask the store whether it is there.
    Ping,
    CreateIndex(Index),
    /// Refresh the statistics of a table.
    Analyze(Table),
}

pub const INSERT_TAG: &'static str =
    "INSERT INTO tags (id, name, color, created_at, updated_at) VALUES ($1, $2, $3, $4, $4) RETURNING id, name, color, created_at, updated_at";

pub const SELECT_TAG_BY_ID: &'static str =
    "SELECT id, name, color, created_at, updated_at FROM tags WHERE id = $1";

pub const SELECT_TAG_BY_NAME: &'static str =
    "SELECT id, name, color, created_at, updated_at FROM tags WHERE name = $1";

pub const COUNT_TAGS_NAMED: &'static str = "SELECT COUNT(*) FROM tags WHERE name = $1";

pub const COUNT_OTHER_TAGS_NAMED: &'static str =
    "SELECT COUNT(*) FROM tags WHERE name = $1 AND id != $2";

pub const SELECT_TAGS: &'static str =
    "SELECT id, name, color, created_at, updated_at FROM tags ORDER BY name";

pub const SELECT_TAGS_WITH_COUNTS: &'static str =
    "SELECT t.id, t.name, t.color, t.created_at, t.updated_at, COALESCE(tt.ticket_count, 0) AS ticket_count FROM tags t LEFT JOIN (SELECT tag_id, COUNT(*) AS ticket_count FROM ticket_tags GROUP BY tag_id) tt ON t.id = tt.tag_id ORDER BY t.name";

pub const SELECT_POPULAR_TAGS: &'static str =
    "SELECT t.id, t.name, t.color, t.created_at, t.updated_at, COALESCE(tt.ticket_count, 0) AS ticket_count FROM tags t LEFT JOIN (SELECT tag_id, COUNT(*) AS ticket_count FROM ticket_tags GROUP BY tag_id) tt ON t.id = tt.tag_id WHERE tt.ticket_count > 0 ORDER BY tt.ticket_count DESC, t.name LIMIT $1";

pub const SELECT_TAGS_OF_TICKET: &'static str =
    "SELECT t.id, t.name, t.color, t.created_at, t.updated_at FROM tags t INNER JOIN ticket_tags tt ON t.id = tt.tag_id WHERE tt.ticket_id = $1 ORDER BY t.name";

pub const SEARCH_TAGS: &'static str =
    "SELECT id, name, color, created_at, updated_at FROM tags WHERE name ILIKE $1 ORDER BY name LIMIT $2";

pub const UPDATE_TAG_HEAD: &'static str = "UPDATE tags SET updated_at = ";

pub const SET_NAME: &'static str = ", name = ";

pub const SET_COLOR: &'static str = ", color = ";

pub const WHERE_ID: &'static str = " WHERE id = ";

pub const RETURNING_TAG: &'static str = " RETURNING id, name, color, created_at, updated_at";

pub const DELETE_TAG_LINKS: &'static str = "DELETE FROM ticket_tags WHERE tag_id = $1";

pub const DELETE_TAG: &'static str = "DELETE FROM tags WHERE id = $1";

pub const COUNT_UNUSED_TAGS: &'static str =
    "SELECT COUNT(*) FROM tags t LEFT JOIN ticket_tags tt ON t.id = tt.tag_id WHERE tt.tag_id IS NULL";

pub const SELECT_MOST_USED_TAGS: &'static str =
    "SELECT t.id, t.name, t.color, t.created_at, t.updated_at, COUNT(tt.tag_id) AS ticket_count FROM tags t LEFT JOIN ticket_tags tt ON t.id = tt.tag_id GROUP BY t.id, t.name, t.color, t.created_at, t.updated_at ORDER BY COUNT(tt.tag_id) DESC LIMIT $1";

pub const INSERT_TICKET: &'static str =
    "INSERT INTO tickets (id, title, description, status, priority, assignee_id, reporter_id, created_at, updated_at) VALUES ($1, $2, $3, $4, $5, $6, $7, $8, $8) RETURNING id, title, description, status, priority, assignee_id, reporter_id, created_at, updated_at, resolved_at";

pub const SELECT_TICKET_BY_ID: &'static str =
    "SELECT id, title, description, status, priority, assignee_id, reporter_id, created_at, updated_at, resolved_at FROM tickets WHERE id = $1";

pub const SEARCH_TICKETS: &'static str =
    "SELECT id, title, description, status, priority, assignee_id, reporter_id, created_at, updated_at, resolved_at FROM tickets WHERE title ILIKE $1 OR description ILIKE $1 ORDER BY created_at DESC LIMIT $2";

pub const UPDATE_TICKET_HEAD: &'static str = "UPDATE tickets SET updated_at = ";

pub const SET_TITLE: &'static str = ", title = ";

pub const SET_DESCRIPTION: &'static str = ", description = ";

pub const SET_STATUS: &'static str = ", status = ";

pub const SET_PRIORITY: &'static str = ", priority = ";

pub const SET_ASSIGNEE: &'static str = ", assignee_id = ";

pub const RETURNING_TICKET: &'static str =
    " RETURNING id, title, description, status, priority, assignee_id, reporter_id, created_at, updated_at, resolved_at";

pub const ATTACH_TAG: &'static str =
    "INSERT INTO ticket_tags (ticket_id, tag_id) VALUES ($1, $2) ON CONFLICT DO NOTHING";

pub const ATTACH_TAGS_HEAD: &'static str = "INSERT INTO ticket_tags (ticket_id, tag_id) VALUES ";

pub const ATTACH_TAGS_TAIL: &'static str = " ON CONFLICT DO NOTHING";

pub const OPEN: &'static str = "(";

pub const COMMA: &'static str = ", ";

pub const CLOSE: &'static str = ")";

pub const DETACH_TAG: &'static str =
    "DELETE FROM ticket_tags WHERE ticket_id = $1 AND tag_id = $2";

pub const DELETE_TICKET_LINKS: &'static str = "DELETE FROM ticket_tags WHERE ticket_id = $1";

pub const DELETE_TICKET_COMMENTS: &'static str = "DELETE FROM comments WHERE ticket_id = $1";

pub const DELETE_TICKET: &'static str = "DELETE FROM tickets WHERE id = $1";

pub const COUNT_BY_STATUS_HEAD: &'static str = "SELECT status, COUNT(*) FROM tickets";

pub const COUNT_BY_PRIORITY_HEAD: &'static str = "SELECT priority, COUNT(*) FROM tickets";

pub const WHERE_ASSIGNEE: &'static str = " WHERE assignee_id = ";

pub const GROUP_BY_STATUS: &'static str = " GROUP BY status";

pub const GROUP_BY_PRIORITY: &'static str = " GROUP BY priority";

pub const INSERT_COMMENT: &'static str =
    "INSERT INTO comments (id, ticket_id, author_id, content, created_at, updated_at) VALUES ($1, $2, $3, $4, $5, $5) RETURNING id, ticket_id, author_id, content, created_at, updated_at";

pub const SELECT_COMMENTS_OF_TICKET: &'static str =
    "SELECT id, ticket_id, author_id, content, created_at, updated_at FROM comments WHERE ticket_id = $1 ORDER BY created_at ASC";

pub const PING: &'static str = "SELECT 1";

impl Table {
    /// The statement that counts the rows of the table.
    pub open spec fn count_text(self) -> Seq<char> {
        match self {
            Table::Tickets => "SELECT COUNT(*) FROM tickets"@,
            Table::Tags => "SELECT COUNT(*) FROM tags"@,
            Table::TicketTags => "SELECT COUNT(*) FROM ticket_tags"@,
            Table::Comments => "SELECT COUNT(*) FROM comments"@,
        }
    }

    pub fn count_sql(&self) -> (text: &'static str)
        ensures
            text@ == self.count_text(),
    {
        match self {
            Table::Tickets => "SELECT COUNT(*) FROM tickets",
            Table::Tags => "SELECT COUNT(*) FROM tags",
            Table::TicketTags => "SELECT COUNT(*) FROM ticket_tags",
            Table::Comments => "SELECT COUNT(*) FROM comments",
        }
    }

    /// The statement that refreshes the statistics of the table.
    pub open spec fn analyze_text(self) -> Seq<char> {
        match self {
            Table::Tickets => "ANALYZE tickets"@,
            Table::Tags => "ANALYZE tags"@,
            Table::TicketTags => "ANALYZE ticket_tags"@,
            Table::Comments => "ANALYZE comments"@,
        }
    }

    pub fn analyze_sql(&self) -> (text: &'static str)
        ensures
            text@ == self.analyze_text(),
    {
        match self {
            Table::Tickets => "ANALYZE tickets",
            Table::Tags => "ANALYZE tags",
            Table::TicketTags => "ANALYZE ticket_tags",
            Table::Comments => "ANALYZE comments",
        }
    }
}

impl Index {
    /// The statement that creates the index unless it is there.
    pub open spec fn create_text(self) -> Seq<char> {
        match self {
            Index::TicketsCreatedAt =>
                "CREATE INDEX IF NOT EXISTS idx_tickets_created_at ON tickets(created_at DESC)"@,
            Index::TicketsStatus =>
                "CREATE INDEX IF NOT EXISTS idx_tickets_status ON tickets(status)"@,
            Index::TicketsPriority =>
                "CREATE INDEX IF NOT EXISTS idx_tickets_priority ON tickets(priority)"@,
            Index::TagsName => "CREATE INDEX IF NOT EXISTS idx_tags_name ON tags(name)"@,
            Index::TicketTagsTicketId =>
                "CREATE INDEX IF NOT EXISTS idx_ticket_tags_ticket_id ON ticket_tags(ticket_id)"@,
            Index::TicketTagsTagId =>
                "CREATE INDEX IF NOT EXISTS idx_ticket_tags_tag_id ON ticket_tags(tag_id)"@,
            Index::TicketsStatusCreatedAt =>
                "CREATE INDEX IF NOT EXISTS idx_tickets_status_created_at ON tickets(status, created_at DESC)"@,
        }
    }

    pub fn create_sql(&self) -> (text: &'static str)
        ensures
            text@ == self.create_text(),
    {
        match self {
            Index::TicketsCreatedAt =>
                "CREATE INDEX IF NOT EXISTS idx_tickets_created_at ON tickets(created_at DESC)",
            Index::TicketsStatus => "CREATE INDEX IF NOT EXISTS idx_tickets_status ON tickets(status)",
            Index::TicketsPriority =>
                "CREATE INDEX IF NOT EXISTS idx_tickets_priority ON tickets(priority)",
            Index::TagsName => "CREATE INDEX IF NOT EXISTS idx_tags_name ON tags(name)",
            Index::TicketTagsTicketId =>
                "CREATE INDEX IF NOT EXISTS idx_ticket_tags_ticket_id ON ticket_tags(ticket_id)",
            Index::TicketTagsTagId =>
                "CREATE INDEX IF NOT EXISTS idx_ticket_tags_tag_id ON ticket_tags(tag_id)",
            Index::TicketsStatusCreatedAt =>
                "CREATE INDEX IF NOT EXISTS idx_tickets_status_created_at ON tickets(status, created_at DESC)",
        }
    }
}

/// A request made of a text, the values bound to it and what is awaited.
pub open spec fn ask(sql: Seq<char>, params: Seq<Param>, expect: Expect) -> RequestView {
    RequestView { statement: StatementView { sql, params }, expect }
}

/// A statement with one more column set, where a value is given.
pub open spec fn set_if(statement: StatementView, column: Seq<char>, value: Option<Param>) -> StatementView {
    match value {
        Some(v) => statement.text(column).bind(v),
        None => statement,
    }
}

/// A text as a bound value, where one is given.
pub open spec fn text_param(text: Option<Seq<char>>) -> Option<Param> {
    match text {
        Some(t) => Some(Param::Text(t)),
        None => None,
    }
}

/// An identifier as a bound value, where one is given.
pub open spec fn id_param(id: Option<Id>) -> Option<Param> {
    match id {
        Some(i) => Some(Param::Id(i)),
        None => None,
    }
}

/// The text of a status as a bound value, where one is given.
pub open spec fn status_param(status: Option<TicketStatus>) -> Option<Param> {
    match status {
        Some(s) => Some(Param::Text(s.text())),
        None => None,
    }
}

/// The text of a priority as a bound value, where one is given.
pub open spec fn priority_param(priority: Option<Priority>) -> Option<Param> {
    match priority {
        Some(p) => Some(Param::Text(p.text())),
        None => None,
    }
}

/// The statement that changes a tag.
pub open spec fn update_tag_statement(
    id: Id,
    name: Option<Seq<char>>,
    color: Option<Seq<char>>,
    now: Timestamp,
) -> StatementView {
    let timed = StatementView::start(UPDATE_TAG_HEAD@).bind(Param::Time(now));
    let named = set_if(timed, SET_NAME@, text_param(name));
    let colored = set_if(named, SET_COLOR@, text_param(color));
    colored.text(WHERE_ID@).bind(Param::Id(id)).text(RETURNING_TAG@)
}

/// The statement that changes a ticket. It writes the time of the change and
/// the fields that are given, and no other column.
pub open spec fn update_ticket_statement(id: Id, changes: TicketChanges, now: Timestamp) -> StatementView {
    let timed = StatementView::start(UPDATE_TICKET_HEAD@).bind(Param::Time(now));
    let titled = set_if(timed, SET_TITLE@, text_param(changes.title));
    let described = set_if(titled, SET_DESCRIPTION@, text_param(changes.description));
    let with_status = set_if(described, SET_STATUS@, status_param(changes.status));
    let with_priority = set_if(with_status, SET_PRIORITY@, priority_param(changes.priority));
    let assigned = set_if(with_priority, SET_ASSIGNEE@, id_param(changes.assignee_id));
    assigned.text(WHERE_ID@).bind(Param::Id(id)).text(RETURNING_TICKET@)
}

/// A statement with one pair of ticket and tag for each tag of a list at its
/// end, the pairs separated by commas.
pub open spec fn with_pairs(statement: StatementView, ticket_id: Id, tag_ids: Seq<Id>) -> StatementView
    decreases tag_ids.len(),
{
    if tag_ids.len() == 0 {
        statement
    } else {
        let before = with_pairs(statement, ticket_id, tag_ids.drop_last());
        let joined = if tag_ids.len() == 1 {
            before
        } else {
            before.text(COMMA@)
        };
        joined.text(OPEN@).bind(Param::Id(ticket_id)).text(COMMA@).bind(
            Param::Id(tag_ids.last()),
        ).text(CLOSE@)
    }
}

/// The statement that counts tickets by a column, of one assignee where one
/// is named.
pub open spec fn grouped_count(
    head: Seq<char>,
    assignee_id: Option<Id>,
    tail: Seq<char>,
) -> StatementView {
    set_if(StatementView::start(head), WHERE_ASSIGNEE@, id_param(assignee_id)).text(tail)
}

/// The statement that carries out a command, and what it brings back.
pub open spec fn render(command: Command) -> RequestView {
    match command {
        Command::InsertTag { id, name, color, now } => ask(
            INSERT_TAG@,
            seq![Param::Id(id), Param::Text(name), Param::Text(color), Param::Time(now)],
            Expect::Tags,
        ),
        Command::SelectTagById(id) => ask(SELECT_TAG_BY_ID@, seq![Param::Id(id)], Expect::Tags),
        Command::SelectTagByName(name) => ask(
            SELECT_TAG_BY_NAME@,
            seq![Param::Text(name)],
            Expect::Tags,
        ),
        Command::CountTagsNamed { name, exclude } => match exclude {
            Some(id) => ask(
                COUNT_OTHER_TAGS_NAMED@,
                seq![Param::Text(name), Param::Id(id)],
                Expect::Count,
            ),
            None => ask(COUNT_TAGS_NAMED@, seq![Param::Text(name)], Expect::Count),
        },
        Command::SelectTags => ask(SELECT_TAGS@, Seq::empty(), Expect::Tags),
        Command::SelectTagsWithCounts => ask(
            SELECT_TAGS_WITH_COUNTS@,
            Seq::empty(),
            Expect::CountedTags,
        ),
        Command::SelectPopularTags { limit } => ask(
            SELECT_POPULAR_TAGS@,
            seq![Param::Int(limit)],
            Expect::CountedTags,
        ),
        Command::SelectTagsOfTicket(ticket_id) => ask(
            SELECT_TAGS_OF_TICKET@,
            seq![Param::Id(ticket_id)],
            Expect::Tags,
        ),
        Command::SearchTags { pattern, limit } => ask(
            SEARCH_TAGS@,
            seq![Param::Text(pattern), Param::Int(limit)],
            Expect::Tags,
        ),
        Command::UpdateTag { id, name, color, now } => RequestView {
            statement: update_tag_statement(id, name, color, now),
            expect: Expect::Tags,
        },
        Command::DeleteTagLinks(id) => ask(DELETE_TAG_LINKS@, seq![Param::Id(id)], Expect::Affected),
        Command::DeleteTag(id) => ask(DELETE_TAG@, seq![Param::Id(id)], Expect::Affected),
        Command::CountUnusedTags => ask(COUNT_UNUSED_TAGS@, Seq::empty(), Expect::Count),
        Command::SelectMostUsedTags { limit } => ask(
            SELECT_MOST_USED_TAGS@,
            seq![Param::Int(limit)],
            Expect::CountedTags,
        ),
        Command::InsertTicket {
            id,
            title,
            description,
            status,
            priority,
            assignee_id,
            reporter_id,
            now,
        } => ask(
            INSERT_TICKET@,
            seq![
                Param::Id(id),
                Param::Text(title),
                Param::optional_text(description),
                Param::Text(status.text()),
                Param::Text(priority.text()),
                Param::optional_id(assignee_id),
                Param::optional_id(reporter_id),
                Param::Time(now),
            ],
            Expect::Tickets,
        ),
        Command::SelectTicketById(id) => ask(
            SELECT_TICKET_BY_ID@,
            seq![Param::Id(id)],
            Expect::Tickets,
        ),
        Command::SearchTickets { pattern, limit } => ask(
            SEARCH_TICKETS@,
            seq![Param::Text(pattern), Param::Int(limit)],
            Expect::Tickets,
        ),
        Command::UpdateTicket { id, changes, now } => RequestView {
            statement: update_ticket_statement(id, changes, now),
            expect: Expect::Tickets,
        },
        Command::AttachTag { ticket_id, tag_id } => ask(
            ATTACH_TAG@,
            seq![Param::Id(ticket_id), Param::Id(tag_id)],
            Expect::Affected,
        ),
        Command::AttachTags { ticket_id, tag_ids } => RequestView {
            statement: with_pairs(
                StatementView::start(ATTACH_TAGS_HEAD@),
                ticket_id,
                tag_ids,
            ).text(ATTACH_TAGS_TAIL@),
            expect: Expect::Affected,
        },
        Command::DetachTag { ticket_id, tag_id } => ask(
            DETACH_TAG@,
            seq![Param::Id(ticket_id), Param::Id(tag_id)],
            Expect::Affected,
        ),
        Command::DeleteTicketLinks(id) => ask(
            DELETE_TICKET_LINKS@,
            seq![Param::Id(id)],
            Expect::Affected,
        ),
        Command::DeleteTicketComments(id) => ask(
            DELETE_TICKET_COMMENTS@,
            seq![Param::Id(id)],
            Expect::Affected,
        ),
        Command::DeleteTicket(id) => ask(DELETE_TICKET@, seq![Param::Id(id)], Expect::Affected),
        Command::CountTickets(filter) => count_tickets(filter),
        Command::SelectPage(listing) => select_page(listing),
        Command::CountTicketsByStatus { assignee_id } => RequestView {
            statement: grouped_count(COUNT_BY_STATUS_HEAD@, assignee_id, GROUP_BY_STATUS@),
            expect: Expect::StatusCounts,
        },
        Command::CountTicketsByPriority { assignee_id } => RequestView {
            statement: grouped_count(COUNT_BY_PRIORITY_HEAD@, assignee_id, GROUP_BY_PRIORITY@),
            expect: Expect::PriorityCounts,
        },
        Command::InsertComment { id, ticket_id, author_id, content, now } => ask(
            INSERT_COMMENT@,
            seq![
                Param::Id(id),
                Param::Id(ticket_id),
                Param::optional_id(author_id),
                Param::Text(content),
                Param::Time(now),
            ],
            Expect::Comments,
        ),
        Command::SelectCommentsOfTicket(ticket_id) => ask(
            SELECT_COMMENTS_OF_TICKET@,
            seq![Param::Id(ticket_id)],
            Expect::Comments,
        ),
        Command::CountRows(table) => ask(table.count_text(), Seq::empty(), Expect::Count),
        Command::Ping => ask(PING@, Seq::empty(), Expect::Affected),
        Command::CreateIndex(index) => ask(index.create_text(), Seq::empty(), Expect::Affected),
        Command::Analyze(table) => ask(table.analyze_text(), Seq::empty(), Expect::Affected),
    }
}

/// Makes a request of a fixed text and its bound values.
pub fn fixed_request(sql: &str, params: Vec<SqlValue>, expect: Expect) -> (request: Request)
    ensures
        request@ == ask(sql@, params_of(params@), expect),
{
    Request { statement: Statement { sql: String::from_str(sql), params }, expect }
}

/// Makes a request that binds nothing.
pub fn plain_request(sql: &str, expect: Expect) -> (request: Request)
    ensures
        request@ == ask(sql@, Seq::empty(), expect),
{
    let params: Vec<SqlValue> = Vec::new();
    assert(params_of(params@) =~= Seq::<Param>::empty());
    fixed_request(sql, params, expect)
}

/// Makes a request that binds one identifier.
pub fn request_by_id(sql: &str, id: Id, expect: Expect) -> (request: Request)
    ensures
        request@ == ask(sql@, seq![Param::Id(id)], expect),
{
    let params = vec![SqlValue::Id(id)];
    assert(params_of(params@) =~= seq![Param::Id(id)]);
    fixed_request(sql, params, expect)
}

/// Makes a request that binds a ticket and a tag.
pub fn pair_request(sql: &str, ticket_id: Id, tag_id: Id) -> (request: Request)
    ensures
        request@ == ask(sql@, seq![Param::Id(ticket_id), Param::Id(tag_id)], Expect::Affected),
{
    let params = vec![SqlValue::Id(ticket_id), SqlValue::Id(tag_id)];
    assert(params_of(params@) =~= seq![Param::Id(ticket_id), Param::Id(tag_id)]);
    fixed_request(sql, params, Expect::Affected)
}

/// Makes a request that binds a pattern and a limit.
pub fn search_request(sql: &str, pattern: String, limit: i64, expect: Expect) -> (request: Request)
    ensures
        request@ == ask(sql@, seq![Param::Text(pattern@), Param::Int(limit)], expect),
{
    let params = vec![SqlValue::Text(pattern), SqlValue::Int(limit)];
    assert(params_of(params@) =~= seq![Param::Text(pattern@), Param::Int(limit)]);
    fixed_request(sql, params, expect)
}

/// Makes a request that binds one number.
pub fn limited_request(sql: &str, limit: i64, expect: Expect) -> (request: Request)
    ensures
        request@ == ask(sql@, seq![Param::Int(limit)], expect),
{
    let params = vec![SqlValue::Int(limit)];
    assert(params_of(params@) =~= seq![Param::Int(limit)]);
    fixed_request(sql, params, expect)
}

/// The view of a text that may be absent.
pub open spec fn text_of(text: Option<String>) -> Option<Seq<char>> {
    match text {
        Some(t) => Some(t@),
        None => None,
    }
}

/// Appends a column and its value to the list of columns that a statement
/// sets, where a value is given.
pub fn push_set(statement: &mut Statement, column: &str, value: Option<SqlValue>)
    ensures
        final(statement)@ == set_if(
            old(statement)@,
            column@,
            match value {
                Some(v) => Some(v@),
                None => None,
            },
        ),
{
    if let Some(value) = value {
        statement.push(column);
        statement.push_bind(value);
    }
}

/// A text as a value to bind, where one is given.
pub fn text_value(text: Option<String>) -> (value: Option<SqlValue>)
    ensures
        (match value {
            Some(v) => Some(v@),
            None => None,
        }) == text_param(text_of(text)),
{
    match text {
        Some(t) => Some(SqlValue::Text(t)),
        None => None,
    }
}

/// An identifier as a value to bind, where one is given.
pub fn id_value(id: Option<Id>) -> (value: Option<SqlValue>)
    ensures
        (match value {
            Some(v) => Some(v@),
            None => None,
        }) == id_param(id),
{
    match id {
        Some(i) => Some(SqlValue::Id(i)),
        None => None,
    }
}

/// Builds the statement that stores a tag.
pub fn insert_tag_request(id: Id, name: String, color: String, now: Timestamp) -> (request: Request)
    ensures
        request@ == render(Command::InsertTag { id, name: name@, color: color@, now }),
{
    let params = vec![
        SqlValue::Id(id),
        SqlValue::Text(name),
        SqlValue::Text(color),
        SqlValue::Time(now),
    ];
    assert(params_of(params@) =~= seq![
        Param::Id(id),
        Param::Text(name@),
        Param::Text(color@),
        Param::Time(now),
    ]);
    fixed_request(INSERT_TAG, params, Expect::Tags)
}

/// Builds the statement that counts the tags of a name.
pub fn count_tags_named_request(name: String, exclude: Option<Id>) -> (request: Request)
    ensures
        request@ == render(Command::CountTagsNamed { name: name@, exclude }),
{
    match exclude {
        Some(id) => {
            let params = vec![SqlValue::Text(name), SqlValue::Id(id)];
            assert(params_of(params@) =~= seq![Param::Text(name@), Param::Id(id)]);
            fixed_request(COUNT_OTHER_TAGS_NAMED, params, Expect::Count)
        },
        None => {
            let params = vec![SqlValue::Text(name)];
            assert(params_of(params@) =~= seq![Param::Text(name@)]);
            fixed_request(COUNT_TAGS_NAMED, params, Expect::Count)
        },
    }
}

/// Builds the statement that changes a tag.
pub fn update_tag_request(id: Id, name: Option<String>, color: Option<String>, now: Timestamp) -> (request:
    Request)
    ensures
        request@ == render(
            Command::UpdateTag { id, name: text_of(name), color: text_of(color), now },
        ),
{
    let mut statement = Statement::new(UPDATE_TAG_HEAD);
    statement.push_bind(SqlValue::Time(now));
    push_set(&mut statement, SET_NAME, text_value(name));
    push_set(&mut statement, SET_COLOR, text_value(color));
    statement.push(WHERE_ID);
    statement.push_bind(SqlValue::Id(id));
    statement.push(RETURNING_TAG);
    Request { statement, expect: Expect::Tags }
}

/// Builds the statement that attaches each tag of a list to a ticket.
pub fn attach_tags_request(ticket_id: Id, tag_ids: &Vec<Id>) -> (request: Request)
    ensures
        request@ == render(Command::AttachTags { ticket_id, tag_ids: tag_ids@ }),
{
    let mut statement = Statement::new(ATTACH_TAGS_HEAD);
    let ghost start = statement@;
    let mut i: usize = 0;
    while i < tag_ids.len()
        invariant
            i <= tag_ids.len(),
            statement@ == with_pairs(start, ticket_id, tag_ids@.subrange(0, i as int)),
        decreases tag_ids.len() - i,
    {
        assert(tag_ids@.subrange(0, i + 1).drop_last() =~= tag_ids@.subrange(0, i as int));
        if i > 0 {
            statement.push(COMMA);
        }
        statement.push(OPEN);
        statement.push_bind(SqlValue::Id(ticket_id));
        statement.push(COMMA);
        statement.push_bind(SqlValue::Id(tag_ids[i]));
        statement.push(CLOSE);
        i = i + 1;
    }
    assert(tag_ids@.subrange(0, tag_ids.len() as int) =~= tag_ids@);
    statement.push(ATTACH_TAGS_TAIL);
    Request { statement, expect: Expect::Affected }
}

/// Builds the statement that counts tickets by status or by priority.
pub fn grouped_count_request(head: &str, assignee_id: Option<Id>, tail: &str, expect: Expect) -> (request:
    Request)
    ensures
        request@ == (RequestView {
            statement: grouped_count(head@, assignee_id, tail@),
            expect,
        }),
{
    let mut statement = Statement::new(head);
    push_set(&mut statement, WHERE_ASSIGNEE, id_value(assignee_id));
    statement.push(tail);
    Request { statement, expect }
}

/// Builds the statement that stores a comment.
pub fn insert_comment_request(
    id: Id,
    ticket_id: Id,
    author_id: Option<Id>,
    content: String,
    now: Timestamp,
) -> (request: Request)
    ensures
        request@ == render(
            Command::InsertComment { id, ticket_id, author_id, content: content@, now },
        ),
{
    let params = vec![
        SqlValue::Id(id),
        SqlValue::Id(ticket_id),
        SqlValue::optional_id(author_id),
        SqlValue::Text(content),
        SqlValue::Time(now),
    ];
    assert(params_of(params@) =~= seq![
        Param::Id(id),
        Param::Id(ticket_id),
        Param::optional_id(author_id),
        Param::Text(content@),
        Param::Time(now),
    ]);
    fixed_request(INSERT_COMMENT, params, Expect::Comments)
}

} // verus!
