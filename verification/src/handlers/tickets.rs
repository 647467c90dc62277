//! The requests on tickets: listing, details, creation, change, removal,
//! search, change of status in bulk, comments and figures.

use vstd::prelude::*;
use vstd::string::*;
use crate::clock::current_time;
use crate::commands::{
    grouped_count_request, insert_comment_request, request_by_id, Command, TicketChanges,
    COUNT_BY_PRIORITY_HEAD, COUNT_BY_STATUS_HEAD, GROUP_BY_PRIORITY, GROUP_BY_STATUS,
    SELECT_COMMENTS_OF_TICKET, SELECT_TAGS_OF_TICKET, SELECT_TICKET_BY_ID,
};
use crate::error::{AppError, ErrorView};
use crate::ids::{format_id, fresh_id, is_random_id, text_of_id};
use crate::models::{
    Comment, CreateCommentRequest, CreateTicketRequest, Id, PaginatedResponse, Priority, Tag,
    Ticket, TicketQuery, TicketStatus, TicketWithDetails, Timestamp, UpdateTicketRequest,
};
use crate::repositories::tickets::{
    ticket_not_found, update_ticket_request, TicketDelete, TicketList, TicketOp,
    TicketRepository, TicketRows, TICKET_SEARCH_LIMIT,
};
use crate::store::{
    unexpected_reply, Expect, Plan, PriorityCount, Reply, StatusCount, Step,
};
use crate::text::{contains_pattern, one_more, texts_of};
use crate::validation::verdict;

verus! {

/// Filter, order and page of a ticket listing, as a caller sends them.
#[derive(Debug, Clone, PartialEq, Eq)]
pub struct ListTicketsQuery {
    pub status: Option<TicketStatus>,
    pub priority: Option<Priority>,
    pub assignee_id: Option<Id>,
    pub reporter_id: Option<Id>,
    pub tag_id: Option<Id>,
    pub search: Option<String>,
    pub limit: Option<i64>,
    pub offset: Option<i64>,
    pub sort_by: Option<String>,
    pub sort_order: Option<String>,
}

impl ListTicketsQuery {
    /// The query of the repository with the same fields.
    pub open spec fn as_query(self) -> TicketQuery {
        TicketQuery {
            status: self.status,
            priority: self.priority,
            assignee_id: self.assignee_id,
            reporter_id: self.reporter_id,
            tag_id: self.tag_id,
            search: self.search,
            limit: self.limit,
            offset: self.offset,
            sort_by: self.sort_by,
            sort_order: self.sort_order,
        }
    }

    /// Hands the fields over to a query of the repository.
    pub fn into_query(self) -> (query: TicketQuery)
        ensures
            query == self.as_query(),
    {
        TicketQuery {
            status: self.status,
            priority: self.priority,
            assignee_id: self.assignee_id,
            reporter_id: self.reporter_id,
            tag_id: self.tag_id,
            search: self.search,
            limit: self.limit,
            offset: self.offset,
            sort_by: self.sort_by,
            sort_order: self.sort_order,
        }
    }
}

/// The term of a search for tickets.
#[derive(Debug, Clone, PartialEq, Eq)]
pub struct SearchQuery {
    pub q: String,
}

/// Lists one page of the tickets that a query selects.
pub fn list_tickets(query: ListTicketsQuery) -> (step: Step<TicketList, PaginatedResponse<Ticket>>)
    ensures
        step.follows(TicketRepository::listing(query.as_query())),
{
    TicketRepository::new().list(query.into_query())
}

/// The look-up of a ticket with its tags and comments.
#[derive(Debug)]
pub enum TicketDetails {
    /// Waiting for the row of the ticket.
    Fetching { id: Id },
    /// Waiting for the tags of the ticket.
    Tagging { id: Id, ticket: Ticket },
    /// Waiting for the comments of the ticket.
    Commenting { ticket: Ticket, tags: Vec<Tag> },
}

impl View for TicketDetails {
    type V = TicketDetails;

    open spec fn view(&self) -> TicketDetails {
        *self
    }
}

impl TicketDetails {
    /// What the look-up does with the store's reply: a ticket that is there
    /// is followed by its tags, by name, and by its comments, oldest first;
    /// one that is not there ends the look-up.
    pub open spec fn next(self, reply: Reply) -> Plan<TicketDetails, TicketWithDetails> {
        match self {
            TicketDetails::Fetching { id } => match reply {
                Reply::Tickets(rows) => if rows@.len() > 0 {
                    Plan::Ask(
                        TicketDetails::Tagging { id, ticket: rows@[0] },
                        Command::SelectTagsOfTicket(id),
                    )
                } else {
                    Plan::Done(Err(ticket_not_found()))
                },
                _ => Plan::Done(Err(reply.failure())),
            },
            TicketDetails::Tagging { id, ticket } => match reply {
                Reply::Tags(tags) => Plan::Ask(
                    TicketDetails::Commenting { ticket, tags },
                    Command::SelectCommentsOfTicket(id),
                ),
                _ => Plan::Done(Err(reply.failure())),
            },
            TicketDetails::Commenting { ticket, tags } => match reply {
                Reply::Comments(comments) => Plan::Done(
                    Ok(TicketWithDetails { ticket, tags, comments }),
                ),
                _ => Plan::Done(Err(reply.failure())),
            },
        }
    }

    /// Takes the store's reply and makes the next move.
    pub fn advance(self, reply: Reply) -> (step: Step<TicketDetails, TicketWithDetails>)
        ensures
            step.follows(self.next(reply)),
    {
        match self {
            TicketDetails::Fetching { id } => match reply {
                Reply::Tickets(mut rows) => {
                    if rows.len() > 0 {
                        let ticket = rows.remove(0);
                        Step::Ask(
                            TicketDetails::Tagging { id, ticket },
                            request_by_id(SELECT_TAGS_OF_TICKET, id, Expect::Tags),
                        )
                    } else {
                        Step::Done(Err(AppError::not_found("工单")))
                    }
                },
                other => Step::Done(Err(other.into_failure())),
            },
            TicketDetails::Tagging { id, ticket } => match reply {
                Reply::Tags(tags) => Step::Ask(
                    TicketDetails::Commenting { ticket, tags },
                    request_by_id(SELECT_COMMENTS_OF_TICKET, id, Expect::Comments),
                ),
                other => Step::Done(Err(other.into_failure())),
            },
            TicketDetails::Commenting { ticket, tags } => match reply {
                Reply::Comments(comments) => Step::Done(
                    Ok(TicketWithDetails { ticket, tags, comments }),
                ),
                other => Step::Done(Err(other.into_failure())),
            },
        }
    }
}

/// Looks a ticket up with its tags and comments.
pub fn get_ticket(id: Id) -> (step: Step<TicketDetails, TicketWithDetails>)
    ensures
        step.follows(Plan::Ask(TicketDetails::Fetching { id }, Command::SelectTicketById(id))),
{
    Step::Ask(
        TicketDetails::Fetching { id },
        request_by_id(SELECT_TICKET_BY_ID, id, Expect::Tickets),
    )
}

/// How the creation of a ticket goes, given its identifier and the time: a
/// request that breaks the rules on its fields is refused before anything is
/// asked of the store; another starts the creation.
pub open spec fn creating_ticket(request: CreateTicketRequest, id: Id, now: Timestamp) -> Plan<
    TicketOp,
    Ticket,
> {
    match verdict(request.violations()) {
        Err(error) => Plan::Done(Err(error)),
        Ok(_) => TicketRepository::creating(request, id, now),
    }
}

/// Creates a ticket with a given identifier and time.
pub fn create_ticket_with(request: CreateTicketRequest, id: Id, now: Timestamp) -> (step: Step<
    TicketOp,
    Ticket,
>)
    ensures
        step.follows(creating_ticket(request, id, now)),
{
    match request.validate() {
        Err(error) => Step::Done(Err(error)),
        Ok(_) => TicketRepository::new().create_with(request, id, now),
    }
}

/// Creates a ticket under a fresh random identifier, at the present time.
pub fn create_ticket(request: CreateTicketRequest) -> (step: Step<TicketOp, Ticket>)
    ensures
        exists|id: Id, now: Timestamp|
            is_random_id(id) && #[trigger] step.follows(creating_ticket(request, id, now)),
{
    let id = fresh_id();
    let now = current_time();
    create_ticket_with(request, id, now)
}

/// How the change of a ticket goes, given the time: a request that breaks
/// the rules on its fields is refused before anything is asked of the store;
/// another starts the change.
pub open spec fn updating_ticket(id: Id, request: UpdateTicketRequest, now: Timestamp) -> Plan<
    TicketOp,
    Ticket,
> {
    match verdict(request.violations()) {
        Err(error) => Plan::Done(Err(error)),
        Ok(_) => TicketRepository::updating(id, request, now),
    }
}

/// Changes a ticket at a given time.
pub fn update_ticket_at(id: Id, request: UpdateTicketRequest, now: Timestamp) -> (step: Step<
    TicketOp,
    Ticket,
>)
    ensures
        step.follows(updating_ticket(id, request, now)),
{
    match request.validate() {
        Err(error) => Step::Done(Err(error)),
        Ok(_) => TicketRepository::new().update_at(id, request, now),
    }
}

/// Changes a ticket at the present time.
pub fn update_ticket(id: Id, request: UpdateTicketRequest) -> (step: Step<TicketOp, Ticket>)
    ensures
        exists|now: Timestamp| #[trigger] step.follows(updating_ticket(id, request, now)),
{
    let now = current_time();
    update_ticket_at(id, request, now)
}

/// Removes a ticket with its comments and its attachments to tags.
pub fn delete_ticket(id: Id) -> (step: Step<TicketDelete, ()>)
    ensures
        step.follows(Plan::Ask(TicketDelete::Detaching { id }, Command::DeleteTicketLinks(id))),
{
    TicketRepository::new().delete(id)
}

/// Searches the tickets by title and description.
pub fn search_tickets(query: SearchQuery) -> (step: Step<TicketRows, Vec<Ticket>>)
    ensures
        step.follows(
            Plan::Ask(
                TicketRows {  },
                Command::SearchTickets {
                    pattern: contains_pattern(query.q@),
                    limit: TICKET_SEARCH_LIMIT,
                },
            ),
        ),
{
    TicketRepository::new().search(query.q.as_str())
}

/// The addition of a comment to a ticket.
#[derive(Debug)]
pub enum CommentOp {
    /// Waiting for the row of the ticket that the comment is for.
    Checking { id: Id, ticket_id: Id, request: CreateCommentRequest, now: Timestamp },
    /// Waiting for the row of the comment.
    Inserting,
}

impl View for CommentOp {
    type V = CommentOp;

    open spec fn view(&self) -> CommentOp {
        *self
    }
}

impl CommentOp {
    /// What the addition does with the store's reply: the comment is stored
    /// only if its ticket is there.
    pub open spec fn next(self, reply: Reply) -> Plan<CommentOp, Comment> {
        match self {
            CommentOp::Checking { id, ticket_id, request, now } => match reply {
                Reply::Tickets(rows) => if rows@.len() > 0 {
                    Plan::Ask(
                        CommentOp::Inserting,
                        Command::InsertComment {
                            id,
                            ticket_id,
                            author_id: request.author_id,
                            content: request.content@,
                            now,
                        },
                    )
                } else {
                    Plan::Done(Err(ticket_not_found()))
                },
                _ => Plan::Done(Err(reply.failure())),
            },
            CommentOp::Inserting => match reply {
                Reply::Comments(rows) => if rows@.len() > 0 {
                    Plan::Done(Ok(rows@[0]))
                } else {
                    Plan::Done(Err(unexpected_reply()))
                },
                _ => Plan::Done(Err(reply.failure())),
            },
        }
    }

    /// Takes the store's reply and makes the next move.
    pub fn advance(self, reply: Reply) -> (step: Step<CommentOp, Comment>)
        ensures
            step.follows(self.next(reply)),
    {
        match self {
            CommentOp::Checking { id, ticket_id, request, now } => match reply {
                Reply::Tickets(rows) => {
                    if rows.len() > 0 {
                        Step::Ask(
                            CommentOp::Inserting,
                            insert_comment_request(
                                id,
                                ticket_id,
                                request.author_id,
                                request.content,
                                now,
                            ),
                        )
                    } else {
                        Step::Done(Err(AppError::not_found("工单")))
                    }
                },
                other => Step::Done(Err(other.into_failure())),
            },
            CommentOp::Inserting => match reply {
                Reply::Comments(mut rows) => {
                    if rows.len() > 0 {
                        Step::Done(Ok(rows.remove(0)))
                    } else {
                        Step::Done(Err(AppError::internal("unexpected reply from the store")))
                    }
                },
                other => Step::Done(Err(other.into_failure())),
            },
        }
    }
}

/// How the addition of a comment goes, given its identifier and the time: a
/// comment without content is refused before anything is asked of the store;
/// for another the ticket is looked up first.
pub open spec fn adding_comment(
    ticket_id: Id,
    request: CreateCommentRequest,
    id: Id,
    now: Timestamp,
) -> Plan<CommentOp, Comment> {
    match verdict(request.violations()) {
        Err(error) => Plan::Done(Err(error)),
        Ok(_) => Plan::Ask(
            CommentOp::Checking { id, ticket_id, request, now },
            Command::SelectTicketById(ticket_id),
        ),
    }
}

/// Adds a comment to a ticket with a given identifier and time.
pub fn add_comment_with(ticket_id: Id, request: CreateCommentRequest, id: Id, now: Timestamp) -> (step:
    Step<CommentOp, Comment>)
    ensures
        step.follows(adding_comment(ticket_id, request, id, now)),
{
    match request.validate() {
        Err(error) => Step::Done(Err(error)),
        Ok(_) => Step::Ask(
            CommentOp::Checking { id, ticket_id, request, now },
            request_by_id(SELECT_TICKET_BY_ID, ticket_id, Expect::Tickets),
        ),
    }
}

/// Adds a comment to a ticket under a fresh random identifier, at the
/// present time.
pub fn add_comment(ticket_id: Id, request: CreateCommentRequest) -> (step: Step<CommentOp, Comment>)
    ensures
        exists|id: Id, now: Timestamp|
            is_random_id(id) && #[trigger] step.follows(
                adding_comment(ticket_id, request, id, now),
            ),
{
    let id = fresh_id();
    let now = current_time();
    add_comment_with(ticket_id, request, id, now)
}

/// A change of status for a list of tickets.
#[derive(Debug, Clone, PartialEq, Eq)]
pub struct BulkUpdateStatusRequest {
    pub ticket_ids: Vec<Id>,
    pub status: TicketStatus,
}

/// What a change in bulk came to: how many tickets were changed, out of how
/// many, and a line for each that was not.
#[derive(Debug, Clone, PartialEq, Eq)]
pub struct BulkUpdateResult {
    pub updated_count: usize,
    pub total_count: usize,
    pub errors: Option<Vec<String>>,
}

/// The report of a change in bulk with its lines as sequences of characters.
pub struct BulkResultView {
    pub updated_count: usize,
    pub total_count: usize,
    pub errors: Option<Seq<Seq<char>>>,
}

impl View for BulkUpdateResult {
    type V = BulkResultView;

    open spec fn view(&self) -> BulkResultView {
        BulkResultView {
            updated_count: self.updated_count,
            total_count: self.total_count,
            errors: match self.errors {
                Some(lines) => Some(texts_of(lines@)),
                None => None,
            },
        }
    }
}

/// A change of status in bulk, under way.
#[derive(Debug)]
pub struct BulkUpdate {
    pub ticket_ids: Vec<Id>,
    pub status: TicketStatus,
    pub now: Timestamp,
    /// How many tickets have been handed out.
    pub next: usize,
    pub updated_count: usize,
    pub errors: Vec<String>,
}

/// The state of a change in bulk with its lines as sequences of characters.
pub struct BulkUpdateView {
    pub ticket_ids: Seq<Id>,
    pub status: TicketStatus,
    pub now: Timestamp,
    pub next: usize,
    pub updated_count: usize,
    pub errors: Seq<Seq<char>>,
}

impl View for BulkUpdate {
    type V = BulkUpdateView;

    open spec fn view(&self) -> BulkUpdateView {
        BulkUpdateView {
            ticket_ids: self.ticket_ids@,
            status: self.status,
            now: self.now,
            next: self.next,
            updated_count: self.updated_count,
            errors: texts_of(self.errors@),
        }
    }
}

/// The change that writes a status and nothing else.
pub open spec fn status_only(status: TicketStatus) -> TicketChanges {
    TicketChanges {
        title: None,
        description: None,
        status: Some(status),
        priority: None,
        assignee_id: None,
    }
}

/// The line that reports a failure under the text of an identifier.
pub open spec fn line_of(id_text: Seq<char>, error: ErrorView) -> Seq<char> {
    id_text + ": "@ + error.description()
}

/// The line that reports why a ticket was not changed.
pub open spec fn failure_line(id: Id, error: ErrorView) -> Seq<char> {
    line_of(text_of_id(id), error)
}

/// Writes the line that reports a failure under the text of an identifier.
pub fn error_line(id_text: &str, error: &AppError) -> (line: String)
    ensures
        line@ == line_of(id_text@, error@),
{
    let mut line = String::from_str(id_text);
    line.append(": ");
    line.append(error.description().as_str());
    line
}

impl BulkUpdateView {
    /// The ticket whose change is under way.
    pub open spec fn current(self) -> Id {
        if 0 < self.next <= self.ticket_ids.len() {
            self.ticket_ids[self.next - 1]
        } else {
            0
        }
    }

    /// The move from a state on: the next ticket is handed out, or, when
    /// none is left, the change ends with its report, whose list of errors
    /// is absent where there was none.
    pub open spec fn proceed(self) -> Plan<BulkUpdateView, BulkResultView> {
        if self.next < self.ticket_ids.len() {
            Plan::Ask(
                BulkUpdateView { next: (self.next + 1) as usize, ..self },
                Command::UpdateTicket {
                    id: self.ticket_ids[self.next as int],
                    changes: status_only(self.status),
                    now: self.now,
                },
            )
        } else {
            Plan::Done(
                Ok(
                    BulkResultView {
                        updated_count: self.updated_count,
                        total_count: self.ticket_ids.len() as usize,
                        errors: if self.errors.len() == 0 {
                            None
                        } else {
                            Some(self.errors)
                        },
                    },
                ),
            )
        }
    }

    /// What the change does with the store's reply: a ticket whose row came
    /// back counts as changed; for any other a line is added to the errors;
    /// then the change goes on with the next ticket. No failure ends the
    /// change before every ticket had its turn.
    pub open spec fn next(self, reply: Reply) -> Plan<BulkUpdateView, BulkResultView> {
        match reply {
            Reply::Tickets(rows) => if rows@.len() > 0 {
                (BulkUpdateView { updated_count: one_more(self.updated_count), ..self }).proceed()
            } else {
                (BulkUpdateView {
                    errors: self.errors.push(failure_line(self.current(), ticket_not_found())),
                    ..self
                }).proceed()
            },
            _ => (BulkUpdateView {
                errors: self.errors.push(failure_line(self.current(), reply.failure())),
                ..self
            }).proceed(),
        }
    }
}

impl BulkUpdate {
    fn proceed(self) -> (step: Step<BulkUpdate, BulkUpdateResult>)
        ensures
            step.mirrors(self@.proceed()),
    {
        if self.next < self.ticket_ids.len() {
            let id = self.ticket_ids[self.next];
            let change = UpdateTicketRequest {
                title: None,
                description: None,
                status: Some(self.status),
                priority: None,
                assignee_id: None,
                tag_ids: None,
            };
            let (request, _) = update_ticket_request(id, change, self.now);
            Step::Ask(
                BulkUpdate {
                    ticket_ids: self.ticket_ids,
                    status: self.status,
                    now: self.now,
                    next: self.next + 1,
                    updated_count: self.updated_count,
                    errors: self.errors,
                },
                request,
            )
        } else {
            let total_count = self.ticket_ids.len();
            let errors = if self.errors.len() == 0 {
                None
            } else {
                Some(self.errors)
            };
            Step::Done(Ok(BulkUpdateResult { updated_count: self.updated_count, total_count, errors }))
        }
    }

    fn report(self, error: AppError) -> (step: Step<BulkUpdate, BulkUpdateResult>)
        ensures
            step.mirrors(
                (BulkUpdateView {
                    errors: self@.errors.push(failure_line(self@.current(), error@)),
                    ..self@
                }).proceed(),
            ),
    {
        let id: Id = if 0 < self.next && self.next <= self.ticket_ids.len() {
            self.ticket_ids[self.next - 1]
        } else {
            0
        };
        let line = error_line(format_id(id).as_str(), &error);
        let mut errors = self.errors;
        errors.push(line);
        assert(texts_of(errors@) =~= self@.errors.push(failure_line(self@.current(), error@)));
        (BulkUpdate {
            ticket_ids: self.ticket_ids,
            status: self.status,
            now: self.now,
            next: self.next,
            updated_count: self.updated_count,
            errors,
        }).proceed()
    }

    /// Takes the store's reply and makes the next move.
    pub fn advance(self, reply: Reply) -> (step: Step<BulkUpdate, BulkUpdateResult>)
        ensures
            step.mirrors(self@.next(reply)),
    {
        match reply {
            Reply::Tickets(rows) => {
                if rows.len() > 0 {
                    let updated_count = if self.updated_count < usize::MAX {
                        self.updated_count + 1
                    } else {
                        self.updated_count
                    };
                    (BulkUpdate {
                        ticket_ids: self.ticket_ids,
                        status: self.status,
                        now: self.now,
                        next: self.next,
                        updated_count,
                        errors: self.errors,
                    }).proceed()
                } else {
                    self.report(AppError::not_found("工单"))
                }
            },
            other => {
                let error = other.into_failure();
                self.report(error)
            },
        }
    }
}

/// How a change of status in bulk starts, given the time: with the first
/// ticket, or, where the list is empty, with an empty report.
pub open spec fn bulk_updating(request: BulkUpdateStatusRequest, now: Timestamp) -> Plan<
    BulkUpdateView,
    BulkResultView,
> {
    (BulkUpdateView {
        ticket_ids: request.ticket_ids@,
        status: request.status,
        now,
        next: 0,
        updated_count: 0,
        errors: Seq::empty(),
    }).proceed()
}

/// Changes the status of each ticket of a list, at a given time.
pub fn bulk_update_status_at(request: BulkUpdateStatusRequest, now: Timestamp) -> (step: Step<
    BulkUpdate,
    BulkUpdateResult,
>)
    ensures
        step.mirrors(bulk_updating(request, now)),
{
    let start = BulkUpdate {
        ticket_ids: request.ticket_ids,
        status: request.status,
        now,
        next: 0,
        updated_count: 0,
        errors: Vec::new(),
    };
    assert(texts_of(start.errors@) =~= Seq::<Seq<char>>::empty());
    start.proceed()
}

/// Changes the status of each ticket of a list, at the present time.
pub fn bulk_update_status(request: BulkUpdateStatusRequest) -> (step: Step<
    BulkUpdate,
    BulkUpdateResult,
>)
    ensures
        exists|now: Timestamp| #[trigger] step.mirrors(bulk_updating(request, now)),
{
    let now = current_time();
    bulk_update_status_at(request, now)
}

/// For which tickets figures are asked: those of one assignee, or all.
#[derive(Debug, Clone, PartialEq, Eq)]
pub struct TicketStatsQuery {
    pub assignee_id: Option<Id>,
}

/// The number of tickets in each status.
#[derive(Clone, Copy, Debug, PartialEq, Eq, Structural)]
pub struct StatusStats {
    pub open: i64,
    pub in_progress: i64,
    pub resolved: i64,
    pub closed: i64,
}

/// The number of tickets of each priority.
#[derive(Clone, Copy, Debug, PartialEq, Eq, Structural)]
pub struct PriorityStats {
    pub urgent: i64,
    pub high: i64,
    pub medium: i64,
    pub low: i64,
}

/// Figures on tickets.
#[derive(Clone, Copy, Debug, PartialEq, Eq, Structural)]
pub struct TicketStats {
    pub total_by_status: StatusStats,
    pub total_by_priority: PriorityStats,
}

/// A running total with one more count, as long as it stays within the
/// range of the counts.
pub open spec fn add_count(total: Option<i64>, count: i64) -> Option<i64> {
    match total {
        Some(sum) => if i64::MIN <= sum + count <= i64::MAX {
            Some((sum + count) as i64)
        } else {
            None
        },
        None => None,
    }
}

/// The sum of the counts of the rows of one status.
pub open spec fn status_total(rows: Seq<StatusCount>, status: TicketStatus) -> Option<i64>
    decreases rows.len(),
{
    if rows.len() == 0 {
        Some(0)
    } else if rows.last().status == status {
        add_count(status_total(rows.drop_last(), status), rows.last().count)
    } else {
        status_total(rows.drop_last(), status)
    }
}

/// The sum of the counts of the rows of one priority.
pub open spec fn priority_total(rows: Seq<PriorityCount>, priority: Priority) -> Option<i64>
    decreases rows.len(),
{
    if rows.len() == 0 {
        Some(0)
    } else if rows.last().priority == priority {
        add_count(priority_total(rows.drop_last(), priority), rows.last().count)
    } else {
        priority_total(rows.drop_last(), priority)
    }
}

/// The figures by status that rows of counts add up to, where every sum
/// stays within range.
pub open spec fn status_stats(rows: Seq<StatusCount>) -> Option<StatusStats> {
    let open = status_total(rows, TicketStatus::Open);
    let in_progress = status_total(rows, TicketStatus::InProgress);
    let resolved = status_total(rows, TicketStatus::Resolved);
    let closed = status_total(rows, TicketStatus::Closed);
    if open is Some && in_progress is Some && resolved is Some && closed is Some {
        Some(
            StatusStats {
                open: open->0,
                in_progress: in_progress->0,
                resolved: resolved->0,
                closed: closed->0,
            },
        )
    } else {
        None
    }
}

/// The figures by priority that rows of counts add up to, where every sum
/// stays within range.
pub open spec fn priority_stats(rows: Seq<PriorityCount>) -> Option<PriorityStats> {
    let urgent = priority_total(rows, Priority::Urgent);
    let high = priority_total(rows, Priority::High);
    let medium = priority_total(rows, Priority::Medium);
    let low = priority_total(rows, Priority::Low);
    if urgent is Some && high is Some && medium is Some && low is Some {
        Some(PriorityStats { urgent: urgent->0, high: high->0, medium: medium->0, low: low->0 })
    } else {
        None
    }
}

fn add_to(total: Option<i64>, count: i64) -> (sum: Option<i64>)
    ensures
        sum == add_count(total, count),
{
    match total {
        Some(sum) => sum.checked_add(count),
        None => None,
    }
}

/// Adds up the counts of tickets by status.
pub fn tally_statuses(rows: &Vec<StatusCount>) -> (stats: Option<StatusStats>)
    ensures
        stats == status_stats(rows@),
{
    let mut open: Option<i64> = Some(0);
    let mut in_progress: Option<i64> = Some(0);
    let mut resolved: Option<i64> = Some(0);
    let mut closed: Option<i64> = Some(0);
    let mut i: usize = 0;
    while i < rows.len()
        invariant
            i <= rows.len(),
            open == status_total(rows@.subrange(0, i as int), TicketStatus::Open),
            in_progress == status_total(rows@.subrange(0, i as int), TicketStatus::InProgress),
            resolved == status_total(rows@.subrange(0, i as int), TicketStatus::Resolved),
            closed == status_total(rows@.subrange(0, i as int), TicketStatus::Closed),
        decreases rows.len() - i,
    {
        assert(rows@.subrange(0, i + 1).drop_last() =~= rows@.subrange(0, i as int));
        let row = rows[i];
        match row.status {
            TicketStatus::Open => {
                open = add_to(open, row.count);
            },
            TicketStatus::InProgress => {
                in_progress = add_to(in_progress, row.count);
            },
            TicketStatus::Resolved => {
                resolved = add_to(resolved, row.count);
            },
            TicketStatus::Closed => {
                closed = add_to(closed, row.count);
            },
        }
        i = i + 1;
    }
    assert(rows@.subrange(0, rows.len() as int) =~= rows@);
    match (open, in_progress, resolved, closed) {
        (Some(open), Some(in_progress), Some(resolved), Some(closed)) => Some(
            StatusStats { open, in_progress, resolved, closed },
        ),
        _ => None,
    }
}

/// Adds up the counts of tickets by priority.
pub fn tally_priorities(rows: &Vec<PriorityCount>) -> (stats: Option<PriorityStats>)
    ensures
        stats == priority_stats(rows@),
{
    let mut urgent: Option<i64> = Some(0);
    let mut high: Option<i64> = Some(0);
    let mut medium: Option<i64> = Some(0);
    let mut low: Option<i64> = Some(0);
    let mut i: usize = 0;
    while i < rows.len()
        invariant
            i <= rows.len(),
            urgent == priority_total(rows@.subrange(0, i as int), Priority::Urgent),
            high == priority_total(rows@.subrange(0, i as int), Priority::High),
            medium == priority_total(rows@.subrange(0, i as int), Priority::Medium),
            low == priority_total(rows@.subrange(0, i as int), Priority::Low),
        decreases rows.len() - i,
    {
        assert(rows@.subrange(0, i + 1).drop_last() =~= rows@.subrange(0, i as int));
        let row = rows[i];
        match row.priority {
            Priority::Urgent => {
                urgent = add_to(urgent, row.count);
            },
            Priority::High => {
                high = add_to(high, row.count);
            },
            Priority::Medium => {
                medium = add_to(medium, row.count);
            },
            Priority::Low => {
                low = add_to(low, row.count);
            },
        }
        i = i + 1;
    }
    assert(rows@.subrange(0, rows.len() as int) =~= rows@);
    match (urgent, high, medium, low) {
        (Some(urgent), Some(high), Some(medium), Some(low)) => Some(
            PriorityStats { urgent, high, medium, low },
        ),
        _ => None,
    }
}

/// The failure of counts that add up to more than a count can hold.
pub open spec fn count_out_of_range() -> ErrorView {
    ErrorView::Internal("count out of range"@)
}

/// The gathering of the figures on tickets.
#[derive(Debug)]
pub enum TicketStatsOp {
    /// Waiting for the counts by status.
    ByStatus { assignee_id: Option<Id> },
    /// Waiting for the counts by priority.
    ByPriority { total_by_status: StatusStats },
}

impl View for TicketStatsOp {
    type V = TicketStatsOp;

    open spec fn view(&self) -> TicketStatsOp {
        *self
    }
}

impl TicketStatsOp {
    /// What the gathering does with the store's reply: the counts of each
    /// status, and then of each priority, are added up.
    pub open spec fn next(self, reply: Reply) -> Plan<TicketStatsOp, TicketStats> {
        match self {
            TicketStatsOp::ByStatus { assignee_id } => match reply {
                Reply::StatusCounts(rows) => match status_stats(rows@) {
                    Some(total_by_status) => Plan::Ask(
                        TicketStatsOp::ByPriority { total_by_status },
                        Command::CountTicketsByPriority { assignee_id },
                    ),
                    None => Plan::Done(Err(count_out_of_range())),
                },
                _ => Plan::Done(Err(reply.failure())),
            },
            TicketStatsOp::ByPriority { total_by_status } => match reply {
                Reply::PriorityCounts(rows) => match priority_stats(rows@) {
                    Some(total_by_priority) => Plan::Done(
                        Ok(TicketStats { total_by_status, total_by_priority }),
                    ),
                    None => Plan::Done(Err(count_out_of_range())),
                },
                _ => Plan::Done(Err(reply.failure())),
            },
        }
    }

    /// Takes the store's reply and makes the next move.
    pub fn advance(self, reply: Reply) -> (step: Step<TicketStatsOp, TicketStats>)
        ensures
            step.follows(self.next(reply)),
    {
        match self {
            TicketStatsOp::ByStatus { assignee_id } => match reply {
                Reply::StatusCounts(rows) => match tally_statuses(&rows) {
                    Some(total_by_status) => Step::Ask(
                        TicketStatsOp::ByPriority { total_by_status },
                        grouped_count_request(
                            COUNT_BY_PRIORITY_HEAD,
                            assignee_id,
                            GROUP_BY_PRIORITY,
                            Expect::PriorityCounts,
                        ),
                    ),
                    None => Step::Done(Err(AppError::internal("count out of range"))),
                },
                other => Step::Done(Err(other.into_failure())),
            },
            TicketStatsOp::ByPriority { total_by_status } => match reply {
                Reply::PriorityCounts(rows) => match tally_priorities(&rows) {
                    Some(total_by_priority) => Step::Done(
                        Ok(TicketStats { total_by_status, total_by_priority }),
                    ),
                    None => Step::Done(Err(AppError::internal("count out of range"))),
                },
                other => Step::Done(Err(other.into_failure())),
            },
        }
    }
}

/// Gathers the figures on tickets.
pub fn get_ticket_stats(query: TicketStatsQuery) -> (step: Step<TicketStatsOp, TicketStats>)
    ensures
        step.follows(
            Plan::Ask(
                TicketStatsOp::ByStatus { assignee_id: query.assignee_id },
                Command::CountTicketsByStatus { assignee_id: query.assignee_id },
            ),
        ),
{
    Step::Ask(
        TicketStatsOp::ByStatus { assignee_id: query.assignee_id },
        grouped_count_request(
            COUNT_BY_STATUS_HEAD,
            query.assignee_id,
            GROUP_BY_STATUS,
            Expect::StatusCounts,
        ),
    )
}

} // verus!
