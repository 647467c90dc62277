//! Tickets: creation, look-up, partial change, removal, filtered listing and
//! search, and the upkeep of the attachments between tickets and tags.
//!
//! A change that names tags replaces the ticket's whole set of tags: all its
//! attachments are removed, then one is made for each tag named. Attaching a
//! tag that is attached already changes nothing.

use vstd::prelude::*;
use vstd::string::*;
use crate::clock::current_time;
use crate::commands::{
    fixed_request, id_value, pair_request, push_set, request_by_id, search_request, text_of,
    text_value, Command, TicketChanges, ATTACH_TAG, DELETE_TICKET, DELETE_TICKET_COMMENTS,
    DELETE_TICKET_LINKS, INSERT_TICKET, RETURNING_TICKET, SEARCH_TICKETS, SELECT_TAGS_OF_TICKET,
    SELECT_TICKET_BY_ID, SET_ASSIGNEE, SET_DESCRIPTION, SET_PRIORITY, SET_STATUS, SET_TITLE,
    UPDATE_TICKET_HEAD, WHERE_ID,
};
use crate::error::{AppError, ErrorView};
use crate::ids::{fresh_id, is_random_id};
use crate::listing::{count_request, page_request, Listing, ListingView};
use crate::models::{
    CreateTicketRequest, Id, PaginatedResponse, Priority, Ticket, TicketQuery, TicketStatus,
    TicketWithTags, Timestamp, UpdateTicketRequest,
};
use crate::sql::{params_of, SqlValue, Statement};
use crate::store::{unexpected_reply, Expect, Plan, Reply, Request, Step};
use crate::text::{contains_pattern, search_pattern};

verus! {

/// How many tickets a search brings back at most.
pub const TICKET_SEARCH_LIMIT: i64 = 50;

/// The failure of a ticket that is not there.
pub open spec fn ticket_not_found() -> ErrorView {
    ErrorView::NotFound("工单"@ + "未找到"@)
}

/// The priority a new ticket gets: the one asked for, or medium.
pub open spec fn priority_or_default(priority: Option<Priority>) -> Priority {
    match priority {
        Some(p) => p,
        None => Priority::Medium,
    }
}

impl CreateTicketRequest {
    /// The command that stores the ticket of a request. Its status is open,
    /// whatever the request holds.
    pub open spec fn insertion(self, id: Id, now: Timestamp) -> Command {
        Command::InsertTicket {
            id,
            title: self.title@,
            description: text_of(self.description),
            status: TicketStatus::Open,
            priority: priority_or_default(self.priority),
            assignee_id: self.assignee_id,
            reporter_id: self.reporter_id,
            now,
        }
    }
}

impl UpdateTicketRequest {
    /// The fields of the ticket that the request writes.
    pub open spec fn changes(self) -> TicketChanges {
        TicketChanges {
            title: text_of(self.title),
            description: text_of(self.description),
            status: self.status,
            priority: self.priority,
            assignee_id: self.assignee_id,
        }
    }

    /// Whether the request changes a field of the ticket itself.
    pub open spec fn changes_fields(self) -> bool {
        self.title is Some || self.description is Some || self.status is Some
            || self.priority is Some || self.assignee_id is Some
    }

    /// Tells whether the request changes a field of the ticket itself.
    pub fn has_changes(&self) -> (changes: bool)
        ensures
            changes == self.changes_fields(),
    {
        self.title.is_some() || self.description.is_some() || self.status.is_some()
            || self.priority.is_some() || self.assignee_id.is_some()
    }
}

/// Builds the statement that changes a ticket, and hands back the tags that
/// the request names.
pub fn update_ticket_request(id: Id, request: UpdateTicketRequest, now: Timestamp) -> (result: (
    Request,
    Option<Vec<Id>>,
))
    ensures
        result.0@ == crate::commands::render(
            Command::UpdateTicket { id, changes: request.changes(), now },
        ),
        result.1 == request.tag_ids,
{
    let UpdateTicketRequest { title, description, status, priority, assignee_id, tag_ids } =
        request;
    let mut statement = Statement::new(UPDATE_TICKET_HEAD);
    statement.push_bind(SqlValue::Time(now));
    push_set(&mut statement, SET_TITLE, text_value(title));
    push_set(&mut statement, SET_DESCRIPTION, text_value(description));
    let status_value = match status {
        Some(s) => Some(SqlValue::Text(String::from_str(s.as_str()))),
        None => None,
    };
    push_set(&mut statement, SET_STATUS, status_value);
    let priority_value = match priority {
        Some(p) => Some(SqlValue::Text(String::from_str(p.as_str()))),
        None => None,
    };
    push_set(&mut statement, SET_PRIORITY, priority_value);
    push_set(&mut statement, SET_ASSIGNEE, id_value(assignee_id));
    statement.push(WHERE_ID);
    statement.push_bind(SqlValue::Id(id));
    statement.push(RETURNING_TICKET);
    (Request { statement, expect: Expect::Tickets }, tag_ids)
}

/// An operation that ends with one ticket.
#[derive(Debug)]
pub enum TicketOp {
    /// Waiting for the row of the ticket.
    Fetching,
    /// Waiting for the row of the ticket that is being created.
    Creating { id: Id, tag_ids: Option<Vec<Id>> },
    /// Waiting for the row of the ticket that is being changed.
    Updating { id: Id, tag_ids: Option<Vec<Id>> },
    /// Waiting for all tags to be taken off the ticket.
    Clearing { id: Id, ticket: Ticket, tag_ids: Vec<Id> },
    /// Waiting for a tag to be attached; `next` tags have been handed out.
    Attaching { id: Id, ticket: Ticket, tag_ids: Vec<Id>, next: usize },
}

impl View for TicketOp {
    type V = TicketOp;

    open spec fn view(&self) -> TicketOp {
        *self
    }
}

/// The move that attaches the tags of a list from a position on: the next
/// tag is handed out, or, when none is left, the operation ends with the
/// ticket.
pub open spec fn attach_from(id: Id, ticket: Ticket, tag_ids: Vec<Id>, next: usize) -> Plan<
    TicketOp,
    Ticket,
> {
    if next < tag_ids@.len() {
        Plan::Ask(
            TicketOp::Attaching { id, ticket, tag_ids, next: (next + 1) as usize },
            Command::AttachTag { ticket_id: id, tag_id: tag_ids@[next as int] },
        )
    } else {
        Plan::Done(Ok(ticket))
    }
}

fn attach_next(id: Id, ticket: Ticket, tag_ids: Vec<Id>, next: usize) -> (step: Step<
    TicketOp,
    Ticket,
>)
    ensures
        step.follows(attach_from(id, ticket, tag_ids, next)),
{
    if next < tag_ids.len() {
        let request = pair_request(ATTACH_TAG, id, tag_ids[next]);
        Step::Ask(TicketOp::Attaching { id, ticket, tag_ids, next: next + 1 }, request)
    } else {
        Step::Done(Ok(ticket))
    }
}

impl TicketOp {
    /// What the operation does with the store's reply.
    ///
    /// Where a row is awaited, the first row is the ticket, and no row means
    /// that the ticket is not there. A new ticket then gets its tags attached
    /// one by one. A changed ticket whose request names tags first loses all
    /// its tags, also where the request names none, and then gets the named
    /// ones attached one by one. A failure of the store ends the operation.
    pub open spec fn next(self, reply: Reply) -> Plan<TicketOp, Ticket> {
        match self {
            TicketOp::Fetching => match reply {
                Reply::Tickets(rows) => if rows@.len() > 0 {
                    Plan::Done(Ok(rows@[0]))
                } else {
                    Plan::Done(Err(ticket_not_found()))
                },
                _ => Plan::Done(Err(reply.failure())),
            },
            TicketOp::Creating { id, tag_ids } => match reply {
                Reply::Tickets(rows) => if rows@.len() > 0 {
                    match tag_ids {
                        Some(ids) => attach_from(id, rows@[0], ids, 0),
                        None => Plan::Done(Ok(rows@[0])),
                    }
                } else {
                    Plan::Done(Err(unexpected_reply()))
                },
                _ => Plan::Done(Err(reply.failure())),
            },
            TicketOp::Updating { id, tag_ids } => match reply {
                Reply::Tickets(rows) => if rows@.len() > 0 {
                    match tag_ids {
                        Some(ids) => Plan::Ask(
                            TicketOp::Clearing { id, ticket: rows@[0], tag_ids: ids },
                            Command::DeleteTicketLinks(id),
                        ),
                        None => Plan::Done(Ok(rows@[0])),
                    }
                } else {
                    Plan::Done(Err(ticket_not_found()))
                },
                _ => Plan::Done(Err(reply.failure())),
            },
            TicketOp::Clearing { id, ticket, tag_ids } => match reply {
                Reply::Affected(_) => attach_from(id, ticket, tag_ids, 0),
                _ => Plan::Done(Err(reply.failure())),
            },
            TicketOp::Attaching { id, ticket, tag_ids, next } => match reply {
                Reply::Affected(_) => attach_from(id, ticket, tag_ids, next),
                _ => Plan::Done(Err(reply.failure())),
            },
        }
    }

    /// Takes the store's reply and makes the next move.
    pub fn advance(self, reply: Reply) -> (step: Step<TicketOp, Ticket>)
        ensures
            step.follows(self.next(reply)),
    {
        match self {
            TicketOp::Fetching => match reply {
                Reply::Tickets(mut rows) => {
                    if rows.len() > 0 {
                        Step::Done(Ok(rows.remove(0)))
                    } else {
                        Step::Done(Err(AppError::not_found("工单")))
                    }
                },
                other => Step::Done(Err(other.into_failure())),
            },
            TicketOp::Creating { id, tag_ids } => match reply {
                Reply::Tickets(mut rows) => {
                    if rows.len() > 0 {
                        let ticket = rows.remove(0);
                        match tag_ids {
                            Some(ids) => attach_next(id, ticket, ids, 0),
                            None => Step::Done(Ok(ticket)),
                        }
                    } else {
                        Step::Done(Err(AppError::internal("unexpected reply from the store")))
                    }
                },
                other => Step::Done(Err(other.into_failure())),
            },
            TicketOp::Updating { id, tag_ids } => match reply {
                Reply::Tickets(mut rows) => {
                    if rows.len() > 0 {
                        let ticket = rows.remove(0);
                        match tag_ids {
                            Some(ids) => Step::Ask(
                                TicketOp::Clearing { id, ticket, tag_ids: ids },
                                request_by_id(DELETE_TICKET_LINKS, id, Expect::Affected),
                            ),
                            None => Step::Done(Ok(ticket)),
                        }
                    } else {
                        Step::Done(Err(AppError::not_found("工单")))
                    }
                },
                other => Step::Done(Err(other.into_failure())),
            },
            TicketOp::Clearing { id, ticket, tag_ids } => match reply {
                Reply::Affected(_) => attach_next(id, ticket, tag_ids, 0),
                other => Step::Done(Err(other.into_failure())),
            },
            TicketOp::Attaching { id, ticket, tag_ids, next } => match reply {
                Reply::Affected(_) => attach_next(id, ticket, tag_ids, next),
                other => Step::Done(Err(other.into_failure())),
            },
        }
    }
}

/// The look-up of a ticket together with its tags.
#[derive(Debug)]
pub enum TicketTagsOp {
    /// Waiting for the row of the ticket.
    Fetching { id: Id },
    /// Waiting for the tags of the ticket.
    Tagging { ticket: Ticket },
}

impl View for TicketTagsOp {
    type V = TicketTagsOp;

    open spec fn view(&self) -> TicketTagsOp {
        *self
    }
}

impl TicketTagsOp {
    /// What the operation does with the store's reply: a ticket that is
    /// there is followed by its tags, by name; one that is not there ends the
    /// operation.
    pub open spec fn next(self, reply: Reply) -> Plan<TicketTagsOp, TicketWithTags> {
        match self {
            TicketTagsOp::Fetching { id } => match reply {
                Reply::Tickets(rows) => if rows@.len() > 0 {
                    Plan::Ask(
                        TicketTagsOp::Tagging { ticket: rows@[0] },
                        Command::SelectTagsOfTicket(id),
                    )
                } else {
                    Plan::Done(Err(ticket_not_found()))
                },
                _ => Plan::Done(Err(reply.failure())),
            },
            TicketTagsOp::Tagging { ticket } => match reply {
                Reply::Tags(tags) => Plan::Done(Ok(TicketWithTags { ticket, tags })),
                _ => Plan::Done(Err(reply.failure())),
            },
        }
    }

    /// Takes the store's reply and makes the next move.
    pub fn advance(self, reply: Reply) -> (step: Step<TicketTagsOp, TicketWithTags>)
        ensures
            step.follows(self.next(reply)),
    {
        match self {
            TicketTagsOp::Fetching { id } => match reply {
                Reply::Tickets(mut rows) => {
                    if rows.len() > 0 {
                        let ticket = rows.remove(0);
                        Step::Ask(
                            TicketTagsOp::Tagging { ticket },
                            request_by_id(SELECT_TAGS_OF_TICKET, id, Expect::Tags),
                        )
                    } else {
                        Step::Done(Err(AppError::not_found("工单")))
                    }
                },
                other => Step::Done(Err(other.into_failure())),
            },
            TicketTagsOp::Tagging { ticket } => match reply {
                Reply::Tags(tags) => Step::Done(Ok(TicketWithTags { ticket, tags })),
                other => Step::Done(Err(other.into_failure())),
            },
        }
    }
}

/// The removal of a ticket.
#[derive(Debug)]
pub enum TicketDelete {
    /// Waiting for all tags to be taken off the ticket.
    Detaching { id: Id },
    /// Waiting for the ticket's comments to be removed.
    Uncommenting { id: Id },
    /// Waiting for the ticket itself to be removed.
    Removing,
}

impl View for TicketDelete {
    type V = TicketDelete;

    open spec fn view(&self) -> TicketDelete {
        *self
    }
}

impl TicketDelete {
    /// What the operation does with the store's reply: the tags go first,
    /// the comments second, the ticket last; if no row went with the last
    /// statement, the ticket was not there.
    pub open spec fn next(self, reply: Reply) -> Plan<TicketDelete, ()> {
        match self {
            TicketDelete::Detaching { id } => match reply {
                Reply::Affected(_) => Plan::Ask(
                    TicketDelete::Uncommenting { id },
                    Command::DeleteTicketComments(id),
                ),
                _ => Plan::Done(Err(reply.failure())),
            },
            TicketDelete::Uncommenting { id } => match reply {
                Reply::Affected(_) => Plan::Ask(TicketDelete::Removing, Command::DeleteTicket(id)),
                _ => Plan::Done(Err(reply.failure())),
            },
            TicketDelete::Removing => match reply {
                Reply::Affected(rows) => if rows == 0 {
                    Plan::Done(Err(ticket_not_found()))
                } else {
                    Plan::Done(Ok(()))
                },
                _ => Plan::Done(Err(reply.failure())),
            },
        }
    }

    /// Takes the store's reply and makes the next move.
    pub fn advance(self, reply: Reply) -> (step: Step<TicketDelete, ()>)
        ensures
            step.follows(self.next(reply)),
    {
        match self {
            TicketDelete::Detaching { id } => match reply {
                Reply::Affected(_) => Step::Ask(
                    TicketDelete::Uncommenting { id },
                    request_by_id(DELETE_TICKET_COMMENTS, id, Expect::Affected),
                ),
                other => Step::Done(Err(other.into_failure())),
            },
            TicketDelete::Uncommenting { id } => match reply {
                Reply::Affected(_) => Step::Ask(
                    TicketDelete::Removing,
                    request_by_id(DELETE_TICKET, id, Expect::Affected),
                ),
                other => Step::Done(Err(other.into_failure())),
            },
            TicketDelete::Removing => match reply {
                Reply::Affected(rows) => {
                    if rows == 0 {
                        Step::Done(Err(AppError::not_found("工单")))
                    } else {
                        Step::Done(Ok(()))
                    }
                },
                other => Step::Done(Err(other.into_failure())),
            },
        }
    }
}

/// The listing of one page of tickets.
#[derive(Debug)]
pub enum TicketList {
    /// Waiting for the number of tickets that the filter selects.
    Counting { listing: Listing },
    /// Waiting for the rows of the page.
    Paging { total: i64, limit: i64, offset: i64 },
}

/// The state of a listing with its listing as a view.
pub enum TicketListView {
    Counting { listing: ListingView },
    Paging { total: i64, limit: i64, offset: i64 },
}

impl View for TicketList {
    type V = TicketListView;

    open spec fn view(&self) -> TicketListView {
        match *self {
            TicketList::Counting { listing } => TicketListView::Counting { listing: listing@ },
            TicketList::Paging { total, limit, offset } => TicketListView::Paging {
                total,
                limit,
                offset,
            },
        }
    }
}

impl TicketListView {
    /// What the operation does with the store's reply: the count becomes the
    /// total of the page, whatever the page's limit and offset are, and the
    /// rows become its data.
    pub open spec fn next(self, reply: Reply) -> Plan<TicketListView, PaginatedResponse<Ticket>> {
        match self {
            TicketListView::Counting { listing } => match reply {
                Reply::Count(total) => Plan::Ask(
                    TicketListView::Paging { total, limit: listing.limit, offset: listing.offset },
                    Command::SelectPage(listing),
                ),
                _ => Plan::Done(Err(reply.failure())),
            },
            TicketListView::Paging { total, limit, offset } => match reply {
                Reply::Tickets(rows) => Plan::Done(
                    Ok(PaginatedResponse { data: rows, total, limit, offset }),
                ),
                _ => Plan::Done(Err(reply.failure())),
            },
        }
    }
}

impl TicketList {
    /// Takes the store's reply and makes the next move.
    pub fn advance(self, reply: Reply) -> (step: Step<TicketList, PaginatedResponse<Ticket>>)
        ensures
            step.follows(self@.next(reply)),
    {
        match self {
            TicketList::Counting { listing } => match reply {
                Reply::Count(total) => {
                    let request = page_request(&listing);
                    Step::Ask(
                        TicketList::Paging { total, limit: listing.limit, offset: listing.offset },
                        request,
                    )
                },
                other => Step::Done(Err(other.into_failure())),
            },
            TicketList::Paging { total, limit, offset } => match reply {
                Reply::Tickets(rows) => Step::Done(
                    Ok(PaginatedResponse::new(rows, total, limit, offset)),
                ),
                other => Step::Done(Err(other.into_failure())),
            },
        }
    }
}

/// An operation that ends with a list of tickets.
#[derive(Debug)]
pub struct TicketRows {}

impl View for TicketRows {
    type V = TicketRows;

    open spec fn view(&self) -> TicketRows {
        *self
    }
}

impl TicketRows {
    /// What the operation does with the store's reply: the rows are the
    /// result, in the order in which the store gave them.
    pub open spec fn next(self, reply: Reply) -> Plan<TicketRows, Vec<Ticket>> {
        match reply {
            Reply::Tickets(rows) => Plan::Done(Ok(rows)),
            _ => Plan::Done(Err(reply.failure())),
        }
    }

    /// Takes the store's reply and ends the operation.
    pub fn advance(self, reply: Reply) -> (step: Step<TicketRows, Vec<Ticket>>)
        ensures
            step.follows(self.next(reply)),
    {
        match reply {
            Reply::Tickets(rows) => Step::Done(Ok(rows)),
            other => Step::Done(Err(other.into_failure())),
        }
    }
}

/// The operations on tickets.
#[derive(Debug, Clone, Copy)]
pub struct TicketRepository {}

impl TicketRepository {
    pub fn new() -> (repository: Self) {
        TicketRepository {  }
    }

    /// How the creation of a ticket starts, given its identifier and the
    /// time of creation: with the statement that stores it, as an open
    /// ticket of the priority asked for, or of medium priority.
    pub open spec fn creating(request: CreateTicketRequest, id: Id, now: Timestamp) -> Plan<
        TicketOp,
        Ticket,
    > {
        Plan::Ask(TicketOp::Creating { id, tag_ids: request.tag_ids }, request.insertion(id, now))
    }

    /// Starts the creation of a ticket with a given identifier and time.
    pub fn create_with(&self, request: CreateTicketRequest, id: Id, now: Timestamp) -> (step: Step<
        TicketOp,
        Ticket,
    >)
        ensures
            step.follows(Self::creating(request, id, now)),
    {
        let CreateTicketRequest { title, description, priority, assignee_id, reporter_id, tag_ids } =
            request;
        let priority = match priority {
            Some(p) => p,
            None => Priority::default(),
        };
        let params = vec![
            SqlValue::Id(id),
            SqlValue::Text(title),
            SqlValue::optional_text(description),
            SqlValue::Text(String::from_str(TicketStatus::Open.as_str())),
            SqlValue::Text(String::from_str(priority.as_str())),
            SqlValue::optional_id(assignee_id),
            SqlValue::optional_id(reporter_id),
            SqlValue::Time(now),
        ];
        assert(params_of(params@) =~= crate::commands::render(
            request.insertion(id, now),
        ).statement.params);
        Step::Ask(
            TicketOp::Creating { id, tag_ids },
            fixed_request(INSERT_TICKET, params, Expect::Tickets),
        )
    }

    /// Starts the creation of a ticket under a fresh random identifier, at
    /// the present time.
    pub fn create(&self, request: CreateTicketRequest) -> (step: Step<TicketOp, Ticket>)
        ensures
            exists|id: Id, now: Timestamp|
                is_random_id(id) && #[trigger] step.follows(Self::creating(request, id, now)),
    {
        let id = fresh_id();
        let now = current_time();
        self.create_with(request, id, now)
    }

    /// How the look-up of a ticket starts.
    pub open spec fn getting(id: Id) -> Plan<TicketOp, Ticket> {
        Plan::Ask(TicketOp::Fetching, Command::SelectTicketById(id))
    }

    /// Looks a ticket up by its identifier.
    pub fn get_by_id(&self, id: Id) -> (step: Step<TicketOp, Ticket>)
        ensures
            step.follows(Self::getting(id)),
    {
        Step::Ask(TicketOp::Fetching, request_by_id(SELECT_TICKET_BY_ID, id, Expect::Tickets))
    }

    /// How the look-up of a ticket with its tags starts: with the ticket.
    pub open spec fn getting_with_tags(id: Id) -> Plan<TicketTagsOp, TicketWithTags> {
        Plan::Ask(TicketTagsOp::Fetching { id }, Command::SelectTicketById(id))
    }

    /// Looks a ticket up together with its tags.
    pub fn get_with_tags(&self, id: Id) -> (step: Step<TicketTagsOp, TicketWithTags>)
        ensures
            step.follows(Self::getting_with_tags(id)),
    {
        Step::Ask(
            TicketTagsOp::Fetching { id },
            request_by_id(SELECT_TICKET_BY_ID, id, Expect::Tickets),
        )
    }

    /// How the change of a ticket starts, given the time of the change: with
    /// the statement that writes the fields the request holds, or, where it
    /// holds none, with a plain look-up. The tags that the request names are
    /// dealt with once the ticket's row has come.
    pub open spec fn updating(id: Id, request: UpdateTicketRequest, now: Timestamp) -> Plan<
        TicketOp,
        Ticket,
    > {
        Plan::Ask(
            TicketOp::Updating { id, tag_ids: request.tag_ids },
            if request.changes_fields() {
                Command::UpdateTicket { id, changes: request.changes(), now }
            } else {
                Command::SelectTicketById(id)
            },
        )
    }

    /// Starts the change of a ticket at a given time.
    pub fn update_at(&self, id: Id, request: UpdateTicketRequest, now: Timestamp) -> (step: Step<
        TicketOp,
        Ticket,
    >)
        ensures
            step.follows(Self::updating(id, request, now)),
    {
        if request.has_changes() {
            let (statement, tag_ids) = update_ticket_request(id, request, now);
            Step::Ask(TicketOp::Updating { id, tag_ids }, statement)
        } else {
            Step::Ask(
                TicketOp::Updating { id, tag_ids: request.tag_ids },
                request_by_id(SELECT_TICKET_BY_ID, id, Expect::Tickets),
            )
        }
    }

    /// Starts the change of a ticket at the present time.
    pub fn update(&self, id: Id, request: UpdateTicketRequest) -> (step: Step<TicketOp, Ticket>)
        ensures
            exists|now: Timestamp| #[trigger] step.follows(Self::updating(id, request, now)),
    {
        let now = current_time();
        self.update_at(id, request, now)
    }

    /// How the removal of a ticket starts: with the removal of its
    /// attachments to tags.
    pub open spec fn deleting(id: Id) -> Plan<TicketDelete, ()> {
        Plan::Ask(TicketDelete::Detaching { id }, Command::DeleteTicketLinks(id))
    }

    /// Starts the removal of a ticket: its tags are taken off first.
    pub fn delete(&self, id: Id) -> (step: Step<TicketDelete, ()>)
        ensures
            step.follows(Self::deleting(id)),
    {
        Step::Ask(
            TicketDelete::Detaching { id },
            request_by_id(DELETE_TICKET_LINKS, id, Expect::Affected),
        )
    }

    /// How a listing starts: with the refusal of an order that is not
    /// allowed, or with the count of the tickets that the filter selects.
    pub open spec fn listing(query: TicketQuery) -> Plan<TicketListView, PaginatedResponse<Ticket>> {
        match query.resolved() {
            Ok(listing) => Self::counting(listing),
            Err(error) => Plan::Done(Err(error)),
        }
    }

    /// How a listing that is worked out starts: with the count of the
    /// tickets that its filter selects.
    pub open spec fn counting(listing: ListingView) -> Plan<
        TicketListView,
        PaginatedResponse<Ticket>,
    > {
        Plan::Ask(TicketListView::Counting { listing }, Command::CountTickets(listing.filter))
    }

    /// Starts the listing of one page of the tickets that a query selects.
    pub fn list(&self, query: TicketQuery) -> (step: Step<TicketList, PaginatedResponse<Ticket>>)
        ensures
            step.follows(Self::listing(query)),
    {
        match query.resolve() {
            Ok(listing) => self.list_resolved(listing),
            Err(error) => Step::Done(Err(error)),
        }
    }

    /// Starts a listing that is worked out already.
    pub fn list_resolved(&self, listing: Listing) -> (step: Step<
        TicketList,
        PaginatedResponse<Ticket>,
    >)
        ensures
            step.follows(Self::counting(listing@)),
    {
        let request = count_request(&listing.filter);
        Step::Ask(TicketList::Counting { listing }, request)
    }

    /// Lists the tickets whose title or description contains a term,
    /// whatever the case of its letters, newest first and up to fifty.
    pub fn search(&self, term: &str) -> (step: Step<TicketRows, Vec<Ticket>>)
        ensures
            step.follows(
                Plan::Ask(
                    TicketRows {  },
                    Command::SearchTickets {
                        pattern: contains_pattern(term@),
                        limit: TICKET_SEARCH_LIMIT,
                    },
                ),
            ),
    {
        Step::Ask(
            TicketRows {  },
            search_request(
                SEARCH_TICKETS,
                search_pattern(term),
                TICKET_SEARCH_LIMIT,
                Expect::Tickets,
            ),
        )
    }
}

} // verus!
