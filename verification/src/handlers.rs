//! The requests of the service, from what a caller sends to the exchange
//! with the store that answers it.
//!
//! The functions of this file take what a caller sent as plain text: they
//! read identifiers, statuses and priorities, refuse what is malformed, and
//! hand over to the typed requests of the two modules below.

use vstd::prelude::*;
use vstd::string::*;
use crate::clock::current_time;
use crate::commands::{plain_request, text_of, Command, Index, Table, PING};
use crate::database::{count_rows, is_healthy, shows_health, DatabaseStats, StatsOp};
use crate::error::{outcome, AppError, ErrorView};
use crate::handlers::tags::{
    create_tag_with, creating_tag, update_tag_at, updating_tag, ListTagsQuery, ListTagsResponse,
    TagListing,
};
use crate::handlers::tickets::{
    create_ticket_with, creating_ticket, update_ticket_at, updating_ticket, TicketDetails,
};
use crate::ids::{fresh_id, id_of_text, is_random_id, malformed_id_message, read_id};
use crate::listing::{
    pattern_of, resolve_pattern, Direction, FilterView, Listing, ListingView, Order, SortColumn,
    TicketFilter, DEFAULT_LIMIT, MAX_LIMIT,
};
use crate::models::{
    CreateTagRequest, CreateTicketRequest, Id, PaginatedResponse, Priority, Tag, Ticket,
    TicketStatus, TicketWithDetails, Timestamp, UpdateTagRequest, UpdateTicketRequest,
};
use crate::repositories::tags::{TagDelete, TagOp, TagRepository};
use crate::repositories::tickets::{TicketDelete, TicketList, TicketOp, TicketRepository};
use crate::store::{Expect, Plan, Reply, Step};
use crate::text::{one_more, texts_of, trim, trimmed};

pub mod tags;
pub mod tickets;

verus! {

/// What the service answers when asked whether it runs.
pub fn health_check_basic() -> (text: &'static str)
    ensures
        text@ == "Ticket backend is running!"@,
{
    "Ticket backend is running!"
}

/// The refusals of the boundary: a malformed identifier, a status, a
/// priority or a page that is none, a missing name, a missing title.
pub open spec fn invalid_id() -> ErrorView {
    ErrorView::BadRequest(malformed_id_message())
}

pub open spec fn invalid_status() -> ErrorView {
    ErrorView::BadRequest("无效的状态"@)
}

pub open spec fn invalid_priority() -> ErrorView {
    ErrorView::BadRequest("无效的优先级"@)
}

pub open spec fn invalid_page() -> ErrorView {
    ErrorView::BadRequest("无效的页码"@)
}

pub open spec fn missing_name() -> ErrorView {
    ErrorView::BadRequest("缺少名称"@)
}

pub open spec fn missing_title() -> ErrorView {
    ErrorView::BadRequest("缺少标题"@)
}

/// The status that a text of the boundary names, none where no text is
/// given, or the refusal of a text that names no status.
pub open spec fn status_of(text: Option<Seq<char>>) -> Result<Option<TicketStatus>, ErrorView> {
    match text {
        None => Ok(None),
        Some(t) => match TicketStatus::named_by(t) {
            Some(status) => Ok(Some(status)),
            None => Err(invalid_status()),
        },
    }
}

/// The priority that a text of the boundary names, none where no text is
/// given, or the refusal of a text that names no priority.
pub open spec fn priority_of(text: Option<Seq<char>>) -> Result<Option<Priority>, ErrorView> {
    match text {
        None => Ok(None),
        Some(t) => match Priority::named_by(t) {
            Some(priority) => Ok(Some(priority)),
            None => Err(invalid_priority()),
        },
    }
}

/// Reads a status that a caller sent as text.
pub fn read_status(text: &Option<String>) -> (result: Result<Option<TicketStatus>, AppError>)
    ensures
        outcome(result) == status_of(text_of(*text)),
{
    match text {
        None => Ok(None),
        Some(t) => match TicketStatus::parse(t.as_str()) {
            Some(status) => Ok(Some(status)),
            None => Err(AppError::bad_request("无效的状态")),
        },
    }
}

/// Reads a priority that a caller sent as text.
pub fn read_priority(text: &Option<String>) -> (result: Result<Option<Priority>, AppError>)
    ensures
        outcome(result) == priority_of(text_of(*text)),
{
    match text {
        None => Ok(None),
        Some(t) => match Priority::parse(t.as_str()) {
            Some(priority) => Ok(Some(priority)),
            None => Err(AppError::bad_request("无效的优先级")),
        },
    }
}

/// The pieces of a text between its commas. A text without comma is one
/// piece; two commas in a row hold an empty piece between them.
pub open spec fn pieces(text: Seq<char>) -> Seq<Seq<char>>
    decreases text.len(),
{
    if text.len() == 0 {
        seq![Seq::empty()]
    } else {
        let before = pieces(text.drop_last());
        if text.last() == ',' {
            before.push(Seq::empty())
        } else {
            before.drop_last().push(before.last().push(text.last()))
        }
    }
}

/// Splits a text at its commas.
pub fn split_commas(text: &str) -> (parts: Vec<String>)
    ensures
        texts_of(parts@) == pieces(text@),
{
    let count = text.unicode_len();
    let mut done: Vec<String> = Vec::new();
    let mut current = String::new();
    let mut i: usize = 0;
    assert(texts_of(done@).push(current@) =~= pieces(text@.subrange(0, 0)));
    while i < count
        invariant
            count == text@.len(),
            i <= count,
            texts_of(done@).push(current@) == pieces(text@.subrange(0, i as int)),
        decreases count - i,
    {
        let c = text.get_char(i);
        let ghost upto = text@.subrange(0, i + 1);
        assert(upto.drop_last() =~= text@.subrange(0, i as int));
        assert(upto.last() == c);
        let ghost before = texts_of(done@).push(current@);
        if c == ',' {
            done.push(current);
            current = String::new();
            assert(texts_of(done@).push(current@) =~= before.push(Seq::empty()));
        } else {
            let ghost old_current = current@;
            current.append(text.substring_char(i, i + 1));
            assert(text@.subrange(i as int, i + 1) =~= seq![c]);
            assert(current@ =~= old_current.push(c));
            assert(before.drop_last() =~= texts_of(done@));
            assert(texts_of(done@).push(current@) =~= before.drop_last().push(before.last().push(c)));
        }
        i = i + 1;
    }
    assert(text@.subrange(0, count as int) =~= text@);
    done.push(current);
    assert(texts_of(done@) =~= pieces(text@));
    done
}

/// What each text of a list is read as, once trimmed: an identifier, or
/// nothing.
pub open spec fn read_each(texts: Seq<Seq<char>>) -> Seq<Option<Id>> {
    texts.map_values(|text: Seq<char>| id_of_text(trimmed(text)))
}

/// The identifiers of a list in which each is present: none where one is
/// missing.
pub open spec fn all_present(read: Seq<Option<Id>>) -> Option<Seq<Id>>
    decreases read.len(),
{
    if read.len() == 0 {
        Some(Seq::empty())
    } else {
        match (all_present(read.drop_last()), read.last()) {
            (Some(before), Some(id)) => Some(before.push(id)),
            _ => None,
        }
    }
}

/// The identifiers that a list of texts denotes, each text trimmed: none
/// where one of them denotes no identifier.
pub open spec fn ids_of(texts: Seq<Seq<char>>) -> Option<Seq<Id>> {
    all_present(read_each(texts))
}

/// The tags that a text of the boundary asks for: the identifiers between
/// its commas, none where the text is absent or blank, or the refusal of a
/// text that holds a malformed identifier.
pub open spec fn tag_ids_of(text: Option<Seq<char>>) -> Result<Seq<Id>, ErrorView> {
    match text {
        None => Ok(Seq::empty()),
        Some(t) => if trimmed(t).len() == 0 {
            Ok(Seq::empty())
        } else {
            match ids_of(pieces(t)) {
                Some(ids) => Ok(ids),
                None => Err(invalid_id()),
            }
        },
    }
}

/// Reads each text of a list, once trimmed, as an identifier.
pub fn read_parts(parts: &Vec<String>) -> (read: Vec<Option<Id>>)
    ensures
        read@ == read_each(texts_of(parts@)),
{
    let mut read: Vec<Option<Id>> = Vec::new();
    let mut i: usize = 0;
    while i < parts.len()
        invariant
            i <= parts.len(),
            read@ == read_each(texts_of(parts@)).subrange(0, i as int),
        decreases parts.len() - i,
    {
        read.push(read_id(trim(parts[i].as_str())));
        assert(read@ =~= read_each(texts_of(parts@)).subrange(0, i + 1));
        i = i + 1;
    }
    assert(read@ =~= read_each(texts_of(parts@)));
    read
}

/// Gathers the identifiers of a list in which each is present.
pub fn gather_ids(read: &Vec<Option<Id>>) -> (ids: Option<Vec<Id>>)
    ensures
        match ids {
            Some(v) => all_present(read@) == Some(v@),
            None => all_present(read@) is None,
        },
{
    let mut ids: Vec<Id> = Vec::new();
    let mut i: usize = 0;
    while i < read.len()
        invariant
            i <= read.len(),
            all_present(read@.subrange(0, i as int)) == Some(ids@),
        decreases read.len() - i,
    {
        assert(read@.subrange(0, i + 1).drop_last() =~= read@.subrange(0, i as int));
        match read[i] {
            Some(id) => {
                ids.push(id);
            },
            None => {
                proof {
                    lemma_missing_stays_missing(read@, i + 1);
                }
                return None;
            },
        }
        i = i + 1;
    }
    assert(read@.subrange(0, read.len() as int) =~= read@);
    Some(ids)
}

proof fn lemma_missing_stays_missing(read: Seq<Option<Id>>, n: int)
    requires
        0 <= n <= read.len(),
        all_present(read.subrange(0, n)) is None,
    ensures
        all_present(read) is None,
    decreases read.len() - n,
{
    if n < read.len() {
        assert(read.subrange(0, n + 1).drop_last() =~= read.subrange(0, n));
        lemma_missing_stays_missing(read, n + 1);
    } else {
        assert(read.subrange(0, n) =~= read);
    }
}

/// Reads the identifiers of a list of texts.
pub fn read_ids(parts: &Vec<String>) -> (ids: Option<Vec<Id>>)
    ensures
        match ids {
            Some(v) => ids_of(texts_of(parts@)) == Some(v@),
            None => ids_of(texts_of(parts@)) is None,
        },
{
    gather_ids(&read_parts(parts))
}

/// Reads the tags that a caller asked for as text.
pub fn read_tag_ids(text: &Option<String>) -> (result: Result<Vec<Id>, AppError>)
    ensures
        match result {
            Ok(ids) => tag_ids_of(text_of(*text)) == Ok::<Seq<Id>, ErrorView>(ids@),
            Err(error) => tag_ids_of(text_of(*text)) == Err::<Seq<Id>, ErrorView>(error@),
        },
{
    match text {
        None => Ok(Vec::new()),
        Some(t) => {
            if trim(t.as_str()).unicode_len() == 0 {
                Ok(Vec::new())
            } else {
                let parts = split_commas(t.as_str());
                match read_ids(&parts) {
                    Some(ids) => Ok(ids),
                    None => Err(AppError::bad_request("无效的标识符")),
                }
            }
        },
    }
}

/// Filter and page of a ticket listing as a caller sends them in text, with
/// pages counted from one.
#[derive(Debug, Clone, PartialEq, Eq)]
pub struct TicketListQuery {
    pub search: Option<String>,
    pub status: Option<String>,
    pub priority: Option<String>,
    /// Identifiers of tags, separated by commas.
    pub tag_ids: Option<String>,
    pub page: Option<u32>,
    pub limit: Option<u32>,
}

/// The number of tickets on a page of the text form: what is asked for,
/// twenty where nothing is, and never more than a hundred.
pub open spec fn page_size(limit: Option<u32>) -> i64 {
    match limit {
        Some(n) => if n > MAX_LIMIT {
            MAX_LIMIT
        } else {
            n as i64
        },
        None => DEFAULT_LIMIT,
    }
}

/// The number of the page asked for: the first where nothing is asked for.
pub open spec fn page_number(page: Option<u32>) -> u32 {
    match page {
        Some(n) => n,
        None => 1,
    }
}

impl TicketListQuery {
    /// The listing that the query describes: newest first, the page turned
    /// into the number of tickets to leave out. A status or a priority that
    /// is none, a malformed identifier of a tag and a page before the first
    /// are refused, in this order.
    pub open spec fn resolved(self) -> Result<ListingView, ErrorView> {
        let status = status_of(text_of(self.status));
        let priority = priority_of(text_of(self.priority));
        let tag_ids = tag_ids_of(text_of(self.tag_ids));
        if status is Err {
            Err(status->Err_0)
        } else if priority is Err {
            Err(priority->Err_0)
        } else if tag_ids is Err {
            Err(tag_ids->Err_0)
        } else if page_number(self.page) == 0 {
            Err(invalid_page())
        } else {
            Ok(
                ListingView {
                    filter: FilterView {
                        status: status->Ok_0,
                        priority: priority->Ok_0,
                        assignee_id: None,
                        reporter_id: None,
                        pattern: pattern_of(text_of(self.search)),
                        tag_ids: tag_ids->Ok_0,
                    },
                    order: Order {
                        column: SortColumn::CreatedAt,
                        direction: Direction::Descending,
                    },
                    limit: page_size(self.limit),
                    offset: ((page_number(self.page) - 1) * page_size(self.limit)) as i64,
                },
            )
        }
    }

    /// Works out the listing that the query describes.
    pub fn resolve(&self) -> (result: Result<Listing, AppError>)
        ensures
            crate::listing::listing_outcome(result) == self.resolved(),
    {
        let status = match read_status(&self.status) {
            Ok(status) => status,
            Err(error) => {
                return Err(error);
            },
        };
        let priority = match read_priority(&self.priority) {
            Ok(priority) => priority,
            Err(error) => {
                return Err(error);
            },
        };
        let tag_ids = match read_tag_ids(&self.tag_ids) {
            Ok(ids) => ids,
            Err(error) => {
                return Err(error);
            },
        };
        let page: u32 = match self.page {
            Some(n) => n,
            None => 1,
        };
        if page == 0 {
            return Err(AppError::bad_request("无效的页码"));
        }
        let limit: i64 = match self.limit {
            Some(n) => if n > 100 {
                MAX_LIMIT
            } else {
                n as i64
            },
            None => DEFAULT_LIMIT,
        };
        let skipped: i64 = (page - 1) as i64;
        assert(0 <= skipped * limit <= 0xffff_ffff * 100) by (nonlinear_arith)
            requires
                0 <= skipped <= 0xffff_ffff,
                0 <= limit <= 100,
        ;
        let offset: i64 = skipped * limit;
        Ok(
            Listing {
                filter: TicketFilter {
                    status,
                    priority,
                    assignee_id: None,
                    reporter_id: None,
                    pattern: resolve_pattern(&self.search),
                    tag_ids,
                },
                order: Order { column: SortColumn::CreatedAt, direction: Direction::Descending },
                limit,
                offset,
            },
        )
    }
}

/// Lists one page of the tickets that a query in text form selects.
pub fn list_tickets(query: TicketListQuery) -> (step: Step<TicketList, PaginatedResponse<Ticket>>)
    ensures
        step.follows(
            match query.resolved() {
                Ok(listing) => TicketRepository::counting(listing),
                Err(error) => Plan::Done(Err(error)),
            },
        ),
{
    match query.resolve() {
        Ok(listing) => TicketRepository::new().list_resolved(listing),
        Err(error) => Step::Done(Err(error)),
    }
}

/// What reading the identifier of a request comes to.
pub open spec fn id_of(text: Seq<char>) -> Result<Id, ErrorView> {
    match id_of_text(text) {
        Some(id) => Ok(id),
        None => Err(invalid_id()),
    }
}

/// Lists all tags by name.
pub fn list_tags() -> (step: Step<TagListing, ListTagsResponse>)
    ensures
        step.follows(Plan::Ask(TagListing::Simple, Command::SelectTags)),
{
    crate::handlers::tags::list_tags(ListTagsQuery { with_counts: None })
}

/// How the creation of a tag from text goes: a request without a name is
/// refused; another is dealt with as the typed request of the same fields.
pub open spec fn creating_tag_from(
    name: Option<String>,
    color: Option<String>,
    id: Id,
    now: Timestamp,
) -> Plan<TagOp, Tag> {
    match name {
        None => Plan::Done(Err(missing_name())),
        Some(name) => creating_tag(CreateTagRequest { name, color }, id, now),
    }
}

/// Creates a tag from the fields of a request, with a given identifier and
/// time.
pub fn create_tag_with_id(name: Option<String>, color: Option<String>, id: Id, now: Timestamp) -> (step:
    Step<TagOp, Tag>)
    ensures
        step.follows(creating_tag_from(name, color, id, now)),
{
    match name {
        None => Step::Done(Err(AppError::bad_request("缺少名称"))),
        Some(name) => create_tag_with(CreateTagRequest { name, color }, id, now),
    }
}

/// Creates a tag from the fields of a request, under a fresh random
/// identifier, at the present time.
pub fn create_tag(name: Option<String>, color: Option<String>) -> (step: Step<TagOp, Tag>)
    ensures
        exists|id: Id, now: Timestamp|
            is_random_id(id) && #[trigger] step.follows(creating_tag_from(name, color, id, now)),
{
    let id = fresh_id();
    let now = current_time();
    create_tag_with_id(name, color, id, now)
}

/// What looking a tag up by the text of its identifier comes to, given
/// what the text was read as.
pub open spec fn getting_tag(read: Option<Id>) -> Plan<TagOp, Tag> {
    match read {
        Some(id) => Plan::Ask(TagOp::Fetching, Command::SelectTagById(id)),
        None => Plan::Done(Err(invalid_id())),
    }
}

/// Looks a tag up, given what the text of its identifier was read as.
pub fn get_tag_read(read: Option<Id>) -> (step: Step<TagOp, Tag>)
    ensures
        step.follows(getting_tag(read)),
{
    match read {
        Some(id) => TagRepository::new().get_by_id(id),
        None => Step::Done(Err(AppError::bad_request("无效的标识符"))),
    }
}

/// Looks a tag up by the text of its identifier.
pub fn get_tag(id: &str) -> (step: Step<TagOp, Tag>)
    ensures
        step.follows(getting_tag(id_of_text(id@))),
{
    get_tag_read(read_id(id))
}

/// How the change of a tag from text goes, given what the text of its
/// identifier was read as and the time.
pub open spec fn updating_tag_from(
    read: Option<Id>,
    name: Option<String>,
    color: Option<String>,
    now: Timestamp,
) -> Plan<TagOp, Tag> {
    match read {
        Some(id) => updating_tag(id, UpdateTagRequest { name, color }, now),
        None => Plan::Done(Err(invalid_id())),
    }
}

/// Changes a tag, given what the text of its identifier was read as and
/// the time.
pub fn update_tag_read(read: Option<Id>, name: Option<String>, color: Option<String>, now: Timestamp) -> (step:
    Step<TagOp, Tag>)
    ensures
        step.follows(updating_tag_from(read, name, color, now)),
{
    match read {
        Some(id) => update_tag_at(id, UpdateTagRequest { name, color }, now),
        None => Step::Done(Err(AppError::bad_request("无效的标识符"))),
    }
}

/// Changes a tag by the text of its identifier, at the present time.
pub fn update_tag(id: &str, name: Option<String>, color: Option<String>) -> (step: Step<TagOp, Tag>)
    ensures
        exists|now: Timestamp| #[trigger]
            step.follows(updating_tag_from(id_of_text(id@), name, color, now)),
{
    let now = current_time();
    update_tag_read(read_id(id), name, color, now)
}

/// What removing a tag by the text of its identifier comes to, given what
/// the text was read as.
pub open spec fn deleting_tag(read: Option<Id>) -> Plan<TagDelete, ()> {
    match read {
        Some(id) => Plan::Ask(TagDelete::Detaching { id }, Command::DeleteTagLinks(id)),
        None => Plan::Done(Err(invalid_id())),
    }
}

/// Removes a tag, given what the text of its identifier was read as.
pub fn delete_tag_read(read: Option<Id>) -> (step: Step<TagDelete, ()>)
    ensures
        step.follows(deleting_tag(read)),
{
    match read {
        Some(id) => TagRepository::new().delete(id),
        None => Step::Done(Err(AppError::bad_request("无效的标识符"))),
    }
}

/// Removes a tag by the text of its identifier.
pub fn delete_tag(id: &str) -> (step: Step<TagDelete, ()>)
    ensures
        step.follows(deleting_tag(id_of_text(id@))),
{
    delete_tag_read(read_id(id))
}

/// The fields of a ticket as a caller sends them in text.
#[derive(Debug, Clone, PartialEq, Eq)]
pub struct TicketFields {
    pub title: Option<String>,
    pub description: Option<String>,
    pub status: Option<String>,
    pub priority: Option<String>,
}

impl TicketFields {
    /// The typed request for a new ticket that the fields stand for: a
    /// missing title and a priority that is none are refused. A status is
    /// not read: a new ticket is open.
    pub open spec fn as_creation(self) -> Result<CreateTicketRequest, ErrorView> {
        match self.title {
            None => Err(missing_title()),
            Some(title) => match priority_of(text_of(self.priority)) {
                Err(error) => Err(error),
                Ok(priority) => Ok(
                    CreateTicketRequest {
                        title,
                        description: self.description,
                        priority,
                        assignee_id: None,
                        reporter_id: None,
                        tag_ids: None,
                    },
                ),
            },
        }
    }

    /// Reads the fields as the request for a new ticket.
    pub fn into_creation(self) -> (result: Result<CreateTicketRequest, AppError>)
        ensures
            outcome(result) == self.as_creation(),
    {
        let TicketFields { title, description, status: _, priority } = self;
        let title = match title {
            Some(title) => title,
            None => {
                return Err(AppError::bad_request("缺少标题"));
            },
        };
        let priority = match read_priority(&priority) {
            Ok(priority) => priority,
            Err(error) => {
                return Err(error);
            },
        };
        Ok(
            CreateTicketRequest {
                title,
                description,
                priority,
                assignee_id: None,
                reporter_id: None,
                tag_ids: None,
            },
        )
    }

    /// The typed change of a ticket that the fields stand for: a status or
    /// a priority that is none is refused, the status first.
    pub open spec fn as_change(self) -> Result<UpdateTicketRequest, ErrorView> {
        match status_of(text_of(self.status)) {
            Err(error) => Err(error),
            Ok(status) => match priority_of(text_of(self.priority)) {
                Err(error) => Err(error),
                Ok(priority) => Ok(
                    UpdateTicketRequest {
                        title: self.title,
                        description: self.description,
                        status,
                        priority,
                        assignee_id: None,
                        tag_ids: None,
                    },
                ),
            },
        }
    }

    /// Reads the fields as a change of a ticket.
    pub fn into_change(self) -> (result: Result<UpdateTicketRequest, AppError>)
        ensures
            outcome(result) == self.as_change(),
    {
        let status = match read_status(&self.status) {
            Ok(status) => status,
            Err(error) => {
                return Err(error);
            },
        };
        let priority = match read_priority(&self.priority) {
            Ok(priority) => priority,
            Err(error) => {
                return Err(error);
            },
        };
        Ok(
            UpdateTicketRequest {
                title: self.title,
                description: self.description,
                status,
                priority,
                assignee_id: None,
                tag_ids: None,
            },
        )
    }
}

/// How the creation of a ticket from text goes, given its identifier and
/// the time.
pub open spec fn creating_ticket_from(fields: TicketFields, id: Id, now: Timestamp) -> Plan<
    TicketOp,
    Ticket,
> {
    match fields.as_creation() {
        Err(error) => Plan::Done(Err(error)),
        Ok(request) => creating_ticket(request, id, now),
    }
}

/// Creates a ticket from the fields of a request, with a given identifier
/// and time.
pub fn create_ticket_with_id(fields: TicketFields, id: Id, now: Timestamp) -> (step: Step<
    TicketOp,
    Ticket,
>)
    ensures
        step.follows(creating_ticket_from(fields, id, now)),
{
    match fields.into_creation() {
        Err(error) => Step::Done(Err(error)),
        Ok(request) => create_ticket_with(request, id, now),
    }
}

/// Creates a ticket from the fields of a request, under a fresh random
/// identifier, at the present time.
pub fn create_ticket(fields: TicketFields) -> (step: Step<TicketOp, Ticket>)
    ensures
        exists|id: Id, now: Timestamp|
            is_random_id(id) && #[trigger] step.follows(creating_ticket_from(fields, id, now)),
{
    let id = fresh_id();
    let now = current_time();
    create_ticket_with_id(fields, id, now)
}

/// What looking a ticket up by the text of its identifier comes to, given
/// what the text was read as.
pub open spec fn getting_ticket(read: Option<Id>) -> Plan<TicketDetails, TicketWithDetails> {
    match read {
        Some(id) => Plan::Ask(TicketDetails::Fetching { id }, Command::SelectTicketById(id)),
        None => Plan::Done(Err(invalid_id())),
    }
}

/// Looks a ticket up, given what the text of its identifier was read as.
pub fn get_ticket_read(read: Option<Id>) -> (step: Step<TicketDetails, TicketWithDetails>)
    ensures
        step.follows(getting_ticket(read)),
{
    match read {
        Some(id) => crate::handlers::tickets::get_ticket(id),
        None => Step::Done(Err(AppError::bad_request("无效的标识符"))),
    }
}

/// Looks a ticket up by the text of its identifier.
pub fn get_ticket(id: &str) -> (step: Step<TicketDetails, TicketWithDetails>)
    ensures
        step.follows(getting_ticket(id_of_text(id@))),
{
    get_ticket_read(read_id(id))
}

/// How the change of a ticket from text goes, given what the text of its
/// identifier was read as and the time: a malformed identifier is refused
/// first, then a status or a priority that is none.
pub open spec fn updating_ticket_from(read: Option<Id>, fields: TicketFields, now: Timestamp) -> Plan<
    TicketOp,
    Ticket,
> {
    match read {
        None => Plan::Done(Err(invalid_id())),
        Some(id) => match fields.as_change() {
            Err(error) => Plan::Done(Err(error)),
            Ok(request) => updating_ticket(id, request, now),
        },
    }
}

/// Changes a ticket, given what the text of its identifier was read as and
/// the time.
pub fn update_ticket_read(read: Option<Id>, fields: TicketFields, now: Timestamp) -> (step: Step<
    TicketOp,
    Ticket,
>)
    ensures
        step.follows(updating_ticket_from(read, fields, now)),
{
    match read {
        None => Step::Done(Err(AppError::bad_request("无效的标识符"))),
        Some(id) => match fields.into_change() {
            Err(error) => Step::Done(Err(error)),
            Ok(request) => update_ticket_at(id, request, now),
        },
    }
}

/// Changes a ticket by the text of its identifier, at the present time.
pub fn update_ticket(id: &str, fields: TicketFields) -> (step: Step<TicketOp, Ticket>)
    ensures
        exists|now: Timestamp| #[trigger]
            step.follows(updating_ticket_from(id_of_text(id@), fields, now)),
{
    let now = current_time();
    update_ticket_read(read_id(id), fields, now)
}

/// What removing a ticket by the text of its identifier comes to, given
/// what the text was read as.
pub open spec fn deleting_ticket(read: Option<Id>) -> Plan<TicketDelete, ()> {
    match read {
        Some(id) => Plan::Ask(TicketDelete::Detaching { id }, Command::DeleteTicketLinks(id)),
        None => Plan::Done(Err(invalid_id())),
    }
}

/// Removes a ticket, given what the text of its identifier was read as.
pub fn delete_ticket_read(read: Option<Id>) -> (step: Step<TicketDelete, ()>)
    ensures
        step.follows(deleting_ticket(read)),
{
    match read {
        Some(id) => TicketRepository::new().delete(id),
        None => Step::Done(Err(AppError::bad_request("无效的标识符"))),
    }
}

/// Removes a ticket by the text of its identifier.
pub fn delete_ticket(id: &str) -> (step: Step<TicketDelete, ()>)
    ensures
        step.follows(deleting_ticket(id_of_text(id@))),
{
    delete_ticket_read(read_id(id))
}

/// The state of health of the service.
#[derive(Clone, Copy, Debug, PartialEq, Eq, Structural)]
pub struct HealthReport {
    /// Whether the store answered.
    pub database: bool,
}

impl HealthReport {
    pub open spec fn status_text(self) -> Seq<char> {
        if self.database {
            "healthy"@
        } else {
            "unhealthy"@
        }
    }

    /// The word for the state of health.
    pub fn status(&self) -> (text: &'static str)
        ensures
            text@ == self.status_text(),
    {
        if self.database {
            "healthy"
        } else {
            "unhealthy"
        }
    }
}

/// The detailed check of the service's health.
#[derive(Debug)]
pub struct HealthDetail {}

impl View for HealthDetail {
    type V = HealthDetail;

    open spec fn view(&self) -> HealthDetail {
        *self
    }
}

impl HealthDetail {
    /// What the check does with the store's reply: the service is healthy
    /// unless the store failed.
    pub open spec fn next(self, reply: Reply) -> Plan<HealthDetail, HealthReport> {
        Plan::Done(Ok(HealthReport { database: shows_health(reply) }))
    }

    /// Takes the store's reply and ends the check.
    pub fn advance(self, reply: Reply) -> (step: Step<HealthDetail, HealthReport>)
        ensures
            step.follows(self.next(reply)),
    {
        Step::Done(Ok(HealthReport { database: is_healthy(&reply) }))
    }
}

/// Checks the health of the service and of its store.
pub fn health_check_detailed() -> (step: Step<HealthDetail, HealthReport>)
    ensures
        step.follows(Plan::Ask(HealthDetail {  }, Command::Ping)),
{
    Step::Ask(HealthDetail {  }, plain_request(PING, Expect::Affected))
}

/// Counts the tickets, tags and comments of the store. A count that the
/// store fails to give reads as zero.
pub fn database_stats() -> (step: Step<StatsOp, DatabaseStats>)
    ensures
        step.follows(
            Plan::Ask(StatsOp::Tickets { lenient: true }, Command::CountRows(Table::Tickets)),
        ),
{
    count_rows(true)
}

/// How many indexes the maintenance creates.
pub const INDEX_COUNT: usize = 7;

/// How many statements the maintenance runs: one for each index, and two
/// that refresh statistics.
pub const MAINTENANCE_STEPS: usize = 9;

/// The sentence that ends the maintenance.
pub const MAINTENANCE_DONE: &'static str = "数据库优化完成";

/// The index that the maintenance creates at a position.
pub open spec fn index_at(position: int) -> Index {
    if position == 0 {
        Index::TicketsCreatedAt
    } else if position == 1 {
        Index::TicketsStatus
    } else if position == 2 {
        Index::TicketsPriority
    } else if position == 3 {
        Index::TagsName
    } else if position == 4 {
        Index::TicketTagsTicketId
    } else if position == 5 {
        Index::TicketTagsTagId
    } else {
        Index::TicketsStatusCreatedAt
    }
}

/// The statement that the maintenance runs at a position: the indexes
/// first, then the statistics of tickets and of tags.
pub open spec fn maintenance_command(position: int) -> Command {
    if position < INDEX_COUNT {
        Command::CreateIndex(index_at(position))
    } else if position == INDEX_COUNT {
        Command::Analyze(Table::Tickets)
    } else {
        Command::Analyze(Table::Tags)
    }
}

fn pick_index(position: usize) -> (index: Index)
    ensures
        index == index_at(position as int),
{
    if position == 0 {
        Index::TicketsCreatedAt
    } else if position == 1 {
        Index::TicketsStatus
    } else if position == 2 {
        Index::TicketsPriority
    } else if position == 3 {
        Index::TagsName
    } else if position == 4 {
        Index::TicketTagsTicketId
    } else if position == 5 {
        Index::TicketTagsTagId
    } else {
        Index::TicketsStatusCreatedAt
    }
}

/// What the maintenance of the store came to.
#[derive(Debug, Clone, PartialEq, Eq)]
pub struct OptimizeReport {
    /// How many indexes were created or were there already.
    pub created_indexes: usize,
    /// A line for each index that could not be created.
    pub errors: Vec<String>,
}

/// The report of the maintenance with its lines as sequences of characters.
pub struct OptimizeReportView {
    pub created_indexes: usize,
    pub errors: Seq<Seq<char>>,
}

impl View for OptimizeReport {
    type V = OptimizeReportView;

    open spec fn view(&self) -> OptimizeReportView {
        OptimizeReportView { created_indexes: self.created_indexes, errors: texts_of(self.errors@) }
    }
}

/// The maintenance of the store, under way.
#[derive(Debug)]
pub struct Optimize {
    /// How many statements have been handed out.
    pub next: usize,
    pub created_indexes: usize,
    pub errors: Vec<String>,
}

/// The state of the maintenance with its lines as sequences of characters.
pub struct OptimizeView {
    pub next: usize,
    pub created_indexes: usize,
    pub errors: Seq<Seq<char>>,
}

impl View for Optimize {
    type V = OptimizeView;

    open spec fn view(&self) -> OptimizeView {
        OptimizeView {
            next: self.next,
            created_indexes: self.created_indexes,
            errors: texts_of(self.errors@),
        }
    }
}

/// The line that reports an index that could not be created.
pub open spec fn index_failure_line(index: Index, detail: Seq<char>) -> Seq<char> {
    "索引创建失败 "@ + index.create_text() + ": "@ + detail
}

/// Writes the line that reports an index that could not be created.
pub fn index_failure(index: Index, detail: &str) -> (line: String)
    ensures
        line@ == index_failure_line(index, detail@),
{
    let mut line = String::from_str("索引创建失败 ");
    line.append(index.create_sql());
    line.append(": ");
    line.append(detail);
    line
}

impl OptimizeView {
    /// The move from a state on: the next statement is handed out, or, when
    /// all have run, the maintenance ends with its report.
    pub open spec fn proceed(self) -> Plan<OptimizeView, OptimizeReportView> {
        if self.next < MAINTENANCE_STEPS {
            Plan::Ask(
                OptimizeView { next: (self.next + 1) as usize, ..self },
                maintenance_command(self.next as int),
            )
        } else {
            Plan::Done(
                Ok(OptimizeReportView { created_indexes: self.created_indexes, errors: self.errors }),
            )
        }
    }

    /// Whether the statement that was handed out last creates an index.
    pub open spec fn awaits_index(self) -> bool {
        0 < self.next <= INDEX_COUNT
    }

    /// What the maintenance does with the store's reply: an index that the
    /// store failed to create adds a line to the errors, any other counts
    /// as created; what comes of refreshing the statistics is not kept. No
    /// failure ends the maintenance before every statement has run.
    pub open spec fn next(self, reply: Reply) -> Plan<OptimizeView, OptimizeReportView> {
        if self.awaits_index() {
            match reply {
                Reply::Failed(detail) => (OptimizeView {
                    errors: self.errors.push(
                        index_failure_line(index_at(self.next - 1), detail@),
                    ),
                    ..self
                }).proceed(),
                _ => (OptimizeView {
                    created_indexes: one_more(self.created_indexes),
                    ..self
                }).proceed(),
            }
        } else {
            self.proceed()
        }
    }
}

impl Optimize {
    fn proceed(self) -> (step: Step<Optimize, OptimizeReport>)
        ensures
            step.mirrors(self@.proceed()),
    {
        if self.next < MAINTENANCE_STEPS {
            let request = if self.next < INDEX_COUNT {
                plain_request(pick_index(self.next).create_sql(), Expect::Affected)
            } else if self.next == INDEX_COUNT {
                plain_request(Table::Tickets.analyze_sql(), Expect::Affected)
            } else {
                plain_request(Table::Tags.analyze_sql(), Expect::Affected)
            };
            Step::Ask(
                Optimize {
                    next: self.next + 1,
                    created_indexes: self.created_indexes,
                    errors: self.errors,
                },
                request,
            )
        } else {
            Step::Done(
                Ok(OptimizeReport { created_indexes: self.created_indexes, errors: self.errors }),
            )
        }
    }

    /// Takes the store's reply and makes the next move.
    pub fn advance(self, reply: Reply) -> (step: Step<Optimize, OptimizeReport>)
        ensures
            step.mirrors(self@.next(reply)),
    {
        if 0 < self.next && self.next <= INDEX_COUNT {
            match reply {
                Reply::Failed(detail) => {
                    let line = index_failure(pick_index(self.next - 1), detail.as_str());
                    let mut errors = self.errors;
                    errors.push(line);
                    assert(texts_of(errors@) =~= self@.errors.push(
                        index_failure_line(index_at(self.next - 1), detail@),
                    ));
                    (Optimize { next: self.next, created_indexes: self.created_indexes, errors })
                        .proceed()
                },
                _ => {
                    let created_indexes = if self.created_indexes < usize::MAX {
                        self.created_indexes + 1
                    } else {
                        self.created_indexes
                    };
                    (Optimize { next: self.next, created_indexes, errors: self.errors }).proceed()
                },
            }
        } else {
            self.proceed()
        }
    }
}

/// Starts the maintenance of the store: the indexes are created one by
/// one, then the statistics of tickets and of tags are refreshed.
pub fn database_optimize() -> (step: Step<Optimize, OptimizeReport>)
    ensures
        step.mirrors(
            (OptimizeView { next: 0, created_indexes: 0, errors: Seq::empty() }).proceed(),
        ),
{
    let start = Optimize { next: 0, created_indexes: 0, errors: Vec::new() };
    assert(texts_of(start.errors@) =~= Seq::<Seq<char>>::empty());
    start.proceed()
}

} // verus!
