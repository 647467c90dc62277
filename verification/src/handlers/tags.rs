//! The requests on tags and on the tags of a ticket.

use vstd::prelude::*;
use vstd::string::*;
use crate::clock::current_time;
use crate::commands::{
    attach_tags_request, limited_request, pair_request, plain_request, request_by_id, Command,
    Table, ATTACH_TAG, COUNT_UNUSED_TAGS, DELETE_TICKET_LINKS, DETACH_TAG,
    SELECT_MOST_USED_TAGS, SELECT_TAGS, SELECT_TAGS_OF_TICKET, SELECT_TAGS_WITH_COUNTS,
    SELECT_TAG_BY_ID,
};
use crate::error::AppError;
use crate::ids::{fresh_id, is_random_id};
use crate::models::{CreateTagRequest, Id, Tag, TagWithCount, Timestamp, UpdateTagRequest};
use crate::repositories::tags::{
    tag_not_found, TagCounts, TagDelete, TagList, TagOp, TagRepository,
};
use crate::store::{Expect, Plan, Reply, Step};
use crate::validation::verdict;

verus! {

/// How many tags the statistics list as the most used ones.
pub const MOST_USED_TAGS: i64 = 5;

/// Whether a listing of tags is to carry usage counts.
#[derive(Debug, Clone, PartialEq, Eq)]
pub struct ListTagsQuery {
    pub with_counts: Option<bool>,
}

/// A listing of tags, plain or with usage counts.
#[derive(Debug, Clone, PartialEq, Eq)]
pub enum ListTagsResponse {
    Simple(Vec<Tag>),
    WithCounts(Vec<TagWithCount>),
}

/// The term of a search for tags.
#[derive(Debug, Clone, PartialEq, Eq)]
pub struct SearchQuery {
    pub q: String,
}

/// How many of the most used tags are asked for.
#[derive(Debug, Clone, PartialEq, Eq)]
pub struct PopularTagsQuery {
    pub limit: Option<i64>,
}

/// The full set of tags that a ticket is to bear.
#[derive(Debug, Clone, PartialEq, Eq)]
pub struct SetTicketTagsRequest {
    pub tag_ids: Vec<Id>,
}

/// Figures on the use of tags.
#[derive(Debug, Clone, PartialEq, Eq)]
pub struct TagStats {
    pub total_tags: i64,
    pub total_usage: i64,
    pub unused_tags: i64,
    pub most_used_tags: Vec<TagWithCount>,
}

/// The listing of all tags, plain or with usage counts.
#[derive(Debug)]
pub enum TagListing {
    Simple,
    WithCounts,
}

impl View for TagListing {
    type V = TagListing;

    open spec fn view(&self) -> TagListing {
        *self
    }
}

impl TagListing {
    /// What the listing does with the store's reply: the rows are the result.
    pub open spec fn next(self, reply: Reply) -> Plan<TagListing, ListTagsResponse> {
        match self {
            TagListing::Simple => match reply {
                Reply::Tags(rows) => Plan::Done(Ok(ListTagsResponse::Simple(rows))),
                _ => Plan::Done(Err(reply.failure())),
            },
            TagListing::WithCounts => match reply {
                Reply::CountedTags(rows) => Plan::Done(Ok(ListTagsResponse::WithCounts(rows))),
                _ => Plan::Done(Err(reply.failure())),
            },
        }
    }

    /// Takes the store's reply and ends the listing.
    pub fn advance(self, reply: Reply) -> (step: Step<TagListing, ListTagsResponse>)
        ensures
            step.follows(self.next(reply)),
    {
        match self {
            TagListing::Simple => match reply {
                Reply::Tags(rows) => Step::Done(Ok(ListTagsResponse::Simple(rows))),
                other => Step::Done(Err(other.into_failure())),
            },
            TagListing::WithCounts => match reply {
                Reply::CountedTags(rows) => Step::Done(Ok(ListTagsResponse::WithCounts(rows))),
                other => Step::Done(Err(other.into_failure())),
            },
        }
    }
}

/// Lists all tags by name, with usage counts where the query asks for them.
pub fn list_tags(query: ListTagsQuery) -> (step: Step<TagListing, ListTagsResponse>)
    ensures
        step.follows(
            if query.with_counts == Some(true) {
                Plan::Ask(TagListing::WithCounts, Command::SelectTagsWithCounts)
            } else {
                Plan::Ask(TagListing::Simple, Command::SelectTags)
            },
        ),
{
    let with_counts = match query.with_counts {
        Some(flag) => flag,
        None => false,
    };
    if with_counts {
        Step::Ask(
            TagListing::WithCounts,
            plain_request(SELECT_TAGS_WITH_COUNTS, Expect::CountedTags),
        )
    } else {
        Step::Ask(TagListing::Simple, plain_request(SELECT_TAGS, Expect::Tags))
    }
}

/// Looks a tag up.
pub fn get_tag(id: Id) -> (step: Step<TagOp, Tag>)
    ensures
        step.follows(Plan::Ask(TagOp::Fetching, Command::SelectTagById(id))),
{
    TagRepository::new().get_by_id(id)
}

/// How the creation of a tag goes, given its identifier and the time: a
/// request that breaks the rules on its fields is refused before anything is
/// asked of the store; another starts the creation.
pub open spec fn creating_tag(request: CreateTagRequest, id: Id, now: Timestamp) -> Plan<TagOp, Tag> {
    match verdict(request.violations()) {
        Err(error) => Plan::Done(Err(error)),
        Ok(_) => TagRepository::creating(request, id, now),
    }
}

/// Creates a tag with a given identifier and time.
pub fn create_tag_with(request: CreateTagRequest, id: Id, now: Timestamp) -> (step: Step<TagOp, Tag>)
    ensures
        step.follows(creating_tag(request, id, now)),
{
    match request.validate() {
        Err(error) => Step::Done(Err(error)),
        Ok(_) => TagRepository::new().create_with(request, id, now),
    }
}

/// Creates a tag under a fresh random identifier, at the present time.
pub fn create_tag(request: CreateTagRequest) -> (step: Step<TagOp, Tag>)
    ensures
        exists|id: Id, now: Timestamp|
            is_random_id(id) && #[trigger] step.follows(creating_tag(request, id, now)),
{
    let id = fresh_id();
    let now = current_time();
    create_tag_with(request, id, now)
}

/// How the change of a tag goes, given the time: a request that breaks the
/// rules on its fields is refused before anything is asked of the store;
/// another starts the change.
pub open spec fn updating_tag(id: Id, request: UpdateTagRequest, now: Timestamp) -> Plan<TagOp, Tag> {
    match verdict(request.violations()) {
        Err(error) => Plan::Done(Err(error)),
        Ok(_) => TagRepository::updating(id, request, now),
    }
}

/// Changes a tag at a given time.
pub fn update_tag_at(id: Id, request: UpdateTagRequest, now: Timestamp) -> (step: Step<TagOp, Tag>)
    ensures
        step.follows(updating_tag(id, request, now)),
{
    match request.validate() {
        Err(error) => Step::Done(Err(error)),
        Ok(_) => TagRepository::new().update_at(id, request, now),
    }
}

/// Changes a tag at the present time.
pub fn update_tag(id: Id, request: UpdateTagRequest) -> (step: Step<TagOp, Tag>)
    ensures
        exists|now: Timestamp| #[trigger] step.follows(updating_tag(id, request, now)),
{
    let now = current_time();
    update_tag_at(id, request, now)
}

/// Removes a tag.
pub fn delete_tag(id: Id) -> (step: Step<TagDelete, ()>)
    ensures
        step.follows(Plan::Ask(TagDelete::Detaching { id }, Command::DeleteTagLinks(id))),
{
    TagRepository::new().delete(id)
}

/// Searches the tags by name.
pub fn search_tags(query: SearchQuery) -> (step: Step<TagList, Vec<Tag>>)
    ensures
        step.follows(
            Plan::Ask(
                TagList {  },
                Command::SearchTags {
                    pattern: crate::text::contains_pattern(query.q@),
                    limit: crate::repositories::tags::TAG_SEARCH_LIMIT,
                },
            ),
        ),
{
    TagRepository::new().search(query.q.as_str())
}

/// Lists the most used tags.
pub fn get_popular_tags(query: PopularTagsQuery) -> (step: Step<TagCounts, Vec<TagWithCount>>)
    ensures
        step.follows(
            Plan::Ask(
                TagCounts {  },
                Command::SelectPopularTags {
                    limit: crate::repositories::tags::popular_limit(query.limit),
                },
            ),
        ),
{
    TagRepository::new().get_popular(query.limit)
}

/// A change of the tags of a ticket, which ends with the tags that the
/// ticket then bears.
#[derive(Debug)]
pub enum TicketTagsChange {
    /// Waiting for the row of a tag of the new set; `next` tags have been
    /// asked for.
    Verifying { ticket_id: Id, tag_ids: Vec<Id>, next: usize },
    /// Waiting for all tags to be taken off the ticket.
    Clearing { ticket_id: Id, tag_ids: Vec<Id> },
    /// Waiting for the row of the tag that is to be attached.
    Checking { ticket_id: Id, tag_id: Id },
    /// Waiting for the attachments to be written.
    Writing { ticket_id: Id },
    /// Waiting for the tags that the ticket now bears.
    Listing,
}

impl View for TicketTagsChange {
    type V = TicketTagsChange;

    open spec fn view(&self) -> TicketTagsChange {
        *self
    }
}

/// The move that looks the tags of a new set up from a position on: the
/// next tag is asked for, or, when all are known to be there, the ticket's
/// present tags are taken off.
pub open spec fn verify_from(ticket_id: Id, tag_ids: Vec<Id>, next: usize) -> Plan<
    TicketTagsChange,
    Vec<Tag>,
> {
    if next < tag_ids@.len() {
        Plan::Ask(
            TicketTagsChange::Verifying { ticket_id, tag_ids, next: (next + 1) as usize },
            Command::SelectTagById(tag_ids@[next as int]),
        )
    } else {
        Plan::Ask(
            TicketTagsChange::Clearing { ticket_id, tag_ids },
            Command::DeleteTicketLinks(ticket_id),
        )
    }
}

fn verify_next(ticket_id: Id, tag_ids: Vec<Id>, next: usize) -> (step: Step<
    TicketTagsChange,
    Vec<Tag>,
>)
    ensures
        step.follows(verify_from(ticket_id, tag_ids, next)),
{
    if next < tag_ids.len() {
        let request = request_by_id(SELECT_TAG_BY_ID, tag_ids[next], Expect::Tags);
        Step::Ask(TicketTagsChange::Verifying { ticket_id, tag_ids, next: next + 1 }, request)
    } else {
        Step::Ask(
            TicketTagsChange::Clearing { ticket_id, tag_ids },
            request_by_id(DELETE_TICKET_LINKS, ticket_id, Expect::Affected),
        )
    }
}

impl TicketTagsChange {
    /// What the change does with the store's reply.
    ///
    /// A set of tags replaces the old one only if every tag of it is there:
    /// the first that is not ends the change, and the ticket keeps its tags.
    /// Then all tags are taken off the ticket and the new ones attached in
    /// one statement, which is left out where the new set is empty. A single
    /// tag is attached only if it is there. Every change ends with the tags
    /// that the ticket bears afterwards, by name.
    pub open spec fn next(self, reply: Reply) -> Plan<TicketTagsChange, Vec<Tag>> {
        match self {
            TicketTagsChange::Verifying { ticket_id, tag_ids, next } => match reply {
                Reply::Tags(rows) => if rows@.len() > 0 {
                    verify_from(ticket_id, tag_ids, next)
                } else {
                    Plan::Done(Err(tag_not_found()))
                },
                _ => Plan::Done(Err(reply.failure())),
            },
            TicketTagsChange::Clearing { ticket_id, tag_ids } => match reply {
                Reply::Affected(_) => if tag_ids@.len() > 0 {
                    Plan::Ask(
                        TicketTagsChange::Writing { ticket_id },
                        Command::AttachTags { ticket_id, tag_ids: tag_ids@ },
                    )
                } else {
                    Plan::Ask(TicketTagsChange::Listing, Command::SelectTagsOfTicket(ticket_id))
                },
                _ => Plan::Done(Err(reply.failure())),
            },
            TicketTagsChange::Checking { ticket_id, tag_id } => match reply {
                Reply::Tags(rows) => if rows@.len() > 0 {
                    Plan::Ask(
                        TicketTagsChange::Writing { ticket_id },
                        Command::AttachTag { ticket_id, tag_id },
                    )
                } else {
                    Plan::Done(Err(tag_not_found()))
                },
                _ => Plan::Done(Err(reply.failure())),
            },
            TicketTagsChange::Writing { ticket_id } => match reply {
                Reply::Affected(_) => Plan::Ask(
                    TicketTagsChange::Listing,
                    Command::SelectTagsOfTicket(ticket_id),
                ),
                _ => Plan::Done(Err(reply.failure())),
            },
            TicketTagsChange::Listing => match reply {
                Reply::Tags(rows) => Plan::Done(Ok(rows)),
                _ => Plan::Done(Err(reply.failure())),
            },
        }
    }

    /// Takes the store's reply and makes the next move.
    pub fn advance(self, reply: Reply) -> (step: Step<TicketTagsChange, Vec<Tag>>)
        ensures
            step.follows(self.next(reply)),
    {
        match self {
            TicketTagsChange::Verifying { ticket_id, tag_ids, next } => match reply {
                Reply::Tags(rows) => {
                    if rows.len() > 0 {
                        verify_next(ticket_id, tag_ids, next)
                    } else {
                        Step::Done(Err(AppError::not_found("标签")))
                    }
                },
                other => Step::Done(Err(other.into_failure())),
            },
            TicketTagsChange::Clearing { ticket_id, tag_ids } => match reply {
                Reply::Affected(_) => {
                    if tag_ids.len() > 0 {
                        Step::Ask(
                            TicketTagsChange::Writing { ticket_id },
                            attach_tags_request(ticket_id, &tag_ids),
                        )
                    } else {
                        Step::Ask(
                            TicketTagsChange::Listing,
                            request_by_id(SELECT_TAGS_OF_TICKET, ticket_id, Expect::Tags),
                        )
                    }
                },
                other => Step::Done(Err(other.into_failure())),
            },
            TicketTagsChange::Checking { ticket_id, tag_id } => match reply {
                Reply::Tags(rows) => {
                    if rows.len() > 0 {
                        Step::Ask(
                            TicketTagsChange::Writing { ticket_id },
                            pair_request(ATTACH_TAG, ticket_id, tag_id),
                        )
                    } else {
                        Step::Done(Err(AppError::not_found("标签")))
                    }
                },
                other => Step::Done(Err(other.into_failure())),
            },
            TicketTagsChange::Writing { ticket_id } => match reply {
                Reply::Affected(_) => Step::Ask(
                    TicketTagsChange::Listing,
                    request_by_id(SELECT_TAGS_OF_TICKET, ticket_id, Expect::Tags),
                ),
                other => Step::Done(Err(other.into_failure())),
            },
            TicketTagsChange::Listing => match reply {
                Reply::Tags(rows) => Step::Done(Ok(rows)),
                other => Step::Done(Err(other.into_failure())),
            },
        }
    }
}

/// Lists the tags of a ticket by name.
pub fn get_ticket_tags(ticket_id: Id) -> (step: Step<TagList, Vec<Tag>>)
    ensures
        step.follows(Plan::Ask(TagList {  }, Command::SelectTagsOfTicket(ticket_id))),
{
    TagRepository::new().get_ticket_tags(ticket_id)
}

/// Replaces the tags of a ticket by a new set.
pub fn set_ticket_tags(ticket_id: Id, request: SetTicketTagsRequest) -> (step: Step<
    TicketTagsChange,
    Vec<Tag>,
>)
    ensures
        step.follows(verify_from(ticket_id, request.tag_ids, 0)),
{
    verify_next(ticket_id, request.tag_ids, 0)
}

/// Attaches one tag to a ticket.
pub fn add_ticket_tag(ticket_id: Id, tag_id: Id) -> (step: Step<TicketTagsChange, Vec<Tag>>)
    ensures
        step.follows(
            Plan::Ask(
                TicketTagsChange::Checking { ticket_id, tag_id },
                Command::SelectTagById(tag_id),
            ),
        ),
{
    Step::Ask(
        TicketTagsChange::Checking { ticket_id, tag_id },
        request_by_id(SELECT_TAG_BY_ID, tag_id, Expect::Tags),
    )
}

/// Takes one tag off a ticket.
pub fn remove_ticket_tag(ticket_id: Id, tag_id: Id) -> (step: Step<TicketTagsChange, Vec<Tag>>)
    ensures
        step.follows(
            Plan::Ask(
                TicketTagsChange::Writing { ticket_id },
                Command::DetachTag { ticket_id, tag_id },
            ),
        ),
{
    Step::Ask(TicketTagsChange::Writing { ticket_id }, pair_request(DETACH_TAG, ticket_id, tag_id))
}

/// The gathering of the figures on the use of tags.
#[derive(Debug)]
pub enum TagStatsOp {
    /// Waiting for the number of tags.
    CountingTags,
    /// Waiting for the number of attachments.
    CountingUsage { total_tags: i64 },
    /// Waiting for the number of tags that no ticket bears.
    CountingUnused { total_tags: i64, total_usage: i64 },
    /// Waiting for the most used tags.
    Ranking { total_tags: i64, total_usage: i64, unused_tags: i64 },
}

impl View for TagStatsOp {
    type V = TagStatsOp;

    open spec fn view(&self) -> TagStatsOp {
        *self
    }
}

impl TagStatsOp {
    /// What the gathering does with the store's reply: each count is kept
    /// as the store gave it, and the five most used tags end the list.
    pub open spec fn next(self, reply: Reply) -> Plan<TagStatsOp, TagStats> {
        match self {
            TagStatsOp::CountingTags => match reply {
                Reply::Count(total_tags) => Plan::Ask(
                    TagStatsOp::CountingUsage { total_tags },
                    Command::CountRows(Table::TicketTags),
                ),
                _ => Plan::Done(Err(reply.failure())),
            },
            TagStatsOp::CountingUsage { total_tags } => match reply {
                Reply::Count(total_usage) => Plan::Ask(
                    TagStatsOp::CountingUnused { total_tags, total_usage },
                    Command::CountUnusedTags,
                ),
                _ => Plan::Done(Err(reply.failure())),
            },
            TagStatsOp::CountingUnused { total_tags, total_usage } => match reply {
                Reply::Count(unused_tags) => Plan::Ask(
                    TagStatsOp::Ranking { total_tags, total_usage, unused_tags },
                    Command::SelectMostUsedTags { limit: MOST_USED_TAGS },
                ),
                _ => Plan::Done(Err(reply.failure())),
            },
            TagStatsOp::Ranking { total_tags, total_usage, unused_tags } => match reply {
                Reply::CountedTags(most_used_tags) => Plan::Done(
                    Ok(TagStats { total_tags, total_usage, unused_tags, most_used_tags }),
                ),
                _ => Plan::Done(Err(reply.failure())),
            },
        }
    }

    /// Takes the store's reply and makes the next move.
    pub fn advance(self, reply: Reply) -> (step: Step<TagStatsOp, TagStats>)
        ensures
            step.follows(self.next(reply)),
    {
        match self {
            TagStatsOp::CountingTags => match reply {
                Reply::Count(total_tags) => Step::Ask(
                    TagStatsOp::CountingUsage { total_tags },
                    plain_request(Table::TicketTags.count_sql(), Expect::Count),
                ),
                other => Step::Done(Err(other.into_failure())),
            },
            TagStatsOp::CountingUsage { total_tags } => match reply {
                Reply::Count(total_usage) => Step::Ask(
                    TagStatsOp::CountingUnused { total_tags, total_usage },
                    plain_request(COUNT_UNUSED_TAGS, Expect::Count),
                ),
                other => Step::Done(Err(other.into_failure())),
            },
            TagStatsOp::CountingUnused { total_tags, total_usage } => match reply {
                Reply::Count(unused_tags) => Step::Ask(
                    TagStatsOp::Ranking { total_tags, total_usage, unused_tags },
                    limited_request(SELECT_MOST_USED_TAGS, MOST_USED_TAGS, Expect::CountedTags),
                ),
                other => Step::Done(Err(other.into_failure())),
            },
            TagStatsOp::Ranking { total_tags, total_usage, unused_tags } => match reply {
                Reply::CountedTags(most_used_tags) => Step::Done(
                    Ok(TagStats { total_tags, total_usage, unused_tags, most_used_tags }),
                ),
                other => Step::Done(Err(other.into_failure())),
            },
        }
    }
}

/// Gathers the figures on the use of tags.
pub fn get_tag_stats() -> (step: Step<TagStatsOp, TagStats>)
    ensures
        step.follows(Plan::Ask(TagStatsOp::CountingTags, Command::CountRows(Table::Tags))),
{
    Step::Ask(TagStatsOp::CountingTags, plain_request(Table::Tags.count_sql(), Expect::Count))
}

} // verus!
