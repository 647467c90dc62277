//! Tags: creation under unique names, look-up, listing with usage counts,
//! change and removal.

use vstd::prelude::*;
use vstd::string::*;
use crate::clock::current_time;
use crate::commands::{
    count_tags_named_request, insert_tag_request, limited_request, plain_request, request_by_id,
    search_request, text_of, update_tag_request, Command, DELETE_TAG, DELETE_TAG_LINKS,
    SEARCH_TAGS, SELECT_POPULAR_TAGS, SELECT_TAGS, SELECT_TAGS_OF_TICKET,
    SELECT_TAGS_WITH_COUNTS, SELECT_TAG_BY_ID, SELECT_TAG_BY_NAME,
};
use crate::error::{AppError, ErrorView};
use crate::ids::{fresh_id, is_random_id};
use crate::models::{CreateTagRequest, Id, Tag, TagWithCount, Timestamp, UpdateTagRequest};
use crate::sql::{params_of, Param, SqlValue};
use crate::store::{Expect, Plan, Reply, Step};
use crate::text::{contains_pattern, search_pattern};

verus! {

/// The colour of a tag that is created without one.
pub const DEFAULT_TAG_COLOR: &'static str = "#3B82F6";

/// How many tags a search brings back at most.
pub const TAG_SEARCH_LIMIT: i64 = 20;

/// How many tags are listed as the most used ones unless another number is
/// asked for.
pub const POPULAR_TAGS_DEFAULT: i64 = 10;

/// The failure of a tag that is not there.
pub open spec fn tag_not_found() -> ErrorView {
    ErrorView::NotFound("标签"@ + "未找到"@)
}

/// The failure of a name that another tag bears.
pub open spec fn tag_name_taken() -> ErrorView {
    ErrorView::Conflict("标签名称"@ + "已存在"@)
}

/// The colour a new tag gets: the one asked for, or the default.
pub open spec fn color_or_default(color: Option<String>) -> Seq<char> {
    match color {
        Some(c) => c@,
        None => DEFAULT_TAG_COLOR@,
    }
}

/// The number of popular tags to list: the one asked for, or ten.
pub open spec fn popular_limit(limit: Option<i64>) -> i64 {
    match limit {
        Some(n) => n,
        None => POPULAR_TAGS_DEFAULT,
    }
}

/// An operation that ends with one tag.
#[derive(Debug)]
pub enum TagOp {
    /// Waiting for the row of the tag.
    Fetching,
    /// Waiting for the row of the tag that is being created.
    Inserting,
    /// Waiting for the number of tags that bear the name of the tag to create.
    CreateChecking { id: Id, name: String, color: Option<String>, now: Timestamp },
    /// Waiting for the number of other tags that bear the new name of a tag.
    UpdateChecking { id: Id, name: String, color: Option<String>, now: Timestamp },
}

impl View for TagOp {
    type V = TagOp;

    open spec fn view(&self) -> TagOp {
        *self
    }
}

impl TagOp {
    /// What the operation does with the store's reply.
    ///
    /// A tag is created or renamed only if the store counts no tag of its
    /// name: otherwise the operation ends with a conflict and nothing more is
    /// asked of the store. Where a row is awaited, the first row is the
    /// result; no row means that the tag is not there.
    pub open spec fn next(self, reply: Reply) -> Plan<TagOp, Tag> {
        match self {
            TagOp::Fetching => match reply {
                Reply::Tags(rows) => if rows@.len() > 0 {
                    Plan::Done(Ok(rows@[0]))
                } else {
                    Plan::Done(Err(tag_not_found()))
                },
                _ => Plan::Done(Err(reply.failure())),
            },
            TagOp::Inserting => match reply {
                Reply::Tags(rows) => if rows@.len() > 0 {
                    Plan::Done(Ok(rows@[0]))
                } else {
                    Plan::Done(Err(crate::store::unexpected_reply()))
                },
                _ => Plan::Done(Err(reply.failure())),
            },
            TagOp::CreateChecking { id, name, color, now } => match reply {
                Reply::Count(n) => if n > 0 {
                    Plan::Done(Err(tag_name_taken()))
                } else {
                    Plan::Ask(
                        TagOp::Inserting,
                        Command::InsertTag { id, name: name@, color: color_or_default(color), now },
                    )
                },
                _ => Plan::Done(Err(reply.failure())),
            },
            TagOp::UpdateChecking { id, name, color, now } => match reply {
                Reply::Count(n) => if n > 0 {
                    Plan::Done(Err(tag_name_taken()))
                } else {
                    Plan::Ask(
                        TagOp::Fetching,
                        Command::UpdateTag { id, name: Some(name@), color: text_of(color), now },
                    )
                },
                _ => Plan::Done(Err(reply.failure())),
            },
        }
    }

    /// Takes the store's reply and makes the next move.
    pub fn advance(self, reply: Reply) -> (step: Step<TagOp, Tag>)
        ensures
            step.follows(self.next(reply)),
    {
        match self {
            TagOp::Fetching => match reply {
                Reply::Tags(mut rows) => {
                    if rows.len() > 0 {
                        Step::Done(Ok(rows.remove(0)))
                    } else {
                        Step::Done(Err(AppError::not_found("标签")))
                    }
                },
                other => Step::Done(Err(other.into_failure())),
            },
            TagOp::Inserting => match reply {
                Reply::Tags(mut rows) => {
                    if rows.len() > 0 {
                        Step::Done(Ok(rows.remove(0)))
                    } else {
                        Step::Done(Err(AppError::internal("unexpected reply from the store")))
                    }
                },
                other => Step::Done(Err(other.into_failure())),
            },
            TagOp::CreateChecking { id, name, color, now } => match reply {
                Reply::Count(n) => {
                    if n > 0 {
                        Step::Done(Err(AppError::conflict("标签名称")))
                    } else {
                        let color_text = match color {
                            Some(c) => c,
                            None => String::from_str(DEFAULT_TAG_COLOR),
                        };
                        Step::Ask(TagOp::Inserting, insert_tag_request(id, name, color_text, now))
                    }
                },
                other => Step::Done(Err(other.into_failure())),
            },
            TagOp::UpdateChecking { id, name, color, now } => match reply {
                Reply::Count(n) => {
                    if n > 0 {
                        Step::Done(Err(AppError::conflict("标签名称")))
                    } else {
                        Step::Ask(TagOp::Fetching, update_tag_request(id, Some(name), color, now))
                    }
                },
                other => Step::Done(Err(other.into_failure())),
            },
        }
    }
}

/// An operation that ends with a list of tags.
#[derive(Debug)]
pub struct TagList {}

impl View for TagList {
    type V = TagList;

    open spec fn view(&self) -> TagList {
        *self
    }
}

impl TagList {
    /// What the operation does with the store's reply: the rows are the
    /// result, in the order in which the store gave them.
    pub open spec fn next(self, reply: Reply) -> Plan<TagList, Vec<Tag>> {
        match reply {
            Reply::Tags(rows) => Plan::Done(Ok(rows)),
            _ => Plan::Done(Err(reply.failure())),
        }
    }

    /// Takes the store's reply and ends the operation.
    pub fn advance(self, reply: Reply) -> (step: Step<TagList, Vec<Tag>>)
        ensures
            step.follows(self.next(reply)),
    {
        match reply {
            Reply::Tags(rows) => Step::Done(Ok(rows)),
            other => Step::Done(Err(other.into_failure())),
        }
    }
}

/// An operation that ends with a list of tags and their usage counts.
#[derive(Debug)]
pub struct TagCounts {}

impl View for TagCounts {
    type V = TagCounts;

    open spec fn view(&self) -> TagCounts {
        *self
    }
}

impl TagCounts {
    /// What the operation does with the store's reply: the rows are the
    /// result, in the order in which the store gave them.
    pub open spec fn next(self, reply: Reply) -> Plan<TagCounts, Vec<TagWithCount>> {
        match reply {
            Reply::CountedTags(rows) => Plan::Done(Ok(rows)),
            _ => Plan::Done(Err(reply.failure())),
        }
    }

    /// Takes the store's reply and ends the operation.
    pub fn advance(self, reply: Reply) -> (step: Step<TagCounts, Vec<TagWithCount>>)
        ensures
            step.follows(self.next(reply)),
    {
        match reply {
            Reply::CountedTags(rows) => Step::Done(Ok(rows)),
            other => Step::Done(Err(other.into_failure())),
        }
    }
}

/// An operation that ends with whether a name is taken.
#[derive(Debug)]
pub struct NameCheck {}

impl View for NameCheck {
    type V = NameCheck;

    open spec fn view(&self) -> NameCheck {
        *self
    }
}

impl NameCheck {
    /// What the operation does with the store's reply: the name is taken if
    /// the store counted at least one tag.
    pub open spec fn next(self, reply: Reply) -> Plan<NameCheck, bool> {
        match reply {
            Reply::Count(n) => Plan::Done(Ok(n > 0)),
            _ => Plan::Done(Err(reply.failure())),
        }
    }

    /// Takes the store's reply and ends the operation.
    pub fn advance(self, reply: Reply) -> (step: Step<NameCheck, bool>)
        ensures
            step.follows(self.next(reply)),
    {
        match reply {
            Reply::Count(n) => Step::Done(Ok(n > 0)),
            other => Step::Done(Err(other.into_failure())),
        }
    }
}

/// The removal of a tag.
#[derive(Debug)]
pub enum TagDelete {
    /// Waiting for the tag to be taken off all tickets.
    Detaching { id: Id },
    /// Waiting for the tag itself to be removed.
    Removing,
}

impl View for TagDelete {
    type V = TagDelete;

    open spec fn view(&self) -> TagDelete {
        *self
    }
}

impl TagDelete {
    /// What the operation does with the store's reply: once the tag is off
    /// all tickets it is removed itself, and if no row went with that, the
    /// tag was not there.
    pub open spec fn next(self, reply: Reply) -> Plan<TagDelete, ()> {
        match self {
            TagDelete::Detaching { id } => match reply {
                Reply::Affected(_) => Plan::Ask(TagDelete::Removing, Command::DeleteTag(id)),
                _ => Plan::Done(Err(reply.failure())),
            },
            TagDelete::Removing => match reply {
                Reply::Affected(rows) => if rows == 0 {
                    Plan::Done(Err(tag_not_found()))
                } else {
                    Plan::Done(Ok(()))
                },
                _ => Plan::Done(Err(reply.failure())),
            },
        }
    }

    /// Takes the store's reply and makes the next move.
    pub fn advance(self, reply: Reply) -> (step: Step<TagDelete, ()>)
        ensures
            step.follows(self.next(reply)),
    {
        match self {
            TagDelete::Detaching { id } => match reply {
                Reply::Affected(_) => Step::Ask(
                    TagDelete::Removing,
                    request_by_id(DELETE_TAG, id, Expect::Affected),
                ),
                other => Step::Done(Err(other.into_failure())),
            },
            TagDelete::Removing => match reply {
                Reply::Affected(rows) => {
                    if rows == 0 {
                        Step::Done(Err(AppError::not_found("标签")))
                    } else {
                        Step::Done(Ok(()))
                    }
                },
                other => Step::Done(Err(other.into_failure())),
            },
        }
    }
}

/// The operations on tags.
#[derive(Debug, Clone, Copy)]
pub struct TagRepository {}

impl TagRepository {
    pub fn new() -> (repository: Self) {
        TagRepository {  }
    }

    /// How the creation of a tag starts, given the identifier and the time of
    /// creation: with the count of the tags that bear its name.
    pub open spec fn creating(request: CreateTagRequest, id: Id, now: Timestamp) -> Plan<TagOp, Tag> {
        Plan::Ask(
            TagOp::CreateChecking { id, name: request.name, color: request.color, now },
            Command::CountTagsNamed { name: request.name@, exclude: None },
        )
    }

    /// Starts the creation of a tag with a given identifier and time.
    pub fn create_with(&self, request: CreateTagRequest, id: Id, now: Timestamp) -> (step: Step<
        TagOp,
        Tag,
    >)
        ensures
            step.follows(Self::creating(request, id, now)),
    {
        let check = count_tags_named_request(request.name.clone(), None);
        Step::Ask(TagOp::CreateChecking { id, name: request.name, color: request.color, now }, check)
    }

    /// Starts the creation of a tag under a fresh random identifier, at the
    /// present time.
    pub fn create(&self, request: CreateTagRequest) -> (step: Step<TagOp, Tag>)
        ensures
            exists|id: Id, now: Timestamp|
                is_random_id(id) && #[trigger] step.follows(Self::creating(request, id, now)),
    {
        let id = fresh_id();
        let now = current_time();
        self.create_with(request, id, now)
    }

    /// How the look-up of a tag starts.
    pub open spec fn getting(id: Id) -> Plan<TagOp, Tag> {
        Plan::Ask(TagOp::Fetching, Command::SelectTagById(id))
    }

    /// Looks a tag up by its identifier.
    pub fn get_by_id(&self, id: Id) -> (step: Step<TagOp, Tag>)
        ensures
            step.follows(Self::getting(id)),
    {
        Step::Ask(TagOp::Fetching, request_by_id(SELECT_TAG_BY_ID, id, Expect::Tags))
    }

    /// Looks a tag up by its name.
    pub fn get_by_name(&self, name: &str) -> (step: Step<TagOp, Tag>)
        ensures
            step.follows(Plan::Ask(TagOp::Fetching, Command::SelectTagByName(name@))),
    {
        let params = vec![SqlValue::Text(String::from_str(name))];
        assert(params_of(params@) =~= seq![Param::Text(name@)]);
        Step::Ask(
            TagOp::Fetching,
            crate::commands::fixed_request(SELECT_TAG_BY_NAME, params, Expect::Tags),
        )
    }

    /// Asks whether a tag bears a name, leaving out of account the tag
    /// `exclude_id` where one is given.
    pub fn name_exists(&self, name: &str, exclude_id: Option<Id>) -> (step: Step<NameCheck, bool>)
        ensures
            step.follows(
                Plan::Ask(
                    NameCheck {  },
                    Command::CountTagsNamed { name: name@, exclude: exclude_id },
                ),
            ),
    {
        Step::Ask(NameCheck {  }, count_tags_named_request(String::from_str(name), exclude_id))
    }

    /// Lists all tags by name.
    pub fn list(&self) -> (step: Step<TagList, Vec<Tag>>)
        ensures
            step.follows(Plan::Ask(TagList {  }, Command::SelectTags)),
    {
        Step::Ask(TagList {  }, plain_request(SELECT_TAGS, Expect::Tags))
    }

    /// Lists all tags by name, each with the number of tickets that bear it,
    /// which is zero for a tag that no ticket bears.
    pub fn list_with_counts(&self) -> (step: Step<TagCounts, Vec<TagWithCount>>)
        ensures
            step.follows(Plan::Ask(TagCounts {  }, Command::SelectTagsWithCounts)),
    {
        Step::Ask(TagCounts {  }, plain_request(SELECT_TAGS_WITH_COUNTS, Expect::CountedTags))
    }

    /// How the change of a tag starts, given the time of the change: with
    /// the count of the other tags that bear the new name where a name is
    /// given, and with the change itself where none is.
    pub open spec fn updating(id: Id, request: UpdateTagRequest, now: Timestamp) -> Plan<TagOp, Tag> {
        match request.name {
            Some(name) => Plan::Ask(
                TagOp::UpdateChecking { id, name, color: request.color, now },
                Command::CountTagsNamed { name: name@, exclude: Some(id) },
            ),
            None => Plan::Ask(
                TagOp::Fetching,
                Command::UpdateTag { id, name: None, color: text_of(request.color), now },
            ),
        }
    }

    /// Starts the change of a tag at a given time.
    pub fn update_at(&self, id: Id, request: UpdateTagRequest, now: Timestamp) -> (step: Step<
        TagOp,
        Tag,
    >)
        ensures
            step.follows(Self::updating(id, request, now)),
    {
        match request.name {
            Some(name) => {
                let check = count_tags_named_request(name.clone(), Some(id));
                Step::Ask(TagOp::UpdateChecking { id, name, color: request.color, now }, check)
            },
            None => Step::Ask(TagOp::Fetching, update_tag_request(id, None, request.color, now)),
        }
    }

    /// Starts the change of a tag at the present time.
    pub fn update(&self, id: Id, request: UpdateTagRequest) -> (step: Step<TagOp, Tag>)
        ensures
            exists|now: Timestamp| #[trigger] step.follows(Self::updating(id, request, now)),
    {
        let now = current_time();
        self.update_at(id, request, now)
    }

    /// Starts the removal of a tag: it is taken off all tickets first.
    pub fn delete(&self, id: Id) -> (step: Step<TagDelete, ()>)
        ensures
            step.follows(Plan::Ask(TagDelete::Detaching { id }, Command::DeleteTagLinks(id))),
    {
        Step::Ask(
            TagDelete::Detaching { id },
            request_by_id(DELETE_TAG_LINKS, id, Expect::Affected),
        )
    }

    /// How the listing of the tags of a ticket starts.
    pub open spec fn getting_ticket_tags(ticket_id: Id) -> Plan<TagList, Vec<Tag>> {
        Plan::Ask(TagList {  }, Command::SelectTagsOfTicket(ticket_id))
    }

    /// Lists the tags of a ticket by name.
    pub fn get_ticket_tags(&self, ticket_id: Id) -> (step: Step<TagList, Vec<Tag>>)
        ensures
            step.follows(Self::getting_ticket_tags(ticket_id)),
    {
        Step::Ask(TagList {  }, request_by_id(SELECT_TAGS_OF_TICKET, ticket_id, Expect::Tags))
    }

    /// Lists the tags whose name contains a term, whatever the case of its
    /// letters, by name and up to twenty of them.
    pub fn search(&self, term: &str) -> (step: Step<TagList, Vec<Tag>>)
        ensures
            step.follows(
                Plan::Ask(
                    TagList {  },
                    Command::SearchTags { pattern: contains_pattern(term@), limit: TAG_SEARCH_LIMIT },
                ),
            ),
    {
        Step::Ask(
            TagList {  },
            search_request(SEARCH_TAGS, search_pattern(term), TAG_SEARCH_LIMIT, Expect::Tags),
        )
    }

    /// Lists the tags that a ticket bears at all, the most used first, up to
    /// `limit` of them, or ten where no limit is given.
    pub fn get_popular(&self, limit: Option<i64>) -> (step: Step<TagCounts, Vec<TagWithCount>>)
        ensures
            step.follows(
                Plan::Ask(
                    TagCounts {  },
                    Command::SelectPopularTags { limit: popular_limit(limit) },
                ),
            ),
    {
        let limit: i64 = match limit {
            Some(n) => n,
            None => POPULAR_TAGS_DEFAULT,
        };
        Step::Ask(TagCounts {  }, limited_request(SELECT_POPULAR_TAGS, limit, Expect::CountedTags))
    }
}

} // verus!
