//! The store as the operations see it: four relations, and what each
//! command does to them and brings back.
//!
//! This is the meaning that the service gives to its commands. The laws of
//! the service are proved of every store that answers in this way; that the
//! statement of a command has this meaning in the database that runs it is
//! what the service relies on, and nothing here proves it.

use vstd::prelude::*;
use crate::commands::{Command, Table, TicketChanges};
use crate::listing::FilterView;
use crate::models::{Comment, Id, Tag, TagWithCount, Ticket, Timestamp};
use crate::store::{Plan, Reply};

verus! {

/// The content of the store.
pub struct Store {
    /// The tags, by identifier.
    pub tags: Map<Id, Tag>,
    /// The tickets, by identifier.
    pub tickets: Map<Id, Ticket>,
    /// The attachments: pairs of a ticket and a tag.
    pub links: Set<(Id, Id)>,
    /// The comments, by identifier.
    pub comments: Map<Id, Comment>,
    /// How the store matches a text against a pattern, whatever the case of
    /// the letters.
    pub like: spec_fn(Seq<char>, Seq<char>) -> bool,
}

/// The value of a text that is given, or else the value there was.
pub open spec fn text_or(given: Option<Seq<char>>, old: Seq<char>) -> Seq<char> {
    match given {
        Some(text) => text,
        None => old,
    }
}

impl Store {
    /// Whether the content is in order: each relation is finite, each row
    /// stands under its own identifier, and no two tags bear the same name.
    pub open spec fn wf(self) -> bool {
        &&& self.tags.dom().finite()
        &&& self.tickets.dom().finite()
        &&& self.links.finite()
        &&& self.comments.dom().finite()
        &&& forall|id: Id| #[trigger] self.tags.contains_key(id) ==> self.tags[id].id == id
        &&& forall|id: Id| #[trigger] self.tickets.contains_key(id) ==> self.tickets[id].id == id
        &&& forall|id: Id| #[trigger]
            self.comments.contains_key(id) ==> self.comments[id].id == id
        &&& forall|a: Id, b: Id|
            #![trigger self.tags[a], self.tags[b]]
            self.tags.contains_key(a) && self.tags.contains_key(b) && self.tags[a].name@
                == self.tags[b].name@ ==> a == b
    }

    /// The tags that bear a name, but for the one left out.
    pub open spec fn tags_named(self, name: Seq<char>, exclude: Option<Id>) -> Set<Id> {
        Set::new(
            |id: Id|
                self.tags.contains_key(id) && self.tags[id].name@ == name && exclude != Some(id),
        )
    }

    /// The tags that are attached to a ticket.
    pub open spec fn tags_of(self, ticket_id: Id) -> Set<Id> {
        Set::new(|tag_id: Id| self.links.contains((ticket_id, tag_id)))
    }

    /// The tickets that a tag is attached to.
    pub open spec fn tickets_of(self, tag_id: Id) -> Set<Id> {
        Set::new(|ticket_id: Id| self.links.contains((ticket_id, tag_id)))
    }

    /// The comments of a ticket.
    pub open spec fn comments_of(self, ticket_id: Id) -> Set<Id> {
        Set::new(
            |id: Id| self.comments.contains_key(id) && self.comments[id].ticket_id == ticket_id,
        )
    }

    /// Whether a filter selects a ticket: every criterion that is present
    /// holds of it.
    pub open spec fn selects(self, filter: FilterView, ticket: Ticket) -> bool {
        &&& filter.status matches Some(status) ==> ticket.status == status
        &&& filter.priority matches Some(priority) ==> ticket.priority == priority
        &&& filter.assignee_id matches Some(id) ==> ticket.assignee_id == Some(id)
        &&& filter.reporter_id matches Some(id) ==> ticket.reporter_id == Some(id)
        &&& filter.pattern matches Some(pattern) ==> ((self.like)(ticket.title@, pattern) || (
        ticket.description matches Some(text) && (self.like)(text@, pattern)))
        &&& filter.tag_ids.len() > 0 ==> exists|i: int|
            0 <= i < filter.tag_ids.len() && #[trigger] self.links.contains(
                (ticket.id, filter.tag_ids[i]),
            )
    }

    /// The tickets that a filter selects.
    pub open spec fn selected(self, filter: FilterView) -> Set<Id> {
        Set::new(
            |id: Id| self.tickets.contains_key(id) && self.selects(filter, self.tickets[id]),
        )
    }

    /// The tags whose name matches a pattern.
    pub open spec fn tags_like(self, pattern: Seq<char>) -> Set<Id> {
        Set::new(|id: Id| self.tags.contains_key(id) && (self.like)(self.tags[id].name@, pattern))
    }

    /// The tickets whose title or description matches a pattern.
    pub open spec fn tickets_like(self, pattern: Seq<char>) -> Set<Id> {
        Set::new(
            |id: Id|
                self.tickets.contains_key(id) && ((self.like)(self.tickets[id].title@, pattern)
                    || (self.tickets[id].description matches Some(text) && (self.like)(
                    text@,
                    pattern,
                ))),
        )
    }
}

/// Whether rows of tags are rows of the store, each once, with identifiers
/// out of a set.
pub open spec fn tag_rows(rows: Seq<Tag>, table: Map<Id, Tag>, wanted: Set<Id>) -> bool {
    &&& forall|i: int|
        0 <= i < rows.len() ==> wanted.contains(#[trigger] rows[i].id) && table.contains_key(
            rows[i].id,
        ) && table[rows[i].id] == rows[i]
    &&& forall|i: int, j: int|
        0 <= i < j < rows.len() ==> #[trigger] rows[i].id != #[trigger] rows[j].id
}

/// Whether rows of tags are the rows of the store with identifiers out of
/// a set, each once and none missing.
pub open spec fn all_tag_rows(rows: Seq<Tag>, table: Map<Id, Tag>, wanted: Set<Id>) -> bool {
    &&& tag_rows(rows, table, wanted)
    &&& forall|id: Id|
        wanted.contains(id) && table.contains_key(id) ==> exists|i: int|
            0 <= i < rows.len() && #[trigger] rows[i].id == id
}

/// Whether rows of tickets are rows of the store, each once, with
/// identifiers out of a set.
pub open spec fn ticket_rows(rows: Seq<Ticket>, table: Map<Id, Ticket>, wanted: Set<Id>) -> bool {
    &&& forall|i: int|
        0 <= i < rows.len() ==> wanted.contains(#[trigger] rows[i].id) && table.contains_key(
            rows[i].id,
        ) && table[rows[i].id] == rows[i]
    &&& forall|i: int, j: int|
        0 <= i < j < rows.len() ==> #[trigger] rows[i].id != #[trigger] rows[j].id
}

/// Whether rows of comments are the rows of the store with identifiers out
/// of a set, each once and none missing.
pub open spec fn all_comment_rows(rows: Seq<Comment>, table: Map<Id, Comment>, wanted: Set<Id>) -> bool {
    &&& forall|i: int|
        0 <= i < rows.len() ==> wanted.contains(#[trigger] rows[i].id) && table.contains_key(
            rows[i].id,
        ) && table[rows[i].id] == rows[i]
    &&& forall|i: int, j: int|
        0 <= i < j < rows.len() ==> #[trigger] rows[i].id != #[trigger] rows[j].id
    &&& forall|id: Id|
        wanted.contains(id) && table.contains_key(id) ==> exists|i: int|
            0 <= i < rows.len() && #[trigger] rows[i].id == id
}

/// Whether rows of tags with counts are rows of the store, each once, with
/// identifiers out of a set, and each with the number of tickets that bear
/// the tag.
pub open spec fn counted_rows(rows: Seq<TagWithCount>, store: Store, wanted: Set<Id>) -> bool {
    &&& forall|i: int|
        0 <= i < rows.len() ==> wanted.contains(#[trigger] rows[i].tag.id)
            && store.tags.contains_key(rows[i].tag.id) && store.tags[rows[i].tag.id]
            == rows[i].tag && rows[i].ticket_count == store.tickets_of(rows[i].tag.id).len()
    &&& forall|i: int, j: int|
        0 <= i < j < rows.len() ==> #[trigger] rows[i].tag.id != #[trigger] rows[j].tag.id
}

/// Whether a list is no longer than a limit; a limit below zero is none
/// that the store accepts.
pub open spec fn within(length: nat, limit: i64) -> bool {
    0 <= limit && length <= limit
}

/// Whether a ticket is the one that a change makes of another.
pub open spec fn changed_ticket(new: Ticket, old: Ticket, changes: TicketChanges, now: Timestamp) -> bool {
    &&& new.id == old.id
    &&& new.title@ == text_or(changes.title, old.title@)
    &&& match changes.description {
        Some(text) => new.description matches Some(d) && d@ == text,
        None => new.description == old.description,
    }
    &&& new.status == match changes.status {
        Some(status) => status,
        None => old.status,
    }
    &&& new.priority == match changes.priority {
        Some(priority) => priority,
        None => old.priority,
    }
    &&& new.assignee_id == match changes.assignee_id {
        Some(id) => Some(id),
        None => old.assignee_id,
    }
    &&& new.reporter_id == old.reporter_id
    &&& new.created_at == old.created_at
    &&& new.updated_at == now
    &&& new.resolved_at == old.resolved_at
}

impl Store {
    /// Whether the store, asked a command, may give a reply and be left
    /// with a content.
    ///
    /// The store may fail at any time, and a statement that fails changes
    /// nothing. A statement that does not fail does what its command says.
    /// It cannot but fail where it would store a second row under an
    /// identifier or a second tag under a name, and where a page has a
    /// limit or an offset below zero.
    pub open spec fn answers(self, command: Command, reply: Reply, after: Store) -> bool {
        if reply is Failed {
            after == self
        } else {
            match command {
                Command::InsertTag { id, name, color, now } => {
                    &&& !self.tags.contains_key(id)
                    &&& self.tags_named(name, None) == Set::<Id>::empty()
                    &&& reply matches Reply::Tags(rows)
                    &&& rows@.len() == 1
                    &&& rows@[0].id == id
                    &&& rows@[0].name@ == name
                    &&& rows@[0].color@ == color
                    &&& rows@[0].created_at == now
                    &&& rows@[0].updated_at == now
                    &&& after == Store { tags: self.tags.insert(id, rows@[0]), ..self }
                },
                Command::SelectTagById(id) => {
                    &&& after == self
                    &&& reply matches Reply::Tags(rows)
                    &&& rows@ == if self.tags.contains_key(id) {
                        seq![self.tags[id]]
                    } else {
                        Seq::empty()
                    }
                },
                Command::SelectTagByName(name) => {
                    &&& after == self
                    &&& reply matches Reply::Tags(rows)
                    &&& all_tag_rows(rows@, self.tags, self.tags_named(name, None))
                },
                Command::CountTagsNamed { name, exclude } => {
                    &&& after == self
                    &&& reply matches Reply::Count(n)
                    &&& n == self.tags_named(name, exclude).len()
                },
                Command::SelectTags => {
                    &&& after == self
                    &&& reply matches Reply::Tags(rows)
                    &&& all_tag_rows(rows@, self.tags, self.tags.dom())
                },
                Command::SelectTagsWithCounts => {
                    &&& after == self
                    &&& reply matches Reply::CountedTags(rows)
                    &&& counted_rows(rows@, self, self.tags.dom())
                    &&& rows@.len() == self.tags.dom().len()
                },
                Command::SelectPopularTags { limit } => {
                    &&& after == self
                    &&& reply matches Reply::CountedTags(rows)
                    &&& counted_rows(rows@, self, self.tags.dom())
                    &&& forall|i: int| 0 <= i < rows@.len() ==> (#[trigger] rows@[i]).ticket_count > 0
                    &&& within(rows@.len(), limit)
                },
                Command::SelectTagsOfTicket(ticket_id) => {
                    &&& after == self
                    &&& reply matches Reply::Tags(rows)
                    &&& all_tag_rows(rows@, self.tags, self.tags_of(ticket_id))
                },
                Command::SearchTags { pattern, limit } => {
                    &&& after == self
                    &&& reply matches Reply::Tags(rows)
                    &&& tag_rows(rows@, self.tags, self.tags_like(pattern))
                    &&& within(rows@.len(), limit)
                },
                Command::UpdateTag { id, name, color, now } => {
                    &&& reply matches Reply::Tags(rows)
                    &&& if self.tags.contains_key(id) {
                        &&& name matches Some(n) ==> self.tags_named(n, Some(id)) == Set::<
                            Id,
                        >::empty()
                        &&& rows@.len() == 1
                        &&& rows@[0].id == id
                        &&& rows@[0].name@ == text_or(name, self.tags[id].name@)
                        &&& rows@[0].color@ == text_or(color, self.tags[id].color@)
                        &&& rows@[0].created_at == self.tags[id].created_at
                        &&& rows@[0].updated_at == now
                        &&& after == Store { tags: self.tags.insert(id, rows@[0]), ..self }
                    } else {
                        rows@.len() == 0 && after == self
                    }
                },
                Command::DeleteTagLinks(tag_id) => {
                    &&& reply is Affected
                    &&& after == Store {
                        links: self.links.filter(|link: (Id, Id)| link.1 != tag_id),
                        ..self
                    }
                },
                Command::DeleteTag(id) => {
                    &&& reply matches Reply::Affected(n)
                    &&& n == if self.tags.contains_key(id) {
                        1u64
                    } else {
                        0u64
                    }
                    &&& after == Store { tags: self.tags.remove(id), ..self }
                },
                Command::InsertTicket {
                    id,
                    title,
                    description,
                    status,
                    priority,
                    assignee_id,
                    reporter_id,
                    now,
                } => {
                    &&& !self.tickets.contains_key(id)
                    &&& reply matches Reply::Tickets(rows)
                    &&& rows@.len() == 1
                    &&& rows@[0].id == id
                    &&& rows@[0].title@ == title
                    &&& match description {
                        Some(text) => rows@[0].description matches Some(d) && d@ == text,
                        None => rows@[0].description is None,
                    }
                    &&& rows@[0].status == status
                    &&& rows@[0].priority == priority
                    &&& rows@[0].assignee_id == assignee_id
                    &&& rows@[0].reporter_id == reporter_id
                    &&& rows@[0].created_at == now
                    &&& rows@[0].updated_at == now
                    &&& rows@[0].resolved_at is None
                    &&& after == Store { tickets: self.tickets.insert(id, rows@[0]), ..self }
                },
                Command::SelectTicketById(id) => {
                    &&& after == self
                    &&& reply matches Reply::Tickets(rows)
                    &&& rows@ == if self.tickets.contains_key(id) {
                        seq![self.tickets[id]]
                    } else {
                        Seq::empty()
                    }
                },
                Command::SearchTickets { pattern, limit } => {
                    &&& after == self
                    &&& reply matches Reply::Tickets(rows)
                    &&& ticket_rows(rows@, self.tickets, self.tickets_like(pattern))
                    &&& within(rows@.len(), limit)
                },
                Command::UpdateTicket { id, changes, now } => {
                    &&& reply matches Reply::Tickets(rows)
                    &&& if self.tickets.contains_key(id) {
                        &&& rows@.len() == 1
                        &&& changed_ticket(rows@[0], self.tickets[id], changes, now)
                        &&& after == Store { tickets: self.tickets.insert(id, rows@[0]), ..self }
                    } else {
                        rows@.len() == 0 && after == self
                    }
                },
                Command::AttachTag { ticket_id, tag_id } => {
                    &&& reply is Affected
                    &&& after == Store { links: self.links.insert((ticket_id, tag_id)), ..self }
                },
                Command::AttachTags { ticket_id, tag_ids } => {
                    &&& reply is Affected
                    &&& after == Store {
                        links: self.links.union(
                            Set::new(
                                |link: (Id, Id)| link.0 == ticket_id && tag_ids.contains(link.1),
                            ),
                        ),
                        ..self
                    }
                },
                Command::DetachTag { ticket_id, tag_id } => {
                    &&& reply is Affected
                    &&& after == Store { links: self.links.remove((ticket_id, tag_id)), ..self }
                },
                Command::DeleteTicketLinks(ticket_id) => {
                    &&& reply is Affected
                    &&& after == Store {
                        links: self.links.filter(|link: (Id, Id)| link.0 != ticket_id),
                        ..self
                    }
                },
                Command::DeleteTicketComments(ticket_id) => {
                    &&& reply is Affected
                    &&& after == Store {
                        comments: self.comments.remove_keys(self.comments_of(ticket_id)),
                        ..self
                    }
                },
                Command::DeleteTicket(id) => {
                    &&& reply matches Reply::Affected(n)
                    &&& n == if self.tickets.contains_key(id) {
                        1u64
                    } else {
                        0u64
                    }
                    &&& after == Store { tickets: self.tickets.remove(id), ..self }
                },
                Command::CountTickets(filter) => {
                    &&& after == self
                    &&& reply matches Reply::Count(n)
                    &&& n == self.selected(filter).len()
                },
                Command::SelectPage(listing) => {
                    &&& after == self
                    &&& 0 <= listing.offset
                    &&& reply matches Reply::Tickets(rows)
                    &&& ticket_rows(rows@, self.tickets, self.selected(listing.filter))
                    &&& within(rows@.len(), listing.limit)
                },
                Command::InsertComment { id, ticket_id, author_id, content, now } => {
                    &&& !self.comments.contains_key(id)
                    &&& reply matches Reply::Comments(rows)
                    &&& rows@.len() == 1
                    &&& rows@[0].id == id
                    &&& rows@[0].ticket_id == ticket_id
                    &&& rows@[0].author_id == author_id
                    &&& rows@[0].content@ == content
                    &&& rows@[0].created_at == now
                    &&& rows@[0].updated_at == now
                    &&& after == Store { comments: self.comments.insert(id, rows@[0]), ..self }
                },
                Command::SelectCommentsOfTicket(ticket_id) => {
                    &&& after == self
                    &&& reply matches Reply::Comments(rows)
                    &&& all_comment_rows(rows@, self.comments, self.comments_of(ticket_id))
                },
                Command::CountRows(table) => {
                    &&& after == self
                    &&& reply matches Reply::Count(n)
                    &&& n == match table {
                        Table::Tickets => self.tickets.dom().len(),
                        Table::Tags => self.tags.dom().len(),
                        Table::TicketTags => self.links.len(),
                        Table::Comments => self.comments.dom().len(),
                    }
                },
                Command::CountUnusedTags => after == self && reply is Count,
                Command::SelectMostUsedTags { limit } => after == self && reply is CountedTags,
                Command::CountTicketsByStatus { assignee_id } => after == self
                    && reply is StatusCounts,
                Command::CountTicketsByPriority { assignee_id } => after == self
                    && reply is PriorityCounts,
                Command::Ping => after == self && reply is Affected,
                Command::CreateIndex(_) => after == self && reply is Affected,
                Command::Analyze(_) => after == self && reply is Affected,
            }
        }
    }
}

/// Whether an operation, run against a store from one of its moves on,
/// may end with a result and leave the store with a content: the store
/// answers each command that the operation asks, at most `steps` of them,
/// until the operation is done.
pub open spec fn runs<S, T>(
    plan: Plan<S, T>,
    next: spec_fn(S, Reply) -> Plan<S, T>,
    store: Store,
    steps: nat,
    result: Result<T, crate::error::ErrorView>,
    after: Store,
) -> bool
    decreases steps,
{
    match plan {
        Plan::Done(ended) => ended == result && after == store,
        Plan::Ask(state, command) => steps > 0 && exists|reply: Reply, mid: Store|
            #[trigger] store.answers(command, reply, mid) && runs(
                next(state, reply),
                next,
                mid,
                (steps - 1) as nat,
                result,
                after,
            ),
    }
}

} // verus!
