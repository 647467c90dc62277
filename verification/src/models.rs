//! Entities of the ticket tracker and the requests that create and change them.
//!
//! Identifiers are 128-bit values and timestamps count microseconds since the
//! Unix epoch, so every entity is made of plain values.

use vstd::prelude::*;
use vstd::string::*;
use crate::text::same_text;

verus! {

/// Identifier of a ticket, a tag, a comment or a user.
pub type Id = u128;

/// A point in time, in microseconds since the Unix epoch (UTC).
#[derive(Clone, Copy, Debug, PartialEq, Eq, Structural)]
pub struct Timestamp {
    pub micros: i64,
}

/// Where a ticket stands in its life cycle.
#[derive(Clone, Copy, Debug, PartialEq, Eq, Structural)]
pub enum TicketStatus {
    Open,
    InProgress,
    Resolved,
    Closed,
}

impl Default for TicketStatus {
    fn default() -> (status: Self)
        ensures
            status == TicketStatus::Open,
    {
        TicketStatus::Open
    }
}

impl TicketStatus {
    /// The text under which a status is stored and exchanged.
    pub open spec fn text(self) -> Seq<char> {
        match self {
            TicketStatus::Open => "open"@,
            TicketStatus::InProgress => "in_progress"@,
            TicketStatus::Resolved => "resolved"@,
            TicketStatus::Closed => "closed"@,
        }
    }

    /// The status that a text names, if it names one.
    pub open spec fn named_by(text: Seq<char>) -> Option<TicketStatus> {
        if text == "open"@ {
            Some(TicketStatus::Open)
        } else if text == "in_progress"@ {
            Some(TicketStatus::InProgress)
        } else if text == "resolved"@ {
            Some(TicketStatus::Resolved)
        } else if text == "closed"@ {
            Some(TicketStatus::Closed)
        } else {
            None
        }
    }

    pub fn as_str(&self) -> (text: &'static str)
        ensures
            text@ == self.text(),
    {
        match self {
            TicketStatus::Open => "open",
            TicketStatus::InProgress => "in_progress",
            TicketStatus::Resolved => "resolved",
            TicketStatus::Closed => "closed",
        }
    }

    /// Reads a status from its text. Any text outside the four names is refused.
    pub fn parse(text: &str) -> (status: Option<TicketStatus>)
        ensures
            status == TicketStatus::named_by(text@),
    {
        if same_text(text, "open") {
            Some(TicketStatus::Open)
        } else if same_text(text, "in_progress") {
            Some(TicketStatus::InProgress)
        } else if same_text(text, "resolved") {
            Some(TicketStatus::Resolved)
        } else if same_text(text, "closed") {
            Some(TicketStatus::Closed)
        } else {
            None
        }
    }

    /// Every status is read back from its own text, and a text that names a
    /// status is the text of that status.
    pub proof fn lemma_text_round_trip(status: TicketStatus, text: Seq<char>)
        ensures
            TicketStatus::named_by(status.text()) == Some(status),
            TicketStatus::named_by(text) == Some(status) <==> text == status.text(),
    {
        reveal_strlit("open");
        reveal_strlit("in_progress");
        reveal_strlit("resolved");
        reveal_strlit("closed");
        assert("open"@.len() == 4 && "in_progress"@.len() == 11 && "resolved"@.len() == 8
            && "closed"@.len() == 6);
    }
}

/// How urgent a ticket is.
#[derive(Clone, Copy, Debug, PartialEq, Eq, Structural)]
pub enum Priority {
    Low,
    Medium,
    High,
    Urgent,
}

impl Default for Priority {
    fn default() -> (priority: Self)
        ensures
            priority == Priority::Medium,
    {
        Priority::Medium
    }
}

impl Priority {
    /// The text under which a priority is stored and exchanged.
    pub open spec fn text(self) -> Seq<char> {
        match self {
            Priority::Low => "low"@,
            Priority::Medium => "medium"@,
            Priority::High => "high"@,
            Priority::Urgent => "urgent"@,
        }
    }

    /// The priority that a text names, if it names one.
    pub open spec fn named_by(text: Seq<char>) -> Option<Priority> {
        if text == "low"@ {
            Some(Priority::Low)
        } else if text == "medium"@ {
            Some(Priority::Medium)
        } else if text == "high"@ {
            Some(Priority::High)
        } else if text == "urgent"@ {
            Some(Priority::Urgent)
        } else {
            None
        }
    }

    pub fn as_str(&self) -> (text: &'static str)
        ensures
            text@ == self.text(),
    {
        match self {
            Priority::Low => "low",
            Priority::Medium => "medium",
            Priority::High => "high",
            Priority::Urgent => "urgent",
        }
    }

    /// Reads a priority from its text. Any text outside the four names is refused.
    pub fn parse(text: &str) -> (priority: Option<Priority>)
        ensures
            priority == Priority::named_by(text@),
    {
        if same_text(text, "low") {
            Some(Priority::Low)
        } else if same_text(text, "medium") {
            Some(Priority::Medium)
        } else if same_text(text, "high") {
            Some(Priority::High)
        } else if same_text(text, "urgent") {
            Some(Priority::Urgent)
        } else {
            None
        }
    }

    /// Every priority is read back from its own text, and a text that names a
    /// priority is the text of that priority.
    pub proof fn lemma_text_round_trip(priority: Priority, text: Seq<char>)
        ensures
            Priority::named_by(priority.text()) == Some(priority),
            Priority::named_by(text) == Some(priority) <==> text == priority.text(),
    {
        reveal_strlit("low");
        reveal_strlit("medium");
        reveal_strlit("high");
        reveal_strlit("urgent");
        assert("low"@.len() == 3 && "medium"@.len() == 6 && "high"@.len() == 4
            && "urgent"@.len() == 6);
        assert("medium"@[0] == 'm' && "urgent"@[0] == 'u');
    }
}

/// A named, coloured label that can be attached to many tickets.
#[derive(Debug, Clone, PartialEq, Eq)]
pub struct Tag {
    pub id: Id,
    pub name: String,
    pub color: String,
    pub created_at: Timestamp,
    pub updated_at: Timestamp,
}

/// What is needed to create a tag; the colour may be left to the default.
#[derive(Debug, Clone, PartialEq, Eq)]
pub struct CreateTagRequest {
    pub name: String,
    pub color: Option<String>,
}

/// A partial change of a tag: only the fields that are present are written.
#[derive(Debug, Clone, PartialEq, Eq)]
pub struct UpdateTagRequest {
    pub name: Option<String>,
    pub color: Option<String>,
}

/// A trackable unit of work.
#[derive(Debug, Clone, PartialEq, Eq)]
pub struct Ticket {
    pub id: Id,
    pub title: String,
    pub description: Option<String>,
    pub status: TicketStatus,
    pub priority: Priority,
    pub assignee_id: Option<Id>,
    pub reporter_id: Option<Id>,
    pub created_at: Timestamp,
    pub updated_at: Timestamp,
    pub resolved_at: Option<Timestamp>,
}

/// What is needed to create a ticket. A new ticket is open; its priority is
/// medium unless one is given.
#[derive(Debug, Clone, PartialEq, Eq)]
pub struct CreateTicketRequest {
    pub title: String,
    pub description: Option<String>,
    pub priority: Option<Priority>,
    pub assignee_id: Option<Id>,
    pub reporter_id: Option<Id>,
    pub tag_ids: Option<Vec<Id>>,
}

/// A partial change of a ticket: only the fields that are present are written.
/// `tag_ids`, when present, is the full set of tags the ticket is to have.
#[derive(Debug, Clone, PartialEq, Eq)]
pub struct UpdateTicketRequest {
    pub title: Option<String>,
    pub description: Option<String>,
    pub status: Option<TicketStatus>,
    pub priority: Option<Priority>,
    pub assignee_id: Option<Id>,
    pub tag_ids: Option<Vec<Id>>,
}

/// Filter, order and page of a ticket listing.
#[derive(Debug, Clone, PartialEq, Eq)]
pub struct TicketQuery {
    pub status: Option<TicketStatus>,
    pub priority: Option<Priority>,
    pub assignee_id: Option<Id>,
    pub reporter_id: Option<Id>,
    pub tag_id: Option<Id>,
    pub search: Option<String>,
    pub limit: Option<i64>,
    pub offset: Option<i64>,
    pub sort_by: Option<String>,
    pub sort_order: Option<String>,
}

/// A remark on a ticket. It belongs to that ticket alone.
#[derive(Debug, Clone, PartialEq, Eq)]
pub struct Comment {
    pub id: Id,
    pub ticket_id: Id,
    pub author_id: Option<Id>,
    pub content: String,
    pub created_at: Timestamp,
    pub updated_at: Timestamp,
}

/// What is needed to add a comment to a ticket.
#[derive(Debug, Clone, PartialEq, Eq)]
pub struct CreateCommentRequest {
    pub content: String,
    pub author_id: Option<Id>,
}

/// The new content of a comment.
#[derive(Debug, Clone, PartialEq, Eq)]
pub struct UpdateCommentRequest {
    pub content: String,
}

/// A ticket with its tags.
#[derive(Debug, Clone, PartialEq, Eq)]
pub struct TicketWithTags {
    pub ticket: Ticket,
    pub tags: Vec<Tag>,
}

/// A tag with the number of tickets it is attached to.
#[derive(Debug, Clone, PartialEq, Eq)]
pub struct TagWithCount {
    pub tag: Tag,
    pub ticket_count: i64,
}

/// A ticket with its tags and with its comments, oldest first.
#[derive(Debug, Clone, PartialEq, Eq)]
pub struct TicketWithDetails {
    pub ticket: Ticket,
    pub tags: Vec<Tag>,
    pub comments: Vec<Comment>,
}

/// One page of a listing, with the number of rows the whole listing has.
#[derive(Debug, Clone, PartialEq, Eq)]
pub struct PaginatedResponse<T> {
    pub data: Vec<T>,
    pub total: i64,
    pub limit: i64,
    pub offset: i64,
}

impl<T> PaginatedResponse<T> {
    pub fn new(data: Vec<T>, total: i64, limit: i64, offset: i64) -> (page: Self)
        ensures
            page.data == data,
            page.total == total,
            page.limit == limit,
            page.offset == offset,
    {
        PaginatedResponse { data, total, limit, offset }
    }
}

} // verus!
