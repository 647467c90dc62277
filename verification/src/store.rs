//! The exchange with the relational store. The service never talks to the
//! store itself: an operation hands out a request, is given the store's reply,
//! and either hands out the next request or ends with its result.

use vstd::prelude::*;
use crate::commands::{render, Command};
use crate::error::{outcome, AppError, ErrorView};
use crate::models::{Comment, Priority, Tag, TagWithCount, Ticket, TicketStatus};
use crate::sql::{Statement, StatementView};

verus! {

/// What a statement is expected to bring back.
#[derive(Clone, Copy, Debug, PartialEq, Eq, Structural)]
pub enum Expect {
    /// Nothing but the number of rows it changed.
    Affected,
    /// One row with one integer.
    Count,
    /// Rows of tags.
    Tags,
    /// Rows of tags, each with the number of tickets it is attached to.
    CountedTags,
    /// Rows of tickets.
    Tickets,
    /// Rows of comments.
    Comments,
    /// Rows of a status and the number of tickets in it.
    StatusCounts,
    /// Rows of a priority and the number of tickets of it.
    PriorityCounts,
}

/// A statement to run, and what to read from its result.
#[derive(Debug, Clone, PartialEq, Eq)]
pub struct Request {
    pub statement: Statement,
    pub expect: Expect,
}

/// A request with its statement as a view.
pub struct RequestView {
    pub statement: StatementView,
    pub expect: Expect,
}

impl View for Request {
    type V = RequestView;

    open spec fn view(&self) -> RequestView {
        RequestView { statement: self.statement@, expect: self.expect }
    }
}

/// The number of tickets in a status.
#[derive(Clone, Copy, Debug, PartialEq, Eq, Structural)]
pub struct StatusCount {
    pub status: TicketStatus,
    pub count: i64,
}

/// The number of tickets of a priority.
#[derive(Clone, Copy, Debug, PartialEq, Eq, Structural)]
pub struct PriorityCount {
    pub priority: Priority,
    pub count: i64,
}

/// What the store answered to a request.
#[derive(Debug, Clone, PartialEq, Eq)]
pub enum Reply {
    Affected(u64),
    Count(i64),
    Tags(Vec<Tag>),
    CountedTags(Vec<TagWithCount>),
    Tickets(Vec<Ticket>),
    Comments(Vec<Comment>),
    StatusCounts(Vec<StatusCount>),
    PriorityCounts(Vec<PriorityCount>),
    /// The store failed; the text is its own account of the failure.
    Failed(String),
}

/// The next move of an operation: a request to the store together with the
/// state in which the operation waits for the reply, or the result.
#[derive(Debug)]
pub enum Step<F, T> {
    Ask(F, Request),
    Done(Result<T, AppError>),
}

/// What the next move of an operation is to be: a command for the store and
/// the state in which to wait for the reply, or the result.
pub enum Plan<S, T> {
    Ask(S, Command),
    Done(Result<T, ErrorView>),
}

impl<F: View, T> Step<F, T> {
    /// Whether a move is the one planned: it waits in the planned state and
    /// hands out the statement that carries out the planned command, or it
    /// ends with the planned result.
    pub open spec fn follows(self, plan: Plan<F::V, T>) -> bool {
        match self {
            Step::Ask(state, request) => plan matches Plan::Ask(planned, command) && state@
                == planned && request@ == render(command),
            Step::Done(result) => plan matches Plan::Done(expected) && outcome(result)
                == expected,
        }
    }
}

impl<F: View, T: View> Step<F, T> {
    /// Whether a move is the one planned, for an operation whose result is
    /// planned as a view: as `follows`, but a result is held against the
    /// planned one by its view.
    pub open spec fn mirrors(self, plan: Plan<F::V, T::V>) -> bool {
        match self {
            Step::Ask(state, request) => plan matches Plan::Ask(planned, command) && state@
                == planned && request@ == render(command),
            Step::Done(Ok(value)) => plan matches Plan::Done(Ok(expected)) && value@ == expected,
            Step::Done(Err(error)) => plan matches Plan::Done(Err(expected)) && error@ == expected,
        }
    }
}

/// The message of the failure that a reply of an unexpected kind stands for.
pub open spec fn unexpected_reply_message() -> Seq<char> {
    "unexpected reply from the store"@
}

/// The failure of a reply that holds no row where one is due, or that is of
/// another kind than the one awaited.
pub open spec fn unexpected_reply() -> ErrorView {
    ErrorView::Internal(unexpected_reply_message())
}

impl Reply {
    /// The failure that a reply stands for where it is not of the awaited
    /// kind: a failure of the store with its detail, or an inner failure.
    pub open spec fn failure(self) -> ErrorView {
        match self {
            Reply::Failed(detail) => ErrorView::Database(detail@),
            _ => unexpected_reply(),
        }
    }

    /// Turns a reply that is not of the awaited kind into its failure.
    pub fn into_failure(self) -> (error: AppError)
        ensures
            error@ == self.failure(),
    {
        match self {
            Reply::Failed(detail) => AppError::Database(detail),
            _ => AppError::internal("unexpected reply from the store"),
        }
    }
}

} // verus!
