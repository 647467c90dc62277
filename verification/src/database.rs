//! The settings of the store, its state of health and the number of rows it
//! holds.

use vstd::prelude::*;
use vstd::string::*;
use crate::commands::{plain_request, text_of, Command, Table, PING};
use crate::config::{number_of, parse_number};
use crate::store::{Expect, Plan, Reply, Step};

verus! {

/// How many connections to the store are kept where no number is set.
pub const DEFAULT_MAX_CONNECTIONS: u32 = 10;

/// Where the store is and how many connections to it are kept.
#[derive(Debug, Clone, PartialEq, Eq)]
pub struct DatabaseConfig {
    pub url: String,
    pub max_connections: u32,
}

/// Why the settings of the store cannot be made.
#[derive(Clone, Copy, Debug, PartialEq, Eq, Structural)]
pub enum ConfigError {
    /// The address of the store is not set.
    MissingUrl,
    /// The number of connections is no number.
    InvalidMaxConnections,
}

impl ConfigError {
    pub open spec fn text(self) -> Seq<char> {
        match self {
            ConfigError::MissingUrl => "DATABASE_URL 环境变量未设置"@,
            ConfigError::InvalidMaxConnections => "DATABASE_MAX_CONNECTIONS 必须是有效的数字"@,
        }
    }

    /// The sentence that reports the error.
    pub fn message(&self) -> (text: &'static str)
        ensures
            text@ == self.text(),
    {
        match self {
            ConfigError::MissingUrl => "DATABASE_URL 环境变量未设置",
            ConfigError::InvalidMaxConnections => "DATABASE_MAX_CONNECTIONS 必须是有效的数字",
        }
    }
}

/// The number of connections that the text of a setting denotes: the
/// default where the setting is absent, none where it denotes no number.
pub open spec fn max_connections_of(text: Option<Seq<char>>) -> Option<u32> {
    match text {
        Some(t) => match number_of(t, u32::MAX as nat) {
            Some(n) => Some(n as u32),
            None => None,
        },
        None => Some(DEFAULT_MAX_CONNECTIONS),
    }
}

impl DatabaseConfig {
    /// Makes the settings of the store from the texts of its two settings,
    /// as far as they are set. The address must be set; the number of
    /// connections must be a number where it is set.
    pub fn from_values(url: Option<String>, max_connections: Option<String>) -> (result: Result<
        DatabaseConfig,
        ConfigError,
    >)
        ensures
            match url {
                None => result == Err::<DatabaseConfig, ConfigError>(ConfigError::MissingUrl),
                Some(address) => match max_connections_of(text_of(max_connections)) {
                    None => result == Err::<DatabaseConfig, ConfigError>(
                        ConfigError::InvalidMaxConnections,
                    ),
                    Some(n) => result == Ok::<DatabaseConfig, ConfigError>(
                        DatabaseConfig { url: address, max_connections: n },
                    ),
                },
            },
    {
        let url = match url {
            Some(address) => address,
            None => {
                return Err(ConfigError::MissingUrl);
            },
        };
        let max_connections: u32 = match max_connections {
            Some(text) => match parse_number(text.as_str(), 0xffff_ffff) {
                Some(n) => n as u32,
                None => {
                    return Err(ConfigError::InvalidMaxConnections);
                },
            },
            None => DEFAULT_MAX_CONNECTIONS,
        };
        Ok(DatabaseConfig { url, max_connections })
    }
}

/// How many tickets, tags and comments the store holds.
#[derive(Clone, Copy, Debug, PartialEq, Eq, Structural)]
pub struct DatabaseStats {
    pub tickets_count: i64,
    pub tags_count: i64,
    pub comments_count: i64,
}

/// The check of the store's health.
#[derive(Debug)]
pub struct HealthOp {}

impl View for HealthOp {
    type V = HealthOp;

    open spec fn view(&self) -> HealthOp {
        *self
    }
}

/// Whether a reply shows that the store is there: any reply but a failure.
pub open spec fn shows_health(reply: Reply) -> bool {
    !(reply is Failed)
}

/// Tells whether a reply shows that the store is there.
pub fn is_healthy(reply: &Reply) -> (healthy: bool)
    ensures
        healthy == shows_health(*reply),
{
    match reply {
        Reply::Failed(_) => false,
        _ => true,
    }
}

impl HealthOp {
    /// What the check does with the store's reply: the store is healthy
    /// unless it failed.
    pub open spec fn next(self, reply: Reply) -> Plan<HealthOp, bool> {
        Plan::Done(Ok(shows_health(reply)))
    }

    /// Takes the store's reply and ends the check.
    pub fn advance(self, reply: Reply) -> (step: Step<HealthOp, bool>)
        ensures
            step.follows(self.next(reply)),
    {
        Step::Done(Ok(is_healthy(&reply)))
    }
}

/// Checks the health of the store.
pub fn health_check() -> (step: Step<HealthOp, bool>)
    ensures
        step.follows(Plan::Ask(HealthOp {  }, Command::Ping)),
{
    Step::Ask(HealthOp {  }, plain_request(PING, Expect::Affected))
}

/// The counting of the rows of the store.
#[derive(Debug)]
pub enum StatsOp {
    /// Waiting for the number of tickets.
    Tickets { lenient: bool },
    /// Waiting for the number of tags.
    Tags { lenient: bool, tickets_count: i64 },
    /// Waiting for the number of comments.
    Comments { lenient: bool, tickets_count: i64, tags_count: i64 },
}

impl View for StatsOp {
    type V = StatsOp;

    open spec fn view(&self) -> StatsOp {
        *self
    }
}

/// The count that a reply holds; where it holds none, zero for a lenient
/// counting and none for a strict one.
pub open spec fn count_of(reply: Reply, lenient: bool) -> Option<i64> {
    match reply {
        Reply::Count(n) => Some(n),
        _ => if lenient {
            Some(0)
        } else {
            None
        },
    }
}

impl StatsOp {
    /// What the counting does with the store's reply: the count is kept and
    /// the next table counted. A reply without count ends a strict counting
    /// with its failure, and counts as zero in a lenient one.
    pub open spec fn next(self, reply: Reply) -> Plan<StatsOp, DatabaseStats> {
        match self {
            StatsOp::Tickets { lenient } => match count_of(reply, lenient) {
                Some(tickets_count) => Plan::Ask(
                    StatsOp::Tags { lenient, tickets_count },
                    Command::CountRows(Table::Tags),
                ),
                None => Plan::Done(Err(reply.failure())),
            },
            StatsOp::Tags { lenient, tickets_count } => match count_of(reply, lenient) {
                Some(tags_count) => Plan::Ask(
                    StatsOp::Comments { lenient, tickets_count, tags_count },
                    Command::CountRows(Table::Comments),
                ),
                None => Plan::Done(Err(reply.failure())),
            },
            StatsOp::Comments { lenient, tickets_count, tags_count } => match count_of(
                reply,
                lenient,
            ) {
                Some(comments_count) => Plan::Done(
                    Ok(DatabaseStats { tickets_count, tags_count, comments_count }),
                ),
                None => Plan::Done(Err(reply.failure())),
            },
        }
    }

    /// Takes the store's reply and makes the next move.
    pub fn advance(self, reply: Reply) -> (step: Step<StatsOp, DatabaseStats>)
        ensures
            step.follows(self.next(reply)),
    {
        match self {
            StatsOp::Tickets { lenient } => match read_count(reply, lenient) {
                Ok(tickets_count) => Step::Ask(
                    StatsOp::Tags { lenient, tickets_count },
                    plain_request(Table::Tags.count_sql(), Expect::Count),
                ),
                Err(other) => Step::Done(Err(other.into_failure())),
            },
            StatsOp::Tags { lenient, tickets_count } => match read_count(reply, lenient) {
                Ok(tags_count) => Step::Ask(
                    StatsOp::Comments { lenient, tickets_count, tags_count },
                    plain_request(Table::Comments.count_sql(), Expect::Count),
                ),
                Err(other) => Step::Done(Err(other.into_failure())),
            },
            StatsOp::Comments { lenient, tickets_count, tags_count } => match read_count(
                reply,
                lenient,
            ) {
                Ok(comments_count) => Step::Done(
                    Ok(DatabaseStats { tickets_count, tags_count, comments_count }),
                ),
                Err(other) => Step::Done(Err(other.into_failure())),
            },
        }
    }
}

fn read_count(reply: Reply, lenient: bool) -> (result: Result<i64, Reply>)
    ensures
        match result {
            Ok(n) => count_of(reply, lenient) == Some(n),
            Err(other) => count_of(reply, lenient) is None && other == reply,
        },
{
    match reply {
        Reply::Count(n) => Ok(n),
        other => {
            if lenient {
                Ok(0)
            } else {
                Err(other)
            }
        },
    }
}

/// Starts a counting of the rows of the store.
pub fn count_rows(lenient: bool) -> (step: Step<StatsOp, DatabaseStats>)
    ensures
        step.follows(Plan::Ask(StatsOp::Tickets { lenient }, Command::CountRows(Table::Tickets))),
{
    Step::Ask(StatsOp::Tickets { lenient }, plain_request(Table::Tickets.count_sql(), Expect::Count))
}

/// Counts the tickets, tags and comments of the store. A failure of the
/// store ends the counting.
pub fn get_database_stats() -> (step: Step<StatsOp, DatabaseStats>)
    ensures
        step.follows(
            Plan::Ask(StatsOp::Tickets { lenient: false }, Command::CountRows(Table::Tickets)),
        ),
{
    count_rows(false)
}

} // verus!
