//! Statements for the relational store. A statement is a text with numbered
//! placeholders and the values bound to them: no value ever becomes part of
//! the text.

use vstd::prelude::*;
use vstd::string::*;
use crate::models::{Id, Timestamp};
use crate::text::{decimal, decimal_text};

verus! {

/// A value bound to a placeholder of a statement.
#[derive(Debug, Clone, PartialEq, Eq)]
pub enum SqlValue {
    Id(Id),
    Text(String),
    Int(i64),
    Time(Timestamp),
    /// The null value in a column of identifiers.
    NoId,
    /// The null value in a column of text.
    NoText,
}

/// What a bound value is, with its text as a sequence of characters.
pub enum Param {
    Id(Id),
    Text(Seq<char>),
    Int(i64),
    Time(Timestamp),
    NoId,
    NoText,
}

impl View for SqlValue {
    type V = Param;

    open spec fn view(&self) -> Param {
        match *self {
            SqlValue::Id(id) => Param::Id(id),
            SqlValue::Text(text) => Param::Text(text@),
            SqlValue::Int(n) => Param::Int(n),
            SqlValue::Time(at) => Param::Time(at),
            SqlValue::NoId => Param::NoId,
            SqlValue::NoText => Param::NoText,
        }
    }
}

impl SqlValue {
    /// Binds an identifier that may be absent.
    pub fn optional_id(id: Option<Id>) -> (value: SqlValue)
        ensures
            value@ == Param::optional_id(id),
    {
        match id {
            Some(id) => SqlValue::Id(id),
            None => SqlValue::NoId,
        }
    }

    /// Binds a text that may be absent.
    pub fn optional_text(text: Option<String>) -> (value: SqlValue)
        ensures
            value@ == Param::optional_text(
                match text {
                    Some(t) => Some(t@),
                    None => None,
                },
            ),
    {
        match text {
            Some(text) => SqlValue::Text(text),
            None => SqlValue::NoText,
        }
    }
}

impl Param {
    /// An identifier that may be absent, as a bound value.
    pub open spec fn optional_id(id: Option<Id>) -> Param {
        match id {
            Some(id) => Param::Id(id),
            None => Param::NoId,
        }
    }

    /// A text that may be absent, as a bound value.
    pub open spec fn optional_text(text: Option<Seq<char>>) -> Param {
        match text {
            Some(text) => Param::Text(text),
            None => Param::NoText,
        }
    }
}

/// The views of a sequence of bound values.
pub open spec fn params_of(values: Seq<SqlValue>) -> Seq<Param> {
    values.map_values(|value: SqlValue| value@)
}

/// The placeholder that stands for the `n`-th bound value, counted from one.
pub open spec fn placeholder(n: nat) -> Seq<char> {
    seq!['$'] + decimal(n)
}

/// A statement text and the values bound to its placeholders, in order.
#[derive(Debug, Clone, PartialEq, Eq)]
pub struct Statement {
    pub sql: String,
    pub params: Vec<SqlValue>,
}

/// A statement with its text as a sequence of characters and its bound
/// values as their views.
pub struct StatementView {
    pub sql: Seq<char>,
    pub params: Seq<Param>,
}

impl StatementView {
    /// A statement that is a text without bound values.
    pub open spec fn start(text: Seq<char>) -> StatementView {
        StatementView { sql: text, params: Seq::empty() }
    }

    /// The statement with more text at its end.
    pub open spec fn text(self, text: Seq<char>) -> StatementView {
        StatementView { sql: self.sql + text, params: self.params }
    }

    /// The statement with one more bound value, and at the end of its text
    /// the placeholder that stands for that value.
    pub open spec fn bind(self, value: Param) -> StatementView {
        StatementView {
            sql: self.sql + placeholder(self.params.len() + 1),
            params: self.params.push(value),
        }
    }

    /// The statement with the placeholder of its last bound value once more
    /// at the end of its text.
    pub open spec fn again(self) -> StatementView {
        StatementView { sql: self.sql + placeholder(self.params.len()), params: self.params }
    }
}

impl View for Statement {
    type V = StatementView;

    open spec fn view(&self) -> StatementView {
        StatementView { sql: self.sql@, params: params_of(self.params@) }
    }
}

impl Statement {
    /// Starts a statement with a text and no bound value.
    pub fn new(text: &str) -> (statement: Statement)
        ensures
            statement@ == StatementView::start(text@),
    {
        let statement = Statement { sql: String::from_str(text), params: Vec::new() };
        assert(statement@.params =~= Seq::<Param>::empty());
        statement
    }

    /// Appends text to the statement.
    pub fn push(&mut self, text: &str)
        ensures
            final(self)@ == old(self)@.text(text@),
    {
        self.sql.append(text);
    }

    /// Binds a value and appends the placeholder that stands for it.
    pub fn push_bind(&mut self, value: SqlValue)
        ensures
            final(self)@ == old(self)@.bind(value@),
    {
        let position: u128 = self.params.len() as u128 + 1;
        self.params.push(value);
        self.sql.append("$");
        self.sql.append(decimal_text(position).as_str());
        proof {
            reveal_strlit("$");
            assert(self@.sql =~= old(self)@.sql + placeholder(position as nat));
            assert(self@.params =~= old(self)@.params.push(value@));
        }
    }

    /// Appends once more the placeholder of the value bound last, for a value
    /// that the text uses twice.
    pub fn push_again(&mut self)
        requires
            old(self)@.params.len() > 0,
        ensures
            final(self)@ == old(self)@.again(),
    {
        let position: u128 = self.params.len() as u128;
        self.sql.append("$");
        self.sql.append(decimal_text(position).as_str());
        proof {
            reveal_strlit("$");
            assert(self@.sql =~= old(self)@.sql + placeholder(position as nat));
        }
    }
}

} // verus!
