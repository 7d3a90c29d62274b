//! What is sent to the store: the statements that write a partial update.
//! Sending them is the caller's part.

pub mod event;
pub mod user;

use vstd::prelude::*;
use crate::service::auth::jwt::StoreReply;
use crate::text::{decimal, decimal_digits};

verus! {

/// An update of one record: the text of the statement, the values of its
/// parameters in their order, and last the identifier of the record.
#[derive(Debug)]
pub struct Statement {
    pub sql: String,
    pub values: Vec<String>,
    pub id: u128,
}

/// The mathematical value of [`Statement`].
pub struct StatementView {
    pub sql: Seq<char>,
    pub values: Seq<Seq<char>>,
    pub id: u128,
}

impl DeepView for Statement {
    type V = StatementView;

    open spec fn deep_view(&self) -> StatementView {
        self@
    }
}

impl View for Statement {
    type V = StatementView;

    open spec fn view(&self) -> StatementView {
        StatementView { sql: self.sql@, values: self.values.deep_view(), id: self.id }
    }
}

/// The assignments of the first `count` columns to the parameters `$1`,
/// `$2` and so on, separated by commas.
pub open spec fn assignments(fields: Seq<(Seq<char>, Seq<char>)>, count: nat) -> Seq<char>
    decreases count,
{
    if count == 0 {
        Seq::empty()
    } else {
        let separator = if count == 1 {
            Seq::empty()
        } else {
            ", "@
        };
        assignments(fields, (count - 1) as nat) + separator + fields[count - 1].0 + " = $"@
            + decimal_digits(count)
    }
}

/// The statement that writes `fields` to the record of `table` that the last
/// parameter identifies.
pub open spec fn update_sql(table: Seq<char>, fields: Seq<(Seq<char>, Seq<char>)>) -> Seq<char> {
    "UPDATE "@ + table + " SET "@ + assignments(fields, fields.len()) + " WHERE id = $"@
        + decimal_digits(fields.len() + 1)
}

/// The values of `fields`, in their order.
pub open spec fn field_values(fields: Seq<(Seq<char>, Seq<char>)>) -> Seq<Seq<char>> {
    Seq::new(fields.len(), |i: int| fields[i].1)
}

/// The update of the record `id` of `table` that writes `fields`.
pub open spec fn update_of(table: Seq<char>, id: u128, fields: Seq<(Seq<char>, Seq<char>)>) -> StatementView {
    StatementView { sql: update_sql(table, fields), values: field_values(fields), id }
}

/// What stands at the start of a write: the statement to send, where one is
/// planned, or else the answer that holds without asking the store, that no
/// record was written.
pub open spec fn to_be_sent(statement: Option<StatementView>) -> Result<StatementView, StoreReply> {
    match statement {
        Some(planned) => Ok(planned),
        None => Err(StoreReply::Written(0)),
    }
}

/// The view of a statement to send, or of the answer that holds without it.
pub open spec fn send_view(r: Result<Statement, StoreReply>) -> Result<StatementView, StoreReply> {
    match r {
        Ok(statement) => Ok(statement@),
        Err(reply) => Err(reply),
    }
}

/// Starts a write: gives the statement to send to the store, or, where none
/// is planned, the answer that no record was written, with nothing sent.
pub fn to_send(statement: Option<Statement>) -> (r: Result<Statement, StoreReply>)
    ensures
        send_view(r) == to_be_sent(statement.deep_view()),
{
    match statement {
        Some(planned) => Ok(planned),
        None => Err(StoreReply::Written(0)),
    }
}

/// Builds the update of the record `id` of `table` that writes `fields`.
pub fn update_statement(table: &str, id: u128, fields: &Vec<(String, String)>) -> (statement: Statement)
    requires
        fields.len() < u64::MAX,
    ensures
        statement@ == update_of(table@, id, fields.deep_view()),
{
    let ghost columns = fields.deep_view();
    let mut sql = String::from_str("UPDATE ").concat(table).concat(" SET ");
    let mut values: Vec<String> = Vec::new();
    let mut i: usize = 0;
    assert(values.deep_view() =~= field_values(columns).take(0));
    assert(sql@ =~= "UPDATE "@ + table@ + " SET "@ + assignments(columns, 0));
    while i < fields.len()
        invariant
            columns == fields.deep_view(),
            fields.len() < u64::MAX,
            i <= fields.len(),
            sql@ == "UPDATE "@ + table@ + " SET "@ + assignments(columns, i as nat),
            values.deep_view() == field_values(columns).take(i as int),
        decreases fields.len() - i,
    {
        let ghost before = sql@;
        let ghost stored = values.deep_view();
        if i > 0 {
            sql.append(", ");
        }
        let field = &fields[i];
        sql.append(field.0.as_str());
        sql.append(" = $");
        sql.append(decimal((i + 1) as u64).as_str());
        values.push(field.1.clone());
        proof {
            assert(columns[i as int] == (field.0@, field.1@));
            let separator = if i == 0 {
                Seq::<char>::empty()
            } else {
                ", "@
            };
            assert(sql@ =~= before + (separator + field.0@ + " = $"@ + decimal_digits((i + 1) as nat)));
            assert(assignments(columns, (i + 1) as nat) =~= assignments(columns, i as nat) + (separator
                + field.0@ + " = $"@ + decimal_digits((i + 1) as nat)));
            assert(sql@ =~= "UPDATE "@ + table@ + " SET "@ + assignments(columns, (i + 1) as nat));
            assert(values.deep_view() =~= stored.push(field.1@));
            assert(values.deep_view() =~= field_values(columns).take(i + 1));
        }
        i += 1;
    }
    sql.append(" WHERE id = $");
    sql.append(decimal(fields.len() as u64 + 1).as_str());
    assert(values.deep_view() =~= field_values(columns));
    assert(sql@ =~= update_sql(table@, columns));
    Statement { sql, values, id }
}

} // verus!
