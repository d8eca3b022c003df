//! Statements built with sqlx's `QueryBuilder`, and what they hold.

use vstd::prelude::*;
use sqlx::Postgres;
use sqlx::QueryBuilder;
use serde_json::Value;

verus! {

#[verifier::external_type_specification]
#[verifier::external_body]
pub struct ExJsonValue(Value);

/// An argument bound to a statement. The n-th bound argument is the one
/// that the placeholder `$n` of the statement refers to.
pub ghost enum BoundArg {
    Text(Seq<char>),
    Uuid(u128),
    Json(Value),
}

/// A Postgres statement under construction: sqlx's `QueryBuilder`, with
/// the arguments bound so far. The library only makes statements and hands
/// them out; the functions that extend one are private to it, so a builder
/// is never extended after it was built, and it always accepts more
/// fragments and arguments there.
#[verifier::external_body]
pub struct PgQuery {
    pub builder: QueryBuilder<'static, Postgres>,
}

/// The SQL text that the builder holds.
pub uninterp spec fn pg_query_text(q: PgQuery) -> Seq<char>;

/// The arguments that the builder holds, in the order they were bound.
pub uninterp spec fn pg_query_args(q: PgQuery) -> Seq<BoundArg>;

/// The decimal digit of `d` (for `d < 10`).
pub open spec fn digit_char(d: nat) -> char {
    if d == 0 { '0' }
    else if d == 1 { '1' }
    else if d == 2 { '2' }
    else if d == 3 { '3' }
    else if d == 4 { '4' }
    else if d == 5 { '5' }
    else if d == 6 { '6' }
    else if d == 7 { '7' }
    else if d == 8 { '8' }
    else { '9' }
}

/// The decimal notation of `n`, as `Display` writes an unsigned integer.
pub open spec fn decimal(n: nat) -> Seq<char>
    decreases n,
{
    if n < 10 {
        seq![digit_char(n)]
    } else {
        decimal(n / 10).push(digit_char(n % 10))
    }
}

/// The placeholder by which Postgres refers to its `n`-th argument.
pub open spec fn placeholder(n: nat) -> Seq<char> {
    seq!['$'] + decimal(n)
}

/// `QueryBuilder::new`: the builder starts with `init` as its text and no
/// arguments.
#[verifier::external_body]
pub(crate) fn pg_query_new(init: &str) -> (q: PgQuery)
    ensures
        pg_query_text(q) == init@,
        pg_query_args(q) == Seq::<BoundArg>::empty(),
{
    PgQuery { builder: QueryBuilder::new(init.to_string()) }
}

/// `QueryBuilder::push`: appends `sql` to the text; the arguments stay.
#[verifier::external_body]
pub(crate) fn pg_query_push(q: &mut PgQuery, sql: &str)
    ensures
        pg_query_text(*final(q)) == pg_query_text(*old(q)) + sql@,
        pg_query_args(*final(q)) == pg_query_args(*old(q)),
{
    q.builder.push(sql);
}

/// `QueryBuilder::push_bind` with a text value: binds `v` as the next
/// argument and appends its placeholder (`$` and the argument's number) to
/// the text, as Postgres' `format_placeholder` writes it.
#[verifier::external_body]
pub(crate) fn pg_query_push_bind_text(q: &mut PgQuery, v: String)
    ensures
        pg_query_args(*final(q)) == pg_query_args(*old(q)).push(BoundArg::Text(v@)),
        pg_query_text(*final(q)) == pg_query_text(*old(q)) + placeholder(
            pg_query_args(*old(q)).len() + 1,
        ),
{
    q.builder.push_bind(v);
}

/// `QueryBuilder::push_bind` with a UUID (given by its 128-bit value).
#[verifier::external_body]
pub(crate) fn pg_query_push_bind_uuid(q: &mut PgQuery, id: u128)
    ensures
        pg_query_args(*final(q)) == pg_query_args(*old(q)).push(BoundArg::Uuid(id)),
        pg_query_text(*final(q)) == pg_query_text(*old(q)) + placeholder(
            pg_query_args(*old(q)).len() + 1,
        ),
{
    q.builder.push_bind(uuid::Uuid::from_u128(id));
}

/// `QueryBuilder::push_bind` with a JSON value.
#[verifier::external_body]
pub(crate) fn pg_query_push_bind_json(q: &mut PgQuery, v: Value)
    ensures
        pg_query_args(*final(q)) == pg_query_args(*old(q)).push(BoundArg::Json(v)),
        pg_query_text(*final(q)) == pg_query_text(*old(q)) + placeholder(
            pg_query_args(*old(q)).len() + 1,
        ),
{
    q.builder.push_bind(v);
}

} // verus!
