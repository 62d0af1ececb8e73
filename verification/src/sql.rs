//! Parameterized statements for the relational store.
//!
//! A [`Statement`] is built by appending SQL text and by binding values. A
//! bound value never becomes part of the text: binding appends the next
//! numbered placeholder and keeps the value beside the text. The statement is
//! held by `sqlx`'s query builder for PostgreSQL, which this module reaches
//! through a handful of trusted functions; what they claim of the builder is
//! stated over [`statement_sql`] and [`statement_args`] and is not proved.
//! Executing a statement is not done here: the builder is handed out for it.

use vstd::prelude::*;
use vstd::utf8::encode_utf8;
use sqlx::Postgres;
use sqlx::QueryBuilder;
use crate::models::opt_text;
use crate::text::decimal;

verus! {

/// A value bound to a placeholder, by the column type it is sent as.
/// `None` is SQL `NULL` of that type.
pub enum Bound {
    Text(Option<Seq<char>>),
    Bool(Option<bool>),
    Int4(Option<i32>),
    Int8(i64),
}

/// A statement under construction: SQL text with numbered placeholders,
/// and the values bound to them. Holds `sqlx::QueryBuilder` for PostgreSQL.
/// Only this module makes and fills one; [`Statement::into_builder`] hands
/// the builder out to whoever executes the statement.
#[verifier::external_body]
pub struct Statement {
    builder: QueryBuilder<'static, Postgres>,
}

impl Statement {
    /// Hands the builder out, with its text and its bound values as they
    /// are. The result is `sqlx::QueryBuilder<'static, Postgres>` itself, or
    /// what the caller's `From` makes of it; the type stands as a parameter
    /// because the verifier does not know the builder's. Nothing is claimed
    /// of the result.
    #[verifier::external_body]
    pub fn into_builder<T>(self) -> T where QueryBuilder<'static, Postgres>: Into<T> {
        self.builder.into()
    }
}

/// The SQL text of a statement, as `QueryBuilder::sql` returns it.
pub uninterp spec fn statement_sql(s: Statement) -> Seq<char>;

/// The values bound to a statement so far, in the order of their placeholders.
pub uninterp spec fn statement_args(s: Statement) -> Seq<Bound>;

/// Whether a statement can still grow: whether the builder still holds its
/// bound values. `QueryBuilder::build` hands them on; after it the methods
/// that add to the statement or build it again panic, while `sql`,
/// `into_sql` and `reset` do not.
pub uninterp spec fn statement_open(s: Statement) -> bool;

/// The largest number of bytes that one bound value may take on the wire.
pub const MAX_BIND_BYTES: usize = 0x7fff_ffff;

/// Whether a text can be bound: its UTF-8 encoding has a length that the
/// wire protocol's signed 32-bit length field can hold.
pub open spec fn fits_bind(text: Seq<char>) -> bool {
    encode_utf8(text).len() <= MAX_BIND_BYTES
}

/// Whether an optional text can be bound; `NULL` always can.
pub open spec fn opt_fits_bind(text: Option<Seq<char>>) -> bool {
    match text {
        Some(t) => fits_bind(t),
        None => true,
    }
}

/// The placeholder of the `n`-th bound value: `$` and the decimal numeral of `n`.
pub open spec fn placeholder(n: nat) -> Seq<char> {
    seq!['$'] + decimal(n)
}

/// What a caller is told whose value cannot be bound.
pub open spec fn oversized_value_message() -> Seq<char> {
    "value is too long"@
}

/// Whether a text can be bound.
pub fn fits(text: &str) -> (ok: bool)
    ensures
        ok == fits_bind(text@),
{
    text.as_bytes().len() <= MAX_BIND_BYTES
}

/// Whether an optional text can be bound.
pub fn opt_fits(text: &Option<String>) -> (ok: bool)
    ensures
        ok == opt_fits_bind(opt_text(*text)),
{
    match text {
        Some(t) => fits(t.as_str()),
        None => true,
    }
}

/// `QueryBuilder::new`: a fresh builder whose text is the given fragment and
/// which has no bound values.
#[verifier::external_body]
pub(crate) fn begin(text: &str) -> (s: Statement)
    ensures
        statement_sql(s) == text@,
        statement_args(s) == Seq::<Bound>::empty(),
        statement_open(s),
{
    Statement { builder: QueryBuilder::new(text) }
}

/// `QueryBuilder::push`: appends the fragment to the text as it is and binds
/// nothing. Panics on a builder that was built, which `requires` leaves out.
#[verifier::external_body]
pub(crate) fn push_text(s: &mut Statement, text: &str)
    requires
        statement_open(*old(s)),
    ensures
        statement_sql(*final(s)) == statement_sql(*old(s)) + text@,
        statement_args(*final(s)) == statement_args(*old(s)),
        statement_open(*final(s)),
{
    s.builder.push(text);
}

/// `QueryBuilder::push_bind` with an optional text: adds the value to the
/// bound values and appends the placeholder with the new count of values,
/// which for PostgreSQL is `$` and that count in decimal. Panics where the
/// value's encoding is longer than the wire protocol allows, and on a builder
/// that was built; `requires` leaves both out.
#[verifier::external_body]
pub(crate) fn bind_text(s: &mut Statement, value: Option<String>)
    requires
        statement_open(*old(s)),
        opt_fits_bind(opt_text(value)),
    ensures
        statement_sql(*final(s)) == statement_sql(*old(s)) + placeholder(
            statement_args(*old(s)).len() + 1,
        ),
        statement_args(*final(s)) == statement_args(*old(s)).push(Bound::Text(opt_text(value))),
        statement_open(*final(s)),
{
    s.builder.push_bind(value);
}

/// `QueryBuilder::push_bind` with an optional boolean: as [`bind_text`],
/// for a value of one byte.
#[verifier::external_body]
pub(crate) fn bind_bool(s: &mut Statement, value: Option<bool>)
    requires
        statement_open(*old(s)),
    ensures
        statement_sql(*final(s)) == statement_sql(*old(s)) + placeholder(
            statement_args(*old(s)).len() + 1,
        ),
        statement_args(*final(s)) == statement_args(*old(s)).push(Bound::Bool(value)),
        statement_open(*final(s)),
{
    s.builder.push_bind(value);
}

/// `QueryBuilder::push_bind` with an optional 32-bit integer: as
/// [`bind_text`], for a value of four bytes.
#[verifier::external_body]
pub(crate) fn bind_int4(s: &mut Statement, value: Option<i32>)
    requires
        statement_open(*old(s)),
    ensures
        statement_sql(*final(s)) == statement_sql(*old(s)) + placeholder(
            statement_args(*old(s)).len() + 1,
        ),
        statement_args(*final(s)) == statement_args(*old(s)).push(Bound::Int4(value)),
        statement_open(*final(s)),
{
    s.builder.push_bind(value);
}

/// `QueryBuilder::push_bind` with a 64-bit integer: as [`bind_text`], for a
/// value of eight bytes.
#[verifier::external_body]
pub(crate) fn bind_int8(s: &mut Statement, value: i64)
    requires
        statement_open(*old(s)),
    ensures
        statement_sql(*final(s)) == statement_sql(*old(s)) + placeholder(
            statement_args(*old(s)).len() + 1,
        ),
        statement_args(*final(s)) == statement_args(*old(s)).push(Bound::Int8(value)),
        statement_open(*final(s)),
{
    s.builder.push_bind(value);
}

} // verus!
