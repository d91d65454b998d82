use std::sync::Arc;
use vstd::prelude::*;

use crate::cass_error::CassError;
use crate::exec_profile::Consistency;

verus! {

/// A 128-bit UUID, split as the foreign call surface carries it.
#[derive(Clone, Copy, Debug, PartialEq, Eq, Structural)]
pub struct CassUuid {
    pub time_and_version: u64,
    pub clock_seq_and_node: u64,
}

/// A network address: four bytes for IPv4, sixteen for IPv6. The bytes are
/// an opaque payload to this layer.
#[derive(Debug, PartialEq)]
pub struct CassInet {
    pub address: Vec<u8>,
}

impl Clone for CassInet {
    fn clone(&self) -> (r: Self)
        ensures
            r.address@ == self.address@,
    {
        let r = CassInet { address: self.address.clone() };
        proof {
            assert(r.address@ =~= self.address@);
        }
        r
    }
}

/// A bound parameter value. The payload is opaque to this layer: floating
/// point values are carried as their raw bit patterns, collections as the
/// sequence of their element values.
#[derive(Debug, PartialEq)]
pub enum CqlValue {
    TinyInt(i8),
    SmallInt(i16),
    Int(i32),
    BigInt(i64),
    /// Days since the epoch midpoint, as the wire carries a DATE.
    Date(u32),
    /// IEEE-754 bits of a single-precision value.
    Float(u32),
    /// IEEE-754 bits of a double-precision value.
    Double(u64),
    Boolean(bool),
    Text(String),
    Blob(Vec<u8>),
    Inet(CassInet),
    Uuid(CassUuid),
    Collection(Vec<CqlValue>),
}

/// One parameter slot. `Unset` (never bound) is deliberately distinct from
/// `ExplicitNull` (bound to NULL): an unset parameter is omitted from the
/// serialized request, while an explicit null goes on the wire as NULL.
#[derive(Debug, PartialEq)]
pub enum BoundValue {
    Unset,
    ExplicitNull,
    Value(CqlValue),
}

/// The per-call state of a simple (unprepared) statement.
#[derive(Debug, PartialEq)]
pub struct Query {
    pub contents: String,
    /// `None` means paging is disabled.
    pub page_size: Option<i32>,
    pub consistency: Option<Consistency>,
    pub tracing: bool,
    pub is_idempotent: bool,
}

/// The per-call state of a prepared statement. Prepared statements are
/// shared between handles, so all of this state is copied on write.
#[derive(Clone, Copy, Debug, PartialEq, Eq, Structural)]
pub struct PreparedStatement {
    /// `None` means paging is disabled.
    pub page_size: Option<i32>,
    pub tracing: bool,
    pub is_idempotent: bool,
}

/// A simple statement is uniquely owned; a prepared statement is reference
/// counted because other handles and an executing session may share it.
/// Mutation of a prepared statement never touches the shared value: the
/// handle re-points to a private copy, so every other owner keeps its view.
pub enum Statement {
    Simple(Query),
    Prepared(Arc<PreparedStatement>),
}

impl Statement {
    /// Whether tracing is enabled.
    pub open spec fn spec_tracing(&self) -> bool {
        match self {
            Statement::Simple(q) => q.tracing,
            Statement::Prepared(p) => p.tracing,
        }
    }

    /// The page size, or `None` when paging is disabled.
    pub open spec fn spec_page_size(&self) -> Option<i32> {
        match self {
            Statement::Simple(q) => q.page_size,
            Statement::Prepared(p) => p.page_size,
        }
    }

    /// Whether the statement is marked idempotent.
    pub open spec fn spec_is_idempotent(&self) -> bool {
        match self {
            Statement::Simple(q) => q.is_idempotent,
            Statement::Prepared(p) => p.is_idempotent,
        }
    }

    /// Whether both statements are the same variant and differ at most in
    /// the named per-call fields.
    pub open spec fn same_shape(&self, other: &Statement) -> bool {
        match (self, other) {
            (Statement::Simple(a), Statement::Simple(b)) => a.contents == b.contents
                && a.consistency == b.consistency,
            (Statement::Prepared(_), Statement::Prepared(_)) => true,
            _ => false,
        }
    }
}

/// One statement handle: the statement itself, its positional parameter
/// slots, and the continuation token of a prior result page.
pub struct CassStatement {
    pub statement: Statement,
    pub bound_values: Vec<BoundValue>,
    pub paging_state: Option<Vec<u8>>,
}

/// A fresh simple statement over `query` with `parameter_count` slots, all
/// unset; paging starts disabled and the consistency is `One`.
pub fn cass_statement_new(query: &str, parameter_count: usize) -> (r: CassStatement)
    ensures
        r.statement matches Statement::Simple(q) && q.contents@ == query@ && q.page_size is None
            && q.consistency == Some(Consistency::One) && !q.tracing && !q.is_idempotent,
        r.bound_values@.len() == parameter_count,
        forall|i: int| 0 <= i < parameter_count ==> r.bound_values@[i] is Unset,
        r.paging_state is None,
{
    let mut bound_values: Vec<BoundValue> = Vec::new();
    let mut i: usize = 0;
    while i < parameter_count
        invariant
            i <= parameter_count,
            bound_values@.len() == i,
            forall|j: int| 0 <= j < i ==> bound_values@[j] is Unset,
        decreases parameter_count - i,
    {
        bound_values.push(BoundValue::Unset);
        i += 1;
    }
    CassStatement {
        statement: Statement::Simple(
            Query {
                contents: query.to_owned(),
                page_size: None,
                consistency: Some(Consistency::One),
                tracing: false,
                is_idempotent: false,
            },
        ),
        bound_values,
        paging_state: None,
    }
}

/// The one contract every bind shares: an index at or beyond the slot count
/// fails with `INDEX_OUT_OF_BOUNDS` and changes nothing; otherwise slot
/// `index` is overwritten with `value` — the last write wins — and nothing
/// else changes.
pub open spec fn bind_outcome(
    pre: CassStatement,
    post: CassStatement,
    r: CassError,
    index: usize,
    value: BoundValue,
) -> bool {
    &&& (r == CassError::CASS_OK <==> index < pre.bound_values@.len())
    &&& (r != CassError::CASS_OK ==> r == CassError::CASS_ERROR_LIB_INDEX_OUT_OF_BOUNDS && post
        == pre)
    &&& (r == CassError::CASS_OK ==> post.bound_values@ == pre.bound_values@.update(
        index as int,
        value,
    ) && post == (CassStatement { bound_values: post.bound_values, ..pre }))
}

/// Writes `value` into slot `index`, enforcing [`bind_outcome`].
pub fn cass_statement_bind_maybe_unset(
    statement: &mut CassStatement,
    index: usize,
    value: BoundValue,
) -> (r: CassError)
    ensures
        bind_outcome(*old(statement), *final(statement), r, index, value),
{
    if index >= statement.bound_values.len() {
        CassError::CASS_ERROR_LIB_INDEX_OUT_OF_BOUNDS
    } else {
        statement.bound_values[index] = value;
        CassError::CASS_OK
    }
}

/// Binds a concrete value at `index`.
pub fn cass_statement_bind_cql_value(
    statement: &mut CassStatement,
    index: usize,
    value: CqlValue,
) -> (r: CassError)
    ensures
        bind_outcome(*old(statement), *final(statement), r, index, BoundValue::Value(value)),
{
    cass_statement_bind_maybe_unset(statement, index, BoundValue::Value(value))
}

/// Binds an explicit NULL at `index`.
pub fn cass_statement_bind_null(statement: &mut CassStatement, index: usize) -> (r: CassError)
    ensures
        bind_outcome(*old(statement), *final(statement), r, index, BoundValue::ExplicitNull),
{
    cass_statement_bind_maybe_unset(statement, index, BoundValue::ExplicitNull)
}

/// Binds an eight-bit integer at `index`.
pub fn cass_statement_bind_int8(statement: &mut CassStatement, index: usize, value: i8) -> (r:
    CassError)
    ensures
        bind_outcome(
            *old(statement),
            *final(statement),
            r,
            index,
            BoundValue::Value(CqlValue::TinyInt(value)),
        ),
{
    cass_statement_bind_cql_value(statement, index, CqlValue::TinyInt(value))
}

/// Binds a sixteen-bit integer at `index`.
pub fn cass_statement_bind_int16(statement: &mut CassStatement, index: usize, value: i16) -> (r:
    CassError)
    ensures
        bind_outcome(
            *old(statement),
            *final(statement),
            r,
            index,
            BoundValue::Value(CqlValue::SmallInt(value)),
        ),
{
    cass_statement_bind_cql_value(statement, index, CqlValue::SmallInt(value))
}

/// Binds a 32-bit integer at `index`.
pub fn cass_statement_bind_int32(statement: &mut CassStatement, index: usize, value: i32) -> (r:
    CassError)
    ensures
        bind_outcome(
            *old(statement),
            *final(statement),
            r,
            index,
            BoundValue::Value(CqlValue::Int(value)),
        ),
{
    cass_statement_bind_cql_value(statement, index, CqlValue::Int(value))
}

/// Binds a DATE at `index`; the unsigned 32-bit form is only ever used for
/// dates.
pub fn cass_statement_bind_uint32(statement: &mut CassStatement, index: usize, value: u32) -> (r:
    CassError)
    ensures
        bind_outcome(
            *old(statement),
            *final(statement),
            r,
            index,
            BoundValue::Value(CqlValue::Date(value)),
        ),
{
    cass_statement_bind_cql_value(statement, index, CqlValue::Date(value))
}

/// Binds a 64-bit integer at `index`.
pub fn cass_statement_bind_int64(statement: &mut CassStatement, index: usize, value: i64) -> (r:
    CassError)
    ensures
        bind_outcome(
            *old(statement),
            *final(statement),
            r,
            index,
            BoundValue::Value(CqlValue::BigInt(value)),
        ),
{
    cass_statement_bind_cql_value(statement, index, CqlValue::BigInt(value))
}

/// Binds a single-precision value at `index`, given as its IEEE-754 bits;
/// the payload is carried through untouched.
pub fn cass_statement_bind_float(statement: &mut CassStatement, index: usize, value_bits: u32) -> (r:
    CassError)
    ensures
        bind_outcome(
            *old(statement),
            *final(statement),
            r,
            index,
            BoundValue::Value(CqlValue::Float(value_bits)),
        ),
{
    cass_statement_bind_cql_value(statement, index, CqlValue::Float(value_bits))
}

/// Binds a double-precision value at `index`, given as its IEEE-754 bits;
/// the payload is carried through untouched.
pub fn cass_statement_bind_double(statement: &mut CassStatement, index: usize, value_bits: u64) -> (r:
    CassError)
    ensures
        bind_outcome(
            *old(statement),
            *final(statement),
            r,
            index,
            BoundValue::Value(CqlValue::Double(value_bits)),
        ),
{
    cass_statement_bind_cql_value(statement, index, CqlValue::Double(value_bits))
}

/// Binds a boolean at `index`.
pub fn cass_statement_bind_bool(statement: &mut CassStatement, index: usize, value: bool) -> (r:
    CassError)
    ensures
        bind_outcome(
            *old(statement),
            *final(statement),
            r,
            index,
            BoundValue::Value(CqlValue::Boolean(value)),
        ),
{
    cass_statement_bind_cql_value(statement, index, CqlValue::Boolean(value))
}

/// Binds a text value at `index`. The value arrives with its length, so
/// embedded NUL bytes are safe.
pub fn cass_statement_bind_string(statement: &mut CassStatement, index: usize, value: String) -> (r:
    CassError)
    ensures
        bind_outcome(
            *old(statement),
            *final(statement),
            r,
            index,
            BoundValue::Value(CqlValue::Text(value)),
        ),
{
    cass_statement_bind_cql_value(statement, index, CqlValue::Text(value))
}

/// Binds an opaque byte blob at `index`.
pub fn cass_statement_bind_bytes(statement: &mut CassStatement, index: usize, value: Vec<u8>) -> (r:
    CassError)
    ensures
        bind_outcome(
            *old(statement),
            *final(statement),
            r,
            index,
            BoundValue::Value(CqlValue::Blob(value)),
        ),
{
    cass_statement_bind_cql_value(statement, index, CqlValue::Blob(value))
}

/// Binds a network address at `index`.
pub fn cass_statement_bind_inet(statement: &mut CassStatement, index: usize, value: CassInet) -> (r:
    CassError)
    ensures
        bind_outcome(
            *old(statement),
            *final(statement),
            r,
            index,
            BoundValue::Value(CqlValue::Inet(value)),
        ),
{
    cass_statement_bind_cql_value(statement, index, CqlValue::Inet(value))
}

/// Binds a UUID at `index`.
pub fn cass_statement_bind_uuid(statement: &mut CassStatement, index: usize, value: CassUuid) -> (r:
    CassError)
    ensures
        bind_outcome(
            *old(statement),
            *final(statement),
            r,
            index,
            BoundValue::Value(CqlValue::Uuid(value)),
        ),
{
    cass_statement_bind_cql_value(statement, index, CqlValue::Uuid(value))
}

/// Binds a collection value at `index`, carried as the sequence of its
/// element values.
pub fn cass_statement_bind_collection(
    statement: &mut CassStatement,
    index: usize,
    collection: Vec<CqlValue>,
) -> (r: CassError)
    ensures
        bind_outcome(
            *old(statement),
            *final(statement),
            r,
            index,
            BoundValue::Value(CqlValue::Collection(collection)),
        ),
{
    cass_statement_bind_cql_value(statement, index, CqlValue::Collection(collection))
}

/// What every per-call metadata setter leaves alone: the statement's shape,
/// the parameter slots, and the continuation token.
pub open spec fn metadata_setter_frame(pre: CassStatement, post: CassStatement) -> bool {
    &&& post.statement.same_shape(&pre.statement)
    &&& post.bound_values == pre.bound_values
    &&& post.paging_state == pre.paging_state
}

/// Turns tracing on or off. On a shared prepared statement the handle
/// re-points to a private copy first, so other owners are unaffected.
pub fn cass_statement_set_tracing(statement_raw: &mut CassStatement, enabled: bool) -> (r:
    CassError)
    ensures
        r == CassError::CASS_OK,
        final(statement_raw).statement.spec_tracing() == enabled,
        final(statement_raw).statement.spec_page_size() == old(
            statement_raw,
        ).statement.spec_page_size(),
        final(statement_raw).statement.spec_is_idempotent() == old(
            statement_raw,
        ).statement.spec_is_idempotent(),
        metadata_setter_frame(*old(statement_raw), *final(statement_raw)),
{
    match &mut statement_raw.statement {
        Statement::Simple(q) => {
            q.tracing = enabled;
        },
        Statement::Prepared(arc) => {
            let mut inner: PreparedStatement = **arc;
            inner.tracing = enabled;
            *arc = Arc::new(inner);
        },
    }
    CassError::CASS_OK
}

/// Sets the page size. The value −1 is a sentinel that disables paging; any
/// non-negative value is a literal row-count limit, and a later call always
/// overrides an earlier one. Other negative values are the caller's error
/// and are excluded. On a shared prepared statement the handle re-points to
/// a private copy first, so other owners are unaffected.
pub fn cass_statement_set_paging_size(statement_raw: &mut CassStatement, page_size: i32) -> (r:
    CassError)
    requires
        page_size >= -1,
    ensures
        r == CassError::CASS_OK,
        page_size == -1 ==> final(statement_raw).statement.spec_page_size() is None,
        page_size >= 0 ==> final(statement_raw).statement.spec_page_size() == Some(page_size),
        final(statement_raw).statement.spec_tracing() == old(
            statement_raw,
        ).statement.spec_tracing(),
        final(statement_raw).statement.spec_is_idempotent() == old(
            statement_raw,
        ).statement.spec_is_idempotent(),
        metadata_setter_frame(*old(statement_raw), *final(statement_raw)),
{
    let new_size: Option<i32> = if page_size == -1 {
        None
    } else {
        Some(page_size)
    };
    match &mut statement_raw.statement {
        Statement::Simple(q) => {
            q.page_size = new_size;
        },
        Statement::Prepared(arc) => {
            let mut inner: PreparedStatement = **arc;
            inner.page_size = new_size;
            *arc = Arc::new(inner);
        },
    }
    CassError::CASS_OK
}

/// Copies the continuation token of a prior result page into the statement.
pub fn cass_statement_set_paging_state(
    statement: &mut CassStatement,
    paging_state: Option<Vec<u8>>,
) -> (r: CassError)
    ensures
        r == CassError::CASS_OK,
        final(statement).paging_state == paging_state,
        *final(statement) == (CassStatement {
            paging_state: final(statement).paging_state,
            ..*old(statement)
        }),
{
    statement.paging_state = paging_state;
    CassError::CASS_OK
}

/// Marks the statement idempotent or not. On a shared prepared statement
/// the handle re-points to a private copy first, so other owners are
/// unaffected.
pub fn cass_statement_set_is_idempotent(
    statement_raw: &mut CassStatement,
    is_idempotent: bool,
) -> (r: CassError)
    ensures
        r == CassError::CASS_OK,
        final(statement_raw).statement.spec_is_idempotent() == is_idempotent,
        final(statement_raw).statement.spec_tracing() == old(
            statement_raw,
        ).statement.spec_tracing(),
        final(statement_raw).statement.spec_page_size() == old(
            statement_raw,
        ).statement.spec_page_size(),
        metadata_setter_frame(*old(statement_raw), *final(statement_raw)),
{
    match &mut statement_raw.statement {
        Statement::Simple(q) => {
            q.is_idempotent = is_idempotent;
        },
        Statement::Prepared(arc) => {
            let mut inner: PreparedStatement = **arc;
            inner.is_idempotent = is_idempotent;
            *arc = Arc::new(inner);
        },
    }
    CassError::CASS_OK
}

/// A fresh prepared-statement state: paging disabled, flags off.
pub fn prepared_statement_new() -> (r: PreparedStatement)
    ensures
        r == (PreparedStatement { page_size: None, tracing: false, is_idempotent: false }),
{
    PreparedStatement { page_size: None, tracing: false, is_idempotent: false }
}

/// A statement handle over an already-prepared statement, possibly shared
/// with other handles, with `parameter_count` slots, all unset.
pub fn cass_statement_new_prepared(
    prepared: Arc<PreparedStatement>,
    parameter_count: usize,
) -> (r: CassStatement)
    ensures
        r.statement matches Statement::Prepared(p) && p == prepared,
        r.bound_values@.len() == parameter_count,
        forall|i: int| 0 <= i < parameter_count ==> r.bound_values@[i] is Unset,
        r.paging_state is None,
{
    let mut bound_values: Vec<BoundValue> = Vec::new();
    let mut i: usize = 0;
    while i < parameter_count
        invariant
            i <= parameter_count,
            bound_values@.len() == i,
            forall|j: int| 0 <= j < i ==> bound_values@[j] is Unset,
        decreases parameter_count - i,
    {
        bound_values.push(BoundValue::Unset);
        i += 1;
    }
    CassStatement { statement: Statement::Prepared(prepared), bound_values, paging_state: None }
}

/// Binding NULL at a slot and then a value at the same slot leaves the
/// value — the last write wins, with no merging — while every other slot is
/// untouched; and a slot that was never bound stays `Unset`, which is a
/// different state from `ExplicitNull`.
pub proof fn lemma_bind_last_write_wins(slots: Seq<BoundValue>, i: int, v: CqlValue)
    requires
        0 <= i < slots.len(),
    ensures
        slots.update(i, BoundValue::ExplicitNull).update(i, BoundValue::Value(v)) == slots.update(
            i,
            BoundValue::Value(v),
        ),
        slots.update(i, BoundValue::ExplicitNull).update(i, BoundValue::Value(v))[i] matches
            BoundValue::Value(w) && w == v,
        forall|j: int|
            0 <= j < slots.len() && j != i ==> slots.update(i, BoundValue::ExplicitNull).update(
                i,
                BoundValue::Value(v),
            )[j] == slots[j],
        !(BoundValue::Unset matches BoundValue::ExplicitNull),
{
    assert(slots.update(i, BoundValue::ExplicitNull).update(i, BoundValue::Value(v)) =~= slots.update(
        i,
        BoundValue::Value(v),
    ));
}

} // verus!
