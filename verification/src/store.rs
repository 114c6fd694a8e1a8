//! The plain values that pass between the service and its store.
//!
//! A [`Statement`] goes out: SQL text with the values bound to its
//! placeholders. A [`FetchReply`] or an [`ExecReply`] comes back: the rows the
//! store returned, the number of rows it changed, or the news that it failed.

use vstd::prelude::*;

verus! {

/// A value bound to a placeholder of a statement.
#[derive(Clone, Debug, PartialEq, Eq)]
pub enum Param {
    /// An integer, bound as SQL `INTEGER`.
    Integer(i64),
    /// A text, bound as SQL `TEXT`.
    Text(String),
}

/// What a [`Param`] is, mathematically.
pub ghost enum ParamView {
    Integer(int),
    Text(Seq<char>),
}

impl View for Param {
    type V = ParamView;

    open spec fn view(&self) -> ParamView {
        match self {
            Param::Integer(i) => ParamView::Integer(*i as int),
            Param::Text(s) => ParamView::Text(s@),
        }
    }
}

/// What one column of a returned row holds.
#[derive(Clone, Debug, PartialEq, Eq)]
pub enum Cell {
    /// SQL `NULL`.
    Null,
    /// A value of the storage class `INTEGER`.
    Integer(i64),
    /// A value of the storage class `TEXT`.
    Text(String),
    /// A value of a storage class the post table does not use.
    Other,
}

/// What a [`Cell`] is, mathematically.
pub ghost enum CellView {
    Null,
    Integer(int),
    Text(Seq<char>),
    Other,
}

impl View for Cell {
    type V = CellView;

    open spec fn view(&self) -> CellView {
        match self {
            Cell::Null => CellView::Null,
            Cell::Integer(i) => CellView::Integer(*i as int),
            Cell::Text(s) => CellView::Text(s@),
            Cell::Other => CellView::Other,
        }
    }
}

/// A named column of a returned row.
#[derive(Clone, Debug, PartialEq, Eq)]
pub struct Column {
    pub name: String,
    pub value: Cell,
}

/// What a [`Column`] is, mathematically.
pub ghost struct ColumnView {
    pub name: Seq<char>,
    pub value: CellView,
}

impl View for Column {
    type V = ColumnView;

    open spec fn view(&self) -> ColumnView {
        ColumnView { name: self.name@, value: self.value@ }
    }
}

/// A returned row: its columns in the order the store gave them.
#[derive(Clone, Debug, PartialEq, Eq)]
pub struct Row {
    pub columns: Vec<Column>,
}

impl View for Row {
    type V = Seq<ColumnView>;

    open spec fn view(&self) -> Seq<ColumnView> {
        Seq::new(self.columns@.len(), |i: int| self.columns@[i]@)
    }
}

/// The views of a list of rows, in order.
pub open spec fn rows_view(rows: Seq<Row>) -> Seq<Seq<ColumnView>> {
    Seq::new(rows.len(), |i: int| rows[i]@)
}

/// How a statement is to be run.
#[derive(Clone, Copy, Debug, PartialEq, Eq, Structural)]
pub enum Fetch {
    /// Run it and return every row.
    All,
    /// Run it and return the first row, if there is one.
    One,
    /// Run it for its effect and return the number of rows changed.
    Nothing,
}

/// A statement for the store: fixed SQL text, the values for its placeholders
/// in the order of the placeholders, and how it is to be run.
#[derive(Clone, Debug, PartialEq, Eq)]
pub struct Statement {
    pub sql: &'static str,
    pub params: Vec<Param>,
    pub fetch: Fetch,
}

/// What a [`Statement`] is, mathematically.
pub ghost struct StatementView {
    pub sql: Seq<char>,
    pub params: Seq<ParamView>,
    pub fetch: Fetch,
}

/// Whether `c` may stand in the SQL text of a statement: a letter, a blank,
/// or one of `_ * = , ( ) ; ?`.
///
/// Text made of these alone holds no quoted part, no comment and no numbered
/// or named parameter, so that each `?` in it is one placeholder.
pub open spec fn is_plain(c: char) -> bool {
    ||| 'a' <= c <= 'z'
    ||| 'A' <= c <= 'Z'
    ||| c == ' '
    ||| c == '_'
    ||| c == '*'
    ||| c == '='
    ||| c == ','
    ||| c == '('
    ||| c == ')'
    ||| c == ';'
    ||| c == '?'
}

/// Whether every character of `sql` may stand in the SQL text of a
/// statement.
pub open spec fn plain(sql: Seq<char>) -> bool {
    forall|i: int| 0 <= i < sql.len() ==> is_plain(#[trigger] sql[i])
}

/// Whether each of the first `k` characters of `sql` may stand in the SQL
/// text of a statement.
pub open spec fn plain_before(sql: Seq<char>, k: int) -> bool
    decreases k,
{
    k <= 0 || (plain_before(sql, k - 1) && is_plain(sql[k - 1]))
}

/// Text that is plain up to its end is plain.
pub proof fn lemma_plain_before(sql: Seq<char>, k: int)
    requires
        plain_before(sql, k),
        k >= sql.len(),
    ensures
        plain(sql),
{
    plain_before_holds(sql, k);
}

/// What is plain before `k` is plain at every place before `k`.
proof fn plain_before_holds(sql: Seq<char>, k: int)
    requires
        plain_before(sql, k),
    ensures
        forall|i: int| 0 <= i < k ==> is_plain(#[trigger] sql[i]),
    decreases k,
{
    if k > 0 {
        plain_before_holds(sql, k - 1);
    }
}

/// The number of `?` among the first `k` characters of `sql`.
pub open spec fn placeholders_before(sql: Seq<char>, k: int) -> nat
    decreases k,
{
    if k <= 0 {
        0
    } else {
        placeholders_before(sql, k - 1) + if sql[k - 1] == '?' {
            1nat
        } else {
            0nat
        }
    }
}

/// The number of `?` in `sql`. In plain text this is the number of
/// placeholders.
pub open spec fn placeholders(sql: Seq<char>) -> nat {
    placeholders_before(sql, sql.len() as int)
}

impl StatementView {
    /// A statement is well formed when its SQL text is plain and it binds one
    /// value to each placeholder of the text.
    pub open spec fn well_formed(self) -> bool {
        plain(self.sql) && placeholders(self.sql) == self.params.len()
    }
}

impl View for Statement {
    type V = StatementView;

    open spec fn view(&self) -> StatementView {
        StatementView {
            sql: self.sql@,
            params: Seq::new(self.params@.len(), |i: int| self.params@[i]@),
            fetch: self.fetch,
        }
    }
}

/// The store's answer to a statement run with [`Fetch::All`] or
/// [`Fetch::One`].
#[derive(Clone, Debug, PartialEq, Eq)]
pub enum FetchReply {
    /// The rows that matched; none, if none did.
    Rows(Vec<Row>),
    /// The connection or the query failed.
    Failed,
}

/// What a [`FetchReply`] is, mathematically.
pub ghost enum FetchReplyView {
    Rows(Seq<Seq<ColumnView>>),
    Failed,
}

impl View for FetchReply {
    type V = FetchReplyView;

    open spec fn view(&self) -> FetchReplyView {
        match self {
            FetchReply::Rows(rows) => FetchReplyView::Rows(rows_view(rows@)),
            FetchReply::Failed => FetchReplyView::Failed,
        }
    }
}

/// The store's answer to a statement run with [`Fetch::Nothing`].
#[derive(Clone, Copy, Debug, PartialEq, Eq, Structural)]
pub enum ExecReply {
    /// The statement ran and changed this many rows.
    Done(u64),
    /// The connection or the statement failed.
    Failed,
}

} // verus!
