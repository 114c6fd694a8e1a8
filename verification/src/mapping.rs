//! The mapping from a row of `blog_posts` to the post it holds.
//!
//! The mapping is written out by hand and goes by the names of the columns,
//! never by their places, so that it does not depend on the order in which
//! the store returns them.

use vstd::prelude::*;
use crate::error::ServiceError;
use crate::post::{BlogPost, BlogPostView};
use crate::store::{Cell, CellView, ColumnView, Row};
use crate::text::str_eq;

verus! {

/// The value of the first column of `row` that is called `name`.
pub open spec fn cell_named(row: Seq<ColumnView>, name: Seq<char>) -> Option<CellView>
    decreases row.len(),
{
    if row.len() == 0 {
        None
    } else if row[0].name == name {
        Some(row[0].value)
    } else {
        cell_named(row.drop_first(), name)
    }
}

/// The text in the column `name` of `row`, where that column exists and holds
/// text.
pub open spec fn text_named(row: Seq<ColumnView>, name: Seq<char>) -> Option<Seq<char>> {
    match cell_named(row, name) {
        Some(CellView::Text(text)) => Some(text),
        _ => None,
    }
}

/// The 32-bit integer in the column `name` of `row`, where that column exists
/// and holds one.
pub open spec fn id_named(row: Seq<ColumnView>, name: Seq<char>) -> Option<int> {
    match cell_named(row, name) {
        Some(CellView::Integer(i)) => if i32::MIN <= i <= i32::MAX {
            Some(i)
        } else {
            None
        },
        _ => None,
    }
}

/// The post that a row of `blog_posts` holds.
///
/// The five columns are found by name, wherever in the row they stand. The
/// row is a post when `id` holds an integer of 32 bits and `date`, `title`,
/// `body` and `author` hold text.
pub open spec fn post_of_row(row: Seq<ColumnView>) -> Option<BlogPostView> {
    match (
        id_named(row, "id"@),
        text_named(row, "date"@),
        text_named(row, "title"@),
        text_named(row, "body"@),
        text_named(row, "author"@),
    ) {
        (Some(id), Some(date), Some(title), Some(body), Some(author)) => Some(
            BlogPostView { id, date, title, body, author },
        ),
        _ => None,
    }
}

/// Finds the first column of `row` that is called `name`.
fn find_cell<'a>(row: &'a Row, name: &str) -> (found: Option<&'a Cell>)
    ensures
        match cell_named(row@, name@) {
            Some(value) => found matches Some(cell) && cell@ == value,
            None => found is None,
        },
{
    let n: usize = row.columns.len();
    let mut i: usize = 0;
    assert(row@.skip(0) =~= row@);
    while i < n
        invariant
            i <= n,
            n == row.columns@.len(),
            cell_named(row@, name@) == cell_named(row@.skip(i as int), name@),
        decreases n - i,
    {
        let column = &row.columns[i];
        assert(row@.skip(i as int)[0] == column@);
        if str_eq(column.name.as_str(), name) {
            return Some(&column.value);
        }
        assert(row@.skip(i as int).drop_first() =~= row@.skip(i + 1));
        i += 1;
    }
    None
}

/// Reads the text in the column `name` of `row`.
fn text_of(row: &Row, name: &str) -> (text: Option<String>)
    ensures
        match text_named(row@, name@) {
            Some(value) => text matches Some(t) && t@ == value,
            None => text is None,
        },
{
    match find_cell(row, name) {
        Some(Cell::Text(t)) => Some(t.clone()),
        _ => None,
    }
}

/// Reads the identifier in the column `name` of `row`.
fn id_of(row: &Row, name: &str) -> (id: Option<i32>)
    ensures
        match id_named(row@, name@) {
            Some(value) => id == Some(value as i32),
            None => id is None,
        },
{
    match find_cell(row, name) {
        Some(Cell::Integer(i)) => {
            if -2147483648 <= *i && *i <= 2147483647 {
                Some(*i as i32)
            } else {
                None
            }
        },
        _ => None,
    }
}

impl BlogPost {
    /// Maps a row of `blog_posts` to the post it holds.
    ///
    /// Succeeds exactly on the rows that [`post_of_row`] accepts, with the
    /// post it names. Any other row is a fault of the store.
    pub fn from_row(row: &Row) -> (post: Result<BlogPost, ServiceError>)
        ensures
            match post_of_row(row@) {
                Some(view) => post matches Ok(p) && p@ == view,
                None => post == Err::<BlogPost, ServiceError>(ServiceError::StoreError),
            },
    {
        let id = id_of(row, "id");
        let date = text_of(row, "date");
        let title = text_of(row, "title");
        let body = text_of(row, "body");
        let author = text_of(row, "author");
        match (id, date, title, body, author) {
            (Some(id), Some(date), Some(title), Some(body), Some(author)) => Ok(
                BlogPost { id, date, title, body, author },
            ),
            _ => Err(ServiceError::StoreError),
        }
    }
}

/// A column is found by its name where no column before it has that name.
pub proof fn lemma_cell_named_at(row: Seq<ColumnView>, name: Seq<char>, i: int)
    requires
        0 <= i < row.len(),
        row[i].name == name,
        forall|j: int| 0 <= j < i ==> (#[trigger] row[j]).name != name,
    ensures
        cell_named(row, name) == Some(row[i].value),
    decreases i,
{
    if i > 0 {
        let rest = row.drop_first();
        assert(rest[i - 1] == row[i]);
        assert forall|j: int| 0 <= j < i - 1 implies (#[trigger] rest[j]).name != name by {
            assert(rest[j] == row[j + 1]);
        }
        lemma_cell_named_at(rest, name, i - 1);
    }
}

/// A name that no column has is not found.
pub proof fn lemma_cell_named_nowhere(row: Seq<ColumnView>, name: Seq<char>)
    requires
        forall|j: int| 0 <= j < row.len() ==> (#[trigger] row[j]).name != name,
    ensures
        cell_named(row, name) is None,
    decreases row.len(),
{
    if row.len() > 0 {
        let rest = row.drop_first();
        assert forall|j: int| 0 <= j < rest.len() implies (#[trigger] rest[j]).name != name by {
            assert(rest[j] == row[j + 1]);
        }
        lemma_cell_named_nowhere(rest, name);
    }
}

/// Whether no two columns of `row` have one name.
pub open spec fn distinct_names(row: Seq<ColumnView>) -> bool {
    forall|i: int, j: int|
        0 <= i < j < row.len() ==> (#[trigger] row[i]).name != (#[trigger] row[j]).name
}

/// The order of the columns does not matter: two rows that hold the same
/// columns, each under names that are distinct, give the same value for every
/// name and hold the same post, in whatever order their columns stand.
pub proof fn lemma_column_order_is_irrelevant(
    row: Seq<ColumnView>,
    other: Seq<ColumnView>,
    name: Seq<char>,
)
    requires
        distinct_names(row),
        distinct_names(other),
        forall|i: int| 0 <= i < row.len() ==> other.contains(#[trigger] row[i]),
        forall|j: int| 0 <= j < other.len() ==> row.contains(#[trigger] other[j]),
    ensures
        cell_named(row, name) == cell_named(other, name),
        post_of_row(row) == post_of_row(other),
{
    assert forall|n: Seq<char>| cell_named(row, n) == cell_named(other, n) by {
        if exists|i: int| 0 <= i < row.len() && (#[trigger] row[i]).name == n {
            let i = choose|i: int| 0 <= i < row.len() && (#[trigger] row[i]).name == n;
            assert(other.contains(row[i]));
            let j = choose|j: int| 0 <= j < other.len() && other[j] == row[i];
            lemma_cell_named_at(row, n, i);
            lemma_cell_named_at(other, n, j);
        } else {
            assert forall|j: int| 0 <= j < other.len() implies (#[trigger] other[j]).name
                != n by {
                assert(row.contains(other[j]));
                let i = choose|i: int| 0 <= i < row.len() && row[i] == other[j];
                assert(row[i].name != n);
            }
            lemma_cell_named_nowhere(row, n);
            lemma_cell_named_nowhere(other, n);
        }
    }
}

} // verus!
