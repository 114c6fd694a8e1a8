//! The post repository: the one place that knows the SQL of the `blog_posts`
//! table.
//!
//! Each of the five operations comes in two halves. The first builds the
//! [`Statement`] to run: fixed SQL text, with every value the caller supplied
//! bound to a placeholder and none of it written into the text. The second
//! reads the store's reply and gives the operation's result. Between the two
//! the caller runs the statement.
//!
//! The table is
//! `blog_posts(id INTEGER PRIMARY KEY AUTOINCREMENT, date TEXT, title TEXT,
//! body TEXT, author TEXT)`.

use vstd::prelude::*;
use crate::error::ServiceError;
use crate::mapping::post_of_row;
use crate::post::{BlogPost, BlogPostView, posts_view};
use crate::store::{
    Cell, CellView, ExecReply, Fetch, FetchReply, FetchReplyView, Param, ParamView, Statement,
    StatementView, lemma_plain_before, placeholders, placeholders_before, plain, plain_before,
};

verus! {

/// Lists every post.
pub const SELECT_ALL: &'static str = "SELECT * FROM blog_posts";

/// Reads the post with a given identifier.
pub const SELECT_ONE: &'static str = "SELECT * FROM blog_posts WHERE id = ?";

/// Stores a new post and reads back the identifier it was given.
pub const INSERT: &'static str =
    "INSERT INTO blog_posts (date, title, body, author) VALUES (?, ?, ?, ?); SELECT last_insert_rowid();";

/// Replaces the four text fields of the post with a given identifier.
pub const UPDATE: &'static str =
    "UPDATE blog_posts SET date = ?, title = ?, body = ?, author = ? WHERE id = ?";

/// Removes the post with a given identifier.
pub const DELETE: &'static str = "DELETE FROM blog_posts WHERE id = ?";

/// The statement that lists every post: no parameter, every row wanted.
pub open spec fn list_statement() -> StatementView {
    StatementView { sql: SELECT_ALL@, params: seq![], fetch: Fetch::All }
}

/// The statement that reads the post `id`: the identifier is the one
/// parameter, the first row is wanted.
pub open spec fn get_statement(id: int) -> StatementView {
    StatementView { sql: SELECT_ONE@, params: seq![ParamView::Integer(id)], fetch: Fetch::One }
}

/// The statement that stores a new post: the four texts are the parameters,
/// in the order `date`, `title`, `body`, `author`, and the first row, which
/// holds the new identifier, is wanted.
pub open spec fn create_statement(
    date: Seq<char>,
    title: Seq<char>,
    body: Seq<char>,
    author: Seq<char>,
) -> StatementView {
    StatementView {
        sql: INSERT@,
        params: seq![
            ParamView::Text(date),
            ParamView::Text(title),
            ParamView::Text(body),
            ParamView::Text(author),
        ],
        fetch: Fetch::One,
    }
}

/// The statement that overwrites the post `id`: the four texts and then the
/// identifier are the parameters, no row is wanted.
pub open spec fn update_statement(
    id: int,
    date: Seq<char>,
    title: Seq<char>,
    body: Seq<char>,
    author: Seq<char>,
) -> StatementView {
    StatementView {
        sql: UPDATE@,
        params: seq![
            ParamView::Text(date),
            ParamView::Text(title),
            ParamView::Text(body),
            ParamView::Text(author),
            ParamView::Integer(id),
        ],
        fetch: Fetch::Nothing,
    }
}

/// The statement that removes the post `id`: the identifier is the one
/// parameter, no row is wanted.
pub open spec fn delete_statement(id: int) -> StatementView {
    StatementView { sql: DELETE@, params: seq![ParamView::Integer(id)], fetch: Fetch::Nothing }
}

/// Each of the five statements is well formed, whatever the values are: its
/// text is plain, and it binds exactly one value to each placeholder of the
/// text.
pub proof fn lemma_statements_well_formed(
    id: int,
    date: Seq<char>,
    title: Seq<char>,
    body: Seq<char>,
    author: Seq<char>,
)
    ensures
        list_statement().well_formed(),
        get_statement(id).well_formed(),
        create_statement(date, title, body, author).well_formed(),
        update_statement(id, date, title, body, author).well_formed(),
        delete_statement(id).well_formed(),
{
    reveal_with_fuel(placeholders_before, 30);
    reveal_with_fuel(plain_before, 30);
    assert(plain(SELECT_ALL@) && placeholders(SELECT_ALL@) == 0) by {
        reveal_strlit("SELECT * FROM blog_posts");
        assert(plain_before(SELECT_ALL@, 24));
        lemma_plain_before(SELECT_ALL@, 24);
    }
    assert(plain(SELECT_ONE@) && placeholders(SELECT_ONE@) == 1) by {
        reveal_strlit("SELECT * FROM blog_posts WHERE id = ?");
        assert(placeholders_before(SELECT_ONE@, 20) == 0);
        assert(plain_before(SELECT_ONE@, 20));
        assert(plain_before(SELECT_ONE@, 37));
        lemma_plain_before(SELECT_ONE@, 37);
    }
    assert(plain(INSERT@) && placeholders(INSERT@) == 4) by {
        reveal_strlit(
            "INSERT INTO blog_posts (date, title, body, author) VALUES (?, ?, ?, ?); SELECT last_insert_rowid();",
        );
        assert(placeholders_before(INSERT@, 25) == 0);
        assert(placeholders_before(INSERT@, 50) == 0);
        assert(placeholders_before(INSERT@, 75) == 4);
        assert(plain_before(INSERT@, 25));
        assert(plain_before(INSERT@, 50));
        assert(plain_before(INSERT@, 75));
        assert(plain_before(INSERT@, 99));
        lemma_plain_before(INSERT@, 99);
    }
    assert(plain(UPDATE@) && placeholders(UPDATE@) == 5) by {
        reveal_strlit(
            "UPDATE blog_posts SET date = ?, title = ?, body = ?, author = ? WHERE id = ?",
        );
        assert(placeholders_before(UPDATE@, 25) == 0);
        assert(placeholders_before(UPDATE@, 50) == 2);
        assert(placeholders_before(UPDATE@, 70) == 4);
        assert(plain_before(UPDATE@, 25));
        assert(plain_before(UPDATE@, 50));
        assert(plain_before(UPDATE@, 76));
        lemma_plain_before(UPDATE@, 76);
    }
    assert(plain(DELETE@) && placeholders(DELETE@) == 1) by {
        reveal_strlit("DELETE FROM blog_posts WHERE id = ?");
        assert(placeholders_before(DELETE@, 20) == 0);
        assert(plain_before(DELETE@, 20));
        assert(plain_before(DELETE@, 35));
        lemma_plain_before(DELETE@, 35);
    }
}

/// What listing gives for a reply of the store: the post of every row, in the
/// order of the rows. A failed store, or a row that is no post, is a
/// `StoreError`.
pub open spec fn listed(reply: FetchReplyView) -> Result<Seq<BlogPostView>, ServiceError> {
    match reply {
        FetchReplyView::Rows(rows) => if forall|i: int|
            0 <= i < rows.len() ==> (#[trigger] post_of_row(rows[i])) is Some {
            Ok(Seq::new(rows.len(), |i: int| post_of_row(rows[i])->0))
        } else {
            Err(ServiceError::StoreError)
        },
        FetchReplyView::Failed => Err(ServiceError::StoreError),
    }
}

/// What reading the post `id` gives for a reply of the store: the post of
/// the first row, which must carry that identifier. No row at all is
/// `NotFound`; a failed store, or a first row that is no post or the post of
/// another identifier, is a `StoreError`.
pub open spec fn fetched(id: int, reply: FetchReplyView) -> Result<BlogPostView, ServiceError> {
    match reply {
        FetchReplyView::Rows(rows) => if rows.len() == 0 {
            Err(ServiceError::NotFound)
        } else {
            match post_of_row(rows[0]) {
                Some(post) => if post.id == id {
                    Ok(post)
                } else {
                    Err(ServiceError::StoreError)
                },
                None => Err(ServiceError::StoreError),
            }
        },
        FetchReplyView::Failed => Err(ServiceError::StoreError),
    }
}

/// What creating a post gives for a reply of the store: the 32-bit integer in
/// the first column of the first row. Anything else is a `StoreError`.
pub open spec fn created(reply: FetchReplyView) -> Result<int, ServiceError> {
    match reply {
        FetchReplyView::Rows(rows) => if rows.len() > 0 && rows[0].len() > 0 {
            match rows[0][0].value {
                CellView::Integer(id) => if i32::MIN <= id <= i32::MAX {
                    Ok(id)
                } else {
                    Err(ServiceError::StoreError)
                },
                _ => Err(ServiceError::StoreError),
            }
        } else {
            Err(ServiceError::StoreError)
        },
        FetchReplyView::Failed => Err(ServiceError::StoreError),
    }
}

/// What updating or deleting gives for a reply of the store: success
/// whenever the statement ran, however many rows it changed, none included.
pub open spec fn written(reply: ExecReply) -> Result<(), ServiceError> {
    match reply {
        ExecReply::Done(_) => Ok(()),
        ExecReply::Failed => Err(ServiceError::StoreError),
    }
}

/// The statement that lists every post.
pub fn get_blog_posts_statement() -> (stmt: Statement)
    ensures
        stmt@ == list_statement(),
        stmt@.well_formed(),
{
    proof {
        lemma_statements_well_formed(0, seq![], seq![], seq![], seq![]);
    }
    let stmt = Statement { sql: SELECT_ALL, params: Vec::new(), fetch: Fetch::All };
    assert(stmt@.params =~= list_statement().params);
    stmt
}

/// The posts in the store's reply to [`get_blog_posts_statement`].
pub fn get_blog_posts(reply: FetchReply) -> (posts: Result<Vec<BlogPost>, ServiceError>)
    ensures
        match listed(reply@) {
            Ok(views) => posts matches Ok(list) && posts_view(list@) == views,
            Err(e) => posts == Err::<Vec<BlogPost>, ServiceError>(e),
        },
{
    match reply {
        FetchReply::Rows(rows) => {
            let ghost views = reply@->Rows_0;
            let n: usize = rows.len();
            let mut list: Vec<BlogPost> = Vec::new();
            let mut i: usize = 0;
            while i < n
                invariant
                    i <= n,
                    n == rows@.len(),
                    n == views.len(),
                    reply@ == FetchReplyView::Rows(views),
                    forall|j: int| 0 <= j < n ==> views[j] == (#[trigger] rows@[j])@,
                    list@.len() == i,
                    forall|j: int|
                        0 <= j < i ==> (#[trigger] post_of_row(views[j])) == Some(list@[j]@),
                decreases n - i,
            {
                match BlogPost::from_row(&rows[i]) {
                    Ok(post) => {
                        list.push(post);
                    },
                    Err(_) => {
                        assert(post_of_row(views[i as int]) is None);
                        return Err(ServiceError::StoreError);
                    },
                }
                i += 1;
            }
            assert(posts_view(list@) =~= listed(reply@)->Ok_0);
            Ok(list)
        },
        FetchReply::Failed => Err(ServiceError::StoreError),
    }
}

/// The statement that reads the post `id`.
pub fn get_blog_post_statement(id: i32) -> (stmt: Statement)
    ensures
        stmt@ == get_statement(id as int),
        stmt@.well_formed(),
{
    proof {
        lemma_statements_well_formed(id as int, seq![], seq![], seq![], seq![]);
    }
    let stmt = Statement {
        sql: SELECT_ONE,
        params: vec![Param::Integer(id as i64)],
        fetch: Fetch::One,
    };
    assert(stmt@.params =~= get_statement(id as int).params);
    stmt
}

/// The post `id` in the store's reply to [`get_blog_post_statement`] for
/// that identifier.
///
/// A reply without rows is `NotFound`: no default or empty post stands in for
/// an absent one. A post that comes back carries the identifier that was
/// asked for.
pub fn get_blog_post(id: i32, reply: FetchReply) -> (post: Result<BlogPost, ServiceError>)
    ensures
        match fetched(id as int, reply@) {
            Ok(view) => post matches Ok(p) && p@ == view,
            Err(e) => post == Err::<BlogPost, ServiceError>(e),
        },
        post matches Ok(p) ==> p.id == id,
{
    match reply {
        FetchReply::Rows(rows) => {
            if rows.len() == 0 {
                Err(ServiceError::NotFound)
            } else {
                match BlogPost::from_row(&rows[0]) {
                    Ok(post) => {
                        if post.id == id {
                            Ok(post)
                        } else {
                            Err(ServiceError::StoreError)
                        }
                    },
                    Err(e) => Err(e),
                }
            }
        },
        FetchReply::Failed => Err(ServiceError::StoreError),
    }
}

/// The statement that stores a new post with the four given texts.
pub fn add_blog_post_statement(date: String, title: String, body: String, author: String) -> (stmt:
    Statement)
    ensures
        stmt@ == create_statement(date@, title@, body@, author@),
        stmt@.well_formed(),
{
    proof {
        lemma_statements_well_formed(0, date@, title@, body@, author@);
    }
    let ghost want = create_statement(date@, title@, body@, author@);
    let stmt = Statement {
        sql: INSERT,
        params: vec![
            Param::Text(date),
            Param::Text(title),
            Param::Text(body),
            Param::Text(author),
        ],
        fetch: Fetch::One,
    };
    assert(stmt@.params =~= want.params);
    stmt
}

/// The identifier of the new post in the store's reply to
/// [`add_blog_post_statement`].
pub fn add_blog_post(reply: FetchReply) -> (id: Result<i32, ServiceError>)
    ensures
        match created(reply@) {
            Ok(value) => id == Ok::<i32, ServiceError>(value as i32),
            Err(e) => id == Err::<i32, ServiceError>(e),
        },
{
    match reply {
        FetchReply::Rows(rows) => {
            if rows.len() == 0 || rows[0].columns.len() == 0 {
                return Err(ServiceError::StoreError);
            }
            match &rows[0].columns[0].value {
                Cell::Integer(i) => {
                    if -2147483648 <= *i && *i <= 2147483647 {
                        Ok(*i as i32)
                    } else {
                        Err(ServiceError::StoreError)
                    }
                },
                _ => Err(ServiceError::StoreError),
            }
        },
        FetchReply::Failed => Err(ServiceError::StoreError),
    }
}

/// The statement that overwrites the four texts of the post `id`.
pub fn update_blog_post_statement(
    id: i32,
    date: String,
    title: String,
    body: String,
    author: String,
) -> (stmt: Statement)
    ensures
        stmt@ == update_statement(id as int, date@, title@, body@, author@),
        stmt@.well_formed(),
{
    proof {
        lemma_statements_well_formed(id as int, date@, title@, body@, author@);
    }
    let ghost want = update_statement(id as int, date@, title@, body@, author@);
    let stmt = Statement {
        sql: UPDATE,
        params: vec![
            Param::Text(date),
            Param::Text(title),
            Param::Text(body),
            Param::Text(author),
            Param::Integer(id as i64),
        ],
        fetch: Fetch::Nothing,
    };
    assert(stmt@.params =~= want.params);
    stmt
}

/// Whether the update went through, from the store's reply to
/// [`update_blog_post_statement`].
///
/// An update that matched no row went through: it changed nothing, and that
/// is no error.
pub fn update_blog_post(reply: ExecReply) -> (done: Result<(), ServiceError>)
    ensures
        done == written(reply),
{
    match reply {
        ExecReply::Done(_) => Ok(()),
        ExecReply::Failed => Err(ServiceError::StoreError),
    }
}

/// The statement that removes the post `id`.
pub fn delete_blog_post_statement(id: i32) -> (stmt: Statement)
    ensures
        stmt@ == delete_statement(id as int),
        stmt@.well_formed(),
{
    proof {
        lemma_statements_well_formed(id as int, seq![], seq![], seq![], seq![]);
    }
    let stmt = Statement {
        sql: DELETE,
        params: vec![Param::Integer(id as i64)],
        fetch: Fetch::Nothing,
    };
    assert(stmt@.params =~= delete_statement(id as int).params);
    stmt
}

/// Whether the removal went through, from the store's reply to
/// [`delete_blog_post_statement`].
///
/// Removing a post that is not there went through: it changed nothing, and
/// that is no error.
pub fn delete_blog_post(reply: ExecReply) -> (done: Result<(), ServiceError>)
    ensures
        done == written(reply),
{
    match reply {
        ExecReply::Done(_) => Ok(()),
        ExecReply::Failed => Err(ServiceError::StoreError),
    }
}

} // verus!
