//! What the repository guarantees across its operations.
//!
//! The repository does not hold the table; the store does. What the store
//! does with a statement is not proved here. Each theorem says what the
//! repository gives for the reply that a table would give: the row that a
//! statement wrote, or no row where none matches.

use vstd::prelude::*;
use vstd::seq_lib::seq_to_set_is_finite;
use vstd::set_lib::lemma_len_subset;
use crate::error::ServiceError;
use crate::mapping::{lemma_cell_named_at, post_of_row};
use crate::post::BlogPostView;
use crate::repository::{create_statement, created, fetched, listed, update_statement, written};
use crate::store::{CellView, ColumnView, ExecReply, FetchReplyView, ParamView};

verus! {

/// What a column holds once `param` was written to it.
pub open spec fn stored(param: ParamView) -> CellView {
    match param {
        ParamView::Integer(i) => CellView::Integer(i),
        ParamView::Text(text) => CellView::Text(text),
    }
}

/// The row of the post `id` as the table holds it once a statement has
/// written its first four parameters to `date`, `title`, `body` and `author`,
/// which is what the insert and the update of the repository both do. The
/// columns stand in the order of the table.
pub open spec fn written_row(id: int, params: Seq<ParamView>) -> Seq<ColumnView>
    recommends
        params.len() >= 4,
{
    seq![
        ColumnView { name: "id"@, value: CellView::Integer(id) },
        ColumnView { name: "date"@, value: stored(params[0]) },
        ColumnView { name: "title"@, value: stored(params[1]) },
        ColumnView { name: "body"@, value: stored(params[2]) },
        ColumnView { name: "author"@, value: stored(params[3]) },
    ]
}

/// A row that was written by the insert or the update of the repository is
/// the post with the identifier of the row and the four texts that were
/// bound.
pub proof fn lemma_written_row_is_post(
    id: i32,
    date: Seq<char>,
    title: Seq<char>,
    body: Seq<char>,
    author: Seq<char>,
    rest: Seq<ParamView>,
)
    ensures
        post_of_row(
            written_row(
                id as int,
                seq![
                    ParamView::Text(date),
                    ParamView::Text(title),
                    ParamView::Text(body),
                    ParamView::Text(author),
                ] + rest,
            ),
        ) == Some(BlogPostView { id: id as int, date, title, body, author }),
{
    let params = seq![
        ParamView::Text(date),
        ParamView::Text(title),
        ParamView::Text(body),
        ParamView::Text(author),
    ] + rest;
    let row = written_row(id as int, params);
    reveal_strlit("id");
    reveal_strlit("date");
    reveal_strlit("title");
    reveal_strlit("body");
    reveal_strlit("author");
    assert("id"@.len() == 2 && "date"@.len() == 4 && "title"@.len() == 5);
    assert("body"@.len() == 4 && "author"@.len() == 6);
    assert("date"@[0] != "body"@[0]);
    lemma_cell_named_at(row, "id"@, 0);
    lemma_cell_named_at(row, "date"@, 1);
    lemma_cell_named_at(row, "title"@, 2);
    lemma_cell_named_at(row, "body"@, 3);
    lemma_cell_named_at(row, "author"@, 4);
}

/// The row that an insert wrote reads back as the post that was created.
///
/// Let the store answer the insert with the identifier `id` it assigned, in
/// a column of any name, and the select of `id` with the row the insert
/// wrote. Then `add_blog_post` gives `id`, and `get_blog_post` gives the post
/// with that identifier and exactly the four texts that were handed to
/// `add_blog_post_statement`.
pub proof fn lemma_inserted_row_reads_back(
    id: i32,
    date: Seq<char>,
    title: Seq<char>,
    body: Seq<char>,
    author: Seq<char>,
    id_column: Seq<char>,
)
    ensures
        created(
            FetchReplyView::Rows(
                seq![seq![ColumnView { name: id_column, value: CellView::Integer(id as int) }]],
            ),
        ) == Ok::<int, ServiceError>(id as int),
        fetched(
            id as int,
            FetchReplyView::Rows(
                seq![written_row(id as int, create_statement(date, title, body, author).params)],
            ),
        ) == Ok::<BlogPostView, ServiceError>(
            BlogPostView { id: id as int, date, title, body, author },
        ),
{
    let params = create_statement(date, title, body, author).params;
    assert(params =~= params + Seq::<ParamView>::empty());
    lemma_written_row_is_post(id, date, title, body, author, Seq::empty());
}

/// The row that an update wrote reads back with the new texts under the old
/// identifier.
///
/// The update names its post by the fifth parameter. Let the store answer
/// the select of `id` with the row the update wrote. Then `get_blog_post`
/// gives the post with the identifier `id` and exactly the four texts that
/// were handed to `update_blog_post_statement`.
pub proof fn lemma_updated_row_reads_back(
    id: i32,
    date: Seq<char>,
    title: Seq<char>,
    body: Seq<char>,
    author: Seq<char>,
)
    ensures
        update_statement(id as int, date, title, body, author).params[4] == ParamView::Integer(
            id as int,
        ),
        fetched(
            id as int,
            FetchReplyView::Rows(
                seq![
                    written_row(
                        id as int,
                        update_statement(id as int, date, title, body, author).params,
                    ),
                ],
            ),
        ) == Ok::<BlogPostView, ServiceError>(
            BlogPostView { id: id as int, date, title, body, author },
        ),
{
    let params = update_statement(id as int, date, title, body, author).params;
    assert(params =~= seq![
        ParamView::Text(date),
        ParamView::Text(title),
        ParamView::Text(body),
        ParamView::Text(author),
    ] + seq![ParamView::Integer(id as int)]);
    lemma_written_row_is_post(id, date, title, body, author, seq![ParamView::Integer(id as int)]);
}

/// A reply without rows is `NotFound`: when the select matches no row, as it
/// does in a table for an identifier that was never assigned or whose post
/// was deleted, `get_blog_post` gives `NotFound` and no post.
pub proof fn lemma_no_row_is_not_found(id: i32)
    ensures
        fetched(id as int, FetchReplyView::Rows(seq![])) == Err::<BlogPostView, ServiceError>(
            ServiceError::NotFound,
        ),
{
}

/// A post that was read is the post that was asked for: whatever the store
/// replied, a post that `get_blog_post` gives carries the identifier `id`.
pub proof fn lemma_fetched_post_has_the_identifier(id: i32, reply: FetchReplyView)
    ensures
        fetched(id as int, reply) matches Ok(post) ==> post.id == id,
{
}

/// Listing gives one post for each row of the reply, in the order of the
/// rows, whenever every row is a post. So the list is as long as the reply
/// has rows, and the post of each row stands in the list.
pub proof fn lemma_list_holds_every_row(rows: Seq<Seq<ColumnView>>)
    requires
        forall|i: int| 0 <= i < rows.len() ==> (#[trigger] post_of_row(rows[i])) is Some,
    ensures
        listed(FetchReplyView::Rows(rows)) is Ok,
        listed(FetchReplyView::Rows(rows))->Ok_0.len() == rows.len(),
        forall|i: int|
            0 <= i < rows.len() ==> Some(
                #[trigger] listed(FetchReplyView::Rows(rows))->Ok_0[i],
            ) == post_of_row(rows[i]),
{
}

/// The row that an insert wrote is in the list as the post that was created.
///
/// Let the reply hold posts only, and at the place `i` the row that the
/// insert wrote under the identifier `id`. Then `get_blog_posts` gives a
/// list as long as the reply that holds, at the place `i`, the post with
/// that identifier and the four texts that were handed to
/// `add_blog_post_statement`.
pub proof fn lemma_list_includes_inserted_row(
    rows: Seq<Seq<ColumnView>>,
    i: int,
    id: i32,
    date: Seq<char>,
    title: Seq<char>,
    body: Seq<char>,
    author: Seq<char>,
)
    requires
        forall|j: int| 0 <= j < rows.len() ==> (#[trigger] post_of_row(rows[j])) is Some,
        0 <= i < rows.len(),
        rows[i] == written_row(id as int, create_statement(date, title, body, author).params),
    ensures
        listed(FetchReplyView::Rows(rows)) matches Ok(posts) && posts.len() == rows.len()
            && posts[i] == (BlogPostView { id: id as int, date, title, body, author }),
{
    lemma_inserted_row_reads_back(id, date, title, body, author, seq![]);
    lemma_list_holds_every_row(rows);
    let posts = listed(FetchReplyView::Rows(rows))->Ok_0;
    assert(Some(posts[i]) == post_of_row(rows[i]));
}

/// The row that the insert writes for `post`, under the identifier of
/// `post`.
pub open spec fn inserted_row(post: BlogPostView) -> Seq<ColumnView> {
    written_row(post.id, create_statement(post.date, post.title, post.body, post.author).params)
}

/// After some posts were created and none was deleted, the list holds at
/// least as many posts as were created, and each of them.
///
/// Let `created` be posts that were created, under the identifiers the store
/// assigned, no two of them alike. Let the reply hold posts only, and among
/// them, at whatever places, the row that the insert wrote for each of
/// `created`; it may hold other rows too. Then `get_blog_posts` gives a list
/// that is as long as the reply, no shorter than `created`, and that holds
/// every post of `created` with its identifier and its four texts.
pub proof fn lemma_list_includes_all_inserted(
    rows: Seq<Seq<ColumnView>>,
    created: Seq<BlogPostView>,
)
    requires
        forall|j: int| 0 <= j < rows.len() ==> (#[trigger] post_of_row(rows[j])) is Some,
        forall|k: int|
            0 <= k < created.len() ==> i32::MIN <= (#[trigger] created[k]).id <= i32::MAX
                && rows.contains(inserted_row(created[k])),
        forall|k: int, l: int|
            0 <= k < l < created.len() ==> (#[trigger] created[k]).id != (#[trigger] created[l]).id,
    ensures
        listed(FetchReplyView::Rows(rows)) matches Ok(posts) && posts.len() == rows.len()
            && posts.len() >= created.len() && forall|k: int|
            0 <= k < created.len() ==> posts.contains(#[trigger] created[k]),
{
    lemma_list_holds_every_row(rows);
    let posts = listed(FetchReplyView::Rows(rows))->Ok_0;
    assert forall|k: int| 0 <= k < created.len() implies posts.contains(#[trigger] created[k]) by {
        let c = created[k];
        assert(rows.contains(inserted_row(c)));
        let i = choose|i: int| 0 <= i < rows.len() && rows[i] == inserted_row(c);
        lemma_list_includes_inserted_row(rows, i, c.id as i32, c.date, c.title, c.body, c.author);
        assert(posts[i] == c);
    }
    assert(created.no_duplicates());
    created.unique_seq_to_set();
    assert(created.to_set().subset_of(posts.to_set()));
    seq_to_set_is_finite(posts);
    lemma_len_subset(created.to_set(), posts.to_set());
    posts.lemma_cardinality_of_set();
}

/// An update or a delete that matched no row has succeeded: for the reply
/// that the statement ran and changed `changed` rows, zero included,
/// `update_blog_post` and `delete_blog_post` give `Ok`. They fail only when
/// the store did.
pub proof fn lemma_write_succeeds_whatever_it_changed(changed: u64)
    ensures
        written(ExecReply::Done(changed)) == Ok::<(), ServiceError>(()),
        written(ExecReply::Failed) == Err::<(), ServiceError>(ServiceError::StoreError),
{
}

} // verus!
