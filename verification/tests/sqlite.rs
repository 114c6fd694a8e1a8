use blog_service::error::ServiceError;
use blog_service::handlers::{get_blog_post_handler, get_blog_posts_handler, Body, Response, Step};
use blog_service::post::BlogPost;
use blog_service::repository::{
    add_blog_post, add_blog_post_statement, delete_blog_post, delete_blog_post_statement,
    get_blog_post, get_blog_post_statement, get_blog_posts, get_blog_posts_statement,
    update_blog_post, update_blog_post_statement,
};
use blog_service::store::{Cell, Column, ExecReply, Fetch, FetchReply, Param, Row, Statement};
use sqlx::sqlite::{SqliteArguments, SqlitePoolOptions, SqliteRow};
use sqlx::{Column as _, Row as _, Sqlite, SqlitePool, TypeInfo as _, ValueRef as _};

const SCHEMA: &str = "CREATE TABLE blog_posts (id INTEGER PRIMARY KEY AUTOINCREMENT, date TEXT, title TEXT, body TEXT, author TEXT)";

fn runtime() -> tokio::runtime::Runtime {
    tokio::runtime::Builder::new_current_thread().enable_all().build().unwrap()
}

async fn open() -> SqlitePool {
    let pool = SqlitePoolOptions::new()
        .max_connections(1)
        .idle_timeout(None)
        .max_lifetime(None)
        .connect("sqlite::memory:")
        .await
        .unwrap();
    sqlx::query(SCHEMA).execute(&pool).await.unwrap();
    pool
}

fn bound(stmt: &Statement) -> sqlx::query::Query<'_, Sqlite, SqliteArguments<'_>> {
    let mut query = sqlx::query(stmt.sql);
    for param in &stmt.params {
        query = match param {
            Param::Integer(i) => query.bind(*i),
            Param::Text(text) => query.bind(text.as_str()),
        };
    }
    query
}

fn cell(row: &SqliteRow, index: usize) -> Cell {
    let kind = {
        let raw = row.try_get_raw(index).unwrap();
        if raw.is_null() {
            String::from("NULL")
        } else {
            String::from(raw.type_info().name())
        }
    };
    match kind.as_str() {
        "NULL" => Cell::Null,
        "INTEGER" => Cell::Integer(row.try_get::<i64, _>(index).unwrap()),
        "TEXT" => Cell::Text(row.try_get::<String, _>(index).unwrap()),
        _ => Cell::Other,
    }
}

fn plain(row: &SqliteRow) -> Row {
    let mut columns = Vec::new();
    for column in row.columns() {
        columns.push(Column {
            name: String::from(column.name()),
            value: cell(row, column.ordinal()),
        });
    }
    Row { columns }
}

async fn fetch(pool: &SqlitePool, stmt: &Statement) -> FetchReply {
    match stmt.fetch {
        Fetch::All => match bound(stmt).fetch_all(pool).await {
            Ok(rows) => FetchReply::Rows(rows.iter().map(plain).collect()),
            Err(_) => FetchReply::Failed,
        },
        Fetch::One => match bound(stmt).fetch_one(pool).await {
            Ok(row) => FetchReply::Rows(vec![plain(&row)]),
            Err(sqlx::Error::RowNotFound) => FetchReply::Rows(vec![]),
            Err(_) => FetchReply::Failed,
        },
        Fetch::Nothing => panic!("a statement that fetches nothing has no rows to give"),
    }
}

async fn execute(pool: &SqlitePool, stmt: &Statement) -> ExecReply {
    assert_eq!(stmt.fetch, Fetch::Nothing);
    match bound(stmt).execute(pool).await {
        Ok(done) => ExecReply::Done(done.rows_affected()),
        Err(_) => ExecReply::Failed,
    }
}

async fn create(pool: &SqlitePool, date: &str, title: &str, body: &str, author: &str) -> i32 {
    let stmt = add_blog_post_statement(
        String::from(date),
        String::from(title),
        String::from(body),
        String::from(author),
    );
    add_blog_post(fetch(pool, &stmt).await).unwrap()
}

async fn get(pool: &SqlitePool, id: i32) -> Result<BlogPost, ServiceError> {
    get_blog_post(id, fetch(pool, &get_blog_post_statement(id)).await)
}

async fn list(pool: &SqlitePool) -> Vec<BlogPost> {
    get_blog_posts(fetch(pool, &get_blog_posts_statement()).await).unwrap()
}

async fn serve_post(pool: &SqlitePool, segment: &str) -> Response {
    let mut reply = None;
    loop {
        match get_blog_post_handler(segment, reply) {
            Step::Query(stmt) => reply = Some(fetch(pool, &stmt).await),
            Step::Respond(response) => return response,
        }
    }
}

async fn serve_posts(pool: &SqlitePool) -> Response {
    let mut reply = None;
    loop {
        match get_blog_posts_handler(reply) {
            Step::Query(stmt) => reply = Some(fetch(pool, &stmt).await),
            Step::Respond(response) => return response,
        }
    }
}

fn post(id: i32, date: &str, title: &str, body: &str, author: &str) -> BlogPost {
    BlogPost {
        id,
        date: String::from(date),
        title: String::from(title),
        body: String::from(body),
        author: String::from(author),
    }
}

#[test]
fn sqlite_create_then_get_returns_the_post() {
    runtime().block_on(async {
        let pool = open().await;
        let id = create(&pool, "2024-01-01", "Hello", "World", "Ann").await;
        assert!(id >= 1);
        assert_eq!(get(&pool, id).await, Ok(post(id, "2024-01-01", "Hello", "World", "Ann")));
    });
}

#[test]
fn sqlite_create_keeps_every_text_exactly() {
    runtime().block_on(async {
        let pool = open().await;
        let hostile = "x'); DROP TABLE blog_posts; --";
        let odd = "\"quoted\" \\ back ? \n line \u{1f600} na\u{ef}ve";
        let id = create(&pool, "", hostile, odd, "?").await;
        assert_eq!(get(&pool, id).await, Ok(post(id, "", hostile, odd, "?")));
        assert_eq!(list(&pool).await.len(), 1);
    });
}

#[test]
fn sqlite_create_assigns_fresh_identifiers() {
    runtime().block_on(async {
        let pool = open().await;
        let a = create(&pool, "d", "t", "b", "a").await;
        let b = create(&pool, "d", "t", "b", "a").await;
        let c = create(&pool, "d", "t", "b", "a").await;
        assert_eq!((a, b, c), (1, 2, 3));
    });
}

#[test]
fn sqlite_get_of_an_unknown_identifier_is_not_found() {
    runtime().block_on(async {
        let pool = open().await;
        assert_eq!(get(&pool, 1).await, Err(ServiceError::NotFound));
        let id = create(&pool, "d", "t", "b", "a").await;
        assert_eq!(get(&pool, id + 1).await, Err(ServiceError::NotFound));
        assert_eq!(get(&pool, 0).await, Err(ServiceError::NotFound));
        assert_eq!(get(&pool, -1).await, Err(ServiceError::NotFound));
        assert_eq!(get(&pool, 999999).await, Err(ServiceError::NotFound));
    });
}

#[test]
fn sqlite_list_holds_every_created_post() {
    runtime().block_on(async {
        let pool = open().await;
        assert_eq!(list(&pool).await, vec![]);
        let mut made = Vec::new();
        for n in 0..5 {
            let title = format!("title {}", n);
            let id = create(&pool, "2024-01-01", &title, "body", "author").await;
            made.push(post(id, "2024-01-01", &title, "body", "author"));
        }
        let all = list(&pool).await;
        assert!(all.len() >= made.len());
        for p in &made {
            assert!(all.contains(p));
        }
        assert_eq!(all, made);
    });
}

#[test]
fn sqlite_update_overwrites_the_four_texts() {
    runtime().block_on(async {
        let pool = open().await;
        let id = create(&pool, "d", "t", "b", "a").await;
        let other = create(&pool, "d2", "t2", "b2", "a2").await;
        let stmt = update_blog_post_statement(
            id,
            String::from("D"),
            String::from("T"),
            String::from("B"),
            String::from("A"),
        );
        assert_eq!(execute(&pool, &stmt).await, ExecReply::Done(1));
        assert_eq!(update_blog_post(ExecReply::Done(1)), Ok(()));
        assert_eq!(get(&pool, id).await, Ok(post(id, "D", "T", "B", "A")));
        assert_eq!(get(&pool, other).await, Ok(post(other, "d2", "t2", "b2", "a2")));
    });
}

#[test]
fn sqlite_update_of_an_absent_post_changes_nothing() {
    runtime().block_on(async {
        let pool = open().await;
        let id = create(&pool, "d", "t", "b", "a").await;
        let before = list(&pool).await;
        let stmt = update_blog_post_statement(
            id + 100,
            String::from("D"),
            String::from("T"),
            String::from("B"),
            String::from("A"),
        );
        let reply = execute(&pool, &stmt).await;
        assert_eq!(reply, ExecReply::Done(0));
        assert_eq!(update_blog_post(reply), Ok(()));
        let after = list(&pool).await;
        assert_eq!(after.len(), before.len());
        assert_eq!(after, before);
        assert_eq!(get(&pool, id + 100).await, Err(ServiceError::NotFound));
    });
}

#[test]
fn sqlite_delete_then_get_is_not_found() {
    runtime().block_on(async {
        let pool = open().await;
        let keep = create(&pool, "d", "t", "b", "a").await;
        let id = create(&pool, "d2", "t2", "b2", "a2").await;
        let reply = execute(&pool, &delete_blog_post_statement(id)).await;
        assert_eq!(reply, ExecReply::Done(1));
        assert_eq!(delete_blog_post(reply), Ok(()));
        assert_eq!(get(&pool, id).await, Err(ServiceError::NotFound));
        assert_eq!(get(&pool, keep).await, Ok(post(keep, "d", "t", "b", "a")));
        let again = execute(&pool, &delete_blog_post_statement(id)).await;
        assert_eq!(again, ExecReply::Done(0));
        assert_eq!(delete_blog_post(again), Ok(()));
        assert_eq!(list(&pool).await, vec![post(keep, "d", "t", "b", "a")]);
    });
}

#[test]
fn sqlite_failed_store_is_a_store_error() {
    runtime().block_on(async {
        let pool = SqlitePoolOptions::new()
            .max_connections(1)
            .connect("sqlite::memory:")
            .await
            .unwrap();
        let reply = fetch(&pool, &get_blog_posts_statement()).await;
        assert_eq!(reply, FetchReply::Failed);
        assert_eq!(get_blog_posts(reply), Err(ServiceError::StoreError));
        let reply = fetch(&pool, &get_blog_post_statement(1)).await;
        assert_eq!(get_blog_post(1, reply), Err(ServiceError::StoreError));
        let reply = execute(&pool, &delete_blog_post_statement(1)).await;
        assert_eq!(delete_blog_post(reply), Err(ServiceError::StoreError));
        assert_eq!(serve_posts(&pool).await, Response { status: 500, body: Body::Empty });
        assert_eq!(serve_post(&pool, "1").await, Response { status: 500, body: Body::Empty });
        assert_eq!(serve_post(&pool, "abc").await, Response { status: 400, body: Body::Empty });
    });
}

#[test]
fn sqlite_null_column_is_a_store_error() {
    runtime().block_on(async {
        let pool = open().await;
        sqlx::query("INSERT INTO blog_posts (date, title) VALUES ('d', 't')")
            .execute(&pool)
            .await
            .unwrap();
        assert_eq!(get(&pool, 1).await, Err(ServiceError::StoreError));
        let reply = fetch(&pool, &get_blog_posts_statement()).await;
        assert_eq!(get_blog_posts(reply), Err(ServiceError::StoreError));
    });
}

#[test]
fn sqlite_end_to_end() {
    runtime().block_on(async {
        let pool = open().await;
        let id = create(&pool, "2024-01-01", "Hello", "World", "Ann").await;
        assert!(id >= 1);
        let segment = id.to_string();
        assert_eq!(
            serve_post(&pool, &segment).await,
            Response {
                status: 200,
                body: Body::Post(post(id, "2024-01-01", "Hello", "World", "Ann")),
            }
        );
        assert_eq!(
            serve_post(&pool, "999999").await,
            Response { status: 404, body: Body::Empty }
        );
        assert_eq!(serve_post(&pool, "abc").await, Response { status: 400, body: Body::Empty });
        assert_eq!(
            serve_posts(&pool).await,
            Response {
                status: 200,
                body: Body::Posts(vec![post(id, "2024-01-01", "Hello", "World", "Ann")]),
            }
        );
    });
}
