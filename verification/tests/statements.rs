use rustle::db::article::{
    create as create_article, list, save_content, Article, ArticleFilterable, ArticleSortable,
};
use rustle::db::user::{
    create as create_user, get_list, roles_from_row, select_by_email, select_by_id,
    select_by_id_with_password, select_by_identity_with_password, update_email, update_password,
    user_from_row,
};
use rustle::db::verification::{
    create as create_verification, delete_by_id, select_by_id as select_verification,
};
use rustle::db::{DBService, Query, SortOrder, SqlValue};
use rustle::providers::article::api::{create as new_article, shown_content, CREATE_ARTICLE};
use rustle::types::config::DatabaseConfig;
use rustle::types::service::AppService;

fn text(s: &str) -> SqlValue {
    SqlValue::Text(String::from(s))
}

#[test]
fn query_collects_its_values_in_order() {
    let q = Query::new("SELECT ?").bind_int(-1).bind_text("a").bind_bool(true).bind_time(7);
    assert_eq!(q.sql, "SELECT ?");
    assert_eq!(
        q.binds,
        vec![SqlValue::Int(-1), text("a"), SqlValue::Bool(true), SqlValue::Time(7)]
    );
    assert!(Query::new("").binds.is_empty());
}

#[test]
fn database_address_is_made_of_the_settings() {
    let c = DatabaseConfig {
        db_name: String::from("rustle_blog"),
        user_name: String::from("rustle"),
        password: String::from("pw"),
        host: String::from("127.0.0.1"),
        port: 3306,
    };
    assert_eq!(DBService::initialize(&c), "mysql://rustle:pw@127.0.0.1:3306/rustle_blog");
    assert_eq!(DBService::initialize(&DatabaseConfig::default()), "mysql://:@:0/");
    assert_eq!(DBService::name(), "DBService");
}

#[test]
fn sort_order_keywords() {
    assert_eq!(SortOrder::Asc.to_sql(), "ASC");
    assert_eq!(SortOrder::Desc.to_sql(), "DESC");
}

#[test]
fn user_statements() {
    let q = select_by_identity_with_password("ann");
    assert_eq!(q.sql, "SELECT * FROM users WHERE name = ? OR email = ? LIMIT 1");
    assert_eq!(q.binds, vec![text("ann"), text("ann")]);
    let q = select_by_id(3);
    assert_eq!(q.sql, "SELECT id,name,email FROM users WHERE id = ? LIMIT 1");
    assert_eq!(q.binds, vec![SqlValue::Int(3)]);
    let q = select_by_id_with_password(3);
    assert_eq!(q.sql, "SELECT * FROM users WHERE id = ? LIMIT 1");
    assert_eq!(q.binds, vec![SqlValue::Int(3)]);
    let q = select_by_email("a@b.c");
    assert_eq!(q.sql, "SELECT id,name,email FROM users WHERE email = ? LIMIT 1");
    assert_eq!(q.binds, vec![text("a@b.c")]);
    let q = create_user("ann", "a@b.c", "hash", "0,1");
    assert_eq!(
        q.sql,
        "INSERT INTO users (name,email,password,avatar_time,roles) VALUES (?,?,?,now(),?)"
    );
    assert_eq!(q.binds, vec![text("ann"), text("a@b.c"), text("hash"), text("0,1")]);
    let q = update_password(3, "hash");
    assert_eq!(q.sql, "UPDATE users SET password = ? WHERE id = ?");
    assert_eq!(q.binds, vec![text("hash"), SqlValue::Int(3)]);
    let q = update_email(3, "a@b.c");
    assert_eq!(q.sql, "UPDATE users SET email = ? WHERE id = ?");
    assert_eq!(q.binds, vec![text("a@b.c"), SqlValue::Int(3)]);
    let q = get_list(10, 20);
    assert_eq!(q.sql, "SELECT id,email,name,avatar_time,roles FROM users LIMIT ?,?");
    assert_eq!(q.binds, vec![SqlValue::Int(20), SqlValue::Int(10)]);
}

#[test]
fn verification_statements() {
    let q = create_verification(3, "a@b.c", "123456", 2);
    assert_eq!(
        q.sql,
        "INSERT INTO verifications (user,identity,random_code,action,created_at) VALUES (?,?,?,?,NOW())"
    );
    assert_eq!(q.binds, vec![SqlValue::Int(3), text("a@b.c"), text("123456"), SqlValue::Int(2)]);
    let q = select_verification(8);
    assert_eq!(q.sql, "SELECT * FROM verifications WHERE id = ?");
    assert_eq!(q.binds, vec![SqlValue::Int(8)]);
    let q = delete_by_id(8);
    assert_eq!(q.sql, "DELETE FROM verifications WHERE id = ?");
    assert_eq!(q.binds, vec![SqlValue::Int(8)]);
}

#[test]
fn roles_beside_a_user_pass_over_what_does_not_read() {
    assert_eq!(roles_from_row(""), Vec::<i32>::new());
    assert_eq!(roles_from_row("0,1"), vec![0, 1]);
    assert_eq!(roles_from_row("0,x,1,,2,"), vec![0, 1, 2]);
    assert_eq!(roles_from_row("x"), Vec::<i32>::new());
    assert_eq!(roles_from_row(",,"), Vec::<i32>::new());
    assert_eq!(roles_from_row("3,99999999999,-4"), vec![3, -4]);
    for stored in ["", "1,2", "a,1", "1, 2", "+1,-1", ","] {
        let expected: Vec<i32> = if stored.is_empty() {
            vec![]
        } else {
            stored.split(',').filter_map(|r| r.parse::<i32>().ok()).collect()
        };
        assert_eq!(roles_from_row(stored), expected);
    }
}

#[test]
fn user_is_made_from_its_row() {
    let u = user_from_row(
        3,
        String::from("ann"),
        String::from("a@b.c"),
        Some(String::from("hash")),
        1700000000,
        Some(String::from("0,1,z")),
    );
    assert_eq!(u.id, 3);
    assert_eq!(u.name, "ann");
    assert_eq!(u.email, "a@b.c");
    assert_eq!(u.password, Some(String::from("hash")));
    assert_eq!(u.avatar_time, 1700000000);
    assert_eq!(u.roles, Some(vec![0, 1]));
    let u = user_from_row(3, String::from("ann"), String::from("a@b.c"), None, 0, None);
    assert_eq!(u.password, None);
    assert_eq!(u.roles, None);
    let u = user_from_row(3, String::new(), String::new(), None, 0, Some(String::new()));
    assert_eq!(u.roles, Some(vec![]));
}

#[test]
fn article_conditions_and_orderings() {
    assert_eq!(ArticleFilterable::Author(1).get_field_name(), "author");
    assert_eq!(ArticleFilterable::IsPinned(true).get_field_name(), "is_pinned");
    let q = ArticleFilterable::Author(4).bind_value(Query::new("x"));
    assert_eq!(q.binds, vec![SqlValue::Int(4)]);
    let q = ArticleFilterable::IsPinned(false).bind_value(q);
    assert_eq!(q.binds, vec![SqlValue::Int(4), SqlValue::Bool(false)]);
    assert_eq!(q.sql, "x");
    assert_eq!(ArticleSortable::Visits(SortOrder::Asc).to_sql(), "visits ASC");
    assert_eq!(ArticleSortable::Comments(SortOrder::Desc).to_sql(), "comments DESC");
    assert_eq!(ArticleSortable::CreatedAt(SortOrder::Desc).to_sql(), "created_at DESC");
    assert_eq!(ArticleSortable::UpdatedAt(SortOrder::Asc).to_sql(), "updated_at ASC");
}

#[test]
fn article_list_without_conditions() {
    let (count, page) = list(10, 0, &vec![], &vec![]);
    assert_eq!(count.sql, "SELECT count(id) FROM articles");
    assert!(count.binds.is_empty());
    assert_eq!(
        page.sql,
        "SELECT * FROM articles JOIN (SELECT id FROM articles LIMIT 0,10)t USING(id)"
    );
    assert!(page.binds.is_empty());
}

#[test]
fn article_list_with_conditions_and_orderings() {
    let filter = vec![ArticleFilterable::Author(7), ArticleFilterable::IsPinned(true)];
    let sort = vec![
        ArticleSortable::CreatedAt(SortOrder::Desc),
        ArticleSortable::Visits(SortOrder::Asc),
    ];
    let (_, page) = list(20, 40, &filter, &sort);
    assert_eq!(
        page.sql,
        "SELECT * FROM articles JOIN (SELECT id FROM articles WHERE author = ? AND is_pinned = ? ORDER BY created_at DESC,visits ASC LIMIT 40,20)t USING(id)"
    );
    assert_eq!(page.binds, vec![SqlValue::Int(7), SqlValue::Bool(true)]);
    let (_, page) = list(5, -1, &vec![ArticleFilterable::IsPinned(false)], &vec![]);
    assert_eq!(
        page.sql,
        "SELECT * FROM articles JOIN (SELECT id FROM articles WHERE is_pinned = ? LIMIT -1,5)t USING(id)"
    );
    let (_, page) = list(5, 0, &vec![], &vec![ArticleSortable::Comments(SortOrder::Asc)]);
    assert_eq!(
        page.sql,
        "SELECT * FROM articles JOIN (SELECT id FROM articles ORDER BY comments ASC LIMIT 0,5)t USING(id)"
    );
}

#[test]
fn article_statements() {
    let q = save_content("<p>hi</p>");
    assert_eq!(q.sql, "INSERT INTO contents (content) VALUES (?)");
    assert_eq!(q.binds, vec![text("<p>hi</p>")]);
    let a = Article {
        id: 99,
        author: 1,
        content_id: 2,
        draft_content_id: 3,
        summary_content_id: 4,
        template_id: 5,
        cover_id: 6,
        visits: 7,
        comments: 8,
        public_state: 9,
        draft_state: 10,
        is_pinned: true,
        is_commentable: false,
        created_at: 11,
        updated_at: 12,
        password: String::from("pw"),
        title: String::from("t"),
        alias: String::from("al"),
    };
    let q = create_article(&a);
    assert_eq!(
        q.sql,
        "INSERT INTO articles (author,content_id,draft_content_id,summary_content_id,template_id,cover_id,visits,comments,public_state,draft_state,is_pinned,is_commentable,created_at,updated_at,password,title,alias) VALUES (?,?,?,?,?,?,?,?,?,?,?,?,?,?,?,?,?)"
    );
    assert_eq!(
        q.binds,
        vec![
            SqlValue::Int(1),
            SqlValue::Int(2),
            SqlValue::Int(3),
            SqlValue::Int(4),
            SqlValue::Int(5),
            SqlValue::Int(6),
            SqlValue::Int(7),
            SqlValue::Int(8),
            SqlValue::Int(9),
            SqlValue::Int(10),
            SqlValue::Bool(true),
            SqlValue::Bool(false),
            SqlValue::Time(11),
            SqlValue::Time(12),
            text("pw"),
            text("t"),
            text("al"),
        ]
    );
    assert_eq!(q.sql.matches('?').count(), q.binds.len());
}

#[test]
fn new_article_names_author_and_texts() {
    let a = new_article(4, "Title", "alias", true, false, 10, 11, 1700000000);
    assert_eq!(a.id, 0);
    assert_eq!(a.author, 4);
    assert_eq!(a.title, "Title");
    assert_eq!(a.alias, "alias");
    assert!(a.is_pinned);
    assert!(!a.is_commentable);
    assert_eq!(a.draft_content_id, 10);
    assert_eq!(a.content_id, 11);
    assert_eq!(a.created_at, 1700000000);
    assert_eq!(a.updated_at, 1700000000);
    assert_eq!(a.public_state, 0);
    assert_eq!(a.draft_state, 0);
    assert_eq!(a.visits + a.comments + a.cover_id + a.template_id + a.summary_content_id, 0);
    assert_eq!(a.password, "");
    assert_eq!(CREATE_ARTICLE, "CREATE_ARTICLE");
}

#[test]
fn shown_content_is_cleaned() {
    assert_eq!(shown_content("<p>hi</p>"), "<p>hi</p>");
    assert_eq!(shown_content("<p>hi</p><script>alert(1)</script>"), "<p>hi</p>");
    assert_eq!(shown_content(""), "");
    assert!(!shown_content("<img src=x onerror=alert(1)>").contains("onerror"));
}
