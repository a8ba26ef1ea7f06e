use vstd::prelude::*;
use crate::db::{Query, QueryView, SortOrder, SqlValueView};
use crate::utils::decimal::{int_text, push_i32_text};
use crate::utils::text::join_with;

verus! {

/// An article as the store holds it. The two times are in seconds since
/// 1970.
#[derive(Debug, Clone, Default)]
pub struct Article {
    pub id: i32,
    pub author: i32,
    pub content_id: i32,
    pub draft_content_id: i32,
    pub summary_content_id: i32,
    pub template_id: i32,
    pub cover_id: i32,
    pub visits: i32,
    pub comments: i32,
    pub public_state: i16,
    pub draft_state: i16,
    pub is_pinned: bool,
    pub is_commentable: bool,
    pub created_at: i64,
    pub updated_at: i64,
    pub password: String,
    pub title: String,
    pub alias: String,
}

/// What a list of articles shows of each article.
#[derive(Debug, Clone)]
pub struct ArticlePublicBrief {
    pub id: i32,
    pub author: i32,
    pub cover_id: i32,
    pub visits: i32,
    pub comments: i32,
    pub is_pinned: bool,
    pub is_commentable: bool,
    pub created_at: i64,
    pub updated_at: i64,
    pub title: String,
    pub alias: String,
}

/// A text of an article as the store holds it.
#[derive(Debug, Clone, Default)]
pub struct ArticleContent {
    pub id: i32,
    pub content: String,
}

/// A condition on the articles of a list: the column must have the value.
#[derive(Debug, Clone, Copy, PartialEq, Eq)]
pub enum ArticleFilterable {
    Author(i32),
    IsPinned(bool),
}

impl ArticleFilterable {
    /// The column that the condition is on.
    pub open spec fn field_name(self) -> &'static str {
        match self {
            ArticleFilterable::Author(_) => "author",
            ArticleFilterable::IsPinned(_) => "is_pinned",
        }
    }

    /// The value that the column must have.
    pub open spec fn value(self) -> SqlValueView {
        match self {
            ArticleFilterable::Author(v) => SqlValueView::Int(v as i64),
            ArticleFilterable::IsPinned(v) => SqlValueView::Bool(v),
        }
    }

    /// The condition as it stands in a statement.
    pub open spec fn condition(self) -> Seq<char> {
        self.field_name()@ + " = ?"@
    }

    pub fn get_field_name(&self) -> (name: &'static str)
        ensures
            name == self.field_name(),
    {
        match self {
            ArticleFilterable::Author(_) => "author",
            ArticleFilterable::IsPinned(_) => "is_pinned",
        }
    }

    /// The statement with the value of the condition as its next value.
    pub fn bind_value(self, q: Query) -> (bound: Query)
        ensures
            bound@ == (QueryView { sql: q@.sql, binds: q@.binds.push(self.value()) }),
    {
        match self {
            ArticleFilterable::Author(v) => q.bind_int(v as i64),
            ArticleFilterable::IsPinned(v) => q.bind_bool(v),
        }
    }
}

/// An ordering of the articles of a list: by the column, in the direction.
#[derive(Debug, Clone, Copy, PartialEq, Eq)]
pub enum ArticleSortable {
    Visits(SortOrder),
    Comments(SortOrder),
    CreatedAt(SortOrder),
    UpdatedAt(SortOrder),
}

impl ArticleSortable {
    /// The column that is ordered by.
    pub open spec fn field_name(self) -> &'static str {
        match self {
            ArticleSortable::Visits(_) => "visits",
            ArticleSortable::Comments(_) => "comments",
            ArticleSortable::CreatedAt(_) => "created_at",
            ArticleSortable::UpdatedAt(_) => "updated_at",
        }
    }

    /// The direction of the ordering.
    pub open spec fn order(self) -> SortOrder {
        match self {
            ArticleSortable::Visits(o) => o,
            ArticleSortable::Comments(o) => o,
            ArticleSortable::CreatedAt(o) => o,
            ArticleSortable::UpdatedAt(o) => o,
        }
    }

    /// The ordering as it stands in a statement.
    pub open spec fn sql(self) -> Seq<char> {
        self.field_name()@ + " "@ + self.order().keyword()@
    }

    pub fn to_sql(&self) -> (sql: String)
        ensures
            sql@ == self.sql(),
    {
        let (name, order): (&'static str, SortOrder) = match self {
            ArticleSortable::Visits(o) => ("visits", *o),
            ArticleSortable::Comments(o) => ("comments", *o),
            ArticleSortable::CreatedAt(o) => ("created_at", *o),
            ArticleSortable::UpdatedAt(o) => ("updated_at", *o),
        };
        let mut sql = name.to_owned();
        sql.append(" ");
        sql.append(order.to_sql());
        sql
    }
}

/// The statement that stores a text of an article.
pub fn save_content(content: &str) -> (q: Query)
    ensures
        q@ == (QueryView {
            sql: "INSERT INTO contents (content) VALUES (?)"@,
            binds: seq![SqlValueView::Text(content@)],
        }),
{
    Query::new("INSERT INTO contents (content) VALUES (?)").bind_text(content)
}

/// The values of the statement that stores `article`, in the order of its
/// columns.
pub open spec fn create_binds(article: Article) -> Seq<SqlValueView> {
    seq![
        SqlValueView::Int(article.author as i64),
        SqlValueView::Int(article.content_id as i64),
        SqlValueView::Int(article.draft_content_id as i64),
        SqlValueView::Int(article.summary_content_id as i64),
        SqlValueView::Int(article.template_id as i64),
        SqlValueView::Int(article.cover_id as i64),
        SqlValueView::Int(article.visits as i64),
        SqlValueView::Int(article.comments as i64),
        SqlValueView::Int(article.public_state as i64),
        SqlValueView::Int(article.draft_state as i64),
        SqlValueView::Bool(article.is_pinned),
        SqlValueView::Bool(article.is_commentable),
        SqlValueView::Time(article.created_at),
        SqlValueView::Time(article.updated_at),
        SqlValueView::Text(article.password@),
        SqlValueView::Text(article.title@),
        SqlValueView::Text(article.alias@),
    ]
}

/// The statement that stores a new article.
pub fn create(article: &Article) -> (q: Query)
    ensures
        q@ == (QueryView {
            sql: "INSERT INTO articles (author,content_id,draft_content_id,summary_content_id,template_id,cover_id,visits,comments,public_state,draft_state,is_pinned,is_commentable,created_at,updated_at,password,title,alias) VALUES (?,?,?,?,?,?,?,?,?,?,?,?,?,?,?,?,?)"@,
            binds: create_binds(*article),
        }),
{
    let q = Query::new(
        "INSERT INTO articles (author,content_id,draft_content_id,summary_content_id,template_id,cover_id,visits,comments,public_state,draft_state,is_pinned,is_commentable,created_at,updated_at,password,title,alias) VALUES (?,?,?,?,?,?,?,?,?,?,?,?,?,?,?,?,?)",
    ).bind_int(article.author as i64).bind_int(article.content_id as i64).bind_int(
        article.draft_content_id as i64,
    ).bind_int(article.summary_content_id as i64).bind_int(article.template_id as i64).bind_int(
        article.cover_id as i64,
    ).bind_int(article.visits as i64).bind_int(article.comments as i64).bind_int(
        article.public_state as i64,
    ).bind_int(article.draft_state as i64).bind_bool(article.is_pinned).bind_bool(
        article.is_commentable,
    ).bind_time(article.created_at).bind_time(article.updated_at).bind_text(
        article.password.as_str(),
    ).bind_text(article.title.as_str()).bind_text(article.alias.as_str());
    assert(q@.binds =~= create_binds(*article));
    q
}

/// The conditions of `filter` as they stand in a statement, in order.
pub open spec fn conditions(filter: Seq<ArticleFilterable>) -> Seq<Seq<char>> {
    Seq::new(filter.len(), |i: int| filter[i].condition())
}

/// The values of the conditions of `filter`, in order.
pub open spec fn condition_values(filter: Seq<ArticleFilterable>) -> Seq<SqlValueView> {
    Seq::new(filter.len(), |i: int| filter[i].value())
}

/// The orderings of `sort` as they stand in a statement, in order.
pub open spec fn orderings(sort: Seq<ArticleSortable>) -> Seq<Seq<char>> {
    Seq::new(sort.len(), |i: int| sort[i].sql())
}

/// The text of the statement that picks the ids of the articles of a list:
/// all conditions of `filter` must hold, and the articles come ordered by
/// `sort`, the first ordering deciding first.
pub open spec fn list_ids_sql(filter: Seq<ArticleFilterable>, sort: Seq<ArticleSortable>) -> Seq<
    char,
> {
    let where_part = join_with(conditions(filter), " AND "@);
    let order_part = join_with(orderings(sort), ","@);
    "SELECT id FROM articles"@ + (if where_part.len() != 0 {
        " WHERE "@ + where_part
    } else {
        Seq::empty()
    }) + (if order_part.len() != 0 {
        " ORDER BY "@ + order_part
    } else {
        Seq::empty()
    })
}

/// The text of the statement that reads one page of a list of articles.
pub open spec fn list_sql(
    limit: i32,
    offset: i32,
    filter: Seq<ArticleFilterable>,
    sort: Seq<ArticleSortable>,
) -> Seq<char> {
    "SELECT * FROM articles JOIN ("@ + list_ids_sql(filter, sort) + " LIMIT "@ + int_text(
        offset as int,
    ) + ","@ + int_text(limit as int) + ")t USING(id)"@
}

/// The two statements that list articles: the one that counts all
/// articles, and the one that reads `limit` articles after the first
/// `offset` of those that `filter` lets through, in the order of `sort`.
pub fn list(
    limit: i32,
    offset: i32,
    filter: &Vec<ArticleFilterable>,
    sort: &Vec<ArticleSortable>,
) -> (q: (Query, Query))
    ensures
        q.0@ == (QueryView { sql: "SELECT count(id) FROM articles"@, binds: Seq::empty() }),
        q.1@ == (QueryView {
            sql: list_sql(limit, offset, filter@, sort@),
            binds: condition_values(filter@),
        }),
{
    let mut where_query = String::new();
    let mut i: usize = 0;
    assert(conditions(filter@).take(0) =~= Seq::<Seq<char>>::empty());
    while i < filter.len()
        invariant
            i <= filter.len(),
            where_query@ == join_with(conditions(filter@).take(i as int), " AND "@),
        decreases filter.len() - i,
    {
        let ghost done = conditions(filter@).take(i as int);
        let ghost more = conditions(filter@).take(i + 1);
        proof {
            assert(more.drop_last() =~= done);
            assert(more.last() == filter@[i as int].condition());
            if i == 0 {
                assert(Seq::<char>::empty() + more[0] =~= more[0]);
            }
        }
        if i > 0 {
            where_query.append(" AND ");
        }
        where_query.append(filter[i].get_field_name());
        where_query.append(" = ?");
        assert(where_query@ =~= join_with(more, " AND "@));
        i = i + 1;
    }
    assert(conditions(filter@).take(filter.len() as int) =~= conditions(filter@));
    let mut order_query = String::new();
    let mut j: usize = 0;
    assert(orderings(sort@).take(0) =~= Seq::<Seq<char>>::empty());
    while j < sort.len()
        invariant
            j <= sort.len(),
            order_query@ == join_with(orderings(sort@).take(j as int), ","@),
        decreases sort.len() - j,
    {
        let ghost done = orderings(sort@).take(j as int);
        let ghost more = orderings(sort@).take(j + 1);
        proof {
            assert(more.drop_last() =~= done);
            assert(more.last() == sort@[j as int].sql());
            if j == 0 {
                assert(Seq::<char>::empty() + more[0] =~= more[0]);
            }
        }
        if j > 0 {
            order_query.append(",");
        }
        let piece = sort[j].to_sql();
        order_query.append(piece.as_str());
        assert(order_query@ =~= join_with(more, ","@));
        j = j + 1;
    }
    assert(orderings(sort@).take(sort.len() as int) =~= orderings(sort@));
    let mut sql = "SELECT * FROM articles JOIN (".to_owned();
    sql.append("SELECT id FROM articles");
    if !where_query.as_str().is_empty() {
        sql.append(" WHERE ");
        sql.append(where_query.as_str());
    }
    if !order_query.as_str().is_empty() {
        sql.append(" ORDER BY ");
        sql.append(order_query.as_str());
    }
    assert(sql@ =~= "SELECT * FROM articles JOIN ("@ + list_ids_sql(filter@, sort@));
    sql.append(" LIMIT ");
    push_i32_text(&mut sql, offset);
    sql.append(",");
    push_i32_text(&mut sql, limit);
    sql.append(")t USING(id)");
    let mut page = Query::new("");
    page.sql = sql;
    let mut k: usize = 0;
    assert(condition_values(filter@).take(0) =~= page@.binds);
    while k < filter.len()
        invariant
            k <= filter.len(),
            page@.sql == sql@,
            page@.binds == condition_values(filter@).take(k as int),
        decreases filter.len() - k,
    {
        page = filter[k].bind_value(page);
        assert(condition_values(filter@).take(k as int).push(filter@[k as int].value())
            =~= condition_values(filter@).take(k + 1));
        k = k + 1;
    }
    assert(condition_values(filter@).take(filter.len() as int) =~= condition_values(filter@));
    assert(page@.sql =~= list_sql(limit, offset, filter@, sort@));
    (Query::new("SELECT count(id) FROM articles"), page)
}

} // verus!
