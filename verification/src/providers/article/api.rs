use vstd::prelude::*;
use crate::db::article::Article;

verus! {

/// The permission that writing an article asks for.
pub const CREATE_ARTICLE: &'static str = "CREATE_ARTICLE";

/// The text `html` with everything taken out that could do harm in a page.
pub uninterp spec fn sanitized(html: Seq<char>) -> Seq<char>;

/// `ammonia::clean` with its default rules.
#[verifier::external_body]
fn clean_html(html: &str) -> (clean: String)
    ensures
        clean@ == sanitized(html@),
{
    ammonia::clean(html)
}

/// The text of an article as it is stored for showing: the text that the
/// editor made, cleaned.
pub fn shown_content(generated: &str) -> (content: String)
    ensures
        content@ == sanitized(generated@),
{
    clean_html(generated)
}

/// The article `a` is a new article of `author`, written at the time
/// `now`, with the two texts stored under the given ids; all that is not
/// named is zero or empty.
pub open spec fn is_new_article(
    a: Article,
    author: i32,
    title: Seq<char>,
    alias: Seq<char>,
    is_pinned: bool,
    is_commentable: bool,
    draft_content_id: i32,
    content_id: i32,
    now: i64,
) -> bool {
    &&& a.id == 0
    &&& a.author == author
    &&& a.content_id == content_id
    &&& a.draft_content_id == draft_content_id
    &&& a.summary_content_id == 0
    &&& a.template_id == 0
    &&& a.cover_id == 0
    &&& a.visits == 0
    &&& a.comments == 0
    &&& a.public_state == 0
    &&& a.draft_state == 0
    &&& a.is_pinned == is_pinned
    &&& a.is_commentable == is_commentable
    &&& a.created_at == now
    &&& a.updated_at == now
    &&& a.password@ == Seq::<char>::empty()
    &&& a.title@ == title
    &&& a.alias@ == alias
}

/// The article to store for a request to write one.
pub fn create(
    author: i32,
    title: &str,
    alias: &str,
    is_pinned: bool,
    is_commentable: bool,
    draft_content_id: i32,
    content_id: i32,
    now: i64,
) -> (article: Article)
    ensures
        is_new_article(
            article,
            author,
            title@,
            alias@,
            is_pinned,
            is_commentable,
            draft_content_id,
            content_id,
            now,
        ),
{
    Article {
        id: 0,
        author,
        content_id,
        draft_content_id,
        summary_content_id: 0,
        template_id: 0,
        cover_id: 0,
        visits: 0,
        comments: 0,
        public_state: 0,
        draft_state: 0,
        is_pinned,
        is_commentable,
        created_at: now,
        updated_at: now,
        password: String::new(),
        title: title.to_owned(),
        alias: alias.to_owned(),
    }
}

} // verus!
