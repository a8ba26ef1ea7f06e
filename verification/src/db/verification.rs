use vstd::prelude::*;
use crate::db::{Query, QueryView, SqlValueView};

verus! {

/// A pending check of a user's identity. `created_at` is in seconds since
/// 1970.
#[derive(Debug, Clone)]
pub struct Verification {
    pub id: i32,
    pub user: i32,
    pub identity: String,
    pub random_code: String,
    pub action: i16,
    pub created_at: i64,
}

/// The statement that stores a new pending check.
pub fn create(user: i32, identity: &str, random_code: &str, action: i16) -> (q: Query)
    ensures
        q@ == (QueryView {
            sql: "INSERT INTO verifications (user,identity,random_code,action,created_at) VALUES (?,?,?,?,NOW())"@,
            binds: seq![
                SqlValueView::Int(user as i64),
                SqlValueView::Text(identity@),
                SqlValueView::Text(random_code@),
                SqlValueView::Int(action as i64),
            ],
        }),
{
    let q = Query::new(
        "INSERT INTO verifications (user,identity,random_code,action,created_at) VALUES (?,?,?,?,NOW())",
    ).bind_int(user as i64).bind_text(identity).bind_text(random_code).bind_int(action as i64);
    assert(q@.binds =~= seq![
        SqlValueView::Int(user as i64),
        SqlValueView::Text(identity@),
        SqlValueView::Text(random_code@),
        SqlValueView::Int(action as i64),
    ]);
    q
}

/// The statement that finds a pending check by id.
pub fn select_by_id(id: i32) -> (q: Query)
    ensures
        q@ == (QueryView {
            sql: "SELECT * FROM verifications WHERE id = ?"@,
            binds: seq![SqlValueView::Int(id as i64)],
        }),
{
    Query::new("SELECT * FROM verifications WHERE id = ?").bind_int(id as i64)
}

/// The statement that removes a pending check.
pub fn delete_by_id(id: i32) -> (q: Query)
    ensures
        q@ == (QueryView {
            sql: "DELETE FROM verifications WHERE id = ?"@,
            binds: seq![SqlValueView::Int(id as i64)],
        }),
{
    Query::new("DELETE FROM verifications WHERE id = ?").bind_int(id as i64)
}

} // verus!
