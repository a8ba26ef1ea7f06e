use vstd::prelude::*;
use crate::db::{Query, QueryView, SqlValueView};
use crate::utils::decimal::{parse_i32, parse_i32_chars};
use crate::utils::text::{split, split_chars, str_chars};

verus! {

/// A user as the store holds it. `password` and `roles` are there only
/// where they were asked for. `avatar_time` is in seconds since 1970.
#[derive(Debug, Clone)]
pub struct User {
    pub id: i32,
    pub name: String,
    pub email: String,
    pub password: Option<String>,
    pub avatar_time: i64,
    pub roles: Option<Vec<i32>>,
}

/// A user's id and name.
#[derive(Debug, Clone)]
pub struct UserIdName {
    pub id: i32,
    pub name: String,
}

/// The numbers among `tokens`, in order: each token that reads as an `i32`
/// gives its number, and every other token is passed over.
pub open spec fn readable_numbers(tokens: Seq<Seq<char>>) -> Seq<i32>
    decreases tokens.len(),
{
    if tokens.len() == 0 {
        Seq::empty()
    } else {
        let before = readable_numbers(tokens.drop_last());
        match parse_i32(tokens.last()) {
            Some(n) => before.push(n),
            None => before,
        }
    }
}

/// The roles that a stored role string shows beside a user: of the pieces
/// between its commas, those that read as numbers. The empty string shows
/// none.
pub open spec fn shown_roles(stored: Seq<char>) -> Seq<i32> {
    if stored.len() == 0 {
        Seq::empty()
    } else {
        readable_numbers(split(stored, ','))
    }
}

/// Reads the roles to show beside a user out of the stored role string,
/// passing over what does not read.
pub fn roles_from_row(stored: &str) -> (roles: Vec<i32>)
    ensures
        roles@ == shown_roles(stored@),
{
    let chars = str_chars(stored);
    let mut roles: Vec<i32> = Vec::new();
    if chars.len() == 0 {
        return roles;
    }
    let tokens = split_chars(&chars, ',');
    let ghost views = split(stored@, ',');
    let mut i: usize = 0;
    assert(views.take(0) =~= Seq::<Seq<char>>::empty());
    while i < tokens.len()
        invariant
            i <= tokens.len(),
            tokens.len() == views.len(),
            forall|j: int| 0 <= j < tokens.len() ==> (#[trigger] tokens[j])@ == views[j],
            roles@ == readable_numbers(views.take(i as int)),
        decreases tokens.len() - i,
    {
        let token: &Vec<char> = &tokens[i];
        proof {
            assert(views.take(i + 1).drop_last() =~= views.take(i as int));
            assert(views.take(i + 1).last() == views[i as int]);
            assert(token@.subrange(0, token.len() as int) =~= token@);
        }
        match parse_i32_chars(token, 0, token.len()) {
            Some(n) => {
                roles.push(n);
            },
            None => {},
        }
        i = i + 1;
    }
    assert(views.take(tokens.len() as int) =~= views);
    roles
}

/// The user that a row of the store holds. `password` and `roles` are the
/// columns of those names, `None` where the row has no such column.
pub fn user_from_row(
    id: i32,
    name: String,
    email: String,
    password: Option<String>,
    avatar_time: i64,
    roles: Option<String>,
) -> (user: User)
    ensures
        user.id == id,
        user.name == name,
        user.email == email,
        user.password == password,
        user.avatar_time == avatar_time,
        match roles {
            None => user.roles is None,
            Some(stored) => user.roles is Some && user.roles.unwrap()@ == shown_roles(stored@),
        },
{
    let roles = match roles {
        None => None,
        Some(stored) => Some(roles_from_row(stored.as_str())),
    };
    User { id, name, email, password, avatar_time, roles }
}

/// The statement that finds a user by name or by address, with password.
pub fn select_by_identity_with_password(identity: &str) -> (q: Query)
    ensures
        q@ == (QueryView {
            sql: "SELECT * FROM users WHERE name = ? OR email = ? LIMIT 1"@,
            binds: seq![SqlValueView::Text(identity@), SqlValueView::Text(identity@)],
        }),
{
    let q = Query::new("SELECT * FROM users WHERE name = ? OR email = ? LIMIT 1").bind_text(
        identity,
    ).bind_text(identity);
    assert(q@.binds =~= seq![SqlValueView::Text(identity@), SqlValueView::Text(identity@)]);
    q
}

/// The statement that finds a user by id.
pub fn select_by_id(id: i32) -> (q: Query)
    ensures
        q@ == (QueryView {
            sql: "SELECT id,name,email FROM users WHERE id = ? LIMIT 1"@,
            binds: seq![SqlValueView::Int(id as i64)],
        }),
{
    Query::new("SELECT id,name,email FROM users WHERE id = ? LIMIT 1").bind_int(id as i64)
}

/// The statement that finds a user by id, with password.
pub fn select_by_id_with_password(id: i32) -> (q: Query)
    ensures
        q@ == (QueryView {
            sql: "SELECT * FROM users WHERE id = ? LIMIT 1"@,
            binds: seq![SqlValueView::Int(id as i64)],
        }),
{
    Query::new("SELECT * FROM users WHERE id = ? LIMIT 1").bind_int(id as i64)
}

/// The statement that finds a user by address.
pub fn select_by_email(email: &str) -> (q: Query)
    ensures
        q@ == (QueryView {
            sql: "SELECT id,name,email FROM users WHERE email = ? LIMIT 1"@,
            binds: seq![SqlValueView::Text(email@)],
        }),
{
    Query::new("SELECT id,name,email FROM users WHERE email = ? LIMIT 1").bind_text(email)
}

/// The statement that stores a new user.
pub fn create(name: &str, email: &str, password: &str, roles: &str) -> (q: Query)
    ensures
        q@ == (QueryView {
            sql: "INSERT INTO users (name,email,password,avatar_time,roles) VALUES (?,?,?,now(),?)"@,
            binds: seq![
                SqlValueView::Text(name@),
                SqlValueView::Text(email@),
                SqlValueView::Text(password@),
                SqlValueView::Text(roles@),
            ],
        }),
{
    let q = Query::new(
        "INSERT INTO users (name,email,password,avatar_time,roles) VALUES (?,?,?,now(),?)",
    ).bind_text(name).bind_text(email).bind_text(password).bind_text(roles);
    assert(q@.binds =~= seq![
        SqlValueView::Text(name@),
        SqlValueView::Text(email@),
        SqlValueView::Text(password@),
        SqlValueView::Text(roles@),
    ]);
    q
}

/// The statement that stores a new password hash for a user.
pub fn update_password(id: i32, password: &str) -> (q: Query)
    ensures
        q@ == (QueryView {
            sql: "UPDATE users SET password = ? WHERE id = ?"@,
            binds: seq![SqlValueView::Text(password@), SqlValueView::Int(id as i64)],
        }),
{
    let q = Query::new("UPDATE users SET password = ? WHERE id = ?").bind_text(password).bind_int(
        id as i64,
    );
    assert(q@.binds =~= seq![SqlValueView::Text(password@), SqlValueView::Int(id as i64)]);
    q
}

/// The statement that stores a new address for a user.
pub fn update_email(id: i32, email: &str) -> (q: Query)
    ensures
        q@ == (QueryView {
            sql: "UPDATE users SET email = ? WHERE id = ?"@,
            binds: seq![SqlValueView::Text(email@), SqlValueView::Int(id as i64)],
        }),
{
    let q = Query::new("UPDATE users SET email = ? WHERE id = ?").bind_text(email).bind_int(
        id as i64,
    );
    assert(q@.binds =~= seq![SqlValueView::Text(email@), SqlValueView::Int(id as i64)]);
    q
}

/// The statement that reads `limit` users after the first `offset`.
pub fn get_list(limit: i32, offset: i32) -> (q: Query)
    ensures
        q@ == (QueryView {
            sql: "SELECT id,email,name,avatar_time,roles FROM users LIMIT ?,?"@,
            binds: seq![SqlValueView::Int(offset as i64), SqlValueView::Int(limit as i64)],
        }),
{
    let q = Query::new("SELECT id,email,name,avatar_time,roles FROM users LIMIT ?,?").bind_int(
        offset as i64,
    ).bind_int(limit as i64);
    assert(q@.binds =~= seq![SqlValueView::Int(offset as i64), SqlValueView::Int(limit as i64)]);
    q
}

} // verus!
