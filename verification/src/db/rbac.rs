use vstd::prelude::*;
use crate::db::{Query, QueryView, SqlValueView};
use crate::types::err::{AppError, AppResult, GlobalUserError, StatusCode};
use crate::types::join::Joinable;
use crate::utils::decimal::{int_text, lemma_parse_int_text, parse_i32, parse_i32_chars, push_i32_text};
use crate::utils::text::{join, lemma_split_join, split, str_chars};

verus! {

/// One grant as the store holds it: the role `role` may do what the tag
/// `permission` names.
#[derive(Debug, Clone)]
pub struct PermissionToRole {
    pub id: i32,
    pub role: i32,
    pub permission: String,
}

/// A role as the store holds it.
#[derive(Debug, Clone)]
pub struct Role {
    pub id: i32,
    pub name: String,
    pub alias: String,
    pub role_type: i8,
}

/// A role's id and name, as shown beside a user.
#[derive(Debug, Clone)]
pub struct RoleSimple {
    pub id: i32,
    pub name: String,
}

/// The role held by a caller who presented no identity.
pub const ANONYMOUS_ROLE_ID: i32 = 0;

/// The role that every member holds from the start.
pub const DEFAULT_MEMBER_ROLE_ID: i32 = 1;

/// `role_type` of a role that can be deleted.
pub const ROLE_TYPE_NORMAL: i8 = 0;

/// `role_type` of a role that the system needs and that can never be deleted.
pub const ROLE_TYPE_SYSTEM_RESERVED: i8 = 1;

/// The role string that a new member is stored with: the anonymous role and
/// the default member role.
pub const DEFAULT_ROLE_STR: &'static str = "0,1";

/// The longest role string that a user's row can hold, in bytes.
pub const MAX_ROLE_STR_LEN: usize = 255;

/// What can be wrong with a set of roles or with its stored form.
#[derive(Debug, Clone, Copy, PartialEq, Eq)]
pub enum RBACUserError {
    RoleTooLong,
    RoleStrCorrupted,
}

impl RBACUserError {
    pub open spec fn code(self) -> u16 {
        200
    }

    pub open spec fn msg(self) -> &'static str {
        match self {
            RBACUserError::RoleTooLong => "role too long",
            RBACUserError::RoleStrCorrupted => "role str corrupted",
        }
    }

    /// The error as a handler answers it.
    pub open spec fn error(self) -> AppError {
        AppError::User(StatusCode::of(self.code()), self.msg())
    }

    pub fn to_error(self) -> (e: AppError)
        ensures
            e == self.error(),
    {
        let msg: &'static str = match self {
            RBACUserError::RoleTooLong => "role too long",
            RBACUserError::RoleStrCorrupted => "role str corrupted",
        };
        AppError::new_user(StatusCode::from_u16(200).unwrap(), msg)
    }
}

impl From<RBACUserError> for AppError {
    fn from(value: RBACUserError) -> (e: AppError) {
        value.to_error()
    }
}

impl vstd::std_specs::convert::FromSpecImpl<RBACUserError> for AppError {
    open spec fn obeys_from_spec() -> bool {
        true
    }

    open spec fn from_spec(value: RBACUserError) -> AppError {
        value.error()
    }
}

/// The decimal writing of each role id, in order.
pub open spec fn role_texts(roles: Seq<i32>) -> Seq<Seq<char>> {
    Seq::new(roles.len(), |i: int| int_text(roles[i] as int))
}

/// The stored form of a sequence of role ids: their decimal writings with a
/// comma between each two. No ids give the empty string.
pub open spec fn encode_roles(roles: Seq<i32>) -> Seq<char> {
    join(role_texts(roles), ',')
}

/// The role ids that the stored form `s` holds, in order, or `None` where `s`
/// is not a stored form. The empty string holds no ids. Any other string is
/// cut at its commas, and each piece must read as an `i32`.
pub open spec fn decode_roles(s: Seq<char>) -> Option<Seq<i32>> {
    if s.len() == 0 {
        Some(Seq::empty())
    } else {
        let tokens = split(s, ',');
        if forall|i: int| 0 <= i < tokens.len() ==> parse_i32(#[trigger] tokens[i]) is Some {
            Some(Seq::new(tokens.len(), |i: int| parse_i32(tokens[i]).unwrap()))
        } else {
            None
        }
    }
}

/// Writes a sequence of role ids in its stored form. A form longer than
/// `MAX_ROLE_STR_LEN` is refused whole: nothing shortened is ever returned.
pub fn role_vec_to_str(roles: Vec<i32>) -> (r: AppResult<String>)
    ensures
        encode_roles(roles@).len() <= MAX_ROLE_STR_LEN ==> r is Ok && r.unwrap()@ == encode_roles(
            roles@,
        ),
        encode_roles(roles@).len() > MAX_ROLE_STR_LEN ==> r == Err::<String, AppError>(
            RBACUserError::RoleTooLong.error(),
        ),
{
    let mut out = String::new();
    let mut i: usize = 0;
    while i < roles.len()
        invariant
            i <= roles.len(),
            out@ == join(role_texts(roles@).take(i as int), ','),
        decreases roles.len() - i,
    {
        let ghost done = role_texts(roles@).take(i as int);
        let ghost more = role_texts(roles@).take(i + 1);
        proof {
            assert(more.drop_last() =~= done);
            assert(more.last() == int_text(roles@[i as int] as int));
        }
        if i > 0 {
            out.push(',');
        }
        push_i32_text(&mut out, roles[i]);
        proof {
            if i == 0 {
                assert(done =~= Seq::<Seq<char>>::empty());
                assert(out@ =~= more[0]);
            }
        }
        i = i + 1;
    }
    assert(role_texts(roles@).take(roles.len() as int) =~= role_texts(roles@));
    if out.as_str().unicode_len() > MAX_ROLE_STR_LEN {
        Err(RBACUserError::RoleTooLong.to_error())
    } else {
        Ok(out)
    }
}

/// The stored form of role ids is plain ASCII: it takes as many bytes as it
/// has characters.
pub proof fn lemma_encode_roles_ascii(roles: Seq<i32>)
    ensures
        vstd::utf8::is_ascii_chars(encode_roles(roles)),
{
    lemma_join_ascii(role_texts(roles));
}

proof fn lemma_join_ascii(parts: Seq<Seq<char>>)
    requires
        forall|i: int| 0 <= i < parts.len() ==> exists|n: int| #[trigger] parts[i] == int_text(n),
    ensures
        vstd::utf8::is_ascii_chars(join(parts, ',')),
    decreases parts.len(),
{
    if parts.len() == 0 {
    } else {
        let n = choose|n: int| parts.last() == int_text(n);
        crate::utils::decimal::lemma_int_text_ascii(n);
        if parts.len() > 1 {
            lemma_join_ascii(parts.drop_last());
        }
    }
}

/// Reads the role ids out of a stored role string. The empty string holds
/// none; in any other string every piece between commas must read as an `i32`.
pub fn role_str_to_vec(roles: String) -> (r: AppResult<Vec<i32>>)
    ensures
        match decode_roles(roles@) {
            Some(ids) => r is Ok && r.unwrap()@ == ids,
            None => r == Err::<Vec<i32>, AppError>(RBACUserError::RoleStrCorrupted.error()),
        },
{
    let chars = str_chars(roles.as_str());
    let n: usize = chars.len();
    let mut out: Vec<i32> = Vec::new();
    if n == 0 {
        return Ok(out);
    }
    let ghost s = chars@;
    let ghost mut done: Seq<Seq<char>> = Seq::empty();
    let mut all_read = true;
    let mut start: usize = 0;
    let mut i: usize = 0;
    assert(s.take(0) =~= Seq::<char>::empty());
    assert(s.subrange(0, 0) =~= Seq::<char>::empty());
    assert(done.push(s.subrange(0, 0)) =~= seq![Seq::<char>::empty()]);
    while i < n
        invariant
            start <= i <= n,
            n == chars.len(),
            s == chars@,
            split(s.take(i as int), ',') == done.push(s.subrange(start as int, i as int)),
            all_read <==> forall|j: int| 0 <= j < done.len() ==> parse_i32(#[trigger] done[j]) is Some,
            all_read ==> out.len() == done.len(),
            all_read ==> forall|j: int|
                0 <= j < done.len() ==> parse_i32(#[trigger] done[j]) == Some(out[j]),
        decreases n - i,
    {
        let ghost piece = s.subrange(start as int, i as int);
        proof {
            assert(s.take(i + 1).drop_last() =~= s.take(i as int));
            assert(s.take(i + 1).last() == s[i as int]);
        }
        if chars[i] == ',' {
            let read = parse_i32_chars(&chars, start, i);
            proof {
                assert(s.subrange(i + 1, i + 1) =~= Seq::<char>::empty());
            }
            let ghost before = done;
            proof {
                done = done.push(piece);
                assert(done[before.len() as int] == piece);
                assert(forall|j: int| 0 <= j < before.len() ==> done[j] == before[j]);
                if !all_read {
                    let j = choose|j: int|
                        0 <= j < before.len() && !(parse_i32(#[trigger] before[j]) is Some);
                    assert(done[j] == before[j]);
                }
            }
            if all_read {
                match read {
                    Some(id) => {
                        out.push(id);
                    },
                    None => {
                        all_read = false;
                    },
                }
            }
            start = i + 1;
        } else {
            proof {
                assert(piece.push(s[i as int]) =~= s.subrange(start as int, i + 1));
                assert(done.push(piece).update(done.len() as int, s.subrange(start as int, i + 1))
                    =~= done.push(s.subrange(start as int, i + 1)));
            }
        }
        i = i + 1;
    }
    let read = parse_i32_chars(&chars, start, n);
    proof {
        assert(s.take(n as int) =~= s);
    }
    let ghost tokens = done.push(s.subrange(start as int, n as int));
    match read {
        Some(id) => {
            if all_read {
                out.push(id);
                assert(out@ =~= decode_roles(roles@).unwrap());
                return Ok(out);
            }
            assert(exists|j: int| 0 <= j < done.len() && !(parse_i32(#[trigger] done[j]) is Some));
            let ghost j = choose|j: int| 0 <= j < done.len() && !(parse_i32(#[trigger] done[j]) is Some);
            assert(tokens[j] == done[j]);
        },
        None => {
            assert(tokens[done.len() as int] == s.subrange(start as int, n as int));
        },
    }
    Err(RBACUserError::RoleStrCorrupted.to_error())
}

/// Reading a stored form gives back the role ids that were written, in
/// their order.
pub proof fn lemma_decode_encode(roles: Seq<i32>)
    ensures
        decode_roles(encode_roles(roles)) == Some(roles),
{
    let parts = role_texts(roles);
    if roles.len() == 0 {
        assert(decode_roles(encode_roles(roles)).unwrap() =~= roles);
    } else {
        assert forall|i: int| 0 <= i < parts.len() implies !(#[trigger] parts[i]).contains(',') by {
            lemma_parse_int_text(roles[i] as int);
        }
        lemma_split_join(parts, ',');
        lemma_join_nonempty(parts, ',');
        let tokens = split(encode_roles(roles), ',');
        assert forall|i: int| 0 <= i < tokens.len() implies parse_i32(#[trigger] tokens[i]) == Some(
            roles[i],
        ) by {
            lemma_parse_int_text(roles[i] as int);
        }
        assert(decode_roles(encode_roles(roles)).unwrap() =~= roles);
    }
}

/// A string with a piece between commas that does not read as an `i32` is no
/// stored form.
pub proof fn lemma_decode_rejects(s: Seq<char>, i: int)
    requires
        0 <= i < split(s, ',').len(),
        parse_i32(split(s, ',')[i]) is None,
        s.len() > 0,
    ensures
        decode_roles(s) is None,
{
}

/// Parts that are not empty join to a text that is not empty.
proof fn lemma_join_nonempty(parts: Seq<Seq<char>>, sep: char)
    requires
        parts.len() >= 1,
        parts.last().len() >= 1,
    ensures
        join(parts, sep).len() >= 1,
{
}

/// The statement that reads every grant.
pub fn select_permission_to_roles() -> (q: Query)
    ensures
        q@ == (QueryView { sql: "SELECT * FROM permission_to_roles"@, binds: Seq::empty() }),
{
    Query::new("SELECT * FROM permission_to_roles")
}

/// The statement that reads the role string of the user `user`.
pub fn select_user_role(user: i32) -> (q: Query)
    ensures
        q@ == (QueryView {
            sql: "SELECT roles FROM users WHERE id = ? LIMIT 1"@,
            binds: seq![SqlValueView::Int(user as i64)],
        }),
{
    Query::new("SELECT roles FROM users WHERE id = ? LIMIT 1").bind_int(user as i64)
}

/// The role string of a user from what `select_user_role` found: the
/// stored string of the user's row. A user without a row is not found;
/// such a user is never taken for one who holds no roles.
pub fn user_role_from_row(row: Option<String>) -> (r: AppResult<String>)
    ensures
        r == match row {
            Some(stored) => Ok::<String, AppError>(stored),
            None => Err(GlobalUserError::NotFound.error()),
        },
{
    match row {
        Some(stored) => Ok(stored),
        None => Err(GlobalUserError::NotFound.to_error()),
    }
}

/// The statement that stores `roles` as the role string of the user `user`.
pub fn update_user_roles(user: i32, roles: &str) -> (q: Query)
    ensures
        q@ == (QueryView {
            sql: "UPDATE users SET roles = ? WHERE id = ?"@,
            binds: seq![SqlValueView::Text(roles@), SqlValueView::Int(user as i64)],
        }),
{
    let q = Query::new("UPDATE users SET roles = ? WHERE id = ?").bind_text(roles).bind_int(
        user as i64,
    );
    assert(q@.binds =~= seq![SqlValueView::Text(roles@), SqlValueView::Int(user as i64)]);
    q
}

/// The text of the statement that reads one page of roles.
pub open spec fn list_roles_sql(limit: i32, offset: i32) -> Seq<char> {
    "SELECT * FROM roles LIMIT "@ + int_text(offset as int) + seq![','] + int_text(limit as int)
}

/// The two statements that list roles: the one that counts all roles, and
/// the one that reads `limit` roles after the first `offset`.
pub fn list_roles(limit: i32, offset: i32) -> (q: (Query, Query))
    ensures
        q.0@ == (QueryView { sql: "SELECT COUNT(*) FROM roles"@, binds: Seq::empty() }),
        q.1@ == (QueryView { sql: list_roles_sql(limit, offset), binds: Seq::empty() }),
{
    let mut sql = "SELECT * FROM roles LIMIT ".to_owned();
    push_i32_text(&mut sql, offset);
    sql.push(',');
    push_i32_text(&mut sql, limit);
    let mut page = Query::new("");
    page.sql = sql;
    assert(page@.sql =~= list_roles_sql(limit, offset));
    (Query::new("SELECT COUNT(*) FROM roles"), page)
}

/// The statement that reads the type of the role `role`.
pub fn select_role_type(role: i32) -> (q: Query)
    ensures
        q@ == (QueryView {
            sql: "SELECT role_type FROM roles WHERE id = ? LIMIT 1"@,
            binds: seq![SqlValueView::Int(role as i64)],
        }),
{
    Query::new("SELECT role_type FROM roles WHERE id = ? LIMIT 1").bind_int(role as i64)
}

/// What deleting the role `role` does to the store, given the role's type
/// as `select_role_type` found it: nothing for a role that does not exist
/// or that the system has reserved; else the grants of the role go first
/// and then the role itself.
pub open spec fn delete_role_plan(role: i32, role_type: Option<i8>) -> Result<
    Seq<QueryView>,
    AppError,
> {
    match role_type {
        None => Err(GlobalUserError::NotFound.error()),
        Some(t) => if t == ROLE_TYPE_SYSTEM_RESERVED {
            Err(GlobalUserError::SystemReserved.error())
        } else {
            Ok(
                seq![
                    QueryView {
                        sql: "DELETE FROM permission_to_roles WHERE role = ?"@,
                        binds: seq![SqlValueView::Int(role as i64)],
                    },
                    QueryView {
                        sql: "DELETE FROM roles WHERE id = ?"@,
                        binds: seq![SqlValueView::Int(role as i64)],
                    },
                ],
            )
        },
    }
}

/// The views of the statements of `queries`, in order.
pub open spec fn query_views(queries: Seq<Query>) -> Seq<QueryView> {
    Seq::new(queries.len(), |i: int| queries[i]@)
}

/// Decides the deletion of the role `role` from its type, read in the same
/// transaction: `None` where no such role exists. The statements of the
/// answer are to be run in that transaction, in order, before it commits.
/// An error means that nothing is to be written.
pub fn delete_role(role: i32, role_type: Option<i8>) -> (r: AppResult<Vec<Query>>)
    ensures
        match delete_role_plan(role, role_type) {
            Ok(plan) => r is Ok && query_views(r.unwrap()@) == plan,
            Err(e) => r == Err::<Vec<Query>, AppError>(e),
        },
{
    match role_type {
        None => Err(GlobalUserError::NotFound.to_error()),
        Some(t) => {
            if t == ROLE_TYPE_SYSTEM_RESERVED {
                return Err(GlobalUserError::SystemReserved.to_error());
            }
            let mut plan: Vec<Query> = Vec::new();
            plan.push(
                Query::new("DELETE FROM permission_to_roles WHERE role = ?").bind_int(role as i64),
            );
            plan.push(Query::new("DELETE FROM roles WHERE id = ?").bind_int(role as i64));
            assert(query_views(plan@) =~= delete_role_plan(role, role_type).unwrap());
            Ok(plan)
        },
    }
}

/// The statement that stores a new role of the normal type.
pub fn add_role(name: &str, alias: &str) -> (q: Query)
    ensures
        q@ == (QueryView {
            sql: "INSERT INTO roles (name,alias,role_type) VALUES (?,?,0)"@,
            binds: seq![SqlValueView::Text(name@), SqlValueView::Text(alias@)],
        }),
{
    let q = Query::new("INSERT INTO roles (name,alias,role_type) VALUES (?,?,0)").bind_text(
        name,
    ).bind_text(alias);
    assert(q@.binds =~= seq![SqlValueView::Text(name@), SqlValueView::Text(alias@)]);
    q
}

/// The statement that removes the grant of `permission` to `role`.
pub fn delete_role_permission(role: i32, permission: &str) -> (q: Query)
    ensures
        q@ == (QueryView {
            sql: "DELETE FROM permission_to_roles WHERE role = ? AND permission = ?"@,
            binds: seq![SqlValueView::Int(role as i64), SqlValueView::Text(permission@)],
        }),
{
    let q = Query::new(
        "DELETE FROM permission_to_roles WHERE role = ? AND permission = ?",
    ).bind_int(role as i64).bind_text(permission);
    assert(q@.binds =~= seq![SqlValueView::Int(role as i64), SqlValueView::Text(permission@)]);
    q
}

/// The statement that stores the grant of `permission` to `role`.
pub fn add_role_permission(role: i32, permission: &str) -> (q: Query)
    ensures
        q@ == (QueryView {
            sql: "INSERT INTO permission_to_roles (role, permission) VALUES (?,?)"@,
            binds: seq![SqlValueView::Int(role as i64), SqlValueView::Text(permission@)],
        }),
{
    let q = Query::new(
        "INSERT INTO permission_to_roles (role, permission) VALUES (?,?)",
    ).bind_int(role as i64).bind_text(permission);
    assert(q@.binds =~= seq![SqlValueView::Int(role as i64), SqlValueView::Text(permission@)]);
    q
}

/// The text of the rows of the statement that stores `n` grants.
pub open spec fn grant_rows(n: nat) -> Seq<char>
    decreases n,
{
    if n == 0 {
        Seq::empty()
    } else if n == 1 {
        "(?, ?)"@
    } else {
        grant_rows((n - 1) as nat) + ", (?, ?)"@
    }
}

/// The values of the statement that stores the grants of `permissions` to
/// `role`: for each tag the role and the tag.
pub open spec fn grant_binds(role: i32, permissions: Seq<String>) -> Seq<SqlValueView>
    decreases permissions.len(),
{
    if permissions.len() == 0 {
        Seq::empty()
    } else {
        grant_binds(role, permissions.drop_last()).push(SqlValueView::Int(role as i64)).push(
            SqlValueView::Text(permissions.last()@),
        )
    }
}

/// The statement that stores the grants of `permissions` to the role
/// `role`, one row for each tag; none where there is no tag.
pub fn add_role_grants(role: i32, permissions: &Vec<String>) -> (q: Option<Query>)
    ensures
        permissions.len() == 0 ==> q is None,
        permissions.len() > 0 ==> q is Some && q.unwrap()@ == (QueryView {
            sql: "INSERT INTO permission_to_roles(role, permission) VALUES "@ + grant_rows(
                permissions.len() as nat,
            ),
            binds: grant_binds(role, permissions@),
        }),
{
    if permissions.len() == 0 {
        return None;
    }
    let mut sql = "INSERT INTO permission_to_roles(role, permission) VALUES ".to_owned();
    let mut q = Query::new("");
    let mut i: usize = 0;
    assert(permissions@.take(0) =~= Seq::<String>::empty());
    while i < permissions.len()
        invariant
            i <= permissions.len(),
            sql@ == "INSERT INTO permission_to_roles(role, permission) VALUES "@ + grant_rows(
                i as nat,
            ),
            q@.binds == grant_binds(role, permissions@.take(i as int)),
        decreases permissions.len() - i,
    {
        proof {
            assert(permissions@.take(i + 1).drop_last() =~= permissions@.take(i as int));
            assert(permissions@.take(i + 1).last() == permissions@[i as int]);
        }
        if i == 0 {
            sql.append("(?, ?)");
        } else {
            sql.append(", (?, ?)");
        }
        q = q.bind_int(role as i64).bind_text(permissions[i].as_str());
        i = i + 1;
    }
    assert(permissions@.take(permissions.len() as int) =~= permissions@);
    q.sql = sql;
    Some(q)
}

/// The statement that reads the id and the name of each of the roles
/// `role_ids`.
pub fn select_role_infos(role_ids: Vec<i32>) -> (q: Query)
    ensures
        q@ == (QueryView {
            sql: "SELECT id,name FROM roles WHERE id in ("@ + encode_roles(role_ids@) + ")"@,
            binds: Seq::empty(),
        }),
{
    let mut sql = "SELECT id,name FROM roles WHERE id in (".to_owned();
    let mut i: usize = 0;
    let ghost start = sql@;
    assert(role_texts(role_ids@).take(0) =~= Seq::<Seq<char>>::empty());
    while i < role_ids.len()
        invariant
            i <= role_ids.len(),
            sql@ == start + join(role_texts(role_ids@).take(i as int), ','),
        decreases role_ids.len() - i,
    {
        let ghost done = role_texts(role_ids@).take(i as int);
        let ghost more = role_texts(role_ids@).take(i + 1);
        let ghost before = sql@;
        proof {
            assert(more.drop_last() =~= done);
            assert(more.last() == int_text(role_ids@[i as int] as int));
        }
        if i > 0 {
            sql.push(',');
        }
        push_i32_text(&mut sql, role_ids[i]);
        proof {
            if i == 0 {
                assert(done =~= Seq::<Seq<char>>::empty());
                assert(join(done, ',') =~= Seq::<char>::empty());
            }
            assert(sql@ =~= start + join(more, ','));
        }
        i = i + 1;
    }
    assert(role_texts(role_ids@).take(role_ids.len() as int) =~= role_texts(role_ids@));
    sql.append(")");
    let mut q = Query::new("");
    q.sql = sql;
    q
}

/// The roles of `role_infos` whose id is one of `key`, in their order.
pub open spec fn matching_roles(role_infos: Seq<RoleSimple>, key: Seq<i32>) -> Seq<RoleSimple>
    decreases role_infos.len(),
{
    if role_infos.len() == 0 {
        Seq::empty()
    } else {
        let before = matching_roles(role_infos.drop_last(), key);
        if key.contains(role_infos.last().id) {
            before.push(role_infos.last())
        } else {
            before
        }
    }
}

/// What a record holds after the roles `role_infos` were joined to it: a
/// record with a key takes up, after what it held, the roles whose id is
/// in the key; a record without key stays as it is.
pub open spec fn joined_object(
    key: Option<Vec<i32>>,
    object: Vec<RoleSimple>,
    role_infos: Seq<RoleSimple>,
) -> Seq<RoleSimple> {
    match key {
        Some(ids) => object@ + matching_roles(role_infos, ids@),
        None => object@,
    }
}

/// Whether `x` is one of `ids`.
fn id_listed(ids: &Vec<i32>, x: i32) -> (found: bool)
    ensures
        found == ids@.contains(x),
{
    let mut i: usize = 0;
    while i < ids.len()
        invariant
            i <= ids.len(),
            forall|j: int| 0 <= j < i ==> ids@[j] != x,
        decreases ids.len() - i,
    {
        if ids[i] == x {
            return true;
        }
        i = i + 1;
    }
    false
}

/// All role ids that the keys of the records name, in the order of the
/// records.
pub open spec fn keyed_role_ids<J: Joinable<Option<Vec<i32>>, Vec<RoleSimple>>>(
    outer: Seq<J>,
) -> Seq<i32>
    decreases outer.len(),
{
    if outer.len() == 0 {
        Seq::empty()
    } else {
        let before = keyed_role_ids(outer.drop_last());
        match outer.last().key() {
            Some(ids) => before + ids@,
            None => before,
        }
    }
}

/// Gathers the role ids that the keys of the records name, for reading
/// those roles from the store. The records stay as they are.
pub fn collect_role_ids<J: Joinable<Option<Vec<i32>>, Vec<RoleSimple>>>(outer: &mut Vec<J>) -> (ids:
    Vec<i32>)
    ensures
        ids@ == keyed_role_ids(old(outer)@),
        final(outer).len() == old(outer).len(),
        forall|i: int|
            0 <= i < old(outer).len() ==> (#[trigger] final(outer)[i]).key() == old(outer)[i].key()
                && final(outer)[i].object() == old(outer)[i].object(),
{
    let ghost before = outer@;
    let mut ids: Vec<i32> = Vec::new();
    let mut i: usize = 0;
    assert(before.take(0) =~= Seq::<J>::empty());
    while i < outer.len()
        invariant
            i <= outer.len(),
            outer.len() == before.len(),
            forall|k: int|
                0 <= k < outer.len() ==> (#[trigger] outer[k]).key() == before[k].key()
                    && outer[k].object() == before[k].object(),
            ids@ == keyed_role_ids(before.take(i as int)),
        decreases outer.len() - i,
    {
        proof {
            assert(before.take(i + 1).drop_last() =~= before.take(i as int));
            assert(before.take(i + 1).last() == before[i as int]);
        }
        let ghost so_far = ids@;
        let entry: &mut J = &mut outer[i];
        let (key, _object) = entry.get_ref();
        match key {
            None => {},
            Some(named) => {
                let mut j: usize = 0;
                while j < named.len()
                    invariant
                        j <= named.len(),
                        ids@ == so_far + named@.take(j as int),
                    decreases named.len() - j,
                {
                    ids.push(named[j]);
                    assert(named@.take(j as int).push(named@[j as int]) =~= named@.take(j + 1));
                    j = j + 1;
                }
                assert(named@.take(named.len() as int) =~= named@);
            },
        }
        i = i + 1;
    }
    assert(before.take(outer.len() as int) =~= before);
    ids
}

/// Completes each record of `outer` with the roles of `role_infos` that
/// its key names. The keys stay as they are.
pub fn join_user_role_info<J: Joinable<Option<Vec<i32>>, Vec<RoleSimple>>>(
    outer: &mut Vec<J>,
    role_infos: &Vec<RoleSimple>,
)
    ensures
        final(outer).len() == old(outer).len(),
        forall|i: int|
            0 <= i < old(outer).len() ==> (#[trigger] final(outer)[i]).key() == old(outer)[i].key(),
        forall|i: int|
            0 <= i < old(outer).len() ==> (#[trigger] final(outer)[i]).object()@ == joined_object(
                old(outer)[i].key(),
                old(outer)[i].object(),
                role_infos@,
            ),
{
    let ghost before = outer@;
    let mut i: usize = 0;
    while i < outer.len()
        invariant
            i <= outer.len(),
            outer.len() == before.len(),
            forall|k: int| 0 <= k < outer.len() ==> (#[trigger] outer[k]).key() == before[k].key(),
            forall|k: int|
                0 <= k < i ==> (#[trigger] outer[k]).object()@ == joined_object(
                    before[k].key(),
                    before[k].object(),
                    role_infos@,
                ),
            forall|k: int| i <= k < outer.len() ==> (#[trigger] outer[k]).object() == before[k].object(),
        decreases outer.len() - i,
    {
        let ghost now = outer@;
        let entry: &mut J = &mut outer[i];
        let (key, object) = entry.get_ref();
        match key {
            None => {},
            Some(ids) => {
                let ghost held = object@;
                let mut j: usize = 0;
                assert(role_infos@.take(0) =~= Seq::<RoleSimple>::empty());
                while j < role_infos.len()
                    invariant
                        j <= role_infos.len(),
                        object@ == held + matching_roles(role_infos@.take(j as int), ids@),
                    decreases role_infos.len() - j,
                {
                    proof {
                        assert(role_infos@.take(j + 1).drop_last() =~= role_infos@.take(j as int));
                        assert(role_infos@.take(j + 1).last() == role_infos@[j as int]);
                    }
                    let role: &RoleSimple = &role_infos[j];
                    if id_listed(ids, role.id) {
                        object.push(RoleSimple { id: role.id, name: role.name.clone() });
                        assert(object@ =~= held + matching_roles(role_infos@.take(j + 1), ids@));
                    }
                    j = j + 1;
                }
                assert(role_infos@.take(role_infos.len() as int) =~= role_infos@);
            },
        }
        i = i + 1;
    }
}

} // verus!
