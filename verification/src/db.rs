use vstd::prelude::*;
use crate::types::config::DatabaseConfig;
use crate::types::err::{AppError, StatusCode};
use crate::utils::decimal::{nat_text, push_nat_text};
use crate::types::service::AppService;

pub mod article;
pub mod fs;
pub mod rbac;
pub mod user;
pub mod verification;

verus! {

/// A value that takes the place of one `?` of a statement.
#[derive(Debug, Clone, PartialEq, Eq)]
pub enum SqlValue {
    Int(i64),
    Text(String),
    Bool(bool),
    /// A point in time, in seconds since 1970 in UTC.
    Time(i64),
}

/// What a `SqlValue` holds.
pub enum SqlValueView {
    Int(i64),
    Text(Seq<char>),
    Bool(bool),
    Time(i64),
}

impl View for SqlValue {
    type V = SqlValueView;

    open spec fn view(&self) -> SqlValueView {
        match self {
            SqlValue::Int(v) => SqlValueView::Int(*v),
            SqlValue::Text(v) => SqlValueView::Text(v@),
            SqlValue::Bool(v) => SqlValueView::Bool(*v),
            SqlValue::Time(v) => SqlValueView::Time(*v),
        }
    }
}

/// A statement for the database: its text, and the values that take the
/// place of its `?`s, in order.
#[derive(Debug, Clone, PartialEq, Eq)]
pub struct Query {
    pub sql: String,
    pub binds: Vec<SqlValue>,
}

/// What a `Query` holds.
pub struct QueryView {
    pub sql: Seq<char>,
    pub binds: Seq<SqlValueView>,
}

impl View for Query {
    type V = QueryView;

    open spec fn view(&self) -> QueryView {
        QueryView { sql: self.sql@, binds: Seq::new(self.binds@.len(), |i: int| self.binds@[i]@) }
    }
}

impl Query {
    /// The statement `sql` without values.
    pub fn new(sql: &str) -> (q: Query)
        ensures
            q@ == (QueryView { sql: sql@, binds: Seq::empty() }),
    {
        let q = Query { sql: sql.to_owned(), binds: Vec::new() };
        assert(q@.binds =~= Seq::empty());
        q
    }

    /// The statement with `v` as its next value.
    pub fn bind_int(self, v: i64) -> (q: Query)
        ensures
            q@ == (QueryView { sql: self@.sql, binds: self@.binds.push(SqlValueView::Int(v)) }),
    {
        let mut q = self;
        q.binds.push(SqlValue::Int(v));
        assert(q@.binds =~= self@.binds.push(SqlValueView::Int(v)));
        q
    }

    /// The statement with `v` as its next value.
    pub fn bind_text(self, v: &str) -> (q: Query)
        ensures
            q@ == (QueryView { sql: self@.sql, binds: self@.binds.push(SqlValueView::Text(v@)) }),
    {
        let mut q = self;
        q.binds.push(SqlValue::Text(v.to_owned()));
        assert(q@.binds =~= self@.binds.push(SqlValueView::Text(v@)));
        q
    }

    /// The statement with the time `v` as its next value.
    pub fn bind_time(self, v: i64) -> (q: Query)
        ensures
            q@ == (QueryView { sql: self@.sql, binds: self@.binds.push(SqlValueView::Time(v)) }),
    {
        let mut q = self;
        q.binds.push(SqlValue::Time(v));
        assert(q@.binds =~= self@.binds.push(SqlValueView::Time(v)));
        q
    }

    /// The statement with `v` as its next value.
    pub fn bind_bool(self, v: bool) -> (q: Query)
        ensures
            q@ == (QueryView { sql: self@.sql, binds: self@.binds.push(SqlValueView::Bool(v)) }),
    {
        let mut q = self;
        q.binds.push(SqlValue::Bool(v));
        assert(q@.binds =~= self@.binds.push(SqlValueView::Bool(v)));
        q
    }
}

/// How a call of the database failed.
#[derive(Debug, Clone, Copy, PartialEq, Eq)]
pub enum DBInternalError {
    /// The database could not be reached, or no connection was free in time.
    DBConnection,
    /// Anything else.
    DBUnknown,
}

impl DBInternalError {
    pub open spec fn code(self) -> u16 {
        500
    }

    pub open spec fn msg(self) -> &'static str {
        match self {
            DBInternalError::DBConnection => "error.db.connection",
            DBInternalError::DBUnknown => "error.db.unknown",
        }
    }

    /// The error as a handler answers it.
    pub open spec fn error(self) -> AppError {
        AppError::Internal(StatusCode::of(self.code()), self.msg())
    }

    pub fn to_error(self) -> (e: AppError)
        ensures
            e == self.error(),
    {
        let msg: &'static str = match self {
            DBInternalError::DBConnection => "error.db.connection",
            DBInternalError::DBUnknown => "error.db.unknown",
        };
        AppError::new_internal(StatusCode::from_u16(500).unwrap(), msg)
    }
}

impl From<DBInternalError> for AppError {
    fn from(value: DBInternalError) -> (e: AppError) {
        value.to_error()
    }
}

impl vstd::std_specs::convert::FromSpecImpl<DBInternalError> for AppError {
    open spec fn obeys_from_spec() -> bool {
        true
    }

    open spec fn from_spec(value: DBInternalError) -> AppError {
        value.error()
    }
}

/// What a call of the database gives: its result, or how it failed.
pub type DBResult<T> = Result<T, DBInternalError>;

/// The direction of an ordering.
#[derive(Debug, Clone, Copy, PartialEq, Eq)]
pub enum SortOrder {
    Asc,
    Desc,
}

impl SortOrder {
    /// The keyword of the direction.
    pub open spec fn keyword(self) -> &'static str {
        match self {
            SortOrder::Asc => "ASC",
            SortOrder::Desc => "DESC",
        }
    }

    pub fn to_sql(&self) -> (keyword: &'static str)
        ensures
            keyword == self.keyword(),
    {
        match self {
            SortOrder::Asc => "ASC",
            SortOrder::Desc => "DESC",
        }
    }
}

/// The service that holds the connections to the database.
pub struct DBService;

/// The address of the database that the settings `c` describe.
pub open spec fn database_url(c: DatabaseConfig) -> Seq<char> {
    "mysql://"@ + c.user_name@ + ":"@ + c.password@ + "@"@ + c.host@ + ":"@ + nat_text(
        c.port as nat,
    ) + "/"@ + c.db_name@
}

impl DBService {
    /// The address to connect to.
    pub fn initialize(db_config: &DatabaseConfig) -> (address: String)
        ensures
            address@ == database_url(*db_config),
    {
        let mut address = "mysql://".to_owned();
        address.append(db_config.user_name.as_str());
        address.append(":");
        address.append(db_config.password.as_str());
        address.append("@");
        address.append(db_config.host.as_str());
        address.append(":");
        push_nat_text(&mut address, db_config.port);
        address.append("/");
        address.append(db_config.db_name.as_str());
        address
    }
}

impl AppService for DBService {
    open spec fn service_name() -> &'static str {
        "DBService"
    }

    fn name() -> (name: &'static str) {
        "DBService"
    }
}

} // verus!
