//! Data used for general application setup: the pooled database connection
//! and its request guard.

use vstd::prelude::*;
use diesel::connection::SimpleConnection;
use crate::util::INITIALISE_DATABASE;

verus! {

/// Holds the r2d2 pool of SQLite connections itself; opaque to verification,
/// read and filled only through the trusted items below.
#[verifier::external_body]
struct RawSqlitePool {
    pool: diesel::r2d2::Pool<diesel::r2d2::ConnectionManager<diesel::SqliteConnection>>,
}

/// The process-wide database pool the startup code registers and every
/// request draws from, paired with the database URL it was opened on so that
/// contracts can speak of it.
pub struct SqlitePool {
    raw: RawSqlitePool,
    url: Ghost<Seq<char>>,
}

impl SqlitePool {
    /// The database URL the pool was opened on.
    pub closed spec fn url(self) -> Seq<char> {
        self.url@
    }
}

/// One connection checked out of the pool, returned to it on drop. Opaque to
/// verification.
#[verifier::external_body]
pub struct SqlitePooledConnection {
    conn: diesel::r2d2::PooledConnection<
        diesel::r2d2::ConnectionManager<diesel::SqliteConnection>,
    >,
}

/// Why a request could not be handed a database connection.
///
/// A process without a registered pool is misdeployed: that is an internal
/// server error, not a per-request condition. A registered pool with no
/// connection to give is transient, safe to retry: service unavailable.
#[derive(Clone, Copy, Debug, PartialEq, Eq, Structural)]
pub enum AcquireError {
    /// No pool was registered during process startup.
    InternalServerError,
    /// The pool is exhausted or its backend unreachable.
    ServiceUnavailable,
}

/// Connection request guard type: a wrapper around an r2d2 pooled
/// connection, granting one request scoped access to one connection and
/// returning it to the pool when dropped.
pub struct DatabaseConnection(SqlitePooledConnection);

#[verifier::external_type_specification]
#[verifier::external_body]
pub struct ExSqliteConnection(diesel::SqliteConnection);

#[verifier::external_type_specification]
#[verifier::external_body]
#[verifier::reject_recursive_types(T)]
pub struct ExConnectionManager<T>(diesel::r2d2::ConnectionManager<T>);

/// Relies on r2d2's `Pool::get`: checks one connection out of the pool,
/// failing when the pool is exhausted or its backend unreachable. Which
/// outcome comes back depends on the pool's state, so nothing is assumed of
/// it.
#[verifier::external_body]
fn pool_get(pool: &SqlitePool) -> Option<SqlitePooledConnection> {
    pool.raw.pool.get().ok().map(|conn| SqlitePooledConnection { conn })
}

/// Relies on diesel's `ConnectionManager::new`: a plain constructor holding
/// the database URL; it cannot fail and opens nothing yet.
#[verifier::external_body]
fn new_connection_manager(database_url: &str) -> diesel::r2d2::ConnectionManager<
    diesel::SqliteConnection,
> {
    diesel::r2d2::ConnectionManager::new(database_url)
}

/// Relies on r2d2's `Pool::new`: builds a pool with default bounds over the
/// manager and eagerly opens its initial connections; the error case carries
/// r2d2's message.
#[verifier::external_body]
fn new_raw_pool(manager: diesel::r2d2::ConnectionManager<diesel::SqliteConnection>) -> Result<
    RawSqlitePool,
    String,
> {
    diesel::r2d2::Pool::new(manager).map(|pool| RawSqlitePool { pool }).map_err(|e| e.to_string())
}

/// Relies on r2d2's `Builder::build`, configured through `max_size` and
/// `connection_timeout`: builds a pool of at most `max_connections`
/// connections whose checkout waits at most the given timeout.
/// `Builder::max_size` panics on zero and `Builder::connection_timeout` on a
/// zero duration, so both are excluded.
#[verifier::external_body]
fn new_raw_bounded_pool(
    manager: diesel::r2d2::ConnectionManager<diesel::SqliteConnection>,
    max_connections: u32,
    acquire_timeout_ms: u64,
) -> Result<RawSqlitePool, String>
    requires
        max_connections >= 1,
        acquire_timeout_ms >= 1,
{
    diesel::r2d2::Pool::builder()
        .max_size(max_connections)
        .connection_timeout(core::time::Duration::from_millis(acquire_timeout_ms))
        .build(manager)
        .map(|pool| RawSqlitePool { pool })
        .map_err(|e| e.to_string())
}

/// Relies on diesel's `SimpleConnection::batch_execute`, reached through
/// r2d2's `DerefMut`: runs the SQL script on the checked-out connection; the
/// error case carries diesel's message.
#[verifier::external_body]
fn run_batch(conn: &mut SqlitePooledConnection, sql: &str) -> Result<(), String> {
    conn.conn.batch_execute(sql).map_err(|e| e.to_string())
}

/// The path with every backslash separator replaced by a forward slash.
pub open spec fn spec_normalise_path(path: Seq<char>) -> Seq<char> {
    path.map_values(
        |c: char|
            if c == '\\' {
                '/'
            } else {
                c
            },
    )
}

/// Normalise a filesystem path into a database URL: every backslash
/// separator becomes a forward slash.
pub fn normalise_path(path: &str) -> (r: String)
    ensures
        r@ == spec_normalise_path(path@),
{
    let len = path.unicode_len();
    let mut out = String::new();
    let mut i: usize = 0;
    while i < len
        invariant
            i <= len,
            len == path@.len(),
            out@ =~= spec_normalise_path(path@.subrange(0, i as int)),
        decreases len - i,
    {
        let c = path.get_char(i);
        if c == '\\' {
            out.append("/");
            proof {
                reveal_strlit("/");
            }
        } else {
            let piece = path.substring_char(i, i + 1);
            out.append(piece);
        }
        i = i + 1;
        proof {
            assert(spec_normalise_path(path@.subrange(0, i as int)) =~= spec_normalise_path(
                path@.subrange(0, i - 1),
            ) + spec_normalise_path(path@.subrange(i - 1, i as int)));
        }
    }
    proof {
        assert(path@.subrange(0, len as int) =~= path@);
    }
    out
}

impl DatabaseConnection {
    /// Set up a connection pool to the main database located in the
    /// specified file and initialise it with the schema script, run once
    /// against one eagerly checked-out connection.
    ///
    /// Any failure — opening the pool, checking the first connection out, or
    /// running the script — is fatal to startup and reported as an error;
    /// the caller must not serve traffic on it. A returned pool was opened
    /// on exactly the normalised path.
    pub fn initialise(db_file: &str) -> (r: Result<SqlitePool, String>)
        ensures
            r matches Ok(p) ==> p.url() == spec_normalise_path(db_file@),
    {
        let url = normalise_path(db_file);
        let manager = new_connection_manager(url.as_str());
        let raw = match new_raw_pool(manager) {
            Ok(p) => p,
            Err(e) => return Err(e),
        };
        Self::run_schema_script(SqlitePool { raw, url: Ghost(url@) })
    }

    /// As `initialise`, but bounding the pool to at most `max_connections`
    /// connections and each checkout's wait to the given timeout; both
    /// bounds must be at least one.
    pub fn initialise_bounded(db_file: &str, max_connections: u32, acquire_timeout_ms: u64) -> (r:
        Result<SqlitePool, String>)
        requires
            max_connections >= 1,
            acquire_timeout_ms >= 1,
        ensures
            r matches Ok(p) ==> p.url() == spec_normalise_path(db_file@),
    {
        let url = normalise_path(db_file);
        let manager = new_connection_manager(url.as_str());
        let raw = match new_raw_bounded_pool(manager, max_connections, acquire_timeout_ms) {
            Ok(p) => p,
            Err(e) => return Err(e),
        };
        Self::run_schema_script(SqlitePool { raw, url: Ghost(url@) })
    }

    fn run_schema_script(pool: SqlitePool) -> (r: Result<SqlitePool, String>)
        ensures
            r matches Ok(p) ==> p == pool,
    {
        let mut conn = match pool_get(&pool) {
            Some(c) => c,
            None => return Err("Failed to open database".to_owned()),
        };
        match run_batch(&mut conn, INITIALISE_DATABASE) {
            Ok(_) => Ok(pool),
            Err(e) => Err(e),
        }
    }

    /// Attempt to retrieve a single connection from the managed database
    /// pool, `None` standing for a process that registered no pool.
    ///
    /// If no pool is managed, fails with the internal-error classification.
    /// If the pool has no connection to give, fails with the
    /// service-unavailable classification. Otherwise yields a guard over one
    /// pooled connection.
    pub fn from_request(pool: Option<&SqlitePool>) -> (r: Result<DatabaseConnection, AcquireError>)
        ensures
            r matches Err(AcquireError::InternalServerError) <==> pool is None,
            pool is Some ==> (r is Ok || r matches Err(AcquireError::ServiceUnavailable)),
    {
        let pool = match pool {
            Some(p) => p,
            None => return Err(AcquireError::InternalServerError),
        };
        match pool_get(pool) {
            Some(conn) => Ok(DatabaseConnection(conn)),
            None => Err(AcquireError::ServiceUnavailable),
        }
    }

    /// Run an SQL script on the guarded connection. Relies on diesel's
    /// `SimpleConnection::batch_execute`, reached through r2d2's `DerefMut`;
    /// the error case carries diesel's message.
    #[verifier::external_body]
    pub fn batch_execute(&mut self, sql: &str) -> Result<(), String> {
        self.0.conn.batch_execute(sql).map_err(|e| e.to_string())
    }
}

} // verus!
