//! Reading the policy database: a read-only SQLite file whose six
//! views are materialised wholesale into the in-memory cache, at most
//! once per wall-clock second.

use vstd::prelude::*;

use crate::db::PolicyCache;
use crate::platform::get_data_file_path;
use crate::rows::{ActionArgumentRow, ArgumentRow, HookRow, RuleRow, SettingRow, WhitelistRow};

verus! {

/// Why the cache could not be refreshed.
#[derive(Clone, Copy, Debug, PartialEq, Eq, Structural)]
pub enum DbError {
    /// A refresh already ran in this wall-clock second.
    RateLimited,
    /// The database file could not be opened.
    OpenFailed,
    /// A view could not be read.
    QueryFailed,
}

#[verifier::external_type_specification]
#[verifier::external_body]
pub struct ExConnection(rusqlite::Connection);

/// Relies on rusqlite's `Connection::open_with_flags` with
/// `SQLITE_OPEN_READ_ONLY`: the database is never opened for
/// writing.  Whether it succeeds depends on the file on disk, so
/// success is not promised; the error clause states this body's own
/// conversion, which maps every rusqlite failure to `OpenFailed`.
#[verifier::external_body]
pub fn db_open_at(path: &str) -> (r: Result<rusqlite::Connection, DbError>)
    ensures
        r is Err ==> r->Err_0 == DbError::OpenFailed,
{
    match rusqlite::Connection::open_with_flags(
        path,
        rusqlite::OpenFlags::SQLITE_OPEN_READ_ONLY,
    ) {
        Ok(conn) => Ok(conn),
        Err(_e) => Err(DbError::OpenFailed),
    }
}

/// Opens the policy database at its fixed path under the data
/// directory, read-only.  Whether a connection comes back is the
/// disk's to decide; the only error is `OpenFailed`.
pub fn db_open() -> (r: Result<rusqlite::Connection, DbError>)
    ensures
        r is Err ==> r->Err_0 == DbError::OpenFailed,
{
    let path = get_data_file_path("database.sqlite");
    db_open_at(path.as_str())
}

/// Relies on rusqlite's `Connection::prepare` and
/// `Statement::query_map`: each row of `HookView` is handed back as
/// fetched.  The rows depend on the file on disk, so nothing is
/// promised of them.
#[verifier::external_body]
pub fn get_hook_view(conn: &rusqlite::Connection) -> Result<Vec<HookRow>, DbError> {
    let mut stmt = conn.prepare("SELECT language, library, symbol, id FROM HookView").map_err(|_| DbError::QueryFailed)?;
    let rows = stmt.query_map([], |r| Ok(HookRow { language: r.get(0)?, library: r.get(1)?, symbol: r.get(2)?, id: r.get(3)? })).map_err(|_| DbError::QueryFailed)?;
    rows.collect::<Result<Vec<HookRow>, rusqlite::Error>>().map_err(|_| DbError::QueryFailed)
}

/// Relies on rusqlite's `Connection::prepare` and
/// `Statement::query_map`: each row of `ArgumentView` is handed back
/// as fetched, with a missing parent read as `None` and the captured
/// register value zeroed.  The rows depend on the file on disk; the
/// zeroed register value is this body's own conversion and is the
/// one thing stated.
#[verifier::external_body]
pub fn get_argument_view(conn: &rusqlite::Connection) -> (r: Result<Vec<ArgumentRow>, DbError>)
    ensures
        r is Ok ==> forall|i: int|
            0 <= i < r->Ok_0@.len() ==> (#[trigger] r->Ok_0@[i]).real == 0,
{
    let mut stmt = conn.prepare("SELECT hook, parent, id, position, datatype, pointer, signed, variadic, array FROM ArgumentView").map_err(|_| DbError::QueryFailed)?;
    let rows = stmt.query_map([], |r| Ok(ArgumentRow { hook: r.get(0)?, parent: r.get(1).ok(), id: r.get(2)?, position: r.get(3)?, real: 0, datatype: r.get(4)?, pointer: r.get(5)?, signed: r.get(6)?, variadic: r.get(7)?, array: r.get(8)? })).map_err(|_| DbError::QueryFailed)?;
    rows.collect::<Result<Vec<ArgumentRow>, rusqlite::Error>>().map_err(|_| DbError::QueryFailed)
}

/// Relies on rusqlite's `Connection::prepare` and
/// `Statement::query_map`: each row of `WhitelistView` is handed
/// back as fetched.  The rows depend on the file on disk, so nothing
/// is promised of them.
#[verifier::external_body]
pub fn get_whitelist_view(conn: &rusqlite::Connection) -> Result<Vec<WhitelistRow>, DbError> {
    let mut stmt = conn.prepare("SELECT class, parent, path, value FROM WhitelistView").map_err(|_| DbError::QueryFailed)?;
    let rows = stmt.query_map([], |r| Ok(WhitelistRow { class: r.get(0)?, parent: r.get(1)?, path: r.get(2)?, value: r.get(3)? })).map_err(|_| DbError::QueryFailed)?;
    rows.collect::<Result<Vec<WhitelistRow>, rusqlite::Error>>().map_err(|_| DbError::QueryFailed)
}

/// Relies on rusqlite's `Connection::prepare` and
/// `Statement::query_map`: each row of `ActionArgument` is handed
/// back as fetched.  The rows depend on the file on disk, so nothing
/// is promised of them.
#[verifier::external_body]
pub fn get_action_argument_table(conn: &rusqlite::Connection) -> Result<Vec<ActionArgumentRow>, DbError> {
    let mut stmt = conn.prepare("SELECT id, value, next FROM ActionArgument").map_err(|_| DbError::QueryFailed)?;
    let rows = stmt.query_map([], |r| Ok(ActionArgumentRow { id: r.get(0)?, value: r.get(1)?, next: r.get(2)? })).map_err(|_| DbError::QueryFailed)?;
    rows.collect::<Result<Vec<ActionArgumentRow>, rusqlite::Error>>().map_err(|_| DbError::QueryFailed)
}

/// Relies on rusqlite's `Connection::prepare` and
/// `Statement::query_map`: each row of `RuleView` is handed back as
/// fetched, in the database's declared order.  The rows depend on
/// the file on disk, so nothing is promised of them.
#[verifier::external_body]
pub fn get_rule_view(conn: &rusqlite::Connection) -> Result<Vec<RuleRow>, DbError> {
    let mut stmt = conn.prepare("SELECT arg, action, actionarg FROM RuleView").map_err(|_| DbError::QueryFailed)?;
    let rows = stmt.query_map([], |r| Ok(RuleRow { arg: r.get(0)?, action: r.get(1)?, actionarg: r.get(2)? })).map_err(|_| DbError::QueryFailed)?;
    rows.collect::<Result<Vec<RuleRow>, rusqlite::Error>>().map_err(|_| DbError::QueryFailed)
}

/// Relies on rusqlite's `Connection::prepare` and
/// `Statement::query_map`: each row of `Setting` is handed back as
/// fetched.  The rows depend on the file on disk, so nothing is
/// promised of them.
#[verifier::external_body]
pub fn get_setting_table(conn: &rusqlite::Connection) -> Result<Vec<SettingRow>, DbError> {
    let mut stmt = conn.prepare("SELECT param, value FROM Setting").map_err(|_| DbError::QueryFailed)?;
    let rows = stmt.query_map([], |r| Ok(SettingRow { param: r.get(0)?, value: r.get(1)? })).map_err(|_| DbError::QueryFailed)?;
    rows.collect::<Result<Vec<SettingRow>, rusqlite::Error>>().map_err(|_| DbError::QueryFailed)
}

/// Whether a refresh may begin at second `now` given when the last
/// one began: at most one refresh per wall-clock second.
pub open spec fn refresh_admitted(last_refresh: u32, now: u32) -> bool {
    now != last_refresh
}

/// Whether a refresh beginning at `now` would be admitted.
pub fn refresh_due(cache: &PolicyCache, now: u32) -> (r: bool)
    ensures
        r == refresh_admitted(cache.last_refresh, now),
{
    now != cache.last_refresh
}

/// Whether two cache states hold the same six tables.
pub open spec fn same_tables(a: PolicyCache, b: PolicyCache) -> bool {
    &&& a.hooks == b.hooks
    &&& a.arguments == b.arguments
    &&& a.whitelist == b.whitelist
    &&& a.action_arguments == b.action_arguments
    &&& a.rules == b.rules
    &&& a.settings == b.settings
}

/// Replaces the whole snapshot at once.  The resulting tables are
/// exactly the given ones, whatever the cache held before: loading a
/// snapshot twice leaves the second one.
pub fn install_snapshot(
    cache: &mut PolicyCache,
    hooks: Vec<HookRow>,
    arguments: Vec<ArgumentRow>,
    whitelist: Vec<WhitelistRow>,
    action_arguments: Vec<ActionArgumentRow>,
    rules: Vec<RuleRow>,
    settings: Vec<SettingRow>,
)
    ensures
        final(cache).hooks == hooks,
        final(cache).arguments == arguments,
        final(cache).whitelist == whitelist,
        final(cache).action_arguments == action_arguments,
        final(cache).rules == rules,
        final(cache).settings == settings,
        final(cache).last_refresh == old(cache).last_refresh,
{
    cache.hooks = hooks;
    cache.arguments = arguments;
    cache.whitelist = whitelist;
    cache.action_arguments = action_arguments;
    cache.rules = rules;
    cache.settings = settings;
}

/// Asks the limiter to admit a refresh at second `now` and, when it
/// does, records that second at once — before any table is read, so
/// every further attempt in the same second is turned away while the
/// reload is still under way.
pub fn begin_refresh(cache: &mut PolicyCache, now: u32) -> (r: Result<(), DbError>)
    ensures
        r is Ok <==> refresh_admitted(old(cache).last_refresh, now),
        r is Ok ==> final(cache).last_refresh == now && same_tables(*final(cache), *old(cache)),
        r is Err ==> r == Err::<(), DbError>(DbError::RateLimited) && *final(cache) == *old(
            cache,
        ),
{
    if now == cache.last_refresh {
        return Err(DbError::RateLimited);
    }
    cache.last_refresh = now;
    Ok(())
}

/// Reads all six views from the open database and installs them as
/// one snapshot.  A query failure leaves the cache exactly as it
/// was, serving the previous snapshot; on success the cache holds
/// precisely the rows the six queries returned, the old contents
/// discarded wholesale.
pub fn load_snapshot(cache: &mut PolicyCache, conn: &rusqlite::Connection) -> (r: Result<
    (),
    DbError,
>)
    ensures
        r is Err ==> r == Err::<(), DbError>(DbError::QueryFailed) && *final(cache) == *old(
            cache,
        ),
        final(cache).last_refresh == old(cache).last_refresh,
{
    let hooks = match get_hook_view(conn) {
        Ok(rows) => rows,
        Err(_e) => {
            return Err(DbError::QueryFailed);
        },
    };
    let arguments = match get_argument_view(conn) {
        Ok(rows) => rows,
        Err(_e) => {
            return Err(DbError::QueryFailed);
        },
    };
    let whitelist = match get_whitelist_view(conn) {
        Ok(rows) => rows,
        Err(_e) => {
            return Err(DbError::QueryFailed);
        },
    };
    let action_arguments = match get_action_argument_table(conn) {
        Ok(rows) => rows,
        Err(_e) => {
            return Err(DbError::QueryFailed);
        },
    };
    let rules = match get_rule_view(conn) {
        Ok(rows) => rows,
        Err(_e) => {
            return Err(DbError::QueryFailed);
        },
    };
    let settings = match get_setting_table(conn) {
        Ok(rows) => rows,
        Err(_e) => {
            return Err(DbError::QueryFailed);
        },
    };
    install_snapshot(cache, hooks, arguments, whitelist, action_arguments, rules, settings);
    Ok(())
}

/// Refreshes every cache from the open database, at most once per
/// second: the limiter admits or turns the attempt away, the new
/// refresh second is recorded before any table is read, and the six
/// tables are then replaced as one snapshot — or, on a query
/// failure, left exactly as they were.
pub fn populate_cache(cache: &mut PolicyCache, now: u32, conn: &rusqlite::Connection) -> (r:
    Result<(), DbError>)
    ensures
        !refresh_admitted(old(cache).last_refresh, now) ==> r == Err::<(), DbError>(
            DbError::RateLimited,
        ) && *final(cache) == *old(cache),
        refresh_admitted(old(cache).last_refresh, now) ==> final(cache).last_refresh == now && (
        r is Ok || r == Err::<(), DbError>(DbError::QueryFailed)),
        refresh_admitted(old(cache).last_refresh, now) && r is Err ==> same_tables(
            *final(cache),
            *old(cache),
        ),
        !refresh_admitted(final(cache).last_refresh, now),
{
    match begin_refresh(cache, now) {
        Ok(()) => {},
        Err(e) => {
            return Err(e);
        },
    }
    load_snapshot(cache, conn)
}

/// How the limiter state moves: an admitted attempt records its
/// second, a turned-away attempt leaves the record alone.
pub open spec fn limiter_step(last_refresh: u32, now: u32) -> (bool, u32) {
    if refresh_admitted(last_refresh, now) {
        (true, now)
    } else {
        (false, last_refresh)
    }
}

/// How many of a series of attempts, all within the second `now`,
/// the limiter admits.
pub open spec fn limiter_admissions(last_refresh: u32, now: u32, attempts: nat) -> nat
    decreases attempts,
{
    if attempts == 0 {
        0
    } else {
        let (admitted, next) = limiter_step(last_refresh, now);
        (if admitted {
            1nat
        } else {
            0nat
        }) + limiter_admissions(next, now, (attempts - 1) as nat)
    }
}

/// Of any number of refresh attempts within one wall-clock second,
/// the limiter admits exactly one — none at all if a refresh already
/// ran in that second.
pub proof fn lemma_refresh_rate_limit(last_refresh: u32, now: u32, attempts: nat)
    requires
        attempts > 0,
    ensures
        refresh_admitted(last_refresh, now) ==> limiter_admissions(last_refresh, now, attempts) == 1,
        !refresh_admitted(last_refresh, now) ==> limiter_admissions(last_refresh, now, attempts) == 0,
    decreases attempts,
{
    let (admitted, next) = limiter_step(last_refresh, now);
    if attempts == 1 {
        assert(limiter_admissions(next, now, 0) == 0);
    } else {
        lemma_refresh_rate_limit(next, now, (attempts - 1) as nat);
    }
}

} // verus!
