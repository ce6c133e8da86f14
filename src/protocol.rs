//! The command/event protocol between the consumer and the worker that owns
//! the connection: what may be asked, what is reported, and which event
//! answers each outcome.

use vstd::prelude::*;
use crate::error::ConnectionError;
use crate::result::{ColumnMetadata, QueryResult};
use crate::sql::ROW_LIMIT;

verus! {

/// A request from the consumer to the worker.
pub enum DbCommand {
    Execute { sql: String, limit: usize },
    FetchSchemas,
    FetchTables { schema: String },
    FetchColumns { schema: String, table: String },
    PreviewTable { schema: String, table: String, limit: usize },
    Disconnect,
}

impl DbCommand {
    /// Runs a statement, keeping at most `ROW_LIMIT` rows of its result.
    pub fn execute(sql: String) -> (r: DbCommand)
        ensures
            r == (DbCommand::Execute { sql, limit: ROW_LIMIT }),
    {
        DbCommand::Execute { sql, limit: ROW_LIMIT }
    }
}

/// A report from the worker to the consumer; `H` is the session handle that
/// a successful connection hands over.
pub enum DbEvent<H> {
    Connected(H),
    ConnectionFailed(ConnectionError),
    ConnectionClosed(Option<String>),
    QueryFinished(QueryResult),
    QueryFailed(String),
    SchemasLoaded(Vec<String>),
    TablesLoaded { schema: String, tables: Vec<String> },
    ColumnsLoaded { schema: String, table: String, columns: Vec<ColumnMetadata> },
    TablePreviewReady { schema: String, table: String, result: QueryResult },
    MetadataFailed(String),
}

/// A call to the adapter: every command but a disconnect.
pub enum AdapterCall {
    Execute { sql: String, limit: usize },
    FetchSchemas,
    FetchTables { schema: String },
    FetchColumns { schema: String, table: String },
    PreviewTable { schema: String, table: String, limit: usize },
}

/// The adapter call a command asks for; none for a disconnect.
pub open spec fn call_of(c: DbCommand) -> Option<AdapterCall> {
    match c {
        DbCommand::Execute { sql, limit } => Some(AdapterCall::Execute { sql, limit }),
        DbCommand::FetchSchemas => Some(AdapterCall::FetchSchemas),
        DbCommand::FetchTables { schema } => Some(AdapterCall::FetchTables { schema }),
        DbCommand::FetchColumns { schema, table } => Some(
            AdapterCall::FetchColumns { schema, table },
        ),
        DbCommand::PreviewTable { schema, table, limit } => Some(
            AdapterCall::PreviewTable { schema, table, limit },
        ),
        DbCommand::Disconnect => None,
    }
}

/// What an adapter call came back with.
pub enum Reply {
    Rows(QueryResult),
    Names(Vec<String>),
    Columns(Vec<ColumnMetadata>),
    /// The call failed, with the driver's message.
    Failed(String),
}

/// The command in flight, as far as its answer needs it.
pub enum Pending {
    Query,
    Schemas,
    Tables { schema: String },
    Columns { schema: String, table: String },
    Preview { schema: String, table: String },
}

/// What stays of a command while its call runs; a disconnect has no call.
pub open spec fn pending_of(c: DbCommand) -> Option<Pending> {
    match c {
        DbCommand::Execute { .. } => Some(Pending::Query),
        DbCommand::FetchSchemas => Some(Pending::Schemas),
        DbCommand::FetchTables { schema } => Some(Pending::Tables { schema }),
        DbCommand::FetchColumns { schema, table } => Some(Pending::Columns { schema, table }),
        DbCommand::PreviewTable { schema, table, .. } => Some(Pending::Preview { schema, table }),
        DbCommand::Disconnect => None,
    }
}

/// Whether a reply is of the kind that the pending call yields.
pub open spec fn fits(p: Pending, reply: Reply) -> bool {
    match reply {
        Reply::Failed(_) => true,
        Reply::Rows(_) => p is Query || p is Preview,
        Reply::Names(_) => p is Schemas || p is Tables,
        Reply::Columns(_) => p is Columns,
    }
}

/// A metadata failure whose message is `prefix` followed by the driver's
/// message.
pub open spec fn is_metadata_failure<H>(e: DbEvent<H>, prefix: Seq<char>, m: String) -> bool {
    e matches DbEvent::MetadataFailed(t) && t@ == prefix + m@
}

/// Whether `e` is the event that answers `reply` to the pending call `p`:
/// a query's rows or its raw message; the loaded names, columns or preview
/// with the schema and table asked for; or a metadata failure whose message
/// names the operation that failed.
pub open spec fn answers<H>(p: Pending, reply: Reply, e: DbEvent<H>) -> bool {
    match (p, reply) {
        (Pending::Query, Reply::Rows(r)) => e == DbEvent::<H>::QueryFinished(r),
        (Pending::Query, Reply::Failed(m)) => e == DbEvent::<H>::QueryFailed(m),
        (Pending::Schemas, Reply::Names(n)) => e == DbEvent::<H>::SchemasLoaded(n),
        (Pending::Schemas, Reply::Failed(m)) => is_metadata_failure(
            e,
            "Failed to load schemas: "@,
            m,
        ),
        (Pending::Tables { schema }, Reply::Names(n)) => e == (DbEvent::<H>::TablesLoaded {
            schema,
            tables: n,
        }),
        (Pending::Tables { .. }, Reply::Failed(m)) => is_metadata_failure(
            e,
            "Failed to load tables: "@,
            m,
        ),
        (Pending::Columns { schema, table }, Reply::Columns(c)) => e == (
        DbEvent::<H>::ColumnsLoaded { schema, table, columns: c }),
        (Pending::Columns { .. }, Reply::Failed(m)) => is_metadata_failure(
            e,
            "Failed to load columns: "@,
            m,
        ),
        (Pending::Preview { schema, table }, Reply::Rows(r)) => e == (
        DbEvent::<H>::TablePreviewReady { schema, table, result: r }),
        (Pending::Preview { .. }, Reply::Failed(m)) => is_metadata_failure(
            e,
            "Failed to preview table: "@,
            m,
        ),
        _ => false,
    }
}

/// Splits a command into the adapter call it asks for and what its answer
/// needs; `None` for a disconnect, which is no call.
pub fn split_command(c: DbCommand) -> (r: Option<(AdapterCall, Pending)>)
    ensures
        match r {
            Some((a, p)) => call_of(c) == Some(a) && pending_of(c) == Some(p),
            None => call_of(c) is None && pending_of(c) is None,
        },
{
    match c {
        DbCommand::Execute { sql, limit } => Some((AdapterCall::Execute { sql, limit }, Pending::Query)),
        DbCommand::FetchSchemas => Some((AdapterCall::FetchSchemas, Pending::Schemas)),
        DbCommand::FetchTables { schema } => {
            let kept = schema.clone();
            Some((AdapterCall::FetchTables { schema }, Pending::Tables { schema: kept }))
        },
        DbCommand::FetchColumns { schema, table } => {
            let pending = Pending::Columns { schema: schema.clone(), table: table.clone() };
            Some((AdapterCall::FetchColumns { schema, table }, pending))
        },
        DbCommand::PreviewTable { schema, table, limit } => {
            let pending = Pending::Preview { schema: schema.clone(), table: table.clone() };
            Some((AdapterCall::PreviewTable { schema, table, limit }, pending))
        },
        DbCommand::Disconnect => None,
    }
}

fn metadata_failure<H>(prefix: &str, m: String) -> (r: DbEvent<H>)
    ensures
        is_metadata_failure(r, prefix@, m),
{
    let mut t = String::from_str(prefix);
    t.append(m.as_str());
    DbEvent::MetadataFailed(t)
}

/// The event that answers the outcome of a call: `None` where the reply is
/// not of the kind the call yields.
pub fn outcome_event<H>(p: Pending, reply: Reply) -> (r: Option<DbEvent<H>>)
    ensures
        r is Some <==> fits(p, reply),
        r matches Some(e) ==> answers(p, reply, e),
{
    match (p, reply) {
        (Pending::Query, Reply::Rows(r)) => Some(DbEvent::QueryFinished(r)),
        (Pending::Query, Reply::Failed(m)) => Some(DbEvent::QueryFailed(m)),
        (Pending::Schemas, Reply::Names(n)) => Some(DbEvent::SchemasLoaded(n)),
        (Pending::Schemas, Reply::Failed(m)) => Some(
            metadata_failure("Failed to load schemas: ", m),
        ),
        (Pending::Tables { schema }, Reply::Names(n)) => Some(
            DbEvent::TablesLoaded { schema, tables: n },
        ),
        (Pending::Tables { .. }, Reply::Failed(m)) => Some(
            metadata_failure("Failed to load tables: ", m),
        ),
        (Pending::Columns { schema, table }, Reply::Columns(c)) => Some(
            DbEvent::ColumnsLoaded { schema, table, columns: c },
        ),
        (Pending::Columns { .. }, Reply::Failed(m)) => Some(
            metadata_failure("Failed to load columns: ", m),
        ),
        (Pending::Preview { schema, table }, Reply::Rows(r)) => Some(
            DbEvent::TablePreviewReady { schema, table, result: r },
        ),
        (Pending::Preview { .. }, Reply::Failed(m)) => Some(
            metadata_failure("Failed to preview table: ", m),
        ),
        _ => None,
    }
}

/// The supervisor's report once the handshake is over: `Connected` with the
/// handle where the worker delivered one; nothing where the rendezvous closed
/// without it, since the worker has already reported that failure.
pub fn announce<H>(handle: Option<H>) -> (r: Option<DbEvent<H>>)
    ensures
        match handle {
            Some(h) => r == Some(DbEvent::Connected(h)),
            None => r is None,
        },
{
    match handle {
        Some(h) => Some(DbEvent::Connected(h)),
        None => None,
    }
}

/// The reason carried by `ConnectionClosed` when the connection ends: none
/// where the consumer asked to disconnect, otherwise the error that ended the
/// connection, if any.
pub fn closed_reason(disconnect_requested: bool, outcome: Result<(), String>) -> (r: Option<
    String,
>)
    ensures
        disconnect_requested ==> r is None,
        !disconnect_requested ==> match outcome {
            Ok(_) => r is None,
            Err(m) => r == Some(m),
        },
{
    if disconnect_requested {
        None
    } else {
        match outcome {
            Ok(_) => None,
            Err(m) => Some(m),
        }
    }
}

} // verus!
