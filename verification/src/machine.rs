//! The migration pipeline as a pure state machine, and its driver.
//!
//! A run walks four phases in a fixed order — Discovery, Schema Replication,
//! Data Replication, Alias Replication — issuing one HTTP request at a time
//! and waiting for its outcome before the next. The machine here holds the
//! run's state and decides, from each response, what to record and which
//! request to issue next; performing the requests is the caller's business.
//! A Discovery failure aborts the run; a failure at any single index in the
//! later phases is only recorded, and the run continues — two deliberately
//! different policies.

use vstd::prelude::*;
use vstd::string::StringExecFns;
use crate::json::Json;
use crate::discovery::spec_discovery;
use crate::discovery::discover;
use crate::schema::schema_shape_ok;
use crate::schema::is_schema_payload;
use crate::schema::schema_payload;

verus! {

/// The immutable configuration of a run: the two cluster endpoints.
#[derive(Debug)]
pub struct Options {
    /// Base URL of the source cluster, the one migrated away from.
    pub from_cluster: String,
    /// Base URL of the destination cluster.
    pub to_cluster: String,
}

/// The HTTP method of an outbound request.
#[derive(Debug, Clone, Copy, PartialEq, Eq, Structural)]
pub enum Method {
    Get,
    Put,
    Post,
}

/// One outbound HTTP request the machine asks its caller to perform.
#[derive(Debug, PartialEq, Eq)]
pub struct Request {
    pub method: Method,
    pub url: String,
    pub body: Option<Json>,
}

/// One record to emit about a per-index operation.
#[derive(Debug, PartialEq, Eq)]
pub enum LogRecord {
    /// The routine record of an operation: its tag, the index, the status.
    Info { operation: String, index: String, status: u16 },
    /// The additional record of a failed operation, with its detail (the
    /// response body, or the kind of failure when no response arrived).
    Error { operation: String, index: String, detail: String },
}

/// Why a run aborts: the source was unreachable or answered with a
/// non-success status, or its answer did not have the expected shape.
#[derive(Debug, Clone, Copy, PartialEq, Eq, Structural)]
pub enum MigrationError {
    Transport,
    Decode,
}

/// The outcome of one request, handed back by the caller: a response with
/// its status, body text and — when the body is well-formed JSON — its
/// parsed form, or the absence of any response.
#[derive(Debug)]
pub enum Event {
    Response { status: u16, body: String, json: Option<Json> },
    Transport,
}

/// Where a run stands: which request is outstanding, or how it ended.
#[derive(Debug, Clone, Copy)]
pub enum Phase {
    /// Awaiting the alias listing of the source.
    Discover,
    /// Awaiting the schema of the index at this position.
    SchemaFetch { i: usize },
    /// Awaiting the destination's answer to creating the index at this
    /// position.
    SchemaPut { i: usize },
    /// Awaiting the destination's answer to the data copy of the index at
    /// this position.
    Reindex { i: usize },
    /// Awaiting the destination's answer to attaching the alias pair at this
    /// position.
    Alias { j: usize },
    Done,
    Failed { error: MigrationError },
}

/// What the machine hands back for one event: the records to emit and the
/// next request to perform, if the run goes on.
pub struct StepOutcome {
    pub logs: Vec<LogRecord>,
    pub next: Option<Request>,
}

/// The state of one migration run.
pub struct Reindexer {
    pub opts: Options,
    /// The index set: discovered index names, internal ones excluded.
    pub indices: Vec<String>,
    /// The alias map: discovered (index, alias) pairs.
    pub aliases: Vec<(String, String)>,
    pub phase: Phase,
}

/// A status of 200 is the one success this logic recognizes.
pub open spec fn ok_status(s: u16) -> bool {
    s == 200
}

/// The URL that lists the source's indices and aliases.
pub open spec fn discovery_url(opts: Options) -> Seq<char> {
    opts.from_cluster@ + "/_alias"@
}

/// The URL an index's schema is fetched from.
pub open spec fn source_index_url(opts: Options, index: Seq<char>) -> Seq<char> {
    opts.from_cluster@ + "/"@ + index
}

/// The URL an index is created at on the destination.
pub open spec fn dest_index_url(opts: Options, index: Seq<char>) -> Seq<char> {
    opts.to_cluster@ + "/"@ + index
}

/// The URL the destination's remote-copy operation is invoked at.
pub open spec fn reindex_url(opts: Options) -> Seq<char> {
    opts.to_cluster@ + "/_reindex"@
}

/// The URL an alias is attached at on the destination.
pub open spec fn alias_put_url(opts: Options, index: Seq<char>, alias: Seq<char>) -> Seq<char> {
    opts.to_cluster@ + "/"@ + index + "/_alias/"@ + alias
}

/// The remote-copy request body: the source endpoint and index name as the
/// origin, and the same index name as the target.
pub open spec fn is_reindex_body(b: Json, from: String, index: String) -> bool {
    &&& b matches Json::Obj(f)
    &&& f@.len() == 2
    &&& f@[0].0@ == "source"@
    &&& f@[0].1 matches Json::Obj(src)
    &&& src@.len() == 2
    &&& src@[0].0@ == "remote"@
    &&& src@[0].1 matches Json::Obj(rem)
    &&& rem@.len() == 1
    &&& rem@[0].0@ == "host"@
    &&& rem@[0].1 == Json::Str(from)
    &&& src@[1].0@ == "index"@
    &&& src@[1].1 == Json::Str(index)
    &&& f@[1].0@ == "dest"@
    &&& f@[1].1 matches Json::Obj(d)
    &&& d@.len() == 1
    &&& d@[0].0@ == "index"@
    &&& d@[0].1 == Json::Str(index)
}

/// A request that touches only what Discovery produced: a schema fetch,
/// index creation or data copy for a discovered index, or an alias
/// attachment for a discovered pair. No other name is ever addressed.
pub open spec fn request_targets(
    req: Request,
    opts: Options,
    indices: Seq<String>,
    aliases: Seq<(String, String)>,
) -> bool {
    ||| exists|i: int|
        0 <= i < indices.len() && req.method is Get && req.url@ == source_index_url(
            opts,
            (#[trigger] indices[i])@,
        ) && req.body is None
    ||| exists|i: int|
        0 <= i < indices.len() && req.method is Put && req.url@ == dest_index_url(
            opts,
            (#[trigger] indices[i])@,
        )
    ||| exists|i: int|
        0 <= i < indices.len() && req.method is Post && req.url@ == reindex_url(opts) && (req.body
            matches Some(b) && is_reindex_body(b, opts.from_cluster, #[trigger] indices[i]))
    ||| exists|j: int|
        0 <= j < aliases.len() && req.method is Put && req.url@ == alias_put_url(
            opts,
            (#[trigger] aliases[j]).0@,
            aliases[j].1@,
        ) && req.body is None
}

/// `request_targets` over a machine's own state.
pub open spec fn request_from_state(req: Request, m: Reindexer) -> bool {
    request_targets(req, m.opts, m.indices@, m.aliases@)
}

/// The machine aborted with this error: nothing further is requested and
/// nothing was recorded.
pub open spec fn failed(m: Reindexer, r: StepOutcome, err: MigrationError) -> bool {
    &&& m.phase matches Phase::Failed { error } && error == err
    &&& r.next is None
    &&& r.logs@.len() == 0
}

/// The next request is the schema fetch of the index at position `i`.
pub open spec fn emits_fetch(m: Reindexer, next: Option<Request>, i: int) -> bool {
    &&& m.phase matches Phase::SchemaFetch { i: pi } && pi == i
    &&& next matches Some(req)
    &&& req.method is Get
    &&& req.url@ == source_index_url(m.opts, m.indices@[i]@)
    &&& req.body is None
}

/// The next request is the data copy of the index at position `i`.
pub open spec fn emits_reindex(m: Reindexer, next: Option<Request>, i: int) -> bool {
    &&& m.phase matches Phase::Reindex { i: pi } && pi == i
    &&& next matches Some(req)
    &&& req.method is Post
    &&& req.url@ == reindex_url(m.opts)
    &&& req.body matches Some(b)
    &&& is_reindex_body(b, m.opts.from_cluster, m.indices@[i])
}

/// The next request attaches the alias pair at position `j`.
pub open spec fn emits_alias(m: Reindexer, next: Option<Request>, j: int) -> bool {
    &&& m.phase matches Phase::Alias { j: pj } && pj == j
    &&& next matches Some(req)
    &&& req.method is Put
    &&& req.url@ == alias_put_url(m.opts, m.aliases@[j].0@, m.aliases@[j].1@)
    &&& req.body is None
}

/// Alias Replication starts: the first alias pair is attached, or, with an
/// empty alias map, the run is complete and no request for any unaliased
/// index is ever issued.
pub open spec fn begins_alias(m: Reindexer, next: Option<Request>) -> bool {
    if m.aliases@.len() > 0 {
        emits_alias(m, next, 0)
    } else {
        m.phase is Done && next is None
    }
}

/// Data Replication starts, or is skipped when the index set is empty.
pub open spec fn begins_reindex(m: Reindexer, next: Option<Request>) -> bool {
    if m.indices@.len() > 0 {
        emits_reindex(m, next, 0)
    } else {
        begins_alias(m, next)
    }
}

/// Schema Replication starts, or is skipped when the index set is empty.
pub open spec fn begins_schema(m: Reindexer, next: Option<Request>) -> bool {
    if m.indices@.len() > 0 {
        emits_fetch(m, next, 0)
    } else {
        begins_reindex(m, next)
    }
}

/// Schema Replication moves past position `i`: on to the next index, or
/// into Data Replication after the last one — never aborting the run.
pub open spec fn advances_schema(m: Reindexer, next: Option<Request>, i: int) -> bool {
    if i + 1 < m.indices@.len() {
        emits_fetch(m, next, i + 1)
    } else {
        begins_reindex(m, next)
    }
}

/// Data Replication moves past position `i`.
pub open spec fn advances_reindex(m: Reindexer, next: Option<Request>, i: int) -> bool {
    if i + 1 < m.indices@.len() {
        emits_reindex(m, next, i + 1)
    } else {
        begins_alias(m, next)
    }
}

/// Alias Replication moves past position `j`.
pub open spec fn advances_alias(m: Reindexer, next: Option<Request>, j: int) -> bool {
    if j + 1 < m.aliases@.len() {
        emits_alias(m, next, j + 1)
    } else {
        m.phase is Done && next is None
    }
}

/// The response body's parsed JSON, available only on a success status.
pub open spec fn response_json(e: Event) -> Option<Json> {
    match e {
        Event::Response { status, body, json } => if ok_status(status) {
            json
        } else {
            None
        },
        Event::Transport => None,
    }
}

/// The schema document a fetch event delivers for an index: present only on
/// a success status with a body of the expected shape.
pub open spec fn fetched_schema(e: Event, index: Seq<char>) -> Option<Json> {
    match response_json(e) {
        Some(j) => if schema_shape_ok(j, index) {
            Some(j)
        } else {
            None
        },
        None => None,
    }
}

/// The records of one answered per-index operation: the routine record with
/// the operation's tag, index and status, then, when the status is not a
/// success, the error record carrying the response body; a request that got
/// no response at all yields the error record alone.
pub open spec fn response_logs(
    logs: Seq<LogRecord>,
    op: Seq<char>,
    index: Seq<char>,
    e: Event,
) -> bool {
    match e {
        Event::Response { status, body, json } => {
            if ok_status(status) {
                &&& logs.len() == 1
                &&& is_info_log(logs[0], op, index, status)
            } else {
                &&& logs.len() == 2
                &&& is_info_log(logs[0], op, index, status)
                &&& is_error_log(logs[1], op, index)
                &&& logs[1] matches LogRecord::Error { detail, .. } && detail@ == body@
            }
        },
        Event::Transport => logs.len() == 1 && is_error_log(logs[0], op, index),
    }
}

pub open spec fn is_info_log(l: LogRecord, op: Seq<char>, index: Seq<char>, status: u16) -> bool {
    &&& l matches LogRecord::Info { operation, index: li, status: ls }
    &&& operation@ == op
    &&& li@ == index
    &&& ls == status
}

pub open spec fn is_error_log(l: LogRecord, op: Seq<char>, index: Seq<char>) -> bool {
    &&& l matches LogRecord::Error { operation, index: li, .. }
    &&& operation@ == op
    &&& li@ == index
}

impl Reindexer {
    /// Positions held in the phase stay inside the discovered collections.
    pub open spec fn wf(self) -> bool {
        match self.phase {
            Phase::SchemaFetch { i } => i < self.indices@.len(),
            Phase::SchemaPut { i } => i < self.indices@.len(),
            Phase::Reindex { i } => i < self.indices@.len(),
            Phase::Alias { j } => j < self.aliases@.len(),
            _ => true,
        }
    }

    /// A fresh run: nothing discovered yet, Discovery outstanding.
    pub fn new(opts: Options) -> (m: Reindexer)
        ensures
            m.opts == opts,
            m.phase is Discover,
            m.indices@.len() == 0,
            m.aliases@.len() == 0,
            m.wf(),
    {
        Reindexer { opts, indices: Vec::new(), aliases: Vec::new(), phase: Phase::Discover }
    }

    /// The run's first request: the source's alias listing.
    pub fn start_request(&self) -> (req: Request)
        requires
            self.phase is Discover,
        ensures
            req.method is Get,
            req.url@ == discovery_url(self.opts),
            req.body is None,
    {
        let mut u = self.opts.from_cluster.clone();
        u.append("/_alias");
        Request { method: Method::Get, url: u, body: None }
    }

    fn fetch_request(&self, i: usize) -> (req: Request)
        requires
            i < self.indices@.len(),
        ensures
            req.method is Get,
            req.url@ == source_index_url(self.opts, self.indices@[i as int]@),
            req.body is None,
    {
        let mut u = self.opts.from_cluster.clone();
        u.append("/");
        u.append(self.indices[i].as_str());
        Request { method: Method::Get, url: u, body: None }
    }

    fn put_request(&self, i: usize, payload: Json) -> (req: Request)
        requires
            i < self.indices@.len(),
        ensures
            req.method is Put,
            req.url@ == dest_index_url(self.opts, self.indices@[i as int]@),
            req.body == Some(payload),
    {
        let mut u = self.opts.to_cluster.clone();
        u.append("/");
        u.append(self.indices[i].as_str());
        Request { method: Method::Put, url: u, body: Some(payload) }
    }

    fn reindex_request(&self, i: usize) -> (req: Request)
        requires
            i < self.indices@.len(),
        ensures
            req.method is Post,
            req.url@ == reindex_url(self.opts),
            req.body matches Some(b) && is_reindex_body(
                b,
                self.opts.from_cluster,
                self.indices@[i as int],
            ),
    {
        let mut u = self.opts.to_cluster.clone();
        u.append("/_reindex");
        let mut remote: Vec<(String, Json)> = Vec::new();
        remote.push(("host".to_owned(), Json::Str(self.opts.from_cluster.clone())));
        let mut source: Vec<(String, Json)> = Vec::new();
        source.push(("remote".to_owned(), Json::Obj(remote)));
        source.push(("index".to_owned(), Json::Str(self.indices[i].clone())));
        let mut dest: Vec<(String, Json)> = Vec::new();
        dest.push(("index".to_owned(), Json::Str(self.indices[i].clone())));
        let mut top: Vec<(String, Json)> = Vec::new();
        top.push(("source".to_owned(), Json::Obj(source)));
        top.push(("dest".to_owned(), Json::Obj(dest)));
        Request { method: Method::Post, url: u, body: Some(Json::Obj(top)) }
    }

    fn alias_request(&self, j: usize) -> (req: Request)
        requires
            j < self.aliases@.len(),
        ensures
            req.method is Put,
            req.url@ == alias_put_url(
                self.opts,
                self.aliases@[j as int].0@,
                self.aliases@[j as int].1@,
            ),
            req.body is None,
    {
        let mut u = self.opts.to_cluster.clone();
        u.append("/");
        u.append(self.aliases[j].0.as_str());
        u.append("/_alias/");
        u.append(self.aliases[j].1.as_str());
        Request { method: Method::Put, url: u, body: None }
    }

    fn begin_alias(&mut self) -> (next: Option<Request>)
        ensures
            final(self).opts == old(self).opts,
            final(self).indices == old(self).indices,
            final(self).aliases == old(self).aliases,
            final(self).wf(),
            begins_alias(*final(self), next),
            next is Some <==> !(final(self).phase is Done),
            !(final(self).phase is Failed),
    {
        if self.aliases.len() > 0 {
            self.phase = Phase::Alias { j: 0 };
            Some(self.alias_request(0))
        } else {
            self.phase = Phase::Done;
            None
        }
    }

    fn begin_reindex(&mut self) -> (next: Option<Request>)
        ensures
            final(self).opts == old(self).opts,
            final(self).indices == old(self).indices,
            final(self).aliases == old(self).aliases,
            final(self).wf(),
            begins_reindex(*final(self), next),
            next is Some <==> !(final(self).phase is Done),
            !(final(self).phase is Failed),
    {
        if self.indices.len() > 0 {
            self.phase = Phase::Reindex { i: 0 };
            Some(self.reindex_request(0))
        } else {
            self.begin_alias()
        }
    }

    fn begin_schema(&mut self) -> (next: Option<Request>)
        ensures
            final(self).opts == old(self).opts,
            final(self).indices == old(self).indices,
            final(self).aliases == old(self).aliases,
            final(self).wf(),
            begins_schema(*final(self), next),
            next is Some <==> !(final(self).phase is Done),
            !(final(self).phase is Failed),
    {
        if self.indices.len() > 0 {
            self.phase = Phase::SchemaFetch { i: 0 };
            Some(self.fetch_request(0))
        } else {
            self.begin_reindex()
        }
    }

    fn advance_schema(&mut self, i: usize) -> (next: Option<Request>)
        requires
            i < old(self).indices@.len(),
        ensures
            final(self).opts == old(self).opts,
            final(self).indices == old(self).indices,
            final(self).aliases == old(self).aliases,
            final(self).wf(),
            advances_schema(*final(self), next, i as int),
            next is Some <==> !(final(self).phase is Done),
            !(final(self).phase is Failed),
    {
        if i < self.indices.len() - 1 {
            self.phase = Phase::SchemaFetch { i: i + 1 };
            Some(self.fetch_request(i + 1))
        } else {
            self.begin_reindex()
        }
    }

    fn advance_reindex(&mut self, i: usize) -> (next: Option<Request>)
        requires
            i < old(self).indices@.len(),
        ensures
            final(self).opts == old(self).opts,
            final(self).indices == old(self).indices,
            final(self).aliases == old(self).aliases,
            final(self).wf(),
            advances_reindex(*final(self), next, i as int),
            next is Some <==> !(final(self).phase is Done),
            !(final(self).phase is Failed),
    {
        if i < self.indices.len() - 1 {
            self.phase = Phase::Reindex { i: i + 1 };
            Some(self.reindex_request(i + 1))
        } else {
            self.begin_alias()
        }
    }

    fn advance_alias(&mut self, j: usize) -> (next: Option<Request>)
        requires
            j < old(self).aliases@.len(),
        ensures
            final(self).opts == old(self).opts,
            final(self).indices == old(self).indices,
            final(self).aliases == old(self).aliases,
            final(self).wf(),
            advances_alias(*final(self), next, j as int),
            next is Some <==> !(final(self).phase is Done),
            !(final(self).phase is Failed),
    {
        if j < self.aliases.len() - 1 {
            self.phase = Phase::Alias { j: j + 1 };
            Some(self.alias_request(j + 1))
        } else {
            self.phase = Phase::Done;
            None
        }
    }
}

fn error_record(op: &str, index: &String, detail: String) -> (l: LogRecord)
    ensures
        is_error_log(l, op@, index@),
        l matches LogRecord::Error { detail: d, .. } && d == detail,
{
    LogRecord::Error { operation: op.to_owned(), index: index.clone(), detail }
}

fn response_log_records(op: &str, index: &String, event: Event) -> (logs: Vec<LogRecord>)
    ensures
        response_logs(logs@, op@, index@, event),
{
    let mut logs: Vec<LogRecord> = Vec::new();
    match event {
        Event::Response { status, body, json: _ } => {
            logs.push(
                LogRecord::Info { operation: op.to_owned(), index: index.clone(), status },
            );
            if status != 200 {
                logs.push(error_record(op, index, body));
            }
        },
        Event::Transport => {
            logs.push(error_record(op, index, "no response".to_owned()));
        },
    }
    logs
}

impl Reindexer {
    /// Consumes the outcome of the outstanding request and decides the run's
    /// next move. Discovery failures abort the run; a failure at one index
    /// of a later phase is recorded and the run continues with the next
    /// index — it never prevents the remaining indices or phases.
    pub fn step(&mut self, event: Event) -> (r: StepOutcome)
        requires
            old(self).wf(),
            !(old(self).phase is Done),
            !(old(self).phase is Failed),
        ensures
            final(self).wf(),
            final(self).opts == old(self).opts,
            r.next is Some <==> !(final(self).phase is Done) && !(final(self).phase is Failed),
            r.next matches Some(req) ==> request_from_state(req, *final(self)),
            match old(self).phase {
                Phase::Discover => match event {
                    Event::Transport => failed(*final(self), r, MigrationError::Transport),
                    Event::Response { status, body, json } => {
                        if !ok_status(status) {
                            failed(*final(self), r, MigrationError::Transport)
                        } else {
                            match json {
                                None => failed(*final(self), r, MigrationError::Decode),
                                Some(j) => match spec_discovery(j) {
                                    None => failed(*final(self), r, MigrationError::Decode),
                                    Some(d) => {
                                        &&& final(self).indices@ == d.0
                                        &&& final(self).aliases@ == d.1
                                        &&& begins_schema(*final(self), r.next)
                                        &&& r.logs@.len() == 0
                                    },
                                },
                            }
                        }
                    },
                },
                Phase::SchemaFetch { i } => {
                    &&& final(self).indices == old(self).indices
                    &&& final(self).aliases == old(self).aliases
                    &&& match fetched_schema(event, old(self).indices@[i as int]@) {
                        Some(j) => {
                            &&& final(self).phase matches Phase::SchemaPut { i: pi } && pi == i
                            &&& r.next matches Some(req)
                            &&& req.method is Put
                            &&& req.url@ == dest_index_url(
                                old(self).opts,
                                old(self).indices@[i as int]@,
                            )
                            &&& req.body matches Some(p)
                            &&& is_schema_payload(p, j, old(self).indices@[i as int]@)
                            &&& r.logs@.len() == 0
                        },
                        None => {
                            &&& r.logs@.len() == 1
                            &&& is_error_log(
                                r.logs@[0],
                                "add_settings_mappings"@,
                                old(self).indices@[i as int]@,
                            )
                            &&& advances_schema(*final(self), r.next, i as int)
                        },
                    }
                },
                Phase::SchemaPut { i } => {
                    &&& final(self).indices == old(self).indices
                    &&& final(self).aliases == old(self).aliases
                    &&& response_logs(
                        r.logs@,
                        "add_settings_mappings"@,
                        old(self).indices@[i as int]@,
                        event,
                    )
                    &&& advances_schema(*final(self), r.next, i as int)
                },
                Phase::Reindex { i } => {
                    &&& final(self).indices == old(self).indices
                    &&& final(self).aliases == old(self).aliases
                    &&& response_logs(r.logs@, "reindex"@, old(self).indices@[i as int]@, event)
                    &&& advances_reindex(*final(self), r.next, i as int)
                },
                Phase::Alias { j } => {
                    &&& final(self).indices == old(self).indices
                    &&& final(self).aliases == old(self).aliases
                    &&& response_logs(
                        r.logs@,
                        "add_aliases"@,
                        old(self).aliases@[j as int].0@,
                        event,
                    )
                    &&& advances_alias(*final(self), r.next, j as int)
                },
                Phase::Done => true,
                Phase::Failed { .. } => true,
            },
    {
        match self.phase {
            Phase::Discover => {
                match event {
                    Event::Transport => {
                        self.phase = Phase::Failed { error: MigrationError::Transport };
                        StepOutcome { logs: Vec::new(), next: None }
                    },
                    Event::Response { status, body: _, json } => {
                        if status != 200 {
                            self.phase = Phase::Failed { error: MigrationError::Transport };
                            StepOutcome { logs: Vec::new(), next: None }
                        } else {
                            match json {
                                None => {
                                    self.phase = Phase::Failed {
                                        error: MigrationError::Decode,
                                    };
                                    StepOutcome { logs: Vec::new(), next: None }
                                },
                                Some(j) => match discover(j) {
                                    None => {
                                        self.phase = Phase::Failed {
                                            error: MigrationError::Decode,
                                        };
                                        StepOutcome { logs: Vec::new(), next: None }
                                    },
                                    Some((idx, al)) => {
                                        self.indices = idx;
                                        self.aliases = al;
                                        let next = self.begin_schema();
                                        StepOutcome { logs: Vec::new(), next }
                                    },
                                },
                            }
                        }
                    },
                }
            },
            Phase::SchemaFetch { i } => {
                let index_name = self.indices[i].clone();
                match event {
                    Event::Transport => {
                        let mut logs: Vec<LogRecord> = Vec::new();
                        logs.push(
                            error_record(
                                "add_settings_mappings",
                                &index_name,
                                "no response".to_owned(),
                            ),
                        );
                        let next = self.advance_schema(i);
                        StepOutcome { logs, next }
                    },
                    Event::Response { status, body, json } => {
                        if status != 200 {
                            let mut logs: Vec<LogRecord> = Vec::new();
                            logs.push(error_record("add_settings_mappings", &index_name, body));
                            let next = self.advance_schema(i);
                            StepOutcome { logs, next }
                        } else {
                            match json {
                                None => {
                                    let mut logs: Vec<LogRecord> = Vec::new();
                                    logs.push(
                                        error_record("add_settings_mappings", &index_name, body),
                                    );
                                    let next = self.advance_schema(i);
                                    StepOutcome { logs, next }
                                },
                                Some(j) => {
                                    match schema_payload(j, &index_name) {
                                        Some(p) => {
                                            let req = self.put_request(i, p);
                                            self.phase = Phase::SchemaPut { i };
                                            StepOutcome { logs: Vec::new(), next: Some(req) }
                                        },
                                        None => {
                                            let mut logs: Vec<LogRecord> = Vec::new();
                                            logs.push(
                                                error_record(
                                                    "add_settings_mappings",
                                                    &index_name,
                                                    body,
                                                ),
                                            );
                                            let next = self.advance_schema(i);
                                            StepOutcome { logs, next }
                                        },
                                    }
                                },
                            }
                        }
                    },
                }
            },
            Phase::SchemaPut { i } => {
                let index_name = self.indices[i].clone();
                let logs = response_log_records("add_settings_mappings", &index_name, event);
                let next = self.advance_schema(i);
                StepOutcome { logs, next }
            },
            Phase::Reindex { i } => {
                let index_name = self.indices[i].clone();
                let logs = response_log_records("reindex", &index_name, event);
                let next = self.advance_reindex(i);
                StepOutcome { logs, next }
            },
            Phase::Alias { j } => {
                let index_name = self.aliases[j].0.clone();
                let logs = response_log_records("add_aliases", &index_name, event);
                let next = self.advance_alias(j);
                StepOutcome { logs, next }
            },
            Phase::Done => StepOutcome { logs: Vec::new(), next: None },
            Phase::Failed { .. } => StepOutcome { logs: Vec::new(), next: None },
        }
    }
}

/// How a whole run ended.
#[derive(Debug, Clone, Copy, PartialEq, Eq, Structural)]
pub enum RunStatus {
    /// All four phases ran to the end.
    Completed,
    /// Discovery failed and nothing past its one request was issued.
    Failed(MigrationError),
    /// The supply of events ended while a request was still outstanding.
    Interrupted,
}

/// A completed run's trace: every request issued, in order, every record
/// emitted, and how the run ended.
#[derive(Debug)]
pub struct Run {
    pub requests: Vec<Request>,
    pub logs: Vec<LogRecord>,
    pub status: RunStatus,
}

/// Why Discovery rejects its event, if it does: no response or a non-success
/// status is a transport failure; a body that is not JSON of the expected
/// shape is a decode failure.
pub open spec fn discovery_rejects(e: Event) -> Option<MigrationError> {
    match e {
        Event::Transport => Some(MigrationError::Transport),
        Event::Response { status, body, json } => if !ok_status(status) {
            Some(MigrationError::Transport)
        } else {
            match json {
                None => Some(MigrationError::Decode),
                Some(j) => match spec_discovery(j) {
                    None => Some(MigrationError::Decode),
                    Some(d) => None,
                },
            }
        },
    }
}

/// The index set and alias map a successful Discovery event carries.
pub open spec fn discovered(e: Event) -> (Seq<String>, Seq<(String, String)>)
    recommends
        discovery_rejects(e) is None,
{
    match e {
        Event::Response { status, body, json } => match json {
            Some(j) => match spec_discovery(j) {
                Some(d) => d,
                None => (Seq::empty(), Seq::empty()),
            },
            None => (Seq::empty(), Seq::empty()),
        },
        Event::Transport => (Seq::empty(), Seq::empty()),
    }
}

/// Runs a whole migration against a transcript of events, the `k`-th event
/// answering the `k`-th request, and returns the trace.
///
/// The first request always queries the source's alias listing. If its event
/// is rejected, the run aborts with that error before issuing anything else
/// — phases two to four never see a single request. Otherwise no later
/// failure aborts the run, and every further request addresses a discovered
/// index or alias pair only.
#[verifier::loop_isolation(false)]
pub fn move_cluster(opts: Options, events: Vec<Event>) -> (r: Run)
    ensures
        r.requests@.len() >= 1,
        r.requests@[0].method is Get,
        r.requests@[0].url@ == discovery_url(opts),
        r.requests@[0].body is None,
        events@.len() == 0 ==> r.requests@.len() == 1 && r.status is Interrupted,
        events@.len() >= 1 ==> match discovery_rejects(events@[0]) {
            Some(err) => {
                &&& r.requests@.len() == 1
                &&& r.status == RunStatus::Failed(err)
                &&& r.logs@.len() == 0
            },
            None => {
                &&& !(r.status is Failed)
                &&& forall|k: int|
                    1 <= k < r.requests@.len() ==> request_targets(
                        #[trigger] r.requests@[k],
                        opts,
                        discovered(events@[0]).0,
                        discovered(events@[0]).1,
                    )
                &&& discovered(events@[0]).0.len() == 0 && discovered(events@[0]).1.len() == 0
                    ==> r.requests@.len() == 1 && r.status is Completed
                &&& discovered(events@[0]).0.len() > 0 ==> {
                    &&& r.requests@.len() >= 2
                    &&& r.requests@[1].method is Get
                    &&& r.requests@[1].url@ == source_index_url(
                        opts,
                        discovered(events@[0]).0[0]@,
                    )
                }
            },
        },
{
    let ghost gopts = opts;
    let mut m = Reindexer::new(opts);
    let mut requests: Vec<Request> = Vec::new();
    let mut logs: Vec<LogRecord> = Vec::new();
    requests.push(m.start_request());
    let mut events = events;
    let ghost gevents = events@;
    if events.len() == 0 {
        return Run { requests, logs, status: RunStatus::Interrupted };
    }
    let ev0 = events.remove(0);
    let out0 = m.step(ev0);
    let mut first_logs = out0.logs;
    logs.append(&mut first_logs);
    let rq = match out0.next {
        None => {
            let status = match m.phase {
                Phase::Done => RunStatus::Completed,
                Phase::Failed { error } => RunStatus::Failed(error),
                _ => RunStatus::Interrupted,
            };
            return Run { requests, logs, status };
        },
        Some(rq) => rq,
    };
    proof {
        assert(discovery_rejects(gevents[0]) is None);
    }
    let ghost d = discovered(gevents[0]);
    requests.push(rq);
    while events.len() > 0
        invariant
            m.wf(),
            m.opts == gopts,
            m.indices@ == d.0,
            m.aliases@ == d.1,
            !(m.phase is Done),
            !(m.phase is Failed),
            !(m.phase is Discover),
            requests@.len() >= 2,
            requests@[0].method is Get,
            requests@[0].url@ == discovery_url(gopts),
            requests@[0].body is None,
            d.0.len() > 0 || d.1.len() > 0,
            d.0.len() > 0 ==> requests@[1].method is Get && requests@[1].url@ == source_index_url(
                gopts,
                d.0[0]@,
            ),
            forall|k: int|
                1 <= k < requests@.len() ==> request_targets(
                    #[trigger] requests@[k],
                    gopts,
                    d.0,
                    d.1,
                ),
        decreases events@.len(),
    {
        let ev = events.remove(0);
        let out = m.step(ev);
        let mut step_logs = out.logs;
        logs.append(&mut step_logs);
        match out.next {
            Some(rq2) => {
                requests.push(rq2);
            },
            None => {
                let status = match m.phase {
                    Phase::Done => RunStatus::Completed,
                    Phase::Failed { error } => RunStatus::Failed(error),
                    _ => RunStatus::Interrupted,
                };
                return Run { requests, logs, status };
            },
        }
    }
    Run { requests, logs, status: RunStatus::Interrupted }
}

} // verus!
