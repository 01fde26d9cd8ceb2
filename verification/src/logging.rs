//! The logging layer: a verbosity-tiered observer of the HTTP path, an
//! independently enabled observer of the streaming path, and the
//! per-connection correlation context every line is tagged with.
//!
//! The library computes which events are emitted; the caller renders them.
//! The observer never buffers or mutates what it sees: the emitters take
//! the exchange by reference and hand back copies.

use vstd::prelude::*;

use crate::message::{
    copy_bytes, copy_headers, headers_model, Header, HeaderModel, HttpRequest, HttpResponse,
};

verus! {

/// How much of the HTTP exchange is logged. Each tier emits a strict
/// superset of the tiers below it; `lemma_verbosity_monotone` proves it.
#[derive(Clone, Copy, Debug, PartialEq, Eq, Structural)]
pub enum HttpLogLevel {
    /// Nothing is emitted.
    Off,
    /// The request line, the response status, and the response latency.
    Uri,
    /// Adds the full header sets of both directions.
    UriHeaders,
    /// Adds each body chunk as it is consumed.
    UriHeadersBody,
}

impl HttpLogLevel {
    /// Position of the tier in the ordering.
    pub open spec fn rank(self) -> int {
        match self {
            HttpLogLevel::Off => 0,
            HttpLogLevel::Uri => 1,
            HttpLogLevel::UriHeaders => 2,
            HttpLogLevel::UriHeadersBody => 3,
        }
    }
}

/// One diagnostic event of the HTTP path.
pub enum LogEvent {
    /// The request line: method and target.
    RequestUri { method: Vec<u8>, target: Vec<u8> },
    /// The request's full header set.
    RequestHeaders { headers: Vec<Header> },
    /// The response status.
    ResponseStatus { status: u16 },
    /// The response's full header set.
    ResponseHeaders { headers: Vec<Header> },
    /// How long the exchange took, in microseconds.
    ResponseLatency { micros: u64 },
    /// One body chunk, as consumed.
    BodyChunk { chunk: Vec<u8> },
}

/// Model of a diagnostic event.
#[verifier::ext_equal]
pub enum LogEventModel {
    RequestUri { method: Seq<u8>, target: Seq<u8> },
    RequestHeaders { headers: Seq<HeaderModel> },
    ResponseStatus { status: u16 },
    ResponseHeaders { headers: Seq<HeaderModel> },
    ResponseLatency { micros: u64 },
    BodyChunk { chunk: Seq<u8> },
}

impl View for LogEvent {
    type V = LogEventModel;

    open spec fn view(&self) -> LogEventModel {
        match self {
            LogEvent::RequestUri { method, target } => LogEventModel::RequestUri {
                method: method@,
                target: target@,
            },
            LogEvent::RequestHeaders { headers } => LogEventModel::RequestHeaders {
                headers: headers_model(headers@),
            },
            LogEvent::ResponseStatus { status } => LogEventModel::ResponseStatus {
                status: *status,
            },
            LogEvent::ResponseHeaders { headers } => LogEventModel::ResponseHeaders {
                headers: headers_model(headers@),
            },
            LogEvent::ResponseLatency { micros } => LogEventModel::ResponseLatency {
                micros: *micros,
            },
            LogEvent::BodyChunk { chunk } => LogEventModel::BodyChunk { chunk: chunk@ },
        }
    }
}

/// Model of an event list.
pub open spec fn events_model(evs: Seq<LogEvent>) -> Seq<LogEventModel> {
    evs.map_values(|e: LogEvent| e@)
}

/// What is emitted when a request arrives, by tier.
pub open spec fn on_request_events(
    level: HttpLogLevel,
    method: Seq<u8>,
    target: Seq<u8>,
    headers: Seq<HeaderModel>,
) -> Seq<LogEventModel> {
    match level {
        HttpLogLevel::Off => seq![],
        HttpLogLevel::Uri => seq![LogEventModel::RequestUri { method, target }],
        HttpLogLevel::UriHeaders | HttpLogLevel::UriHeadersBody => seq![
            LogEventModel::RequestUri { method, target },
            LogEventModel::RequestHeaders { headers },
        ],
    }
}

/// What is emitted when the response goes out, by tier. Latency is always
/// last, and absent only when the tier is silent.
pub open spec fn on_response_events(
    level: HttpLogLevel,
    status: u16,
    headers: Seq<HeaderModel>,
    latency_micros: u64,
) -> Seq<LogEventModel> {
    match level {
        HttpLogLevel::Off => seq![],
        HttpLogLevel::Uri => seq![
            LogEventModel::ResponseStatus { status },
            LogEventModel::ResponseLatency { micros: latency_micros },
        ],
        HttpLogLevel::UriHeaders | HttpLogLevel::UriHeadersBody => seq![
            LogEventModel::ResponseStatus { status },
            LogEventModel::ResponseHeaders { headers },
            LogEventModel::ResponseLatency { micros: latency_micros },
        ],
    }
}

/// What is emitted for one body chunk: its contents, only at the most
/// detailed tier.
pub open spec fn on_body_chunk_events(level: HttpLogLevel, chunk: Seq<u8>) -> Seq<LogEventModel> {
    if level == HttpLogLevel::UriHeadersBody {
        seq![LogEventModel::BodyChunk { chunk }]
    } else {
        seq![]
    }
}

/// Emits the request-side events of one exchange.
pub struct OnRequestLogger {
    pub log_level: HttpLogLevel,
}

impl OnRequestLogger {
    /// A request-side emitter at the given tier.
    pub fn new(log_level: HttpLogLevel) -> (r: Self)
        ensures
            r.log_level == log_level,
    {
        Self { log_level }
    }

    /// The events this request emits at the emitter's tier.
    pub fn on_request(&self, request: &HttpRequest) -> (evs: Vec<LogEvent>)
        ensures
            events_model(evs@) == on_request_events(
                self.log_level,
                request@.method,
                request@.target,
                request@.headers,
            ),
    {
        let mut evs: Vec<LogEvent> = Vec::new();
        match self.log_level {
            HttpLogLevel::Off => {},
            HttpLogLevel::Uri => {
                evs.push(
                    LogEvent::RequestUri {
                        method: copy_bytes(request.method.as_slice()),
                        target: copy_bytes(request.target.as_slice()),
                    },
                );
            },
            HttpLogLevel::UriHeaders | HttpLogLevel::UriHeadersBody => {
                evs.push(
                    LogEvent::RequestUri {
                        method: copy_bytes(request.method.as_slice()),
                        target: copy_bytes(request.target.as_slice()),
                    },
                );
                evs.push(LogEvent::RequestHeaders { headers: copy_headers(&request.headers) });
            },
        }
        proof {
            assert(events_model(evs@) =~~= on_request_events(
                self.log_level,
                request@.method,
                request@.target,
                request@.headers,
            ));
        }
        evs
    }
}

/// Emits the response-side events of one exchange.
pub struct OnResponseLogger {
    pub log_level: HttpLogLevel,
}

impl OnResponseLogger {
    /// A response-side emitter at the given tier.
    pub fn new(log_level: HttpLogLevel) -> (r: Self)
        ensures
            r.log_level == log_level,
    {
        Self { log_level }
    }

    /// The events this response emits at the emitter's tier.
    pub fn on_response(&self, response: &HttpResponse, latency_micros: u64) -> (evs: Vec<
        LogEvent,
    >)
        ensures
            events_model(evs@) == on_response_events(
                self.log_level,
                response@.status,
                response@.headers,
                latency_micros,
            ),
    {
        let mut evs: Vec<LogEvent> = Vec::new();
        match self.log_level {
            HttpLogLevel::Off => {},
            HttpLogLevel::Uri => {
                evs.push(LogEvent::ResponseStatus { status: response.status });
                evs.push(LogEvent::ResponseLatency { micros: latency_micros });
            },
            HttpLogLevel::UriHeaders | HttpLogLevel::UriHeadersBody => {
                evs.push(LogEvent::ResponseStatus { status: response.status });
                evs.push(LogEvent::ResponseHeaders { headers: copy_headers(&response.headers) });
                evs.push(LogEvent::ResponseLatency { micros: latency_micros });
            },
        }
        proof {
            assert(events_model(evs@) =~~= on_response_events(
                self.log_level,
                response@.status,
                response@.headers,
                latency_micros,
            ));
        }
        evs
    }
}

/// Emits one event per body chunk, at the most detailed tier only.
pub struct BodyLogger {
    pub log_level: HttpLogLevel,
}

impl BodyLogger {
    /// A body-chunk emitter at the given tier.
    pub fn new(log_level: HttpLogLevel) -> (r: Self)
        ensures
            r.log_level == log_level,
    {
        Self { log_level }
    }

    /// The events this chunk emits at the emitter's tier.
    pub fn on_body_chunk(&self, chunk: &[u8]) -> (evs: Vec<LogEvent>)
        ensures
            events_model(evs@) == on_body_chunk_events(self.log_level, chunk@),
    {
        let mut evs: Vec<LogEvent> = Vec::new();
        match self.log_level {
            HttpLogLevel::UriHeadersBody => {
                evs.push(LogEvent::BodyChunk { chunk: copy_bytes(chunk) });
            },
            HttpLogLevel::Off | HttpLogLevel::Uri | HttpLogLevel::UriHeaders => {},
        }
        proof {
            assert(events_model(evs@) =~~= on_body_chunk_events(self.log_level, chunk@));
        }
        evs
    }
}

/// Everything one exchange emits, in order: the request-side events, one
/// event per body chunk consumed, then the response-side events.
pub open spec fn http_exchange_events(
    level: HttpLogLevel,
    method: Seq<u8>,
    target: Seq<u8>,
    req_headers: Seq<HeaderModel>,
    status: u16,
    resp_headers: Seq<HeaderModel>,
    latency_micros: u64,
    chunks: Seq<Seq<u8>>,
) -> Seq<LogEventModel> {
    on_request_events(level, method, target, req_headers) + chunk_list_events(level, chunks)
        + on_response_events(level, status, resp_headers, latency_micros)
}

/// The chunk events of a whole body, in consumption order.
pub open spec fn chunk_list_events(level: HttpLogLevel, chunks: Seq<Seq<u8>>) -> Seq<
    LogEventModel,
> {
    if level == HttpLogLevel::UriHeadersBody {
        chunks.map_values(|c: Seq<u8>| LogEventModel::BodyChunk { chunk: c })
    } else {
        seq![]
    }
}

/// Whether `e` belongs to the event set of one exchange at `level`: the
/// tier decides by rank alone which kinds of event appear.
pub open spec fn event_emitted(
    level: HttpLogLevel,
    method: Seq<u8>,
    target: Seq<u8>,
    req_headers: Seq<HeaderModel>,
    status: u16,
    resp_headers: Seq<HeaderModel>,
    latency_micros: u64,
    chunks: Seq<Seq<u8>>,
    e: LogEventModel,
) -> bool {
    ||| (level.rank() >= 1 && (e == LogEventModel::RequestUri { method, target } || e
        == LogEventModel::ResponseStatus { status } || e == LogEventModel::ResponseLatency {
        micros: latency_micros,
    }))
    ||| (level.rank() >= 2 && (e == LogEventModel::RequestHeaders { headers: req_headers } || e
        == LogEventModel::ResponseHeaders { headers: resp_headers }))
    ||| (level.rank() >= 3 && exists|i: int|
        0 <= i < chunks.len() && e == LogEventModel::BodyChunk { chunk: chunks[i] })
}

/// The event list of one exchange contains exactly the events that its
/// tier's rank allows.
pub proof fn lemma_event_set(
    level: HttpLogLevel,
    method: Seq<u8>,
    target: Seq<u8>,
    req_headers: Seq<HeaderModel>,
    status: u16,
    resp_headers: Seq<HeaderModel>,
    latency_micros: u64,
    chunks: Seq<Seq<u8>>,
)
    ensures
        forall|e: LogEventModel|
            http_exchange_events(
                level,
                method,
                target,
                req_headers,
                status,
                resp_headers,
                latency_micros,
                chunks,
            ).contains(e) <==> event_emitted(
                level,
                method,
                target,
                req_headers,
                status,
                resp_headers,
                latency_micros,
                chunks,
                e,
            ),
{
    let evs = http_exchange_events(
        level,
        method,
        target,
        req_headers,
        status,
        resp_headers,
        latency_micros,
        chunks,
    );
    let ru = LogEventModel::RequestUri { method, target };
    let rh = LogEventModel::RequestHeaders { headers: req_headers };
    let st = LogEventModel::ResponseStatus { status };
    let sh = LogEventModel::ResponseHeaders { headers: resp_headers };
    let la = LogEventModel::ResponseLatency { micros: latency_micros };
    let cs = chunks.map_values(|c: Seq<u8>| LogEventModel::BodyChunk { chunk: c });
    assert forall|e: LogEventModel|
        evs.contains(e) <==> event_emitted(
            level,
            method,
            target,
            req_headers,
            status,
            resp_headers,
            latency_micros,
            chunks,
            e,
        ) by {
        match level {
            HttpLogLevel::Off => {
                assert(evs =~= Seq::<LogEventModel>::empty());
            },
            HttpLogLevel::Uri => {
                assert(evs =~= seq![ru, st, la]);
                if e == ru || e == st || e == la {
                    assert(evs[0] == ru && evs[1] == st && evs[2] == la);
                    assert(evs.contains(e));
                }
            },
            HttpLogLevel::UriHeaders => {
                assert(evs =~= seq![ru, rh, st, sh, la]);
                if e == ru || e == rh || e == st || e == sh || e == la {
                    assert(evs[0] == ru && evs[1] == rh && evs[2] == st && evs[3] == sh && evs[4]
                        == la);
                    assert(evs.contains(e));
                }
            },
            HttpLogLevel::UriHeadersBody => {
                assert(evs =~= seq![ru, rh] + cs + seq![st, sh, la]);
                let n = chunks.len() as int;
                assert(evs.len() == n + 5);
                assert(evs[0] == ru && evs[1] == rh);
                assert(evs[n + 2] == st && evs[n + 3] == sh && evs[n + 4] == la);
                assert(forall|i: int|
                    0 <= i < n ==> evs[i + 2] == LogEventModel::BodyChunk { chunk: chunks[i] });
                if evs.contains(e) {
                    let j = choose|j: int| 0 <= j < evs.len() && evs[j] == e;
                    if 2 <= j < n + 2 {
                        assert(e == LogEventModel::BodyChunk { chunk: chunks[j - 2] });
                    }
                }
                if exists|i: int|
                    0 <= i < chunks.len() && e == (LogEventModel::BodyChunk {
                        chunk: chunks[i],
                    }) {
                    let i = choose|i: int|
                        0 <= i < chunks.len() && e == (LogEventModel::BodyChunk {
                            chunk: chunks[i],
                        });
                    assert(evs[i + 2] == e);
                    assert(evs.contains(e));
                }
                if e == ru || e == rh || e == st || e == sh || e == la {
                    assert(evs.contains(e));
                }
            },
        }
    }
}

/// Verbosity monotonicity: for one exchange, every event a tier emits is
/// also emitted by every higher tier, so the event sets are ordered
/// `UriHeadersBody` ⊇ `UriHeaders` ⊇ `Uri` ⊇ `Off`.
pub proof fn lemma_verbosity_monotone(
    lo: HttpLogLevel,
    hi: HttpLogLevel,
    method: Seq<u8>,
    target: Seq<u8>,
    req_headers: Seq<HeaderModel>,
    status: u16,
    resp_headers: Seq<HeaderModel>,
    latency_micros: u64,
    chunks: Seq<Seq<u8>>,
)
    requires
        lo.rank() <= hi.rank(),
    ensures
        forall|e: LogEventModel|
            http_exchange_events(
                lo,
                method,
                target,
                req_headers,
                status,
                resp_headers,
                latency_micros,
                chunks,
            ).contains(e) ==> http_exchange_events(
                hi,
                method,
                target,
                req_headers,
                status,
                resp_headers,
                latency_micros,
                chunks,
            ).contains(e),
{
    lemma_event_set(lo, method, target, req_headers, status, resp_headers, latency_micros, chunks);
    lemma_event_set(hi, method, target, req_headers, status, resp_headers, latency_micros, chunks);
    assert forall|e: LogEventModel|
        http_exchange_events(
            lo,
            method,
            target,
            req_headers,
            status,
            resp_headers,
            latency_micros,
            chunks,
        ).contains(e) implies http_exchange_events(
        hi,
        method,
        target,
        req_headers,
        status,
        resp_headers,
        latency_micros,
        chunks,
    ).contains(e) by {
        assert(event_emitted(
            lo,
            method,
            target,
            req_headers,
            status,
            resp_headers,
            latency_micros,
            chunks,
            e,
        ));
        assert(event_emitted(
            hi,
            method,
            target,
            req_headers,
            status,
            resp_headers,
            latency_micros,
            chunks,
            e,
        ));
    }
}


/// Per-connection identity: every log line of a connection is tagged with
/// it, so interleaved connections' lines can be told apart. Immutable for
/// the connection's lifetime and never shared across connections.
pub struct ConnectionContext {
    /// The client's address, rendered as bytes by the caller.
    pub client_addr: Vec<u8>,
    /// The connection's number, increasing monotonically per acceptor.
    pub id: u64,
    /// When the connection was accepted, in microseconds, caller-supplied.
    pub created_micros: u64,
}

/// Model of a connection context.
#[verifier::ext_equal]
pub struct ContextModel {
    pub client_addr: Seq<u8>,
    pub id: u64,
    pub created_micros: u64,
}

impl View for ConnectionContext {
    type V = ContextModel;

    open spec fn view(&self) -> ContextModel {
        ContextModel {
            client_addr: self.client_addr@,
            id: self.id,
            created_micros: self.created_micros,
        }
    }
}

impl ConnectionContext {
    /// Copies the context, model for model.
    pub fn duplicate(&self) -> (r: Self)
        ensures
            r@ == self@,
    {
        let r = ConnectionContext {
            client_addr: copy_bytes(self.client_addr.as_slice()),
            id: self.id,
            created_micros: self.created_micros,
        };
        proof {
            assert(r@ =~= self@);
        }
        r
    }
}

/// Hands out one fresh context per accepted connection, before any handler
/// runs, with ids increasing by one.
pub struct ContextFactory {
    /// The id the next connection will get.
    pub next_id: u64,
}

impl ContextFactory {
    /// A factory whose first connection gets id 0.
    pub fn new() -> (r: Self)
        ensures
            r.next_id == 0,
    {
        Self { next_id: 0 }
    }

    /// Makes the context for one accepted connection.
    pub fn make(&mut self, client_addr: Vec<u8>, created_micros: u64) -> (ctx: ConnectionContext)
        requires
            old(self).next_id < u64::MAX,
        ensures
            final(self).next_id == old(self).next_id + 1,
            ctx@.id == old(self).next_id,
            ctx@.client_addr == client_addr@,
            ctx@.created_micros == created_micros,
    {
        let id = self.next_id;
        self.next_id = self.next_id + 1;
        ConnectionContext { client_addr, id, created_micros }
    }
}

/// One diagnostic event of the streaming path.
pub enum WsLogKind {
    /// The session opened: emitted exactly once, first.
    Established,
    /// One echoed frame's payload.
    FramePayload { payload: Vec<u8> },
    /// One frame's round trip, in microseconds.
    FrameDuration { micros: u64 },
    /// The session closed: emitted exactly once, last.
    Closed,
}

/// Model of a streaming-side event kind.
#[verifier::ext_equal]
pub enum WsLogKindModel {
    Established,
    FramePayload { payload: Seq<u8> },
    FrameDuration { micros: u64 },
    Closed,
}

impl View for WsLogKind {
    type V = WsLogKindModel;

    open spec fn view(&self) -> WsLogKindModel {
        match self {
            WsLogKind::Established => WsLogKindModel::Established,
            WsLogKind::FramePayload { payload } => WsLogKindModel::FramePayload {
                payload: payload@,
            },
            WsLogKind::FrameDuration { micros } => WsLogKindModel::FrameDuration {
                micros: *micros,
            },
            WsLogKind::Closed => WsLogKindModel::Closed,
        }
    }
}

/// One streaming-side log line, tagged with its connection's context.
pub struct WsLogEvent {
    pub ctx: ConnectionContext,
    pub kind: WsLogKind,
}

/// Model of a streaming-side log line.
#[verifier::ext_equal]
pub struct WsLogEventModel {
    pub ctx: ContextModel,
    pub kind: WsLogKindModel,
}

impl View for WsLogEvent {
    type V = WsLogEventModel;

    open spec fn view(&self) -> WsLogEventModel {
        WsLogEventModel { ctx: self.ctx@, kind: self.kind@ }
    }
}

/// Model of a streaming-side event list.
pub open spec fn ws_events_model(evs: Seq<WsLogEvent>) -> Seq<WsLogEventModel> {
    evs.map_values(|e: WsLogEvent| e@)
}

/// The event `ctx` emits for `kind`.
pub open spec fn ws_event(ctx: ContextModel, kind: WsLogKindModel) -> WsLogEventModel {
    WsLogEventModel { ctx, kind }
}

/// The streaming-side observer: enabled or silent per connection, and
/// bound to that connection's context.
pub struct WsLogger {
    pub enabled: bool,
    pub ctx: ConnectionContext,
}

impl WsLogger {
    /// A streaming-side observer for one connection.
    pub fn new(enabled: bool, ctx: ConnectionContext) -> (r: Self)
        ensures
            r.enabled == enabled,
            r.ctx@ == ctx@,
    {
        Self { enabled, ctx }
    }

    /// What the observer emits for `kind`: one tagged event, or nothing
    /// when it is silent.
    pub open spec fn spec_emit(self, kind: WsLogKindModel) -> Seq<WsLogEventModel> {
        if self.enabled {
            seq![ws_event(self.ctx@, kind)]
        } else {
            seq![]
        }
    }

    /// The established event: the session's log scope opens.
    pub fn log_connection_established(&self) -> (evs: Vec<WsLogEvent>)
        ensures
            ws_events_model(evs@) == self.spec_emit(WsLogKindModel::Established),
    {
        self.emit(WsLogKind::Established)
    }

    /// One echoed frame's payload.
    pub fn log_frame(&self, payload: &[u8]) -> (evs: Vec<WsLogEvent>)
        ensures
            ws_events_model(evs@) == self.spec_emit(
                WsLogKindModel::FramePayload { payload: payload@ },
            ),
    {
        self.emit(WsLogKind::FramePayload { payload: copy_bytes(payload) })
    }

    /// One frame's round-trip duration, measured by the caller.
    pub fn log_duration(&self, micros: u64) -> (evs: Vec<WsLogEvent>)
        ensures
            ws_events_model(evs@) == self.spec_emit(WsLogKindModel::FrameDuration { micros }),
    {
        self.emit(WsLogKind::FrameDuration { micros })
    }

    /// The closed event: the session's log scope closes.
    pub fn log_connection_closed(&self) -> (evs: Vec<WsLogEvent>)
        ensures
            ws_events_model(evs@) == self.spec_emit(WsLogKindModel::Closed),
    {
        self.emit(WsLogKind::Closed)
    }

    /// Emits `kind` once, tagged, when enabled.
    fn emit(&self, kind: WsLogKind) -> (evs: Vec<WsLogEvent>)
        ensures
            ws_events_model(evs@) == self.spec_emit(kind@),
    {
        let mut evs: Vec<WsLogEvent> = Vec::new();
        if self.enabled {
            evs.push(WsLogEvent { ctx: self.ctx.duplicate(), kind });
        }
        proof {
            assert(ws_events_model(evs@) =~~= self.spec_emit(kind@));
        }
        evs
    }
}

} // verus!
