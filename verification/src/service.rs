//! The per-connection service: the dispatcher wrapped in the logging
//! layer. One constructor takes the whole logging configuration — the
//! HTTP-side verbosity tier and the streaming-side enable flag — together
//! with the connection's correlation context, so the wiring is chosen at
//! startup rather than at build time.

use vstd::prelude::*;

use crate::dispatch::{process_request, spec_process, DispatchModel, DispatchOutcome};
use crate::logging::{
    events_model, on_request_events, on_response_events, BodyLogger, ConnectionContext,
    HttpLogLevel, LogEvent, OnRequestLogger, OnResponseLogger, WsLogger,
};
use crate::message::{copy_bytes, HttpRequest, HttpResponseModel};

verus! {

/// The correlation scope one connection's log lines share: the client's
/// address and the connection id.
pub struct Span {
    pub client_addr: Vec<u8>,
    pub id: u64,
}

/// Opens the correlation scope for each request of a connection.
pub struct SpanMaker {
    pub client_addr: Vec<u8>,
    pub id: u64,
}

impl SpanMaker {
    /// A span maker for one connection.
    pub fn new(client_addr: Vec<u8>, id: u64) -> (r: Self)
        ensures
            r.client_addr@ == client_addr@,
            r.id == id,
    {
        Self { client_addr, id }
    }

    /// The scope every log line of this connection is tagged with.
    pub fn make_span(&self) -> (r: Span)
        ensures
            r.client_addr@ == self.client_addr@,
            r.id == self.id,
    {
        Span { client_addr: copy_bytes(self.client_addr.as_slice()), id: self.id }
    }
}

/// The dispatcher bound to one connection's streaming-side observer.
pub struct EchoService {
    pub ws_logger: WsLogger,
}

impl EchoService {
    /// A service for one connection: the streaming observer is enabled or
    /// silent per connection and tagged with the connection's context.
    pub fn new(ws_logging_enabled: bool, ctx: ConnectionContext) -> (r: Self)
        ensures
            r.ws_logger.enabled == ws_logging_enabled,
            r.ws_logger.ctx@ == ctx@,
    {
        Self { ws_logger: WsLogger::new(ws_logging_enabled, ctx) }
    }

    /// Serves one request: exactly what the dispatcher decides.
    pub fn call(&self, req: HttpRequest) -> (out: DispatchOutcome)
        ensures
            out@ == spec_process(req@),
    {
        process_request(req)
    }
}

/// The response inside a dispatch outcome, whichever branch was taken.
pub open spec fn spec_response_of(out: DispatchModel) -> HttpResponseModel {
    match out {
        DispatchModel::Plain(r) => r,
        DispatchModel::Upgraded(r) => r,
        DispatchModel::Rejected(r) => r,
    }
}

/// One connection's whole stack: the dispatcher with the HTTP-side
/// emitters and the correlation scope around it.
pub struct RelayService {
    pub span_maker: SpanMaker,
    pub on_request: OnRequestLogger,
    pub on_response: OnResponseLogger,
    pub body_logger: BodyLogger,
    pub echo_service: EchoService,
}

/// Builds the service for one connection: the dispatcher, wrapped by the
/// logging layer at `http_log_level`, with the streaming-side observer
/// enabled per `ws_logging_enabled`, all tagged with `ctx`.
pub fn make_service(
    http_log_level: HttpLogLevel,
    ws_logging_enabled: bool,
    ctx: ConnectionContext,
) -> (r: RelayService)
    ensures
        r.span_maker.client_addr@ == ctx@.client_addr,
        r.span_maker.id == ctx@.id,
        r.on_request.log_level == http_log_level,
        r.on_response.log_level == http_log_level,
        r.body_logger.log_level == http_log_level,
        r.echo_service.ws_logger.enabled == ws_logging_enabled,
        r.echo_service.ws_logger.ctx@ == ctx@,
{
    let span_maker = SpanMaker::new(copy_bytes(ctx.client_addr.as_slice()), ctx.id);
    RelayService {
        span_maker,
        on_request: OnRequestLogger::new(http_log_level),
        on_response: OnResponseLogger::new(http_log_level),
        body_logger: BodyLogger::new(http_log_level),
        echo_service: EchoService::new(ws_logging_enabled, ctx),
    }
}

impl RelayService {
    /// Serves one request under the logging layer. The layer observes
    /// only: the outcome is exactly the dispatcher's, and the events are
    /// exactly what the configured tier emits for this exchange —
    /// request-side events first, response-side events (status, headers,
    /// latency as the caller measured it) after. Body-chunk events are
    /// emitted by `body_logger` as the caller streams the body.
    pub fn handle(&self, req: HttpRequest, latency_micros: u64) -> (r: (
        DispatchOutcome,
        Vec<LogEvent>,
    ))
        ensures
            r.0@ == spec_process(req@),
            events_model(r.1@) == on_request_events(
                self.on_request.log_level,
                req@.method,
                req@.target,
                req@.headers,
            ) + on_response_events(
                self.on_response.log_level,
                spec_response_of(spec_process(req@)).status,
                spec_response_of(spec_process(req@)).headers,
                latency_micros,
            ),
    {
        let mut evs = self.on_request.on_request(&req);
        let out = self.echo_service.call(req);
        let resp = match &out {
            DispatchOutcome::Plain(r) => r,
            DispatchOutcome::Upgraded(r) => r,
            DispatchOutcome::Rejected(r) => r,
        };
        let mut resp_evs = self.on_response.on_response(resp, latency_micros);
        evs.append(&mut resp_evs);
        proof {
            assert(events_model(evs@) =~~= on_request_events(
                self.on_request.log_level,
                req@.method,
                req@.target,
                req@.headers,
            ) + on_response_events(
                self.on_response.log_level,
                spec_response_of(spec_process(req@)).status,
                spec_response_of(spec_process(req@)).headers,
                latency_micros,
            ));
        }
        (out, evs)
    }
}

} // verus!
