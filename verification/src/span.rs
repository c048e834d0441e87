//! The span of a request: the record that the tracing middleware keeps while
//! the request is handled and hands to the collector afterwards.
//!
//! A span is started when the request arrives, tagged with the outcome when
//! the response is known, and closed. Closing consumes the open span and
//! gives a `ClosedSpan`, so one request has one span and that span is closed
//! once. Reading the clock and delivering the closed span are left to the
//! caller.

use crate::error::ServiceError;
use crate::router::{resolve, route_of};
use crate::service::{response_of, Request, RequestView, Response, ResponseView};
use crate::text::{decimal, to_decimal};
use vstd::prelude::*;
use vstd::string::*;

verus! {

/// The span of a request that is being handled.
#[derive(Debug)]
pub struct Span {
    /// The operation: the name of the handler that the request is routed to.
    pub name: String,
    pub method: String,
    pub path: String,
    /// The clock's reading when the request arrived.
    pub started_at: u64,
    /// The status of the response, once there is one.
    pub status: Option<u16>,
    /// The error that the response reports, if there is one and it reports
    /// one.
    pub error: Option<ServiceError>,
}

/// The span of a request that is done with: what is handed to the collector.
#[derive(Debug)]
pub struct ClosedSpan {
    pub name: String,
    pub method: String,
    pub path: String,
    pub started_at: u64,
    /// The clock's reading when the span was closed.
    pub ended_at: u64,
    /// The status of the response; `None` where the request was given up
    /// before there was one.
    pub status: Option<u16>,
    pub error: Option<ServiceError>,
}

/// One attribute of a span.
#[derive(Debug)]
pub struct Tag {
    pub key: String,
    pub value: String,
}

/// An open span, as mathematics.
pub struct SpanView {
    pub name: Seq<char>,
    pub method: Seq<char>,
    pub path: Seq<char>,
    pub started_at: u64,
    pub status: Option<u16>,
    pub error: Option<ServiceError>,
}

/// A closed span, as mathematics.
pub struct ClosedSpanView {
    pub name: Seq<char>,
    pub method: Seq<char>,
    pub path: Seq<char>,
    pub started_at: u64,
    pub ended_at: u64,
    pub status: Option<u16>,
    pub error: Option<ServiceError>,
}

impl View for Span {
    type V = SpanView;

    open spec fn view(&self) -> SpanView {
        SpanView {
            name: self.name@,
            method: self.method@,
            path: self.path@,
            started_at: self.started_at,
            status: self.status,
            error: self.error,
        }
    }
}

impl View for ClosedSpan {
    type V = ClosedSpanView;

    open spec fn view(&self) -> ClosedSpanView {
        ClosedSpanView {
            name: self.name@,
            method: self.method@,
            path: self.path@,
            started_at: self.started_at,
            ended_at: self.ended_at,
            status: self.status,
            error: self.error,
        }
    }
}

impl View for Tag {
    type V = (Seq<char>, Seq<char>);

    open spec fn view(&self) -> (Seq<char>, Seq<char>) {
        (self.key@, self.value@)
    }
}

/// The name of the operation that a method and path stand for: the name of
/// the route's handler, and `request` where no route matches.
pub open spec fn operation_name(method: Seq<char>, path: Seq<char>) -> Seq<char> {
    match route_of(method, path) {
        Some(route) => route.spec_name(),
        None => "request"@,
    }
}

/// The span of a request that has just arrived.
pub open spec fn started(request: RequestView, now: u64) -> SpanView {
    SpanView {
        name: operation_name(request.method, request.path),
        method: request.method,
        path: request.path,
        started_at: now,
        status: None,
        error: None,
    }
}

/// A span after the response has been recorded in it.
pub open spec fn recorded(span: SpanView, response: ResponseView) -> SpanView {
    SpanView { status: Some(response.status), error: response.error, ..span }
}

/// A span after it has been closed.
pub open spec fn closed(span: SpanView, now: u64) -> ClosedSpanView {
    ClosedSpanView {
        name: span.name,
        method: span.method,
        path: span.path,
        started_at: span.started_at,
        ended_at: now,
        status: span.status,
        error: span.error,
    }
}

/// The attributes of a closed span, in order: method and path, then the
/// status if there is one, then the kind of the error if there is one.
pub open spec fn tags_of(span: ClosedSpanView) -> Seq<(Seq<char>, Seq<char>)> {
    seq![("method"@, span.method), ("path"@, span.path)] + match span.status {
        Some(status) => seq![("status"@, decimal(status as nat))],
        None => seq![],
    } + match span.error {
        Some(error) => seq![("error"@, error.spec_name())],
        None => seq![],
    }
}

/// The time that a closed span covers; zero where the clock went backwards.
pub open spec fn latency_of(span: ClosedSpanView) -> nat {
    if span.ended_at >= span.started_at {
        (span.ended_at - span.started_at) as nat
    } else {
        0
    }
}

impl Span {
    /// Starts the span of a request that arrived at `now`: named after the
    /// route, tagged with method and path, without a status yet.
    pub fn start(request: &Request, now: u64) -> (span: Span)
        ensures
            span@ == started(request@, now),
    {
        let name = match resolve(request.method.as_str(), request.path.as_str()) {
            Ok(route) => route.name(),
            Err(_) => "request",
        };
        Span {
            name: String::from_str(name),
            method: request.method.clone(),
            path: request.path.clone(),
            started_at: now,
            status: None,
            error: None,
        }
    }

    /// Tags the span with the outcome of the request: the status of the
    /// response, and the kind of the error where the response reports one.
    /// Nothing else in the span changes.
    pub fn record(&mut self, response: &Response)
        ensures
            final(self)@ == recorded(old(self)@, response@),
    {
        self.status = Some(response.status);
        self.error = response.error;
    }

    /// Closes the span at `now`. The open span is used up, so a span cannot
    /// be closed twice. A span that was never tagged with an outcome is
    /// closed all the same, without a status.
    pub fn close(self, now: u64) -> (span: ClosedSpan)
        ensures
            span@ == closed(self@, now),
    {
        ClosedSpan {
            name: self.name,
            method: self.method,
            path: self.path,
            started_at: self.started_at,
            ended_at: now,
            status: self.status,
            error: self.error,
        }
    }
}

impl ClosedSpan {
    /// Whether the span is tagged as errored.
    pub fn is_errored(&self) -> (res: bool)
        ensures
            res == self@.error.is_some(),
    {
        self.error.is_some()
    }

    /// The time that the span covers; zero where the clock went backwards.
    pub fn latency(&self) -> (res: u64)
        ensures
            res == latency_of(self@),
    {
        if self.ended_at >= self.started_at {
            self.ended_at - self.started_at
        } else {
            0
        }
    }

    /// The attributes of the span as keys and values, for a collector that
    /// takes them so.
    pub fn tags(&self) -> (res: Vec<Tag>)
        ensures
            res@.map_values(|tag: Tag| tag@) == tags_of(self@),
    {
        let mut res: Vec<Tag> = Vec::new();
        res.push(Tag { key: String::from_str("method"), value: self.method.clone() });
        res.push(Tag { key: String::from_str("path"), value: self.path.clone() });
        if let Some(status) = self.status {
            res.push(Tag { key: String::from_str("status"), value: to_decimal(status as u64) });
        }
        if let Some(error) = self.error {
            res.push(Tag { key: String::from_str("error"), value: String::from_str(error.name()) });
        }
        assert(res@.map_values(|tag: Tag| tag@) =~= tags_of(self@));
        res
    }
}

/// Whatever the request and whatever the clock read: the span that is
/// started for a request, tagged with the response to that request and
/// closed carries the method and path of the request, the status of the
/// response, and the kind of the error exactly where the response reports
/// one.
pub proof fn lemma_span_carries_the_final_status(
    request: RequestView,
    started_at: u64,
    ended_at: u64,
)
    ensures
        ({
            let response = response_of(request);
            let span = closed(recorded(started(request, started_at), response), ended_at);
            &&& span.method == request.method
            &&& span.path == request.path
            &&& span.started_at == started_at
            &&& span.ended_at == ended_at
            &&& span.status == Some(response.status)
            &&& span.error == response.error
            &&& span.error is Some <==> response.status >= 400
            &&& span.error matches Some(error) ==> error.spec_status() == Some(response.status)
        }),
{
}

} // verus!
