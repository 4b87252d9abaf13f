//! Decisions of the client runtime: how the data-plane connection is
//! authenticated, where an incoming frame is routed, and how the builder's
//! settings are resolved.
//!
//! The runtime itself (listening, reading, spawning handlers, writing) lives
//! in the application around this library and asks these functions what to
//! do.

use vstd::prelude::*;
use vstd::std_specs::convert::IntoSpec;

use std::collections::HashMap;
use std::time::Duration;

use crate::control::init::ResponseType;
use crate::error::ProcwireError;
use crate::handler::registry::HandlerRegistry;
use crate::writer::WriterConfig;
use crate::protocol::frame::{payload_of, Frame};
use crate::protocol::frame_buffer::{frames_model, split_frames, FrameBuffer, FrameValue};
use crate::protocol::flags;
use crate::protocol::wire_format::{
    Header, ABORT_METHOD_ID, ABSOLUTE_MAX_PAYLOAD_SIZE, AUTH_METHOD_ID, DEFAULT_MAX_PAYLOAD_SIZE,
};

verus! {

/// Default maximum concurrent handlers.
pub const DEFAULT_MAX_CONCURRENT_HANDLERS: usize = 256;

proof fn lemma_or_xor_zero(d: u8, x: u8, y: u8)
    ensures
        ((d | (x ^ y)) == 0) == (d == 0 && x == y),
{
    assert(((d | (x ^ y)) == 0) == (d == 0 && x == y)) by (bit_vector);
}

/// Constant-time byte-slice equality.
///
/// Returns `false` immediately on a length mismatch (the length is not
/// secret); otherwise folds every byte pair into an accumulator without
/// short-circuiting, so the time taken does not depend on where the slices
/// differ.
pub fn constant_time_eq(a: &[u8], b: &[u8]) -> (r: bool)
    ensures
        r == (a@ == b@),
{
    if a.len() != b.len() {
        return false;
    }
    let mut diff: u8 = 0;
    let mut i: usize = 0;
    assert(a@.take(0) =~= b@.take(0));
    while i < a.len()
        invariant
            i <= a@.len(),
            a@.len() == b@.len(),
            (diff == 0) == (a@.take(i as int) == b@.take(i as int)),
        decreases a@.len() - i,
    {
        let x = a[i];
        let y = b[i];
        proof {
            lemma_or_xor_zero(diff, x, y);
            assert(a@.take(i as int + 1) == a@.take(i as int).push(x));
            assert(b@.take(i as int + 1) == b@.take(i as int).push(y));
            if a@.take(i as int + 1) == b@.take(i as int + 1) {
                assert(a@.take(i as int + 1).drop_last() == a@.take(i as int));
                assert(b@.take(i as int + 1).drop_last() == b@.take(i as int));
                assert(a@.take(i as int + 1)[i as int] == x);
                assert(b@.take(i as int + 1)[i as int] == y);
            }
        }
        diff = diff | (x ^ y);
        i = i + 1;
    }
    assert(a@.take(i as int) =~= a@);
    assert(b@.take(i as int) =~= b@);
    diff == 0
}

/// The incoming payload limit a builder setting resolves to: the requested
/// size, clamped to `ABSOLUTE_MAX_PAYLOAD_SIZE`.
pub fn clamp_max_payload_size(size: u32) -> (r: u32)
    ensures
        r == (if size <= ABSOLUTE_MAX_PAYLOAD_SIZE {
            size
        } else {
            ABSOLUTE_MAX_PAYLOAD_SIZE
        }),
{
    if size <= ABSOLUTE_MAX_PAYLOAD_SIZE {
        size
    } else {
        ABSOLUTE_MAX_PAYLOAD_SIZE
    }
}

/// The data-plane token in force: an explicit builder token wins over the
/// value of `PROCWIRE_TOKEN`; an empty token disables authentication.
pub fn resolve_auth_token(explicit: Option<String>, from_env: Option<String>) -> (r: Option<
    String,
>)
    ensures
        ({
            let chosen = if explicit is Some {
                explicit
            } else {
                from_env
            };
            r == (if chosen matches Some(t) && t@.len() > 0 {
                chosen
            } else {
                None::<String>
            })
        }),
{
    let chosen = match explicit {
        Some(t) => Some(t),
        None => from_env,
    };
    match chosen {
        Some(t) => {
            if t.as_str().is_empty() {
                None
            } else {
                Some(t)
            }
        },
        None => None,
    }
}

/// Whether a parsed frame is an AUTH frame carrying exactly `token`.
pub open spec fn is_matching_auth(f: FrameValue, token: Seq<u8>) -> bool {
    f.0.method_id == AUTH_METHOD_ID && f.1 == token
}

/// What the authentication handshake does after one read.
pub enum AuthStep {
    /// No complete frame yet: read more.
    NeedMore,
    /// The first frame authenticated the connection; the frames that arrived
    /// after it must be dispatched normally.
    Adopt(Vec<Frame>),
    /// The connection must be dropped.
    Reject,
}

/// Whether `r` is what the handshake does for the stream `stream` (all bytes
/// read so far) and the expected token.
pub open spec fn auth_step_outcome(stream: Seq<u8>, limit: u32, token: Seq<u8>, r: AuthStep) -> bool {
    let sp = split_frames(stream, limit);
    if sp.2 {
        r is Reject
    } else if sp.0.len() == 0 {
        r is NeedMore
    } else if is_matching_auth(sp.0[0], token) {
        r matches AuthStep::Adopt(v) && frames_model(v@) == sp.0.drop_first()
    } else {
        r is Reject
    }
}

/// One step of the data-plane authentication handshake: feed the bytes just
/// read into the connection's frame buffer and decide.
///
/// The connection is adopted only if its first complete frame is an AUTH
/// frame whose payload equals `token` (compared in constant time). A framing
/// error, or any other first frame, rejects it. Whatever follows the AUTH
/// frame is returned for normal dispatch; incomplete bytes stay buffered.
pub fn auth_step(frame_buffer: &mut FrameBuffer, data: &[u8], token: &[u8]) -> (r: AuthStep)
    requires
        old(frame_buffer).wf(),
        old(frame_buffer).buffered().len() + data@.len() <= isize::MAX,
    ensures
        final(frame_buffer).wf(),
        final(frame_buffer).max_payload() == old(frame_buffer).max_payload(),
        final(frame_buffer).pending() == split_frames(
            old(frame_buffer).pending() + data@,
            old(frame_buffer).limit(),
        ).1,
        auth_step_outcome(
            old(frame_buffer).pending() + data@,
            old(frame_buffer).limit(),
            token@,
            r,
        ),
{
    let pushed = frame_buffer.push(data);
    let mut frames = match pushed {
        Ok(frames) => frames,
        Err(_) => {
            return AuthStep::Reject;
        },
    };
    if frames.len() == 0 {
        return AuthStep::NeedMore;
    }
    let ghost all = frames@;
    let first = frames.remove(0);
    assert(frames_model(all)[0] == (first.header, payload_of(first)));
    let matches = first.header.method_id == AUTH_METHOD_ID && constant_time_eq(
        first.payload(),
        token,
    );
    if matches {
        assert(frames_model(frames@) =~= frames_model(all).drop_first());
        AuthStep::Adopt(frames)
    } else {
        AuthStep::Reject
    }
}

/// Reading the handshake in pieces decides as reading it whole: as long as
/// a step answers `NeedMore` (no complete frame and no framing error), the
/// buffer keeps everything read so far, so the next step decides on the
/// whole stream read up to then.
pub proof fn law_auth_in_pieces(read_so_far: Seq<u8>, limit: u32, token: Seq<u8>, r: AuthStep)
    requires
        auth_step_outcome(read_so_far, limit, token, r),
        r is NeedMore,
    ensures
        split_frames(read_so_far, limit).1 == read_so_far,
{
}

/// Where the read loop sends an incoming frame.
#[derive(Debug, Clone, Copy, PartialEq, Eq, Structural)]
pub enum FrameRoute {
    /// An ABORT signal: cancel the active request with this ID.
    Abort { request_id: u32 },
    /// A stray AUTH frame on an adopted connection: ignore it.
    StrayAuth,
    /// A response frame: the client only serves requests, ignore it.
    UnexpectedResponse,
    /// A request or event for a registered handler.
    Request,
}

/// The route of a frame with header `h`, checked in order: abort, AUTH,
/// response, request.
pub open spec fn spec_route(h: Header) -> FrameRoute {
    if h.method_id == ABORT_METHOD_ID {
        FrameRoute::Abort { request_id: h.request_id }
    } else if h.method_id == AUTH_METHOD_ID {
        FrameRoute::StrayAuth
    } else if flags::spec_has_flag(h.flags, flags::IS_RESPONSE) {
        FrameRoute::UnexpectedResponse
    } else {
        FrameRoute::Request
    }
}

/// Law (routing): ABORT and AUTH frames are recognised by their method ID
/// alone; any other frame is skipped as an unexpected response exactly when
/// its IS_RESPONSE bit (0x02) is set, whatever its direction bit, and is
/// dispatched as a request exactly when that bit is clear.
pub proof fn law_route_by_response_bit(h: Header)
    ensures
        (spec_route(h) == FrameRoute::Abort { request_id: h.request_id }) == (h.method_id
            == ABORT_METHOD_ID),
        (spec_route(h) is StrayAuth) == (h.method_id == AUTH_METHOD_ID),
        (spec_route(h) is UnexpectedResponse) == (h.method_id != ABORT_METHOD_ID && h.method_id
            != AUTH_METHOD_ID && h.flags & 0x02u8 != 0),
        (spec_route(h) is Request) == (h.method_id != ABORT_METHOD_ID && h.method_id
            != AUTH_METHOD_ID && h.flags & 0x02u8 == 0),
{
}

/// Decide where an incoming frame goes.
pub fn route_frame(header: &Header) -> (r: FrameRoute)
    ensures
        r == spec_route(*header),
{
    if header.method_id == ABORT_METHOD_ID {
        FrameRoute::Abort { request_id: header.request_id }
    } else if header.method_id == AUTH_METHOD_ID {
        FrameRoute::StrayAuth
    } else if header.is_response() {
        FrameRoute::UnexpectedResponse
    } else {
        FrameRoute::Request
    }
}

/// The header of an event frame sent to the parent: direction flag only,
/// request ID 0, and the payload length (as the 32-bit wire field holds it).
pub fn event_header(event_id: u16, payload_len: usize) -> (r: Header)
    ensures
        r == (Header {
            method_id: event_id,
            flags: flags::DIRECTION_TO_PARENT,
            request_id: 0,
            payload_length: payload_len as u32,
        }),
{
    Header::new(event_id, flags::DIRECTION_TO_PARENT, 0, payload_len as u32)
}

/// The error for an event name that was never registered:
/// `Protocol("Unknown event: <name>")`.
pub fn unknown_event_error(event: &str) -> (r: ProcwireError)
    ensures
        r matches ProcwireError::Protocol(m) && m@ == "Unknown event: "@ + event@,
{
    let mut m = String::from_str("Unknown event: ");
    m.append(event);
    ProcwireError::Protocol(m)
}

/// Settings of a client before it starts: the registered methods and
/// events (with handlers of type `H`) and the runtime limits.
pub struct ClientBuilder<H> {
    registry: HandlerRegistry<H>,
    writer_config: WriterConfig,
    max_concurrent_handlers: usize,
    max_payload_size: u32,
    auth_token: Option<String>,
}

impl<H> ClientBuilder<H> {
    /// The registry of methods and events.
    pub closed spec fn registry(&self) -> HandlerRegistry<H> {
        self.registry
    }

    /// The writer settings.
    pub closed spec fn writer_settings(&self) -> WriterConfig {
        self.writer_config
    }

    /// The maximum number of handlers running at once.
    pub closed spec fn concurrency_limit(&self) -> usize {
        self.max_concurrent_handlers
    }

    /// The incoming payload limit.
    pub closed spec fn payload_limit(&self) -> u32 {
        self.max_payload_size
    }

    /// The explicitly configured token, if any.
    pub closed spec fn explicit_token(&self) -> Option<String> {
        self.auth_token
    }

    /// The registry is well formed.
    pub open spec fn wf(&self) -> bool {
        self.registry().wf()
    }

    /// `after` has the settings of `self` and the registry `registry`.
    pub open spec fn same_settings(&self, after: Self) -> bool {
        &&& after.writer_settings() == self.writer_settings()
        &&& after.concurrency_limit() == self.concurrency_limit()
        &&& after.payload_limit() == self.payload_limit()
        &&& after.explicit_token() == self.explicit_token()
    }

    /// A builder with no method or event, the default limits and no
    /// explicit token.
    pub fn new() -> (r: Self)
        ensures
            r.wf(),
            r.registry().method_map() == Map::<Seq<char>, crate::control::init::MethodSchema>::empty(),
            r.registry().event_map() == Map::<Seq<char>, crate::control::init::EventSchema>::empty(),
            r.registry().next_method_id() == 1,
            r.registry().next_event_id() == 1,
            r.writer_settings().max_pending_frames == crate::writer::DEFAULT_MAX_PENDING_FRAMES,
            r.writer_settings().channel_capacity == crate::writer::DEFAULT_CHANNEL_CAPACITY,
            r.writer_settings().backpressure_timeout == crate::backpressure::seconds_duration(
                crate::writer::DEFAULT_BACKPRESSURE_TIMEOUT_SECS,
            ),
            r.concurrency_limit() == DEFAULT_MAX_CONCURRENT_HANDLERS,
            r.payload_limit() == DEFAULT_MAX_PAYLOAD_SIZE,
            r.explicit_token() is None,
    {
        ClientBuilder {
            registry: HandlerRegistry::new(),
            writer_config: WriterConfig::default(),
            max_concurrent_handlers: DEFAULT_MAX_CONCURRENT_HANDLERS,
            max_payload_size: DEFAULT_MAX_PAYLOAD_SIZE,
            auth_token: None,
        }
    }

    /// Register `handler` for `method`, answering with `response`.
    fn register_method(self, method: &str, response: ResponseType, handler: H) -> (r: Self)
        requires
            self.wf(),
            self.registry().next_method_id() < u16::MAX,
        ensures
            r.wf(),
            self.registry().method_registered(r.registry(), method@, response, handler),
            self.same_settings(r),
    {
        let mut b = self;
        b.registry.register(method, response, handler);
        b
    }

    /// Register a method answering with a single result.
    pub fn handle(self, method: &str, handler: H) -> (r: Self)
        requires
            self.wf(),
            self.registry().next_method_id() < u16::MAX,
        ensures
            r.wf(),
            self.registry().method_registered(r.registry(), method@, ResponseType::Result, handler),
            self.same_settings(r),
    {
        self.register_method(method, ResponseType::Result, handler)
    }

    /// Register a method answering with a stream of chunks.
    pub fn handle_stream(self, method: &str, handler: H) -> (r: Self)
        requires
            self.wf(),
            self.registry().next_method_id() < u16::MAX,
        ensures
            r.wf(),
            self.registry().method_registered(r.registry(), method@, ResponseType::Stream, handler),
            self.same_settings(r),
    {
        self.register_method(method, ResponseType::Stream, handler)
    }

    /// Register a method answering with an acknowledgment.
    pub fn handle_ack(self, method: &str, handler: H) -> (r: Self)
        requires
            self.wf(),
            self.registry().next_method_id() < u16::MAX,
        ensures
            r.wf(),
            self.registry().method_registered(r.registry(), method@, ResponseType::Ack, handler),
            self.same_settings(r),
    {
        self.register_method(method, ResponseType::Ack, handler)
    }

    /// Register an event the client can emit.
    pub fn event(self, name: &str) -> (r: Self)
        requires
            self.wf(),
            self.registry().next_event_id() < u16::MAX,
        ensures
            r.wf(),
            self.registry().event_registered(r.registry(), name@),
            self.same_settings(r),
    {
        let mut b = self;
        b.registry.register_event(name);
        b
    }

    /// Set the maximum number of handlers running at once.
    pub fn max_concurrent_handlers(self, limit: usize) -> (r: Self)
        ensures
            r.registry() == self.registry(),
            r.writer_settings() == self.writer_settings(),
            r.concurrency_limit() == limit,
            r.payload_limit() == self.payload_limit(),
            r.explicit_token() == self.explicit_token(),
    {
        let mut b = self;
        b.max_concurrent_handlers = limit;
        b
    }

    /// Set the number of pending frames at which backpressure starts.
    pub fn max_pending_frames(self, limit: usize) -> (r: Self)
        ensures
            r.registry() == self.registry(),
            r.writer_settings() == (WriterConfig { max_pending_frames: limit, ..self.writer_settings() }),
            r.concurrency_limit() == self.concurrency_limit(),
            r.payload_limit() == self.payload_limit(),
            r.explicit_token() == self.explicit_token(),
    {
        let mut b = self;
        b.writer_config.max_pending_frames = limit;
        b
    }

    /// Set the capacity of the writer's frame queue.
    pub fn channel_capacity(self, capacity: usize) -> (r: Self)
        ensures
            r.registry() == self.registry(),
            r.writer_settings() == (WriterConfig { channel_capacity: capacity, ..self.writer_settings() }),
            r.concurrency_limit() == self.concurrency_limit(),
            r.payload_limit() == self.payload_limit(),
            r.explicit_token() == self.explicit_token(),
    {
        let mut b = self;
        b.writer_config.channel_capacity = capacity;
        b
    }

    /// Set how long a sender waits for backpressure to clear.
    pub fn backpressure_timeout(self, timeout: Duration) -> (r: Self)
        ensures
            r.registry() == self.registry(),
            r.writer_settings() == (WriterConfig {
                backpressure_timeout: timeout,
                ..self.writer_settings()
            }),
            r.concurrency_limit() == self.concurrency_limit(),
            r.payload_limit() == self.payload_limit(),
            r.explicit_token() == self.explicit_token(),
    {
        let mut b = self;
        b.writer_config.backpressure_timeout = timeout;
        b
    }

    /// Set the incoming payload limit, clamped to
    /// `ABSOLUTE_MAX_PAYLOAD_SIZE`.
    pub fn max_payload_size(self, size: u32) -> (r: Self)
        ensures
            r.registry() == self.registry(),
            r.writer_settings() == self.writer_settings(),
            r.concurrency_limit() == self.concurrency_limit(),
            r.payload_limit() == (if size <= ABSOLUTE_MAX_PAYLOAD_SIZE {
                size
            } else {
                ABSOLUTE_MAX_PAYLOAD_SIZE
            }),
            r.explicit_token() == self.explicit_token(),
    {
        let mut b = self;
        b.max_payload_size = clamp_max_payload_size(size);
        b
    }

    /// Set the data-plane token explicitly (it wins over `PROCWIRE_TOKEN`).
    pub fn auth_token<T: Into<String>>(self, token: T) -> (r: Self)
        ensures
            r.registry() == self.registry(),
            r.writer_settings() == self.writer_settings(),
            r.concurrency_limit() == self.concurrency_limit(),
            r.payload_limit() == self.payload_limit(),
            r.explicit_token() is Some,
            T::obeys_into_spec() ==> r.explicit_token() == Some(token.into_spec()),
    {
        let mut b = self;
        b.auth_token = Some(token.into());
        b
    }

    /// The registry.
    pub fn registry_ref(&self) -> (r: &HandlerRegistry<H>)
        ensures
            *r == self.registry(),
    {
        &self.registry
    }

    /// The writer settings.
    pub fn writer_config(&self) -> (r: &WriterConfig)
        ensures
            *r == self.writer_settings(),
    {
        &self.writer_config
    }

    /// The maximum number of handlers running at once.
    pub fn concurrent_handler_limit(&self) -> (r: usize)
        ensures
            r == self.concurrency_limit(),
    {
        self.max_concurrent_handlers
    }

    /// The incoming payload limit.
    pub fn payload_size_limit(&self) -> (r: u32)
        ensures
            r == self.payload_limit(),
    {
        self.max_payload_size
    }

    /// The explicitly configured token.
    pub fn configured_token(&self) -> (r: Option<&str>)
        ensures
            match r {
                Some(t) => self.explicit_token() matches Some(s) && t@ == s@,
                None => self.explicit_token() is None,
            },
    {
        match &self.auth_token {
            Some(t) => Some(t.as_str()),
            None => None,
        }
    }

    /// Take the builder apart for starting: registry, writer settings,
    /// handler limit, payload limit, explicit token.
    pub fn into_parts(self) -> (r: (HandlerRegistry<H>, WriterConfig, usize, u32, Option<String>))
        ensures
            r.0 == self.registry(),
            r.1 == self.writer_settings(),
            r.2 == self.concurrency_limit(),
            r.3 == self.payload_limit(),
            r.4 == self.explicit_token(),
    {
        (self.registry, self.writer_config, self.max_concurrent_handlers, self.max_payload_size, self.auth_token)
    }
}

impl<H> Default for ClientBuilder<H> {
    fn default() -> (r: Self)
        ensures
            r.wf(),
            r.registry().method_map() == Map::<Seq<char>, crate::control::init::MethodSchema>::empty(),
            r.registry().event_map() == Map::<Seq<char>, crate::control::init::EventSchema>::empty(),
            r.registry().next_method_id() == 1,
            r.registry().next_event_id() == 1,
            r.writer_settings().max_pending_frames == crate::writer::DEFAULT_MAX_PENDING_FRAMES,
            r.writer_settings().channel_capacity == crate::writer::DEFAULT_CHANNEL_CAPACITY,
            r.writer_settings().backpressure_timeout == crate::backpressure::seconds_duration(
                crate::writer::DEFAULT_BACKPRESSURE_TIMEOUT_SECS,
            ),
            r.concurrency_limit() == DEFAULT_MAX_CONCURRENT_HANDLERS,
            r.payload_limit() == DEFAULT_MAX_PAYLOAD_SIZE,
            r.explicit_token() is None,
    {
        Self::new()
    }
}

/// The requests whose handlers are running, by request ID, each with what
/// is needed to cancel it (of type `T`). An ABORT for a request in the table
/// reaches its handler; one for an unknown or finished request reaches
/// nobody.
pub struct ActiveRequests<T> {
    running: HashMap<u32, T>,
}

impl<T> View for ActiveRequests<T> {
    type V = Map<u32, T>;

    /// The running requests.
    closed spec fn view(&self) -> Map<u32, T> {
        self.running@
    }
}

impl<T> ActiveRequests<T> {

    /// No request is running.
    pub fn new() -> (r: Self)
        ensures
            r@ == Map::<u32, T>::empty(),
    {
        ActiveRequests { running: HashMap::new() }
    }

    /// A handler for `request_id` starts; a request already running under
    /// that ID is replaced.
    pub fn start(&mut self, request_id: u32, entry: T)
        ensures
            final(self)@ == old(self)@.insert(request_id, entry),
    {
        broadcast use vstd::std_specs::hash::group_hash_axioms;
        self.running.insert(request_id, entry);
    }

    /// The handler for `request_id` has finished.
    pub fn finish(&mut self, request_id: u32)
        ensures
            final(self)@ == old(self)@.remove(request_id),
    {
        broadcast use vstd::std_specs::hash::group_hash_axioms;
        self.running.remove(&request_id);
    }

    /// What `get` finds for `request_id`.
    pub open spec fn lookup(&self, request_id: u32) -> Option<T> {
        if self@.contains_key(request_id) {
            Some(self@[request_id])
        } else {
            None
        }
    }

    /// What cancels request `request_id`, if it is running.
    pub fn get(&self, request_id: u32) -> (r: Option<&T>)
        ensures
            match r {
                Some(t) => self.lookup(request_id) == Some(*t),
                None => self.lookup(request_id) is None,
            },
    {
        broadcast use vstd::std_specs::hash::group_hash_axioms;
        self.running.get(&request_id)
    }

    /// The number of running requests.
    pub fn len(&self) -> (r: usize)
        ensures
            r == self@.len(),
    {
        broadcast use vstd::std_specs::hash::group_hash_axioms;
        self.running.len()
    }
}

/// Law (ABORT reaches only running requests): after `start(id, entry)`,
/// `get(id)` finds `entry`; after `finish(id)` that follows, `get(id)` finds
/// nothing, and every other request is found as before the two calls.
pub proof fn law_abort_reaches_only_running<T>(
    before: ActiveRequests<T>,
    started: ActiveRequests<T>,
    finished: ActiveRequests<T>,
    id: u32,
    other: u32,
    entry: T,
)
    requires
        started@ == before@.insert(id, entry),
        finished@ == started@.remove(id),
        other != id,
    ensures
        started.lookup(id) == Some(entry),
        finished.lookup(id) is None,
        finished.lookup(other) == before.lookup(other),
        started.lookup(other) == before.lookup(other),
{
}

/// Whether an accepted connection must authenticate before it is adopted:
/// exactly when a token is in force.
pub fn needs_handshake(token: &Option<String>) -> (r: bool)
    ensures
        r == token is Some,
{
    token.is_some()
}

/// One step of the authentication handshake after a read: `read` is the
/// bytes the read gave, or `None` when the read failed. A failed read, or
/// the end of the stream (no byte), rejects the connection and leaves the
/// buffer as it was; otherwise the bytes go through [`auth_step`].
pub fn auth_on_read(frame_buffer: &mut FrameBuffer, read: Option<&[u8]>, token: &[u8]) -> (r:
    AuthStep)
    requires
        old(frame_buffer).wf(),
        read matches Some(d) ==> old(frame_buffer).buffered().len() + d@.len() <= isize::MAX,
    ensures
        final(frame_buffer).wf(),
        final(frame_buffer).max_payload() == old(frame_buffer).max_payload(),
        match read {
            Some(d) => if d@.len() == 0 {
                r is Reject && *final(frame_buffer) == *old(frame_buffer)
            } else {
                &&& final(frame_buffer).pending() == split_frames(
                    old(frame_buffer).pending() + d@,
                    old(frame_buffer).limit(),
                ).1
                &&& auth_step_outcome(
                    old(frame_buffer).pending() + d@,
                    old(frame_buffer).limit(),
                    token@,
                    r,
                )
            },
            None => r is Reject && *final(frame_buffer) == *old(frame_buffer),
        },
{
    match read {
        Some(data) => {
            if data.len() == 0 {
                AuthStep::Reject
            } else {
                auth_step(frame_buffer, data, token)
            }
        },
        None => AuthStep::Reject,
    }
}

} // verus!
