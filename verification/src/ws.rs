//! The gateway's side of a backend connection: the handshake, the reading of
//! incoming frames, the freshness rules for requests and heartbeats, and the
//! table that routes answers back to the users waiting for them.
use vstd::prelude::*;

use std::collections::HashMap;
use std::ops::ControlFlow;

use crate::clock::now_timestamp;
use crate::frame::{i64_from_be, i64_from_be_bytes, Frame};
use crate::manager::{receiver_channel, registered, with_models, APIRequestWithResponse, ClientManager};
use crate::schemas::{APIResponse, ListModelsResponse, ModelInfo};

verus! {

broadcast use vstd::std_specs::hash::group_hash_axioms;

/// What an incoming frame from a backend amounts to.
pub enum Response {
    /// An answer to a request.
    Api(APIResponse),
    /// A heartbeat carrying the backend's clock, in seconds since the epoch.
    Heartbeat(i64),
    /// Nothing to act on.
    Ignore,
}

/// The meaning of a frame received from a backend.
pub open spec fn incoming(msg: Frame<APIResponse>) -> ControlFlow<(), Response> {
    match msg {
        Frame::Text(Some(resp)) => ControlFlow::Continue(Response::Api(resp)),
        Frame::Text(None) => ControlFlow::Continue(Response::Ignore),
        Frame::Binary(b) => if b@.len() == 8 {
            ControlFlow::Continue(Response::Heartbeat(i64_from_be(b@) as i64))
        } else {
            ControlFlow::Continue(Response::Ignore)
        },
        Frame::Close => ControlFlow::Break(()),
        _ => ControlFlow::Continue(Response::Ignore),
    }
}

/// Reads a frame received from a backend: an answer, a heartbeat (a binary
/// frame of exactly eight bytes, a big-endian timestamp), the end of the
/// connection (a close frame), or nothing to act on.
pub fn process_message(msg: Frame<APIResponse>) -> (r: ControlFlow<(), Response>)
    ensures
        r == incoming(msg),
        msg matches Frame::Text(Some(resp)) ==> r == ControlFlow::<(), Response>::Continue(Response::Api(resp)),
        r is Break <==> msg is Close,
{
    match msg {
        Frame::Text(Some(resp)) => ControlFlow::Continue(Response::Api(resp)),
        Frame::Text(None) => ControlFlow::Continue(Response::Ignore),
        Frame::Binary(b) => {
            if b.len() == 8 {
                let t = i64_from_be_bytes(b.as_slice());
                ControlFlow::Continue(Response::Heartbeat(t))
            } else {
                ControlFlow::Continue(Response::Ignore)
            }
        },
        Frame::Ping => ControlFlow::Continue(Response::Ignore),
        Frame::Pong => ControlFlow::Continue(Response::Ignore),
        Frame::Close => ControlFlow::Break(()),
        Frame::Other => ControlFlow::Continue(Response::Ignore),
    }
}

/// Whether the backend answered the gateway's opening ping: the first frame
/// received (`None` when the connection ended or failed) must be a pong.
pub fn is_pong<T>(msg: &Option<Frame<T>>) -> (r: bool)
    ensures
        r == (*msg matches Some(Frame::Pong)),
{
    match msg {
        Some(Frame::Pong) => true,
        _ => false,
    }
}

/// The models a backend announces in the frame after the pong: a text frame
/// holding a list of models. Anything else ends the connection (`None`).
pub fn model_announcement(msg: Option<Frame<ListModelsResponse>>) -> (r: Option<Vec<ModelInfo>>)
    ensures
        match msg {
            Some(Frame::Text(Some(list))) => r == Some(list.data),
            _ => r is None,
        },
{
    match msg {
        Some(Frame::Text(Some(list))) => Some(list.data),
        _ => None,
    }
}

/// Registers the models a backend announces in the frame after the pong, and
/// returns one receiver per announced model to serve their requests. `None`
/// ends the connection: the frame is not a list of models, or the list is
/// empty; nothing is registered then.
pub fn accept_models(manager: &mut ClientManager, msg: Option<Frame<ListModelsResponse>>) -> (r: Option<Vec<async_channel::Receiver<APIRequestWithResponse>>>)
    requires
        old(manager).wf(),
    ensures
        final(manager).wf(),
        final(manager).next_request_id() == old(manager).next_request_id(),
        match msg {
            Some(Frame::Text(Some(list))) => if list.data@.len() > 0 {
                &&& r matches Some(rxs) && rxs@.len() == list.data@.len() && forall|i: int|
                    0 <= i < list.data@.len() ==> {
                        &&& registered(final(manager).models(), #[trigger] list.data@[i].id@)
                        &&& receiver_channel(rxs@[i]) == final(manager).channel_of(list.data@[i].id@)
                    }
                &&& final(manager).models() == with_models(old(manager).models(), list.data@)
            } else {
                r is None && final(manager).models() == old(manager).models()
            },
            _ => r is None && final(manager).models() == old(manager).models(),
        },
{
    match model_announcement(msg) {
        Some(models) => {
            if models.len() == 0 {
                return None;
            }
            let rxs = manager.register_models(models);
            Some(rxs)
        },
        None => None,
    }
}

/// Requests older (or newer) than this many seconds are not forwarded.
pub const REQUEST_MAX_AGE_SECS: i64 = 600;

/// A backend silent for longer than this many seconds is considered gone.
pub const HEARTBEAT_TIMEOUT_SECS: i64 = 10;

/// A backend clock further than this many seconds from the gateway's is reported.
pub const CLOCK_DRIFT_WARN_SECS: i64 = 10;

/// The distance between two instants.
pub open spec fn distance(a: int, b: int) -> int {
    if a >= b { a - b } else { b - a }
}

/// Whether the instants `now` and `then` are more than `limit` seconds apart.
pub fn farther_than(now: i64, then: i64, limit: i64) -> (r: bool)
    ensures
        r == (distance(now as int, then as int) > limit as int),
{
    let d: i128 = now as i128 - then as i128;
    let a: i128 = if d >= 0 { d } else { -d };
    a > limit as i128
}

/// Whether, at time `now`, a request queued at `queued_at` is too far from it to be forwarded.
pub open spec fn request_stale_at(now: i64, queued_at: i64) -> bool {
    distance(now as int, queued_at as int) > REQUEST_MAX_AGE_SECS as int
}

/// Whether a request queued at `queued_at` is too far from `now` to be forwarded.
pub fn request_is_stale(now: i64, queued_at: i64) -> (r: bool)
    ensures
        r == request_stale_at(now, queued_at),
{
    farther_than(now, queued_at, REQUEST_MAX_AGE_SECS)
}

/// A request is fresh when it is stamped, and stays fresh for the whole
/// allowed age: checked at any time from its stamp `t` up to
/// `REQUEST_MAX_AGE_SECS` later, it is forwarded; checked later, it is not.
pub proof fn lemma_request_fresh_until_max_age(t: i64, now: i64)
    ensures
        t <= now <= t + REQUEST_MAX_AGE_SECS ==> !request_stale_at(now, t),
        now > t + REQUEST_MAX_AGE_SECS ==> request_stale_at(now, t),
        !request_stale_at(t, t),
{
}

/// Whether a backend clock reading is far enough from `now` to be reported.
pub fn clock_drift_suspicious(now: i64, client_time: i64) -> (r: bool)
    ensures
        r == (distance(now as int, client_time as int) > CLOCK_DRIFT_WARN_SECS as int),
{
    farther_than(now, client_time, CLOCK_DRIFT_WARN_SECS)
}

/// Whether, at time `now`, a backend whose last heartbeat arrived at
/// `last_heartbeat` (0 before the first) is gone.
pub open spec fn heartbeat_expired(last_heartbeat: i64, now: i64) -> bool {
    last_heartbeat > 0 && distance(now as int, last_heartbeat as int) > HEARTBEAT_TIMEOUT_SECS as int
}

/// Whether the connection is dead: a heartbeat was seen (`last_heartbeat` is
/// the gateway time it arrived, 0 before the first) and it is too old.
pub fn heartbeat_lost(last_heartbeat: i64, now: i64) -> (r: bool)
    ensures
        r == heartbeat_expired(last_heartbeat, now),
{
    last_heartbeat > 0 && farther_than(now, last_heartbeat, HEARTBEAT_TIMEOUT_SECS)
}

/// Whether a request queued at `queued_at` is too far from the current time
/// to be forwarded; `None` when the system clock cannot be read.
pub fn request_is_stale_now(queued_at: i64) -> (r: Option<bool>)
    ensures
        r matches Some(b) ==> exists|now: i64| now >= 0 && b == #[trigger] request_stale_at(now, queued_at),
{
    match now_timestamp() {
        Some(now) => {
            let b = request_is_stale(now, queued_at);
            assert(b == request_stale_at(now, queued_at));
            Some(b)
        },
        None => None,
    }
}

/// Records a heartbeat carrying the backend clock `client_time`: returns the
/// gateway time of its arrival and whether the two clocks are far apart;
/// `None` when the system clock cannot be read.
pub fn heartbeat_received(client_time: i64) -> (r: Option<(i64, bool)>)
    ensures
        r matches Some(p) ==> p.0 >= 0 && p.1 == (distance(p.0 as int, client_time as int)
            > CLOCK_DRIFT_WARN_SECS as int),
{
    match now_timestamp() {
        Some(now) => Some((now, clock_drift_suspicious(now, client_time))),
        None => None,
    }
}

/// Whether the connection is dead at the current time, `last_heartbeat`
/// being the gateway time of the last heartbeat (0 before the first);
/// `None` when the system clock cannot be read.
pub fn heartbeat_lost_now(last_heartbeat: i64) -> (r: Option<bool>)
    ensures
        r matches Some(b) ==> (last_heartbeat <= 0 ==> !b),
        r matches Some(b) ==> exists|now: i64| now >= 0 && b == #[trigger] heartbeat_expired(last_heartbeat, now),
{
    match now_timestamp() {
        Some(now) => {
            let b = heartbeat_lost(last_heartbeat, now);
            assert(b == heartbeat_expired(last_heartbeat, now));
            Some(b)
        },
        None => None,
    }
}

/// An answer is the last of its exchange: the stream is done, the request
/// failed, or it is the only answer to a request that was not streamed.
pub open spec fn ends_exchange(resp: APIResponse) -> bool {
    resp.body is Done || resp.body is Error || resp.once
}

/// Whether an answer is the last of its exchange, after which its route is closed.
pub fn closes_route(resp: &APIResponse) -> (r: bool)
    ensures
        r == ends_exchange(*resp),
{
    resp.body.is_done_or_error() || resp.once
}

/// The channels on which the users waiting for answers are reached, by request number.
///
/// The table changes only through `&mut self` (see `ClientManager`); the
/// connection's tasks share it under a lock.
pub struct ResponseRoutes {
    routes: HashMap<usize, tokio::sync::mpsc::Sender<APIResponse>>,
}

impl ResponseRoutes {
    /// The open routes.
    pub closed spec fn routes(&self) -> Map<usize, tokio::sync::mpsc::Sender<APIResponse>> {
        self.routes@
    }

    pub fn new() -> (r: Self)
        ensures
            r.routes() == Map::<usize, tokio::sync::mpsc::Sender<APIResponse>>::empty(),
    {
        ResponseRoutes { routes: HashMap::new() }
    }

    /// Opens the route for request `id`, once the request has gone out; a
    /// route already open for `id` is replaced.
    pub fn register(&mut self, id: usize, response: tokio::sync::mpsc::Sender<APIResponse>)
        ensures
            final(self).routes() == old(self).routes().insert(id, response),
    {
        self.routes.insert(id, response);
    }

    /// The channel on which answers to request `id` go back, if its route is open.
    pub fn sender_for(&self, id: usize) -> (r: Option<&tokio::sync::mpsc::Sender<APIResponse>>)
        ensures
            self.routes().contains_key(id) ==> r == Some(&self.routes()[id]),
            !self.routes().contains_key(id) ==> r is None,
    {
        self.routes.get(&id)
    }

    /// Closes the route for request `id`.
    pub fn finish(&mut self, id: usize)
        ensures
            final(self).routes() == old(self).routes().remove(id),
    {
        let _ = self.routes.remove(&id);
    }

    /// Where an answer from a backend goes: the channel of the route of its
    /// request, and whether that route closes once the answer is through.
    /// `None` when no route is open for it: the answer is dropped.
    pub fn delivery_for(&self, resp: &APIResponse) -> (r: Option<(&tokio::sync::mpsc::Sender<APIResponse>, bool)>)
        ensures
            self.routes().contains_key(resp.id) ==> r == Some((&self.routes()[resp.id], ends_exchange(*resp))),
            !self.routes().contains_key(resp.id) ==> r is None,
    {
        match self.sender_for(resp.id) {
            Some(tx) => Some((tx, closes_route(resp))),
            None => None,
        }
    }

    /// Records that an answer to request `id` went through on its route, and
    /// closes the route when `closes` (as `delivery_for` said) is set.
    pub fn complete_delivery(&mut self, id: usize, closes: bool)
        ensures
            final(self).routes() == (if closes { old(self).routes().remove(id) } else { old(self).routes() }),
    {
        if closes {
            self.finish(id);
        }
    }
}

/// The routes after the answer `resp` has been handled.
pub open spec fn routes_after(
    m: Map<usize, tokio::sync::mpsc::Sender<APIResponse>>,
    resp: APIResponse,
) -> Map<usize, tokio::sync::mpsc::Sender<APIResponse>> {
    if m.contains_key(resp.id) && ends_exchange(resp) { m.remove(resp.id) } else { m }
}

/// Handling an answer: it goes out on the route of its request, if one is
/// open, and nowhere else; when it ends its exchange the route closes, so a
/// later answer with the same number finds none; every other route stays as
/// it was; and an answer with no open route changes nothing.
pub proof fn lemma_answer_routing(
    m: Map<usize, tokio::sync::mpsc::Sender<APIResponse>>,
    resp: APIResponse,
    delivery: Option<(&tokio::sync::mpsc::Sender<APIResponse>, bool)>,
    after: Map<usize, tokio::sync::mpsc::Sender<APIResponse>>,
)
    requires
        m.contains_key(resp.id) ==> delivery == Some((&m[resp.id], ends_exchange(resp))),
        !m.contains_key(resp.id) ==> delivery is None,
        delivery matches Some(d) ==> after == (if d.1 { m.remove(resp.id) } else { m }),
        delivery is None ==> after == m,
    ensures
        after == routes_after(m, resp),
        delivery matches Some(d) ==> *d.0 == m[resp.id],
        m.contains_key(resp.id) && ends_exchange(resp) ==> !after.contains_key(resp.id),
        forall|k: usize| k != resp.id ==> (#[trigger] after.contains_key(k) == m.contains_key(k)
            && (m.contains_key(k) ==> after[k] == m[k])),
        !m.contains_key(resp.id) ==> after == m,
{
}

/// Every answer a backend sends is passed on as it came, whatever it says:
/// a text frame that decodes to the answer `resp` reads as `resp` itself,
/// successes, failures and done markers alike. No other frame reads as an
/// answer, and only a close frame ends the connection.
pub proof fn lemma_answers_pass_through(resp: APIResponse, f: Frame<APIResponse>)
    ensures
        incoming(Frame::Text(Some(resp))) == ControlFlow::<(), Response>::Continue(Response::Api(resp)),
        incoming(f) == ControlFlow::<(), Response>::Continue(Response::Api(resp)) ==> f == Frame::<APIResponse>::Text(Some(resp)),
        (incoming(f) is Break) <==> (f is Close),
{
}

/// A binary frame is read as a heartbeat only when it holds eight bytes, and
/// then as the clock reading those bytes spell in big-endian order.
pub proof fn lemma_heartbeat_frames(t: i64, f: Frame<APIResponse>)
    requires
        incoming(f) == ControlFlow::<(), Response>::Continue(Response::Heartbeat(t)),
    ensures
        f is Binary,
        f->Binary_0@.len() == 8,
        t as int == crate::frame::i64_from_be(f->Binary_0@),
{
    crate::frame::lemma_i64_from_be_range(f->Binary_0@);
}

/// A heartbeat frame sent by a client (the big-endian bytes of its clock) is
/// read back as that clock.
pub proof fn lemma_heartbeat_roundtrip(t: i64, payload: Vec<u8>)
    requires
        payload@ == crate::frame::i64_be_bytes(t as int),
    ensures
        incoming(Frame::Binary(payload)) == ControlFlow::<(), Response>::Continue(Response::Heartbeat(t)),
{
    crate::frame::lemma_i64_be_roundtrip(t);
}

} // verus!
