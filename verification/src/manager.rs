//! The registry of connected backends: one channel of requests per model,
//! shared by all the backend connections that serve that model.
use vstd::prelude::*;

use crate::clock::now_timestamp;
use crate::schemas::{APIRequest, APIRequestBody, APIResponse, ModelInfo};

verus! {

/// The sending handle of an `async_channel` channel, carried opaquely.
#[verifier::external_type_specification]
#[verifier::external_body]
#[verifier::reject_recursive_types(T)]
pub struct ExRequestSender<T>(async_channel::Sender<T>);

/// The receiving handle of an `async_channel` channel, carried opaquely.
#[verifier::external_type_specification]
#[verifier::external_body]
#[verifier::reject_recursive_types(T)]
pub struct ExRequestReceiver<T>(async_channel::Receiver<T>);

/// The sending handle of a `tokio::sync::mpsc` channel, carried opaquely.
#[verifier::external_type_specification]
#[verifier::external_body]
#[verifier::reject_recursive_types(T)]
pub struct ExResponseSender<T>(tokio::sync::mpsc::Sender<T>);

/// Capacity of the request channel of each model.
pub const REQUEST_QUEUE_CAPACITY: usize = 32;

/// Opens a bounded request channel through `async_channel::bounded`. The
/// crate panics on a zero capacity, which `requires` excludes. Both handles
/// belong to the one new channel, whose capacity (`Sender::capacity`) is `cap`.
/// The channel is freshly allocated, so it is none of the channels of the
/// entries `live`, which are alive during the call.
#[verifier::external_body]
fn open_request_channel(cap: usize, live: &Vec<ClientInfo>) -> (c: (async_channel::Sender<APIRequestWithResponse>, async_channel::Receiver<APIRequestWithResponse>))
    requires
        cap > 0,
    ensures
        sender_channel(c.0) == receiver_channel(c.1),
        sender_capacity(c.0) == Some(cap),
        forall|i: int| 0 <= i < live@.len() ==> sender_channel(#[trigger] live@[i].sender) != sender_channel(c.0),
{
    let _ = live;
    async_channel::bounded(cap)
}

/// How many receivers the channel of `s` has, through
/// `async_channel::Sender::receiver_count`. Other tasks may drop or clone
/// receivers at any time, so nothing is claimed of the count.
#[verifier::external_body]
fn receiver_count(s: &async_channel::Sender<APIRequestWithResponse>) -> usize {
    s.receiver_count()
}

/// A new receiver on the channel of `r`, through `Clone` of
/// `async_channel::Receiver`, which shares the channel of `r` (the crate
/// aborts the process if more than `usize::MAX / 2` receivers exist).
#[verifier::external_body]
fn clone_receiver(r: &async_channel::Receiver<APIRequestWithResponse>) -> (c: async_channel::Receiver<APIRequestWithResponse>)
    ensures
        receiver_channel(c) == receiver_channel(*r),
{
    r.clone()
}

/// A request on its way to a backend, with the channel its answers go back on
/// and the time (seconds since the epoch) at which it was queued.
pub struct APIRequestWithResponse {
    pub body: APIRequest,
    pub response: tokio::sync::mpsc::Sender<APIResponse>,
    pub timestamp: i64,
}

/// The channel a request sender feeds. Handles of one channel share the
/// channel: the identity is set only by the channel's creation and kept by
/// cloning; nothing else is claimed of it.
pub uninterp spec fn sender_channel(s: async_channel::Sender<APIRequestWithResponse>) -> int;

/// The channel a request receiver drains (see `sender_channel`).
pub uninterp spec fn receiver_channel(r: async_channel::Receiver<APIRequestWithResponse>) -> int;

/// The capacity the channel of `s` was made with, as
/// `async_channel::Sender::capacity` reports it.
pub uninterp spec fn sender_capacity(s: async_channel::Sender<APIRequestWithResponse>) -> Option<usize>;

/// A registry entry's two handles belong to one channel of the registry's capacity.
pub open spec fn entry_ok(c: ClientInfo) -> bool {
    &&& sender_channel(c.sender) == receiver_channel(c.receiver)
    &&& sender_capacity(c.sender) == Some(REQUEST_QUEUE_CAPACITY)
}

/// A registered model and the channel its requests are queued on.
pub struct ClientInfo {
    pub model_info: ModelInfo,
    pub sender: async_channel::Sender<APIRequestWithResponse>,
    pub receiver: async_channel::Receiver<APIRequestWithResponse>,
}

/// Why a request could not be queued.
pub enum ClientManagerError {
    ModelNotFound(String),
    InternalError,
}

impl ClientManagerError {
    /// The human-readable text of the error.
    pub fn message(&self) -> (s: String)
        ensures
            s@ == match self {
                ClientManagerError::ModelNotFound(m) => "Model not found: "@ + m@,
                ClientManagerError::InternalError => "Internal error"@,
            },
    {
        match self {
            ClientManagerError::ModelNotFound(m) => {
                let mut s = String::from_str("Model not found: ");
                s.append(m.as_str());
                s
            },
            ClientManagerError::InternalError => String::from_str("Internal error"),
        }
    }
}

/// No two models of `m` share an identifier.
pub open spec fn unique_ids(m: Seq<ModelInfo>) -> bool {
    forall|i: int, j: int| 0 <= i < j < m.len() ==> #[trigger] m[i].id@ != #[trigger] m[j].id@
}

/// Some model of `m` has the identifier `id`.
pub open spec fn registered(m: Seq<ModelInfo>, id: Seq<char>) -> bool {
    exists|i: int| 0 <= i < m.len() && #[trigger] m[i].id@ == id
}

/// The position in `m` of the model with identifier `id`.
pub open spec fn index_of(m: Seq<ModelInfo>, id: Seq<char>) -> int {
    choose|i: int| 0 <= i < m.len() && #[trigger] m[i].id@ == id
}

/// The models after a backend announces `info`: the first registration of an
/// identifier stands, later ones are ignored.
pub open spec fn with_model(m: Seq<ModelInfo>, info: ModelInfo) -> Seq<ModelInfo> {
    if registered(m, info.id@) { m } else { m.push(info) }
}

/// The models after a backend announces each model of `s` in turn.
pub open spec fn with_models(m: Seq<ModelInfo>, s: Seq<ModelInfo>) -> Seq<ModelInfo>
    decreases s.len(),
{
    if s.len() == 0 { m } else { with_model(with_models(m, s.drop_last()), s.last()) }
}

/// The models after the model `id` is dropped.
pub open spec fn without_model(m: Seq<ModelInfo>, id: Seq<char>) -> Seq<ModelInfo> {
    if registered(m, id) { m.remove(index_of(m, id)) } else { m }
}

/// The registry of models served by connected backends, and the counter that
/// numbers requests.
///
/// The registry changes only through `&mut self`: a concurrent map that
/// changes behind a shared reference would leave nothing for a contract to
/// state about its contents. Tasks that share one registry hold it under a
/// lock, which gives the same one-change-at-a-time behaviour.
pub struct ClientManager {
    clients: Vec<ClientInfo>,
    req_count: usize,
}

impl ClientManager {
    /// The registered models, in the order of their registration.
    pub closed spec fn models(&self) -> Seq<ModelInfo> {
        self.clients@.map_values(|c: ClientInfo| c.model_info)
    }

    /// The request channels of the registered models, in the same order.
    pub closed spec fn senders(&self) -> Seq<async_channel::Sender<APIRequestWithResponse>> {
        self.clients@.map_values(|c: ClientInfo| c.sender)
    }

    /// The number the next queued request will get.
    pub closed spec fn next_request_id(&self) -> usize {
        self.req_count
    }

    /// The registry is well formed: no model is registered twice, and each
    /// model's two handles belong to one channel of capacity
    /// `REQUEST_QUEUE_CAPACITY`.
    pub closed spec fn wf(&self) -> bool {
        &&& unique_ids(self.models())
        &&& forall|k: int| 0 <= k < self.clients@.len() ==> #[trigger] entry_ok(self.clients@[k])
        &&& forall|a: int, b: int| 0 <= a < b < self.clients@.len() ==>
            sender_channel(#[trigger] self.clients@[a].sender) != sender_channel(#[trigger] self.clients@[b].sender)
    }

    /// The channel that requests for the model `id` are queued on.
    pub closed spec fn channel_of(&self, id: Seq<char>) -> int {
        sender_channel(self.senders()[index_of(self.models(), id)])
    }

    /// The capacity of the channel of the model `id`.
    pub closed spec fn capacity_of(&self, id: Seq<char>) -> Option<usize> {
        sender_capacity(self.senders()[index_of(self.models(), id)])
    }

    /// Different models have different channels, so a request queued for one
    /// model never reaches a backend that serves only another.
    pub proof fn lemma_channels_distinct(&self, a: Seq<char>, b: Seq<char>)
        requires
            self.wf(),
            registered(self.models(), a),
            registered(self.models(), b),
            a != b,
        ensures
            self.channel_of(a) != self.channel_of(b),
    {
        let i = index_of(self.models(), a);
        let j = index_of(self.models(), b);
        assert(self.models()[i].id@ == a);
        assert(self.models()[j].id@ == b);
        assert(i != j);
        assert(self.senders()[i] == self.clients@[i].sender);
        assert(self.senders()[j] == self.clients@[j].sender);
        if i < j {
            assert(sender_channel(self.clients@[i].sender) != sender_channel(self.clients@[j].sender));
        } else {
            assert(sender_channel(self.clients@[j].sender) != sender_channel(self.clients@[i].sender));
        }
    }

    /// A well-formed registry holds no model twice, and every registered
    /// model's channel has capacity `REQUEST_QUEUE_CAPACITY`.
    pub proof fn lemma_wf(&self, id: Seq<char>)
        requires
            self.wf(),
        ensures
            unique_ids(self.models()),
            registered(self.models(), id) ==> self.capacity_of(id) == Some(REQUEST_QUEUE_CAPACITY),
    {
        if registered(self.models(), id) {
            let i = index_of(self.models(), id);
            assert(entry_ok(self.clients@[i]));
        }
    }

    pub fn new() -> (r: Self)
        ensures
            r.wf(),
            r.models() == Seq::<ModelInfo>::empty(),
            r.senders().len() == 0,
            r.next_request_id() == 0,
    {
        let r = ClientManager { clients: Vec::new(), req_count: 0 };
        assert(r.models() =~= Seq::<ModelInfo>::empty());
        r
    }

    fn find(&self, model_id: &str) -> (r: Option<usize>)
        requires
            self.wf(),
        ensures
            match r {
                Some(i) => registered(self.models(), model_id@) && i as int == index_of(
                    self.models(),
                    model_id@,
                ) && i < self.clients@.len(),
                None => !registered(self.models(), model_id@),
            },
    {
        let n = self.clients.len();
        let mut i: usize = 0;
        while i < n
            invariant
                n == self.clients@.len(),
                i <= n,
                self.wf(),
                forall|k: int| 0 <= k < i ==> #[trigger] self.models()[k].id@ != model_id@,
            decreases n - i,
        {
            if crate::text::str_eq(self.clients[i].model_info.id.as_str(), model_id) {
                let ghost m = self.models();
                assert(m[i as int].id@ == model_id@);
                let ghost j = index_of(m, model_id@);
                assert(m[j].id@ == model_id@);
                assert(j == i as int);
                return Some(i);
            }
            i = i + 1;
        }
        None
    }

    /// Registers `model_info` unless a model with its identifier is already
    /// registered, and returns a receiver on the request channel of that model.
    pub fn add_client(&mut self, model_info: ModelInfo) -> (rx: async_channel::Receiver<APIRequestWithResponse>)
        requires
            old(self).wf(),
        ensures
            final(self).wf(),
            final(self).models() == with_model(old(self).models(), model_info),
            final(self).next_request_id() == old(self).next_request_id(),
            registered(final(self).models(), model_info.id@),
            receiver_channel(rx) == final(self).channel_of(model_info.id@),
            final(self).capacity_of(model_info.id@) == Some(REQUEST_QUEUE_CAPACITY),
            forall|id: Seq<char>| #[trigger] registered(old(self).models(), id) ==>
                final(self).channel_of(id) == old(self).channel_of(id),
    {
        match self.find(model_info.id.as_str()) {
            Some(i) => {
                proof {
                    assert(entry_ok(self.clients@[i as int]));
                    assert(self.senders()[i as int] == self.clients@[i as int].sender);
                }
                clone_receiver(&self.clients[i].receiver)
            },
            None => {
                let ghost old_models = self.models();
                let ghost old_self = *self;
                let (tx, rx) = open_request_channel(REQUEST_QUEUE_CAPACITY, &self.clients);
                let out = clone_receiver(&rx);
                self.clients.push(ClientInfo { model_info, sender: tx, receiver: rx });
                assert(self.models() =~= old_models.push(model_info));
                assert(unique_ids(self.models())) by {
                    assert forall|i: int, j: int| 0 <= i < j < self.models().len() implies
                        #[trigger] self.models()[i].id@ != #[trigger] self.models()[j].id@ by {
                        if j == old_models.len() {
                            assert(self.models()[i] == old_models[i]);
                        }
                    }
                }
                proof {
                    let m = self.models();
                    let n = old_models.len() as int;
                    assert(m[n].id@ == model_info.id@);
                    lemma_index_of_unique(m, model_info.id@, n);
                    assert(self.senders()[n] == tx);
                    assert forall|id: Seq<char>| #[trigger] registered(old_models, id) implies
                        self.channel_of(id) == old_self.channel_of(id) by {
                        let k = index_of(old_models, id);
                        assert(old_models[k].id@ == id);
                        assert(m[k] == old_models[k]);
                        lemma_index_of_unique(m, id, k);
                        assert(self.senders()[k] == old_self.senders()[k]);
                    }
                    assert forall|k: int| 0 <= k < self.clients@.len() implies #[trigger] entry_ok(self.clients@[k]) by {
                        if k < n {
                            assert(self.clients@[k] == old_self.clients@[k]);
                        }
                    }
                    assert forall|a: int, b: int| 0 <= a < b < self.clients@.len() implies
                        sender_channel(#[trigger] self.clients@[a].sender) != sender_channel(#[trigger] self.clients@[b].sender) by {
                        assert(self.clients@[a] == old_self.clients@[a]);
                        if b < n {
                            assert(self.clients@[b] == old_self.clients@[b]);
                        } else {
                            assert(sender_channel(old_self.clients@[a].sender) != sender_channel(tx));
                        }
                    }
                }
                out
            },
        }
    }

    /// Registers each announced model in turn, in the order of announcement,
    /// and returns one receiver per announced model.
    pub fn register_models(&mut self, models: Vec<ModelInfo>) -> (rxs: Vec<async_channel::Receiver<APIRequestWithResponse>>)
        requires
            old(self).wf(),
        ensures
            final(self).wf(),
            rxs@.len() == models@.len(),
            final(self).models() == with_models(old(self).models(), models@),
            final(self).next_request_id() == old(self).next_request_id(),
            forall|i: int| 0 <= i < models@.len() ==> {
                &&& registered(final(self).models(), #[trigger] models@[i].id@)
                &&& receiver_channel(rxs@[i]) == final(self).channel_of(models@[i].id@)
            },
            forall|id: Seq<char>| #[trigger] registered(old(self).models(), id) ==>
                final(self).channel_of(id) == old(self).channel_of(id),
    {
        let mut rxs: Vec<async_channel::Receiver<APIRequestWithResponse>> = Vec::new();
        let n = models.len();
        let mut i: usize = 0;
        while i < n
            invariant
                self.wf(),
                n == models@.len(),
                i <= n,
                rxs@.len() == i,
                self.models() == with_models(old(self).models(), models@.take(i as int)),
                self.next_request_id() == old(self).next_request_id(),
                forall|k: int| 0 <= k < i ==> {
                    &&& registered(self.models(), #[trigger] models@[k].id@)
                    &&& receiver_channel(rxs@[k]) == self.channel_of(models@[k].id@)
                },
                forall|id: Seq<char>| #[trigger] registered(old(self).models(), id) ==>
                    registered(self.models(), id) && self.channel_of(id) == old(self).channel_of(id),
            decreases n - i,
        {
            let info = models[i].clone();
            let ghost before = *self;
            let rx = self.add_client(info);
            rxs.push(rx);
            proof {
                assert forall|k: int| 0 <= k < i + 1 implies {
                    &&& registered(self.models(), #[trigger] models@[k].id@)
                    &&& receiver_channel(rxs@[k]) == self.channel_of(models@[k].id@)
                } by {
                    if k < i {
                        assert(registered(before.models(), models@[k].id@));
                        lemma_with_model_keeps(before.models(), info, models@[k].id@);
                    }
                }
                assert forall|id: Seq<char>| #[trigger] registered(old(self).models(), id) implies
                    registered(self.models(), id) && self.channel_of(id) == old(self).channel_of(id) by {
                    assert(registered(before.models(), id));
                    lemma_with_model_keeps(before.models(), info, id);
                }
            }
            assert(models@.take(i + 1).drop_last() =~= models@.take(i as int));
            i = i + 1;
        }
        assert(models@.take(n as int) =~= models@);
        rxs
    }

    /// Whether the gateway considers itself healthy; it always does.
    pub fn check_healthz(&self) -> (healthy: bool)
        ensures
            healthy,
    {
        true
    }

    /// The registered models.
    pub fn list_models(&self) -> (r: Vec<ModelInfo>)
        ensures
            r@ == self.models(),
            self.wf() ==> unique_ids(r@),
    {
        let mut r: Vec<ModelInfo> = Vec::new();
        let n = self.clients.len();
        let mut i: usize = 0;
        while i < n
            invariant
                n == self.clients@.len(),
                i <= n,
                r@ =~= self.models().subrange(0, i as int),
            decreases n - i,
        {
            r.push(self.clients[i].model_info.clone());
            i = i + 1;
        }
        r
    }

    /// The request channel of the model `model_id`, if it is registered.
    pub fn sender_of(&self, model_id: &str) -> (r: Option<&async_channel::Sender<APIRequestWithResponse>>)
        requires
            self.wf(),
        ensures
            registered(self.models(), model_id@) ==> r == Some(&self.senders()[index_of(self.models(), model_id@)]),
            !registered(self.models(), model_id@) ==> r is None,
            r matches Some(tx) ==> sender_channel(*tx) == self.channel_of(model_id@),
    {
        match self.find(model_id) {
            Some(i) => Some(&self.clients[i].sender),
            None => None,
        }
    }

    proof fn lemma_remove_keeps_unique(m: Seq<ModelInfo>, i: int)
        requires
            unique_ids(m),
            0 <= i < m.len(),
        ensures
            unique_ids(m.remove(i)),
            !registered(m.remove(i), m[i].id@),
    {
        let r = m.remove(i);
        assert forall|a: int, b: int| 0 <= a < b < r.len() implies #[trigger] r[a].id@ != #[trigger] r[b].id@ by {
            let a2 = if a < i { a } else { a + 1 };
            let b2 = if b < i { b } else { b + 1 };
            assert(r[a] == m[a2]);
            assert(r[b] == m[b2]);
        }
        if registered(r, m[i].id@) {
            let k = choose|k: int| 0 <= k < r.len() && #[trigger] r[k].id@ == m[i].id@;
            let k2 = if k < i { k } else { k + 1 };
            assert(r[k] == m[k2]);
        }
    }

    fn remove_at(&mut self, i: usize)
        requires
            old(self).wf(),
            i < old(self).clients@.len(),
        ensures
            final(self).wf(),
            final(self).models() == old(self).models().remove(i as int),
            final(self).next_request_id() == old(self).next_request_id(),
            forall|id: Seq<char>| #[trigger] registered(final(self).models(), id) ==>
                final(self).channel_of(id) == old(self).channel_of(id),
    {
        let ghost old_models = self.models();
        let ghost old_self = *self;
        let _ = self.clients.remove(i);
        assert(self.models() =~= old_models.remove(i as int));
        proof {
            Self::lemma_remove_keeps_unique(old_models, i as int);
            let m = self.models();
            assert forall|id: Seq<char>| #[trigger] registered(m, id) implies
                self.channel_of(id) == old_self.channel_of(id) by {
                let k = index_of(m, id);
                let k2 = if k < i { k } else { k + 1 };
                assert(m[k] == old_models[k2]);
                lemma_index_of_unique(old_models, id, k2);
                assert(self.senders()[k] == old_self.senders()[k2]);
            }
        }
    }

    /// Drops the model `model_id` when its channel has no receiver left but the
    /// registry's own, `receivers` being the count of receivers on that channel.
    pub fn try_remove_client_with(&mut self, model_id: &str, receivers: usize)
        requires
            old(self).wf(),
        ensures
            final(self).wf(),
            final(self).models() == (if receivers <= 1 { without_model(old(self).models(), model_id@) } else { old(self).models() }),
            final(self).next_request_id() == old(self).next_request_id(),
            forall|id: Seq<char>| #[trigger] registered(final(self).models(), id) ==>
                final(self).channel_of(id) == old(self).channel_of(id),
    {
        match self.find(model_id) {
            Some(i) => {
                if receivers <= 1 {
                    self.remove_at(i);
                }
            },
            None => {},
        }
    }

    /// Drops the model `model_id` when no backend connection serves it any more.
    pub fn try_remove_client(&mut self, model_id: &str)
        requires
            old(self).wf(),
        ensures
            final(self).wf(),
            final(self).models() == old(self).models() || final(self).models() == without_model(old(self).models(), model_id@),
            final(self).next_request_id() == old(self).next_request_id(),
            forall|id: Seq<char>| #[trigger] registered(final(self).models(), id) ==>
                final(self).channel_of(id) == old(self).channel_of(id),
    {
        match self.find(model_id) {
            Some(i) => {
                let receivers = receiver_count(&self.clients[i].sender);
                self.try_remove_client_with(model_id, receivers);
            },
            None => {},
        }
    }

    /// Numbers a request for the model `model_id` and prepares it for that
    /// model's channel, `receivers` being the count of receivers on the channel
    /// and `timestamp` the current time. A model whose channel has no receiver
    /// left but the registry's own is dropped and reported as not found. The
    /// request counter wraps around, as an atomic `fetch_add` does.
    pub fn route_request(
        &mut self,
        model_id: String,
        request_body: APIRequestBody,
        response: tokio::sync::mpsc::Sender<APIResponse>,
        receivers: usize,
        timestamp: i64,
    ) -> (r: Result<APIRequestWithResponse, ClientManagerError>)
        requires
            old(self).wf(),
        ensures
            final(self).wf(),
            !registered(old(self).models(), model_id@) ==> {
                &&& r == Err::<APIRequestWithResponse, ClientManagerError>(ClientManagerError::ModelNotFound(model_id))
                &&& final(self).models() == old(self).models()
                &&& final(self).next_request_id() == old(self).next_request_id()
            },
            registered(old(self).models(), model_id@) && receivers <= 1 ==> {
                &&& r == Err::<APIRequestWithResponse, ClientManagerError>(ClientManagerError::ModelNotFound(model_id))
                &&& final(self).models() == without_model(old(self).models(), model_id@)
                &&& final(self).next_request_id() == old(self).next_request_id()
            },
            registered(old(self).models(), model_id@) && receivers > 1 ==> {
                &&& r == Ok::<APIRequestWithResponse, ClientManagerError>(APIRequestWithResponse {
                    body: APIRequest { id: old(self).next_request_id(), body: request_body },
                    response: response,
                    timestamp: timestamp,
                })
                &&& final(self).models() == old(self).models()
                &&& final(self).next_request_id() == old(self).next_request_id().wrapping_add(1)
            },
            forall|id: Seq<char>| #[trigger] registered(final(self).models(), id) ==>
                final(self).channel_of(id) == old(self).channel_of(id),
    {
        match self.find(model_id.as_str()) {
            None => Err(ClientManagerError::ModelNotFound(model_id)),
            Some(i) => {
                if receivers <= 1 {
                    self.remove_at(i);
                    Err(ClientManagerError::ModelNotFound(model_id))
                } else {
                    let id = self.req_count;
                    self.req_count = self.req_count.wrapping_add(1);
                    Ok(APIRequestWithResponse {
                        body: APIRequest { id, body: request_body },
                        response,
                        timestamp,
                    })
                }
            },
        }
    }

    /// Numbers a request for the model `model_id`, stamps it with the current
    /// time and prepares it for that model's channel (see `route_request`); the
    /// caller puts it on the channel that `sender_of` gives for the model.
    /// When the system clock cannot be read, the request is refused with an
    /// internal error and nothing changes.
    pub fn send_request(
        &mut self,
        model_id: String,
        request_body: APIRequestBody,
        response: tokio::sync::mpsc::Sender<APIResponse>,
    ) -> (r: Result<APIRequestWithResponse, ClientManagerError>)
        requires
            old(self).wf(),
        ensures
            final(self).wf(),
            !registered(old(self).models(), model_id@) ==> {
                &&& r == Err::<APIRequestWithResponse, ClientManagerError>(ClientManagerError::ModelNotFound(model_id))
                &&& final(self).models() == old(self).models()
                &&& final(self).next_request_id() == old(self).next_request_id()
            },
            registered(old(self).models(), model_id@) ==> match r {
                Err(ClientManagerError::ModelNotFound(m)) => {
                    &&& m == model_id
                    &&& final(self).models() == without_model(old(self).models(), model_id@)
                    &&& final(self).next_request_id() == old(self).next_request_id()
                },
                Err(ClientManagerError::InternalError) => {
                    &&& final(self).models() == old(self).models()
                    &&& final(self).next_request_id() == old(self).next_request_id()
                },
                Ok(req) => {
                    &&& req.body == APIRequest { id: old(self).next_request_id(), body: request_body }
                    &&& req.response == response
                    &&& req.timestamp >= 0
                    &&& final(self).models() == old(self).models()
                    &&& final(self).next_request_id() == old(self).next_request_id().wrapping_add(1)
                },
            },
            forall|id: Seq<char>| #[trigger] registered(final(self).models(), id) ==>
                final(self).channel_of(id) == old(self).channel_of(id),
    {
        match self.find(model_id.as_str()) {
            None => Err(ClientManagerError::ModelNotFound(model_id)),
            Some(i) => {
                let receivers = receiver_count(&self.clients[i].sender);
                if receivers <= 1 {
                    // The model is dropped; the time of a request that is not queued does not matter.
                    self.route_request(model_id, request_body, response, receivers, 0)
                } else {
                    match now_timestamp() {
                        Some(timestamp) => self.route_request(model_id, request_body, response, receivers, timestamp),
                        None => Err(ClientManagerError::InternalError),
                    }
                }
            },
        }
    }
}

/// A registered model stays registered, and unchanged, however often it is announced again.
pub proof fn lemma_announce_idempotent(m: Seq<ModelInfo>, info: ModelInfo)
    ensures
        registered(with_model(m, info), info.id@),
        with_model(with_model(m, info), info) == with_model(m, info),
        unique_ids(m) ==> unique_ids(with_model(m, info)),
{
    if !registered(m, info.id@) {
        let n = m.push(info);
        assert(n[m.len() as int].id@ == info.id@);
        if unique_ids(m) {
            assert forall|i: int, j: int| 0 <= i < j < n.len() implies #[trigger] n[i].id@ != #[trigger] n[j].id@ by {
                if j == m.len() {
                    assert(n[i] == m[i]);
                }
            }
        }
    }
}

/// Announcing a model keeps every registered model registered.
pub proof fn lemma_with_model_keeps(m: Seq<ModelInfo>, info: ModelInfo, id: Seq<char>)
    ensures
        registered(m, id) ==> registered(with_model(m, info), id),
{
    if registered(m, id) && !registered(m, info.id@) {
        let k = choose|k: int| 0 <= k < m.len() && #[trigger] m[k].id@ == id;
        assert(m.push(info)[k] == m[k]);
    }
}

/// In a list without two models of one identifier, the model with
/// identifier `id` sits at its only position.
pub proof fn lemma_index_of_unique(m: Seq<ModelInfo>, id: Seq<char>, i: int)
    requires
        unique_ids(m),
        0 <= i < m.len(),
        m[i].id@ == id,
    ensures
        registered(m, id),
        index_of(m, id) == i,
{
    assert(registered(m, id));
    let j = index_of(m, id);
    assert(m[j].id@ == id);
    if j < i {
        assert(m[j].id@ != m[i].id@);
    } else if i < j {
        assert(m[i].id@ != m[j].id@);
    }
}

/// After a backend announces its models, each of them is registered, and
/// every model registered before keeps its place.
pub proof fn lemma_announced_models_registered(m: Seq<ModelInfo>, s: Seq<ModelInfo>)
    ensures
        forall|i: int| 0 <= i < s.len() ==> registered(with_models(m, s), #[trigger] s[i].id@),
        m.len() <= with_models(m, s).len(),
        forall|i: int| 0 <= i < m.len() ==> #[trigger] with_models(m, s)[i] == m[i],
    decreases s.len(),
{
    if s.len() > 0 {
        let p = s.drop_last();
        lemma_announced_models_registered(m, p);
        let w = with_models(m, p);
        lemma_announce_idempotent(w, s.last());
        let w2 = with_models(m, s);
        assert forall|i: int| 0 <= i < s.len() implies registered(w2, #[trigger] s[i].id@) by {
            if i < s.len() - 1 {
                assert(s[i] == p[i]);
                let k = choose|k: int| 0 <= k < w.len() && #[trigger] w[k].id@ == p[i].id@;
                assert(w2[k] == w[k]);
            }
        }
    }
}

/// Once a model is dropped it is no longer registered, and the others stay registered.
pub proof fn lemma_drop_model(m: Seq<ModelInfo>, id: Seq<char>, other: Seq<char>)
    requires
        unique_ids(m),
    ensures
        !registered(without_model(m, id), id),
        unique_ids(without_model(m, id)),
        other != id ==> (registered(without_model(m, id), other) == registered(m, other)),
{
    if registered(m, id) {
        let i = index_of(m, id);
        ClientManager::lemma_remove_keeps_unique(m, i);
        let r = m.remove(i);
        if other != id {
            if registered(m, other) {
                let k = choose|k: int| 0 <= k < m.len() && #[trigger] m[k].id@ == other;
                assert(k != i);
                let k2 = if k < i { k } else { k - 1 };
                assert(r[k2] == m[k]);
            }
            if registered(r, other) {
                let k = choose|k: int| 0 <= k < r.len() && #[trigger] r[k].id@ == other;
                let k2 = if k < i { k } else { k + 1 };
                assert(r[k] == m[k2]);
            }
        }
    }
}

/// Request numbers increase over any run of queued requests: successive
/// successful requests get successive numbers (a refused request leaves the
/// counter as it was), so while the counter does not wrap, the numbers of a
/// run starting at `ids[0]` are `ids[0]`, `ids[0] + 1`, ..., and no two share one.
pub proof fn lemma_request_ids_increase(ids: Seq<usize>)
    requires
        forall|i: int| 1 <= i < ids.len() ==> #[trigger] ids[i] == ids[i - 1].wrapping_add(1),
        ids.len() > 0 ==> ids[0] + ids.len() <= usize::MAX + 1,
    ensures
        forall|i: int| 0 <= i < ids.len() ==> #[trigger] ids[i] == ids[0] + i,
        forall|i: int, j: int| 0 <= i < j < ids.len() ==> ids[i] < ids[j],
    decreases ids.len(),
{
    if ids.len() > 1 {
        let p = ids.drop_last();
        assert forall|i: int| 1 <= i < p.len() implies #[trigger] p[i] == p[i - 1].wrapping_add(1) by {
            assert(p[i] == ids[i] && p[i - 1] == ids[i - 1]);
        }
        lemma_request_ids_increase(p);
        let n = ids.len() - 1;
        assert(p[n - 1] == ids[0] + n - 1);
        assert(ids[n] == ids[n - 1].wrapping_add(1));
        assert forall|i: int| 0 <= i < ids.len() implies #[trigger] ids[i] == ids[0] + i by {
            if i < n {
                assert(ids[i] == p[i]);
            }
        }
    }
}

} // verus!
