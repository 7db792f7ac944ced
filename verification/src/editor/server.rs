//! Connection-level decisions of the editor server: which origins may open a
//! WebSocket, what a client message turns into, how connections get their ids and
//! which connections a reply or notification reaches.
use vstd::prelude::*;
use crate::editor::ids::{ClientId, RequestId};
use crate::editor::protocol::{EditorClientMessage, EditorRequest, EDITOR_PROTOCOL_VERSION};
use crate::text::{chars_of, decimal_chars, decimal_digits, has_prefix, starts_with, string_from_chars};

verus! {

/// Error codes the server itself answers with.
#[derive(Clone, Copy, Debug, PartialEq, Eq, Structural)]
pub enum EditorErrorCode {
    /// The message is not a valid editor message.
    InvalidRequest,
    /// The message uses another protocol version.
    UnsupportedProtocol,
    /// The renderer's request inbox is full.
    Busy,
}

/// Error response the server sends to the client without involving the renderer.
#[derive(Clone, Debug)]
pub struct EditorErrorReply {
    pub request_id: RequestId,
    pub code: EditorErrorCode,
    pub message: String,
}

/// A client request on its way to the renderer, tagged with its connection.
#[derive(Clone, Debug)]
pub struct EditorRequestEnvelope {
    pub client_id: ClientId,
    pub request_id: RequestId,
    pub request: EditorRequest,
}

/// What the server does with a decoded text message.
#[derive(Clone, Debug)]
pub enum ClientMessageOutcome {
    /// Answer the client with this error.
    Reply(EditorErrorReply),
    /// Pass the request to the renderer.
    Forward(EditorRequestEnvelope),
}

/// Request id used when a message could not be decoded.
pub open spec fn invalid_request_id() -> Seq<char> {
    "invalid"@
}

pub open spec fn invalid_message_text(error: Seq<char>) -> Seq<char> {
    "invalid editor message: "@ + error
}

pub open spec fn unsupported_protocol_text() -> Seq<char> {
    "expected editor protocol version "@ + decimal_digits(EDITOR_PROTOCOL_VERSION as nat)
}

pub open spec fn busy_text() -> Seq<char> {
    "render request inbox is full"@
}

/// `a` followed by the characters of `b`.
fn concat_text(a: &str, b: &Vec<char>) -> (s: String)
    ensures
        s@ == a@ + b@,
{
    let mut v = chars_of(a);
    let mut i: usize = 0;
    let ghost start = v@;
    while i < b.len()
        invariant
            i <= b.len(),
            v@ == start + b@.subrange(0, i as int),
        decreases b.len() - i,
    {
        v.push(b[i]);
        assert(v@ =~= start + b@.subrange(0, i + 1));
        i = i + 1;
    }
    assert(b@.subrange(0, b.len() as int) =~= b@);
    string_from_chars(&v)
}

/// Decides what a decoded text message becomes. A message that failed to decode
/// (`Err` with the decoder's description) is answered as an invalid request under
/// the id `"invalid"`; a message of another protocol version is answered as
/// unsupported under its own id; any other message is forwarded with its
/// connection id.
pub fn handle_parsed_message(client_id: ClientId, parsed: Result<EditorClientMessage, String>) -> (o:
    ClientMessageOutcome)
    ensures
        parsed matches Err(e) ==> (o matches ClientMessageOutcome::Reply(r) && r.request_id.0@
            == invalid_request_id() && r.code == EditorErrorCode::InvalidRequest && r.message@
            == invalid_message_text(e@)),
        parsed matches Ok(m) ==> (m.protocol_version != EDITOR_PROTOCOL_VERSION ==> (
        o matches ClientMessageOutcome::Reply(r) && r.request_id.0@ == m.request_id.0@ && r.code
            == EditorErrorCode::UnsupportedProtocol && r.message@ == unsupported_protocol_text())),
        parsed matches Ok(m) ==> (m.protocol_version == EDITOR_PROTOCOL_VERSION ==> (
        o matches ClientMessageOutcome::Forward(env) && env.client_id == client_id
            && env.request_id.0@ == m.request_id.0@ && env.request == m.request)),
{
    match parsed {
        Err(error) => {
            let e = chars_of(error.as_str());
            ClientMessageOutcome::Reply(
                EditorErrorReply {
                    request_id: RequestId::new("invalid".to_owned()),
                    code: EditorErrorCode::InvalidRequest,
                    message: concat_text("invalid editor message: ", &e),
                },
            )
        },
        Ok(message) => {
            if message.protocol_version != EDITOR_PROTOCOL_VERSION {
                let version = decimal_chars(EDITOR_PROTOCOL_VERSION as u64);
                ClientMessageOutcome::Reply(
                    EditorErrorReply {
                        request_id: message.request_id,
                        code: EditorErrorCode::UnsupportedProtocol,
                        message: concat_text("expected editor protocol version ", &version),
                    },
                )
            } else {
                ClientMessageOutcome::Forward(
                    EditorRequestEnvelope {
                        client_id,
                        request_id: message.request_id,
                        request: message.request,
                    },
                )
            }
        },
    }
}

/// The answer to a request the renderer's full inbox could not take.
pub fn busy_reply(request_id: RequestId) -> (r: EditorErrorReply)
    ensures
        r.request_id == request_id,
        r.code == EditorErrorCode::Busy,
        r.message@ == busy_text(),
{
    EditorErrorReply {
        request_id,
        code: EditorErrorCode::Busy,
        message: "render request inbox is full".to_owned(),
    }
}

/// The origins of the loopback development server.
pub open spec fn origin_allowed(origin: Option<Option<Seq<char>>>) -> bool {
    match origin {
        None => true,
        Some(None) => false,
        Some(Some(o)) => has_prefix(o, "http://127.0.0.1:"@) || has_prefix(o, "http://localhost:"@)
            || has_prefix(o, "http://[::1]:"@),
    }
}

/// Whether a WebSocket upgrade with this `Origin` header may proceed: `None` when
/// the header is absent (allowed), `Some(None)` when it is not valid text (refused),
/// otherwise allowed exactly for a loopback `http` origin.
pub fn origin_is_allowed(origin: Option<Option<&str>>) -> (r: bool)
    ensures
        r == origin_allowed(
            match origin {
                None => None,
                Some(None) => Some(None),
                Some(Some(o)) => Some(Some(o@)),
            },
        ),
{
    match origin {
        None => true,
        Some(None) => false,
        Some(Some(o)) => {
            let c = chars_of(o);
            starts_with(&c, "http://127.0.0.1:") || starts_with(&c, "http://localhost:") || starts_with(
                &c,
                "http://[::1]:",
            )
        },
    }
}

/// Hands out connection ids, starting at 1 and wrapping like an atomic counter.
pub struct ClientIdAllocator {
    next: u64,
}

pub open spec fn wrapping_next(n: u64) -> u64 {
    if n == u64::MAX {
        0
    } else {
        (n + 1) as u64
    }
}

impl ClientIdAllocator {
    pub closed spec fn next_id(self) -> u64 {
        self.next
    }

    pub fn new() -> (a: Self)
        ensures
            a.next_id() == 1,
    {
        ClientIdAllocator { next: 1 }
    }

    pub fn allocate(&mut self) -> (id: ClientId)
        ensures
            id.0 == old(self).next_id(),
            final(self).next_id() == wrapping_next(old(self).next_id()),
    {
        let id = ClientId(self.next);
        self.next = self.next.wrapping_add(1);
        id
    }
}

/// The id that the `k`-th call (counting from 0) of `allocate` on a fresh
/// allocator hands out.
pub open spec fn nth_allocated_id(k: nat) -> u64
    decreases k,
{
    if k == 0 {
        1
    } else {
        wrapping_next(nth_allocated_id((k - 1) as nat))
    }
}

proof fn lemma_nth_allocated_id(k: nat)
    requires
        k < u64::MAX,
    ensures
        nth_allocated_id(k) == k + 1,
    decreases k,
{
    if k > 0 {
        lemma_nth_allocated_id((k - 1) as nat);
    }
}

/// A fresh allocator hands out pairwise distinct ids in its first `u64::MAX`
/// calls: the `k`-th of them is `k + 1`.
pub proof fn lemma_allocated_ids_distinct(i: nat, j: nat)
    requires
        i < j < u64::MAX,
    ensures
        nth_allocated_id(i) == i + 1,
        nth_allocated_id(j) == j + 1,
        nth_allocated_id(i) != nth_allocated_id(j),
{
    lemma_nth_allocated_id(i);
    lemma_nth_allocated_id(j);
}

/// Where a notification goes.
#[derive(Clone, Copy, Debug, PartialEq, Eq, Structural)]
pub enum EditorNotificationTarget {
    Broadcast,
    Client(ClientId),
}

/// The open connections. They are held as a vector without duplicates rather than
/// a hash map keyed by the id: a broadcast hands the connections out as a sequence,
/// here in the order they connected, where a hash map's walk order is left
/// unspecified and its iteration would give `recipients` no exact result.
pub struct ClientRegistry {
    clients: Vec<ClientId>,
}

impl ClientRegistry {
    pub closed spec fn ids(self) -> Seq<ClientId> {
        self.clients@
    }

    pub closed spec fn wf(self) -> bool {
        self.clients@.no_duplicates()
    }

    pub fn new() -> (r: Self)
        ensures
            r.wf(),
            r.ids().len() == 0,
    {
        ClientRegistry { clients: Vec::new() }
    }

    fn position(&self, id: ClientId) -> (r: Option<usize>)
        ensures
            r matches Some(i) ==> i < self.ids().len() && self.ids()[i as int] == id,
            r is None ==> !self.ids().contains(id),
    {
        let mut i: usize = 0;
        while i < self.clients.len()
            invariant
                i <= self.clients@.len(),
                forall|k: int| 0 <= k < i ==> self.clients@[k] != id,
            decreases self.clients.len() - i,
        {
            if self.clients[i] == id {
                return Some(i);
            }
            i = i + 1;
        }
        None
    }

    /// Records a new connection.
    pub fn connect(&mut self, id: ClientId)
        requires
            old(self).wf(),
        ensures
            final(self).wf(),
            final(self).ids().to_set() == old(self).ids().to_set().insert(id),
    {
        if self.position(id).is_none() {
            let ghost before = self.clients@;
            self.clients.push(id);
            proof {
                assert forall|a: int, b: int| 0 <= a < b < self.clients@.len() implies self.clients@[a]
                    != self.clients@[b] by {
                    if b == before.len() {
                        assert(before[a] != id) by {
                            if before[a] == id {
                                assert(before.contains(id));
                            }
                        }
                    }
                }
                assert(self.clients@.to_set() =~= before.to_set().insert(id)) by {
                    assert forall|x: ClientId| self.clients@.to_set().contains(x) <==> before.to_set().insert(id).contains(x) by {
                        if self.clients@.contains(x) && x != id {
                            let k = choose|k: int| 0 <= k < self.clients@.len() && self.clients@[k] == x;
                            assert(before[k] == x);
                        }
                        if before.contains(x) {
                            let k = choose|k: int| 0 <= k < before.len() && before[k] == x;
                            assert(self.clients@[k] == x);
                        }
                        if x == id {
                            assert(self.clients@[before.len() as int] == id);
                        }
                    }
                }
            }
        } else {
            proof {
                assert(self.clients@.to_set() =~= self.clients@.to_set().insert(id));
            }
        }
    }

    /// Forgets a closed connection.
    pub fn disconnect(&mut self, id: ClientId)
        requires
            old(self).wf(),
        ensures
            final(self).wf(),
            final(self).ids().to_set() == old(self).ids().to_set().remove(id),
    {
        match self.position(id) {
            Some(i) => {
                let ghost before = self.clients@;
                self.clients.remove(i);
                proof {
                    let after = self.clients@;
                    assert(after =~= before.remove(i as int));
                    assert forall|a: int, b: int| 0 <= a < b < after.len() implies after[a] != after[b] by {
                        let a2 = if a < i { a } else { a + 1 };
                        let b2 = if b < i { b } else { b + 1 };
                        assert(after[a] == before[a2] && after[b] == before[b2]);
                    }
                    assert(after.to_set() =~= before.to_set().remove(id)) by {
                        assert forall|x: ClientId| after.to_set().contains(x) <==> before.to_set().remove(id).contains(x) by {
                            if after.contains(x) {
                                let k = choose|k: int| 0 <= k < after.len() && after[k] == x;
                                let k2 = if k < i { k } else { k + 1 };
                                assert(before[k2] == x);
                                assert(k2 != i);
                            }
                            if before.contains(x) && x != id {
                                let k = choose|k: int| 0 <= k < before.len() && before[k] == x;
                                assert(k != i);
                                let k2 = if k < i { k } else { k - 1 };
                                assert(after[k2] == x);
                            }
                        }
                    }
                }
            },
            None => {
                proof {
                    assert(self.clients@.to_set() =~= self.clients@.to_set().remove(id));
                }
            },
        }
    }

    /// The open connections a message for `target` is sent to: all of them for a
    /// broadcast, and the named one if it is still open.
    pub fn recipients(&self, target: EditorNotificationTarget) -> (r: Vec<ClientId>)
        ensures
            target matches EditorNotificationTarget::Broadcast ==> r@ == self.ids(),
            target matches EditorNotificationTarget::Client(id) ==> r@ == if self.ids().contains(id) {
                seq![id]
            } else {
                Seq::empty()
            },
    {
        match target {
            EditorNotificationTarget::Broadcast => self.clients.clone(),
            EditorNotificationTarget::Client(id) => {
                let mut r: Vec<ClientId> = Vec::new();
                if self.position(id).is_some() {
                    r.push(id);
                }
                proof {
                    if self.ids().contains(id) {
                        assert(r@ =~= seq![id]);
                    } else {
                        assert(r@ =~= Seq::<ClientId>::empty());
                    }
                }
                r
            },
        }
    }
}

/// Entry point of the editor server. It keeps no state: starting it checks the
/// configuration, then moves the network side onto a thread of its own.
#[derive(Clone, Copy, Debug)]
pub struct EditorServer;

pub open spec fn not_loopback_text() -> Seq<char> {
    "EditorServer only accepts loopback bind addresses"@
}

pub open spec fn missing_index_text(web_root: Seq<char>) -> Seq<char> {
    "EditorServer web root does not contain index.html: "@ + web_root
}

impl EditorServer {
    /// Whether the server may start: it binds loopback addresses only, and its web
    /// root (shown as `web_root`) must hold `index.html`. The address is checked
    /// first.
    pub fn check_start(bind_is_loopback: bool, web_root: &str, web_root_has_index: bool) -> (r: Result<(), String>)
        ensures
            !bind_is_loopback ==> (r matches Err(e) && e@ == not_loopback_text()),
            bind_is_loopback && !web_root_has_index ==> (r matches Err(e) && e@ == missing_index_text(web_root@)),
            bind_is_loopback && web_root_has_index ==> r is Ok,
    {
        if !bind_is_loopback {
            return Err("EditorServer only accepts loopback bind addresses".to_owned());
        }
        if !web_root_has_index {
            let root = chars_of(web_root);
            return Err(concat_text("EditorServer web root does not contain index.html: ", &root));
        }
        Ok(())
    }
}

/// Capacities of the two bounded queues of the editor bridge.
#[derive(Clone, Copy, Debug, PartialEq, Eq, Structural)]
pub struct EditorBridgeConfig {
    pub request_capacity: usize,
    pub notification_capacity: usize,
}

impl Default for EditorBridgeConfig {
    fn default() -> (c: Self)
        ensures
            c.request_capacity == 256,
            c.notification_capacity == 64,
    {
        EditorBridgeConfig { request_capacity: 256, notification_capacity: 64 }
    }
}

} // verus!
