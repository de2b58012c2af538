use vstd::prelude::*;

use crate::address_space::AddressSpace;
use crate::clock::now_millis;
use crate::continuation_point::{cp_valid, BrowseContinuationPoint, BrowseContinuationPointView};
use crate::node::{bytes_eq, IdentifierView, NodeId};
use crate::status::StatusCode;
use crate::subscriptions::{
    PublishResponse, Subscriptions, MAX_DEFAULT_PUBLISH_REQUEST_QUEUE_SIZE, PUBLISH_REQUEST_TIMEOUT,
};

verus! {

/// Default bound on the browse continuation points of one session.
pub const MAX_BROWSE_CONTINUATION_POINTS: usize = 20;

/// Session info holds information about a session created by CreateSession.
#[derive(Debug, Clone, Copy)]
pub struct SessionInfo {}

/// Diagnostics information for the session.
#[derive(Debug, Clone, Copy)]
pub struct SessionDiagnostics {}

impl SessionDiagnostics {
    pub fn new() -> (r: SessionDiagnostics) {
        SessionDiagnostics {}
    }
}

/// The server-wide settings that a session is made with.
#[derive(Debug, Clone, Copy)]
pub struct ServerState {
    pub max_publish_requests: usize,
    /// Default budget of a queued publish request, in milliseconds.
    pub publish_request_timeout: i64,
    pub max_browse_continuation_points: usize,
}

impl ServerState {
    /// The default settings.
    pub fn new() -> (r: ServerState)
        ensures
            r.max_publish_requests == MAX_DEFAULT_PUBLISH_REQUEST_QUEUE_SIZE,
            r.publish_request_timeout == PUBLISH_REQUEST_TIMEOUT,
            r.max_browse_continuation_points == MAX_BROWSE_CONTINUATION_POINTS,
    {
        ServerState {
            max_publish_requests: MAX_DEFAULT_PUBLISH_REQUEST_QUEUE_SIZE,
            publish_request_timeout: PUBLISH_REQUEST_TIMEOUT,
            max_browse_continuation_points: MAX_BROWSE_CONTINUATION_POINTS,
        }
    }
}

/// The state kept between a client and the server.
pub struct Session {
    /// Subscriptions and queued publish requests of the session
    pub subscriptions: Subscriptions,
    /// The session identifier
    pub session_id: NodeId,
    /// Flag to indicate the session should be terminated
    pub terminate_session: bool,
    /// Security policy
    pub security_policy_uri: String,
    /// Client's certificate
    pub client_certificate: Vec<u8>,
    /// Authentication token for the session
    pub authentication_token: NodeId,
    /// Session nonce
    pub session_nonce: Vec<u8>,
    /// Session timeout in milliseconds
    pub session_timeout: u64,
    /// Encoded user identity token, if any
    pub user_identity: Option<Vec<u8>>,
    /// Negotiated max request message size
    pub max_request_message_size: u32,
    /// Negotiated max response message size
    pub max_response_message_size: u32,
    /// Endpoint url for this session
    pub endpoint_url: String,
    /// Maximum number of continuation points
    pub max_browse_continuation_points: usize,
    /// Browse continuation points, oldest to newest
    pub browse_continuation_points: Vec<BrowseContinuationPoint>,
    /// Diagnostics associated with the session
    pub diagnostics: SessionDiagnostics,
    /// Whether the session has received an ActivateSession
    pub activated: bool,
    /// When the session was terminated, in milliseconds; meaningful once `terminated` is set
    pub terminated_at: i64,
    /// Whether the session is terminated
    pub terminated: bool,
    /// Last value handed out by `next_session_id`
    pub last_session_id: u32,
}

/// The views of a sequence of continuation points.
pub open spec fn cp_views(s: Seq<BrowseContinuationPoint>) -> Seq<BrowseContinuationPointView> {
    s.map_values(|c: BrowseContinuationPoint| c@)
}

/// The last `max` entries of `s`, or all of it when it is no longer.
pub open spec fn keep_newest<A>(s: Seq<A>, max: nat) -> Seq<A> {
    if s.len() > max {
        s.subrange(s.len() - max, s.len() as int)
    } else {
        s
    }
}

/// Whether some continuation point of `s` has the id `id`.
pub open spec fn has_cp(s: Seq<BrowseContinuationPointView>, id: Seq<u8>) -> bool {
    exists|i: int| 0 <= i < s.len() && (#[trigger] s[i]).id == id
}

/// `i` is the first position of `s` with the id `id`.
pub open spec fn first_cp(s: Seq<BrowseContinuationPointView>, id: Seq<u8>, i: int) -> bool {
    &&& 0 <= i < s.len()
    &&& s[i].id == id
    &&& forall|j: int| 0 <= j < i ==> (#[trigger] s[j]).id != id
}

/// Whether `id` is one of `ids`.
pub open spec fn in_ids(ids: Seq<Vec<u8>>, id: Seq<u8>) -> bool {
    exists|k: int| 0 <= k < ids.len() && (#[trigger] ids[k])@ == id
}

/// The continuation points of `s` whose id is not among `ids`.
pub open spec fn without_ids(s: Seq<BrowseContinuationPointView>, ids: Seq<Vec<u8>>) -> Seq<
    BrowseContinuationPointView,
> {
    s.filter(id_not_in(ids))
}

/// Holds of the continuation points that still match `nodes`.
pub open spec fn valid_in(nodes: Seq<crate::address_space::Node>) -> spec_fn(BrowseContinuationPointView) -> bool {
    |c: BrowseContinuationPointView| cp_valid(nodes, c)
}

/// Holds of the continuation points whose id is not `id`.
pub open spec fn id_differs(id: Seq<u8>) -> spec_fn(BrowseContinuationPointView) -> bool {
    |c: BrowseContinuationPointView| c.id != id
}

/// Holds of the continuation points whose id is not among `ids`.
pub open spec fn id_not_in(ids: Seq<Vec<u8>>) -> spec_fn(BrowseContinuationPointView) -> bool {
    |c: BrowseContinuationPointView| !in_ids(ids, c.id)
}

/// The termination flag and instant after a terminate request at `now`:
/// only the first request records its instant.
pub open spec fn after_terminate(terminated: bool, terminated_at: i64, now: i64) -> (bool, i64) {
    if terminated {
        (true, terminated_at)
    } else {
        (true, now)
    }
}

/// The four bytes of `n`, most significant first.
pub open spec fn token_bytes(n: u32) -> Seq<u8> {
    seq![(n >> 24u32) as u8, (n >> 16u32) as u8, (n >> 8u32) as u8, n as u8]
}

/// The authentication token of the session numbered `n`: a byte-string
/// identifier in namespace 1, so never equal to a numeric session id.
pub fn authentication_token_for(n: u32) -> (r: NodeId)
    ensures
        r@ == (1u16, IdentifierView::String(token_bytes(n))),
{
    let bytes: Vec<u8> = vec![(n >> 24u32) as u8, (n >> 16u32) as u8, (n >> 8u32) as u8, n as u8];
    proof {
        assert(bytes@ =~= token_bytes(n));
    }
    NodeId { namespace: 1, identifier: crate::node::Identifier::String(bytes) }
}

/// A session as it is made with `server_state`, apart from its ids: not
/// activated or terminated, with no certificate, nonce, identity, endpoint
/// or negotiated sizes yet, nothing queued, no subscriptions and no
/// continuation points.
pub open spec fn is_fresh(r: Session, server_state: ServerState) -> bool {
    &&& r.wf()
    &&& !r.activated
    &&& !r.terminated
    &&& !r.terminate_session
    &&& r.last_session_id == 0
    &&& r.security_policy_uri@ == Seq::<char>::empty()
    &&& r.client_certificate@.len() == 0
    &&& r.session_nonce@.len() == 0
    &&& r.session_timeout == 0
    &&& r.user_identity is None
    &&& r.max_request_message_size == 0
    &&& r.max_response_message_size == 0
    &&& r.endpoint_url@ == Seq::<char>::empty()
    &&& r.subscriptions.max_publish_requests == server_state.max_publish_requests
    &&& r.subscriptions.publish_request_timeout == server_state.publish_request_timeout
    &&& r.subscriptions.publish_request_queue@.len() == 0
    &&& r.subscriptions.subscriptions@.len() == 0
    &&& r.max_browse_continuation_points == server_state.max_browse_continuation_points
    &&& r.browse_continuation_points@.len() == 0
}

/// Whether `id` is among `ids`.
fn contains_id(ids: &[Vec<u8>], id: &Vec<u8>) -> (r: bool)
    ensures
        r == in_ids(ids@, id@),
{
    let mut k: usize = 0;
    while k < ids.len()
        invariant
            k <= ids@.len(),
            forall|j: int| 0 <= j < k ==> (#[trigger] ids@[j])@ != id@,
        decreases ids@.len() - k,
    {
        if bytes_eq(&ids[k], id) {
            return true;
        }
        k = k + 1;
    }
    false
}

impl Session {
    /// The session's continuation points, oldest first.
    pub open spec fn continuation_points(&self) -> Seq<BrowseContinuationPointView> {
        cp_views(self.browse_continuation_points@)
    }

    /// The publish queue is within its capacity and the continuation points
    /// within their bound.
    pub open spec fn wf(&self) -> bool {
        &&& self.subscriptions.wf()
        &&& self.browse_continuation_points@.len() <= self.max_browse_continuation_points
    }

    /// A fresh session made with the settings of `server_state`: not
    /// activated, not terminated, nothing queued and no continuation points.
    pub fn new(server_state: &ServerState) -> (r: Session)
        ensures
            is_fresh(r, *server_state),
            r.session_id@ == (0u16, IdentifierView::Numeric(0)),
            r.authentication_token@ == (1u16, IdentifierView::String(token_bytes(0))),
            r.authentication_token@ != r.session_id@,
    {
        Session {
            subscriptions: Subscriptions::new(
                server_state.max_publish_requests,
                server_state.publish_request_timeout,
            ),
            session_id: NodeId::null(),
            activated: false,
            terminate_session: false,
            terminated: false,
            terminated_at: now_millis(),
            client_certificate: Vec::new(),
            security_policy_uri: String::new(),
            authentication_token: authentication_token_for(0),
            session_nonce: Vec::new(),
            session_timeout: 0,
            user_identity: None,
            max_request_message_size: 0,
            max_response_message_size: 0,
            endpoint_url: String::new(),
            max_browse_continuation_points: server_state.max_browse_continuation_points,
            browse_continuation_points: Vec::new(),
            diagnostics: SessionDiagnostics::new(),
            last_session_id: 0,
        }
    }

    /// A fresh session with the default settings.
    pub fn new_no_certificate_store() -> (r: Session)
        ensures
            is_fresh(
                r,
                ServerState {
                    max_publish_requests: MAX_DEFAULT_PUBLISH_REQUEST_QUEUE_SIZE,
                    publish_request_timeout: PUBLISH_REQUEST_TIMEOUT,
                    max_browse_continuation_points: MAX_BROWSE_CONTINUATION_POINTS,
                },
            ),
            r.session_id@ == (0u16, IdentifierView::Numeric(0)),
            r.authentication_token@ == (1u16, IdentifierView::String(token_bytes(0))),
            r.authentication_token@ != r.session_id@,
    {
        let server_state = ServerState::new();
        Session::new(&server_state)
    }

    /// Marks the session terminated at `now`. Only the first call records its
    /// instant; later ones change nothing.
    pub fn terminate_at(&mut self, now: i64)
        ensures
            (final(self).terminated, final(self).terminated_at) == after_terminate(
                old(self).terminated,
                old(self).terminated_at,
                now,
            ),
            *final(self) == (Session {
                terminated: final(self).terminated,
                terminated_at: final(self).terminated_at,
                ..*old(self)
            }),
            final(self).wf() == old(self).wf(),
    {
        if !self.terminated {
            self.terminated = true;
            self.terminated_at = now;
        }
    }

    /// Marks the session terminated now. Once terminated, the session keeps
    /// the instant of its first termination.
    pub fn terminated(&mut self)
        ensures
            *final(self) == (Session {
                terminated: final(self).terminated,
                terminated_at: final(self).terminated_at,
                ..*old(self)
            }),
            final(self).terminated,
            old(self).terminated ==> final(self).terminated_at == old(self).terminated_at,
            final(self).wf() == old(self).wf(),
    {
        let now = now_millis();
        self.terminate_at(now);
    }

    /// The next session id: numeric, in namespace 1, one above the last.
    pub fn next_session_id(&mut self) -> (r: NodeId)
        requires
            old(self).last_session_id < u32::MAX,
        ensures
            *final(self) == (Session {
                last_session_id: final(self).last_session_id,
                ..*old(self)
            }),
            final(self).last_session_id == old(self).last_session_id + 1,
            r@ == (1u16, IdentifierView::Numeric(final(self).last_session_id as u64)),
            final(self).wf() == old(self).wf(),
    {
        self.last_session_id = self.last_session_id + 1;
        NodeId::new(1, self.last_session_id as u64)
    }

    /// The session's diagnostics, with no side effect.
    pub fn diagnostics(&self) -> (r: &SessionDiagnostics)
        ensures
            *r == self.diagnostics,
    {
        &self.diagnostics
    }

    /// Queues a publish request that arrived at `received_at`, or refuses it
    /// with `BadTooManyPublishRequests` when the queue is full.
    pub fn enqueue_publish_request(&mut self, request_id: u32, received_at: i64, timeout_hint: u32) -> (r:
        Result<(), StatusCode>)
        requires
            old(self).wf(),
        ensures
            *final(self) == (Session {
                subscriptions: final(self).subscriptions,
                ..*old(self)
            }),
            final(self).wf(),
            final(self).browse_continuation_points@ == old(self).browse_continuation_points@,
            final(self).max_browse_continuation_points == old(self).max_browse_continuation_points,
            final(self).subscriptions.subscriptions@ == old(self).subscriptions.subscriptions@,
            final(self).subscriptions.max_publish_requests == old(self).subscriptions.max_publish_requests,
            final(self).subscriptions.publish_request_timeout == old(self).subscriptions.publish_request_timeout,
            old(self).subscriptions.publish_request_queue@.len() >= old(self).subscriptions.max_publish_requests
                ==> r == Err::<(), StatusCode>(StatusCode::BadTooManyPublishRequests)
                && final(self).subscriptions.publish_request_queue@ == old(self).subscriptions.publish_request_queue@,
            old(self).subscriptions.publish_request_queue@.len() < old(self).subscriptions.max_publish_requests
                ==> r == Ok::<(), StatusCode>(())
                && final(self).subscriptions.publish_request_queue@ == old(self).subscriptions.publish_request_queue@.push(
                crate::subscriptions::PublishRequestEntry { request_id, received_at, timeout_hint },
            ),
    {
        self.subscriptions.enqueue_publish_request(request_id, received_at, timeout_hint)
    }

    /// Runs one timer cycle of the session's subscriptions at `now`; see
    /// `Subscriptions::tick`.
    pub fn tick_subscriptions(&mut self, now: i64) -> (r: Vec<PublishResponse>)
        requires
            old(self).wf(),
        ensures
            *final(self) == (Session {
                subscriptions: final(self).subscriptions,
                ..*old(self)
            }),
            final(self).subscriptions.max_publish_requests == old(self).subscriptions.max_publish_requests,
            final(self).subscriptions.publish_request_timeout == old(self).subscriptions.publish_request_timeout,
            final(self).wf(),
            final(self).browse_continuation_points@ == old(self).browse_continuation_points@,
            final(self).subscriptions.subscriptions@.len() == old(self).subscriptions.subscriptions@.len(),
            ({
                let live = crate::subscriptions::live_requests(
                    old(self).subscriptions.publish_request_queue@,
                    old(self).subscriptions.publish_request_timeout,
                    now,
                );
                let stale = crate::subscriptions::stale_requests(
                    old(self).subscriptions.publish_request_queue@,
                    old(self).subscriptions.publish_request_timeout,
                    now,
                );
                let served = r@.len() - stale.len();
                &&& stale.len() <= r@.len() <= stale.len() + live.len()
                &&& final(self).subscriptions.publish_request_queue@ == live.subrange(served, live.len() as int)
                &&& forall|i: int|
                    0 <= i < stale.len() ==> (#[trigger] r@[i])@ == crate::subscriptions::timeout_response(
                        stale[i].request_id,
                    )
                &&& forall|m: int|
                    0 <= m < served ==> (#[trigger] r@[stale.len() + m])@.request_id
                        == live[m].request_id && r@[stale.len() + m]@.status == StatusCode::Good
            }),
            (
                crate::subscriptions::sub_views(final(self).subscriptions.subscriptions@),
                final(self).subscriptions.publish_request_queue@,
                crate::subscriptions::response_views(r@),
            ) == crate::subscriptions::tick_spec(
                crate::subscriptions::sub_views(old(self).subscriptions.subscriptions@),
                old(self).subscriptions.publish_request_queue@,
                old(self).subscriptions.publish_request_timeout,
                now,
            ),
    {
        self.subscriptions.tick(now)
    }

    /// Removes the queued publish requests that are stale at `now` and
    /// answers each with a `BadTimeout` response, in queue order.
    pub fn expire_stale_publish_requests(&mut self, now: i64) -> (r: Vec<PublishResponse>)
        requires
            old(self).wf(),
        ensures
            *final(self) == (Session {
                subscriptions: final(self).subscriptions,
                ..*old(self)
            }),
            final(self).subscriptions.max_publish_requests == old(self).subscriptions.max_publish_requests,
            final(self).subscriptions.publish_request_timeout == old(self).subscriptions.publish_request_timeout,
            final(self).wf(),
            final(self).browse_continuation_points@ == old(self).browse_continuation_points@,
            final(self).subscriptions.subscriptions@ == old(self).subscriptions.subscriptions@,
            final(self).subscriptions.publish_request_queue@ == crate::subscriptions::live_requests(
                old(self).subscriptions.publish_request_queue@,
                old(self).subscriptions.publish_request_timeout,
                now,
            ),
            ({
                let stale = crate::subscriptions::stale_requests(
                    old(self).subscriptions.publish_request_queue@,
                    old(self).subscriptions.publish_request_timeout,
                    now,
                );
                &&& r@.len() == stale.len()
                &&& forall|i: int|
                    0 <= i < r@.len() ==> (#[trigger] r@[i])@ == crate::subscriptions::timeout_response(
                        stale[i].request_id,
                    )
            }),
    {
        self.subscriptions.expire_stale_publish_requests(now)
    }

    /// Appends a continuation point; while the store holds more than its
    /// bound, the oldest entries are evicted first.
    pub fn add_browse_continuation_point(&mut self, continuation_point: BrowseContinuationPoint)
        requires
            old(self).wf(),
        ensures
            *final(self) == (Session {
                browse_continuation_points: final(self).browse_continuation_points,
                ..*old(self)
            }),
            final(self).wf(),
            final(self).max_browse_continuation_points == old(self).max_browse_continuation_points,
            final(self).continuation_points() == keep_newest(
                old(self).continuation_points().push(continuation_point@),
                old(self).max_browse_continuation_points as nat,
            ),
            final(self).subscriptions == old(self).subscriptions,
    {
        let ghost s = old(self).browse_continuation_points@.push(continuation_point);
        self.browse_continuation_points.push(continuation_point);
        let ghost mut k: int = 0;
        while self.browse_continuation_points.len() > self.max_browse_continuation_points
            invariant
                *self == (Session {
                    browse_continuation_points: self.browse_continuation_points,
                    ..*old(self)
                }),
                s.len() <= old(self).max_browse_continuation_points + 1,
                0 <= k <= s.len(),
                self.browse_continuation_points@ == s.subrange(k, s.len() as int),
                k > 0 ==> s.len() - k >= self.max_browse_continuation_points,
            decreases self.browse_continuation_points@.len(),
        {
            let _ = self.browse_continuation_points.remove(0);
            proof {
                k = k + 1;
                assert(self.browse_continuation_points@ =~= s.subrange(k, s.len() as int));
            }
        }
        proof {
            let m = self.max_browse_continuation_points as nat;
            assert(self.browse_continuation_points@ == keep_newest(s, m));
            assert(cp_views(s) =~= old(self).continuation_points().push(continuation_point@));
            assert(cp_views(keep_newest(s, m)) =~= keep_newest(cp_views(s), m));
        }
    }

    /// A copy of the first continuation point with the id `id`, or `None`
    /// when the store holds none.
    pub fn find_browse_continuation_point(&self, id: &Vec<u8>) -> (r: Option<BrowseContinuationPoint>)
        ensures
            r is None <==> !has_cp(self.continuation_points(), id@),
            r matches Some(c) ==> exists|i: int|
                first_cp(self.continuation_points(), id@, i) && c@ == self.continuation_points()[i],
    {
        let mut i: usize = 0;
        while i < self.browse_continuation_points.len()
            invariant
                i <= self.browse_continuation_points@.len(),
                forall|j: int| 0 <= j < i ==> (#[trigger] self.browse_continuation_points@[j]).id@ != id@,
            decreases self.browse_continuation_points@.len() - i,
        {
            if bytes_eq(&self.browse_continuation_points[i].id, id) {
                let c = self.browse_continuation_points[i].copy();
                assert(first_cp(self.continuation_points(), id@, i as int));
                return Some(c);
            }
            i = i + 1;
        }
        None
    }
    /// Keeps only the continuation points that still match `address_space`.
    pub fn remove_expired_browse_continuation_points(&mut self, address_space: &AddressSpace)
        requires
            old(self).wf(),
        ensures
            *final(self) == (Session {
                browse_continuation_points: final(self).browse_continuation_points,
                ..*old(self)
            }),
            final(self).wf(),
            final(self).max_browse_continuation_points == old(self).max_browse_continuation_points,
            final(self).subscriptions == old(self).subscriptions,
            final(self).continuation_points() == old(self).continuation_points().filter(valid_in(address_space.nodes@)),
    {
        let ghost old_cps = self.continuation_points();
        let ghost p = valid_in(address_space.nodes@);
        let mut kept: Vec<BrowseContinuationPoint> = Vec::new();
        let mut i: usize = 0;
        while i < self.browse_continuation_points.len()
            invariant
                p == valid_in(address_space.nodes@),
                self.continuation_points() == old_cps,
                self.browse_continuation_points@.len() == old_cps.len(),
                i <= old_cps.len(),
                cp_views(kept@) == old_cps.subrange(0, i as int).filter(p),
            decreases old_cps.len() - i,
        {
            let keep = self.browse_continuation_points[i].is_valid_browse_continuation_point(address_space);
            proof {
                assert(old_cps.subrange(0, i + 1).drop_last() =~= old_cps.subrange(0, i as int));
                assert(old_cps.subrange(0, i + 1).last() == self.browse_continuation_points@[i as int]@);
                assert(keep == p(self.browse_continuation_points@[i as int]@));
                reveal(Seq::filter);
            }
            if keep {
                let c = self.browse_continuation_points[i].copy();
                let ghost before = kept@;
                kept.push(c);
                assert(cp_views(kept@) =~= cp_views(before).push(c@));
            }
            i = i + 1;
        }
        proof {
            assert(old_cps.subrange(0, i as int) =~= old_cps);
            old_cps.lemma_filter_len(p);
        }
        self.browse_continuation_points = kept;
    }

    /// Removes every continuation point with the id `continuation_point_id`.
    pub fn remove_browse_continuation_point(&mut self, continuation_point_id: &Vec<u8>)
        requires
            old(self).wf(),
        ensures
            *final(self) == (Session {
                browse_continuation_points: final(self).browse_continuation_points,
                ..*old(self)
            }),
            final(self).wf(),
            final(self).max_browse_continuation_points == old(self).max_browse_continuation_points,
            final(self).subscriptions == old(self).subscriptions,
            final(self).continuation_points() == old(self).continuation_points().filter(id_differs(continuation_point_id@)),
    {
        let ghost old_cps = self.continuation_points();
        let ghost p = id_differs(continuation_point_id@);
        let mut kept: Vec<BrowseContinuationPoint> = Vec::new();
        let mut i: usize = 0;
        while i < self.browse_continuation_points.len()
            invariant
                p == id_differs(continuation_point_id@),
                self.continuation_points() == old_cps,
                self.browse_continuation_points@.len() == old_cps.len(),
                i <= old_cps.len(),
                cp_views(kept@) == old_cps.subrange(0, i as int).filter(p),
            decreases old_cps.len() - i,
        {
            let keep = !bytes_eq(&self.browse_continuation_points[i].id, continuation_point_id);
            proof {
                assert(old_cps.subrange(0, i + 1).drop_last() =~= old_cps.subrange(0, i as int));
                assert(old_cps.subrange(0, i + 1).last() == self.browse_continuation_points@[i as int]@);
                assert(keep == (self.browse_continuation_points@[i as int].id@ != continuation_point_id@));
                assert(keep == (self.browse_continuation_points@[i as int]@.id != continuation_point_id@));
                assert(keep == p(self.browse_continuation_points@[i as int]@));
                reveal(Seq::filter);
            }
            if keep {
                let c = self.browse_continuation_points[i].copy();
                let ghost before = kept@;
                kept.push(c);
                assert(cp_views(kept@) =~= cp_views(before).push(c@));
            }
            i = i + 1;
        }
        proof {
            assert(old_cps.subrange(0, i as int) =~= old_cps);
            old_cps.lemma_filter_len(p);
        }
        self.browse_continuation_points = kept;
    }

    /// Removes every continuation point whose id is among `continuation_points`.
    pub fn remove_browse_continuation_points(&mut self, continuation_points: &[Vec<u8>])
        requires
            old(self).wf(),
        ensures
            *final(self) == (Session {
                browse_continuation_points: final(self).browse_continuation_points,
                ..*old(self)
            }),
            final(self).wf(),
            final(self).max_browse_continuation_points == old(self).max_browse_continuation_points,
            final(self).subscriptions == old(self).subscriptions,
            final(self).continuation_points() == without_ids(
                old(self).continuation_points(),
                continuation_points@,
            ),
    {
        let ghost old_cps = self.continuation_points();
        let ghost p = id_not_in(continuation_points@);
        let mut kept: Vec<BrowseContinuationPoint> = Vec::new();
        let mut i: usize = 0;
        while i < self.browse_continuation_points.len()
            invariant
                p == id_not_in(continuation_points@),
                self.continuation_points() == old_cps,
                self.browse_continuation_points@.len() == old_cps.len(),
                i <= old_cps.len(),
                cp_views(kept@) == old_cps.subrange(0, i as int).filter(p),
            decreases old_cps.len() - i,
        {
            let keep = !contains_id(continuation_points, &self.browse_continuation_points[i].id);
            proof {
                assert(old_cps.subrange(0, i + 1).drop_last() =~= old_cps.subrange(0, i as int));
                assert(old_cps.subrange(0, i + 1).last() == self.browse_continuation_points@[i as int]@);
                assert(keep == p(self.browse_continuation_points@[i as int]@));
                reveal(Seq::filter);
            }
            if keep {
                let c = self.browse_continuation_points[i].copy();
                let ghost before = kept@;
                kept.push(c);
                assert(cp_views(kept@) =~= cp_views(before).push(c@));
            }
            i = i + 1;
        }
        proof {
            assert(old_cps.subrange(0, i as int) =~= old_cps);
            old_cps.lemma_filter_len(p);
        }
        self.browse_continuation_points = kept;
    }
}

} // verus!

verus! {

/// Adding to a store of at most `max` continuation points leaves at most
/// `max`; the newest is kept, and when the store was full its oldest entry
/// is the one evicted.
pub proof fn lemma_add_keeps_bound(
    s: Seq<BrowseContinuationPointView>,
    cp: BrowseContinuationPointView,
    max: nat,
)
    requires
        s.len() <= max,
        max > 0,
    ensures
        keep_newest(s.push(cp), max).len() <= max,
        keep_newest(s.push(cp), max).last() == cp,
        s.len() == max ==> keep_newest(s.push(cp), max) == s.drop_first().push(cp),
        s.len() < max ==> keep_newest(s.push(cp), max) == s.push(cp),
{
    if s.len() == max {
        assert(keep_newest(s.push(cp), max) =~= s.drop_first().push(cp));
    }
}

/// After the ids `ids` are removed, no continuation point with one of them is
/// found, and an id outside `ids` is found exactly when it was found before.
pub proof fn lemma_remove_many_then_find(
    s: Seq<BrowseContinuationPointView>,
    ids: Seq<Vec<u8>>,
    id: Seq<u8>,
)
    ensures
        in_ids(ids, id) ==> !has_cp(without_ids(s, ids), id),
        !in_ids(ids, id) ==> has_cp(without_ids(s, ids), id) == has_cp(s, id),
{
    let p = id_not_in(ids);
    let f = without_ids(s, ids);
    if in_ids(ids, id) {
        assert forall|i: int| 0 <= i < f.len() implies (#[trigger] f[i]).id != id by {
            s.lemma_filter_pred(p, i);
            assert(p(f[i]));
        }
    } else {
        if has_cp(s, id) {
            let i = choose|i: int| 0 <= i < s.len() && (#[trigger] s[i]).id == id;
            assert(p(s[i]));
            s.lemma_filter_contains(p, i);
            let j = choose|j: int| 0 <= j < f.len() && f[j] == s[i];
            assert(f[j].id == id);
        }
        if has_cp(f, id) {
            let j = choose|j: int| 0 <= j < f.len() && (#[trigger] f[j]).id == id;
            assert(f.contains(f[j]));
            s.lemma_filter_contains_rev(p, f[j]);
            assert(s.contains(f[j]));
            let i = choose|i: int| 0 <= i < s.len() && s[i] == f[j];
            assert(s[i].id == id);
        }
    }
}

/// Terminating a session twice leaves the instant of the first termination.
pub proof fn lemma_terminate_idempotent(terminated: bool, terminated_at: i64, t1: i64, t2: i64)
    ensures
        ({
            let first = after_terminate(terminated, terminated_at, t1);
            &&& after_terminate(first.0, first.1, t2) == first
            &&& !terminated ==> first.1 == t1
        }),
{
}

} // verus!

verus! {

/// The continuation points of `s` after removing the ids of `ids` one at a
/// time, first to last.
pub open spec fn remove_each(s: Seq<BrowseContinuationPointView>, ids: Seq<Vec<u8>>) -> Seq<
    BrowseContinuationPointView,
>
    decreases ids.len(),
{
    if ids.len() == 0 {
        s
    } else {
        remove_each(s, ids.drop_last()).filter(id_differs(ids.last()@))
    }
}

/// Removing a list of ids at once leaves the same continuation points, in
/// the same order, as removing them one at a time.
pub proof fn lemma_remove_many_one_by_one(s: Seq<BrowseContinuationPointView>, ids: Seq<Vec<u8>>)
    ensures
        without_ids(s, ids) == remove_each(s, ids),
    decreases ids.len(),
{
    if ids.len() == 0 {
        crate::seq_filter::lemma_filter_all(s, id_not_in(ids));
    } else {
        let rest = ids.drop_last();
        lemma_remove_many_one_by_one(s, rest);
        assert forall|x: BrowseContinuationPointView| #[trigger] id_not_in(ids)(x) == (id_not_in(
            rest,
        )(x) && id_differs(ids.last()@)(x)) by {
            if in_ids(ids, x.id) {
                let k = choose|k: int| 0 <= k < ids.len() && (#[trigger] ids[k])@ == x.id;
                if k < ids.len() - 1 {
                    assert(rest[k] == ids[k]);
                }
            }
            if in_ids(rest, x.id) {
                let k = choose|k: int| 0 <= k < rest.len() && (#[trigger] rest[k])@ == x.id;
                assert(ids[k] == rest[k]);
            }
            if x.id == ids.last()@ {
                assert(ids[ids.len() - 1]@ == x.id);
            }
        }
        crate::seq_filter::lemma_filter_filter(
            s,
            id_not_in(rest),
            id_differs(ids.last()@),
            id_not_in(ids),
        );
    }
}

/// Removing two lists that hold the same ids, whatever their order or
/// duplicates, leaves the same continuation points.
pub proof fn lemma_remove_many_same_ids(
    s: Seq<BrowseContinuationPointView>,
    a: Seq<Vec<u8>>,
    b: Seq<Vec<u8>>,
)
    requires
        forall|id: Seq<u8>| #[trigger] in_ids(a, id) == in_ids(b, id),
    ensures
        without_ids(s, a) == without_ids(s, b),
{
    assert(id_not_in(a) =~= id_not_in(b));
}

} // verus!
