use vstd::prelude::*;

use crate::node::copy_vec;
use crate::status::StatusCode;

verus! {

/// Largest number of publish requests a session queues by default.
pub const MAX_DEFAULT_PUBLISH_REQUEST_QUEUE_SIZE: usize = 100;
/// Default budget, in milliseconds, of a queued publish request.
pub const PUBLISH_REQUEST_TIMEOUT: i64 = 30000;

/// The state of a subscription.
#[derive(Debug, Clone, Copy, PartialEq, Eq, Structural)]
pub enum SubscriptionState {
    Creating,
    Normal,
    Late,
    KeepAlive,
    Closed,
}

/// A publish request waiting for notifications.
#[derive(Debug, Clone, Copy, PartialEq, Eq, Structural)]
pub struct PublishRequestEntry {
    pub request_id: u32,
    /// Arrival time, in milliseconds.
    pub received_at: i64,
    /// The request's own budget in milliseconds; 0 means the server default.
    pub timeout_hint: u32,
}

/// The answer to one publish request.
#[derive(Debug)]
pub struct PublishResponse {
    pub request_id: u32,
    /// The subscription served; 0 for a timeout.
    pub subscription_id: u32,
    pub notifications: Vec<u32>,
    pub status: StatusCode,
}

/// What a publish response stands for.
pub struct PublishResponseView {
    pub request_id: u32,
    pub subscription_id: u32,
    pub notifications: Seq<u32>,
    pub status: StatusCode,
}

impl View for PublishResponse {
    type V = PublishResponseView;

    open spec fn view(&self) -> PublishResponseView {
        PublishResponseView {
            request_id: self.request_id,
            subscription_id: self.subscription_id,
            notifications: self.notifications@,
            status: self.status,
        }
    }
}

/// The response that resolves a request whose budget ran out.
pub open spec fn timeout_response(request_id: u32) -> PublishResponseView {
    PublishResponseView {
        request_id,
        subscription_id: 0,
        notifications: Seq::empty(),
        status: StatusCode::BadTimeout,
    }
}

/// The budget of a request: its own hint, or the default where it gave none.
pub open spec fn budget(e: PublishRequestEntry, default_timeout: i64) -> int {
    if e.timeout_hint > 0 {
        e.timeout_hint as int
    } else {
        default_timeout as int
    }
}

/// A request is stale at `now` once its age exceeds its budget.
pub open spec fn is_stale(e: PublishRequestEntry, default_timeout: i64, now: i64) -> bool {
    now as int - e.received_at as int > budget(e, default_timeout)
}

/// The requests of `q` that are still within budget at `now`, in queue order.
pub open spec fn live_requests(q: Seq<PublishRequestEntry>, default_timeout: i64, now: i64) -> Seq<
    PublishRequestEntry,
> {
    q.filter(|e: PublishRequestEntry| !is_stale(e, default_timeout, now))
}

/// The requests of `q` that are stale at `now`, in queue order.
pub open spec fn stale_requests(q: Seq<PublishRequestEntry>, default_timeout: i64, now: i64) -> Seq<
    PublishRequestEntry,
> {
    q.filter(|e: PublishRequestEntry| is_stale(e, default_timeout, now))
}

/// A standing request for notifications, with its keep-alive and lifetime counters.
#[derive(Debug)]
pub struct Subscription {
    pub subscription_id: u32,
    pub state: SubscriptionState,
    /// Cycles without data after which a keep-alive is due.
    pub max_keep_alive_count: u32,
    /// Cycles without a publish request after which the subscription closes.
    pub max_lifetime_count: u32,
    pub keep_alive_counter: u32,
    pub lifetime_counter: u32,
    /// Notifications waiting to be sent, oldest first.
    pub notifications: Vec<u32>,
}

/// What a subscription stands for.
pub struct SubscriptionView {
    pub subscription_id: u32,
    pub state: SubscriptionState,
    pub max_keep_alive_count: u32,
    pub max_lifetime_count: u32,
    pub keep_alive_counter: u32,
    pub lifetime_counter: u32,
    pub notifications: Seq<u32>,
}

impl View for Subscription {
    type V = SubscriptionView;

    open spec fn view(&self) -> SubscriptionView {
        SubscriptionView {
            subscription_id: self.subscription_id,
            state: self.state,
            max_keep_alive_count: self.max_keep_alive_count,
            max_lifetime_count: self.max_lifetime_count,
            keep_alive_counter: self.keep_alive_counter,
            lifetime_counter: self.lifetime_counter,
            notifications: self.notifications@,
        }
    }
}

/// One more, stopping at the largest `u32`.
pub open spec fn bump(c: u32) -> u32 {
    if c < u32::MAX {
        (c + 1) as u32
    } else {
        c
    }
}

/// A subscription has something to send: notifications, or a keep-alive that is due.
pub open spec fn is_ready(s: SubscriptionView) -> bool {
    s.state != SubscriptionState::Closed && (s.notifications.len() > 0 || bump(s.keep_alive_counter)
        >= s.max_keep_alive_count)
}

/// The subscription after one cycle, given whether a publish request was there to serve it.
pub open spec fn step(s: SubscriptionView, has_request: bool) -> SubscriptionView {
    if s.state == SubscriptionState::Closed {
        s
    } else if is_ready(s) && has_request {
        SubscriptionView {
            state: SubscriptionState::Normal,
            keep_alive_counter: 0,
            lifetime_counter: 0,
            notifications: Seq::empty(),
            ..s
        }
    } else if is_ready(s) {
        SubscriptionView {
            state: if bump(s.lifetime_counter) >= s.max_lifetime_count {
                SubscriptionState::Closed
            } else {
                SubscriptionState::Late
            },
            lifetime_counter: bump(s.lifetime_counter),
            ..s
        }
    } else {
        SubscriptionView {
            state: if s.state == SubscriptionState::Creating {
                SubscriptionState::Normal
            } else {
                s.state
            },
            keep_alive_counter: bump(s.keep_alive_counter),
            ..s
        }
    }
}

/// The response that a ready subscription sends to request `request_id`.
pub open spec fn data_response(s: SubscriptionView, request_id: u32) -> PublishResponseView {
    PublishResponseView {
        request_id,
        subscription_id: s.subscription_id,
        notifications: s.notifications,
        status: StatusCode::Good,
    }
}

impl Subscription {
    /// A new subscription with nothing pending, in state `Creating`.
    pub fn new(subscription_id: u32, max_keep_alive_count: u32, max_lifetime_count: u32) -> (r:
        Subscription)
        ensures
            r@ == (SubscriptionView {
                subscription_id,
                state: SubscriptionState::Creating,
                max_keep_alive_count,
                max_lifetime_count,
                keep_alive_counter: 0,
                lifetime_counter: 0,
                notifications: Seq::empty(),
            }),
    {
        Subscription {
            subscription_id,
            state: SubscriptionState::Creating,
            max_keep_alive_count,
            max_lifetime_count,
            keep_alive_counter: 0,
            lifetime_counter: 0,
            notifications: Vec::new(),
        }
    }

    /// Queues a notification from a monitored item.
    pub fn add_notification(&mut self, value: u32)
        ensures
            final(self)@ == (SubscriptionView {
                notifications: old(self)@.notifications.push(value),
                ..old(self)@
            }),
    {
        self.notifications.push(value);
    }
}

/// The views of a sequence of subscriptions.
pub open spec fn sub_views(s: Seq<Subscription>) -> Seq<SubscriptionView> {
    s.map_values(|x: Subscription| x@)
}

/// The views of a sequence of publish responses.
pub open spec fn response_views(s: Seq<PublishResponse>) -> Seq<PublishResponseView> {
    s.map_values(|x: PublishResponse| x@)
}

/// Which subscriptions are late.
pub open spec fn late_flags(s: Seq<SubscriptionView>) -> Seq<bool> {
    s.map_values(|x: SubscriptionView| x.state == SubscriptionState::Late)
}

/// One cycle of subscription `s` against queue `q`: the subscription after
/// it, the queue after it, and the response sent, if any.
pub open spec fn cycle(s: SubscriptionView, q: Seq<PublishRequestEntry>) -> (
    SubscriptionView,
    Seq<PublishRequestEntry>,
    Option<PublishResponseView>,
) {
    if is_ready(s) && q.len() > 0 {
        (step(s, true), q.drop_first(), Some(data_response(s, q[0].request_id)))
    } else {
        (step(s, q.len() > 0), q, None)
    }
}

/// The first `j` subscriptions cycled in order, those with
/// `late[k] == want_late` only: the subscriptions, the queue and the
/// responses after them.
pub open spec fn run_pass(
    subs: Seq<SubscriptionView>,
    late: Seq<bool>,
    want_late: bool,
    q: Seq<PublishRequestEntry>,
    j: nat,
) -> (Seq<SubscriptionView>, Seq<PublishRequestEntry>, Seq<PublishResponseView>)
    decreases j,
{
    if j == 0 {
        (subs, q, Seq::empty())
    } else {
        let (ss, qq, rs) = run_pass(subs, late, want_late, q, (j - 1) as nat);
        if late[j - 1] == want_late {
            let (s2, q2, r) = cycle(ss[j - 1], qq);
            (
                ss.update(j - 1, s2),
                q2,
                match r {
                    Some(x) => rs.push(x),
                    None => rs,
                },
            )
        } else {
            (ss, qq, rs)
        }
    }
}

/// The `BadTimeout` responses to the requests `stale`, in order.
pub open spec fn timeout_responses(stale: Seq<PublishRequestEntry>) -> Seq<PublishResponseView> {
    stale.map_values(|e: PublishRequestEntry| timeout_response(e.request_id))
}

/// One timer cycle at `now` over subscriptions `subs` and queue `q`: stale
/// requests time out, then the late subscriptions are cycled, then the
/// others. The subscriptions, the queue and the responses after it.
pub open spec fn tick_spec(
    subs: Seq<SubscriptionView>,
    q: Seq<PublishRequestEntry>,
    default_timeout: i64,
    now: i64,
) -> (Seq<SubscriptionView>, Seq<PublishRequestEntry>, Seq<PublishResponseView>) {
    let late = late_flags(subs);
    let first = run_pass(subs, late, true, live_requests(q, default_timeout, now), subs.len());
    let second = run_pass(first.0, late, false, first.1, subs.len());
    (second.0, second.1, timeout_responses(stale_requests(q, default_timeout, now)) + first.2 + second.2)
}

/// The publish-request queue and the subscriptions of one session.
pub struct Subscriptions {
    pub max_publish_requests: usize,
    /// Default budget of a request, in milliseconds.
    pub publish_request_timeout: i64,
    /// Queued requests, oldest first.
    pub publish_request_queue: Vec<PublishRequestEntry>,
    pub subscriptions: Vec<Subscription>,
}

impl Subscriptions {
    /// The queue never holds more than its capacity.
    pub open spec fn wf(&self) -> bool {
        self.publish_request_queue@.len() <= self.max_publish_requests
    }

    /// An empty queue of capacity `max_publish_requests` and no subscriptions.
    pub fn new(max_publish_requests: usize, publish_request_timeout: i64) -> (r: Subscriptions)
        ensures
            r.wf(),
            r.max_publish_requests == max_publish_requests,
            r.publish_request_timeout == publish_request_timeout,
            r.publish_request_queue@.len() == 0,
            r.subscriptions@.len() == 0,
    {
        Subscriptions {
            max_publish_requests,
            publish_request_timeout,
            publish_request_queue: Vec::new(),
            subscriptions: Vec::new(),
        }
    }

    /// Adds a subscription after the existing ones.
    pub fn add_subscription(&mut self, subscription: Subscription)
        ensures
            final(self).subscriptions@ == old(self).subscriptions@.push(subscription),
            final(self).publish_request_queue@ == old(self).publish_request_queue@,
            final(self).max_publish_requests == old(self).max_publish_requests,
            final(self).publish_request_timeout == old(self).publish_request_timeout,
    {
        self.subscriptions.push(subscription);
    }

    /// Appends a request to the tail of the queue, or refuses it with
    /// `BadTooManyPublishRequests` when the queue is full.
    pub fn enqueue_publish_request(&mut self, request_id: u32, received_at: i64, timeout_hint: u32) -> (r:
        Result<(), StatusCode>)
        requires
            old(self).wf(),
        ensures
            final(self).wf(),
            final(self).max_publish_requests == old(self).max_publish_requests,
            final(self).publish_request_timeout == old(self).publish_request_timeout,
            final(self).subscriptions@ == old(self).subscriptions@,
            old(self).publish_request_queue@.len() >= old(self).max_publish_requests ==> r == Err::<
                (),
                StatusCode,
            >(StatusCode::BadTooManyPublishRequests) && final(self).publish_request_queue@ == old(
                self,
            ).publish_request_queue@,
            old(self).publish_request_queue@.len() < old(self).max_publish_requests ==> r == Ok::<
                (),
                StatusCode,
            >(()) && final(self).publish_request_queue@ == old(self).publish_request_queue@.push(
                PublishRequestEntry { request_id, received_at, timeout_hint },
            ),
    {
        if self.publish_request_queue.len() >= self.max_publish_requests {
            Err(StatusCode::BadTooManyPublishRequests)
        } else {
            self.publish_request_queue.push(PublishRequestEntry { request_id, received_at, timeout_hint });
            Ok(())
        }
    }

    /// Removes every request whose age exceeds its budget at `now` and
    /// answers each with a `BadTimeout` response, in queue order.
    pub fn expire_stale_publish_requests(&mut self, now: i64) -> (r: Vec<PublishResponse>)
        requires
            old(self).wf(),
        ensures
            final(self).wf(),
            final(self).max_publish_requests == old(self).max_publish_requests,
            final(self).publish_request_timeout == old(self).publish_request_timeout,
            final(self).subscriptions@ == old(self).subscriptions@,
            final(self).publish_request_queue@ == live_requests(
                old(self).publish_request_queue@,
                old(self).publish_request_timeout,
                now,
            ),
            r@.len() == stale_requests(
                old(self).publish_request_queue@,
                old(self).publish_request_timeout,
                now,
            ).len(),
            forall|i: int|
                0 <= i < r@.len() ==> (#[trigger] r@[i])@ == timeout_response(
                    stale_requests(
                        old(self).publish_request_queue@,
                        old(self).publish_request_timeout,
                        now,
                    )[i].request_id,
                ),
    {
        let ghost q = self.publish_request_queue@;
        let t = self.publish_request_timeout;
        let mut kept: Vec<PublishRequestEntry> = Vec::new();
        let mut responses: Vec<PublishResponse> = Vec::new();
        let mut i: usize = 0;
        while i < self.publish_request_queue.len()
            invariant
                self.publish_request_queue@ == q,
                self.publish_request_timeout == t,
                i <= q.len(),
                kept@ == live_requests(q.subrange(0, i as int), t, now),
                responses@.len() == stale_requests(q.subrange(0, i as int), t, now).len(),
                forall|k: int|
                    0 <= k < responses@.len() ==> (#[trigger] responses@[k])@ == timeout_response(
                        stale_requests(q.subrange(0, i as int), t, now)[k].request_id,
                    ),
            decreases q.len() - i,
        {
            let e = self.publish_request_queue[i];
            let budget: i128 = if e.timeout_hint > 0 {
                e.timeout_hint as i128
            } else {
                t as i128
            };
            let stale = (now as i128) - (e.received_at as i128) > budget;
            proof {
                assert(q.subrange(0, i + 1).drop_last() =~= q.subrange(0, i as int));
                reveal(Seq::filter);
            }
            if stale {
                responses.push(
                    PublishResponse {
                        request_id: e.request_id,
                        subscription_id: 0,
                        notifications: Vec::new(),
                        status: StatusCode::BadTimeout,
                    },
                );
            } else {
                kept.push(e);
            }
            i = i + 1;
        }
        proof {
            assert(q.subrange(0, i as int) =~= q);
            q.lemma_filter_len(|e: PublishRequestEntry| !is_stale(e, t, now));
        }
        self.publish_request_queue = kept;
        responses
    }

    /// Runs one cycle of subscription `j`: when it has something to send and
    /// a request is queued, the oldest request carries its notifications.
    pub fn serve_subscription(&mut self, j: usize) -> (r: Option<PublishResponse>)
        requires
            old(self).wf(),
            j < old(self).subscriptions@.len(),
        ensures
            final(self).wf(),
            final(self).max_publish_requests == old(self).max_publish_requests,
            final(self).publish_request_timeout == old(self).publish_request_timeout,
            final(self).subscriptions@.len() == old(self).subscriptions@.len(),
            forall|k: int|
                0 <= k < old(self).subscriptions@.len() && k != j
                    ==> #[trigger] final(self).subscriptions@[k] == old(self).subscriptions@[k],
            final(self).subscriptions@[j as int]@ == step(
                old(self).subscriptions@[j as int]@,
                old(self).publish_request_queue@.len() > 0,
            ),
            is_ready(old(self).subscriptions@[j as int]@) && old(self).publish_request_queue@.len()
                > 0 ==> {
                &&& r is Some
                &&& r->Some_0@ == data_response(
                    old(self).subscriptions@[j as int]@,
                    old(self).publish_request_queue@[0].request_id,
                )
                &&& final(self).publish_request_queue@ == old(self).publish_request_queue@.drop_first()
            },
            !(is_ready(old(self).subscriptions@[j as int]@) && old(self).publish_request_queue@.len()
                > 0) ==> r is None
                && final(self).publish_request_queue@ == old(self).publish_request_queue@,
    {
        let has_request = self.publish_request_queue.len() > 0;
        if self.subscriptions[j].state == SubscriptionState::Closed {
            return None;
        }
        let ka = self.subscriptions[j].keep_alive_counter;
        let next_ka: u32 = if ka < u32::MAX { ka + 1 } else { ka };
        let lt = self.subscriptions[j].lifetime_counter;
        let next_lt: u32 = if lt < u32::MAX { lt + 1 } else { lt };
        let ready = self.subscriptions[j].notifications.len() > 0 || next_ka
            >= self.subscriptions[j].max_keep_alive_count;
        if ready && has_request {
            let req = self.publish_request_queue.remove(0);
            let notifications = copy_vec(&self.subscriptions[j].notifications);
            self.subscriptions[j].notifications = Vec::new();
            self.subscriptions[j].state = SubscriptionState::Normal;
            self.subscriptions[j].keep_alive_counter = 0;
            self.subscriptions[j].lifetime_counter = 0;
            assert(self.subscriptions@[j as int]@.notifications =~= Seq::<u32>::empty());
            Some(
                PublishResponse {
                    request_id: req.request_id,
                    subscription_id: self.subscriptions[j].subscription_id,
                    notifications,
                    status: StatusCode::Good,
                },
            )
        } else if ready {
            let closing = next_lt >= self.subscriptions[j].max_lifetime_count;
            self.subscriptions[j].state =
                if closing {
                    SubscriptionState::Closed
                } else {
                    SubscriptionState::Late
                };
            self.subscriptions[j].lifetime_counter = next_lt;
            None
        } else {
            if self.subscriptions[j].state == SubscriptionState::Creating {
                self.subscriptions[j].state = SubscriptionState::Normal;
            }
            self.subscriptions[j].keep_alive_counter = next_ka;
            None
        }
    }
    /// Runs one cycle of each subscription `j` with `late[j] == want_late`,
    /// in order. The requests served are the oldest ones, in queue order.
    fn serve_pass(&mut self, late: &Vec<bool>, want_late: bool) -> (r: Vec<PublishResponse>)
        requires
            old(self).wf(),
            late@.len() == old(self).subscriptions@.len(),
        ensures
            final(self).wf(),
            final(self).max_publish_requests == old(self).max_publish_requests,
            final(self).publish_request_timeout == old(self).publish_request_timeout,
            final(self).subscriptions@.len() == old(self).subscriptions@.len(),
            r@.len() <= old(self).publish_request_queue@.len(),
            final(self).publish_request_queue@ == old(self).publish_request_queue@.subrange(
                r@.len() as int,
                old(self).publish_request_queue@.len() as int,
            ),
            forall|m: int|
                0 <= m < r@.len() ==> (#[trigger] r@[m])@.request_id == old(
                    self,
                ).publish_request_queue@[m].request_id && r@[m]@.status == StatusCode::Good,
            (sub_views(final(self).subscriptions@), final(self).publish_request_queue@, response_views(r@))
                == run_pass(
                sub_views(old(self).subscriptions@),
                late@,
                want_late,
                old(self).publish_request_queue@,
                old(self).subscriptions@.len(),
            ),
    {
        let ghost q = self.publish_request_queue@;
        let mut responses: Vec<PublishResponse> = Vec::new();
        let mut j: usize = 0;
        while j < self.subscriptions.len()
            invariant
                self.wf(),
                self.max_publish_requests == old(self).max_publish_requests,
                self.publish_request_timeout == old(self).publish_request_timeout,
                self.subscriptions@.len() == old(self).subscriptions@.len(),
                late@.len() == self.subscriptions@.len(),
                j <= self.subscriptions@.len(),
                responses@.len() <= q.len(),
                (sub_views(self.subscriptions@), self.publish_request_queue@, response_views(responses@))
                    == run_pass(sub_views(old(self).subscriptions@), late@, want_late, q, j as nat),
                self.publish_request_queue@ == q.subrange(responses@.len() as int, q.len() as int),
                forall|m: int|
                    0 <= m < responses@.len() ==> (#[trigger] responses@[m])@.request_id
                        == q[m].request_id && responses@[m]@.status == StatusCode::Good,
            decreases self.subscriptions@.len() - j,
        {
            if late[j] == want_late {
                let ghost before = self.publish_request_queue@;
                let ghost subs_before = sub_views(self.subscriptions@);
                let ghost resp_before = response_views(responses@);
                let served = self.serve_subscription(j);
                proof {
                    assert(sub_views(self.subscriptions@) =~= subs_before.update(
                        j as int,
                        step(subs_before[j as int], before.len() > 0),
                    ));
                }
                match served {
                    Some(resp) => {
                        proof {
                            assert(before[0] == q[responses@.len() as int]);
                            assert(self.publish_request_queue@ =~= q.subrange(
                                responses@.len() + 1int,
                                q.len() as int,
                            ));
                        }
                        responses.push(resp);
                        assert(response_views(responses@) =~= resp_before.push(resp@));
                    },
                    None => {},
                }
            }
            j = j + 1;
        }
        responses
    }

    /// One timer cycle: stale requests are answered with `BadTimeout` first,
    /// then late subscriptions are served, then the others. Requests are
    /// served strictly oldest first.
    pub fn tick(&mut self, now: i64) -> (r: Vec<PublishResponse>)
        requires
            old(self).wf(),
        ensures
            final(self).wf(),
            final(self).max_publish_requests == old(self).max_publish_requests,
            final(self).publish_request_timeout == old(self).publish_request_timeout,
            final(self).subscriptions@.len() == old(self).subscriptions@.len(),
            ({
                let live = live_requests(
                    old(self).publish_request_queue@,
                    old(self).publish_request_timeout,
                    now,
                );
                let stale = stale_requests(
                    old(self).publish_request_queue@,
                    old(self).publish_request_timeout,
                    now,
                );
                let served = r@.len() - stale.len();
                &&& stale.len() <= r@.len() <= stale.len() + live.len()
                &&& final(self).publish_request_queue@ == live.subrange(served, live.len() as int)
                &&& forall|i: int|
                    0 <= i < stale.len() ==> (#[trigger] r@[i])@ == timeout_response(
                        stale[i].request_id,
                    )
                &&& forall|m: int|
                    0 <= m < served ==> (#[trigger] r@[stale.len() + m])@.request_id
                        == live[m].request_id && r@[stale.len() + m]@.status == StatusCode::Good
            }),
            (sub_views(final(self).subscriptions@), final(self).publish_request_queue@, response_views(r@))
                == tick_spec(
                sub_views(old(self).subscriptions@),
                old(self).publish_request_queue@,
                old(self).publish_request_timeout,
                now,
            ),
    {
        let mut responses = self.expire_stale_publish_requests(now);
        let ghost live = self.publish_request_queue@;
        let ghost r0 = responses@;
        let mut late: Vec<bool> = Vec::new();
        let mut j: usize = 0;
        while j < self.subscriptions.len()
            invariant
                j <= self.subscriptions@.len(),
                late@ == late_flags(sub_views(self.subscriptions@)).subrange(0, j as int),
            decreases self.subscriptions@.len() - j,
        {
            assert(late_flags(sub_views(self.subscriptions@)).subrange(0, j + 1) =~= late@.push(
                self.subscriptions@[j as int].state == SubscriptionState::Late,
            ));
            late.push(self.subscriptions[j].state == SubscriptionState::Late);
            j = j + 1;
        }
        let mut first = self.serve_pass(&late, true);
        let ghost q1 = self.publish_request_queue@;
        let ghost f = first@;
        let mut second = self.serve_pass(&late, false);
        let ghost g = second@;
        responses.append(&mut first);
        responses.append(&mut second);
        proof {
            assert(late@ =~= late_flags(sub_views(old(self).subscriptions@)));
            let stale = stale_requests(
                old(self).publish_request_queue@,
                old(self).publish_request_timeout,
                now,
            );
            assert(response_views(r0) =~= timeout_responses(stale));
            assert(response_views(responses@) =~= response_views(r0) + response_views(f)
                + response_views(g));
            let a = f.len() as int;
            let b = g.len() as int;
            assert(self.publish_request_queue@ =~= live.subrange(a + b, live.len() as int));
            assert(responses@ == r0 + f + g);
            assert forall|m: int| 0 <= m < a + b implies (#[trigger] responses@[r0.len() + m])@.request_id
                == live[m].request_id && responses@[r0.len() + m]@.status == StatusCode::Good by {
                if m < a {
                    assert(responses@[r0.len() + m] == f[m]);
                } else {
                    assert(responses@[r0.len() + m] == g[m - a]);
                    assert(q1[m - a] == live[m]);
                }
            }
            assert forall|i: int| 0 <= i < r0.len() implies #[trigger] responses@[i] == r0[i] by {}
        }
        responses
    }
}

} // verus!

verus! {

/// Expiring twice at the same instant: the second pass finds no stale
/// request and leaves the queue as the first pass left it.
pub proof fn lemma_expire_twice(q: Seq<PublishRequestEntry>, default_timeout: i64, now: i64)
    ensures
        live_requests(live_requests(q, default_timeout, now), default_timeout, now)
            == live_requests(q, default_timeout, now),
        stale_requests(live_requests(q, default_timeout, now), default_timeout, now).len() == 0,
{
    let p = |e: PublishRequestEntry| !is_stale(e, default_timeout, now);
    let live = live_requests(q, default_timeout, now);
    assert forall|i: int| 0 <= i < live.len() implies #[trigger] p(live[i]) by {
        q.lemma_filter_pred(p, i);
    }
    crate::seq_filter::lemma_filter_all(live, p);
    crate::seq_filter::lemma_filter_none(
        live,
        |e: PublishRequestEntry| is_stale(e, default_timeout, now),
    );
}

} // verus!
