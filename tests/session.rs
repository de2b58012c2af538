use opcua_session::address_space::{AddressSpace, Node, Variant};
use opcua_session::continuation_point::BrowseContinuationPoint;
use opcua_session::node::NodeId;
use opcua_session::session::{ServerState, Session, MAX_BROWSE_CONTINUATION_POINTS};
use opcua_session::session_manager::SessionManager;
use opcua_session::status::StatusCode;
use opcua_session::subscriptions::{Subscription, SubscriptionState, PUBLISH_REQUEST_TIMEOUT};

fn cp(id: u8, node: u64) -> BrowseContinuationPoint {
    BrowseContinuationPoint {
        id: vec![id],
        node_id: NodeId::new(1, node),
        starting_index: 0,
        max_references: 10,
        references_version: 0,
    }
}

fn session_with(max_publish_requests: usize, max_browse_continuation_points: usize) -> Session {
    let server_state = ServerState {
        max_publish_requests,
        publish_request_timeout: PUBLISH_REQUEST_TIMEOUT,
        max_browse_continuation_points,
    };
    Session::new(&server_state)
}

fn ids(session: &Session) -> Vec<u8> {
    session.browse_continuation_points.iter().map(|c| c.id[0]).collect()
}

#[test]
fn new_session_is_fresh() {
    let session = Session::new_no_certificate_store();
    assert!(!session.activated);
    assert!(!session.terminated);
    assert!(session.session_id.is_null());
    assert_eq!(session.max_browse_continuation_points, MAX_BROWSE_CONTINUATION_POINTS);
    assert_eq!(session.subscriptions.max_publish_requests, 100);
    assert_eq!(session.subscriptions.publish_request_timeout, 30000);
    assert!(session.browse_continuation_points.is_empty());
}

#[test]
fn continuation_points_evict_oldest_first() {
    let mut session = session_with(10, 3);
    for id in 1..=5u8 {
        session.add_browse_continuation_point(cp(id, 1));
        assert!(session.browse_continuation_points.len() <= 3);
    }
    assert_eq!(ids(&session), vec![3, 4, 5]);
    assert!(session.find_browse_continuation_point(&vec![1]).is_none());
    assert!(session.find_browse_continuation_point(&vec![2]).is_none());
    for id in 3..=5u8 {
        assert_eq!(session.find_browse_continuation_point(&vec![id]).unwrap().id, vec![id]);
    }
}

#[test]
fn continuation_points_are_not_evicted_by_lookup() {
    let mut session = session_with(10, 2);
    session.add_browse_continuation_point(cp(1, 1));
    session.add_browse_continuation_point(cp(2, 1));
    // a lookup does not refresh an entry: eviction is by insertion order
    assert!(session.find_browse_continuation_point(&vec![1]).is_some());
    session.add_browse_continuation_point(cp(3, 1));
    assert_eq!(ids(&session), vec![2, 3]);
}

#[test]
fn remove_many_continuation_points() {
    let mut session = session_with(10, 10);
    for id in 1..=4u8 {
        session.add_browse_continuation_point(cp(id, 1));
    }
    session.remove_browse_continuation_points(&[vec![1], vec![3], vec![9]]);
    assert!(session.find_browse_continuation_point(&vec![1]).is_none());
    assert!(session.find_browse_continuation_point(&vec![3]).is_none());
    assert!(session.find_browse_continuation_point(&vec![2]).is_some());
    assert!(session.find_browse_continuation_point(&vec![4]).is_some());
    assert_eq!(ids(&session), vec![2, 4]);
}

#[test]
fn remove_one_continuation_point() {
    let mut session = session_with(10, 10);
    for id in 1..=3u8 {
        session.add_browse_continuation_point(cp(id, 1));
    }
    session.remove_browse_continuation_point(&vec![2]);
    assert_eq!(ids(&session), vec![1, 3]);
    session.remove_browse_continuation_point(&vec![7]);
    assert_eq!(ids(&session), vec![1, 3]);
}

#[test]
fn find_returns_a_copy() {
    let mut session = session_with(10, 10);
    let mut point = cp(4, 2);
    point.starting_index = 17;
    session.add_browse_continuation_point(point);
    let found = session.find_browse_continuation_point(&vec![4]).unwrap();
    assert_eq!(found.starting_index, 17);
    assert!(found.node_id.same_as(&NodeId::new(1, 2)));
    assert_eq!(session.browse_continuation_points.len(), 1);
}

#[test]
fn expired_continuation_points_are_purged() {
    let mut address_space = AddressSpace::new();
    address_space.add_node(Node::new_variable(NodeId::new(1, 1), Variant::Int32(0)));
    address_space.add_node(Node::new_variable(NodeId::new(1, 2), Variant::Int32(0)));
    let mut session = session_with(10, 10);
    session.add_browse_continuation_point(cp(1, 1));
    session.add_browse_continuation_point(cp(2, 2));
    // node 3 does not exist
    session.add_browse_continuation_point(cp(3, 3));
    session.remove_expired_browse_continuation_points(&address_space);
    assert_eq!(ids(&session), vec![1, 2]);
    // the references of node 2 change
    assert!(address_space.touch_references(&NodeId::new(1, 2)));
    session.remove_expired_browse_continuation_points(&address_space);
    assert_eq!(ids(&session), vec![1]);
}

#[test]
fn publish_requests_are_served_in_order() {
    let mut session = Session::new_no_certificate_store();
    for request_id in 1..=3u32 {
        assert_eq!(session.enqueue_publish_request(request_id, 0, 0), Ok(()));
    }
    let mut subscription = Subscription::new(7, 10, 30);
    subscription.add_notification(42);
    session.subscriptions.add_subscription(subscription);
    let responses = session.tick_subscriptions(10);
    assert_eq!(responses.len(), 1);
    assert_eq!(responses[0].request_id, 1);
    assert_eq!(responses[0].subscription_id, 7);
    assert_eq!(responses[0].notifications, vec![42]);
    assert_eq!(responses[0].status, StatusCode::Good);
    let queued: Vec<u32> = session.subscriptions.publish_request_queue.iter().map(|e| e.request_id).collect();
    assert_eq!(queued, vec![2, 3]);
}

#[test]
fn stale_publish_request_times_out() {
    let mut session = Session::new_no_certificate_store();
    assert_eq!(session.enqueue_publish_request(5, 0, 30000), Ok(()));
    assert!(session.expire_stale_publish_requests(30000).is_empty());
    let responses = session.expire_stale_publish_requests(30001);
    assert_eq!(responses.len(), 1);
    assert_eq!(responses[0].request_id, 5);
    assert_eq!(responses[0].status, StatusCode::BadTimeout);
    assert!(session.subscriptions.publish_request_queue.is_empty());
}

#[test]
fn default_timeout_applies_without_hint() {
    let mut session = Session::new_no_certificate_store();
    assert_eq!(session.enqueue_publish_request(1, 1000, 0), Ok(()));
    assert_eq!(session.enqueue_publish_request(2, 1000, 50), Ok(()));
    let responses = session.expire_stale_publish_requests(1051);
    assert_eq!(responses.len(), 1);
    assert_eq!(responses[0].request_id, 2);
    let responses = session.expire_stale_publish_requests(31001);
    assert_eq!(responses.len(), 1);
    assert_eq!(responses[0].request_id, 1);
}

#[test]
fn stale_requests_never_serve_notifications() {
    let mut session = Session::new_no_certificate_store();
    assert_eq!(session.enqueue_publish_request(1, 0, 100), Ok(()));
    assert_eq!(session.enqueue_publish_request(2, 500, 100), Ok(()));
    let mut subscription = Subscription::new(3, 10, 30);
    subscription.add_notification(9);
    session.subscriptions.add_subscription(subscription);
    let responses = session.tick_subscriptions(550);
    assert_eq!(responses.len(), 2);
    assert_eq!(responses[0].request_id, 1);
    assert_eq!(responses[0].status, StatusCode::BadTimeout);
    assert_eq!(responses[1].request_id, 2);
    assert_eq!(responses[1].status, StatusCode::Good);
    assert_eq!(responses[1].notifications, vec![9]);
}

#[test]
fn full_queue_refuses_publish_request() {
    let mut session = session_with(2, 10);
    assert_eq!(session.enqueue_publish_request(1, 0, 0), Ok(()));
    assert_eq!(session.enqueue_publish_request(2, 0, 0), Ok(()));
    assert_eq!(session.enqueue_publish_request(3, 0, 0), Err(StatusCode::BadTooManyPublishRequests));
    assert_eq!(session.subscriptions.publish_request_queue.len(), 2);
}

#[test]
fn late_subscription_is_served_first() {
    let mut session = Session::new_no_certificate_store();
    let mut late = Subscription::new(1, 10, 30);
    late.add_notification(100);
    session.subscriptions.add_subscription(late);
    // no request is queued: the subscription falls behind
    assert!(session.tick_subscriptions(0).is_empty());
    assert_eq!(session.subscriptions.subscriptions[0].state, SubscriptionState::Late);
    let mut normal = Subscription::new(2, 10, 30);
    normal.add_notification(200);
    session.subscriptions.add_subscription(normal);
    assert_eq!(session.enqueue_publish_request(9, 0, 0), Ok(()));
    let responses = session.tick_subscriptions(1);
    assert_eq!(responses.len(), 1);
    assert_eq!(responses[0].subscription_id, 1);
    assert_eq!(session.subscriptions.subscriptions[0].state, SubscriptionState::Normal);
    assert_eq!(session.subscriptions.subscriptions[1].state, SubscriptionState::Late);
}

#[test]
fn keep_alive_is_sent_when_due() {
    let mut session = Session::new_no_certificate_store();
    session.subscriptions.add_subscription(Subscription::new(4, 2, 30));
    assert_eq!(session.enqueue_publish_request(1, 0, 0), Ok(()));
    assert!(session.tick_subscriptions(0).is_empty());
    assert_eq!(session.subscriptions.subscriptions[0].keep_alive_counter, 1);
    let responses = session.tick_subscriptions(1);
    assert_eq!(responses.len(), 1);
    assert!(responses[0].notifications.is_empty());
    assert_eq!(responses[0].status, StatusCode::Good);
    assert_eq!(session.subscriptions.subscriptions[0].keep_alive_counter, 0);
}

#[test]
fn subscription_closes_when_lifetime_runs_out() {
    let mut session = Session::new_no_certificate_store();
    let mut subscription = Subscription::new(5, 10, 2);
    subscription.add_notification(1);
    session.subscriptions.add_subscription(subscription);
    assert!(session.tick_subscriptions(0).is_empty());
    assert_eq!(session.subscriptions.subscriptions[0].state, SubscriptionState::Late);
    assert!(session.tick_subscriptions(1).is_empty());
    assert_eq!(session.subscriptions.subscriptions[0].state, SubscriptionState::Closed);
    assert_eq!(session.enqueue_publish_request(1, 2, 0), Ok(()));
    assert!(session.tick_subscriptions(3).is_empty());
}

#[test]
fn terminate_is_idempotent() {
    let mut session = Session::new_no_certificate_store();
    session.terminate_at(100);
    assert!(session.terminated);
    assert_eq!(session.terminated_at, 100);
    session.terminate_at(200);
    assert!(session.terminated);
    assert_eq!(session.terminated_at, 100);
}

#[test]
fn terminated_keeps_first_instant() {
    let mut session = Session::new_no_certificate_store();
    session.terminate_at(5);
    session.terminated();
    assert!(session.terminated);
    assert_eq!(session.terminated_at, 5);
}

#[test]
fn terminated_records_the_clock() {
    let mut session = Session::new_no_certificate_store();
    session.terminated_at = 0;
    session.terminated();
    assert!(session.terminated);
    assert!(session.terminated_at > 0);
}

#[test]
fn session_ids_increase() {
    let mut session = Session::new_no_certificate_store();
    let a = session.next_session_id();
    let b = session.next_session_id();
    assert!(a.same_as(&NodeId::new(1, 1)));
    assert!(b.same_as(&NodeId::new(1, 2)));
    assert_eq!(session.last_session_id, 2);
}

#[test]
fn manager_hands_out_fresh_ids() {
    let mut manager = SessionManager::new();
    let server_state = ServerState::new();
    let a = manager.create_session(&server_state).unwrap();
    let b = manager.create_session(&server_state).unwrap();
    assert!(a.same_as(&NodeId::new(1, 1)));
    assert!(b.same_as(&NodeId::new(1, 2)));
    assert_eq!(manager.find_session(&a), Some(0));
    assert_eq!(manager.find_session(&b), Some(1));
    assert_eq!(manager.find_session(&NodeId::new(1, 3)), None);
}

#[test]
fn manager_purges_terminated_sessions_only() {
    let mut manager = SessionManager::new();
    let server_state = ServerState::new();
    let a = manager.create_session(&server_state).unwrap();
    let b = manager.create_session(&server_state).unwrap();
    let c = manager.create_session(&server_state).unwrap();
    assert!(manager.terminate_session(&b, 50));
    assert!(manager.terminate_session(&b, 60));
    assert!(!manager.terminate_session(&NodeId::new(1, 9), 60));
    // a terminated session stays addressable until purged
    let i = manager.find_session(&b).unwrap();
    assert!(manager.sessions[i].terminated);
    assert_eq!(manager.sessions[i].terminated_at, 50);
    manager.purge_terminated();
    assert_eq!(manager.sessions.len(), 2);
    assert_eq!(manager.find_session(&b), None);
    assert_eq!(manager.find_session(&a), Some(0));
    assert_eq!(manager.find_session(&c), Some(1));
    // ids are not reused after a purge
    let d = manager.create_session(&server_state).unwrap();
    assert!(d.same_as(&NodeId::new(1, 4)));
}

#[test]
fn manager_stops_when_ids_run_out() {
    let mut manager = SessionManager::new();
    manager.last_session_id = u32::MAX;
    assert!(manager.create_session(&ServerState::new()).is_none());
    assert!(manager.sessions.is_empty());
}

#[test]
fn token_differs_from_session_id() {
    let session = Session::new_no_certificate_store();
    assert!(!session.authentication_token.same_as(&session.session_id));
    assert!(session.user_identity.is_none());
    assert!(session.session_nonce.is_empty());
    assert!(session.endpoint_url.is_empty());
    let mut manager = SessionManager::new();
    let id = manager.create_session(&ServerState::new()).unwrap();
    let token = &manager.sessions[0].authentication_token;
    assert!(!token.same_as(&id));
    assert!(token.same_as(&opcua_session::session::authentication_token_for(1)));
}

#[test]
fn store_changes_leave_session_state_alone() {
    let mut session = Session::new_no_certificate_store();
    session.terminate_at(9);
    assert_eq!(session.enqueue_publish_request(1, 0, 0), Ok(()));
    session.add_browse_continuation_point(cp(1, 1));
    session.remove_browse_continuation_points(&[vec![1]]);
    assert!(session.expire_stale_publish_requests(10).is_empty());
    let _ = session.next_session_id();
    assert!(session.terminated);
    assert_eq!(session.terminated_at, 9);
    assert!(session.session_id.is_null());
    assert_eq!(session.subscriptions.publish_request_queue.len(), 1);
}

#[test]
fn second_expiry_at_same_instant_does_nothing() {
    let mut session = Session::new_no_certificate_store();
    assert_eq!(session.enqueue_publish_request(1, 0, 10), Ok(()));
    assert_eq!(session.enqueue_publish_request(2, 0, 0), Ok(()));
    assert_eq!(session.expire_stale_publish_requests(100).len(), 1);
    assert!(session.expire_stale_publish_requests(100).is_empty());
    assert_eq!(session.subscriptions.publish_request_queue.len(), 1);
    assert_eq!(session.subscriptions.publish_request_queue[0].request_id, 2);
}
