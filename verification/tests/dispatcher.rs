use pyorion::api::{register_api_instances, ApiHandler};
use pyorion::api_manager::ApiManager;
use pyorion::bridge::{confirm, submit, Message, SubmitError};
use pyorion::dispatcher::{begin, complete, finish, route, Dispatch};
use pyorion::message::{Request, Response};
use pyorion::pending::PendingTable;
use pyorion::waiter::{register, Resolution};
use tokio::sync::oneshot::error::TryRecvError;

fn request(id: &str, method: &str) -> Request {
    Request::new(id.to_string(), method.to_string(), "null".to_string())
}

#[test]
fn a_registered_method_is_routed_to_its_handler() {
    let mut registry = ApiManager::new();
    register_api_instances(&mut registry);
    let routed = route(&registry, &request("1", "webview.openDevtools"));
    assert_eq!(routed, Ok(&ApiHandler::OpenDevtools));
}

#[test]
fn an_unknown_method_is_answered_with_not_found() {
    let mut registry = ApiManager::new();
    register_api_instances(&mut registry);
    let routed = route(&registry, &request("5", "doesNotExist"));
    let response = routed.unwrap_err();
    assert_eq!(response.id, "5");
    assert_eq!(response.status, 404);
    assert_eq!(response.message, "method not found");
    assert_eq!(response.payload, "null");
}

#[test]
fn an_unknown_method_is_resolved_at_once() {
    let registry: ApiManager<ApiHandler> = ApiManager::new();
    let mut table = PendingTable::new();
    let mut waiter = register(&mut table, "5".to_string());
    let step = begin(&registry, &mut table, &request("5", "doesNotExist"));
    assert!(matches!(step, Dispatch::NotFound(Resolution::Delivered)));
    assert!(!table.is_pending("5"));
    assert_eq!(waiter.try_recv(), Ok(Response::not_found("5".to_string())));
}

#[test]
fn an_outcome_becomes_a_response() {
    assert_eq!(
        complete("1".to_string(), Ok("true".to_string())),
        Response::success("1".to_string(), "true".to_string())
    );
    let failed = complete("2".to_string(), Err("no webview".to_string()));
    assert_eq!(failed.id, "2");
    assert_eq!(failed.status, 500);
    assert_eq!(failed.message, "no webview");
    assert_eq!(failed.payload, "null");
    let silent = complete("3".to_string(), Err(String::new()));
    assert_eq!(silent.status, 500);
    assert!(!silent.message.is_empty());
}

#[test]
fn two_connections_get_their_own_responses() {
    let mut registry: ApiManager<u8> = ApiManager::new();
    registry.register_api("ping", 1);
    let mut table = PendingTable::new();
    let from_a = submit(&mut table, request("1", "ping"));
    let from_b = submit(&mut table, request("2", "ping"));
    let mut waiter_a = from_a.waiter;
    let mut waiter_b = from_b.waiter;
    let queue = vec![from_b.message, from_a.message];
    for message in queue {
        let Message::Request(posted) = message;
        match begin(&registry, &mut table, &posted) {
            Dispatch::Invoke(handler) => {
                assert_eq!(*handler, 1);
                let outcome = Ok("\"pong\"".to_string());
                assert_eq!(finish(&mut table, posted.id.clone(), outcome), Resolution::Delivered);
            }
            Dispatch::NotFound(_) => panic!("ping is registered"),
        }
    }
    let got_a = waiter_a.try_recv().unwrap();
    let got_b = waiter_b.try_recv().unwrap();
    assert_eq!(got_a.id, "1");
    assert_eq!(got_a.status, 200);
    assert_eq!(got_b.id, "2");
    assert_eq!(got_b.status, 200);
    assert_eq!(waiter_a.try_recv(), Err(TryRecvError::Closed));
    assert_eq!(waiter_b.try_recv(), Err(TryRecvError::Closed));
    assert!(!table.is_pending("1"));
    assert!(!table.is_pending("2"));
}

#[test]
fn a_request_is_dispatched_though_its_connection_is_gone() {
    let mut registry: ApiManager<u8> = ApiManager::new();
    registry.register_api("ping", 1);
    let mut table = PendingTable::new();
    let submission = submit(&mut table, request("7", "ping"));
    drop(submission.waiter);
    let Message::Request(posted) = submission.message;
    assert!(matches!(begin(&registry, &mut table, &posted), Dispatch::Invoke(&1)));
    let resolution = finish(&mut table, "7".to_string(), Ok("null".to_string()));
    assert_eq!(
        resolution,
        Resolution::Abandoned(Response::success("7".to_string(), "null".to_string()))
    );
    assert!(!table.is_pending("7"));
    let again = finish(&mut table, "7".to_string(), Ok("null".to_string()));
    assert!(matches!(again, Resolution::Unknown(_)));
}

#[test]
fn many_requests_from_many_connections_are_each_answered_once() {
    let mut registry: ApiManager<u8> = ApiManager::new();
    registry.register_api("echo", 9);
    let mut table = PendingTable::new();
    let mut waiters = Vec::new();
    let mut queue = Vec::new();
    for connection in 0..5 {
        for n in 0..8 {
            let id = format!("{}-{}", connection, n);
            let submission =
                submit(&mut table, Request::new(id.clone(), "echo".to_string(), format!("{}", n)));
            waiters.push((id, n, submission.waiter));
            queue.push(submission.message);
        }
    }
    for message in queue {
        let Message::Request(posted) = message;
        assert!(matches!(begin(&registry, &mut table, &posted), Dispatch::Invoke(&9)));
        let outcome = Ok(posted.params.clone());
        assert_eq!(finish(&mut table, posted.id.clone(), outcome), Resolution::Delivered);
    }
    for (id, n, mut waiter) in waiters {
        let response = waiter.try_recv().unwrap();
        assert_eq!(response, Response::success(id.clone(), format!("{}", n)));
        assert_eq!(waiter.try_recv(), Err(TryRecvError::Closed));
        assert!(!table.is_pending(&id));
    }
}

#[test]
fn a_submission_that_was_posted_stays_in_flight() {
    let mut table = PendingTable::new();
    let submission = submit(&mut table, request("1", "ping"));
    assert_eq!(submission.message, Message::Request(request("1", "ping")));
    assert_eq!(confirm(&mut table, "1", true), Ok(()));
    assert!(table.is_pending("1"));
}

#[test]
fn a_submission_that_could_not_be_posted_is_taken_back() {
    let mut table = PendingTable::new();
    let mut submission = submit(&mut table, request("1", "ping"));
    assert_eq!(confirm(&mut table, "1", false), Err(SubmitError::EventLoopClosed));
    assert!(!table.is_pending("1"));
    assert_eq!(submission.waiter.try_recv(), Err(TryRecvError::Closed));
}

#[test]
fn a_wait_that_is_given_up_takes_the_request_out_of_the_table() {
    let mut table = PendingTable::new();
    let mut submission = submit(&mut table, request("1", "slow"));
    assert!(pyorion::bridge::abandon(&mut table, "1"));
    assert!(!table.is_pending("1"));
    assert!(!pyorion::bridge::abandon(&mut table, "1"));
    assert_eq!(submission.waiter.try_recv(), Err(TryRecvError::Closed));
    let late = finish(&mut table, "1".to_string(), Ok("null".to_string()));
    assert!(matches!(late, Resolution::Unknown(_)));
}
