use hello_actor::Action;
use hello_actor::ChannelEvent;
use hello_actor::GreetingRequest;
use hello_actor::HelloActor;
use hello_actor::greeting;

const GREETING: &str = "Hello from Rust! 🦀";

#[test]
fn greeting_is_the_fixed_text() {
    assert_eq!(greeting(), GREETING);
}

#[test]
fn one_request_one_response() {
    let mut actor = HelloActor::new();
    let out = actor.respond_to_all(&vec![GreetingRequest]);
    assert_eq!(out.len(), 1);
    assert_eq!(out[0].message, GREETING);
}

#[test]
fn n_requests_n_responses_in_order() {
    let mut actor = HelloActor::new();
    let out = actor.respond_to_all(&vec![GreetingRequest; 3]);
    assert_eq!(out.len(), 3);
    for r in &out {
        assert_eq!(r.message, GREETING);
    }
}

#[test]
fn zero_requests_zero_responses() {
    let mut actor = HelloActor::new();
    let out = actor.respond_to_all(&vec![]);
    assert!(out.is_empty());
}

#[test]
fn repeated_requests_yield_identical_responses() {
    let mut actor = HelloActor::new();
    let a = actor.notify(GreetingRequest);
    let b = actor.notify(GreetingRequest);
    assert_eq!(a.message, b.message);
}

#[test]
fn a_request_is_answered() {
    let mut actor = HelloActor::new();
    let action = actor.step(ChannelEvent::Request(GreetingRequest));
    match action {
        Action::Respond(r) => assert_eq!(r.message, GREETING),
        Action::Stop => panic!("a request must be answered, not stop the loop"),
    }
}

#[test]
fn a_closed_channel_stops_the_loop() {
    let mut actor = HelloActor::new();
    let action = actor.step(ChannelEvent::Closed);
    assert!(matches!(action, Action::Stop));
}
