//! A greeting responder: an actor that answers every inbound hello request
//! with one fixed greeting, and stops only when its inbound channel closes.
//!
//! The asynchronous plumbing (the signal transport to the front-end, the task
//! that runs the listen loop) lives outside this crate; here stand the
//! decisions the loop makes and the response it builds, each with its
//! contract.
use vstd::prelude::*;

verus! {

/// The text of every outbound greeting.
pub open spec fn greeting_text() -> Seq<char> {
    "Hello from Rust! 🦀"@
}

/// The greeting as an owned string.
pub fn greeting() -> (s: String)
    ensures
        s@ == greeting_text(),
{
    String::from_str("Hello from Rust! 🦀")
}

/// An inbound hello request. Its payload is empty: the responder ignores
/// everything about it but its arrival.
#[derive(Clone, Copy)]
pub struct GreetingRequest;

/// An outbound hello response: one text field.
pub struct GreetingResponse {
    pub message: String,
}

/// What every response the actor emits holds: the fixed greeting,
/// whatever the request was.
pub open spec fn is_greeting(r: GreetingResponse) -> bool {
    r.message@ == greeting_text()
}

/// One event the listen loop can see on its inbound channel.
pub enum ChannelEvent {
    /// A request arrived.
    Request(GreetingRequest),
    /// The producer disconnected; no further event will arrive.
    Closed,
}

/// What the listen loop does after one event.
pub enum Action {
    /// Emit this response to the outbound transport, then wait again.
    Respond(GreetingResponse),
    /// Leave the loop; the only termination path.
    Stop,
}

/// The hello actor that responds to hello requests.
///
/// It holds no state: nothing carries over from one request to the next.
pub struct HelloActor;

impl HelloActor {
    /// A fresh actor. Starting its listen loop is the caller's affair.
    pub fn new() -> (actor: HelloActor) {
        HelloActor
    }

    /// The request handler: builds the response for one request.
    /// The result does not depend on the request, and the actor is unchanged.
    pub fn notify(&mut self, _msg: GreetingRequest) -> (r: GreetingResponse)
        ensures
            is_greeting(r),
            *final(self) == *old(self),
    {
        GreetingResponse { message: greeting() }
    }

    /// One turn of the listen loop: a request is answered with the greeting,
    /// a closed channel stops the loop, and nothing else can happen.
    pub fn step(&mut self, event: ChannelEvent) -> (action: Action)
        ensures
            (match event {
                ChannelEvent::Request(_) => action matches Action::Respond(r) && is_greeting(r),
                ChannelEvent::Closed => action is Stop,
            }),
            *final(self) == *old(self),
    {
        match event {
            ChannelEvent::Request(req) => Action::Respond(self.notify(req)),
            ChannelEvent::Closed => Action::Stop,
        }
    }

    /// A whole session over a finite inbound sequence, request by request in
    /// arrival order: exactly one response per request, each carrying the
    /// greeting, and the actor as it was.
    pub fn respond_to_all(&mut self, requests: &Vec<GreetingRequest>) -> (out: Vec<
        GreetingResponse,
    >)
        ensures
            out@.len() == requests@.len(),
            forall|i: int| 0 <= i < out@.len() ==> is_greeting(#[trigger] out@[i]),
            *final(self) == *old(self),
    {
        let mut out: Vec<GreetingResponse> = Vec::new();
        let mut k: usize = 0;
        while k < requests.len()
            invariant
                k <= requests@.len(),
                out@.len() == k,
                forall|i: int| 0 <= i < out@.len() ==> is_greeting(#[trigger] out@[i]),
                *self == *old(self),
            decreases requests@.len() - k,
        {
            let r = self.notify(requests[k]);
            out.push(r);
            k = k + 1;
        }
        out
    }
}

/// Idempotence: any two responses the actor emits carry the same text. The
/// response depends neither on the request's payload nor on any earlier
/// request.
pub proof fn lemma_responses_identical(a: GreetingResponse, b: GreetingResponse)
    requires
        is_greeting(a),
        is_greeting(b),
    ensures
        a.message@ == b.message@,
{
}

} // verus!

