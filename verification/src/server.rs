//! The per-connection protocol loop as a state machine: a worker serves
//! one connection, answering each received line, until the transport
//! reports failure or disconnection; then the session is closed. The
//! transport itself (accepting, receiving, sending) lives outside the
//! library, which only decides what each event leads to.

use vstd::prelude::*;

verus! {

use crate::handler::RequestHandler;
use crate::handler::handle_response;
use crate::request::Request;
use crate::request::split_fields;

/// Where a connection worker stands.
#[derive(Clone, Copy, PartialEq, Eq, Structural)]
pub enum SessionState {
    Serving,
    Closed,
}

/// What the transport reported to the worker.
pub enum SessionEvent {
    /// One complete request line arrived.
    Received(String),
    /// Receiving or sending failed, or the peer disconnected.
    TransportClosed,
}

/// What the worker must do next.
pub enum SessionAction {
    /// Send this response line back on the same connection.
    Send(String),
    /// Release the connection and end the worker.
    Stop,
}

/// One step of a connection worker: a received line is answered through
/// the handler and the session keeps serving; a transport failure closes
/// the session and leaves the registry untouched. A closed session never
/// acts again.
pub fn session_step(state: SessionState, handler: &mut RequestHandler, event: SessionEvent) -> (r:
    (SessionState, SessionAction))
    ensures
        ({
            let (next, action) = r;
            match event {
                SessionEvent::Received(line) => {
                    if state is Serving {
                        let (h2, resp) = handle_response(old(handler)@, split_fields(line@));
                        &&& final(handler)@ == h2
                        &&& next is Serving
                        &&& action matches SessionAction::Send(out) && out@ == resp
                    } else {
                        &&& final(handler)@ == old(handler)@
                        &&& next is Closed
                        &&& action is Stop
                    }
                },
                SessionEvent::TransportClosed => {
                    &&& final(handler)@ == old(handler)@
                    &&& next is Closed
                    &&& action is Stop
                },
            }
        }),
{
    match event {
        SessionEvent::Received(line) => {
            if state == SessionState::Serving {
                let request = Request::new(line.as_str());
                let response = handler.handle(request);
                (SessionState::Serving, SessionAction::Send(response))
            } else {
                (SessionState::Closed, SessionAction::Stop)
            }
        },
        SessionEvent::TransportClosed => (SessionState::Closed, SessionAction::Stop),
    }
}

} // verus!
