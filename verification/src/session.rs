//! The heartbeat session: the machine token that it carries from one cycle
//! to the next, the headers of its requests, and what a cycle does with the
//! backend's reply.

use vstd::prelude::*;
use crate::identity::{get_system_info, is_mac_text, SystemInfo};
use crate::text::optional_text;
use crate::wire::{
    ack_url, ack_url_of, heartbeat_url, heartbeat_url_of, is_success, is_success_status, tasks_of,
    AckRequest, AgentConfig, HeartbeatResponse, HeartbeatResponseView, Task, TaskView,
};

verus! {

/// What the poll loop carries from one cycle to the next.
pub struct SessionState {
    /// The machine token that the backend issued last, if it issued one.
    pub machine_token: Option<String>,
}

impl View for SessionState {
    type V = Option<Seq<char>>;

    open spec fn view(&self) -> Option<Seq<char>> {
        optional_text(self.machine_token)
    }
}

impl SessionState {
    /// The state of a session that has received no token yet.
    pub fn new() -> (session: SessionState)
        ensures
            session@ is None,
    {
        SessionState { machine_token: None }
    }
}

/// One header of a request.
pub struct Header {
    pub name: String,
    pub value: String,
}

impl View for Header {
    type V = (Seq<char>, Seq<char>);

    open spec fn view(&self) -> (Seq<char>, Seq<char>) {
        (self.name@, self.value@)
    }
}

/// The views of a sequence of headers, item by item.
pub open spec fn headers_view(headers: Seq<Header>) -> Seq<(Seq<char>, Seq<char>)> {
    Seq::new(headers.len(), |i: int| headers[i]@)
}

/// The headers of a request to the backend: the agent's token always, and
/// the machine token once the session holds one.
pub open spec fn headers_of(auth_token: Seq<char>, machine_token: Option<Seq<char>>) -> Seq<
    (Seq<char>, Seq<char>),
> {
    match machine_token {
        Some(token) => seq![("X-Agent-Token"@, auth_token), ("X-Machine-Token"@, token)],
        None => seq![("X-Agent-Token"@, auth_token)],
    }
}

/// Builds the headers that a heartbeat or an acknowledgment carries.
pub fn request_headers(auth_token: &str, session: &SessionState) -> (headers: Vec<Header>)
    ensures
        headers_view(headers@) == headers_of(auth_token@, session@),
{
    let mut headers: Vec<Header> = Vec::new();
    headers.push(Header { name: "X-Agent-Token".to_owned(), value: auth_token.to_owned() });
    match &session.machine_token {
        Some(token) => {
            headers.push(Header { name: "X-Machine-Token".to_owned(), value: token.clone() });
        },
        None => {},
    }
    assert(headers_view(headers@) =~= headers_of(auth_token@, session@));
    headers
}

/// How a heartbeat came back.
pub enum HeartbeatReply {
    /// The request could not be sent, or no answer arrived.
    TransportFailed,
    /// The backend answered with this status; `body` is the decoded answer,
    /// or nothing where the body could not be decoded or was not read.
    Answered { status: u16, body: Option<HeartbeatResponse> },
}

/// A `HeartbeatReply` as plain values.
pub enum HeartbeatReplyView {
    TransportFailed,
    Answered { status: u16, body: Option<HeartbeatResponseView> },
}

impl View for HeartbeatReply {
    type V = HeartbeatReplyView;

    open spec fn view(&self) -> HeartbeatReplyView {
        match self {
            HeartbeatReply::TransportFailed => HeartbeatReplyView::TransportFailed,
            HeartbeatReply::Answered { status, body } => HeartbeatReplyView::Answered {
                status: *status,
                body: match body {
                    Some(response) => Some(response@),
                    None => None,
                },
            },
        }
    }
}

/// The answer that a cycle acts on: the decoded body of a reply with a
/// success status. A failed transport, another status or a body that could
/// not be decoded give nothing to act on.
pub open spec fn accepted_response(reply: HeartbeatReplyView) -> Option<HeartbeatResponseView> {
    match reply {
        HeartbeatReplyView::Answered { status, body: Some(response) } => if is_success(status) {
            Some(response)
        } else {
            None
        },
        _ => None,
    }
}

/// The machine token that a reply brings: the one of the accepted answer,
/// where there is one.
pub open spec fn brought_token(reply: HeartbeatReplyView) -> Option<Seq<char>> {
    match accepted_response(reply) {
        Some(response) => response.machine_token,
        None => None,
    }
}

/// The session's token after a cycle: the one that the reply brought, else
/// the one that the session held before.
pub open spec fn token_after(held: Option<Seq<char>>, reply: HeartbeatReplyView) -> Option<
    Seq<char>,
> {
    match brought_token(reply) {
        Some(token) => Some(token),
        None => held,
    }
}

/// The work orders that a cycle has to carry out, in their order: those of
/// the accepted answer, or none.
pub open spec fn tasks_from(reply: HeartbeatReplyView) -> Seq<TaskView> {
    match accepted_response(reply) {
        Some(response) => response.tasks,
        None => Seq::empty(),
    }
}

/// Ends a heartbeat cycle: takes the machine token from the reply, where it
/// brought one, and hands out the work orders to carry out, in their order.
pub fn complete_cycle(session: &mut SessionState, reply: HeartbeatReply) -> (tasks: Vec<Task>)
    ensures
        final(session)@ == token_after(old(session)@, reply@),
        tasks_of(tasks@) == tasks_from(reply@),
        tasks.len() == tasks_from(reply@).len(),
{
    match reply {
        HeartbeatReply::Answered { status, body: Some(response) } => {
            if is_success_status(status) {
                let HeartbeatResponse { status: _, tasks, machine_token } = response;
                match machine_token {
                    Some(token) => {
                        session.machine_token = Some(token);
                    },
                    None => {},
                }
                tasks
            } else {
                let tasks: Vec<Task> = Vec::new();
                assert(tasks_of(tasks@) =~= Seq::<TaskView>::empty());
                tasks
            }
        },
        _ => {
            let tasks: Vec<Task> = Vec::new();
            assert(tasks_of(tasks@) =~= Seq::<TaskView>::empty());
            tasks
        },
    }
}

/// A heartbeat that is ready to be posted.
pub struct HeartbeatRequest {
    pub url: String,
    pub headers: Vec<Header>,
    pub body: SystemInfo,
}

/// An acknowledgment that is ready to be posted.
pub struct AckDelivery {
    pub url: String,
    pub headers: Vec<Header>,
    pub body: AckRequest,
}

/// Begins a heartbeat cycle: reads the host's identity anew and addresses
/// it to the backend, with the headers that the session calls for.
pub fn heartbeat_request(config: &AgentConfig, session: &SessionState) -> (request:
    HeartbeatRequest)
    ensures
        request.url@ == heartbeat_url_of(config.backend_url@),
        headers_view(request.headers@) == headers_of(config.auth_token@, session@),
        is_mac_text(request.body@.mac_address),
{
    HeartbeatRequest {
        url: heartbeat_url(config.backend_url.as_str()),
        headers: request_headers(config.auth_token.as_str(), session),
        body: get_system_info(),
    }
}

/// Addresses a report to the backend, with the headers that the session
/// calls for.
pub fn ack_delivery(config: &AgentConfig, session: &SessionState, report: AckRequest) -> (delivery:
    AckDelivery)
    ensures
        delivery.url@ == ack_url_of(config.backend_url@),
        headers_view(delivery.headers@) == headers_of(config.auth_token@, session@),
        delivery.body@ == report@,
{
    AckDelivery {
        url: ack_url(config.backend_url.as_str()),
        headers: request_headers(config.auth_token.as_str(), session),
        body: report,
    }
}

/// Whether a reply leaves a cycle idle: it brings no work order and no
/// token.
pub open spec fn is_idle_reply(reply: HeartbeatReplyView) -> bool {
    tasks_from(reply).len() == 0 && brought_token(reply) is None
}

/// Two cycles in a row whose replies bring no work order and no token hand
/// out nothing to carry out and leave the session as it was.
pub proof fn lemma_idle_cycles_change_nothing(
    held: Option<Seq<char>>,
    first: HeartbeatReplyView,
    second: HeartbeatReplyView,
)
    requires
        is_idle_reply(first),
        is_idle_reply(second),
    ensures
        tasks_from(first) == Seq::<TaskView>::empty(),
        tasks_from(second) == Seq::<TaskView>::empty(),
        token_after(held, first) == held,
        token_after(token_after(held, first), second) == held,
{
    assert(tasks_from(first) =~= Seq::<TaskView>::empty());
    assert(tasks_from(second) =~= Seq::<TaskView>::empty());
}

/// A reply that comes a second time changes nothing that it did not change
/// the first time.
pub proof fn lemma_repeated_reply_is_absorbed(held: Option<Seq<char>>, reply: HeartbeatReplyView)
    ensures
        token_after(token_after(held, reply), reply) == token_after(held, reply),
{
}

/// A token that the session holds is never cleared: a cycle keeps it or
/// puts a newer one in its place, and the token that a reply brings is the
/// one held afterwards.
pub proof fn lemma_token_is_kept_or_replaced(held: Option<Seq<char>>, reply: HeartbeatReplyView)
    ensures
        held is Some ==> token_after(held, reply) is Some,
        brought_token(reply) is Some ==> token_after(held, reply) == brought_token(reply),
        brought_token(reply) is None ==> token_after(held, reply) == held,
{
}

/// Every request carries the agent's token, and carries the machine token
/// exactly when the session holds one.
pub proof fn lemma_held_token_is_attached(auth_token: Seq<char>, held: Option<Seq<char>>)
    ensures
        headers_of(auth_token, held).contains(("X-Agent-Token"@, auth_token)),
        held matches Some(token) ==> headers_of(auth_token, held).contains(
            ("X-Machine-Token"@, token),
        ),
        held is None ==> headers_of(auth_token, held).len() == 1,
{
    let headers = headers_of(auth_token, held);
    assert(headers[0] == ("X-Agent-Token"@, auth_token));
    if let Some(token) = held {
        assert(headers[1] == ("X-Machine-Token"@, token));
    }
}

} // verus!
