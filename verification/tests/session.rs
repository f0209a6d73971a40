use agent::session::{
    ack_delivery, complete_cycle, heartbeat_request, request_headers, Header, HeartbeatReply,
    SessionState,
};
use agent::wire::{AckRequest, AgentConfig, HeartbeatResponse, Task};

fn config() -> AgentConfig {
    AgentConfig {
        backend_url: "https://fleet.example.com/api".to_string(),
        heartbeat_interval: 30,
        auth_token: "SECRET-REDACTED".to_string(),
    }
}

fn task(id: i32) -> Task {
    Task {
        id,
        task_type: "install".to_string(),
        software_name: "Tool".to_string(),
        download_url: "https://x/tool.exe".to_string(),
        silent_args: "/S".to_string(),
    }
}

fn answer(tasks: Vec<Task>, token: Option<&str>) -> HeartbeatReply {
    HeartbeatReply::Answered {
        status: 200,
        body: Some(HeartbeatResponse {
            status: "ok".to_string(),
            tasks,
            machine_token: token.map(|t| t.to_string()),
        }),
    }
}

fn pairs(headers: &[Header]) -> Vec<(String, String)> {
    headers.iter().map(|h| (h.name.clone(), h.value.clone())).collect()
}

#[test]
fn headers_without_machine_token() {
    let session = SessionState::new();
    assert_eq!(
        pairs(&request_headers("abc", &session)),
        vec![("X-Agent-Token".to_string(), "abc".to_string())]
    );
}

#[test]
fn headers_with_machine_token() {
    let session = SessionState { machine_token: Some("m-1".to_string()) };
    assert_eq!(
        pairs(&request_headers("abc", &session)),
        vec![
            ("X-Agent-Token".to_string(), "abc".to_string()),
            ("X-Machine-Token".to_string(), "m-1".to_string())
        ]
    );
}

#[test]
fn two_idle_cycles_change_nothing() {
    let mut session = SessionState { machine_token: Some("m-1".to_string()) };
    assert!(complete_cycle(&mut session, answer(Vec::new(), None)).is_empty());
    assert!(complete_cycle(&mut session, answer(Vec::new(), None)).is_empty());
    assert_eq!(session.machine_token, Some("m-1".to_string()));
    let mut fresh = SessionState::new();
    assert!(complete_cycle(&mut fresh, answer(Vec::new(), None)).is_empty());
    assert!(complete_cycle(&mut fresh, answer(Vec::new(), None)).is_empty());
    assert_eq!(fresh.machine_token, None);
}

#[test]
fn newer_token_overwrites_the_held_one() {
    let mut session = SessionState::new();
    complete_cycle(&mut session, answer(Vec::new(), Some("m-1")));
    assert_eq!(session.machine_token, Some("m-1".to_string()));
    complete_cycle(&mut session, answer(Vec::new(), Some("m-2")));
    assert_eq!(session.machine_token, Some("m-2".to_string()));
    complete_cycle(&mut session, answer(Vec::new(), Some("m-2")));
    assert_eq!(session.machine_token, Some("m-2".to_string()));
}

#[test]
fn tasks_come_out_in_their_order() {
    let mut session = SessionState::new();
    let tasks = complete_cycle(&mut session, answer(vec![task(3), task(1), task(2)], None));
    assert_eq!(tasks.iter().map(|t| t.id).collect::<Vec<i32>>(), vec![3, 1, 2]);
}

#[test]
fn failed_transport_keeps_the_session() {
    let mut session = SessionState { machine_token: Some("m-1".to_string()) };
    assert!(complete_cycle(&mut session, HeartbeatReply::TransportFailed).is_empty());
    assert_eq!(session.machine_token, Some("m-1".to_string()));
}

#[test]
fn rejected_heartbeat_skips_tasks_and_token() {
    let mut session = SessionState::new();
    let reply = HeartbeatReply::Answered {
        status: 503,
        body: Some(HeartbeatResponse {
            status: "busy".to_string(),
            tasks: vec![task(1)],
            machine_token: Some("m-9".to_string()),
        }),
    };
    assert!(complete_cycle(&mut session, reply).is_empty());
    assert_eq!(session.machine_token, None);
}

#[test]
fn undecodable_answer_skips_the_cycle() {
    let mut session = SessionState { machine_token: Some("m-1".to_string()) };
    let reply = HeartbeatReply::Answered { status: 200, body: None };
    assert!(complete_cycle(&mut session, reply).is_empty());
    assert_eq!(session.machine_token, Some("m-1".to_string()));
}

#[test]
fn heartbeat_request_is_addressed_to_the_backend() {
    let session = SessionState { machine_token: Some("m-1".to_string()) };
    let request = heartbeat_request(&config(), &session);
    assert_eq!(request.url, "https://fleet.example.com/api/heartbeat");
    assert_eq!(request.headers.len(), 2);
    assert_eq!(request.headers[1].value, "m-1");
    assert_eq!(request.body.mac_address.len(), 17);
}

#[test]
fn ack_delivery_carries_the_report() {
    let session = SessionState::new();
    let report = AckRequest {
        task_id: 7,
        status: "failed".to_string(),
        message: "Exit Code: Some(1)".to_string(),
        mac_address: "02:00:00:00:00:01".to_string(),
    };
    let delivery = ack_delivery(&config(), &session, report);
    assert_eq!(delivery.url, "https://fleet.example.com/api/ack");
    assert_eq!(pairs(&delivery.headers), vec![("X-Agent-Token".to_string(), "SECRET-REDACTED".to_string())]);
    assert_eq!(delivery.body.task_id, 7);
    assert_eq!(delivery.body.status, "failed");
    assert_eq!(delivery.body.message, "Exit Code: Some(1)");
    assert_eq!(delivery.body.mac_address, "02:00:00:00:00:01");
}
