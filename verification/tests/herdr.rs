use qubeherd::herdr::{
    agent_list_request, deadline, error_of, read_reply, subscribe_request, tally, Ack, Agent,
    AgentCounts, AgentList, Client, ErrorField, Events, HerdrError, Response, Step, Timed,
    AGENT_LIST_ID, REQUEST_TIMEOUT, SUBSCRIBE_ID, SUBSCRIPTIONS,
};
use qubeherd::path::FilePath;
use serde_json::Value;

/// Captured from a live herdr: the subscribe result has a shape of its own, so
/// holding it to the agent list's would reject every subscription.
const REAL_SUBSCRIBE_ACK: &str =
    r#"{"id":"qubeherd:subscribe","result":{"type":"subscription_started"}}"#;
/// Also captured live, trimmed to the fields this daemon reads.
const REAL_AGENT_LIST: &str = r#"{"id":"qubeherd:agent.list","result":{"type":"agent_list","agents":[{"terminal_id":"t1","agent":"pi","agent_status":"idle"},{"terminal_id":"t2","agent_status":"working"},{"terminal_id":"t3"}]}}"#;

fn id_in(value: &Value) -> Option<String> {
    value.get("id").and_then(|id| id.as_str()).map(String::from)
}

fn error_in(value: &Value) -> Option<ErrorField> {
    value.get("error").map(|error| {
        if error.is_null() {
            ErrorField::Null
        } else {
            ErrorField::Value(error.to_string())
        }
    })
}

fn ack_in(text: &str) -> Result<Ack, String> {
    let value: Value = serde_json::from_str(text).map_err(|error| error.to_string())?;
    Ok(Ack { id: id_in(&value), error: error_in(&value) })
}

fn response_in(text: &str) -> Result<Response, String> {
    let value: Value = serde_json::from_str(text).map_err(|error| error.to_string())?;
    let result = match value.get("result") {
        None | Some(Value::Null) => None,
        Some(result) => {
            let agents = result
                .get("agents")
                .and_then(|agents| agents.as_array())
                .ok_or_else(|| "missing field `agents`".to_string())?;
            Some(AgentList {
                agents: agents
                    .iter()
                    .map(|agent| Agent {
                        agent_status: agent
                            .get("agent_status")
                            .and_then(|status| status.as_str())
                            .map(String::from),
                    })
                    .collect(),
            })
        }
    };
    Ok(Response { id: id_in(&value), result, error: error_in(&value) })
}

fn client() -> Client {
    Client::new(&FilePath::of("/run/herdr.sock"))
}

fn agents(statuses: &[Option<&str>]) -> Vec<Agent> {
    statuses
        .iter()
        .map(|status| Agent { agent_status: status.map(String::from) })
        .collect()
}

#[test]
fn accepts_the_subscribe_ack_herdr_actually_sends() {
    let reply = ack_in(REAL_SUBSCRIBE_ACK).expect("parses");
    assert_eq!(reply.id.as_deref(), Some(SUBSCRIBE_ID));
    assert!(error_of(reply.error).is_none());
    assert!(client().subscribe(ack_in(REAL_SUBSCRIBE_ACK)).is_ok());
}

#[test]
fn reads_the_agent_list_herdr_actually_sends() {
    let response = response_in(REAL_AGENT_LIST).expect("parses");
    let counts = tally(response.result.expect("has a result").agents);
    let expected = AgentCounts { working: 1, idle: 1, unknown: 1, ..AgentCounts::default() };
    assert_eq!(counts, expected);
    assert_eq!(client().agent_counts(response_in(REAL_AGENT_LIST)), Ok(expected));
}

#[test]
fn treats_an_explicit_null_error_as_success() {
    let text = r#"{"id":"qubeherd:subscribe","error":null}"#;
    let reply = ack_in(text).expect("parses");
    assert!(error_of(reply.error).is_none());
    assert!(client().subscribe(ack_in(text)).is_ok());
}

#[test]
fn keeps_a_real_error_object() {
    let text = r#"{"id":"x","error":{"code":-32601}}"#;
    let reply = ack_in(text).expect("parses");
    assert!(error_of(reply.error).is_some());
    assert_eq!(
        client().subscribe(ack_in(text)),
        Err(HerdrError::Refused(Step::ReadingSubscribe, r#"{"code":-32601}"#.to_string()))
    );
}

#[test]
fn refuses_an_agent_list_without_an_agents_field() {
    // Silently counting this as zero agents would blank the dongle while agents
    // are working, and keep heartbeating so the firmware's own expiry never
    // notices.
    let text = r#"{"id":"x","result":{"type":"agent_list"}}"#;
    assert!(response_in(text).is_err());
    assert!(matches!(
        client().agent_counts(response_in(text)),
        Err(HerdrError::Garbled(Step::ReadingAgentList, _))
    ));
}

#[test]
fn an_error_comes_before_a_foreign_id() {
    assert_eq!(
        client().agent_counts(response_in(r#"{"id":"x","error":"busy"}"#)),
        Err(HerdrError::Refused(Step::ReadingAgentList, "\"busy\"".to_string()))
    );
    assert_eq!(
        client().agent_counts(response_in(r#"{"id":"x","result":{"agents":[]}}"#)),
        Err(HerdrError::ForeignId(Step::ReadingAgentList, "x".to_string()))
    );
    assert_eq!(
        client().subscribe(ack_in(r#"{"id":"qubeherd:agent.list"}"#)),
        Err(HerdrError::ForeignId(Step::ReadingSubscribe, AGENT_LIST_ID.to_string()))
    );
}

#[test]
fn an_answer_without_an_id_is_ours() {
    assert_eq!(
        client().agent_counts(response_in(r#"{"result":{"agents":[{"agent_status":"done"}]}}"#)),
        Ok(AgentCounts { done: 1, ..AgentCounts::default() })
    );
}

#[test]
fn neither_a_result_nor_an_error_is_no_answer() {
    assert_eq!(
        client().agent_counts(response_in(r#"{"id":"qubeherd:agent.list"}"#)),
        Err(HerdrError::Empty(Step::ReadingAgentList))
    );
}

#[test]
fn an_empty_list_is_zero_agents() {
    assert_eq!(
        client().agent_counts(response_in(r#"{"id":"qubeherd:agent.list","result":{"agents":[]}}"#)),
        Ok(AgentCounts::default())
    );
}

#[test]
fn counts_stop_at_what_a_byte_holds() {
    let many = tally(agents(&vec![Some("blocked"); 300]));
    assert_eq!(many, AgentCounts { blocked: 255, ..AgentCounts::default() });
    let full = tally(agents(&vec![Some("idle"); 255]));
    assert_eq!(full.idle, 255);
}

#[test]
fn every_status_has_its_cell_whatever_the_order() {
    let one = [
        Some("working"),
        Some("working"),
        Some("idle"),
        Some("blocked"),
        Some("done"),
        Some("Working"),
        None,
    ];
    let other = [
        None,
        Some("done"),
        Some("Working"),
        Some("working"),
        Some("blocked"),
        Some("idle"),
        Some("working"),
    ];
    let expected = AgentCounts { working: 2, idle: 1, blocked: 1, done: 1, unknown: 2 };
    assert_eq!(tally(agents(&one)), expected);
    assert_eq!(tally(agents(&other)), expected);
}

#[test]
fn two_lists_count_together_what_they_count_apart() {
    let front = [Some("idle"), None];
    let back = [Some("idle"), Some("done"), Some("idle")];
    let both: Vec<Option<&str>> = front.iter().chain(back.iter()).copied().collect();
    let (one, other) = (tally(agents(&front)), tally(agents(&back)));
    let together = tally(agents(&both));
    assert_eq!(together.idle, one.idle + other.idle);
    assert_eq!(together.done, one.done + other.done);
    assert_eq!(together.unknown, one.unknown + other.unknown);
}

#[test]
fn counts_read_like_the_log_line() {
    let counts = AgentCounts { working: 1, idle: 2, blocked: 0, done: 0, unknown: 0 };
    assert_eq!(counts.to_text(), "1 working, 2 idle, 0 blocked, 0 done, 0 unknown");
    let many = AgentCounts { working: 255, idle: 10, blocked: 99, done: 100, unknown: 7 };
    assert_eq!(many.to_text(), "255 working, 10 idle, 99 blocked, 100 done, 7 unknown");
}

fn object(members: Vec<(&str, Value)>) -> Value {
    Value::Object(members.into_iter().map(|(key, value)| (key.to_string(), value)).collect())
}

#[test]
fn the_requests_are_what_serde_json_renders() {
    let list = object(vec![
        ("id", Value::from(AGENT_LIST_ID)),
        ("method", Value::from("agent.list")),
        ("params", object(vec![])),
    ]);
    assert_eq!(agent_list_request(), format!("{list}\n"));
    assert_eq!(
        agent_list_request(),
        "{\"id\":\"qubeherd:agent.list\",\"method\":\"agent.list\",\"params\":{}}\n"
    );

    let subscriptions: Vec<Value> = SUBSCRIPTIONS
        .iter()
        .map(|name| object(vec![("type", Value::from(*name))]))
        .collect();
    let subscribe = object(vec![
        ("id", Value::from(SUBSCRIBE_ID)),
        ("method", Value::from("events.subscribe")),
        ("params", object(vec![("subscriptions", Value::from(subscriptions))])),
    ]);
    assert_eq!(subscribe_request(), format!("{subscribe}\n"));
}

#[test]
fn a_hung_peer_is_an_ordinary_error() {
    assert_eq!(REQUEST_TIMEOUT, 5_000_000_000);
    assert_eq!(deadline(Timed::Done(7), Step::Connecting), Ok(7));
    assert_eq!(
        deadline::<u8>(Timed::Late, Step::SendingAgentList),
        Err(HerdrError::TimedOut(Step::SendingAgentList))
    );
    assert_eq!(
        deadline::<u8>(Timed::Failed("refused".to_string()), Step::Connecting),
        Err(HerdrError::Broken(Step::Connecting, "refused".to_string()))
    );
}

#[test]
fn an_empty_read_means_the_socket_was_closed() {
    let step = Step::ReadingAgentList;
    assert_eq!(read_reply(Timed::Done(0), String::new(), step), Err(HerdrError::Closed(step)));
    assert_eq!(read_reply(Timed::Done(3), "{}\n".to_string(), step), Ok("{}\n".to_string()));
    assert_eq!(read_reply(Timed::Late, String::new(), step), Err(HerdrError::TimedOut(step)));
}

#[test]
fn only_the_end_of_the_events_matters() {
    let events = Events {};
    assert_eq!(events.next(Ok(Some("anything".to_string()))), Ok(()));
    assert_eq!(events.next(Ok(None)), Err(HerdrError::Closed(Step::ReadingEvents)));
    assert_eq!(
        events.next(Err("reset".to_string())),
        Err(HerdrError::Broken(Step::ReadingEvents, "reset".to_string()))
    );
}

#[test]
fn errors_say_what_went_wrong() {
    let text = |error: HerdrError| error.to_text("/run/herdr.sock");
    let why = || "why".to_string();
    assert_eq!(
        text(HerdrError::TimedOut(Step::Connecting)),
        "connecting to /run/herdr.sock timed out after 5s"
    );
    assert_eq!(
        text(HerdrError::Broken(Step::SendingAgentList, why())),
        "sending agent.list: why"
    );
    assert_eq!(
        text(HerdrError::TimedOut(Step::SendingSubscribe)),
        "sending events.subscribe timed out after 5s"
    );
    assert_eq!(
        text(HerdrError::Broken(Step::ReadingEvents, why())),
        "reading event stream: why"
    );
    assert_eq!(text(HerdrError::Closed(Step::ReadingEvents)), "herdr closed the event stream");
    assert_eq!(
        text(HerdrError::Closed(Step::ReadingSubscribe)),
        "herdr closed the socket during reading subscribe reply"
    );
    assert_eq!(
        text(HerdrError::Closed(Step::ReadingAgentList)),
        "herdr closed the socket during reading agent.list"
    );
    for (step, garbled, refused, foreign) in [
        (
            Step::ReadingAgentList,
            "parsing agent.list: why",
            "agent.list failed: why",
            "agent.list answered with a foreign id: why",
        ),
        (
            Step::ReadingSubscribe,
            "parsing subscribe reply: why",
            "subscribe rejected: why",
            "subscribe answered with a foreign id: why",
        ),
    ] {
        assert_eq!(text(HerdrError::Garbled(step, why())), garbled);
        assert_eq!(text(HerdrError::Refused(step, why())), refused);
        assert_eq!(text(HerdrError::ForeignId(step, why())), foreign);
    }
    assert_eq!(
        text(HerdrError::Empty(Step::ReadingAgentList)),
        "agent.list returned neither a result nor an error"
    );
}

#[test]
fn a_client_keeps_its_socket() {
    assert_eq!(client().socket_path.bytes, b"/run/herdr.sock".to_vec());
}
