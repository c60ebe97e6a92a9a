//! What herdr is asked over its socket, and what its replies mean.
//!
//! Events are only hints that something moved: the list of agents that herdr
//! hands out on request is the truth.
use crate::number::{decimal, write_decimal};
use crate::path::FilePath;
use crate::text::{opt_view, run_on, same};
use crate::time::{seconds, write_seconds};
use vstd::prelude::*;

verus! {

/// `pane.agent_status_changed` needs a pane id, which would mean tracking
/// subscriptions per pane as they come and go. `pane.updated` is global and
/// already carries the agent status, which is all this daemon needs.
pub const SUBSCRIPTIONS: [&'static str; 5] = [
    "pane.updated",
    "pane.created",
    "pane.closed",
    "pane.exited",
    "pane.agent_detected",
];

/// herdr answers from memory, so anything slower than these nanoseconds is a
/// hang, not load.
pub const REQUEST_TIMEOUT: u128 = 5_000_000_000;

pub const AGENT_LIST_ID: &'static str = "qubeherd:agent.list";

pub const SUBSCRIBE_ID: &'static str = "qubeherd:subscribe";

/// How many agents are in each state, as far as a byte can tell.
#[derive(Clone, Copy, Debug, PartialEq, Eq, Structural)]
pub struct AgentCounts {
    pub working: u8,
    pub idle: u8,
    pub blocked: u8,
    pub done: u8,
    pub unknown: u8,
}

/// No agents at all.
pub open spec fn no_agents() -> AgentCounts {
    AgentCounts { working: 0, idle: 0, blocked: 0, done: 0, unknown: 0 }
}

impl Default for AgentCounts {
    fn default() -> (counts: Self)
        ensures
            counts == no_agents(),
    {
        AgentCounts { working: 0, idle: 0, blocked: 0, done: 0, unknown: 0 }
    }
}

impl AgentCounts {
    /// The counts as a log line spells them.
    pub open spec fn spelled(self) -> Seq<char> {
        decimal(self.working as nat) + " working, "@ + decimal(self.idle as nat) + " idle, "@
            + decimal(self.blocked as nat) + " blocked, "@ + decimal(self.done as nat)
            + " done, "@ + decimal(self.unknown as nat) + " unknown"@
    }

    /// Spells the counts out for a log line.
    pub fn to_text(&self) -> (text: String)
        ensures
            text@ == self.spelled(),
    {
        let mut text = write_decimal(self.working as u64);
        text.append(" working, ");
        text.append(write_decimal(self.idle as u64).as_str());
        text.append(" idle, ");
        text.append(write_decimal(self.blocked as u64).as_str());
        text.append(" blocked, ");
        text.append(write_decimal(self.done as u64).as_str());
        text.append(" done, ");
        text.append(write_decimal(self.unknown as u64).as_str());
        text.append(" unknown");
        text
    }
}

/// The `error` member of a reply.
#[derive(Debug, PartialEq, Eq)]
pub enum ErrorField {
    /// A present member that holds null, which is how some servers spell
    /// success.
    Null,
    /// Anything else, rendered as JSON.
    Value(String),
}

/// A reply to the request for the agents.
#[derive(Debug, PartialEq, Eq)]
pub struct Response {
    pub id: Option<String>,
    pub result: Option<AgentList>,
    pub error: Option<ErrorField>,
}

/// A reply that is only checked for failure: the subscription answers with a
/// result of its own shape, which must not be held to the agent list's.
#[derive(Debug, PartialEq, Eq)]
pub struct Ack {
    pub id: Option<String>,
    pub error: Option<ErrorField>,
}

/// The agents that herdr knows of.
#[derive(Debug, PartialEq, Eq)]
pub struct AgentList {
    pub agents: Vec<Agent>,
}

#[derive(Debug, PartialEq, Eq)]
pub struct Agent {
    pub agent_status: Option<String>,
}

/// The steps of a conversation with herdr, for saying where it went wrong.
#[derive(Clone, Copy, Debug, PartialEq, Eq, Structural)]
pub enum Step {
    Connecting,
    SendingAgentList,
    ReadingAgentList,
    SendingSubscribe,
    ReadingSubscribe,
    ReadingEvents,
}

/// Why herdr could not be asked, or what was wrong with its answer.
#[derive(Debug, PartialEq, Eq)]
pub enum HerdrError {
    /// The step took longer than `REQUEST_TIMEOUT`.
    TimedOut(Step),
    /// The socket failed, for the given reason.
    Broken(Step, String),
    /// The peer hung up instead of answering.
    Closed(Step),
    /// The answer has a shape that nobody here knows.
    Garbled(Step, String),
    /// herdr answered with this error.
    Refused(Step, String),
    /// The answer belongs to another request.
    ForeignId(Step, String),
    /// Neither a result nor an error.
    Empty(Step),
}

impl Step {
    /// The step in words, with the socket as it is shown.
    pub open spec fn spelled(self, socket: Seq<char>) -> Seq<char> {
        match self {
            Step::Connecting => "connecting to "@ + socket,
            Step::SendingAgentList => "sending agent.list"@,
            Step::ReadingAgentList => "reading agent.list"@,
            Step::SendingSubscribe => "sending events.subscribe"@,
            Step::ReadingSubscribe => "reading subscribe reply"@,
            Step::ReadingEvents => "reading event stream"@,
        }
    }

    /// Puts the step into words.
    pub fn to_text(&self, socket: &str) -> (text: String)
        ensures
            text@ == self.spelled(socket@),
    {
        match self {
            Step::Connecting => run_on("connecting to ", socket),
            Step::SendingAgentList => "sending agent.list".to_owned(),
            Step::ReadingAgentList => "reading agent.list".to_owned(),
            Step::SendingSubscribe => "sending events.subscribe".to_owned(),
            Step::ReadingSubscribe => "reading subscribe reply".to_owned(),
            Step::ReadingEvents => "reading event stream".to_owned(),
        }
    }
}

impl HerdrError {
    /// The error in words, with the socket as it is shown.
    pub open spec fn spelled(self, socket: Seq<char>) -> Seq<char> {
        match self {
            HerdrError::TimedOut(step) => step.spelled(socket) + " timed out after "@ + seconds(
                REQUEST_TIMEOUT,
            ) + "s"@,
            HerdrError::Broken(step, cause) => step.spelled(socket) + ": "@ + cause@,
            HerdrError::Closed(step) => if step is ReadingEvents {
                "herdr closed the event stream"@
            } else {
                "herdr closed the socket during "@ + step.spelled(socket)
            },
            HerdrError::Garbled(step, cause) => if step is ReadingSubscribe {
                "parsing subscribe reply: "@ + cause@
            } else {
                "parsing agent.list: "@ + cause@
            },
            HerdrError::Refused(step, error) => if step is ReadingSubscribe {
                "subscribe rejected: "@ + error@
            } else {
                "agent.list failed: "@ + error@
            },
            HerdrError::ForeignId(step, id) => if step is ReadingSubscribe {
                "subscribe answered with a foreign id: "@ + id@
            } else {
                "agent.list answered with a foreign id: "@ + id@
            },
            HerdrError::Empty(_) => "agent.list returned neither a result nor an error"@,
        }
    }

    /// Puts the error into words.
    pub fn to_text(&self, socket: &str) -> (text: String)
        ensures
            text@ == self.spelled(socket@),
    {
        match self {
            HerdrError::TimedOut(step) => {
                let mut text = step.to_text(socket);
                text.append(" timed out after ");
                text.append(write_seconds(REQUEST_TIMEOUT).as_str());
                text.append("s");
                text
            },
            HerdrError::Broken(step, cause) => {
                let mut text = step.to_text(socket);
                text.append(": ");
                text.append(cause.as_str());
                text
            },
            HerdrError::Closed(Step::ReadingEvents) => "herdr closed the event stream".to_owned(),
            HerdrError::Closed(step) => run_on(
                "herdr closed the socket during ",
                step.to_text(socket).as_str(),
            ),
            HerdrError::Garbled(Step::ReadingSubscribe, cause) => run_on(
                "parsing subscribe reply: ",
                cause.as_str(),
            ),
            HerdrError::Garbled(_, cause) => run_on("parsing agent.list: ", cause.as_str()),
            HerdrError::Refused(Step::ReadingSubscribe, error) => run_on(
                "subscribe rejected: ",
                error.as_str(),
            ),
            HerdrError::Refused(_, error) => run_on("agent.list failed: ", error.as_str()),
            HerdrError::ForeignId(Step::ReadingSubscribe, id) => run_on(
                "subscribe answered with a foreign id: ",
                id.as_str(),
            ),
            HerdrError::ForeignId(_, id) => run_on(
                "agent.list answered with a foreign id: ",
                id.as_str(),
            ),
            HerdrError::Empty(_) => {
                "agent.list returned neither a result nor an error".to_owned()
            },
        }
    }
}

/// How a socket operation ended that was given a limited time.
#[derive(Debug, PartialEq, Eq)]
pub enum Timed<T> {
    Done(T),
    Failed(String),
    Late,
}

/// What a bounded socket operation amounts to.
pub open spec fn settled<T>(outcome: Timed<T>, step: Step) -> Result<T, HerdrError> {
    match outcome {
        Timed::Done(value) => Ok(value),
        Timed::Failed(cause) => Err(HerdrError::Broken(step, cause)),
        Timed::Late => Err(HerdrError::TimedOut(step)),
    }
}

/// Bounds one socket operation, turning a hung peer into an ordinary error.
pub fn deadline<T>(outcome: Timed<T>, step: Step) -> (result: Result<T, HerdrError>)
    ensures
        result == settled(outcome, step),
{
    match outcome {
        Timed::Done(value) => Ok(value),
        Timed::Failed(cause) => Err(HerdrError::Broken(step, cause)),
        Timed::Late => Err(HerdrError::TimedOut(step)),
    }
}

/// Takes in the line of a reply, of which so many bytes were read. No bytes
/// at all means that herdr closed the socket.
pub fn read_reply(read: Timed<usize>, line: String, step: Step) -> (reply: Result<
    String,
    HerdrError,
>)
    ensures
        reply == (match settled(read, step) {
            Ok(bytes) => if bytes == 0 {
                Err(HerdrError::Closed(step))
            } else {
                Ok(line)
            },
            Err(error) => Err(error),
        }),
{
    match deadline(read, step) {
        Ok(bytes) => if bytes == 0 {
            Err(HerdrError::Closed(step))
        } else {
            Ok(line)
        },
        Err(error) => Err(error),
    }
}

/// The error that a reply carries: the member, unless it is null.
pub open spec fn real_error(error: Option<ErrorField>) -> Option<String> {
    match error {
        Some(ErrorField::Value(text)) => Some(text),
        _ => None,
    }
}

/// A reply may carry a null error on success, which is a present key holding
/// null and not an absent one. Treating it as a failure would reject every
/// reply from a server that spells success that way.
pub fn error_of(error: Option<ErrorField>) -> (kept: Option<String>)
    ensures
        kept == real_error(error),
{
    match error {
        Some(ErrorField::Value(text)) => Some(text),
        Some(ErrorField::Null) => None,
        None => None,
    }
}

/// The cells that an agent can be counted in.
#[derive(Clone, Copy, Debug, PartialEq, Eq, Structural)]
pub enum Slot {
    Working,
    Idle,
    Blocked,
    Done,
    Unknown,
}

/// The cell for a status. One that is absent or new counts as unknown.
pub open spec fn slot_for(status: Option<Seq<char>>) -> Slot {
    match status {
        Some(name) => if name == "working"@ {
            Slot::Working
        } else if name == "idle"@ {
            Slot::Idle
        } else if name == "blocked"@ {
            Slot::Blocked
        } else if name == "done"@ {
            Slot::Done
        } else {
            Slot::Unknown
        },
        None => Slot::Unknown,
    }
}

/// How many of the agents belong in a cell.
pub open spec fn count_in(agents: Seq<Agent>, slot: Slot) -> nat
    decreases agents.len(),
{
    if agents.len() == 0 {
        0
    } else {
        count_in(agents.drop_last(), slot) + if slot_for(opt_view(agents.last().agent_status))
            == slot {
            1nat
        } else {
            0nat
        }
    }
}

/// A count as far as a byte can hold it.
pub open spec fn capped(count: nat) -> u8 {
    if count <= 255 {
        count as u8
    } else {
        255
    }
}

/// The counts of a list of agents, each cell stopping at 255.
pub open spec fn tallied(agents: Seq<Agent>) -> AgentCounts {
    AgentCounts {
        working: capped(count_in(agents, Slot::Working)),
        idle: capped(count_in(agents, Slot::Idle)),
        blocked: capped(count_in(agents, Slot::Blocked)),
        done: capped(count_in(agents, Slot::Done)),
        unknown: capped(count_in(agents, Slot::Unknown)),
    }
}

/// How many of the agents have a status, to the letter.
pub open spec fn with_status(agents: Seq<Agent>, status: Seq<char>) -> nat {
    agents.filter(
        |agent: Agent| agent.agent_status matches Some(name) && name@ == status,
    ).len()
}

/// How many of the agents have none of the four states, or none at all.
pub open spec fn with_no_known_status(agents: Seq<Agent>) -> nat {
    agents.filter(
        |agent: Agent|
            agent.agent_status matches Some(name) ==> name@ != "working"@ && name@ != "idle"@
                && name@ != "blocked"@ && name@ != "done"@,
    ).len()
}

/// Whether a cell holds a number exactly, or its largest value where the number
/// does not fit.
pub open spec fn holds_up_to_255(cell: u8, number: nat) -> bool {
    &&& number <= 255 ==> cell as nat == number
    &&& number > 255 ==> cell as nat == 255
}

/// Finds the cell for one agent.
fn slot_of(agent: &Agent) -> (slot: Slot)
    ensures
        slot == slot_for(opt_view(agent.agent_status)),
{
    match &agent.agent_status {
        Some(name) => if same(name.as_str(), "working") {
            Slot::Working
        } else if same(name.as_str(), "idle") {
            Slot::Idle
        } else if same(name.as_str(), "blocked") {
            Slot::Blocked
        } else if same(name.as_str(), "done") {
            Slot::Done
        } else {
            Slot::Unknown
        },
        None => Slot::Unknown,
    }
}

/// Counts the agents by state.
pub fn tally(agents: Vec<Agent>) -> (counts: AgentCounts)
    ensures
        counts == tallied(agents@),
        holds_up_to_255(counts.working, with_status(agents@, "working"@)),
        holds_up_to_255(counts.idle, with_status(agents@, "idle"@)),
        holds_up_to_255(counts.blocked, with_status(agents@, "blocked"@)),
        holds_up_to_255(counts.done, with_status(agents@, "done"@)),
        holds_up_to_255(counts.unknown, with_no_known_status(agents@)),
{
    proof {
        law_each_cell_counts_its_status(agents@);
    }
    let mut counts = AgentCounts::default();
    let mut i: usize = 0;
    while i < agents.len()
        invariant
            i <= agents@.len(),
            counts == tallied(agents@.take(i as int)),
        decreases agents@.len() - i,
    {
        assert(agents@.take(i as int + 1).drop_last() =~= agents@.take(i as int));
        assert(agents@.take(i as int + 1).last() == agents@[i as int]);
        match slot_of(&agents[i]) {
            Slot::Working => counts.working = counts.working.saturating_add(1),
            Slot::Idle => counts.idle = counts.idle.saturating_add(1),
            Slot::Blocked => counts.blocked = counts.blocked.saturating_add(1),
            Slot::Done => counts.done = counts.done.saturating_add(1),
            Slot::Unknown => counts.unknown = counts.unknown.saturating_add(1),
        }
        i += 1;
    }
    assert(agents@.take(i as int) =~= agents@);
    counts
}

/// A character that JSON text carries as it is.
pub open spec fn plain_char(c: char) -> bool {
    c as int >= 0x20 && c != '"' && c != '\\'
}

/// A text without anything that JSON would have to escape.
pub open spec fn plain(text: Seq<char>) -> bool {
    forall|i: int| 0 <= i < text.len() ==> plain_char(#[trigger] text[i])
}

/// A text between double quotes.
pub open spec fn quoted(text: Seq<char>) -> Seq<char> {
    seq!['"'] + text + seq!['"']
}

/// Renders a JSON string: `serde_json::Value::from` on the text, then its
/// compact rendering. Claimed of it: a text that holds no control character, no
/// double quote and no backslash comes out between double quotes, unchanged.
/// Nothing is said of other texts, which are not handed to it.
#[verifier::external_body]
fn json_string(text: &str) -> (rendered: String)
    requires
        plain(text@),
    ensures
        rendered@ == quoted(text@),
{
    serde_json::Value::from(text).to_string()
}

/// The line that asks for the agents: one JSON object, then a line feed.
pub open spec fn agent_list_line() -> Seq<char> {
    "{\"id\":"@ + quoted(AGENT_LIST_ID@) + ",\"method\":"@ + quoted("agent.list"@)
        + ",\"params\":{}}\n"@
}

/// Writes the line that asks for the agents.
pub fn agent_list_request() -> (line: String)
    ensures
        line@ == agent_list_line(),
{
    proof {
        reveal_strlit("qubeherd:agent.list");
        reveal_strlit("agent.list");
    }
    let mut line = "{\"id\":".to_owned();
    line.append(json_string(AGENT_LIST_ID).as_str());
    line.append(",\"method\":");
    line.append(json_string("agent.list").as_str());
    line.append(",\"params\":{}}\n");
    line
}

/// The first `n` subscriptions as members of a JSON array.
pub open spec fn subscription_items(n: nat) -> Seq<char>
    decreases n,
{
    if n == 0 {
        Seq::empty()
    } else {
        let earlier = subscription_items((n - 1) as nat);
        let separator = if n == 1 {
            Seq::empty()
        } else {
            ","@
        };
        earlier + separator + "{\"type\":"@ + quoted(SUBSCRIPTIONS@[n - 1]@) + "}"@
    }
}

/// The line that subscribes to the pane events: one JSON object, then a line
/// feed.
pub open spec fn subscribe_line() -> Seq<char> {
    "{\"id\":"@ + quoted(SUBSCRIBE_ID@) + ",\"method\":"@ + quoted("events.subscribe"@)
        + ",\"params\":{\"subscriptions\":["@ + subscription_items(5) + "]}}\n"@
}

/// Writes the line that subscribes to the pane events.
pub fn subscribe_request() -> (line: String)
    ensures
        line@ == subscribe_line(),
{
    proof {
        reveal_strlit("qubeherd:subscribe");
        reveal_strlit("events.subscribe");
        reveal_strlit("pane.updated");
        reveal_strlit("pane.created");
        reveal_strlit("pane.closed");
        reveal_strlit("pane.exited");
        reveal_strlit("pane.agent_detected");
    }
    let mut line = "{\"id\":".to_owned();
    line.append(json_string(SUBSCRIBE_ID).as_str());
    line.append(",\"method\":");
    line.append(json_string("events.subscribe").as_str());
    line.append(",\"params\":{\"subscriptions\":[");
    let ghost head = line@;
    let mut i: usize = 0;
    assert(line@ =~= head + subscription_items(0));
    while i < 5
        invariant
            i <= 5,
            line@ == head + subscription_items(i as nat),
            forall|k: int| 0 <= k < 5 ==> plain(#[trigger] SUBSCRIPTIONS@[k]@),
        decreases 5 - i,
    {
        if i > 0 {
            line.append(",");
        }
        line.append("{\"type\":");
        line.append(json_string(SUBSCRIPTIONS[i]).as_str());
        line.append("}");
        i += 1;
        assert(line@ =~= head + subscription_items(i as nat));
    }
    line.append("]}}\n");
    assert(line@ =~= subscribe_line());
    line
}

/// Whether a reply names the request that it is meant for, where it names one.
pub open spec fn own_id(id: Option<Seq<char>>, expected: Seq<char>) -> bool {
    id matches Some(id) ==> id == expected
}

/// What a reply says about a request: a real error comes first, then an id that
/// belongs to another request.
pub open spec fn complaint(
    id: Option<String>,
    error: Option<ErrorField>,
    expected: Seq<char>,
    step: Step,
) -> Option<HerdrError> {
    if let Some(text) = real_error(error) {
        Some(HerdrError::Refused(step, text))
    } else if !own_id(opt_view(id), expected) {
        Some(HerdrError::ForeignId(step, id->0))
    } else {
        None
    }
}

/// Checks a reply for an error and for an id that belongs to another request.
/// The socket serves one request at a time, but an unsolicited line arriving
/// first would otherwise be read as the answer.
fn check_reply(
    id: Option<String>,
    error: Option<ErrorField>,
    expected: &str,
    step: Step,
) -> (found: Option<HerdrError>)
    ensures
        found == complaint(id, error, expected@, step),
{
    if let Some(text) = error_of(error) {
        return Some(HerdrError::Refused(step, text));
    }
    match id {
        Some(id) => if same(id.as_str(), expected) {
            None
        } else {
            Some(HerdrError::ForeignId(step, id))
        },
        None => None,
    }
}

/// What the answer to the request for the agents amounts to.
pub open spec fn counts_from(reply: Result<Response, String>) -> Result<AgentCounts, HerdrError> {
    let step = Step::ReadingAgentList;
    match reply {
        Err(cause) => Err(HerdrError::Garbled(step, cause)),
        Ok(response) => match complaint(response.id, response.error, AGENT_LIST_ID@, step) {
            Some(error) => Err(error),
            None => match response.result {
                Some(list) => Ok(tallied(list.agents@)),
                None => Err(HerdrError::Empty(step)),
            },
        },
    }
}

/// What the answer to the subscription amounts to.
pub open spec fn subscribed_by(reply: Result<Ack, String>) -> Result<(), HerdrError> {
    let step = Step::ReadingSubscribe;
    match reply {
        Err(cause) => Err(HerdrError::Garbled(step, cause)),
        Ok(ack) => match complaint(ack.id, ack.error, SUBSCRIBE_ID@, step) {
            Some(error) => Err(error),
            None => Ok(()),
        },
    }
}

/// Where herdr listens.
#[derive(Debug, PartialEq, Eq)]
pub struct Client {
    pub socket_path: FilePath,
}

impl Client {
    pub fn new(socket_path: &FilePath) -> (client: Client)
        ensures
            client.socket_path@ == socket_path@,
    {
        Client { socket_path: socket_path.copy() }
    }

    /// Takes in the answer to the request for the agents: the line as far as it
    /// could be understood, or why it could not.
    pub fn agent_counts(&self, reply: Result<Response, String>) -> (counts: Result<
        AgentCounts,
        HerdrError,
    >)
        ensures
            counts == counts_from(reply),
    {
        let step = Step::ReadingAgentList;
        let response = match reply {
            Ok(response) => response,
            Err(cause) => {
                return Err(HerdrError::Garbled(step, cause));
            },
        };
        if let Some(error) = check_reply(response.id, response.error, AGENT_LIST_ID, step) {
            return Err(error);
        }
        match response.result {
            Some(list) => Ok(tally(list.agents)),
            None => Err(HerdrError::Empty(step)),
        }
    }

    /// Takes in the answer to the subscription.
    pub fn subscribe(&self, reply: Result<Ack, String>) -> (events: Result<Events, HerdrError>)
        ensures
            match subscribed_by(reply) {
                Ok(_) => events is Ok,
                Err(error) => events == Err::<Events, HerdrError>(error),
            },
    {
        let step = Step::ReadingSubscribe;
        let ack = match reply {
            Ok(ack) => ack,
            Err(cause) => {
                return Err(HerdrError::Garbled(step, cause));
            },
        };
        match check_reply(ack.id, ack.error, SUBSCRIBE_ID, step) {
            Some(error) => Err(error),
            None => Ok(Events {  }),
        }
    }
}

/// A standing subscription.
#[derive(Debug, PartialEq, Eq)]
pub struct Events {}

impl Events {
    /// Takes in the next line of the event stream. The payload is deliberately
    /// ignored: only a failing or ended stream makes a difference.
    pub fn next(&self, line: Result<Option<String>, String>) -> (moved: Result<(), HerdrError>)
        ensures
            moved == (match line {
                Ok(Some(_)) => Ok(()),
                Ok(None) => Err(HerdrError::Closed(Step::ReadingEvents)),
                Err(cause) => Err(HerdrError::Broken(Step::ReadingEvents, cause)),
            }),
    {
        match line {
            Ok(Some(_)) => Ok(()),
            Ok(None) => Err(HerdrError::Closed(Step::ReadingEvents)),
            Err(cause) => Err(HerdrError::Broken(Step::ReadingEvents, cause)),
        }
    }
}

/// Counts are only ever reported from an agent list: a reply without one, with
/// an error, or to somebody else's request is never taken for zero agents.
pub proof fn law_counts_come_from_an_agent_list(reply: Result<Response, String>)
    ensures
        counts_from(reply) is Ok <==> (reply matches Ok(response) && response.result is Some
            && real_error(response.error) is None && own_id(
            opt_view(response.id),
            AGENT_LIST_ID@,
        )),
{
}

/// A null error and an absent one mean the same.
pub proof fn law_null_error_is_no_error(id: Option<String>, result: Option<AgentList>)
    ensures
        counts_from(Ok(Response { id, result, error: Some(ErrorField::Null) })) == counts_from(
            Ok(Response { id, result, error: None }),
        ),
        subscribed_by(Ok(Ack { id, error: Some(ErrorField::Null) })) == subscribed_by(
            Ok(Ack { id, error: None }),
        ),
{
}

/// Every agent lands in exactly one cell.
pub proof fn law_every_agent_is_counted_once(agents: Seq<Agent>)
    ensures
        count_in(agents, Slot::Working) + count_in(agents, Slot::Idle) + count_in(
            agents,
            Slot::Blocked,
        ) + count_in(agents, Slot::Done) + count_in(agents, Slot::Unknown) == agents.len(),
    decreases agents.len(),
{
    if agents.len() > 0 {
        law_every_agent_is_counted_once(agents.drop_last());
    }
}

/// The order in which herdr lists the agents makes no difference.
pub proof fn law_listing_order_is_irrelevant(agents: Seq<Agent>, reordered: Seq<Agent>)
    requires
        agents.to_multiset() == reordered.to_multiset(),
    ensures
        tallied(agents) == tallied(reordered),
{
    assert forall|slot: Slot| count_in(agents, slot) == count_in(reordered, slot) by {
        lemma_count_order(agents, reordered, slot);
    }
}

proof fn lemma_count_order(agents: Seq<Agent>, reordered: Seq<Agent>, slot: Slot)
    requires
        agents.to_multiset() == reordered.to_multiset(),
    ensures
        count_in(agents, slot) == count_in(reordered, slot),
    decreases agents.len(),
{
    agents.to_multiset_ensures();
    reordered.to_multiset_ensures();
    assert(agents.len() == reordered.len());
    if agents.len() > 0 {
        let last = agents.last();
        assert(agents.contains(last));
        assert(reordered.to_multiset().count(last) > 0);
        let at = choose|at: int| 0 <= at < reordered.len() && reordered[at] == last;
        let front = reordered.take(at);
        let back = reordered.skip(at + 1);
        assert(agents.remove(agents.len() - 1) =~= agents.drop_last());
        assert(reordered.remove(at) =~= front + back);
        lemma_count_order(agents.drop_last(), front + back, slot);
        assert(reordered =~= front.push(last) + back);
        assert(front.push(last).drop_last() =~= front);
        law_counts_add_up(front.push(last), back, slot);
        law_counts_add_up(front, back, slot);
    }
}

/// Two lists count together what they count apart.
pub proof fn law_counts_add_up(front: Seq<Agent>, back: Seq<Agent>, slot: Slot)
    ensures
        count_in(front + back, slot) == count_in(front, slot) + count_in(back, slot),
    decreases back.len(),
{
    if back.len() == 0 {
        assert(front + back =~= front);
    } else {
        assert((front + back).drop_last() =~= front + back.drop_last());
        law_counts_add_up(front, back.drop_last(), slot);
    }
}

/// Each cell holds how many agents have its status, as far as a byte reaches, and
/// the last cell those that have none of the four.
pub proof fn law_each_cell_counts_its_status(agents: Seq<Agent>)
    ensures
        holds_up_to_255(tallied(agents).working, with_status(agents, "working"@)),
        holds_up_to_255(tallied(agents).idle, with_status(agents, "idle"@)),
        holds_up_to_255(tallied(agents).blocked, with_status(agents, "blocked"@)),
        holds_up_to_255(tallied(agents).done, with_status(agents, "done"@)),
        holds_up_to_255(tallied(agents).unknown, with_no_known_status(agents)),
{
    lemma_counts_are_filters(agents);
}

proof fn lemma_counts_are_filters(agents: Seq<Agent>)
    ensures
        count_in(agents, Slot::Working) == with_status(agents, "working"@),
        count_in(agents, Slot::Idle) == with_status(agents, "idle"@),
        count_in(agents, Slot::Blocked) == with_status(agents, "blocked"@),
        count_in(agents, Slot::Done) == with_status(agents, "done"@),
        count_in(agents, Slot::Unknown) == with_no_known_status(agents),
    decreases agents.len(),
{
    reveal(Seq::filter);
    reveal_strlit("working");
    reveal_strlit("idle");
    reveal_strlit("blocked");
    reveal_strlit("done");
    assert("working"@.len() == 7 && "idle"@.len() == 4 && "blocked"@.len() == 7 && "done"@.len()
        == 4);
    assert("working"@[0] != "blocked"@[0] && "idle"@[0] != "done"@[0]);
    if agents.len() > 0 {
        lemma_counts_are_filters(agents.drop_last());
    }
}

/// One more agent adds one to the cell of its status, unless that cell is full,
/// and to no other.
pub proof fn law_one_more_agent_adds_one(agents: Seq<Agent>, agent: Agent)
    ensures
        ({
            let before = tallied(agents);
            let after = tallied(agents.push(agent));
            let status = opt_view(agent.agent_status);
            &&& after.working == one_up(before.working, status == Some("working"@))
            &&& after.idle == one_up(before.idle, status == Some("idle"@))
            &&& after.blocked == one_up(before.blocked, status == Some("blocked"@))
            &&& after.done == one_up(before.done, status == Some("done"@))
            &&& after.unknown == one_up(
                before.unknown,
                status != Some("working"@) && status != Some("idle"@) && status != Some("blocked"@)
                    && status != Some("done"@),
            )
        }),
{
    reveal_strlit("working");
    reveal_strlit("idle");
    reveal_strlit("blocked");
    reveal_strlit("done");
    assert("working"@.len() == 7 && "idle"@.len() == 4 && "blocked"@.len() == 7 && "done"@.len()
        == 4);
    assert("working"@[0] != "blocked"@[0] && "idle"@[0] != "done"@[0]);
    assert(agents.push(agent).drop_last() =~= agents);
}

/// A cell with one more in it where that belongs there, and 255 at most.
pub open spec fn one_up(cell: u8, belongs: bool) -> int {
    if belongs && cell < 255 {
        cell + 1
    } else {
        cell as int
    }
}

/// Each answer to the request for the agents that is no list of them has its own
/// error. Gibberish comes before everything; then a real error, which a null is
/// not; then the id of another request; and last that there is no list. An
/// answer that gets past all of this is counted.
pub proof fn law_an_answer_is_what_it_says(
    cause: String,
    id: Option<String>,
    error: Option<ErrorField>,
    result: Option<AgentList>,
)
    ensures
        counts_from(Err(cause)) == Err::<AgentCounts, HerdrError>(
            HerdrError::Garbled(Step::ReadingAgentList, cause),
        ),
        ({
            let counts = counts_from(Ok(Response { id, result, error }));
            if error matches Some(ErrorField::Value(text)) {
                counts == Err::<AgentCounts, HerdrError>(
                    HerdrError::Refused(Step::ReadingAgentList, error->0->Value_0),
                )
            } else if id is Some && id->0@ != "qubeherd:agent.list"@ {
                counts == Err::<AgentCounts, HerdrError>(
                    HerdrError::ForeignId(Step::ReadingAgentList, id->0),
                )
            } else if result is None {
                counts == Err::<AgentCounts, HerdrError>(HerdrError::Empty(Step::ReadingAgentList))
            } else {
                counts is Ok && holds_up_to_255(
                    counts->Ok_0.working,
                    with_status(result->0.agents@, "working"@),
                ) && counts->Ok_0 == tallied(result->0.agents@)
            }
        }),
        subscribed_by(Err(cause)) == Err::<(), HerdrError>(
            HerdrError::Garbled(Step::ReadingSubscribe, cause),
        ),
        ({
            let subscribed = subscribed_by(Ok(Ack { id, error }));
            if error matches Some(ErrorField::Value(text)) {
                subscribed == Err::<(), HerdrError>(
                    HerdrError::Refused(Step::ReadingSubscribe, error->0->Value_0),
                )
            } else if id is Some && id->0@ != "qubeherd:subscribe"@ {
                subscribed == Err::<(), HerdrError>(
                    HerdrError::ForeignId(Step::ReadingSubscribe, id->0),
                )
            } else {
                subscribed is Ok
            }
        }),
{
    if let Some(list) = result {
        law_each_cell_counts_its_status(list.agents@);
    }
}

/// A socket operation that was done gives what it gave, one that failed its
/// reason, and one that took too long that it did, each with the step at which it
/// happened.
pub proof fn law_a_socket_operation_is_what_it_came_to<T>(value: T, cause: String, step: Step)
    ensures
        settled(Timed::Done(value), step) == Ok::<T, HerdrError>(value),
        settled(Timed::<T>::Failed(cause), step) == Err::<T, HerdrError>(
            HerdrError::Broken(step, cause),
        ),
        settled(Timed::<T>::Late, step) == Err::<T, HerdrError>(HerdrError::TimedOut(step)),
{
}

/// The counts are told in a fixed order, each number in front of its word.
pub proof fn law_counts_are_told_in_words(counts: AgentCounts)
    ensures
        counts.spelled() == decimal(counts.working as nat) + " working, "@ + (decimal(
            counts.idle as nat,
        ) + " idle, "@ + (decimal(counts.blocked as nat) + " blocked, "@ + (decimal(
            counts.done as nat,
        ) + " done, "@ + (decimal(counts.unknown as nat) + " unknown"@)))),
{
    assert(counts.spelled() =~= decimal(counts.working as nat) + " working, "@ + (decimal(
        counts.idle as nat,
    ) + " idle, "@ + (decimal(counts.blocked as nat) + " blocked, "@ + (decimal(
        counts.done as nat,
    ) + " done, "@ + (decimal(counts.unknown as nat) + " unknown"@)))));
}

/// An error tells at which step it happened, and its cause where there is one, word
/// for word and last.
pub proof fn law_an_error_tells_its_step_and_its_cause(
    step: Step,
    cause: String,
    socket: Seq<char>,
)
    ensures
        ({
            let doing = match step {
                Step::Connecting => "connecting to "@ + socket,
                Step::SendingAgentList => "sending agent.list"@,
                Step::ReadingAgentList => "reading agent.list"@,
                Step::SendingSubscribe => "sending events.subscribe"@,
                Step::ReadingSubscribe => "reading subscribe reply"@,
                Step::ReadingEvents => "reading event stream"@,
            };
            &&& HerdrError::TimedOut(step).spelled(socket) == doing + " timed out after 5s"@
            &&& HerdrError::Broken(step, cause).spelled(socket) == doing + ": "@ + cause@
            &&& !(step is ReadingEvents) ==> HerdrError::Closed(step).spelled(socket)
                == "herdr closed the socket during "@ + doing
            &&& step is ReadingEvents ==> HerdrError::Closed(step).spelled(socket)
                == "herdr closed the event stream"@
        }),
        HerdrError::Garbled(Step::ReadingSubscribe, cause).spelled(socket)
            == "parsing subscribe reply: "@ + cause@,
        HerdrError::Garbled(Step::ReadingAgentList, cause).spelled(socket)
            == "parsing agent.list: "@ + cause@,
        HerdrError::Refused(Step::ReadingSubscribe, cause).spelled(socket)
            == "subscribe rejected: "@ + cause@,
        HerdrError::Refused(Step::ReadingAgentList, cause).spelled(socket)
            == "agent.list failed: "@ + cause@,
        HerdrError::ForeignId(Step::ReadingSubscribe, cause).spelled(socket)
            == "subscribe answered with a foreign id: "@ + cause@,
        HerdrError::ForeignId(Step::ReadingAgentList, cause).spelled(socket)
            == "agent.list answered with a foreign id: "@ + cause@,
        HerdrError::Empty(step).spelled(socket)
            == "agent.list returned neither a result nor an error"@,
{
    reveal_strlit(" timed out after ");
    reveal_strlit("s");
    reveal_strlit(" timed out after 5s");
    assert(REQUEST_TIMEOUT / 1_000_000_000 == 5);
    assert(seconds(REQUEST_TIMEOUT) =~= seq!['5']);
    let doing = step.spelled(socket);
    assert(HerdrError::TimedOut(step).spelled(socket) =~= doing + " timed out after 5s"@);
}

/// What is asked of herdr, letter by letter.
pub proof fn law_the_requests_are_these_lines()
    ensures
        agent_list_line()
            == "{\"id\":\"qubeherd:agent.list\",\"method\":\"agent.list\",\"params\":{}}\n"@,
        subscribe_line()
            == "{\"id\":\"qubeherd:subscribe\",\"method\":\"events.subscribe\",\"params\":{\"subscriptions\":[{\"type\":\"pane.updated\"},{\"type\":\"pane.created\"},{\"type\":\"pane.closed\"},{\"type\":\"pane.exited\"},{\"type\":\"pane.agent_detected\"}]}}\n"@,
{
    reveal_strlit("{\"id\":");
    reveal_strlit(",\"method\":");
    reveal_strlit(",\"params\":{}}\n");
    reveal_strlit("qubeherd:agent.list");
    reveal_strlit("agent.list");
    reveal_strlit(
        "{\"id\":\"qubeherd:agent.list\",\"method\":\"agent.list\",\"params\":{}}\n",
    );
    assert(agent_list_line()
        =~= "{\"id\":\"qubeherd:agent.list\",\"method\":\"agent.list\",\"params\":{}}\n"@);
    reveal_strlit("qubeherd:subscribe");
    reveal_strlit("events.subscribe");
    reveal_strlit(",\"params\":{\"subscriptions\":[");
    reveal_strlit("]}}\n");
    reveal_strlit(",");
    reveal_strlit("{\"type\":");
    reveal_strlit("}");
    reveal_strlit("pane.updated");
    reveal_strlit("pane.created");
    reveal_strlit("pane.closed");
    reveal_strlit("pane.exited");
    reveal_strlit("pane.agent_detected");
    reveal_strlit(
        "{\"id\":\"qubeherd:subscribe\",\"method\":\"events.subscribe\",\"params\":{\"subscriptions\":[{\"type\":\"pane.updated\"},{\"type\":\"pane.created\"},{\"type\":\"pane.closed\"},{\"type\":\"pane.exited\"},{\"type\":\"pane.agent_detected\"}]}}\n",
    );
    reveal_with_fuel(subscription_items, 6);
    assert(subscribe_line()
        =~= "{\"id\":\"qubeherd:subscribe\",\"method\":\"events.subscribe\",\"params\":{\"subscriptions\":[{\"type\":\"pane.updated\"},{\"type\":\"pane.created\"},{\"type\":\"pane.closed\"},{\"type\":\"pane.exited\"},{\"type\":\"pane.agent_detected\"}]}}\n"@);
}

} // verus!
