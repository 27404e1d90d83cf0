//! Subprocess bridge: turns one user prompt into a terminal answer
//! from an agent process.  Three requests are written ahead without
//! waiting — `initialize` (id 1), `session/new` (id 2),
//! `session/prompt` (id 3) — and stdout is then read line by line
//! until a message with id 3 arrives.  The runner performs the
//! spawning, writing, reading and the overall timeout; every decision
//! along the way is taken here.

use vstd::prelude::*;
use crate::strutil::str_concat;

verus! {

/// Hard ceiling on waiting for the agent's prompt response, in
/// seconds: five minutes.
pub const PROMPT_TIMEOUT_SECS: u64 = 300;

/// One handshake request, in wire order.
pub struct BridgeRequest {
    pub id: u64,
    pub method: String,
    /// The prompt text, carried only by the `session/prompt` request.
    pub prompt: Option<String>,
}

/// The three requests written ahead to the agent, in order: ids 1, 2
/// and 3, the last carrying the prompt text.
pub fn handshake_requests(prompt_text: &str) -> (r: Vec<BridgeRequest>)
    ensures
        r@.len() == 3,
        r@[0].id == 1 && r@[0].method@ == "initialize"@ && r@[0].prompt is None,
        r@[1].id == 2 && r@[1].method@ == "session/new"@ && r@[1].prompt is None,
        r@[2].id == 3 && r@[2].method@ == "session/prompt"@ && (r@[2].prompt matches Some(p)
            && p@ == prompt_text@),
{
    let mut r: Vec<BridgeRequest> = Vec::new();
    r.push(BridgeRequest { id: 1, method: "initialize".to_owned(), prompt: None });
    r.push(BridgeRequest { id: 2, method: "session/new".to_owned(), prompt: None });
    r.push(
        BridgeRequest {
            id: 3,
            method: "session/prompt".to_owned(),
            prompt: Some(prompt_text.to_owned()),
        },
    );
    r
}

/// What one stdout line of the agent amounts to, as far as the bridge
/// cares.
pub enum BridgeLine {
    /// Blank or not parsable as JSON: skipped silently.
    NotJson,
    /// A JSON message with its id, if any, and what it carries.
    Message { id: Option<u64>, payload: BridgePayload },
}

/// What a JSON message carries: a serialized result, an error with
/// its optional message text, or neither.
pub enum BridgePayload {
    ResultText(String),
    ErrorMessage(Option<String>),
    Neither,
}

/// The bridge's decision after one line: keep reading, or finish with
/// the given outcome.
pub enum BridgeStep {
    Continue,
    Finish(Result<String, String>),
}

/// Decides one line of agent output.  Only a message whose id is 3
/// can finish the bridge: its result is the bridge's success output,
/// its error fails the bridge with the error's text; every other line
/// is skipped.
pub fn bridge_step(line: BridgeLine) -> (r: BridgeStep)
    ensures
        r is Finish <==> (line matches BridgeLine::Message { id, payload } && id == Some(3u64)
            && !(payload is Neither)),
        match line {
            BridgeLine::NotJson => r == BridgeStep::Continue,
            BridgeLine::Message { id, payload } => {
                if id == Some(3u64) {
                    match payload {
                        BridgePayload::ResultText(t) => r matches BridgeStep::Finish(out)
                            && (out matches Ok(text) && text@ == t@),
                        BridgePayload::ErrorMessage(m) => r matches BridgeStep::Finish(out) && (
                        out matches Err(e) && e@ == "Agent error: "@ + (match m {
                            Some(msg) => msg@,
                            None => "unknown"@,
                        })),
                        BridgePayload::Neither => r == BridgeStep::Continue,
                    }
                } else {
                    r == BridgeStep::Continue
                }
            },
        },
{
    match line {
        BridgeLine::NotJson => BridgeStep::Continue,
        BridgeLine::Message { id, payload } => {
            let is_three = match id {
                Option::Some(n) => n == 3,
                Option::None => false,
            };
            if !is_three {
                return BridgeStep::Continue;
            }
            match payload {
                BridgePayload::ResultText(t) => BridgeStep::Finish(Ok(t)),
                BridgePayload::ErrorMessage(m) => {
                    let text: String = match m {
                        Option::Some(msg) => msg,
                        Option::None => "unknown".to_owned(),
                    };
                    BridgeStep::Finish(Err(str_concat("Agent error: ", text.as_str())))
                },
                BridgePayload::Neither => BridgeStep::Continue,
            }
        },
    }
}

/// The bridge's outcome when the agent's stream ends without an id-3
/// reply: success with empty output.
pub fn bridge_eof_outcome() -> (r: Result<String, String>)
    ensures
        r matches Ok(s) && s@ == Seq::<char>::empty(),
{
    Ok(String::new())
}

/// The error reported when the overall timeout expires.
pub fn bridge_timeout_error() -> (r: String)
    ensures
        r@ == "Agent response timeout (5 min)"@,
{
    "Agent response timeout (5 min)".to_owned()
}

/// The error reported when the agent executable cannot be spawned.
pub fn spawn_failure_message(command: &str, err: &str) -> (r: String)
    ensures
        r@ == "Failed to spawn '"@ + command@ + "': "@ + err@ + ". Is it installed?"@,
{
    let mut s = str_concat("Failed to spawn '", command);
    s.append("': ");
    s.append(err);
    s.append(". Is it installed?");
    proof {
        assert(s@ =~= "Failed to spawn '"@ + command@ + "': "@ + err@ + ". Is it installed?"@);
    }
    s
}

} // verus!
