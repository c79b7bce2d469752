//! What a Copilot session is opened with, what it reports, and the clock and
//! id sources that every response is stamped with.

use vstd::prelude::*;
use vstd::arithmetic::power2::pow2;
use crate::types::{ChatCompletionRequest, ToolDefinition};

verus! {

#[verifier::external_type_specification]
#[verifier::external_body]
pub struct ExSystemTime(std::time::SystemTime);

#[verifier::external_type_specification]
#[verifier::external_body]
pub struct ExSystemTimeError(std::time::SystemTimeError);

#[verifier::external_type_specification]
#[verifier::external_body]
pub struct ExJsonError(serde_json::Error);

/// `<serde_json::Value as Clone>::clone` (derived): the copy equals the original.
pub assume_specification[ <serde_json::Value as Clone>::clone ](v: &serde_json::Value) -> (c: serde_json::Value)
    ensures
        c == *v,
;

/// `std::time::SystemTime::now`: the current system time; nothing is promised of it.
#[verifier::external_body]
fn system_time_now() -> std::time::SystemTime {
    std::time::SystemTime::now()
}

/// `SystemTime::duration_since` with `UNIX_EPOCH` as the earlier time: the time
/// elapsed since the Unix epoch, or an error when the clock reads earlier; which
/// one comes back depends on the clock and is not stated.
#[verifier::external_body]
fn since_unix_epoch(t: &std::time::SystemTime) -> Result<core::time::Duration, std::time::SystemTimeError> {
    t.duration_since(std::time::UNIX_EPOCH)
}

/// `Duration::as_secs`: the whole seconds of `d`; the value is not stated, as
/// `Duration` is opaque here.
#[verifier::external_body]
fn whole_seconds(d: &core::time::Duration) -> u64 {
    d.as_secs()
}

/// The timestamp for a reading of the clock: its whole seconds since the Unix
/// epoch converted with `as i64`, or 0 when the clock reads before the epoch.
pub fn timestamp_from_epoch_seconds(seconds: Option<u64>) -> (ts: i64)
    ensures
        ts == match seconds {
            Some(s) => s as i64,
            None => 0i64,
        },
{
    match seconds {
        Some(s) => s as i64,
        None => 0,
    }
}

/// The current Unix time in seconds (0 when the clock reads before 1970).
/// The value depends on the system clock, so no clause states it: every
/// `i64` is a possible outcome of `timestamp_from_epoch_seconds`, which states
/// exactly what is done with the clock's reading.
pub fn now_ts() -> (ts: i64) {
    let now = system_time_now();
    let seconds = match since_unix_epoch(&now) {
        Ok(d) => Some(whole_seconds(&d)),
        Err(_) => None,
    };
    timestamp_from_epoch_seconds(seconds)
}

/// Whether `bits` is a version-4 (random) UUID of the RFC 4122 variant: the
/// version nibble is 4 and the two variant bits are `10`.
pub open spec fn is_v4_uuid(bits: u128) -> bool {
    (bits as int / pow2(76) as int) % 16 == 4 && (bits as int / pow2(62) as int) % 4 == 2
}

/// The lower-case hexadecimal digit for `d` in `0..16`.
pub open spec fn hex_digit(d: int) -> char {
    if d < 10 {
        (48 + d) as char
    } else {
        (87 + d) as char
    }
}

/// Hexadecimal digit `k` (0 is the most significant) of the 128 bits.
pub open spec fn uuid_nibble(bits: u128, k: int) -> int {
    (bits as int / pow2((4 * (31 - k)) as nat) as int) % 16
}

/// How many hyphens precede position `i` of the hyphenated form.
pub open spec fn hyphens_before(i: int) -> int {
    if i < 9 {
        0
    } else if i < 14 {
        1
    } else if i < 19 {
        2
    } else if i < 24 {
        3
    } else {
        4
    }
}

/// The hyphenated lower-case form `xxxxxxxx-xxxx-xxxx-xxxx-xxxxxxxxxxxx` of a UUID.
pub open spec fn uuid_hyphenated(bits: u128) -> Seq<char> {
    Seq::new(
        36,
        |i: int|
            if i == 8 || i == 13 || i == 18 || i == 23 {
                '-'
            } else {
                hex_digit(uuid_nibble(bits, i - hyphens_before(i)))
            },
    )
}

/// Byte `k` (0 is the most significant) of the 128 bits.
pub open spec fn uuid_byte(bits: u128, k: int) -> int {
    (bits as int / pow2((8 * (15 - k)) as nat) as int) % 256
}

/// Byte `k` of the version-4 UUID built from the random bytes `b`: byte 6
/// carries the version 4 in its high nibble, byte 8 the variant bits `10`.
pub open spec fn v4_byte(b: Seq<u8>, k: int) -> int {
    if k == 6 {
        (b[6] as int % 16) + 0x40
    } else if k == 8 {
        (b[8] as int % 64) + 0x80
    } else {
        b[k] as int
    }
}

#[verifier::external_type_specification]
#[verifier::external_body]
pub struct ExRandomError(getrandom::Error);

/// `getrandom::fill` on 16 bytes: random bytes from the operating system, or
/// the error it reports; which one comes back is not stated.
#[verifier::external_body]
fn random_bytes() -> Result<[u8; 16], getrandom::Error> {
    let mut bytes = [0u8; 16];
    match getrandom::fill(&mut bytes) {
        Ok(()) => Ok(bytes),
        Err(e) => Err(e),
    }
}

/// `uuid::Builder::from_random_bytes`, then `into_uuid` and `Uuid::as_u128`:
/// the bytes read big-endian, with the version nibble set to 4 and the
/// variant bits to `10`.
#[verifier::external_body]
fn v4_uuid_from_bytes(bytes: [u8; 16]) -> (bits: u128)
    ensures
        is_v4_uuid(bits),
        forall|k: int| 0 <= k < 16 ==> #[trigger] uuid_byte(bits, k) == v4_byte(bytes@, k),
{
    uuid::Builder::from_random_bytes(bytes).into_uuid().as_u128()
}

/// `uuid::Uuid::from_u128` then `to_string` (the `Display` of `Uuid`, which
/// writes the hyphenated lower-case hex form of the 128 bits, most significant
/// digit first).
#[verifier::external_body]
fn uuid_text(bits: u128) -> (s: String)
    ensures
        s@ == uuid_hyphenated(bits),
{
    uuid::Uuid::from_u128(bits).to_string()
}

/// Whether `id` has the form of a response id: `chatcmpl-` followed by a
/// version-4 UUID.
pub open spec fn is_response_id(id: Seq<char>) -> bool {
    exists|bits: u128| is_v4_uuid(bits) && id == "chatcmpl-"@ + uuid_hyphenated(bits)
}

/// Whether `id` is the response id made from the random bytes `bytes`:
/// `chatcmpl-` followed by the version-4 UUID built from them.
pub open spec fn is_id_for_bytes(id: Seq<char>, bytes: Seq<u8>) -> bool {
    exists|bits: u128|
        {
            &&& forall|k: int| 0 <= k < 16 ==> #[trigger] uuid_byte(bits, k) == v4_byte(bytes, k)
            &&& is_v4_uuid(bits)
            &&& id == "chatcmpl-"@ + uuid_hyphenated(bits)
        }
}

/// An id made from random bytes has the form of a response id.
pub proof fn lemma_id_for_bytes_is_response_id(id: Seq<char>, bytes: Seq<u8>)
    requires
        is_id_for_bytes(id, bytes),
    ensures
        is_response_id(id),
{
}

/// The response id made from 16 random bytes: `chatcmpl-` followed by the
/// version-4 UUID that they give.
pub fn response_id(bytes: [u8; 16]) -> (id: String)
    ensures
        is_id_for_bytes(id@, bytes@),
{
    let bits = v4_uuid_from_bytes(bytes);
    let mut id = String::from_str("chatcmpl-");
    let u = uuid_text(bits);
    id.append(u.as_str());
    id
}

/// A fresh response id: `chatcmpl-` followed by the version-4 UUID built from
/// random bytes of the operating system; `None` when it gives none.
pub fn make_id() -> (id: Option<String>)
    ensures
        id matches Some(s) ==> is_response_id(s@),
{
    match random_bytes() {
        Ok(bytes) => {
            let id = response_id(bytes);
            proof {
                lemma_id_for_bytes_is_response_id(id@, bytes@);
            }
            Some(id)
        },
        Err(_) => None,
    }
}

/// The compact JSON text that `serde_json` writes for a value (object members
/// in key order, as its map is ordered by key).
pub uninterp spec fn json_text_of(v: serde_json::Value) -> Seq<char>;

/// `serde_json::to_string` on a JSON value: its compact JSON text. The crate
/// documents failure only for a failing `Serialize` impl or a map with
/// non-string keys, and a `Value` has neither, so it always succeeds.
#[verifier::external_body]
fn json_text(v: &serde_json::Value) -> (r: Result<String, serde_json::Error>)
    ensures
        r is Ok,
        r matches Ok(t) ==> t@ == json_text_of(*v),
{
    serde_json::to_string(v)
}

/// The arguments text of a tool call: the JSON text, or `{}` when there is none.
pub fn arguments_or_empty_object(text: Option<String>) -> (s: String)
    ensures
        s@ == match text {
            Some(t) => t@,
            None => "{}"@,
        },
{
    match text {
        Some(t) => t,
        None => String::from_str("{}"),
    }
}

/// The JSON text of tool-call arguments (`{}` if they could not be written).
pub fn tool_arguments_text(arguments: &serde_json::Value) -> (s: String)
    ensures
        s@ == json_text_of(*arguments),
{
    let text = match json_text(arguments) {
        Ok(t) => Some(t),
        Err(_) => None,
    };
    arguments_or_empty_object(text)
}

/// A tool that a session offers to the model.
pub struct ToolSpec {
    pub name: String,
    pub description: Option<String>,
    /// JSON schema of the arguments.
    pub parameters: Option<serde_json::Value>,
}

/// What a Copilot session is opened with: the client's tools, the model, and
/// whether it streams deltas.
pub struct SessionSpec {
    pub tools: Vec<ToolSpec>,
    pub model: Option<String>,
    pub streaming: bool,
}

/// The view of an optional string.
pub open spec fn opt_text(o: Option<String>) -> Option<Seq<char>> {
    match o {
        Some(s) => Some(s@),
        None => None,
    }
}

/// Whether `t` is the session tool for the client tool `d`.
pub open spec fn tool_matches(t: ToolSpec, d: ToolDefinition) -> bool {
    &&& t.name@ == d.function.name@
    &&& opt_text(t.description) == opt_text(d.function.description)
    &&& t.parameters == d.function.parameters
}

/// The tools that a request declares.
pub open spec fn declared_tools(req: ChatCompletionRequest) -> Seq<ToolDefinition> {
    match req.tools {
        Some(ts) => ts@,
        None => Seq::empty(),
    }
}

fn clone_opt_text(o: &Option<String>) -> (c: Option<String>)
    ensures
        opt_text(c) == opt_text(*o),
{
    match o {
        Some(s) => Some(s.clone()),
        None => None,
    }
}

fn clone_opt_json(o: &Option<serde_json::Value>) -> (c: Option<serde_json::Value>)
    ensures
        c == *o,
{
    match o {
        Some(v) => Some(v.clone()),
        None => None,
    }
}

/// The session configuration for a request: one tool per declared tool, in
/// order, with its name, description and schema; the request's model; and
/// the given streaming flag.
pub fn build_session_config(req: &ChatCompletionRequest, streaming: bool) -> (cfg: SessionSpec)
    ensures
        cfg.tools@.len() == declared_tools(*req).len(),
        forall|i: int|
            0 <= i < cfg.tools@.len() ==> tool_matches(#[trigger] cfg.tools@[i], declared_tools(*req)[i]),
        opt_text(cfg.model) == Some(req.model@),
        cfg.streaming == streaming,
{
    let mut tools: Vec<ToolSpec> = Vec::new();
    match &req.tools {
        Some(client_tools) => {
            let mut i: usize = 0;
            while i < client_tools.len()
                invariant
                    i <= client_tools@.len(),
                    declared_tools(*req) == client_tools@,
                    tools@.len() == i,
                    forall|j: int| 0 <= j < i ==> tool_matches(#[trigger] tools@[j], client_tools@[j]),
                decreases client_tools@.len() - i,
            {
                let t = &client_tools[i];
                tools.push(
                    ToolSpec {
                        name: t.function.name.clone(),
                        description: clone_opt_text(&t.function.description),
                        parameters: clone_opt_json(&t.function.parameters),
                    },
                );
                i = i + 1;
            }
        },
        None => {},
    }
    SessionSpec { tools, model: Some(req.model.clone()), streaming }
}

/// What a Copilot session reports while it answers, as far as this server
/// reads it.
pub enum SessionEvent {
    /// A piece of the assistant's answer.
    MessageDelta(String),
    /// The assistant's whole answer.
    Message(String),
    /// The model calls a tool.
    ToolStart { tool_call_id: String, tool_name: String, arguments: serde_json::Value },
    /// Tokens used, as whole numbers (a missing count is 0).
    Usage { input_tokens: u32, output_tokens: u32 },
    /// The session has finished answering.
    Idle,
    /// The session failed with this message.
    Error(String),
    /// The event channel could not be read any more.
    Closed,
    /// Any other event; it is ignored.
    Other,
}

/// The calls to Copilot that can fail before any session event.
pub enum SessionStage {
    /// Listing the models of the account.
    ListModels,
    CreateSession,
    Send,
}

/// The label of a stage in error messages.
pub open spec fn stage_label(s: SessionStage) -> Seq<char> {
    match s {
        SessionStage::ListModels => "list_models"@,
        SessionStage::CreateSession => "create_session"@,
        SessionStage::Send => "send"@,
    }
}

/// The message of a failure at `stage`: `create_session: DETAIL` or `send: DETAIL`.
pub fn stage_failure_message(stage: SessionStage, detail: &str) -> (m: String)
    ensures
        m@ == stage_label(stage) + ": "@ + detail@,
{
    let mut m = match stage {
        SessionStage::ListModels => String::from_str("list_models"),
        SessionStage::CreateSession => String::from_str("create_session"),
        SessionStage::Send => String::from_str("send"),
    };
    m.append(": ");
    m.append(detail);
    m
}

} // verus!
