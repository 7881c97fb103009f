use vstd::prelude::*;

use crate::dispatch::OutgoingMessage;
use crate::encoding::{base64_nopad_decoded, decode_token};
use crate::session::{chat_of_token, token_in_use, tokens_distinct, SessionStore};

verus! {

/// A relay request from a web client.
#[derive(Debug)]
pub struct SendMessageRequest {
    pub token: String,
    pub message: String,
}

/// The body of a relay response.
#[derive(Debug)]
pub struct QueryResult {
    pub status: String,
    pub message: Option<String>,
}

/// How a relay request ended.
#[derive(Debug, Clone, Copy, PartialEq, Eq, Structural)]
pub enum RelayStatus {
    Delivered,
    BadRequest,
    Unauthorized,
    ServerError,
}

/// Where a relay request whose token decoded to `decoded` goes: the chat of
/// that token, or why it goes nowhere.
pub open spec fn decoded_target(m: Map<i64, Seq<u8>>, decoded: Option<Seq<u8>>) -> Result<
    i64,
    RelayStatus,
> {
    match decoded {
        None => Err(RelayStatus::BadRequest),
        Some(token) => match chat_of_token(m, token) {
            None => Err(RelayStatus::Unauthorized),
            Some(chat) => Ok(chat),
        },
    }
}

/// Where a relay request goes: the chat of its token, or why it goes nowhere.
pub open spec fn relay_target(m: Map<i64, Seq<u8>>, token_text: Seq<char>) -> Result<i64, RelayStatus> {
    decoded_target(m, base64_nopad_decoded(token_text))
}

/// The bytes of a decoding's result, if any.
pub open spec fn decoded_view(decoded: Option<Vec<u8>>) -> Option<Seq<u8>> {
    match decoded {
        None => None,
        Some(v) => Some(v@),
    }
}

/// The machine-readable status text of each outcome.
pub open spec fn status_text(s: RelayStatus) -> Seq<char> {
    match s {
        RelayStatus::Delivered => "OK"@,
        RelayStatus::BadRequest => "BAD_REQUEST"@,
        RelayStatus::Unauthorized => "UNAUTHORIZED"@,
        RelayStatus::ServerError => "SERVER_ERROR"@,
    }
}

/// The explanation sent with each outcome, if any.
pub open spec fn status_message(s: RelayStatus) -> Option<Seq<char>> {
    match s {
        RelayStatus::BadRequest => Some("Failed base64 decode token"@),
        RelayStatus::Unauthorized => Some("token not found"@),
        _ => None,
    }
}

/// The HTTP status code of each outcome.
pub open spec fn status_code_of(s: RelayStatus) -> u16 {
    match s {
        RelayStatus::Delivered => 200,
        RelayStatus::BadRequest => 400,
        RelayStatus::Unauthorized => 401,
        RelayStatus::ServerError => 500,
    }
}

impl RelayStatus {
    /// The HTTP status code.
    pub fn status_code(&self) -> (r: u16)
        ensures
            r == status_code_of(*self),
    {
        match self {
            RelayStatus::Delivered => 200,
            RelayStatus::BadRequest => 400,
            RelayStatus::Unauthorized => 401,
            RelayStatus::ServerError => 500,
        }
    }
}

impl QueryResult {
    /// A success body.
    pub fn ok() -> (r: QueryResult)
        ensures
            r.status@ == "OK"@,
            r.message is None,
    {
        QueryResult { status: String::from_str("OK"), message: None }
    }

    /// A failure body.
    pub fn error(status: String, message: Option<String>) -> (r: QueryResult)
        ensures
            r.status == status,
            r.message == message,
    {
        QueryResult { status, message }
    }
}

/// The response body for an outcome.
pub fn response_for(s: RelayStatus) -> (r: QueryResult)
    ensures
        r.status@ == status_text(s),
        match status_message(s) {
            Some(t) => r.message matches Some(m) && m@ == t,
            None => r.message is None,
        },
{
    match s {
        RelayStatus::Delivered => QueryResult::ok(),
        RelayStatus::BadRequest => QueryResult::error(
            String::from_str("BAD_REQUEST"),
            Some(String::from_str("Failed base64 decode token")),
        ),
        RelayStatus::Unauthorized => QueryResult::error(
            String::from_str("UNAUTHORIZED"),
            Some(String::from_str("token not found")),
        ),
        RelayStatus::ServerError => QueryResult::error(String::from_str("SERVER_ERROR"), None),
    }
}

/// Decides a relay request: decodes the token, finds its chat and, when both
/// succeed, gives the message to send there.
pub fn handle_message(store: &SessionStore, request: &SendMessageRequest) -> (r: Result<
    OutgoingMessage,
    RelayStatus,
>)
    requires
        store.wf(),
    ensures
        match r {
            Ok(msg) => relay_target(store@, request.token@) == Ok::<i64, RelayStatus>(msg.chat_id)
                && msg.text@ == request.message@,
            Err(s) => relay_target(store@, request.token@) == Err::<i64, RelayStatus>(s),
        },
{
    let decoded = decode_token(request.token.as_str());
    deliver_decoded(store, &decoded, request.message.as_str())
}

/// Decides a relay request whose token decoded to `decoded`: no bytes is a
/// bad request, bytes that no session holds are unauthorized, and otherwise
/// `message` goes to the chat that holds them.
pub fn deliver_decoded(store: &SessionStore, decoded: &Option<Vec<u8>>, message: &str) -> (r: Result<
    OutgoingMessage,
    RelayStatus,
>)
    requires
        store.wf(),
    ensures
        match r {
            Ok(msg) => decoded_target(store@, decoded_view(*decoded)) == Ok::<i64, RelayStatus>(
                msg.chat_id,
            ) && msg.text@ == message@,
            Err(s) => decoded_target(store@, decoded_view(*decoded)) == Err::<i64, RelayStatus>(s),
        },
{
    let token = match decoded {
        None => return Err(RelayStatus::BadRequest),
        Some(t) => t,
    };
    let chat_id = match store.find_chat_by_token(token.as_slice()) {
        None => return Err(RelayStatus::Unauthorized),
        Some(c) => c,
    };
    Ok(OutgoingMessage { chat_id, text: String::from_str(message) })
}

} // verus!

verus! {

/// A relay request goes to the chat whose session holds the decoded token; a
/// token that decodes to no session is unauthorized; one that does not decode
/// is a bad request.
pub proof fn lemma_relay_outcomes(m: Map<i64, Seq<u8>>, token_text: Seq<char>, chat: i64)
    requires
        tokens_distinct(m),
    ensures
        base64_nopad_decoded(token_text) is None ==> relay_target(m, token_text) == Err::<
            i64,
            RelayStatus,
        >(RelayStatus::BadRequest),
        (base64_nopad_decoded(token_text) matches Some(t) && !token_in_use(m, t)) ==> relay_target(
            m,
            token_text,
        ) == Err::<i64, RelayStatus>(RelayStatus::Unauthorized),
        (base64_nopad_decoded(token_text) matches Some(t) && m.contains_key(chat) && m[chat] == t)
            ==> relay_target(m, token_text) == Ok::<i64, RelayStatus>(chat),
{
    if let Some(t) = base64_nopad_decoded(token_text) {
        if m.contains_key(chat) && m[chat] == t {
            let w = choose|c: i64| m.contains_key(c) && m[c] == t;
            assert(m[w] == m[chat]);
        }
    }
}

} // verus!
