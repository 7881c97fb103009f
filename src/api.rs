use vstd::prelude::*;

use crate::error::BotError;

verus! {

/// The platform's reply envelope: `ok`, an optional payload and an optional description.
#[derive(Debug)]
pub struct QueryResult<T> {
    pub ok: bool,
    pub result: Option<T>,
    pub description: Option<String>,
}

/// The description carried by a failed envelope, empty when it has none.
pub open spec fn failure_description(d: Option<String>) -> Seq<char> {
    match d {
        Some(s) => s@,
        None => Seq::empty(),
    }
}

/// The text reported for a successful envelope that carries no payload.
pub open spec fn missing_result_text() -> Seq<char> {
    "the reply carries no result"@
}

impl<T> QueryResult<T> {
    /// The payload of a successful envelope; an upstream error carrying the
    /// description when `ok` is false, or when the payload is absent.
    pub fn into_result(self) -> (r: Result<T, BotError>)
        ensures
            r is Ok <==> (self.ok && self.result is Some),
            match r {
                Ok(v) => self.result == Some(v),
                Err(BotError::Upstream(d)) => if self.ok {
                    d@ == missing_result_text()
                } else {
                    d@ == failure_description(self.description)
                },
                Err(_) => false,
            },
    {
        if !self.ok {
            let d = match self.description {
                Some(s) => s,
                None => String::new(),
            };
            return Err(BotError::Upstream(d));
        }
        match self.result {
            Some(v) => Ok(v),
            None => Err(BotError::Upstream(String::from_str("the reply carries no result"))),
        }
    }
}

/// A platform user.
#[derive(Debug)]
pub struct ApiUser {
    pub id: i64,
    pub is_bot: bool,
    pub first_name: String,
    pub last_name: Option<String>,
    pub username: Option<String>,
    pub language_code: Option<String>,
    pub is_premium: Option<bool>,
    pub added_to_attachment_menu: Option<bool>,
    pub can_join_groups: Option<bool>,
    pub can_read_all_group_messages: Option<bool>,
    pub supports_inline_queries: Option<bool>,
}

/// Parameters of a fetch of updates.
#[derive(Debug)]
pub struct GetUpdatesParams {
    pub offset: Option<i64>,
    pub limit: Option<u32>,
    pub timeout: Option<u32>,
    pub allowed_updates: Option<Vec<String>>,
}

/// One inbound event.
#[derive(Debug)]
pub struct ApiUpdate {
    pub update_id: i64,
    pub message: Option<ApiMessage>,
    pub edited_message: Option<ApiMessage>,
}

/// Parameters of a send-message call.
#[derive(Debug)]
pub struct SendMessageParams {
    pub chat_id: i64,
    pub text: String,
}

/// A chat message.
#[derive(Debug)]
pub struct ApiMessage {
    pub message_id: i64,
    pub from_user: Option<ApiUser>,
    pub date: i64,
    pub chat: ApiChat,
    pub text: Option<String>,
    pub entities: Option<Vec<ApiMessageEntity>>,
}

/// The chat a message belongs to.
#[derive(Debug)]
pub struct ApiChat {
    pub id: i64,
}

/// A special entity in a message's text; its contents are not used.
#[derive(Debug)]
pub struct ApiMessageEntity {}

/// Parameters of a command-list registration.
#[derive(Debug)]
pub struct SetMyCommandsParams {
    pub commands: Vec<ApiBotCommand>,
}

/// One registered command.
#[derive(Debug)]
pub struct ApiBotCommand {
    pub command: String,
    pub description: String,
}

/// Parameters of a webhook registration.
#[derive(Debug)]
pub struct SetWebhookParams {
    pub url: String,
    pub secret_token: String,
}

} // verus!
