use vstd::prelude::*;

use crate::api::{
    ApiBotCommand, ApiUpdate, GetUpdatesParams, SendMessageParams, SetMyCommandsParams,
    SetWebhookParams,
};
use crate::command::CommandTable;
use crate::dispatch::{handle_update, update_done, CommandOutcome};
use crate::encoding::{encode_webhook_secret, webhook_alphabet_text};
use crate::error::BotError;
use crate::poll::LONG_POLL_TIMEOUT_SECS;
use crate::random::{new_token, TOKEN_BYTES};
use crate::session::SessionStore;

verus! {

/// The address of the platform's RPC method `method` for the bot `token`.
pub open spec fn method_url_of(token: Seq<char>, method: Seq<char>) -> Seq<char> {
    "https://api.telegram.org/bot"@ + token + "/"@ + method
}

/// The bot's identity towards the platform: its credential, the address at
/// which it receives pushed updates, and the secret that those carry.
pub struct TelegramBot {
    token: String,
    webhook_url: String,
    webhook_token: String,
}

impl TelegramBot {
    /// The bot's platform credential.
    pub closed spec fn spec_token(&self) -> Seq<char> {
        self.token@
    }

    /// The address registered for pushed updates.
    pub closed spec fn spec_webhook_url(&self) -> Seq<char> {
        self.webhook_url@
    }

    /// The secret that pushed updates must carry.
    pub closed spec fn spec_webhook_token(&self) -> Seq<char> {
        self.webhook_token@
    }

    /// A bot whose webhook secret is the text of `secret`.
    pub fn from_parts(token: &str, webhook_url: &str, secret: &[u8]) -> (r: TelegramBot)
        ensures
            r.spec_token() == token@,
            r.spec_webhook_url() == webhook_url@,
            r.spec_webhook_token() == webhook_alphabet_text(secret@),
            r.spec_webhook_token().len() == (4 * secret@.len() + 2) / 3,
    {
        TelegramBot {
            token: String::from_str(token),
            webhook_url: String::from_str(webhook_url),
            webhook_token: encode_webhook_secret(secret),
        }
    }

    /// A bot with a fresh random webhook secret of `TOKEN_BYTES` bytes.
    pub fn init(
        token: &str,
        webhook_url: &str,
        rng: &ring::rand::SystemRandom,
    ) -> (r: Result<TelegramBot, BotError>)
        ensures
            match r {
                Ok(b) => b.spec_token() == token@ && b.spec_webhook_url() == webhook_url@ && exists|
                    s: Seq<u8>,
                |
                    s.len() == TOKEN_BYTES && b.spec_webhook_token() == webhook_alphabet_text(s)
                        && b.spec_webhook_token().len() == 43,
                Err(e) => e == BotError::RandomSource,
            },
    {
        let secret = match new_token(rng) {
            Ok(s) => s,
            Err(e) => return Err(e),
        };
        Ok(TelegramBot::from_parts(token, webhook_url, secret.as_slice()))
    }

    /// The webhook secret that pushed updates must carry.
    pub fn webhook_token(&self) -> (r: &str)
        ensures
            r@ == self.spec_webhook_token(),
    {
        self.webhook_token.as_str()
    }

    /// The address of the RPC method `method`.
    pub fn method_url(&self, method: &str) -> (r: String)
        ensures
            r@ == method_url_of(self.spec_token(), method@),
    {
        let mut url = String::from_str("https://api.telegram.org/bot");
        url.append(self.token.as_str());
        url.append("/");
        url.append(method);
        url
    }

    /// Whether a pushed update's secret header matches the webhook secret.
    pub fn accepts_webhook_secret(&self, header: &str) -> (r: bool)
        ensures
            r == (header@ == self.spec_webhook_token()),
    {
        let given = String::from_str(header);
        given == self.webhook_token
    }

    /// Handles a pushed update: one whose secret does not match is ignored
    /// silently; any other goes to the dispatcher.
    pub fn handle_webhook_update(
        &self,
        webhook_token: &str,
        update: &ApiUpdate,
        store: &mut SessionStore,
        table: &CommandTable,
        rng: &ring::rand::SystemRandom,
    ) -> (r: Option<Result<CommandOutcome, BotError>>)
        requires
            old(store).wf(),
            table.wf(),
        ensures
            final(store).wf(),
            webhook_token@ != self.spec_webhook_token() ==> r is None && final(store)@ == old(
                store,
            )@,
            webhook_token@ == self.spec_webhook_token() ==> update_done(
                old(store)@,
                final(store)@,
                *update,
                table.listing(),
                r,
            ),
    {
        if !self.accepts_webhook_secret(webhook_token) {
            return None;
        }
        handle_update(store, table, rng, update)
    }

    /// Parameters that register the webhook with its secret.
    pub fn set_webhook_params(&self) -> (r: SetWebhookParams)
        ensures
            r.url@ == self.spec_webhook_url(),
            r.secret_token@ == self.spec_webhook_token(),
    {
        SetWebhookParams { url: self.webhook_url.clone(), secret_token: self.webhook_token.clone() }
    }
}

/// Parameters of a long-poll fetch from `offset`.
pub fn get_updates_params(offset: i64) -> (r: GetUpdatesParams)
    ensures
        r.offset == Some(offset),
        r.timeout == Some(LONG_POLL_TIMEOUT_SECS),
        r.limit is None,
        r.allowed_updates is None,
{
    GetUpdatesParams {
        offset: Some(offset),
        limit: None,
        timeout: Some(LONG_POLL_TIMEOUT_SECS),
        allowed_updates: None,
    }
}

/// Parameters that send `text` to `chat_id`.
pub fn send_message_params(chat_id: i64, text: &str) -> (r: SendMessageParams)
    ensures
        r.chat_id == chat_id,
        r.text@ == text@,
{
    SendMessageParams { chat_id, text: String::from_str(text) }
}

/// Parameters that register every command of `table`, in order.
pub fn set_my_commands_params(table: &CommandTable) -> (r: SetMyCommandsParams)
    ensures
        r.commands@.len() == table.listing().len(),
        forall|k: int|
            0 <= k < r.commands@.len() ==> (#[trigger] r.commands@[k].command@, r.commands@[k].description@)
                == table.listing()[k],
{
    let mut commands: Vec<ApiBotCommand> = Vec::new();
    let n = table.len();
    let mut k: usize = 0;
    while k < n
        invariant
            n == table.listing().len(),
            0 <= k <= n,
            commands@.len() == k,
            forall|j: int|
                0 <= j < k ==> (#[trigger] commands@[j].command@, commands@[j].description@)
                    == table.listing()[j],
        decreases n - k,
    {
        let e = table.entry(k);
        commands.push(
            ApiBotCommand {
                command: String::from_str(e.name),
                description: String::from_str(e.description),
            },
        );
        k = k + 1;
    }
    SetMyCommandsParams { commands }
}

} // verus!
