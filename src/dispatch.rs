use vstd::prelude::*;

use crate::api::ApiUpdate;
use crate::command::{
    command_named, command_word, extract_command, trim_chars, trim_text, Command, CommandTable,
};
use crate::encoding::{base64_nopad, encode_token};
use crate::error::BotError;
use crate::poll::{ascending_order, is_ascending_order};
use crate::random::{new_token, TOKEN_BYTES};
use crate::session::{token_taken_elsewhere, with_session, without_session, SessionStore};

verus! {

/// A text to send to a chat.
#[derive(Debug)]
pub struct OutgoingMessage {
    pub chat_id: i64,
    pub text: String,
}

/// A change made to the session table, for the caller to make durable.
#[derive(Debug)]
pub enum SessionChange {
    /// The chat's session, if any, was replaced by one with this token.
    Replaced { token: Vec<u8>, chat_id: i64 },
    /// The chat's session, if any, was removed.
    Removed { chat_id: i64 },
}

/// What handling one command produced.
#[derive(Debug)]
pub struct CommandOutcome {
    pub reply: OutgoingMessage,
    pub change: Option<SessionChange>,
}

/// Whether `change` takes the table `before` to `after` for `chat`.
pub open spec fn describes(
    change: Option<SessionChange>,
    before: Map<i64, Seq<u8>>,
    after: Map<i64, Seq<u8>>,
    chat: i64,
) -> bool {
    match change {
        None => after == before,
        Some(SessionChange::Replaced { token, chat_id }) => chat_id == chat && after == with_session(
            before,
            token@,
            chat,
        ),
        Some(SessionChange::Removed { chat_id }) => chat_id == chat && after == without_session(
            before,
            chat,
        ),
    }
}

/// The closing line of every reply that shows a token.
pub open spec fn token_usage_line() -> Seq<char> {
    "\n\nuse it to send requests using notify-me-api npm package"@
}

/// Reply to a start command that created a session.
pub open spec fn generated_reply(token: Seq<u8>) -> Seq<char> {
    "generated token\n\n"@ + base64_nopad(token) + token_usage_line()
}

/// Reply to a start command for a chat that already had a session.
pub open spec fn existing_reply(token: Seq<u8>) -> Seq<char> {
    "token already exist for your chat\n\n"@ + base64_nopad(token) + token_usage_line()
}

/// Reply to a stop command.
pub open spec fn stopped_reply() -> Seq<char> {
    "Deleted token for this chat.\n\nYou will not receive any messages from this bot until next /start."@
}

/// Opening of the reply to a help command.
pub open spec fn help_intro() -> Seq<char> {
    "This bot allow to send messages from web to telegram chats.\nFirst connect to this bot (/start) and get token. Use it to send requests using notify-me-api npm package\n\nAvailable commands:\n"@
}

/// One line per listed command: its name, a space, its description.
pub open spec fn help_lines(listing: Seq<(Seq<char>, Seq<char>)>) -> Seq<char>
    decreases listing.len(),
{
    if listing.len() == 0 {
        Seq::empty()
    } else {
        help_lines(listing.drop_last()) + listing.last().0 + " "@ + listing.last().1 + "\n"@
    }
}

/// Reply to a help command.
pub open spec fn help_reply(listing: Seq<(Seq<char>, Seq<char>)>) -> Seq<char> {
    help_intro() + help_lines(listing)
}

/// Reply to a show-token command for a chat without a session.
pub open spec fn not_connected_reply() -> Seq<char> {
    "Token not found, this chat not connected to bot.\n\nrun /start to connect and get token."@
}

/// Reply to a show-token command for a chat with a session.
pub open spec fn your_token_reply(token: Seq<u8>) -> Seq<char> {
    "your token:\n\n"@ + base64_nopad(token) + token_usage_line()
}

/// Reply to an update-token command.
pub open spec fn new_token_reply(token: Seq<u8>) -> Seq<char> {
    "new token\n\n"@ + base64_nopad(token) + token_usage_line()
}

/// Whether handling `cmd` for `chat` binds a fresh token.
pub open spec fn needs_fresh_token(m: Map<i64, Seq<u8>>, chat: i64, cmd: Command) -> bool {
    cmd == Command::UpdateToken || (cmd == Command::Start && !m.contains_key(chat))
}

/// The session table after `cmd` for `chat` succeeded, `fresh` being the drawn token.
pub open spec fn table_after(m: Map<i64, Seq<u8>>, chat: i64, cmd: Command, fresh: Seq<u8>) -> Map<
    i64,
    Seq<u8>,
> {
    if needs_fresh_token(m, chat, cmd) {
        with_session(m, fresh, chat)
    } else if cmd == Command::Stop {
        without_session(m, chat)
    } else {
        m
    }
}

/// The reply to `cmd` for `chat`, `fresh` being the drawn token.
pub open spec fn reply_text(
    m: Map<i64, Seq<u8>>,
    chat: i64,
    cmd: Command,
    fresh: Seq<u8>,
    listing: Seq<(Seq<char>, Seq<char>)>,
) -> Seq<char> {
    match cmd {
        Command::Start => if m.contains_key(chat) {
            existing_reply(m[chat])
        } else {
            generated_reply(fresh)
        },
        Command::Stop => stopped_reply(),
        Command::Help => help_reply(listing),
        Command::ShowToken => if m.contains_key(chat) {
            your_token_reply(m[chat])
        } else {
            not_connected_reply()
        },
        Command::UpdateToken => new_token_reply(fresh),
    }
}

/// The chat and command that an update carries, if it carries one.
pub open spec fn update_command(u: ApiUpdate) -> Option<(i64, Command)> {
    match u.message {
        None => None,
        Some(msg) => match msg.text {
            None => None,
            Some(text) => match command_named(command_word(trim_chars(text@))) {
                None => None,
                Some(c) => Some((msg.chat.id, c)),
            },
        },
    }
}

/// Whether `o` is what `cmd` for `chat` produces when it takes the table
/// `before` to `after`, `fresh` being the drawn token.
pub open spec fn command_result(
    before: Map<i64, Seq<u8>>,
    after: Map<i64, Seq<u8>>,
    chat: i64,
    cmd: Command,
    fresh: Seq<u8>,
    listing: Seq<(Seq<char>, Seq<char>)>,
    o: CommandOutcome,
) -> bool {
    &&& after == table_after(before, chat, cmd, fresh)
    &&& o.reply.chat_id == chat
    &&& o.reply.text@ == reply_text(before, chat, cmd, fresh, listing)
    &&& describes(o.change, before, after, chat)
}

/// Appends `token`'s text between `head` and the usage line.
fn token_reply(head: &str, token: &[u8]) -> (r: String)
    ensures
        r@ == head@ + base64_nopad(token@) + token_usage_line(),
{
    let mut text = String::from_str(head);
    let encoded = encode_token(token);
    text.append(encoded.as_str());
    text.append("\n\nuse it to send requests using notify-me-api npm package");
    text
}

/// The help reply for `table`.
pub fn help_text(table: &CommandTable) -> (r: String)
    ensures
        r@ == help_reply(table.listing()),
{
    let mut text = String::from_str(
        "This bot allow to send messages from web to telegram chats.\nFirst connect to this bot (/start) and get token. Use it to send requests using notify-me-api npm package\n\nAvailable commands:\n",
    );
    let n = table.len();
    let mut k: usize = 0;
    while k < n
        invariant
            n == table.listing().len(),
            0 <= k <= n,
            text@ == help_intro() + help_lines(table.listing().subrange(0, k as int)),
        decreases n - k,
    {
        let e = table.entry(k);
        text.append(e.name);
        text.append(" ");
        text.append(e.description);
        text.append("\n");
        proof {
            let l = table.listing();
            let p = l.subrange(0, k + 1);
            assert(p.drop_last() =~= l.subrange(0, k as int));
            assert(p.last() == l[k as int]);
            assert(text@ =~= help_intro() + help_lines(p));
        }
        k = k + 1;
    }
    assert(table.listing().subrange(0, n as int) =~= table.listing());
    text
}

/// Whether `r` is what `cmd` for `chat` gives on the table `before`, leaving
/// `after`: a failure, changing nothing, exactly when a fresh token is needed
/// and another chat already holds `fresh`.
pub open spec fn command_done(
    before: Map<i64, Seq<u8>>,
    after: Map<i64, Seq<u8>>,
    chat: i64,
    cmd: Command,
    fresh: Seq<u8>,
    listing: Seq<(Seq<char>, Seq<char>)>,
    r: Result<CommandOutcome, BotError>,
) -> bool {
    &&& (r is Err <==> needs_fresh_token(before, chat, cmd) && token_taken_elsewhere(
        before,
        fresh,
        chat,
    ))
    &&& match r {
        Ok(o) => command_result(before, after, chat, cmd, fresh, listing, o),
        Err(e) => after == before && e == BotError::Storage,
    }
}

/// Binds `fresh` to `chat_id` and replies with `head` and its text.
fn bind_fresh_token(store: &mut SessionStore, chat_id: i64, fresh: &[u8], head: &str) -> (r: Result<
    CommandOutcome,
    BotError,
>)
    requires
        old(store).wf(),
    ensures
        final(store).wf(),
        r is Err <==> token_taken_elsewhere(old(store)@, fresh@, chat_id),
        match r {
            Ok(o) => {
                &&& final(store)@ == with_session(old(store)@, fresh@, chat_id)
                &&& o.reply.chat_id == chat_id
                &&& o.reply.text@ == head@ + base64_nopad(fresh@) + token_usage_line()
                &&& describes(o.change, old(store)@, final(store)@, chat_id)
            },
            Err(e) => final(store)@ == old(store)@ && e == BotError::Storage,
        },
{
    match store.create_session(fresh, chat_id) {
        Err(e) => return Err(e),
        Ok(()) => {},
    }
    let text = token_reply(head, fresh);
    let token = crate::session::copy_bytes(fresh);
    Ok(
        CommandOutcome {
            reply: OutgoingMessage { chat_id, text },
            change: Some(SessionChange::Replaced { token, chat_id }),
        },
    )
}

/// Start: a chat without a session gets `fresh` bound and shown; one with a
/// session is shown its existing token.
pub fn handle_start(store: &mut SessionStore, chat_id: i64, fresh: &[u8]) -> (r: Result<
    CommandOutcome,
    BotError,
>)
    requires
        old(store).wf(),
    ensures
        final(store).wf(),
        command_done(old(store)@, final(store)@, chat_id, Command::Start, fresh@, Seq::empty(), r),
{
    match store.find_token_by_chat(chat_id) {
        None => bind_fresh_token(store, chat_id, fresh, "generated token\n\n"),
        Some(t) => {
            let text = token_reply("token already exist for your chat\n\n", t.as_slice());
            Ok(CommandOutcome { reply: OutgoingMessage { chat_id, text }, change: None })
        },
    }
}

/// Stop: removes the chat's session, if any, and confirms either way.
pub fn handle_stop(store: &mut SessionStore, chat_id: i64) -> (r: Result<CommandOutcome, BotError>)
    requires
        old(store).wf(),
    ensures
        final(store).wf(),
        forall|fresh: Seq<u8>|
            command_done(old(store)@, final(store)@, chat_id, Command::Stop, fresh, Seq::empty(), r),
{
    store.delete_session(chat_id);
    let text = String::from_str(
        "Deleted token for this chat.\n\nYou will not receive any messages from this bot until next /start.",
    );
    Ok(
        CommandOutcome {
            reply: OutgoingMessage { chat_id, text },
            change: Some(SessionChange::Removed { chat_id }),
        },
    )
}

/// Help: lists the commands of `table`.
pub fn handle_help(store: &SessionStore, table: &CommandTable, chat_id: i64) -> (r: Result<
    CommandOutcome,
    BotError,
>)
    ensures
        forall|fresh: Seq<u8>|
            command_done(store@, store@, chat_id, Command::Help, fresh, table.listing(), r),
{
    let text = help_text(table);
    Ok(CommandOutcome { reply: OutgoingMessage { chat_id, text }, change: None })
}

/// Show-token: the chat's token, or a note that the chat is not connected.
pub fn handle_show_token(store: &SessionStore, chat_id: i64) -> (r: Result<CommandOutcome, BotError>)
    requires
        store.wf(),
    ensures
        forall|fresh: Seq<u8>|
            command_done(store@, store@, chat_id, Command::ShowToken, fresh, Seq::empty(), r),
{
    match store.find_token_by_chat(chat_id) {
        None => {
            let text = String::from_str(
                "Token not found, this chat not connected to bot.\n\nrun /start to connect and get token.",
            );
            Ok(CommandOutcome { reply: OutgoingMessage { chat_id, text }, change: None })
        },
        Some(t) => {
            let text = token_reply("your token:\n\n", t.as_slice());
            Ok(CommandOutcome { reply: OutgoingMessage { chat_id, text }, change: None })
        },
    }
}

/// Update-token: binds `fresh` to the chat whether or not it had a session.
pub fn handle_update_token(store: &mut SessionStore, chat_id: i64, fresh: &[u8]) -> (r: Result<
    CommandOutcome,
    BotError,
>)
    requires
        old(store).wf(),
    ensures
        final(store).wf(),
        command_done(
            old(store)@,
            final(store)@,
            chat_id,
            Command::UpdateToken,
            fresh@,
            Seq::empty(),
            r,
        ),
{
    bind_fresh_token(store, chat_id, fresh, "new token\n\n")
}

/// Handles `cmd` for `chat_id`; `fresh` is the token bound when one is needed.
pub fn handle_command(
    store: &mut SessionStore,
    table: &CommandTable,
    chat_id: i64,
    cmd: Command,
    fresh: &[u8],
) -> (r: Result<CommandOutcome, BotError>)
    requires
        old(store).wf(),
    ensures
        final(store).wf(),
        command_done(old(store)@, final(store)@, chat_id, cmd, fresh@, table.listing(), r),
{
    let ghost before = store@;
    let r = match cmd {
        Command::Start => handle_start(store, chat_id, fresh),
        Command::Stop => handle_stop(store, chat_id),
        Command::Help => handle_help(store, table, chat_id),
        Command::ShowToken => handle_show_token(store, chat_id),
        Command::UpdateToken => handle_update_token(store, chat_id, fresh),
    };
    proof {
        let listing = table.listing();
        match cmd {
            Command::Stop => {
                assert(command_done(before, store@, chat_id, Command::Stop, fresh@, Seq::empty(), r));
            },
            Command::Help => {
                assert(command_done(before, store@, chat_id, Command::Help, fresh@, listing, r));
            },
            Command::ShowToken => {
                assert(command_done(
                    before,
                    store@,
                    chat_id,
                    Command::ShowToken,
                    fresh@,
                    Seq::empty(),
                    r,
                ));
            },
            _ => {},
        }
    }
    r
}

/// The chat and command that `update` carries: the message text, trimmed,
/// split at its first white-space character, and the first piece looked up.
pub fn route_update(table: &CommandTable, update: &ApiUpdate) -> (r: Option<(i64, Command)>)
    requires
        table.wf(),
    ensures
        r == update_command(*update),
{
    match &update.message {
        None => None,
        Some(msg) => match &msg.text {
            None => None,
            Some(text) => {
                let trimmed = trim_text(text.as_str());
                match extract_command(table, trimmed) {
                    None => None,
                    Some((c, _tail)) => Some((msg.chat.id, c)),
                }
            },
        },
    }
}

/// Whether `r` is what handling `u` gives on the table `before`, leaving
/// `after`. An update without a command is ignored and changes nothing. A
/// command that needs no fresh token succeeds. One that needs a fresh token
/// either succeeds with some drawn token of `TOKEN_BYTES` bytes, or fails,
/// changing nothing: the random source failed, or the drawn token is held by
/// another chat.
pub open spec fn update_done(
    before: Map<i64, Seq<u8>>,
    after: Map<i64, Seq<u8>>,
    u: ApiUpdate,
    listing: Seq<(Seq<char>, Seq<char>)>,
    r: Option<Result<CommandOutcome, BotError>>,
) -> bool {
    match update_command(u) {
        None => r is None && after == before,
        Some((chat, cmd)) => match r {
            None => false,
            Some(Ok(o)) => exists|fresh: Seq<u8>|
                fresh.len() == TOKEN_BYTES && #[trigger] command_result(
                    before,
                    after,
                    chat,
                    cmd,
                    fresh,
                    listing,
                    o,
                ),
            Some(Err(e)) => {
                &&& after == before
                &&& needs_fresh_token(before, chat, cmd)
                &&& (e == BotError::RandomSource || (e == BotError::Storage && exists|f: Seq<u8>|
                    f.len() == TOKEN_BYTES && #[trigger] token_taken_elsewhere(before, f, chat)))
            },
        },
    }
}

/// Handles one inbound update: ignores one without a command, draws a fresh
/// token where the command binds one, and handles the command.
pub fn handle_update(
    store: &mut SessionStore,
    table: &CommandTable,
    rng: &ring::rand::SystemRandom,
    update: &ApiUpdate,
) -> (r: Option<Result<CommandOutcome, BotError>>)
    requires
        old(store).wf(),
        table.wf(),
    ensures
        final(store).wf(),
        update_done(old(store)@, final(store)@, *update, table.listing(), r),
{
    let ghost before = store@;
    let (chat_id, cmd) = match route_update(table, update) {
        None => return None,
        Some(p) => p,
    };
    let needs = match cmd {
        Command::UpdateToken => true,
        Command::Start => store.find_token_by_chat(chat_id).is_none(),
        _ => false,
    };
    let fresh = if needs {
        match new_token(rng) {
            Ok(t) => t,
            Err(e) => return Some(Err(e)),
        }
    } else {
        let mut filler: Vec<u8> = Vec::new();
        let mut i: usize = 0;
        while i < TOKEN_BYTES
            invariant
                0 <= i <= TOKEN_BYTES,
                filler@.len() == i,
            decreases TOKEN_BYTES - i,
        {
            filler.push(0u8);
            i = i + 1;
        }
        filler
    };
    let r = handle_command(store, table, chat_id, cmd, fresh.as_slice());
    proof {
        assert(fresh@.len() == TOKEN_BYTES);
        match r {
            Ok(ref o) => {
                assert(command_result(before, store@, chat_id, cmd, fresh@, table.listing(), *o));
            },
            Err(_) => {
                assert(token_taken_elsewhere(before, fresh@, chat_id));
            },
        }
    }
    Some(r)
}

/// The ids of a batch of updates.
pub open spec fn update_ids(updates: Seq<ApiUpdate>) -> Seq<i64> {
    updates.map_values(|u: ApiUpdate| u.update_id)
}

/// Whether `steps` is the sequence of tables that handling a batch went
/// through: entry `k` of `r` names the update handled `k`-th, and handling it
/// took `steps[k]` to `steps[k + 1]` giving what `r` records.
pub open spec fn batch_done(
    steps: Seq<Map<i64, Seq<u8>>>,
    updates: Seq<ApiUpdate>,
    listing: Seq<(Seq<char>, Seq<char>)>,
    r: Seq<(usize, Option<Result<CommandOutcome, BotError>>)>,
) -> bool {
    &&& steps.len() == r.len() + 1
    &&& forall|k: int|
        0 <= k < r.len() ==> update_done(
            steps[k],
            steps[k + 1],
            updates[(#[trigger] r[k]).0 as int],
            listing,
            r[k].1,
        )
}

/// Handles a batch of updates in ascending order of update id, each as
/// `handle_update` does, from the table left by the one before.
pub fn handle_updates(
    store: &mut SessionStore,
    table: &CommandTable,
    rng: &ring::rand::SystemRandom,
    updates: &Vec<ApiUpdate>,
) -> (r: Vec<(usize, Option<Result<CommandOutcome, BotError>>)>)
    requires
        old(store).wf(),
        table.wf(),
    ensures
        final(store).wf(),
        is_ascending_order(
            update_ids(updates@),
            r@.map_values(|e: (usize, Option<Result<CommandOutcome, BotError>>)| e.0),
        ),
        exists|steps: Seq<Map<i64, Seq<u8>>>|
            #[trigger] batch_done(steps, updates@, table.listing(), r@) && steps[0] == old(store)@
                && steps.last() == final(store)@,
        (forall|i: int| 0 <= i < updates@.len() ==> update_command(#[trigger] updates@[i]) is None)
            ==> final(store)@ == old(store)@,
{
    let ghost before = store@;
    let mut ids: Vec<i64> = Vec::new();
    let mut k: usize = 0;
    while k < updates.len()
        invariant
            0 <= k <= updates@.len(),
            ids@ == update_ids(updates@).subrange(0, k as int),
        decreases updates@.len() - k,
    {
        ids.push(updates[k].update_id);
        k = k + 1;
        assert(ids@ =~= update_ids(updates@).subrange(0, k as int));
    }
    assert(ids@ =~= update_ids(updates@));
    let ord = ascending_order(&ids);
    let mut out: Vec<(usize, Option<Result<CommandOutcome, BotError>>)> = Vec::new();
    let ghost mut steps: Seq<Map<i64, Seq<u8>>> = seq![before];
    let mut k: usize = 0;
    while k < ord.len()
        invariant
            store.wf(),
            table.wf(),
            is_ascending_order(ids@, ord@),
            ids@ == update_ids(updates@),
            0 <= k <= ord@.len(),
            out@.len() == k,
            forall|j: int| 0 <= j < k ==> (#[trigger] out@[j]).0 == ord@[j],
            batch_done(steps, updates@, table.listing(), out@),
            steps[0] == before,
            steps.last() == store@,
            (forall|i: int| 0 <= i < updates@.len() ==> update_command(#[trigger] updates@[i]) is None)
                ==> store@ == before,
        decreases ord@.len() - k,
    {
        let index = ord[k];
        assert(ord@[k as int] < ids@.len());
        let ghost prev = store@;
        let one = handle_update(store, table, rng, &updates[index]);
        out.push((index, one));
        proof {
            let old_steps = steps;
            steps = steps.push(store@);
            assert forall|j: int| 0 <= j < out@.len() implies update_done(
                steps[j],
                steps[j + 1],
                updates@[(#[trigger] out@[j]).0 as int],
                table.listing(),
                out@[j].1,
            ) by {
                if j < k {
                    assert(steps[j] == old_steps[j]);
                    assert(steps[j + 1] == old_steps[j + 1]);
                }
            }
            if forall|i: int| 0 <= i < updates@.len() ==> update_command(#[trigger] updates@[i]) is None {
                assert(update_command(updates@[index as int]) is None);
            }
        }
        k = k + 1;
    }
    assert(out@.map_values(|e: (usize, Option<Result<CommandOutcome, BotError>>)| e.0) =~= ord@);
    out
}

} // verus!
