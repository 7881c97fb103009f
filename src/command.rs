use vstd::prelude::*;

verus! {

/// The commands that chat users can send.
#[derive(Debug, Clone, Copy, PartialEq, Eq, Structural)]
pub enum Command {
    Start,
    Stop,
    Help,
    ShowToken,
    UpdateToken,
}

/// The textual name of each command, marker included.
pub open spec fn command_name(c: Command) -> Seq<char> {
    match c {
        Command::Start => "/start"@,
        Command::Stop => "/stop"@,
        Command::Help => "/help"@,
        Command::ShowToken => "/show_token"@,
        Command::UpdateToken => "/update_token"@,
    }
}

/// The description shown for each command.
pub open spec fn command_description(c: Command) -> Seq<char> {
    match c {
        Command::Start => "Start chat (connect to bot)"@,
        Command::Stop => "Stop chat (disconnect from bot)"@,
        Command::Help => "Show commands"@,
        Command::ShowToken => "Show my current token"@,
        Command::UpdateToken => "Update current token"@,
    }
}

/// The order in which the commands are listed.
pub open spec fn command_order() -> Seq<Command> {
    seq![Command::Start, Command::Stop, Command::Help, Command::ShowToken, Command::UpdateToken]
}

/// The command whose name is `name`, if any.
pub open spec fn command_named(name: Seq<char>) -> Option<Command> {
    if name == command_name(Command::Start) {
        Some(Command::Start)
    } else if name == command_name(Command::Stop) {
        Some(Command::Stop)
    } else if name == command_name(Command::Help) {
        Some(Command::Help)
    } else if name == command_name(Command::ShowToken) {
        Some(Command::ShowToken)
    } else if name == command_name(Command::UpdateToken) {
        Some(Command::UpdateToken)
    } else {
        None
    }
}

/// Index of the first white-space character in `s`, or its length when there
/// is none.
pub open spec fn blank_index(s: Seq<char>) -> int
    decreases s.len(),
{
    if s.len() == 0 {
        0
    } else if is_white_space(s[0]) {
        0
    } else {
        1 + blank_index(s.drop_first())
    }
}

/// The text before the first white-space character.
pub open spec fn command_word(s: Seq<char>) -> Seq<char> {
    s.subrange(0, blank_index(s))
}

/// The text after the first white-space character; empty when there is none.
pub open spec fn command_rest(s: Seq<char>) -> Seq<char> {
    if blank_index(s) < s.len() {
        s.subrange(blank_index(s) + 1, s.len() as int)
    } else {
        Seq::empty()
    }
}

/// A character with the Unicode White_Space property.
pub open spec fn is_white_space(c: char) -> bool {
    let n = c as u32;
    (0x9 <= n && n <= 0xd) || n == 0x20 || n == 0x85 || n == 0xa0 || n == 0x1680 || (0x2000 <= n
        && n <= 0x200a) || n == 0x2028 || n == 0x2029 || n == 0x202f || n == 0x205f || n == 0x3000
}

/// `s` without its leading white space.
pub open spec fn trim_start_chars(s: Seq<char>) -> Seq<char>
    decreases s.len(),
{
    if s.len() > 0 && is_white_space(s[0]) {
        trim_start_chars(s.drop_first())
    } else {
        s
    }
}

/// `s` without its trailing white space.
pub open spec fn trim_end_chars(s: Seq<char>) -> Seq<char>
    decreases s.len(),
{
    if s.len() > 0 && is_white_space(s.last()) {
        trim_end_chars(s.drop_last())
    } else {
        s
    }
}

/// `s` without leading and trailing white space.
pub open spec fn trim_chars(s: Seq<char>) -> Seq<char> {
    trim_end_chars(trim_start_chars(s))
}

/// Relies on str::splitn with the pattern char::is_whitespace and a limit of
/// two: the first piece is the text before the first white-space character,
/// the second what follows that character, absent when there is none.
#[verifier::external_body]
fn split_at_first_blank<'a>(s: &'a str) -> (r: (&'a str, Option<&'a str>))
    ensures
        r.0@ == command_word(s@),
        match r.1 {
            Some(t) => blank_index(s@) < s@.len() && t@ == command_rest(s@),
            None => blank_index(s@) >= s@.len(),
        },
{
    let mut pieces = s.splitn(2, char::is_whitespace);
    let head = pieces.next().unwrap_or("");
    (head, pieces.next())
}

/// Relies on str::trim: removes leading and trailing characters that have the
/// Unicode White_Space property.
#[verifier::external_body]
pub(crate) fn trim_text<'a>(s: &'a str) -> (r: &'a str)
    ensures
        r@ == trim_chars(s@),
{
    s.trim()
}

/// One entry of the command table.
#[derive(Debug)]
pub struct TelegramCommand {
    pub name: &'static str,
    pub command: Command,
    pub description: &'static str,
}

/// The lookup table from command names to commands, built once at startup.
pub struct CommandTable {
    entries: Vec<TelegramCommand>,
}

impl CommandTable {
    /// Entry `k` lists the `k`-th command with its name and description.
    pub closed spec fn wf(&self) -> bool {
        &&& self.entries@.len() == command_order().len()
        &&& forall|k: int|
            0 <= k < self.entries@.len() ==> {
                let e = #[trigger] self.entries@[k];
                &&& e.command == command_order()[k]
                &&& e.name@ == command_name(e.command)
                &&& e.description@ == command_description(e.command)
            }
    }

    /// The listed entries, in order, as (name, description) pairs.
    pub closed spec fn listing(&self) -> Seq<(Seq<char>, Seq<char>)> {
        self.entries@.map_values(|e: TelegramCommand| (e.name@, e.description@))
    }

    /// Number of entries.
    pub fn len(&self) -> (r: usize)
        ensures
            r == self.listing().len(),
    {
        self.entries.len()
    }

    /// Entry `k`.
    pub fn entry(&self, k: usize) -> (r: &TelegramCommand)
        requires
            k < self.listing().len(),
        ensures
            (r.name@, r.description@) == self.listing()[k as int],
    {
        &self.entries[k]
    }

    /// The command named `name`, if any.
    pub fn lookup(&self, name: &str) -> (r: Option<Command>)
        requires
            self.wf(),
        ensures
            r == command_named(name@),
    {
        let wanted = String::from_str(name);
        let mut k: usize = 0;
        while k < self.entries.len()
            invariant
                self.wf(),
                0 <= k <= self.entries@.len(),
                wanted@ == name@,
                forall|j: int| 0 <= j < k ==> command_name(#[trigger] command_order()[j]) != name@,
            decreases self.entries@.len() - k,
        {
            let e = &self.entries[k];
            let candidate = String::from_str(e.name);
            if candidate == wanted {
                assert(e.command == command_order()[k as int]);
                return Some(e.command);
            }
            assert(command_name(command_order()[k as int]) != name@);
            k = k + 1;
        }
        proof {
            assert(command_name(command_order()[0]) != name@);
            assert(command_name(command_order()[1]) != name@);
            assert(command_name(command_order()[2]) != name@);
            assert(command_name(command_order()[3]) != name@);
            assert(command_name(command_order()[4]) != name@);
        }
        None
    }
}

/// The five commands as (name, description) pairs, in table order.
pub open spec fn standard_listing() -> Seq<(Seq<char>, Seq<char>)> {
    seq![
        ("/start"@, "Start chat (connect to bot)"@),
        ("/stop"@, "Stop chat (disconnect from bot)"@),
        ("/help"@, "Show commands"@),
        ("/show_token"@, "Show my current token"@),
        ("/update_token"@, "Update current token"@),
    ]
}

/// The command table: start, stop, help, show_token and update_token, in that order.
pub fn init() -> (r: CommandTable)
    ensures
        r.wf(),
        r.listing() == standard_listing(),
{
    let mut entries: Vec<TelegramCommand> = Vec::new();
    entries.push(
        TelegramCommand {
            name: "/start",
            command: Command::Start,
            description: "Start chat (connect to bot)",
        },
    );
    entries.push(
        TelegramCommand {
            name: "/stop",
            command: Command::Stop,
            description: "Stop chat (disconnect from bot)",
        },
    );
    entries.push(
        TelegramCommand { name: "/help", command: Command::Help, description: "Show commands" },
    );
    entries.push(
        TelegramCommand {
            name: "/show_token",
            command: Command::ShowToken,
            description: "Show my current token",
        },
    );
    entries.push(
        TelegramCommand {
            name: "/update_token",
            command: Command::UpdateToken,
            description: "Update current token",
        },
    );
    let r = CommandTable { entries };
    assert(r.entries@[0].command == command_order()[0]);
    assert(r.entries@[1].command == command_order()[1]);
    assert(r.entries@[2].command == command_order()[2]);
    assert(r.entries@[3].command == command_order()[3]);
    assert(r.entries@[4].command == command_order()[4]);
    assert(r.listing() =~= standard_listing());
    r
}

/// Splits `text` at its first white-space character and looks the first piece
/// up in `table`; the rest, trimmed, is the command's argument.
pub fn extract_command<'a>(table: &CommandTable, text: &'a str) -> (r: Option<(Command, &'a str)>)
    requires
        table.wf(),
    ensures
        match r {
            None => command_named(command_word(text@)) is None,
            Some((c, tail)) => command_named(command_word(text@)) == Some(c) && tail@
                == trim_chars(command_rest(text@)),
        },
{
    let (head, rest) = split_at_first_blank(text);
    let command = match table.lookup(head) {
        None => return None,
        Some(c) => c,
    };
    match rest {
        Some(t) => Some((command, trim_text(t))),
        None => {
            let empty: &'a str = "";
            proof {
                reveal_strlit("");
                assert(command_rest(text@) =~= Seq::<char>::empty());
                assert(trim_chars(Seq::<char>::empty()) == Seq::<char>::empty());
            }
            Some((command, empty))
        },
    }
}

} // verus!
