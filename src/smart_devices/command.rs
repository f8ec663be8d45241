use crate::text::has_prefix;
use vstd::prelude::*;

verus! {

/// The commands that a networked socket understands.
#[derive(Debug, Clone, Copy, PartialEq, Eq, Structural)]
pub enum SocketCommand {
    /// Switch the socket on.
    TurnOn,
    /// Switch the socket off.
    TurnOff,
    /// Flip the socket's state.
    Switch,
    /// Ask for the current power.
    GetPower,
    /// Ask for the on/off status.
    GetStatus,
}

/// The wire token of a command.
pub open spec fn token(c: SocketCommand) -> Seq<char> {
    match c {
        SocketCommand::TurnOn => "ON"@,
        SocketCommand::TurnOff => "OFF"@,
        SocketCommand::Switch => "SWITCH"@,
        SocketCommand::GetPower => "GET_POWER"@,
        SocketCommand::GetStatus => "GET_STATUS"@,
    }
}

/// Every command, in declaration order.
pub open spec fn all_commands() -> Seq<SocketCommand> {
    seq![
        SocketCommand::TurnOn,
        SocketCommand::TurnOff,
        SocketCommand::Switch,
        SocketCommand::GetPower,
        SocketCommand::GetStatus,
    ]
}

/// The prefix that a reply to `c` must start with to be accepted.
pub open spec fn accepted_prefix(c: SocketCommand) -> Seq<char> {
    match c {
        SocketCommand::TurnOn | SocketCommand::TurnOff | SocketCommand::Switch => "OK:"@,
        SocketCommand::GetPower => "POWER:"@,
        SocketCommand::GetStatus => "STATUS:"@,
    }
}

/// Whether `response` is an acceptable reply to `c`.
pub open spec fn accepts(c: SocketCommand, response: Seq<char>) -> bool {
    accepted_prefix(c).is_prefix_of(response)
}

/// The text that opens the message of a rejected reply to `c`.
pub open spec fn rejection_lead(c: SocketCommand) -> Seq<char> {
    match c {
        SocketCommand::TurnOn | SocketCommand::TurnOff | SocketCommand::Switch => "invalid response: "@,
        SocketCommand::GetPower => "invalid response to GET_POWER: "@,
        SocketCommand::GetStatus => "invalid response to GET_STATUS: "@,
    }
}

/// The message for a rejected reply: it names the reply.
pub open spec fn rejection(c: SocketCommand, response: Seq<char>) -> Seq<char> {
    rejection_lead(c) + response
}

/// The wire token that is written for `command`.
pub fn command_to_string(command: SocketCommand) -> (r: &'static str)
    ensures
        r@ == token(command),
{
    match command {
        SocketCommand::TurnOn => "ON",
        SocketCommand::TurnOff => "OFF",
        SocketCommand::Switch => "SWITCH",
        SocketCommand::GetPower => "GET_POWER",
        SocketCommand::GetStatus => "GET_STATUS",
    }
}

/// Every supported command, each once.
pub fn available_commands() -> (r: Vec<SocketCommand>)
    ensures
        r@ == all_commands(),
{
    let r = vec![
        SocketCommand::TurnOn,
        SocketCommand::TurnOff,
        SocketCommand::Switch,
        SocketCommand::GetPower,
        SocketCommand::GetStatus,
    ];
    proof {
        assert(r@ =~= all_commands());
    }
    r
}

/// Checks a raw reply against the prefix that `command` asks for: the reply
/// itself when accepted, else a message that names it.
pub fn parse_response(command: SocketCommand, response: &str) -> (r: Result<String, String>)
    ensures
        match r {
            Ok(s) => accepts(command, response@) && s@ == response@,
            Err(m) => !accepts(command, response@) && m@ == rejection(command, response@),
        },
{
    let (prefix, lead) = match command {
        SocketCommand::TurnOn | SocketCommand::TurnOff | SocketCommand::Switch => (
            "OK:",
            "invalid response: ",
        ),
        SocketCommand::GetPower => ("POWER:", "invalid response to GET_POWER: "),
        SocketCommand::GetStatus => ("STATUS:", "invalid response to GET_STATUS: "),
    };
    if has_prefix(response, prefix) {
        Ok(response.to_string())
    } else {
        Err(lead.to_string().concat(response))
    }
}

/// No two commands share a wire token.
pub proof fn lemma_tokens_distinct(a: SocketCommand, b: SocketCommand)
    ensures
        token(a) == token(b) <==> a == b,
{
    reveal_strlit("ON");
    reveal_strlit("OFF");
    reveal_strlit("SWITCH");
    reveal_strlit("GET_POWER");
    reveal_strlit("GET_STATUS");
    if a != b && token(a) == token(b) {
        assert(token(a).len() == token(b).len());
        assert(token(a)[0] == token(b)[0]);
        assert(token(a)[4] == token(b)[4]);
    }
}

/// The list of commands has five entries, and each command stands in it once.
pub proof fn lemma_all_commands_listed_once()
    ensures
        all_commands().len() == 5,
        all_commands().no_duplicates(),
        forall|c: SocketCommand| all_commands().contains(c),
{
    let s = all_commands();
    assert forall|c: SocketCommand| s.contains(c) by {
        match c {
            SocketCommand::TurnOn => assert(s[0] == c),
            SocketCommand::TurnOff => assert(s[1] == c),
            SocketCommand::Switch => assert(s[2] == c),
            SocketCommand::GetPower => assert(s[3] == c),
            SocketCommand::GetStatus => assert(s[4] == c),
        }
    }
}

} // verus!
