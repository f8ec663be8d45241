use crate::errors::SocketError;
use crate::network::DeviceCommands;
use crate::smart_devices::command::{
    accepts, all_commands, available_commands, command_to_string, parse_response, rejection, token,
    SocketCommand,
};
use crate::text::{has_prefix, remove_all, remove_all_of, same_text};
use vstd::prelude::*;

verus! {

/// The transport of a networked socket: absent, or open and owning its handle.
#[derive(Debug)]
pub enum Connection<H> {
    Disconnected,
    Connected(H),
}

/// What came back after a command's token was written and one read was made.
#[derive(Debug)]
pub enum Reply {
    /// The bytes read, decoded as text.
    Received(String),
    /// The read window elapsed before anything came.
    TimedOut,
    /// Writing or reading failed otherwise; holds the cause.
    Failed(String),
}

/// What can be observed of a networked socket.
pub struct SocketState {
    pub name: Seq<char>,
    pub address: Seq<char>,
    /// Nominal wattage, as the bit pattern of an IEEE-754 single.
    pub power_bits: u32,
    pub is_on: bool,
    pub connected: bool,
}

/// The tag that opens a power reply.
pub open spec fn power_tag() -> Seq<char> {
    "POWER:"@
}

/// The state after the connection is dropped.
pub open spec fn disconnected(s: SocketState) -> SocketState {
    SocketState { connected: false, ..s }
}

/// The power that the socket reports: its wattage while on, else zero
/// (zero is also the bit pattern of `0.0`).
pub open spec fn reported_power(s: SocketState) -> u32 {
    if s.is_on {
        s.power_bits
    } else {
        0
    }
}

/// The numeric text of a power reply: every tag taken out, where the reply
/// starts with the tag.
pub open spec fn power_text_of(response: Seq<char>) -> Option<Seq<char>> {
    if power_tag().is_prefix_of(response) {
        Some(remove_all(response, power_tag()))
    } else {
        None
    }
}

/// The state after a reply was accepted: only an exact confirmation changes
/// the on/off flag, and only a power reply whose numeric text parsed
/// (`reading`: the parsed wattage's bit pattern) changes the wattage.
pub open spec fn committed(
    s: SocketState,
    c: SocketCommand,
    response: Seq<char>,
    reading: Option<u32>,
) -> SocketState {
    match c {
        SocketCommand::TurnOn => if response == "OK:ON"@ {
            SocketState { is_on: true, ..s }
        } else {
            s
        },
        SocketCommand::TurnOff => if response == "OK:OFF"@ {
            SocketState { is_on: false, ..s }
        } else {
            s
        },
        SocketCommand::Switch => if response == "OK:SWITCH"@ {
            SocketState { is_on: !s.is_on, ..s }
        } else {
            s
        },
        SocketCommand::GetPower => match reading {
            Some(w) => if power_tag().is_prefix_of(response) {
                SocketState { power_bits: w, ..s }
            } else {
                s
            },
            None => s,
        },
        SocketCommand::GetStatus => if response == "STATUS:ON"@ {
            SocketState { is_on: true, ..s }
        } else if response == "STATUS:OFF"@ {
            SocketState { is_on: false, ..s }
        } else {
            s
        },
    }
}

/// A remotely controlled electrical socket. It talks to its peer over a
/// transport handle `H` and caches the state that the peer confirmed.
///
/// The transport's own work (opening, writing, reading) is done by the caller
/// between the steps below: `connect_target`, then `connect_with` with what
/// the open gave; `begin_command`, then writing the token to `handle_mut` and
/// reading once, then `finish_command` with what came back.
#[derive(Debug)]
pub struct TCPSmartElectricalSocket<H> {
    name: String,
    address: String,
    power_bits: u32,
    is_on: bool,
    connection: Connection<H>,
}

impl<H> View for TCPSmartElectricalSocket<H> {
    type V = SocketState;

    closed spec fn view(&self) -> SocketState {
        SocketState {
            name: self.name@,
            address: self.address@,
            power_bits: self.power_bits,
            is_on: self.is_on,
            connected: self.connection is Connected,
        }
    }
}

impl<H> TCPSmartElectricalSocket<H> {
    /// The open transport's handle, if any.
    pub closed spec fn handle(&self) -> Option<H> {
        match self.connection {
            Connection::Connected(h) => Some(h),
            Connection::Disconnected => None,
        }
    }

    /// A socket that is off and not connected.
    pub fn new(name: String, power_bits: u32, address: String) -> (r: Self)
        ensures
            r@ == (SocketState {
                name: name@,
                address: address@,
                power_bits,
                is_on: false,
                connected: false,
            }),
    {
        TCPSmartElectricalSocket {
            name,
            address,
            power_bits,
            is_on: false,
            connection: Connection::Disconnected,
        }
    }

    pub fn get_name(&self) -> (r: &str)
        ensures
            r@ == self@.name,
    {
        self.name.as_str()
    }

    pub fn get_address(&self) -> (r: &str)
        ensures
            r@ == self@.address,
    {
        self.address.as_str()
    }

    pub fn is_on(&self) -> (r: bool)
        ensures
            r == self@.is_on,
    {
        self.is_on
    }

    /// The reported power's bit pattern: the wattage while on, else zero.
    pub fn get_power_bits(&self) -> (r: u32)
        ensures
            r == reported_power(self@),
    {
        if self.is_on {
            self.power_bits
        } else {
            0
        }
    }

    pub fn is_connected(&self) -> (r: bool)
        ensures
            r == self@.connected,
    {
        match self.connection {
            Connection::Connected(_) => true,
            Connection::Disconnected => false,
        }
    }

    /// Drops the connection, if there is one; never fails.
    pub fn disconnect(&mut self)
        ensures
            final(self)@ == disconnected(old(self)@),
            final(self).handle() is None,
    {
        self.connection = Connection::Disconnected;
    }

    /// The address to open: refused while a connection is open.
    pub fn connect_target(&self) -> (r: Result<&str, SocketError>)
        ensures
            match r {
                Ok(a) => !self@.connected && a@ == self@.address,
                Err(e) => self@.connected && e == SocketError::AlreadyConnected,
            },
    {
        match self.connection {
            Connection::Connected(_) => Err(SocketError::AlreadyConnected),
            Connection::Disconnected => Ok(self.address.as_str()),
        }
    }

    /// Takes the outcome of opening the transport. While a connection is open
    /// this fails with `AlreadyConnected` and changes nothing; a failed open
    /// is reported as `ConnectionError` and changes nothing.
    pub fn connect_with(&mut self, opened: Result<H, String>) -> (r: Result<(), SocketError>)
        ensures
            old(self)@.connected ==> r == Err::<(), SocketError>(SocketError::AlreadyConnected)
                && final(self)@ == old(self)@ && final(self).handle() == old(self).handle(),
            !old(self)@.connected ==> match opened {
                Ok(h) => r == Ok::<(), SocketError>(()) && final(self)@ == (SocketState {
                    connected: true,
                    ..old(self)@
                }) && final(self).handle() == Some(h),
                Err(m) => r == Err::<(), SocketError>(SocketError::ConnectionError(m))
                    && final(self)@ == old(self)@ && final(self).handle() is None,
            },
    {
        if let Connection::Connected(_) = self.connection {
            return Err(SocketError::AlreadyConnected);
        }
        match opened {
            Ok(h) => {
                self.connection = Connection::Connected(h);
                Ok(())
            },
            Err(m) => Err(SocketError::ConnectionError(m)),
        }
    }

    /// The token to write for `command`; without a connection the command
    /// fails with `NotConnected` and nothing is to be written.
    pub fn begin_command(&self, command: SocketCommand) -> (r: Result<&'static str, SocketError>)
        ensures
            match r {
                Ok(t) => self@.connected && t@ == token(command),
                Err(e) => !self@.connected && e == SocketError::NotConnected,
            },
    {
        match self.connection {
            Connection::Connected(_) => Ok(command_to_string(command)),
            Connection::Disconnected => Err(SocketError::NotConnected),
        }
    }

    /// The open transport's handle, to write and read through.
    pub fn handle_mut(&mut self) -> (r: Option<&mut H>)
        ensures
            r is Some <==> old(self)@.connected,
            match r {
                Some(h) => old(self).handle() == Some(*h) && final(self)@ == old(self)@
                    && final(self).handle() == Some(*final(h)),
                None => *final(self) == *old(self),
            },
    {
        match &mut self.connection {
            Connection::Connected(h) => Some(h),
            Connection::Disconnected => None,
        }
    }

    /// Brings the cached state in line with an accepted reply to `command`.
    /// `reading` is the bit pattern of the wattage that the numeric text of a
    /// power reply parsed to, if it parsed (see `power_text`).
    pub fn update_state_from_response(
        &mut self,
        command: &SocketCommand,
        response: &str,
        reading: Option<u32>,
    )
        ensures
            final(self)@ == committed(old(self)@, *command, response@, reading),
            final(self).handle() == old(self).handle(),
    {
        match command {
            SocketCommand::TurnOn => {
                if same_text(response, "OK:ON") {
                    self.is_on = true;
                }
            },
            SocketCommand::TurnOff => {
                if same_text(response, "OK:OFF") {
                    self.is_on = false;
                }
            },
            SocketCommand::Switch => {
                if same_text(response, "OK:SWITCH") {
                    self.is_on = !self.is_on;
                }
            },
            SocketCommand::GetPower => {
                if has_prefix(response, "POWER:") {
                    if let Some(w) = reading {
                        self.power_bits = w;
                    }
                }
            },
            SocketCommand::GetStatus => {
                if same_text(response, "STATUS:ON") {
                    self.is_on = true;
                } else if same_text(response, "STATUS:OFF") {
                    self.is_on = false;
                }
            },
        }
    }

    /// Takes what came back for `command`: a timeout or a transport failure
    /// is reported as such, a reply that fails the prefix check as
    /// `ProtocolError`, and none of these changes the cached state. An
    /// accepted reply is committed and returned.
    pub fn finish_command(&mut self, command: SocketCommand, reply: Reply, reading: Option<u32>) -> (r:
        Result<String, SocketError>)
        ensures
            final(self).handle() == old(self).handle(),
            match reply {
                Reply::TimedOut => r == Err::<String, SocketError>(SocketError::Timeout)
                    && final(self)@ == old(self)@,
                Reply::Failed(m) => r == Err::<String, SocketError>(SocketError::IoError(m))
                    && final(self)@ == old(self)@,
                Reply::Received(text) => if accepts(command, text@) {
                    &&& r is Ok
                    &&& r->Ok_0@ == text@
                    &&& final(self)@ == committed(old(self)@, command, text@, reading)
                } else {
                    &&& r is Err
                    &&& r->Err_0 matches SocketError::ProtocolError(m) && m@ == rejection(
                        command,
                        text@,
                    )
                    &&& final(self)@ == old(self)@
                },
            },
    {
        match reply {
            Reply::TimedOut => Err(SocketError::Timeout),
            Reply::Failed(m) => Err(SocketError::IoError(m)),
            Reply::Received(text) => match parse_response(command, text.as_str()) {
                Ok(accepted) => {
                    self.update_state_from_response(&command, accepted.as_str(), reading);
                    Ok(accepted)
                },
                Err(m) => Err(SocketError::ProtocolError(m)),
            },
        }
    }
}

/// The numeric text of a power reply, to be parsed as a wattage: the reply
/// with every `POWER:` taken out, where it starts with one.
pub fn power_text(response: &str) -> (r: Option<String>)
    ensures
        match r {
            Some(t) => power_text_of(response@) == Some(t@),
            None => power_text_of(response@) is None,
        },
{
    if has_prefix(response, "POWER:") {
        proof {
            reveal_strlit("POWER:");
        }
        Some(remove_all_of(response, "POWER:"))
    } else {
        None
    }
}

/// Dropping the connection twice leaves the same state as dropping it once,
/// and that state is not connected.
pub proof fn lemma_disconnect_idempotent(s: SocketState)
    ensures
        disconnected(disconnected(s)) == disconnected(s),
        !disconnected(s).connected,
{
}

/// An accepted power reply whose numeric text did not parse leaves the
/// state as it was.
pub proof fn lemma_unparsed_power_kept(s: SocketState, response: Seq<char>)
    ensures
        committed(s, SocketCommand::GetPower, response, None) == s,
{
}

impl<H> DeviceCommands for TCPSmartElectricalSocket<H> {
    type CommandType = SocketCommand;

    fn command_to_string(&self, command: &SocketCommand) -> (r: &'static str)
        ensures
            r@ == token(*command),
    {
        command_to_string(*command)
    }

    fn parse_response(&self, command: &SocketCommand, response: &str) -> (r: Result<
        String,
        String,
    >)
        ensures
            match r {
                Ok(s) => accepts(*command, response@) && s@ == response@,
                Err(m) => !accepts(*command, response@) && m@ == rejection(*command, response@),
            },
    {
        parse_response(*command, response)
    }

    fn available_commands(&self) -> (r: Vec<SocketCommand>)
        ensures
            r@ == all_commands(),
    {
        available_commands()
    }
}

} // verus!
