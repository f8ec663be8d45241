use vstd::prelude::*;

verus! {

/// Lookup failures in the home hierarchy.
#[derive(Debug, PartialEq, Eq)]
pub enum SmartHomeErrors {
    RoomNotFound(String),
    DeviceNotFound(String),
}

/// The text of a lookup failure.
pub open spec fn home_error_text(e: SmartHomeErrors) -> Seq<char> {
    match e {
        SmartHomeErrors::DeviceNotFound(name) => "Device "@ + name@ + " not found"@,
        SmartHomeErrors::RoomNotFound(name) => "Room "@ + name@ + " not found"@,
    }
}

impl SmartHomeErrors {
    /// A readable description, naming what was not found.
    pub fn to_string(&self) -> (r: String)
        ensures
            r@ == home_error_text(*self),
    {
        match self {
            SmartHomeErrors::DeviceNotFound(name) => "Device ".to_string().concat(name.as_str()).concat(
                " not found",
            ),
            SmartHomeErrors::RoomNotFound(name) => "Room ".to_string().concat(name.as_str()).concat(
                " not found",
            ),
        }
    }
}

/// Failures of the networked socket's connection and commands.
#[derive(Debug, PartialEq, Eq)]
pub enum SocketError {
    /// `connect` while a connection is open.
    AlreadyConnected,
    /// Opening the transport failed; holds the cause.
    ConnectionError(String),
    /// A command was issued without a connection.
    NotConnected,
    /// No reply came within the read window.
    Timeout,
    /// Writing or reading failed otherwise; holds the cause.
    IoError(String),
    /// The reply failed the prefix check; holds the validator's message.
    ProtocolError(String),
}

} // verus!
