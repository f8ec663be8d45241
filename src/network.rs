use vstd::prelude::*;

verus! {

/// A device that is driven by a fixed vocabulary of commands and that checks
/// the replies it gets to them.
pub trait DeviceCommands {
    type CommandType;

    fn command_to_string(&self, command: &Self::CommandType) -> &'static str;

    fn parse_response(&self, command: &Self::CommandType, response: &str) -> Result<
        String,
        String,
    >;

    fn available_commands(&self) -> Vec<Self::CommandType>;
}

} // verus!
