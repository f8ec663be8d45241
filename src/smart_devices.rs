mod command;
mod networksocket;
mod smartsocket;
mod measures;

pub use command::{
    accepted_prefix, accepts, all_commands, available_commands, command_to_string,
    lemma_all_commands_listed_once, lemma_tokens_distinct, parse_response, rejection,
    rejection_lead, token, SocketCommand,
};
pub use networksocket::{
    committed, disconnected, lemma_disconnect_idempotent, lemma_unparsed_power_kept, power_tag,
    power_text, power_text_of, reported_power, Connection, Reply, SocketState,
    TCPSmartElectricalSocket,
};
pub use smartsocket::SmartElectricalSoket;
pub use measures::TempMeasures;
