use smartlib::errors::SocketError;
use smartlib::smart_devices::{power_text, Reply};
use smartlib::{SocketCommand, TCPSmartElectricalSocket};

/// A transport stand-in: it keeps every token written to it.
type Peer = Vec<String>;

fn socket_at(address: &str) -> TCPSmartElectricalSocket<Peer> {
    TCPSmartElectricalSocket::new("TestSocket".to_string(), 220.0f32.to_bits(), address.to_string())
}

fn connected() -> TCPSmartElectricalSocket<Peer> {
    let mut socket = socket_at("127.0.0.1:9999");
    assert_eq!(socket.connect_target(), Ok("127.0.0.1:9999"));
    assert_eq!(socket.connect_with(Ok(Vec::new())), Ok(()));
    socket
}

/// What the numeric text of a power reply parses to, as a bit pattern.
fn reading_of(reply: &str) -> Option<u32> {
    power_text(reply).and_then(|t| t.trim().parse::<f32>().ok()).map(f32::to_bits)
}

/// One command, answered by `reply`.
fn exchange(
    socket: &mut TCPSmartElectricalSocket<Peer>,
    command: SocketCommand,
    reply: &str,
) -> Result<String, SocketError> {
    let token = socket.begin_command(command)?;
    socket.handle_mut().unwrap().push(token.to_string());
    socket.finish_command(command, Reply::Received(reply.to_string()), reading_of(reply))
}

fn written(socket: &mut TCPSmartElectricalSocket<Peer>) -> Vec<String> {
    socket.handle_mut().map(|p| p.clone()).unwrap_or_default()
}

fn power(socket: &TCPSmartElectricalSocket<Peer>) -> f32 {
    f32::from_bits(socket.get_power_bits())
}

#[test]
fn test_network_socket_creation() {
    let socket = socket_at("127.0.0.1:9999");

    assert_eq!(socket.get_name(), "TestSocket");
    assert!(!socket.is_on());
    assert!(!socket.is_connected());
    assert_eq!(power(&socket), 0.0);
}

#[test]
fn test_socket_connection_error() {
    let mut socket = socket_at("127.0.0.1:99999");
    let target = socket.connect_target().unwrap().to_string();
    assert_eq!(target, "127.0.0.1:99999");
    // the port is out of range, so opening it fails
    let opened: Result<Peer, String> = Err("invalid port value".to_string());

    assert!(socket.connect_with(opened).is_err());
    assert!(!socket.is_connected());
}

#[test]
fn unreachable_address_gives_connection_error() {
    let mut socket = socket_at("10.255.255.1:1");
    let result = socket.connect_with(Err("connection refused".to_string()));
    assert_eq!(result, Err(SocketError::ConnectionError("connection refused".to_string())));
    assert!(!socket.is_connected());
    assert!(!socket.is_on());
}

#[test]
fn connect_while_connected_is_refused() {
    let mut socket = connected();
    assert_eq!(socket.connect_target(), Err(SocketError::AlreadyConnected));
    assert_eq!(
        socket.connect_with(Ok(vec!["other".to_string()])),
        Err(SocketError::AlreadyConnected)
    );
    assert!(socket.is_connected());
    assert!(written(&mut socket).is_empty());
}

#[test]
fn disconnect_twice_stays_disconnected() {
    let mut socket = connected();
    socket.disconnect();
    assert!(!socket.is_connected());
    socket.disconnect();
    assert!(!socket.is_connected());
    assert!(socket.handle_mut().is_none());
}

#[test]
fn reconnecting_keeps_cached_state() {
    let mut socket = connected();
    assert_eq!(exchange(&mut socket, SocketCommand::TurnOn, "OK:ON"), Ok("OK:ON".to_string()));
    socket.disconnect();
    assert!(socket.is_on());
    assert_eq!(socket.connect_with(Ok(Vec::new())), Ok(()));
    assert!(socket.is_on());
    assert_eq!(power(&socket), 220.0);
}

#[test]
fn turn_on_confirmed() {
    let mut socket = connected();
    let result = exchange(&mut socket, SocketCommand::TurnOn, "OK:ON");
    assert_eq!(result, Ok("OK:ON".to_string()));
    assert!(socket.is_on());
    assert_eq!(written(&mut socket), vec!["ON".to_string()]);
}

#[test]
fn turn_on_rejected() {
    let mut socket = connected();
    let result = exchange(&mut socket, SocketCommand::TurnOn, "NOPE");
    assert_eq!(result, Err(SocketError::ProtocolError("invalid response: NOPE".to_string())));
    assert!(!socket.is_on());
    assert!(socket.is_connected());
}

#[test]
fn commands_need_a_connection() {
    let mut socket = socket_at("127.0.0.1:9999");
    for c in [
        SocketCommand::TurnOn,
        SocketCommand::TurnOff,
        SocketCommand::Switch,
        SocketCommand::GetPower,
        SocketCommand::GetStatus,
    ] {
        assert_eq!(socket.begin_command(c), Err(SocketError::NotConnected));
        assert_eq!(exchange(&mut socket, c, "OK:ON"), Err(SocketError::NotConnected));
    }
    assert!(socket.handle_mut().is_none());
    assert!(!socket.is_on());
}

#[test]
fn unparsed_power_keeps_cached_power() {
    let mut socket = connected();
    exchange(&mut socket, SocketCommand::TurnOn, "OK:ON").unwrap();
    assert_eq!(power(&socket), 220.0);
    let result = exchange(&mut socket, SocketCommand::GetPower, "POWER:abc");
    assert_eq!(result, Ok("POWER:abc".to_string()));
    assert_eq!(power(&socket), 220.0);
}

#[test]
fn parsed_power_is_cached() {
    let mut socket = connected();
    assert_eq!(
        exchange(&mut socket, SocketCommand::GetPower, "POWER: 150.5 "),
        Ok("POWER: 150.5 ".to_string())
    );
    // still off: the reported power is zero
    assert_eq!(power(&socket), 0.0);
    exchange(&mut socket, SocketCommand::TurnOn, "OK:ON").unwrap();
    assert_eq!(power(&socket), 150.5);
    assert_eq!(
        written(&mut socket),
        vec!["GET_POWER".to_string(), "ON".to_string()]
    );
}

#[test]
fn power_text_takes_every_tag_out() {
    assert_eq!(power_text("POWER:220.0"), Some("220.0".to_string()));
    assert_eq!(power_text("POWER:POWER:5"), Some("5".to_string()));
    assert_eq!(power_text("POWER:1POWER:2"), Some("12".to_string()));
    assert_eq!(power_text("POWER:"), Some(String::new()));
    assert_eq!(power_text("220.0"), None);
    assert_eq!(power_text("XPOWER:1"), None);
}

#[test]
fn switch_flips_only_on_exact_confirmation() {
    let mut socket = connected();
    assert_eq!(exchange(&mut socket, SocketCommand::Switch, "OK:SWITCH"), Ok("OK:SWITCH".to_string()));
    assert!(socket.is_on());
    assert_eq!(exchange(&mut socket, SocketCommand::Switch, "OK:SWITCHED"), Ok("OK:SWITCHED".to_string()));
    assert!(socket.is_on());
    assert_eq!(exchange(&mut socket, SocketCommand::Switch, "OK:SWITCH"), Ok("OK:SWITCH".to_string()));
    assert!(!socket.is_on());
}

#[test]
fn turn_off_and_status_replies() {
    let mut socket = connected();
    exchange(&mut socket, SocketCommand::GetStatus, "STATUS:ON").unwrap();
    assert!(socket.is_on());
    assert_eq!(exchange(&mut socket, SocketCommand::GetStatus, "STATUS:MAYBE"), Ok("STATUS:MAYBE".to_string()));
    assert!(socket.is_on());
    exchange(&mut socket, SocketCommand::TurnOff, "OK:ON").unwrap();
    assert!(socket.is_on());
    exchange(&mut socket, SocketCommand::TurnOff, "OK:OFF").unwrap();
    assert!(!socket.is_on());
    exchange(&mut socket, SocketCommand::TurnOn, "OK:OFF").unwrap();
    assert!(!socket.is_on());
    exchange(&mut socket, SocketCommand::GetStatus, "STATUS:ON").unwrap();
    exchange(&mut socket, SocketCommand::GetStatus, "STATUS:OFF").unwrap();
    assert!(!socket.is_on());
}

#[test]
fn timeout_and_transport_failure_change_nothing() {
    let mut socket = connected();
    assert_eq!(
        socket.finish_command(SocketCommand::TurnOn, Reply::TimedOut, None),
        Err(SocketError::Timeout)
    );
    assert!(!socket.is_on());
    assert!(socket.is_connected());
    assert_eq!(
        socket.finish_command(SocketCommand::TurnOn, Reply::Failed("reset".to_string()), None),
        Err(SocketError::IoError("reset".to_string()))
    );
    assert!(!socket.is_on());
    assert!(socket.is_connected());
}

#[test]
fn on_off_sequence_through_one_connection() {
    let mut socket = connected();
    exchange(&mut socket, SocketCommand::TurnOn, "OK:ON").unwrap();
    assert!(socket.is_on());
    exchange(&mut socket, SocketCommand::TurnOff, "OK:OFF").unwrap();
    assert!(!socket.is_on());
    assert_eq!(written(&mut socket), vec!["ON".to_string(), "OFF".to_string()]);
}

#[test]
fn state_update_applies_exact_matches_only() {
    let mut socket = socket_at("127.0.0.1:9999");
    socket.update_state_from_response(&SocketCommand::TurnOn, "OK:ON", None);
    assert!(socket.is_on());
    socket.update_state_from_response(&SocketCommand::GetPower, "POWER:42", Some(42.0f32.to_bits()));
    assert_eq!(power(&socket), 42.0);
    // a reading without the tag is not taken
    socket.update_state_from_response(&SocketCommand::GetPower, "42", Some(7.0f32.to_bits()));
    assert_eq!(power(&socket), 42.0);
    socket.update_state_from_response(&SocketCommand::TurnOff, "OK:OFF ", None);
    assert!(socket.is_on());
}
