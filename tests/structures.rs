use smartlib::errors::SmartHomeErrors;
use smartlib::keyed::KeyedList;
use smartlib::smart_devices::SmartElectricalSoket;
use smartlib::{Room, SmartHome};

/// Devices as a home holds them: a thermometer (name, reading) or a socket.
#[derive(Debug)]
enum Device {
    Thermometer(String, f32),
    ElectricalSocket(SmartElectricalSoket),
}

fn thermometer(name: &str, reading: f32) -> Device {
    Device::Thermometer(name.to_string(), reading)
}

fn socket(name: &str, watts: f32) -> Device {
    Device::ElectricalSocket(SmartElectricalSoket::new(name.to_string(), watts.to_bits()))
}

fn create_room() -> Room<Device> {
    let mut room = Room::new(String::from("Гостинная"));
    room.add_device_with_key(String::from("RoomThermometer"), thermometer("RoomThermometer", 24.0));
    room.add_device_with_key(String::from("ComputerSoket"), socket("ComputerSoket", 220.0));
    room.add_device_with_key(String::from("Router"), socket("Router", 210.0));
    room
}

fn create_home(rooms: Vec<Room<Device>>) -> SmartHome<Device> {
    SmartHome::new(String::from("TestHome"), rooms)
}

#[test]
fn test_room_get_device_option() {
    let room = create_room();
    assert!(room.get_device("RoomThermometer").is_some());
}

#[test]
fn test_mut_room_get_device_option() {
    let mut room = create_room();
    assert!(room.get_mutable_device("RoomThermometer").is_some());
}

#[test]
fn test_room_add_and_delete_device() {
    let mut room = Room::new(String::from("Bedroom"));
    room.add_device_with_key(String::from("Thermo"), thermometer("T", 20.0));
    assert!(room.get_device("Thermo").is_some());

    assert!(room.delete_device("Thermo").is_ok());
    assert!(room.get_device("Thermo").is_none());

    let err = room.delete_device("Thermo").unwrap_err();
    match err {
        SmartHomeErrors::DeviceNotFound(name) => assert_eq!(name, "Thermo"),
        _ => panic!("unexpected error variant"),
    }
}

#[test]
fn test_macro_add_room_empty() {
    let room: Room<Device> = Room::new(String::from("Empty"));
    assert_eq!(room.get_name(), "Empty");
    assert!(room.get_device("any").is_none());
}

#[test]
fn test_macro_add_room_one_device() {
    let mut room = Room::new(String::from("WithOne"));
    room.add_device_with_key(String::from("Thermo"), thermometer("T", 19.0));
    assert!(room.get_device("Thermo").is_some());
}

#[test]
fn test_macro_add_room_multiple_devices() {
    let mut room = Room::new(String::from("WithMany"));
    room.add_device_with_key(String::from("Thermo1"), thermometer("T1", 19.0));
    room.add_device_with_key(String::from("Socket1"), socket("S1", 100.0));
    assert!(room.get_device("Thermo1").is_some());
    assert!(room.get_device("Socket1").is_some());
}

#[test]
fn test_home_get_device_and_errors() {
    let room = create_room();
    let home = create_home(vec![room]);

    let device = home.get_device_from_room("Гостинная", "RoomThermometer").unwrap();
    match device {
        Device::Thermometer(..) => {}
        _ => panic!("unexpected device type"),
    }

    let err = home.get_device_from_room("Гостинная", "Unknown").unwrap_err();
    match err {
        SmartHomeErrors::DeviceNotFound(name) => assert_eq!(name, "Unknown"),
        _ => panic!("unexpected error variant"),
    }

    let err = home.get_device_from_room("Кухня", "RoomThermometer").unwrap_err();
    match err {
        SmartHomeErrors::RoomNotFound(name) => assert_eq!(name, "Кухня"),
        _ => panic!("unexpected error variant"),
    }
}

#[test]
fn test_home_add_and_delete_room() {
    let mut home = create_home(vec![]);
    let room = Room::new(String::from("Балкон"));
    home.add_room_with_key(String::from("Балкон"), room);
    assert!(home.get_room("Балкон").is_some());

    assert!(home.delete_room("Балкон").is_ok());
    assert!(home.get_room("Балкон").is_none());

    let err = home.delete_room("Балкон").unwrap_err();
    match err {
        SmartHomeErrors::RoomNotFound(name) => assert_eq!(name, "Балкон"),
        _ => panic!("unexpected error variant"),
    }
}

#[test]
fn errors_are_displayed_meaningfully() {
    let home: SmartHome<Device> = SmartHome::new(String::from("H"), vec![]);
    let err = home.get_device_from_room("Nope", "X").unwrap_err();
    let msg = err.to_string();
    assert!(msg.contains("Room Nope not found"));
}

#[test]
fn error_texts() {
    assert_eq!(SmartHomeErrors::RoomNotFound("Кухня".to_string()).to_string(), "Room Кухня not found");
    assert_eq!(SmartHomeErrors::DeviceNotFound("T2".to_string()).to_string(), "Device T2 not found");
}

#[test]
fn later_room_of_one_name_wins() {
    let mut first = Room::new(String::from("Hall"));
    first.add_device_with_key(String::from("A"), thermometer("A", 1.0));
    let second = Room::new(String::from("Hall"));
    let home = create_home(vec![first, second, Room::new(String::from("Attic"))]);
    assert_eq!(home.rooms().len(), 2);
    assert!(home.get_room("Hall").unwrap().get_device("A").is_none());
    assert!(home.get_room("Attic").is_some());
    assert_eq!(home.get_name(), "TestHome");
}

#[test]
fn changing_a_device_in_place() {
    let mut home = create_home(vec![create_room()]);
    let room = home.get_mutable_room("Гостинная").unwrap();
    match room.get_mutable_device("Router") {
        Some(Device::ElectricalSocket(s)) => s.turn_on(),
        _ => panic!("unexpected device type"),
    }
    match home.get_device_from_room("Гостинная", "Router").unwrap() {
        Device::ElectricalSocket(s) => assert!(s.is_on()),
        _ => panic!("unexpected device type"),
    }
    assert!(home.get_mutable_room("Кухня").is_none());
}

#[test]
fn keyed_list_replaces_and_removes() {
    let mut list = KeyedList::new();
    list.insert(String::from("a"), 1u8);
    list.insert(String::from("b"), 2u8);
    list.insert(String::from("a"), 3u8);
    assert_eq!(list.len(), 2);
    assert_eq!(list.get("a"), Some(&3u8));
    assert_eq!(*list.value_at(0), 3u8);
    assert_eq!(*list.value_at(1), 2u8);
    assert!(list.remove("a"));
    assert!(!list.remove("a"));
    assert_eq!(list.len(), 1);
    assert_eq!(list.get("a"), None);
    assert!(list.contains_key("b"));
    if let Some(v) = list.get_mut("b") {
        *v = 9;
    }
    assert_eq!(list.get("b"), Some(&9u8));
}
