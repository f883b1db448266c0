use smart_home::device::{BorrowingDeviceInfoProvider, SmartSocket, SmartThermometer};
use smart_home::error::Error;
use smart_home::house::{Device, House, Room};

#[test]
fn it_house_get_rooms_returns_rooms() {
    let house = House::default();

    assert_eq!(
        house.get_rooms(),
        vec![
            "Спальня",
            "Ельня",
            "Пильня",
            "Спальня",
            "Телевизор смотрельня"
        ]
    )
}

#[test]
fn it_house_devices_returns_devices() {
    let house = House::default();

    assert_eq!(
        house.devices("Спальня").unwrap(),
        vec!["Кондиционер", "Лампа", "Электронная книга"]
    )
}

#[test]
fn it_house_devices_returns_error() {
    let house = House::default();

    assert_eq!(
        house.devices("test").err().unwrap(),
        Error::RoomNotFound("test".into())
    )
}

#[test]
fn it_house_create_report_returns_report() {
    let house = House::default();
    let smart_socket = SmartSocket {};

    assert_eq!(
        &house.create_report(&smart_socket),
        "House: Дом

  Room: Спальня
    Device: Кондиционер (on)
    Device: Лампа (on)
    Device: Электронная книга ()

  Room: Ельня
    Device: Плита (off)
    Device: Холодильник (off)
    Device: Посудомоечная машина (on)

  Room: Пильня
    Device: Плита (off)
    Device: Холодильник (off)
    Device: Посудомоечная машина (off)

  Room: Спальня
    Device: Кондиционер (on)
    Device: Лампа (on)
    Device: Электронная книга ()

  Room: Телевизор смотрельня
    Device: Телевизор (off)
    Device: Игровая приставка (off)
    Device: Маршрутизатор (off)
"
    )
}

#[test]
fn device_names_match_the_catalog() {
    assert_eq!(Device::AC.get_name(), "Кондиционер");
    assert_eq!(Device::Lamp.get_name(), "Лампа");
    assert_eq!(Device::Ebook.get_name(), "Электронная книга");
    assert_eq!(Device::Stove.get_name(), "Плита");
    assert_eq!(Device::Fridge.get_name(), "Холодильник");
    assert_eq!(Device::Dishwasher.get_name(), "Посудомоечная машина");
    assert_eq!(Device::TV.get_name(), "Телевизор");
    assert_eq!(Device::Game.get_name(), "Игровая приставка");
    assert_eq!(Device::Router.get_name(), "Маршрутизатор");
}

#[test]
fn room_reports_name_and_device_names_in_order() {
    let room = Room::new(
        "Спальня".into(),
        vec![Device::Lamp, Device::Lamp, Device::Router],
    );

    assert_eq!(room.name(), "Спальня");
    assert_eq!(
        room.get_devices(),
        vec!["Лампа", "Лампа", "Маршрутизатор"]
    );
}

#[test]
fn report_with_borrowing_provider_labels_both_sensors() {
    let house = House::default();
    let smart_socket = SmartSocket {};
    let smart_thermometer = SmartThermometer {};
    let provider = BorrowingDeviceInfoProvider::new(&smart_socket, &smart_thermometer);

    assert_eq!(
        &house.create_report(&provider),
        "House: Дом

  Room: Спальня
    Device: Кондиционер (socket: on, thermo: 25)
    Device: Лампа (socket: on, thermo: none)
    Device: Электронная книга (socket: none, thermo: none)

  Room: Ельня
    Device: Плита (socket: off, thermo: 25)
    Device: Холодильник (socket: off, thermo: -5)
    Device: Посудомоечная машина (socket: on, thermo: 40)

  Room: Пильня
    Device: Плита (socket: off, thermo: 25)
    Device: Холодильник (socket: off, thermo: 25)
    Device: Посудомоечная машина (socket: off, thermo: 25)

  Room: Спальня
    Device: Кондиционер (socket: on, thermo: 25)
    Device: Лампа (socket: on, thermo: none)
    Device: Электронная книга (socket: none, thermo: none)

  Room: Телевизор смотрельня
    Device: Телевизор (socket: off, thermo: none)
    Device: Игровая приставка (socket: off, thermo: none)
    Device: Маршрутизатор (socket: off, thermo: none)
"
    )
}

#[test]
fn devices_finds_only_the_first_room_with_a_duplicated_name() {
    let house = House::new(
        "Дом".into(),
        vec![
            Room::new("Спальня".into(), vec![Device::Lamp]),
            Room::new("Спальня".into(), vec![Device::TV]),
        ],
    );

    assert_eq!(house.devices("Спальня").unwrap(), vec!["Лампа"]);
}
