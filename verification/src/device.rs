use vstd::prelude::*;

use vstd::string::StringExecFns;

use crate::house::{Device, Room};
use crate::text::str_eq;

verus! {

/// A capability that, given a room and a device, optionally yields a
/// current status string. Implementations are pure reads: the status
/// is a function of the room's name and the device kind alone.
pub trait DeviceInfoProvider {
    /// The status this provider reports for a room name and a device.
    spec fn spec_status(&self, room_name: Seq<char>, device: Device) -> Option<Seq<char>>;

    /// The reported status, exactly as `spec_status` states it.
    fn get_status(&self, room: &Room, device: &Device) -> (r: Option<String>)
        ensures
            r.deep_view() == self.spec_status(room@.name, *device),
    ;
}

/// The socket sensor's fixed lookup table, keyed by exact room name
/// and device kind.
pub open spec fn socket_status(room_name: Seq<char>, device: Device) -> Option<Seq<char>> {
    if room_name == "Спальня"@ {
        match device {
            Device::AC => Some("on"@),
            Device::Lamp => Some("on"@),
            _ => None,
        }
    } else if room_name == "Ельня"@ {
        match device {
            Device::Stove => Some("off"@),
            Device::Fridge => Some("off"@),
            Device::Dishwasher => Some("on"@),
            _ => None,
        }
    } else if room_name == "Пильня"@ {
        match device {
            Device::Stove => Some("off"@),
            Device::Fridge => Some("off"@),
            Device::Dishwasher => Some("off"@),
            _ => None,
        }
    } else if room_name == "Телевизор смотрельня"@ {
        match device {
            Device::TV => Some("off"@),
            Device::Game => Some("off"@),
            Device::Router => Some("off"@),
            _ => None,
        }
    } else {
        None
    }
}

/// The (room name, device) pairs the socket table covers.
pub open spec fn socket_table_contains(room_name: Seq<char>, device: Device) -> bool {
    ||| room_name == "Спальня"@ && (device is AC || device is Lamp)
    ||| room_name == "Ельня"@ && (device is Stove || device is Fridge || device is Dishwasher)
    ||| room_name == "Пильня"@ && (device is Stove || device is Fridge || device is Dishwasher)
    ||| room_name == "Телевизор смотрельня"@ && (device is TV || device is Game || device is Router)
}

/// The socket sensor reports a status exactly for the pairs its table
/// lists; every other (room, device) pair yields no value.
#[verifier::rlimit(50)]
pub proof fn lemma_socket_status_domain(room_name: Seq<char>, device: Device)
    ensures
        socket_status(room_name, device) is Some <==> socket_table_contains(room_name, device),
{
    reveal_strlit("Спальня");
    reveal_strlit("Ельня");
    reveal_strlit("Пильня");
    reveal_strlit("Телевизор смотрельня");
    assert("Спальня"@.len() == 7);
    assert("Ельня"@.len() == 5);
    assert("Пильня"@.len() == 6);
    assert("Телевизор смотрельня"@.len() == 20);
}

/// A stateless socket sensor backed by the fixed socket table.
pub struct SmartSocket {}

impl DeviceInfoProvider for SmartSocket {
    open spec fn spec_status(&self, room_name: Seq<char>, device: Device) -> Option<Seq<char>> {
        socket_status(room_name, device)
    }

    fn get_status(&self, room: &Room, device: &Device) -> (r: Option<String>) {
        let name = room.name();
        if str_eq(name, "Спальня") {
            match device {
                Device::AC => Some("on".to_owned()),
                Device::Lamp => Some("on".to_owned()),
                _ => None,
            }
        } else if str_eq(name, "Ельня") {
            match device {
                Device::Stove => Some("off".to_owned()),
                Device::Fridge => Some("off".to_owned()),
                Device::Dishwasher => Some("on".to_owned()),
                _ => None,
            }
        } else if str_eq(name, "Пильня") {
            match device {
                Device::Stove => Some("off".to_owned()),
                Device::Fridge => Some("off".to_owned()),
                Device::Dishwasher => Some("off".to_owned()),
                _ => None,
            }
        } else if str_eq(name, "Телевизор смотрельня") {
            match device {
                Device::TV => Some("off".to_owned()),
                Device::Game => Some("off".to_owned()),
                Device::Router => Some("off".to_owned()),
                _ => None,
            }
        } else {
            None
        }
    }
}

/// The thermometer's fixed lookup table, keyed by exact room name and
/// device kind.
pub open spec fn thermometer_status(room_name: Seq<char>, device: Device) -> Option<Seq<char>> {
    if room_name == "Спальня"@ {
        match device {
            Device::AC => Some("25"@),
            _ => None,
        }
    } else if room_name == "Ельня"@ {
        match device {
            Device::Stove => Some("25"@),
            Device::Fridge => Some("-5"@),
            Device::Dishwasher => Some("40"@),
            _ => None,
        }
    } else if room_name == "Пильня"@ {
        match device {
            Device::Stove => Some("25"@),
            Device::Fridge => Some("25"@),
            Device::Dishwasher => Some("25"@),
            _ => None,
        }
    } else {
        None
    }
}

/// The (room name, device) pairs the thermometer table covers.
pub open spec fn thermometer_table_contains(room_name: Seq<char>, device: Device) -> bool {
    ||| room_name == "Спальня"@ && device is AC
    ||| room_name == "Ельня"@ && (device is Stove || device is Fridge || device is Dishwasher)
    ||| room_name == "Пильня"@ && (device is Stove || device is Fridge || device is Dishwasher)
}

/// The thermometer reports a status exactly for the pairs its table
/// lists; every other (room, device) pair yields no value.
#[verifier::rlimit(50)]
pub proof fn lemma_thermometer_status_domain(room_name: Seq<char>, device: Device)
    ensures
        thermometer_status(room_name, device) is Some <==> thermometer_table_contains(
            room_name,
            device,
        ),
{
    reveal_strlit("Спальня");
    reveal_strlit("Ельня");
    reveal_strlit("Пильня");
    assert("Спальня"@.len() == 7);
    assert("Ельня"@.len() == 5);
    assert("Пильня"@.len() == 6);
}

/// A stateless thermometer backed by the fixed thermometer table.
pub struct SmartThermometer {}

impl DeviceInfoProvider for SmartThermometer {
    open spec fn spec_status(&self, room_name: Seq<char>, device: Device) -> Option<Seq<char>> {
        thermometer_status(room_name, device)
    }

    fn get_status(&self, room: &Room, device: &Device) -> (r: Option<String>) {
        let name = room.name();
        if str_eq(name, "Спальня") {
            match device {
                Device::AC => Some("25".to_owned()),
                _ => None,
            }
        } else if str_eq(name, "Ельня") {
            match device {
                Device::Stove => Some("25".to_owned()),
                Device::Fridge => Some("-5".to_owned()),
                Device::Dishwasher => Some("40".to_owned()),
                _ => None,
            }
        } else if str_eq(name, "Пильня") {
            match device {
                Device::Stove => Some("25".to_owned()),
                Device::Fridge => Some("25".to_owned()),
                Device::Dishwasher => Some("25".to_owned()),
                _ => None,
            }
        } else {
            None
        }
    }
}

/// A status rendered as text: the status itself, or the literal
/// "none" when there is no status.
pub open spec fn status_or_none(status: Option<Seq<char>>) -> Seq<char> {
    match status {
        Some(s) => s,
        None => "none"@,
    }
}

/// What the owning composite reports: the socket's status under a
/// "socket: " label, with a missing status rendered as "none".
pub open spec fn owning_status(room_name: Seq<char>, device: Device) -> Option<Seq<char>> {
    Some("socket: "@ + status_or_none(socket_status(room_name, device)))
}

/// A composite provider that owns its socket sensor outright and
/// labels that sensor's answers.
pub struct OwningDeviceInfoProvider {
    socket: SmartSocket,
}

impl OwningDeviceInfoProvider {
    /// A composite that takes the socket sensor into its ownership.
    pub fn new(socket: SmartSocket) -> Self {
        Self { socket }
    }
}

impl DeviceInfoProvider for OwningDeviceInfoProvider {
    open spec fn spec_status(&self, room_name: Seq<char>, device: Device) -> Option<Seq<char>> {
        owning_status(room_name, device)
    }

    fn get_status(&self, room: &Room, device: &Device) -> (r: Option<String>) {
        let mut result = "socket: ".to_owned();
        match self.socket.get_status(room, device) {
            Some(status) => result.append(status.as_str()),
            None => result.append("none"),
        }
        Some(result)
    }
}

/// What the borrowing composite reports: the socket's and the
/// thermometer's statuses under their labels, with a missing status
/// rendered as "none".
pub open spec fn borrowing_status(room_name: Seq<char>, device: Device) -> Option<Seq<char>> {
    Some(
        "socket: "@ + status_or_none(socket_status(room_name, device)) + ", thermo: "@
            + status_or_none(thermometer_status(room_name, device)),
    )
}

/// A composite provider that borrows an externally-owned socket
/// sensor and thermometer and labels both answers.
pub struct BorrowingDeviceInfoProvider<'a, 'b> {
    socket: &'a SmartSocket,
    thermo: &'b SmartThermometer,
}

impl<'a, 'b> BorrowingDeviceInfoProvider<'a, 'b> {
    /// A composite over two providers that some collaborator with an
    /// equal-or-longer lifetime owns.
    pub fn new(socket: &'a SmartSocket, thermo: &'b SmartThermometer) -> Self {
        Self { socket, thermo }
    }
}

impl<'a, 'b> DeviceInfoProvider for BorrowingDeviceInfoProvider<'a, 'b> {
    open spec fn spec_status(&self, room_name: Seq<char>, device: Device) -> Option<Seq<char>> {
        borrowing_status(room_name, device)
    }

    fn get_status(&self, room: &Room, device: &Device) -> (r: Option<String>) {
        let mut result = "socket: ".to_owned();
        match self.socket.get_status(room, device) {
            Some(status) => result.append(status.as_str()),
            None => result.append("none"),
        }
        result.append(", thermo: ");
        match self.thermo.get_status(room, device) {
            Some(status) => result.append(status.as_str()),
            None => result.append("none"),
        }
        Some(result)
    }
}

/// A composite provider always reports a status: absence of an
/// underlying status is rendered as text, never passed on.
pub proof fn lemma_owning_status_total(room_name: Seq<char>, device: Device)
    ensures
        owning_status(room_name, device) is Some,
{
}

/// The borrowing composite, too, always reports a status.
pub proof fn lemma_borrowing_status_total(room_name: Seq<char>, device: Device)
    ensures
        borrowing_status(room_name, device) is Some,
{
}

} // verus!
