use vstd::prelude::*;
use vstd::string::StringExecFns;

use crate::device::DeviceInfoProvider;
use crate::error::Error;
use crate::text::str_eq;

verus! {

/// The closed catalog of device kinds a room may contain.
#[derive(Clone, Copy, Debug, PartialEq, Eq, Structural)]
pub enum Device {
    AC,
    Lamp,
    Ebook,
    Stove,
    Fridge,
    Dishwasher,
    TV,
    Game,
    Router,
}

/// Display name of each device kind.
pub open spec fn device_display_name(d: Device) -> Seq<char> {
    match d {
        Device::AC => "Кондиционер"@,
        Device::Lamp => "Лампа"@,
        Device::Ebook => "Электронная книга"@,
        Device::Stove => "Плита"@,
        Device::Fridge => "Холодильник"@,
        Device::Dishwasher => "Посудомоечная машина"@,
        Device::TV => "Телевизор"@,
        Device::Game => "Игровая приставка"@,
        Device::Router => "Маршрутизатор"@,
    }
}

impl Device {
    /// The fixed display name of this device kind.
    pub fn get_name(&self) -> (r: &str)
        ensures
            r@ == device_display_name(*self),
    {
        match self {
            Device::AC => "Кондиционер",
            Device::Lamp => "Лампа",
            Device::Ebook => "Электронная книга",
            Device::Stove => "Плита",
            Device::Fridge => "Холодильник",
            Device::Dishwasher => "Посудомоечная машина",
            Device::TV => "Телевизор",
            Device::Game => "Игровая приставка",
            Device::Router => "Маршрутизатор",
        }
    }
}

/// Mathematical model of a room: its name and its ordered devices.
#[verifier::ext_equal]
pub ghost struct RoomView {
    pub name: Seq<char>,
    pub devices: Seq<Device>,
}

/// A named room holding an ordered list of devices (duplicates allowed).
#[derive(Debug)]
pub struct Room {
    name: String,
    devices: Vec<Device>,
}

impl View for Room {
    type V = RoomView;

    closed spec fn view(&self) -> RoomView {
        RoomView { name: self.name@, devices: self.devices@ }
    }
}

/// The display names of a sequence of devices, in order.
pub open spec fn device_display_names(ds: Seq<Device>) -> Seq<Seq<char>> {
    Seq::new(ds.len(), |i: int| device_display_name(ds[i]))
}

impl Room {
    /// A room with the given name and devices, kept exactly as given.
    pub fn new(name: String, devices: Vec<Device>) -> (r: Self)
        ensures
            r@.name == name@,
            r@.devices == devices@,
    {
        Self { name, devices }
    }

    /// The room's name.
    pub fn name(&self) -> (r: &str)
        ensures
            r@ == self@.name,
    {
        self.name.as_str()
    }

    /// The display names of the room's devices, in storage order,
    /// duplicates preserved.
    pub fn get_devices(&self) -> (r: Vec<&str>)
        ensures
            r.deep_view() == device_display_names(self@.devices),
    {
        let mut names: Vec<&str> = Vec::new();
        let mut i: usize = 0;
        while i < self.devices.len()
            invariant
                i <= self.devices.len(),
                names@.len() == i,
                forall|k: int| 0 <= k < i ==> names@[k]@ == device_display_name(self@.devices[k]),
            decreases self.devices.len() - i,
        {
            let d = &self.devices[i];
            names.push(d.get_name());
            i += 1;
        }
        proof {
            assert(names.deep_view() =~~= device_display_names(self@.devices));
        }
        names
    }
}

/// Mathematical model of a house: its name and its ordered rooms.
#[verifier::ext_equal]
pub ghost struct HouseView {
    pub name: Seq<char>,
    pub rooms: Seq<RoomView>,
}

/// A named house holding an ordered list of rooms (duplicate names allowed).
#[derive(Debug)]
pub struct House {
    name: String,
    rooms: Vec<Room>,
}

impl View for House {
    type V = HouseView;

    closed spec fn view(&self) -> HouseView {
        HouseView {
            name: self.name@,
            rooms: Seq::new(self.rooms@.len(), |i: int| self.rooms@[i]@),
        }
    }
}

/// The names of a sequence of rooms, in order.
pub open spec fn room_display_names(rooms: Seq<RoomView>) -> Seq<Seq<char>> {
    Seq::new(rooms.len(), |i: int| rooms[i].name)
}

/// Index of the first room whose name is exactly `name`, or
/// `rooms.len()` when no room matches.
pub open spec fn find_room(rooms: Seq<RoomView>, name: Seq<char>) -> int
    decreases rooms.len(),
{
    if rooms.len() == 0 {
        0
    } else if rooms[0].name == name {
        0
    } else {
        1 + find_room(rooms.drop_first(), name)
    }
}

/// `find_room` yields the first match: no earlier room has the name,
/// and the room at the result (when in range) does.
pub proof fn lemma_find_room(rooms: Seq<RoomView>, name: Seq<char>)
    ensures
        0 <= find_room(rooms, name) <= rooms.len(),
        forall|k: int| 0 <= k < find_room(rooms, name) ==> rooms[k].name != name,
        find_room(rooms, name) < rooms.len() ==> rooms[find_room(rooms, name)].name == name,
    decreases rooms.len(),
{
    if rooms.len() > 0 && rooms[0].name != name {
        let rest = rooms.drop_first();
        lemma_find_room(rest, name);
        assert forall|k: int| 0 <= k < find_room(rooms, name) implies rooms[k].name != name by {
            if k > 0 {
                assert(rooms[k] == rest[k - 1]);
            }
        }
        if find_room(rooms, name) < rooms.len() {
            assert(rooms[find_room(rooms, name)] == rest[find_room(rest, name)]);
        }
    }
}

impl House {
    /// A house with the given name and rooms, kept exactly as given.
    pub fn new(name: String, rooms: Vec<Room>) -> (r: Self)
        ensures
            r@.name == name@,
            r@.rooms.len() == rooms@.len(),
            forall|i: int| 0 <= i < rooms@.len() ==> r@.rooms[i] == rooms@[i]@,
    {
        Self { name, rooms }
    }

    /// The names of all rooms in storage order, duplicates preserved.
    pub fn get_rooms(&self) -> (r: Vec<&str>)
        ensures
            r.deep_view() == room_display_names(self@.rooms),
    {
        let mut names: Vec<&str> = Vec::new();
        let mut i: usize = 0;
        while i < self.rooms.len()
            invariant
                i <= self.rooms.len(),
                names@.len() == i,
                forall|k: int| 0 <= k < i ==> names@[k]@ == self@.rooms[k].name,
            decreases self.rooms.len() - i,
        {
            let room = &self.rooms[i];
            names.push(room.name());
            i += 1;
        }
        proof {
            assert(names.deep_view() =~~= room_display_names(self@.rooms));
        }
        names
    }

    /// The device display names of the first room named `room_name`;
    /// `RoomNotFound` when no room has that exact name.
    pub fn devices<'a>(&'a self, room_name: &str) -> (r: Result<Vec<&'a str>, Error>)
        ensures
            match r {
                Ok(names) => {
                    &&& find_room(self@.rooms, room_name@) < self@.rooms.len()
                    &&& names.deep_view() == device_display_names(
                        self@.rooms[find_room(self@.rooms, room_name@)].devices,
                    )
                },
                Err(e) => {
                    &&& find_room(self@.rooms, room_name@) == self@.rooms.len()
                    &&& e matches Error::RoomNotFound(n) && n@ == room_name@
                },
            },
    {
        let mut i: usize = 0;
        while i < self.rooms.len()
            invariant
                i <= self.rooms.len(),
                forall|k: int| 0 <= k < i ==> self@.rooms[k].name != room_name@,
            decreases self.rooms.len() - i,
        {
            let room = &self.rooms[i];
            if str_eq(room.name(), room_name) {
                proof {
                    assert(self@.rooms[i as int].name == room_name@);
                    lemma_find_room(self@.rooms, room_name@);
                }
                return Ok(room.get_devices());
            }
            i += 1;
        }
        proof {
            lemma_find_room(self@.rooms, room_name@);
        }
        Err(Error::RoomNotFound(room_name.to_owned()))
    }
}

/// The sample house: five rooms, two of which share the name
/// "Спальня"; duplicate names are kept, room equality is positional.
pub open spec fn default_house() -> HouseView {
    HouseView {
        name: "Дом"@,
        rooms: seq![
            (RoomView {
                name: "Спальня"@,
                devices: seq![Device::AC, Device::Lamp, Device::Ebook],
            }),
            (RoomView {
                name: "Ельня"@,
                devices: seq![Device::Stove, Device::Fridge, Device::Dishwasher],
            }),
            (RoomView {
                name: "Пильня"@,
                devices: seq![Device::Stove, Device::Fridge, Device::Dishwasher],
            }),
            (RoomView {
                name: "Спальня"@,
                devices: seq![Device::AC, Device::Lamp, Device::Ebook],
            }),
            (RoomView {
                name: "Телевизор смотрельня"@,
                devices: seq![Device::TV, Device::Game, Device::Router],
            }),
        ],
    }
}

impl Default for House {
    /// The sample house fixture, exactly as `default_house` lays it out.
    fn default() -> (r: Self)
        ensures
            r@ == default_house(),
    {
        let mut bedroom1: Vec<Device> = Vec::new();
        bedroom1.push(Device::AC);
        bedroom1.push(Device::Lamp);
        bedroom1.push(Device::Ebook);
        let mut kitchen1: Vec<Device> = Vec::new();
        kitchen1.push(Device::Stove);
        kitchen1.push(Device::Fridge);
        kitchen1.push(Device::Dishwasher);
        let mut kitchen2: Vec<Device> = Vec::new();
        kitchen2.push(Device::Stove);
        kitchen2.push(Device::Fridge);
        kitchen2.push(Device::Dishwasher);
        let mut bedroom2: Vec<Device> = Vec::new();
        bedroom2.push(Device::AC);
        bedroom2.push(Device::Lamp);
        bedroom2.push(Device::Ebook);
        let mut tv_room: Vec<Device> = Vec::new();
        tv_room.push(Device::TV);
        tv_room.push(Device::Game);
        tv_room.push(Device::Router);
        let mut rooms: Vec<Room> = Vec::new();
        rooms.push(Room::new("Спальня".to_owned(), bedroom1));
        rooms.push(Room::new("Ельня".to_owned(), kitchen1));
        rooms.push(Room::new("Пильня".to_owned(), kitchen2));
        rooms.push(Room::new("Спальня".to_owned(), bedroom2));
        rooms.push(Room::new("Телевизор смотрельня".to_owned(), tv_room));
        let r = House::new("Дом".to_owned(), rooms);
        proof {
            assert(r@.rooms =~~= default_house().rooms);
            assert(r@ =~~= default_house());
        }
        r
    }
}

/// The text between the parentheses of a device line: the status, or
/// nothing when the provider reports none.
pub open spec fn status_text(status: Option<Seq<char>>) -> Seq<char> {
    match status {
        Some(s) => s,
        None => Seq::<char>::empty(),
    }
}

/// One device line of the report.
pub open spec fn device_line<P: DeviceInfoProvider>(p: P, room: RoomView, d: Device) -> Seq<char> {
    "    Device: "@ + device_display_name(d) + " ("@ + status_text(p.spec_status(room.name, d))
        + ")\n"@
}

/// The first `n` device lines of a room's section.
pub open spec fn device_lines<P: DeviceInfoProvider>(p: P, room: RoomView, n: int) -> Seq<char>
    decreases n,
{
    if n <= 0 {
        Seq::<char>::empty()
    } else {
        device_lines(p, room, n - 1) + device_line(p, room, room.devices[n - 1])
    }
}

/// One room's section: a blank line, the room header, then one line
/// per device.
pub open spec fn room_section<P: DeviceInfoProvider>(p: P, room: RoomView) -> Seq<char> {
    "\n  Room: "@ + room.name + "\n"@ + device_lines(p, room, room.devices.len() as int)
}

/// The sections of the first `n` rooms, in order.
pub open spec fn room_sections<P: DeviceInfoProvider>(p: P, rooms: Seq<RoomView>, n: int) -> Seq<
    char,
>
    decreases n,
{
    if n <= 0 {
        Seq::<char>::empty()
    } else {
        room_sections(p, rooms, n - 1) + room_section(p, rooms[n - 1])
    }
}

/// The whole report: the house header followed by every room's
/// section in storage order.
pub open spec fn report<P: DeviceInfoProvider>(p: P, house: HouseView) -> Seq<char> {
    "House: "@ + house.name + "\n"@ + room_sections(p, house.rooms, house.rooms.len() as int)
}

impl House {
    /// The human-readable status report over every room and device,
    /// asking `device_info` for each device's status.
    pub fn create_report<P: DeviceInfoProvider>(&self, device_info: &P) -> (r: String)
        ensures
            r@ == report(*device_info, self@),
    {
        let ghost header: Seq<char> = "House: "@ + self@.name + "\n"@;
        let mut result = "House: ".to_owned();
        result.append(self.name.as_str());
        result.append("\n");
        let mut i: usize = 0;
        while i < self.rooms.len()
            invariant
                i <= self.rooms.len(),
                header == "House: "@ + self@.name + "\n"@,
                result@ == header + room_sections(*device_info, self@.rooms, i as int),
            decreases self.rooms.len() - i,
        {
            let room = &self.rooms[i];
            let ghost section_start: Seq<char> = result@;
            result.append("\n  Room: ");
            result.append(room.name.as_str());
            result.append("\n");
            let ghost lines_start: Seq<char> = result@;
            let mut j: usize = 0;
            while j < room.devices.len()
                invariant
                    j <= room.devices.len(),
                    room@ == self@.rooms[i as int],
                    lines_start == section_start + "\n  Room: "@ + room@.name + "\n"@,
                    result@ == lines_start + device_lines(*device_info, room@, j as int),
                decreases room.devices.len() - j,
            {
                let device = &room.devices[j];
                result.append("    Device: ");
                result.append(device.get_name());
                result.append(" (");
                match device_info.get_status(room, device) {
                    Some(status) => result.append(status.as_str()),
                    None => {},
                }
                result.append(")\n");
                proof {
                    assert(result@ =~= lines_start + device_lines(
                        *device_info,
                        room@,
                        j as int + 1,
                    ));
                }
                j += 1;
            }
            proof {
                assert(result@ =~= header + room_sections(
                    *device_info,
                    self@.rooms,
                    i as int + 1,
                ));
            }
            i += 1;
        }
        result
    }
}

} // verus!
