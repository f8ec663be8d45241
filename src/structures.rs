use crate::errors::SmartHomeErrors;
use crate::keyed::KeyedList;
use vstd::prelude::*;

verus! {

/// A room: a name and the devices in it, each under its own key.
#[derive(Debug)]
pub struct Room<D> {
    name: String,
    devices: KeyedList<D>,
}

impl<D> Room<D> {
    pub closed spec fn wf(&self) -> bool {
        self.devices.wf()
    }

    pub closed spec fn name_view(&self) -> Seq<char> {
        self.name@
    }

    /// The devices by key.
    pub closed spec fn device_map(&self) -> Map<Seq<char>, D> {
        self.devices@
    }

    /// An empty room.
    pub fn new(name: String) -> (r: Self)
        ensures
            r.wf(),
            r.name_view() == name@,
            r.device_map() == Map::<Seq<char>, D>::empty(),
    {
        Room { name, devices: KeyedList::new() }
    }

    /// Puts a device under `device_key`, replacing any that stood there.
    pub fn add_device_with_key(&mut self, device_key: String, new_device: D)
        requires
            old(self).wf(),
        ensures
            final(self).wf(),
            final(self).name_view() == old(self).name_view(),
            final(self).device_map() == old(self).device_map().insert(device_key@, new_device),
    {
        self.devices.insert(device_key, new_device);
    }

    /// Takes the device under `device_name` out; `DeviceNotFound` with that
    /// name where there is none.
    pub fn delete_device(&mut self, device_name: &str) -> (r: Result<(), SmartHomeErrors>)
        requires
            old(self).wf(),
        ensures
            final(self).wf(),
            final(self).name_view() == old(self).name_view(),
            old(self).device_map().contains_key(device_name@) ==> r is Ok
                && final(self).device_map() == old(self).device_map().remove(device_name@),
            !old(self).device_map().contains_key(device_name@) ==> (r matches Err(
                SmartHomeErrors::DeviceNotFound(n),
            ) && n@ == device_name@) && final(self).device_map() == old(self).device_map(),
    {
        if !self.devices.contains_key(device_name) {
            return Err(SmartHomeErrors::DeviceNotFound(device_name.to_string()));
        }
        self.devices.remove(device_name);
        Ok(())
    }

    pub fn get_device(&self, device_name: &str) -> (r: Option<&D>)
        requires
            self.wf(),
        ensures
            match r {
                Some(d) => self.device_map().contains_key(device_name@) && *d
                    == self.device_map()[device_name@],
                None => !self.device_map().contains_key(device_name@),
            },
    {
        self.devices.get(device_name)
    }

    pub fn get_mutable_device(&mut self, device_name: &str) -> (r: Option<&mut D>)
        requires
            old(self).wf(),
        ensures
            r is Some <==> old(self).device_map().contains_key(device_name@),
            match r {
                Some(d) => *d == old(self).device_map()[device_name@] && final(self).wf()
                    && final(self).name_view() == old(self).name_view()
                    && final(self).device_map() == old(self).device_map().insert(
                    device_name@,
                    *final(d),
                ),
                None => *final(self) == *old(self),
            },
    {
        self.devices.get_mut(device_name)
    }

    pub fn get_name(&self) -> (r: &str)
        ensures
            r@ == self.name_view(),
    {
        self.name.as_str()
    }

    /// The devices, for walking through them.
    pub fn devices(&self) -> (r: &KeyedList<D>)
        ensures
            r.wf() == self.wf(),
            r@ == self.device_map(),
    {
        &self.devices
    }
}

/// Rooms keyed by their names, each room put in after those before it.
pub open spec fn rooms_by_name<D>(rooms: Seq<Room<D>>) -> Map<Seq<char>, Room<D>>
    decreases rooms.len(),
{
    if rooms.len() == 0 {
        Map::empty()
    } else {
        rooms_by_name(rooms.drop_last()).insert(rooms.last().name_view(), rooms.last())
    }
}

/// A home: a name and its rooms, each under its own key.
#[derive(Debug)]
pub struct SmartHome<D> {
    name: String,
    rooms: KeyedList<Room<D>>,
}

impl<D> SmartHome<D> {
    pub closed spec fn wf(&self) -> bool {
        &&& self.rooms.wf()
        &&& forall|k: Seq<char>| #[trigger] self.rooms@.contains_key(k) ==> self.rooms@[k].wf()
    }

    pub closed spec fn name_view(&self) -> Seq<char> {
        self.name@
    }

    /// The rooms by key.
    pub closed spec fn room_map(&self) -> Map<Seq<char>, Room<D>> {
        self.rooms@
    }

    /// A home holding `rooms`, each under its own name; of two rooms with
    /// one name the later stays.
    pub fn new(home_name: String, rooms: Vec<Room<D>>) -> (r: Self)
        requires
            forall|i: int| 0 <= i < rooms@.len() ==> (#[trigger] rooms@[i]).wf(),
        ensures
            r.wf(),
            r.name_view() == home_name@,
            r.room_map() == rooms_by_name(rooms@),
    {
        let ghost all = rooms@;
        let mut rest = rooms;
        let mut added: KeyedList<Room<D>> = KeyedList::new();
        let n = rest.len();
        let mut k: usize = 0;
        proof {
            assert(all.take(0) =~= Seq::<Room<D>>::empty());
            assert(all.skip(0) =~= all);
        }
        while rest.len() > 0
            invariant
                n == all.len(),
                k <= all.len(),
                rest@ == all.skip(k as int),
                added.wf(),
                added@ == rooms_by_name(all.take(k as int)),
                forall|i: int| 0 <= i < all.len() ==> (#[trigger] all[i]).wf(),
                forall|q: Seq<char>| #[trigger] added@.contains_key(q) ==> added@[q].wf(),
            decreases rest@.len(),
        {
            let room = rest.remove(0);
            proof {
                assert(room == all[k as int]);
                assert(all.take(k + 1).drop_last() =~= all.take(k as int));
                assert(all.skip(k + 1) =~= all.skip(k as int).skip(1));
            }
            let key = room.name.clone();
            added.insert(key, room);
            k = k + 1;
        }
        proof {
            assert(all.take(k as int) =~= all);
        }
        SmartHome { name: home_name, rooms: added }
    }

    /// Puts a room under `room_key`, replacing any that stood there.
    pub fn add_room_with_key(&mut self, room_key: String, new_room: Room<D>)
        requires
            old(self).wf(),
            new_room.wf(),
        ensures
            final(self).wf(),
            final(self).name_view() == old(self).name_view(),
            final(self).room_map() == old(self).room_map().insert(room_key@, new_room),
    {
        self.rooms.insert(room_key, new_room);
    }

    /// The device under `device_name` in the room under `room_name`:
    /// `RoomNotFound` where there is no such room, else `DeviceNotFound`
    /// where the room has no such device.
    pub fn get_device_from_room(&self, room_name: &str, device_name: &str) -> (r: Result<
        &D,
        SmartHomeErrors,
    >)
        requires
            self.wf(),
        ensures
            !self.room_map().contains_key(room_name@) ==> (r matches Err(
                SmartHomeErrors::RoomNotFound(n),
            ) && n@ == room_name@),
            self.room_map().contains_key(room_name@) ==> {
                let devices = self.room_map()[room_name@].device_map();
                &&& !devices.contains_key(device_name@) ==> (r matches Err(
                    SmartHomeErrors::DeviceNotFound(n),
                ) && n@ == device_name@)
                &&& devices.contains_key(device_name@) ==> (r matches Ok(d) && *d
                    == devices[device_name@])
            },
    {
        match self.get_room(room_name) {
            Some(room) => match room.get_device(device_name) {
                Some(device) => Ok(device),
                None => Err(SmartHomeErrors::DeviceNotFound(device_name.to_string())),
            },
            None => Err(SmartHomeErrors::RoomNotFound(room_name.to_string())),
        }
    }

    /// Takes the room under `room_name` out; `RoomNotFound` with that name
    /// where there is none.
    pub fn delete_room(&mut self, room_name: &str) -> (r: Result<(), SmartHomeErrors>)
        requires
            old(self).wf(),
        ensures
            final(self).wf(),
            final(self).name_view() == old(self).name_view(),
            old(self).room_map().contains_key(room_name@) ==> r is Ok && final(self).room_map()
                == old(self).room_map().remove(room_name@),
            !old(self).room_map().contains_key(room_name@) ==> (r matches Err(
                SmartHomeErrors::RoomNotFound(n),
            ) && n@ == room_name@) && final(self).room_map() == old(self).room_map(),
    {
        if !self.rooms.contains_key(room_name) {
            return Err(SmartHomeErrors::RoomNotFound(room_name.to_string()));
        }
        self.rooms.remove(room_name);
        Ok(())
    }

    pub fn get_room(&self, room_name: &str) -> (r: Option<&Room<D>>)
        requires
            self.wf(),
        ensures
            match r {
                Some(room) => self.room_map().contains_key(room_name@) && *room
                    == self.room_map()[room_name@] && room.wf(),
                None => !self.room_map().contains_key(room_name@),
            },
    {
        self.rooms.get(room_name)
    }

    /// The room under `room_name`, to change in place. The home stays well
    /// formed as long as the room does.
    pub fn get_mutable_room(&mut self, room_name: &str) -> (r: Option<&mut Room<D>>)
        requires
            old(self).wf(),
        ensures
            r is Some <==> old(self).room_map().contains_key(room_name@),
            match r {
                Some(room) => *room == old(self).room_map()[room_name@] && room.wf()
                    && final(self).name_view() == old(self).name_view()
                    && final(self).room_map() == old(self).room_map().insert(
                    room_name@,
                    *final(room),
                ) && (final(room).wf() ==> final(self).wf()),
                None => *final(self) == *old(self),
            },
    {
        self.rooms.get_mut(room_name)
    }

    pub fn get_name(&self) -> (r: &str)
        ensures
            r@ == self.name_view(),
    {
        self.name.as_str()
    }

    /// The rooms, for walking through them.
    pub fn rooms(&self) -> (r: &KeyedList<Room<D>>)
        ensures
            r@ == self.room_map(),
            self.wf() ==> r.wf(),
    {
        &self.rooms
    }
}

} // verus!
