//! The registry: every known device, and the table of default devices.

use vstd::prelude::*;
use crate::device::{DeviceInfo, DeviceView};
use crate::kinds::{EDataFlow, ERole};
use crate::table::Table;

verus! {

/// The registry of devices and default-device assignments.
#[derive(Debug)]
pub struct DeviceMap<M, S> {
    pub(crate) map: Table<DeviceInfo<M, S>>,
    pub(crate) defaults: Vec<Option<String>>,
}

/// The mathematical content of the registry.
///
/// A default may name a device that the registry does not hold: the
/// notification of a new default can arrive before that of the device.
pub struct RegistryView<M, S> {
    pub devices: Map<Seq<char>, DeviceView<M, S>>,
    pub defaults: Map<(ERole, EDataFlow), Seq<char>>,
}

/// The views of the devices of a table.
pub open spec fn device_views<M, S>(table: Map<Seq<char>, DeviceInfo<M, S>>) -> Map<
    Seq<char>,
    DeviceView<M, S>,
> {
    table.map_values(|d: DeviceInfo<M, S>| d@)
}

/// Position of a cell in the table of default devices, row by row.
pub open spec fn cell_index(role: ERole, flow: EDataFlow) -> int {
    role.wire() * 2 + flow.wire()
}

/// The assignments that the cells of the table of default devices hold.
pub open spec fn cells_to_defaults(cells: Seq<Option<String>>) -> Map<(ERole, EDataFlow), Seq<char>> {
    Map::new(
        |k: (ERole, EDataFlow)| k.1 != EDataFlow::All && cells[cell_index(k.0, k.1)] is Some,
        |k: (ERole, EDataFlow)| cells[cell_index(k.0, k.1)]->0@,
    )
}

/// The assignments after `id` became the default of `role` for `flow`, the
/// wildcard flow standing for both real flows.
pub open spec fn assigned(
    defaults: Map<(ERole, EDataFlow), Seq<char>>,
    flow: EDataFlow,
    role: ERole,
    id: Seq<char>,
) -> Map<(ERole, EDataFlow), Seq<char>> {
    match flow {
        EDataFlow::All => defaults.insert((role, EDataFlow::Render), id).insert(
            (role, EDataFlow::Capture),
            id,
        ),
        _ => defaults.insert((role, flow), id),
    }
}

/// Whether assigning a default of `role` for `flow` writes the cell `i`.
pub open spec fn cell_written(i: int, flow: EDataFlow, role: ERole) -> bool {
    match flow {
        EDataFlow::All => i == role.wire() * 2 || i == role.wire() * 2 + 1,
        _ => i == cell_index(role, flow),
    }
}

impl<M, S> RegistryView<M, S> {
    /// Every device is well formed and stored under its own id, and no
    /// default is assigned to the wildcard flow.
    pub open spec fn wf(self) -> bool {
        &&& self.devices.dom().finite()
        &&& forall|k: Seq<char>| #[trigger]
            self.devices.contains_key(k) ==> self.devices[k].id == k && self.devices[k].wf()
        &&& forall|role: ERole| !self.defaults.contains_key((role, EDataFlow::All))
    }

    /// A registry without devices and without defaults.
    pub open spec fn empty() -> Self {
        RegistryView { devices: Map::empty(), defaults: Map::empty() }
    }

    /// This registry with `device` stored under its id.
    pub open spec fn with_device(self, device: DeviceView<M, S>) -> Self {
        RegistryView { devices: self.devices.insert(device.id, device), ..self }
    }

    /// This registry without the device `id`.
    pub open spec fn without_device(self, id: Seq<char>) -> Self {
        RegistryView { devices: self.devices.remove(id), ..self }
    }

    /// This registry with `id` as the default of `role` for `flow`, the
    /// wildcard flow standing for both real flows.
    pub open spec fn with_default(self, flow: EDataFlow, role: ERole, id: Seq<char>) -> Self {
        RegistryView { defaults: assigned(self.defaults, flow, role, id), ..self }
    }

    /// Id of the default device of `role` for `flow`, if one is assigned.
    pub open spec fn default_id(self, flow: EDataFlow, role: ERole) -> Option<Seq<char>> {
        if self.defaults.contains_key((role, flow)) {
            Some(self.defaults[(role, flow)])
        } else {
            None
        }
    }

    /// The default device of `role` for `flow`: none if none is assigned, or
    /// if the assigned id is not (or not yet) a device of the registry.
    pub open spec fn default_device(self, flow: EDataFlow, role: ERole) -> Option<DeviceView<M, S>> {
        match self.default_id(flow, role) {
            Some(id) => if self.devices.contains_key(id) {
                Some(self.devices[id])
            } else {
                None
            },
            None => None,
        }
    }
}

impl<M, S> View for DeviceMap<M, S> {
    type V = RegistryView<M, S>;

    closed spec fn view(&self) -> RegistryView<M, S> {
        RegistryView {
            devices: device_views(self.map@),
            defaults: cells_to_defaults(self.defaults@),
        }
    }
}

impl<M, S> DeviceMap<M, S> {
    /// The registry's view is well formed, and the table of default devices
    /// has its six cells.
    #[verifier::type_invariant]
    pub closed spec fn wf(&self) -> bool {
        &&& self@.wf()
        &&& self.defaults@.len() == 6
    }

    /// Every registry is well formed.
    pub proof fn lemma_wf(&self)
        requires
            self.wf(),
        ensures
            self@.wf(),
    {
    }

    /// A table without devices, with the fact that its view holds none.
    fn no_devices() -> (devices: Table<DeviceInfo<M, S>>)
        ensures
            devices@ == Map::<Seq<char>, DeviceInfo<M, S>>::empty(),
            device_views(devices@) == Map::<Seq<char>, DeviceView<M, S>>::empty(),
    {
        let devices = Table::new();
        proof {
            assert(device_views(devices@) =~= Map::<Seq<char>, DeviceView<M, S>>::empty());
        }
        devices
    }

    /// A registry without devices and without defaults.
    pub fn new() -> (registry: Self)
        ensures
            registry@ == RegistryView::<M, S>::empty(),
    {
        DeviceMap { map: Self::no_devices(), defaults: empty_cells() }
    }

    /// The devices of the registry, by id.
    pub fn devices(&self) -> (devices: &Table<DeviceInfo<M, S>>)
        ensures
            device_views(devices@) == self@.devices,
            self@.wf(),
    {
        proof {
            use_type_invariant(self);
        }
        &self.map
    }

    /// The device stored under `id`, if any.
    pub fn get(&self, id: &String) -> (device: Option<&DeviceInfo<M, S>>)
        ensures
            match device {
                Some(d) => self@.devices.contains_key(id@) && self@.devices[id@] == d@,
                None => !self@.devices.contains_key(id@),
            },
    {
        self.map.get(id)
    }

    /// Stores a device under its id, handing back the entry it replaces.
    pub fn upsert_device(&mut self, device: DeviceInfo<M, S>) -> (replaced: Option<DeviceInfo<M, S>>)
        ensures
            final(self)@ == old(self)@.with_device(device@),
            match replaced {
                Some(d) => old(self)@.devices.contains_key(device@.id) && old(
                    self,
                )@.devices[device@.id] == d@,
                None => !old(self)@.devices.contains_key(device@.id),
            },
    {
        proof {
            use_type_invariant(&*self);
            use_type_invariant(&device);
        }
        let key = device.id().clone();
        let mut devices = Self::no_devices();
        core::mem::swap(&mut self.map, &mut devices);
        let ghost before = devices@;
        let replaced = devices.insert(key, device);
        proof {
            assert(device_views(devices@) =~= device_views(before).insert(device@.id, device@));
            assert(device_views(devices@).dom() =~= devices@.dom());
        }
        self.map = devices;
        replaced
    }

    /// Takes the device `id` out of the registry, handing back its entry.
    ///
    /// The caller owns what the entry holds; dropping it releases the
    /// device's handle and the subscriptions of its sessions.
    pub fn remove_device(&mut self, id: &String) -> (removed: Option<DeviceInfo<M, S>>)
        ensures
            final(self)@ == old(self)@.without_device(id@),
            match removed {
                Some(d) => old(self)@.devices.contains_key(id@) && old(self)@.devices[id@] == d@,
                None => !old(self)@.devices.contains_key(id@),
            },
    {
        proof {
            use_type_invariant(&*self);
        }
        let mut devices = Self::no_devices();
        core::mem::swap(&mut self.map, &mut devices);
        let ghost before = devices@;
        let removed = devices.remove(id);
        proof {
            assert(device_views(devices@) =~= device_views(before).remove(id@));
            assert(device_views(devices@).dom() =~= devices@.dom());
        }
        self.map = devices;
        removed
    }

    /// Assigns `id` as the default device of `role` for `flow`; the wildcard
    /// flow assigns it for both real flows. The device need not be known.
    pub fn set_default(&mut self, flow: EDataFlow, role: ERole, id: String)
        ensures
            final(self)@ == old(self)@.with_default(flow, role, id@),
    {
        proof {
            use_type_invariant(&*self);
        }
        let row = role.index();
        let ghost before = self.defaults@;
        let mut cells = empty_cells();
        core::mem::swap(&mut self.defaults, &mut cells);
        match flow {
            EDataFlow::All => {
                cells.set(row * 2, Some(id.clone()));
                cells.set(row * 2 + 1, Some(id));
            },
            _ => {
                cells.set(row * 2 + flow.index(), Some(id));
            },
        }
        proof {
            lemma_cells_updated(before, cells@, flow, role, id@);
        }
        self.defaults = cells;
    }

    /// Id of the default device of `role` for `flow`, if one is assigned,
    /// whether or not the registry holds that device.
    pub fn default_device_id(&self, flow: EDataFlow, role: ERole) -> (id: Option<&String>)
        requires
            flow != EDataFlow::All,
        ensures
            (match id {
                Some(text) => Some(text@),
                None => None,
            }) == self@.default_id(flow, role),
    {
        proof {
            use_type_invariant(self);
        }
        self.defaults[role.index() * 2 + flow.index()].as_ref()
    }

    /// The default device of `role` for `flow`: none if none is assigned, or
    /// if the assigned id is not (or not yet) a device of the registry.
    pub fn get_default_device(&self, flow: EDataFlow, role: ERole) -> (device: Option<
        &DeviceInfo<M, S>,
    >)
        requires
            flow != EDataFlow::All,
        ensures
            (match device {
                Some(d) => Some(d@),
                None => None,
            }) == self@.default_device(flow, role),
    {
        match self.default_device_id(flow, role) {
            Some(id) => self.map.get(id),
            None => None,
        }
    }
}

/// A table of default devices in which nothing is assigned.
fn empty_cells() -> (cells: Vec<Option<String>>)
    ensures
        cells@.len() == 6,
        cells_to_defaults(cells@) == Map::<(ERole, EDataFlow), Seq<char>>::empty(),
{
    let mut cells: Vec<Option<String>> = Vec::new();
    cells.push(None);
    cells.push(None);
    cells.push(None);
    cells.push(None);
    cells.push(None);
    cells.push(None);
    proof {
        assert(cells_to_defaults(cells@) =~= Map::<(ERole, EDataFlow), Seq<char>>::empty());
    }
    cells
}

/// What writing `id` into the cells of an assignment does to the defaults.
proof fn lemma_cells_updated(
    before: Seq<Option<String>>,
    after: Seq<Option<String>>,
    flow: EDataFlow,
    role: ERole,
    id: Seq<char>,
)
    requires
        before.len() == 6,
        after.len() == 6,
        forall|i: int|
            0 <= i < 6 ==> if cell_written(i, flow, role) {
                (#[trigger] after[i]) is Some && after[i]->0@ == id
            } else {
                after[i] == before[i]
            },
    ensures
        cells_to_defaults(after) == assigned(cells_to_defaults(before), flow, role, id),
{
    let expected = assigned(cells_to_defaults(before), flow, role, id);
    assert forall|k: (ERole, EDataFlow)|
        cells_to_defaults(after).contains_key(k) == expected.contains_key(k) && (
        cells_to_defaults(after).contains_key(k) ==> cells_to_defaults(after)[k] == expected[k]) by {
        let i = cell_index(k.0, k.1);
        if k.1 != EDataFlow::All {
            assert(0 <= i < 6);
            assert(cell_written(i, flow, role) || after[i] == before[i]);
        }
    }
    assert(cells_to_defaults(after) =~= expected);
}

} // verus!
