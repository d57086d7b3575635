//! Read-only questions that a presentation layer asks of the registry.

use vstd::prelude::*;
use crate::focus::{
    among_first, lemma_among_all, lemma_among_distinct, lemma_among_next, lemma_push_pair,
    pair_views,
};
use crate::kinds::{EDataFlow, ERole};
use crate::registry::{cell_index, device_views, DeviceMap, RegistryView};

verus! {

impl<M, S> RegistryView<M, S> {
    /// Whether `pair` is the id and the name of an active device.
    pub open spec fn names_active(self, pair: (Seq<char>, Seq<char>)) -> bool {
        &&& self.devices.contains_key(pair.0)
        &&& self.devices[pair.0].state is Active
        &&& self.devices[pair.0].name == pair.1
    }

    /// The active devices, as pairs of id and name.
    pub open spec fn active_devices(self) -> Set<(Seq<char>, Seq<char>)> {
        Set::new(|pair: (Seq<char>, Seq<char>)| self.names_active(pair))
    }

    /// Name of the default device of `role` for `flow`, if one is assigned
    /// and known.
    pub open spec fn default_name(self, flow: EDataFlow, role: ERole) -> Option<Seq<char>> {
        match self.default_device(flow, role) {
            Some(device) => Some(device.name),
            None => None,
        }
    }
}

/// The texts that a list of optional strings holds.
pub open spec fn name_views(names: Seq<Option<String>>) -> Seq<Option<Seq<char>>> {
    names.map_values(
        |name: Option<String>|
            match name {
                Some(text) => Some(text@),
                None => None,
            },
    )
}

/// The active devices, as pairs of id and name.
pub fn active_devices<M, S>(device_map: &DeviceMap<M, S>) -> (listed: Vec<(String, String)>)
    ensures
        pair_views(listed@).no_duplicates(),
        pair_views(listed@).to_set() == device_map@.active_devices(),
{
    let ghost view = device_map@;
    let devices = device_map.devices();
    let n = devices.len();
    let mut listed: Vec<(String, String)> = Vec::new();
    let mut i: usize = 0;
    while i < n
        invariant
            i <= n,
            n == devices.keys().len(),
            devices.wf(),
            device_views(devices@) == view.devices,
            pair_views(listed@).no_duplicates(),
            forall|p: (Seq<char>, Seq<char>)| #[trigger]
                pair_views(listed@).contains(p) <==> among_first(devices.keys(), p.0, i as int)
                    && view.names_active(p),
        decreases n - i,
    {
        let id = devices.key_at(i);
        let device = devices.value_at(i);
        let ghost before = listed@;
        let ghost star = (id@, device@.name);
        proof {
            devices.lemma_positions();
            lemma_among_distinct(devices.keys(), i as int);
            assert(view.devices[id@] == device@);
            assert(!pair_views(before).contains(star));
        }
        let active = device.is_active();
        if active {
            let pair = (id.clone(), device.name().clone());
            listed.push(pair);
            proof {
                lemma_push_pair(before, pair);
            }
        }
        proof {
            assert forall|p: (Seq<char>, Seq<char>)| #[trigger]
                pair_views(listed@).contains(p) <==> among_first(devices.keys(), p.0, i + 1)
                    && view.names_active(p) by {
                lemma_among_next(devices.keys(), p.0, i as int);
                assert(pair_views(before).contains(p) <==> among_first(
                    devices.keys(),
                    p.0,
                    i as int,
                ) && view.names_active(p));
                assert(pair_views(listed@).contains(p) <==> pair_views(before).contains(p) || (
                active && p == star));
                assert(p == star <==> p.0 == id@ && p.1 == device@.name);
            }
        }
        i += 1;
    }
    proof {
        devices.lemma_positions();
        assert forall|p: (Seq<char>, Seq<char>)|
            pair_views(listed@).contains(p) <==> view.names_active(p) by {
            lemma_among_all(devices.keys(), p.0);
            assert(pair_views(listed@).contains(p) <==> among_first(devices.keys(), p.0, n as int)
                && view.names_active(p));
        }
        assert(pair_views(listed@).to_set() =~= view.active_devices());
    }
    listed
}

/// Name of the default device of `role` for `flow`, if one is assigned and
/// known.
pub fn default_device_name<M, S>(device_map: &DeviceMap<M, S>, flow: EDataFlow, role: ERole) -> (name:
    Option<String>)
    requires
        flow != EDataFlow::All,
    ensures
        (match name {
            Some(text) => Some(text@),
            None => None,
        }) == device_map@.default_name(flow, role),
{
    match device_map.get_default_device(flow, role) {
        Some(device) => Some(device.name().clone()),
        None => None,
    }
}

/// The names of the default devices, one for each cell of the table of
/// default devices, row by row: for each role the render and then the
/// capture default.
pub fn default_device_names<M, S>(device_map: &DeviceMap<M, S>) -> (names: Vec<Option<String>>)
    ensures
        names@.len() == 6,
        forall|role: ERole, flow: EDataFlow|
            flow != EDataFlow::All ==> #[trigger] name_views(names@)[cell_index(role, flow)]
                == device_map@.default_name(flow, role),
{
    let mut names: Vec<Option<String>> = Vec::new();
    names.push(default_device_name(device_map, EDataFlow::Render, ERole::Console));
    names.push(default_device_name(device_map, EDataFlow::Capture, ERole::Console));
    names.push(default_device_name(device_map, EDataFlow::Render, ERole::Multimedia));
    names.push(default_device_name(device_map, EDataFlow::Capture, ERole::Multimedia));
    names.push(default_device_name(device_map, EDataFlow::Render, ERole::Communications));
    names.push(default_device_name(device_map, EDataFlow::Capture, ERole::Communications));
    names
}

} // verus!
