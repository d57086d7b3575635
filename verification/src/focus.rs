//! Correlating the process that owns the focused window with the sessions
//! it controls.

use std::collections::HashSet;
use vstd::prelude::*;
use vstd::std_specs::hash::*;
use crate::device::session_views;
use crate::process::{pid_and_child_pids, tree, ProcessTable};
use crate::registry::{device_views, DeviceMap, RegistryView};

verus! {

impl<M, S> RegistryView<M, S> {
    /// Whether `pair` names a device of the registry and a session on it
    /// that is owned by one of `pids`.
    pub open spec fn owns(self, pids: Set<u32>, pair: (Seq<char>, Seq<char>)) -> bool {
        &&& self.devices.contains_key(pair.0)
        &&& self.devices[pair.0].sessions.contains_key(pair.1)
        &&& pids.contains(self.devices[pair.0].sessions[pair.1].pid)
    }

    /// Every session, over all devices, that is owned by one of `pids`, as
    /// pairs of device id and session instance id.
    pub open spec fn owned_sessions(self, pids: Set<u32>) -> Set<(Seq<char>, Seq<char>)> {
        Set::new(|pair: (Seq<char>, Seq<char>)| self.owns(pids, pair))
    }
}

/// The pairs of texts that a list of pairs of strings holds.
pub open spec fn pair_views(pairs: Seq<(String, String)>) -> Seq<(Seq<char>, Seq<char>)> {
    pairs.map_values(|pair: (String, String)| (pair.0@, pair.1@))
}

/// `key` occurs among the first `upto` of `keys`.
pub open spec fn among_first(keys: Seq<Seq<char>>, key: Seq<char>, upto: int) -> bool {
    exists|a: int| 0 <= a < upto && a < keys.len() && #[trigger] keys[a] == key
}

pub(crate) proof fn lemma_among_next(keys: Seq<Seq<char>>, key: Seq<char>, upto: int)
    requires
        0 <= upto < keys.len(),
    ensures
        among_first(keys, key, upto + 1) <==> among_first(keys, key, upto) || keys[upto] == key,
{
    if among_first(keys, key, upto + 1) {
        let a = choose|a: int| 0 <= a < upto + 1 && a < keys.len() && #[trigger] keys[a] == key;
        if a < upto {
            assert(among_first(keys, key, upto));
        }
    }
    if among_first(keys, key, upto) {
        let a = choose|a: int| 0 <= a < upto && a < keys.len() && #[trigger] keys[a] == key;
        assert(0 <= a < upto + 1 && keys[a] == key);
    }
    if keys[upto] == key {
        assert(among_first(keys, key, upto + 1));
    }
}

pub(crate) proof fn lemma_among_distinct(keys: Seq<Seq<char>>, upto: int)
    requires
        keys.no_duplicates(),
        0 <= upto < keys.len(),
    ensures
        !among_first(keys, keys[upto], upto),
{
}

pub(crate) proof fn lemma_among_all(keys: Seq<Seq<char>>, key: Seq<char>)
    ensures
        among_first(keys, key, keys.len() as int) <==> keys.contains(key),
{
    if keys.contains(key) {
        let a = keys.index_of(key);
        assert(0 <= a < keys.len() && keys[a] == key);
    }
}

pub(crate) proof fn lemma_push_pair(pairs: Seq<(String, String)>, pair: (String, String))
    ensures
        pair_views(pairs.push(pair)) == pair_views(pairs).push((pair.0@, pair.1@)),
        forall|p: (Seq<char>, Seq<char>)|
            pair_views(pairs.push(pair)).contains(p) <==> pair_views(pairs).contains(p) || p == (
                pair.0@,
                pair.1@,
            ),
        pair_views(pairs).no_duplicates() && !pair_views(pairs).contains((pair.0@, pair.1@))
            ==> pair_views(pairs.push(pair)).no_duplicates(),
{
    let old_views = pair_views(pairs);
    let new_views = pair_views(pairs.push(pair));
    let added = (pair.0@, pair.1@);
    assert(new_views =~= old_views.push(added));
    assert forall|p: (Seq<char>, Seq<char>)| new_views.contains(p) <==> old_views.contains(p) || p
        == added by {
        if old_views.contains(p) {
            let a = old_views.index_of(p);
            assert(new_views[a] == p);
        }
        if p == added {
            assert(new_views[old_views.len() as int] == p);
        }
    }
}

/// Every session, over all devices, that is owned by one of `pids`.
pub fn sessions_owned_by<M, S>(device_map: &DeviceMap<M, S>, pids: &HashSet<u32>) -> (sessions: Vec<
    (String, String),
>)
    ensures
        pair_views(sessions@).no_duplicates(),
        pair_views(sessions@).to_set() == device_map@.owned_sessions(pids@),
{
    broadcast use group_hash_axioms;

    let ghost view = device_map@;
    let devices = device_map.devices();
    let n = devices.len();
    let mut found: Vec<(String, String)> = Vec::new();
    let mut i: usize = 0;
    proof {
        devices.lemma_positions();
    }
    while i < n
        invariant
            i <= n,
            n == devices.keys().len(),
            devices.wf(),
            device_views(devices@) == view.devices,
            pair_views(found@).no_duplicates(),
            forall|p: (Seq<char>, Seq<char>)| #[trigger]
                pair_views(found@).contains(p) <==> among_first(devices.keys(), p.0, i as int)
                    && view.owns(pids@, p),
        decreases n - i,
    {
        let device_id = devices.key_at(i);
        let device = devices.value_at(i);
        let sessions = device.sessions();
        let m = sessions.len();
        let ghost found_start = pair_views(found@);
        let mut j: usize = 0;
        proof {
            devices.lemma_positions();
            sessions.lemma_positions();
            lemma_among_distinct(devices.keys(), i as int);
            assert(view.devices[device_id@] == device@);
        }
        while j < m
            invariant
                j <= m,
                i < n,
                n == devices.keys().len(),
                m == sessions.keys().len(),
                sessions.wf(),
                device_id@ == devices.keys()[i as int],
                view.devices.contains_key(device_id@),
                view.devices[device_id@].sessions == session_views(sessions@),
                !among_first(devices.keys(), device_id@, i as int),
                pair_views(found@).no_duplicates(),
                forall|p: (Seq<char>, Seq<char>)| #[trigger]
                    pair_views(found@).contains(p) <==> (among_first(devices.keys(), p.0, i as int)
                        && view.owns(pids@, p)) || (p.0 == device_id@ && among_first(
                        sessions.keys(),
                        p.1,
                        j as int,
                    ) && view.owns(pids@, p)),
            decreases m - j,
        {
            let instance_id = sessions.key_at(j);
            let session = sessions.value_at(j);
            let ghost listed = found@;
            let ghost star = (device_id@, instance_id@);
            proof {
                sessions.lemma_positions();
                lemma_among_distinct(sessions.keys(), j as int);
                assert(session_views(sessions@).contains_key(instance_id@));
                assert(session_views(sessions@)[instance_id@] == session@);
                assert(!pair_views(listed).contains(star));
                assert(view.owns(pids@, star) <==> pids@.contains(session@.pid));
            }
            let owned = pids.contains(&session.pid());
            if owned {
                let pair = (device_id.clone(), instance_id.clone());
                found.push(pair);
                proof {
                    lemma_push_pair(listed, pair);
                }
            }
            proof {
                assert forall|p: (Seq<char>, Seq<char>)| #[trigger]
                    pair_views(found@).contains(p) <==> (among_first(devices.keys(), p.0, i as int)
                        && view.owns(pids@, p)) || (p.0 == device_id@ && among_first(
                        sessions.keys(),
                        p.1,
                        j + 1,
                    ) && view.owns(pids@, p)) by {
                    lemma_among_next(sessions.keys(), p.1, j as int);
                    assert(pair_views(listed).contains(p) <==> (among_first(
                        devices.keys(),
                        p.0,
                        i as int,
                    ) && view.owns(pids@, p)) || (p.0 == device_id@ && among_first(
                        sessions.keys(),
                        p.1,
                        j as int,
                    ) && view.owns(pids@, p)));
                    assert(pair_views(found@).contains(p) <==> pair_views(listed).contains(p) || (
                    owned && p == star));
                    assert(p == star <==> p.0 == device_id@ && p.1 == instance_id@);
                }
            }
            j += 1;
        }
        proof {
            assert forall|p: (Seq<char>, Seq<char>)| #[trigger]
                pair_views(found@).contains(p) <==> among_first(devices.keys(), p.0, i + 1)
                    && view.owns(pids@, p) by {
                lemma_among_next(devices.keys(), p.0, i as int);
                lemma_among_all(sessions.keys(), p.1);
            }
        }
        i += 1;
    }
    proof {
        devices.lemma_positions();
        assert forall|p: (Seq<char>, Seq<char>)|
            pair_views(found@).contains(p) <==> view.owns(pids@, p) by {
            lemma_among_all(devices.keys(), p.0);
            assert(pair_views(found@).contains(p) <==> among_first(devices.keys(), p.0, n as int)
                && view.owns(pids@, p));
        }
        assert(pair_views(found@).to_set() =~= view.owned_sessions(pids@));
    }
    found
}

/// The sessions that the process `pid` or one of its descendants owns, over
/// all devices, as pairs of device id and session instance id.
pub fn find_sessions_for_pid<M, S>(pid: u32, device_map: &DeviceMap<M, S>, table: &ProcessTable) -> (sessions:
    Vec<(String, String)>)
    ensures
        pair_views(sessions@).no_duplicates(),
        pair_views(sessions@).to_set() == device_map@.owned_sessions(tree(table@, pid)),
{
    let proc_and_children = pid_and_child_pids(pid, table);
    sessions_owned_by(device_map, &proc_and_children)
}

} // verus!
