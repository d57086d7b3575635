//! A point-in-time picture of the host's processes, and the walk from a
//! process to everything that descends from it.

use std::collections::HashSet;
use sysinfo::{ProcessRefreshKind, RefreshKind, System};
use vstd::prelude::*;
use vstd::std_specs::hash::*;
use crate::table::{lemma_index_of_unique, lemma_pairs, pairs_to_map, reversed};

verus! {

/// One process as the host reported it.
#[derive(Clone, Debug, PartialEq, Eq)]
pub struct ProcessEntry {
    pub pid: u32,
    pub parent: Option<u32>,
    pub name: String,
}

/// What the registry reads of a process: its parent link and its name.
pub struct ProcessView {
    pub parent: Option<u32>,
    pub name: Seq<char>,
}

impl View for ProcessEntry {
    type V = ProcessView;

    open spec fn view(&self) -> ProcessView {
        ProcessView { parent: self.parent, name: self.name@ }
    }
}

/// A snapshot of the process table: each process id occurs at most once.
#[derive(Debug)]
pub struct ProcessTable {
    entries: Vec<ProcessEntry>,
}

/// `pid` lies exactly `depth` parent links below `root`.
pub open spec fn descends(procs: Map<u32, ProcessView>, root: u32, pid: u32, depth: nat) -> bool
    decreases depth,
{
    if depth == 0 {
        pid == root
    } else {
        &&& procs.contains_key(pid)
        &&& procs[pid].parent is Some
        &&& descends(procs, root, procs[pid].parent->0, (depth - 1) as nat)
    }
}

/// `pid` is `root` itself or one of its descendants.
pub open spec fn in_tree(procs: Map<u32, ProcessView>, root: u32, pid: u32) -> bool {
    exists|depth: nat| descends(procs, root, pid, depth)
}

/// `root` together with all of its descendants.
pub open spec fn tree(procs: Map<u32, ProcessView>, root: u32) -> Set<u32> {
    Set::new(|pid: u32| in_tree(procs, root, pid))
}

/// Every listed child of a member of `found` that is not in `frontier` is
/// itself a member of `found`.
pub open spec fn closed_except(
    procs: Map<u32, ProcessView>,
    found: Set<u32>,
    frontier: Seq<u32>,
) -> bool {
    forall|pid: u32| #[trigger]
        procs.contains_key(pid) && procs[pid].parent is Some && found.contains(
            procs[pid].parent->0,
        ) && !frontier.contains(procs[pid].parent->0) ==> found.contains(pid)
}

/// A set that holds `root` and is closed under listed children holds the
/// whole tree below `root`.
pub proof fn lemma_closed_holds_tree(
    procs: Map<u32, ProcessView>,
    root: u32,
    found: Set<u32>,
    pid: u32,
    depth: nat,
)
    requires
        found.contains(root),
        closed_except(procs, found, Seq::<u32>::empty()),
        descends(procs, root, pid, depth),
    ensures
        found.contains(pid),
    decreases depth,
{
    if depth > 0 {
        lemma_closed_holds_tree(procs, root, found, procs[pid].parent->0, (depth - 1) as nat);
        assert(procs.contains_key(pid));
    }
}

/// The tree below a process holds that process, listed or not.
pub proof fn lemma_tree_holds_root(procs: Map<u32, ProcessView>, root: u32)
    ensures
        tree(procs, root).contains(root),
{
    assert(descends(procs, root, root, 0));
}

/// Whatever lies below `root` at some depth other than zero goes through a
/// listed child of `root`.
pub proof fn lemma_descent_has_child(procs: Map<u32, ProcessView>, root: u32, pid: u32, depth: nat)
    requires
        descends(procs, root, pid, depth),
        depth > 0,
    ensures
        exists|child: u32| #[trigger]
            procs.contains_key(child) && procs[child].parent == Some(root),
    decreases depth,
{
    if depth == 1 {
        assert(descends(procs, root, procs[pid].parent->0, 0));
        assert(procs.contains_key(pid) && procs[pid].parent == Some(root));
    } else {
        lemma_descent_has_child(procs, root, procs[pid].parent->0, (depth - 1) as nat);
    }
}

/// The tree below a process that no listed process names as its parent is
/// that process alone.
pub proof fn lemma_tree_of_childless(procs: Map<u32, ProcessView>, root: u32)
    requires
        forall|pid: u32| #[trigger] procs.contains_key(pid) ==> procs[pid].parent != Some(root),
    ensures
        tree(procs, root) == set![root],
{
    lemma_tree_holds_root(procs, root);
    assert forall|pid: u32| tree(procs, root).contains(pid) implies pid == root by {
        let depth = choose|depth: nat| descends(procs, root, pid, depth);
        if depth > 0 {
            lemma_descent_has_child(procs, root, pid, depth);
        }
    }
    assert(tree(procs, root) =~= set![root]);
}

/// A listed process belongs to the tree below `root` exactly when its parent
/// does, unless it is `root` itself.
pub proof fn lemma_tree_step(procs: Map<u32, ProcessView>, root: u32, pid: u32)
    requires
        pid != root,
    ensures
        tree(procs, root).contains(pid) <==> procs.contains_key(pid) && procs[pid].parent is Some
            && tree(procs, root).contains(procs[pid].parent->0),
{
    if tree(procs, root).contains(pid) {
        let depth = choose|depth: nat| descends(procs, root, pid, depth);
        assert(descends(procs, root, procs[pid].parent->0, (depth - 1) as nat));
    }
    if procs.contains_key(pid) && procs[pid].parent is Some && tree(procs, root).contains(
        procs[pid].parent->0,
    ) {
        let depth = choose|depth: nat| descends(procs, root, procs[pid].parent->0, depth);
        assert(descends(procs, root, pid, depth + 1));
    }
}

/// Lists the processes that run right now.
///
/// Calls sysinfo's `System::new_with_specifics` with a refresh kind that asks
/// for processes only, walks `System::processes`, and copies out of each
/// process its id, `Process::parent` and `Process::name`. Nothing is claimed
/// of what comes back: it is whatever the host reports at the moment of the
/// call.
#[verifier::external_body]
fn list_processes() -> (listed: Vec<ProcessEntry>) {
    let kind = RefreshKind::new().with_processes(ProcessRefreshKind::new());
    let system = System::new_with_specifics(kind);
    system.processes().iter().map(
        |(pid, process)|
            ProcessEntry {
                pid: pid.as_u32(),
                parent: process.parent().map(|parent| parent.as_u32()),
                name: process.name().to_string(),
            },
    ).collect()
}

/// Whether `pid` occurs in `list`.
fn list_contains(list: &Vec<u32>, pid: u32) -> (held: bool)
    ensures
        held == list@.contains(pid),
{
    let mut i: usize = 0;
    while i < list.len()
        invariant
            i <= list.len(),
            forall|j: int| 0 <= j < i ==> list@[j] != pid,
        decreases list.len() - i,
    {
        if list[i] == pid {
            return true;
        }
        i += 1;
    }
    false
}

impl ProcessTable {
    /// The process ids, in the order in which the entries are stored.
    pub closed spec fn pids(&self) -> Seq<u32> {
        Seq::new(self.entries@.len(), |i: int| self.entries@[i].pid)
    }

    /// What is known of each process, in the order of `pids`.
    pub closed spec fn infos(&self) -> Seq<ProcessView> {
        Seq::new(self.entries@.len(), |i: int| self.entries@[i]@)
    }

    /// No process id occurs twice.
    #[verifier::type_invariant]
    pub closed spec fn wf(&self) -> bool {
        self.pids().no_duplicates()
    }

    /// The snapshot as a map from process id to parent link and name.
    pub open spec fn view(&self) -> Map<u32, ProcessView> {
        pairs_to_map(self.pids(), self.infos())
    }

    /// What a well-formed snapshot's positions say about its view.
    pub proof fn lemma_positions(&self)
        requires
            self.wf(),
        ensures
            self.pids().len() == self.infos().len(),
            self.pids().no_duplicates(),
            self@.dom().finite(),
            self@.len() == self.pids().len(),
            forall|pid: u32| #[trigger] self@.contains_key(pid) <==> self.pids().contains(pid),
            forall|i: int|
                0 <= i < self.pids().len() ==> self@.contains_key(#[trigger] self.pids()[i])
                    && self@[self.pids()[i]] == self.infos()[i],
    {
        lemma_pairs(self.pids(), self.infos());
    }

    /// A snapshot without processes.
    pub fn new() -> (table: ProcessTable)
        ensures
            table@ == Map::<u32, ProcessView>::empty(),
    {
        let table = ProcessTable { entries: Vec::new() };
        assert(table@ =~= Map::<u32, ProcessView>::empty());
        table
    }

    /// Number of processes in the snapshot.
    pub fn len(&self) -> (n: usize)
        ensures
            n == self.pids().len(),
            n == self@.len(),
            self.wf(),
    {
        proof {
            use_type_invariant(self);
            self.lemma_positions();
        }
        self.entries.len()
    }

    /// The process stored at position `i`.
    pub fn entry_at(&self, i: usize) -> (entry: &ProcessEntry)
        requires
            i < self.pids().len(),
        ensures
            entry.pid == self.pids()[i as int],
            entry@ == self.infos()[i as int],
            self@.contains_key(entry.pid),
            self@[entry.pid] == entry@,
    {
        proof {
            use_type_invariant(self);
            self.lemma_positions();
        }
        &self.entries[i]
    }

    /// Position of `pid`, if the snapshot lists it.
    pub fn position(&self, pid: u32) -> (found: Option<usize>)
        ensures
            match found {
                Some(i) => i < self.pids().len() && self.pids()[i as int] == pid
                    && self@.contains_key(pid),
                None => !self@.contains_key(pid),
            },
    {
        proof {
            use_type_invariant(self);
            self.lemma_positions();
        }
        let mut i: usize = 0;
        while i < self.entries.len()
            invariant
                i <= self.entries.len(),
                self.wf(),
                self.entries@.len() == self.pids().len(),
                forall|j: int| 0 <= j < i ==> self.pids()[j] != pid,
            decreases self.entries.len() - i,
        {
            if self.entries[i].pid == pid {
                proof {
                    self.lemma_positions();
                }
                return Some(i);
            }
            i += 1;
        }
        None
    }

    /// The entry of `pid`, if the snapshot lists it.
    pub fn process(&self, pid: u32) -> (entry: Option<&ProcessEntry>)
        ensures
            match entry {
                Some(e) => self@.contains_key(pid) && e.pid == pid && self@[pid] == e@,
                None => !self@.contains_key(pid),
            },
    {
        match self.position(pid) {
            Some(i) => Some(self.entry_at(i)),
            None => None,
        }
    }

    /// Records a process, replacing what was known of the same process id.
    pub fn insert(&mut self, entry: ProcessEntry)
        ensures
            final(self)@ == old(self)@.insert(entry.pid, entry@),
    {
        proof {
            use_type_invariant(&*self);
            self.lemma_positions();
        }
        let ghost before = *self;
        let found = self.position(entry.pid);
        let mut entries: Vec<ProcessEntry> = Vec::new();
        core::mem::swap(&mut self.entries, &mut entries);
        match found {
            Some(i) => {
                entries.set(i, entry);
                proof {
                    let replaced = ProcessTable { entries };
                    assert(replaced.pids() =~= before.pids());
                    assert(replaced.infos() =~= before.infos().update(i as int, entry@));
                }
            },
            None => {
                entries.push(entry);
                proof {
                    let pushed = ProcessTable { entries };
                    assert(pushed.pids() =~= before.pids().push(entry.pid));
                    assert(pushed.infos() =~= before.infos().push(entry@));
                    assert(pushed.pids().no_duplicates());
                }
            },
        }
        self.entries = entries;
        proof {
            let pids = self.pids();
            self.lemma_positions();
            assert forall|pid: u32| self@.contains_key(pid) <==> (pid == entry.pid
                || before@.contains_key(pid)) by {
                if pids.contains(pid) {
                    let j = pids.index_of(pid);
                    if j < before.pids().len() {
                        assert(before.pids()[j] == pid);
                    }
                }
                if before.pids().contains(pid) {
                    let j = before.pids().index_of(pid);
                    assert(pids[j] == pid);
                }
                if pid == entry.pid {
                    match found {
                        Some(i) => {
                            assert(pids[i as int] == pid);
                        },
                        None => {
                            assert(pids[before.pids().len() as int] == pid);
                        },
                    }
                }
            }
            assert forall|pid: u32| self@.contains_key(pid) implies self@[pid] == (if pid
                == entry.pid {
                entry@
            } else {
                before@[pid]
            }) by {
                let j = pids.index_of(pid);
                lemma_index_of_unique(pids, j);
                if pid != entry.pid {
                    assert(before.pids()[j] == pid);
                    lemma_index_of_unique(before.pids(), j);
                }
            }
            assert(self@ =~= before@.insert(entry.pid, entry@));
        }
    }

    /// Takes a fresh snapshot of the processes that run right now.
    ///
    /// Nothing is promised of its contents beyond being a snapshot: where the
    /// host lists a process id twice, the later listing stands.
    pub fn snapshot() -> (table: ProcessTable)
        ensures
            table@.dom().finite(),
    {
        let listed = list_processes();
        let table = ProcessTable::from_entries(listed);
        proof {
            use_type_invariant(&table);
            table.lemma_positions();
        }
        table
    }

    /// The snapshot that holds the listed processes, later listings of a
    /// process id replacing earlier ones.
    pub fn from_entries(listed: Vec<ProcessEntry>) -> (table: ProcessTable)
        ensures
            table@ == listing_to_map(listed@),
    {
        let mut table = ProcessTable::new();
        let ghost all = listed@;
        let mut rest = reversed(listed);
        let ghost mut done: int = 0;
        while rest.len() > 0
            invariant
                done + rest@.len() == all.len(),
                forall|j: int| 0 <= j < rest@.len() ==> rest@[j] == all[all.len() - 1 - j],
                0 <= done,
                table@ == listing_to_map(all.subrange(0, done)),
            decreases rest.len(),
        {
            let entry = rest.pop().unwrap();
            proof {
                assert(entry == all[done]);
                assert(all.subrange(0, done + 1).drop_last() =~= all.subrange(0, done));
            }
            table.insert(entry);
            proof {
                done = done + 1;
            }
        }
        assert(all.subrange(0, done) =~= all);
        table
    }

    /// Name of the process `pid`, if the snapshot lists it.
    pub fn name_of(&self, pid: u32) -> (name: Option<String>)
        ensures
            match name {
                Some(n) => self@.contains_key(pid) && n@ == self@[pid].name,
                None => !self@.contains_key(pid),
            },
    {
        match self.process(pid) {
            Some(entry) => Some(entry.name.clone()),
            None => None,
        }
    }
}

/// The given process together with every process that descends from it.
///
/// The walk goes round by round: each round collects the listed processes
/// whose parent was discovered in the round before and that were not seen
/// yet, and it ends with the first round that discovers nothing. The root is
/// part of the result whether or not the snapshot lists it.
pub fn pid_and_child_pids(parent_pid: u32, table: &ProcessTable) -> (pids: HashSet<u32>)
    ensures
        pids@ == tree(table@, parent_pid),
{
    broadcast use group_hash_axioms;

    let n = table.len();
    let mut found: HashSet<u32> = HashSet::new();
    found.insert(parent_pid);
    let mut frontier: Vec<u32> = Vec::new();
    frontier.push(parent_pid);
    proof {
        table.lemma_positions();
        assert(descends(table@, parent_pid, parent_pid, 0));
        assert(frontier@.contains(parent_pid)) by {
            assert(frontier@[0] == parent_pid);
        }
    }
    while frontier.len() > 0
        invariant
            table.wf(),
            n == table.pids().len(),
            found@.finite(),
            found@.contains(parent_pid),
            forall|p: u32| found@.contains(p) ==> in_tree(table@, parent_pid, p),
            forall|k: int| 0 <= k < frontier@.len() ==> found@.contains(frontier@[k]),
            closed_except(table@, found@, frontier@),
        decreases table@.dom().difference(found@).len(), frontier@.len(),
    {
        let ghost found_start = found@;
        let ghost frontier_start = frontier@;
        let mut next: Vec<u32> = Vec::new();
        let mut i: usize = 0;
        proof {
            table.lemma_positions();
        }
        while i < n
            invariant
                i <= n,
                n == table.pids().len(),
                table.wf(),
                table@.dom().finite(),
                found@.finite(),
                frontier@ == frontier_start,
                found_start.subset_of(found@),
                forall|p: u32|
                    found@.contains(p) ==> found_start.contains(p) || next@.contains(p),
                forall|p: u32| found@.contains(p) ==> in_tree(table@, parent_pid, p),
                forall|k: int| 0 <= k < frontier@.len() ==> found_start.contains(frontier@[k]),
                forall|k: int| 0 <= k < next@.len() ==> found@.contains(next@[k]),
                forall|j: int|
                    0 <= j < i && (#[trigger] table.infos()[j]).parent is Some
                        && frontier@.contains(table.infos()[j].parent->0) ==> found@.contains(
                        table.pids()[j],
                    ),
                table@.dom().difference(found@).len() + next@.len() == table@.dom().difference(
                    found_start,
                ).len(),
            decreases n - i,
        {
            let entry = table.entry_at(i);
            match entry.parent {
                Some(parent) => {
                    if list_contains(&frontier, parent) && !found.contains(&entry.pid) {
                        let ghost before = found@;
                        let ghost listed = next@;
                        found.insert(entry.pid);
                        next.push(entry.pid);
                        proof {
                            let depth = choose|depth: nat|
                                descends(table@, parent_pid, parent, depth);
                            assert(descends(table@, parent_pid, entry.pid, depth + 1));
                            assert(table@.dom().difference(found@) =~= table@.dom().difference(
                                before,
                            ).remove(entry.pid));
                            assert(table@.dom().difference(before).contains(entry.pid));
                            assert forall|p: u32| found@.contains(p) implies found_start.contains(
                                p,
                            ) || next@.contains(p) by {
                                if p == entry.pid {
                                    assert(next@[listed.len() as int] == p);
                                } else if listed.contains(p) {
                                    let k = listed.index_of(p);
                                    assert(next@[k] == p);
                                }
                            }
                        }
                    }
                },
                None => {},
            }
            i += 1;
        }
        proof {
            table.lemma_positions();
            assert forall|pid: u32| #[trigger]
                table@.contains_key(pid) && table@[pid].parent is Some && found@.contains(
                    table@[pid].parent->0,
                ) && !next@.contains(table@[pid].parent->0) implies found@.contains(pid) by {
                let parent = table@[pid].parent->0;
                if frontier_start.contains(parent) {
                    let j = table.pids().index_of(pid);
                    lemma_index_of_unique(table.pids(), j);
                    assert(table.infos()[j] == table@[pid]);
                } else {
                    assert(found_start.contains(pid));
                }
            }
        }
        frontier = next;
    }
    proof {
        assert(frontier@ =~= Seq::<u32>::empty());
        assert forall|pid: u32| in_tree(table@, parent_pid, pid) implies found@.contains(pid) by {
            let depth = choose|depth: nat| descends(table@, parent_pid, pid, depth);
            lemma_closed_holds_tree(table@, parent_pid, found@, pid, depth);
        }
        assert(found@ =~= tree(table@, parent_pid));
    }
    found
}

/// The map a listing stands for when later entries replace earlier ones.
pub open spec fn listing_to_map(listed: Seq<ProcessEntry>) -> Map<u32, ProcessView>
    decreases listed.len(),
{
    if listed.len() == 0 {
        Map::empty()
    } else {
        listing_to_map(listed.drop_last()).insert(listed.last().pid, listed.last()@)
    }
}

} // verus!
