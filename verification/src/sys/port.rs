//! Which process owns a listening port.
//!
//! The answer is computed from a snapshot of two tables of the host: the TCP
//! sockets with their local ports, and the sockets that each process holds.
//! Reading the tables is the caller's part; a snapshot is a moment, and the
//! host may have moved on by the time the answer is used.

use vstd::prelude::*;

verus! {

/// A TCP socket of the host.
#[derive(Clone, Copy, Debug, PartialEq, Eq, Structural)]
pub struct TcpEntry {
    /// The port the socket is bound to.
    pub local_port: u16,
    /// The inode by which the socket is known to the processes that hold it.
    pub inode: u64,
}

/// The sockets that one process holds.
#[derive(Clone, Debug, PartialEq, Eq)]
pub struct ProcessSockets {
    /// The process's id.
    pub pid: u32,
    /// The inodes of the sockets among the process's open files.
    pub inodes: Vec<u64>,
}

/// Why a port has no owner to name.
#[derive(Clone, Copy, Debug, PartialEq, Eq, Structural)]
pub enum ResolveError {
    /// No process is bound to the port.
    NotFound,
    /// More than one process is bound to the port.
    AmbiguousOwner,
}

/// Some socket bound to `port` is known by `inode`.
pub open spec fn listens_on(sockets: Seq<TcpEntry>, port: u16, inode: u64) -> bool {
    exists|s: int|
        0 <= s < sockets.len() && (#[trigger] sockets[s]).local_port == port && sockets[s].inode
            == inode
}

/// The process holds a socket bound to `port`.
pub open spec fn holds_port(process: ProcessSockets, sockets: Seq<TcpEntry>, port: u16) -> bool {
    exists|k: int|
        0 <= k < process.inodes@.len() && listens_on(sockets, port, #[trigger] process.inodes@[k])
}

/// Some process with this id holds a socket bound to `port`.
pub open spec fn owns(
    port: u16,
    sockets: Seq<TcpEntry>,
    processes: Seq<ProcessSockets>,
    pid: u32,
) -> bool {
    exists|p: int|
        0 <= p < processes.len() && (#[trigger] processes[p]).pid == pid && holds_port(
            processes[p],
            sockets,
            port,
        )
}

/// The ids of the processes bound to `port`. A process that holds several
/// sockets on the port counts once.
pub open spec fn owners(port: u16, sockets: Seq<TcpEntry>, processes: Seq<ProcessSockets>) -> Set<
    u32,
> {
    Set::new(|pid: u32| owns(port, sockets, processes, pid))
}

/// `pid` is in the set and nothing else is.
pub open spec fn sole(owners: Set<u32>, pid: u32) -> bool {
    owners.contains(pid) && forall|q: u32| owners.contains(q) ==> q == pid
}

/// The owner that a set of process ids names: its only member. An empty set
/// names none, and neither does one with two members or more.
pub open spec fn resolution(owners: Set<u32>) -> Result<u32, ResolveError> {
    if forall|q: u32| !owners.contains(q) {
        Err(ResolveError::NotFound)
    } else if exists|p: u32| sole(owners, p) {
        Ok(choose|p: u32| sole(owners, p))
    } else {
        Err(ResolveError::AmbiguousOwner)
    }
}

/// What `resolution` returns, case by case: the single member of a set of
/// one, `NotFound` for the empty set, `AmbiguousOwner` as soon as two
/// different ids are in the set.
pub proof fn lemma_resolution(owners: Set<u32>)
    ensures
        forall|pid: u32| resolution(owners) == Ok::<u32, ResolveError>(pid) <==> sole(owners, pid),
        resolution(owners) == Err::<u32, ResolveError>(ResolveError::NotFound) <==> (forall|q: u32|
            !owners.contains(q)),
        resolution(owners) == Err::<u32, ResolveError>(ResolveError::AmbiguousOwner) <==> (exists|
            p: u32,
            q: u32,
        |
            owners.contains(p) && owners.contains(q) && p != q),
{
    if forall|q: u32| !owners.contains(q) {
    } else if exists|p: u32| sole(owners, p) {
        let found = choose|p: u32| sole(owners, p);
        assert(owners.contains(found));
    } else {
        let p = choose|p: u32| owners.contains(p);
        assert(!sole(owners, p));
        let q = choose|q: u32| owners.contains(q) && q != p;
        assert(owners.contains(p) && owners.contains(q) && p != q);
    }
}

/// Names the owner among process ids that were each reported for one port, be
/// it by the socket tables or by a lookup tool. An id reported more than once
/// counts once.
pub fn resolve_owner(candidates: &Vec<u32>) -> (r: Result<u32, ResolveError>)
    ensures
        r == resolution(candidates@.to_set()),
{
    let ghost set = candidates@.to_set();
    if candidates.len() == 0 {
        assert forall|q: u32| !set.contains(q) by {
            if set.contains(q) {
                assert(candidates@.contains(q));
            }
        }
        return Err(ResolveError::NotFound);
    }
    let first = candidates[0];
    assert(candidates@.contains(first));
    assert(set.contains(first));
    let mut i: usize = 1;
    while i < candidates.len()
        invariant
            1 <= i <= candidates.len(),
            first == candidates@[0],
            set == candidates@.to_set(),
            set.contains(first),
            forall|j: int| 0 <= j < i ==> candidates@[j] == first,
        decreases candidates.len() - i,
    {
        if candidates[i] != first {
            let ghost other = candidates@[i as int];
            assert(candidates@.contains(other));
            assert(set.contains(other));
            assert(!sole(set, first));
            assert forall|p: u32| !sole(set, p) by {
                if sole(set, p) {
                    assert(first == p);
                }
            }
            return Err(ResolveError::AmbiguousOwner);
        }
        i += 1;
    }
    assert forall|q: u32| set.contains(q) implies q == first by {
        assert(candidates@.contains(q));
    }
    assert(sole(set, first));
    let ghost chosen = choose|p: u32| sole(set, p);
    assert(chosen == first);
    Ok(first)
}

/// Whether some socket bound to `port` is known by `inode`.
fn socket_listens(sockets: &Vec<TcpEntry>, port: u16, inode: u64) -> (r: bool)
    ensures
        r == listens_on(sockets@, port, inode),
{
    let mut s: usize = 0;
    while s < sockets.len()
        invariant
            s <= sockets.len(),
            forall|j: int|
                0 <= j < s ==> !((#[trigger] sockets@[j]).local_port == port && sockets@[j].inode
                    == inode),
        decreases sockets.len() - s,
    {
        if sockets[s].local_port == port && sockets[s].inode == inode {
            return true;
        }
        s += 1;
    }
    false
}

/// Whether the process holds a socket bound to `port`.
fn process_holds(process: &ProcessSockets, sockets: &Vec<TcpEntry>, port: u16) -> (r: bool)
    ensures
        r == holds_port(*process, sockets@, port),
{
    let mut k: usize = 0;
    while k < process.inodes.len()
        invariant
            k <= process.inodes.len(),
            forall|j: int|
                0 <= j < k ==> !listens_on(sockets@, port, #[trigger] process.inodes@[j]),
        decreases process.inodes.len() - k,
    {
        if socket_listens(sockets, port, process.inodes[k]) {
            return true;
        }
        k += 1;
    }
    false
}

/// Finds the process that is bound to a TCP port, given the host's TCP sockets
/// and the sockets that each process holds.
///
/// The port has an owner if exactly one process id holds a socket bound to it.
/// If none does the result is `NotFound`, if several do it is
/// `AmbiguousOwner`.
pub fn get_pid_by_port(port: u16, sockets: &Vec<TcpEntry>, processes: &Vec<ProcessSockets>) -> (r:
    Result<u32, ResolveError>)
    ensures
        r == resolution(owners(port, sockets@, processes@)),
{
    let mut candidates: Vec<u32> = Vec::new();
    let mut p: usize = 0;
    while p < processes.len()
        invariant
            p <= processes.len(),
            forall|pid: u32|
                candidates@.contains(pid) <==> owns(
                    port,
                    sockets@,
                    processes@.subrange(0, p as int),
                    pid,
                ),
        decreases processes.len() - p,
    {
        let ghost before = processes@.subrange(0, p as int);
        let ghost after = processes@.subrange(0, p + 1);
        let ghost listed = candidates@;
        let holds = process_holds(&processes[p], sockets, port);
        if holds {
            candidates.push(processes[p].pid);
        }
        proof {
            let here = processes@[p as int];
            assert forall|pid: u32| candidates@.contains(pid) <==> owns(
                port,
                sockets@,
                after,
                pid,
            ) by {
                if owns(port, sockets@, after, pid) {
                    let w = choose|w: int|
                        0 <= w < after.len() && (#[trigger] after[w]).pid == pid && holds_port(
                            after[w],
                            sockets@,
                            port,
                        );
                    if w < p {
                        assert(before[w] == after[w]);
                        assert(owns(port, sockets@, before, pid));
                        assert(listed.contains(pid));
                        let at = choose|at: int| 0 <= at < listed.len() && listed[at] == pid;
                        assert(candidates@[at] == pid);
                    } else {
                        assert(after[w] == here);
                        assert(holds);
                        assert(candidates@[candidates@.len() - 1] == pid);
                    }
                }
                if candidates@.contains(pid) {
                    let at = choose|at: int| 0 <= at < candidates@.len() && candidates@[at] == pid;
                    if at < listed.len() {
                        assert(listed[at] == pid);
                        assert(listed.contains(pid));
                        assert(owns(port, sockets@, before, pid));
                        let w = choose|w: int|
                            0 <= w < before.len() && (#[trigger] before[w]).pid == pid
                                && holds_port(before[w], sockets@, port);
                        assert(after[w] == before[w]);
                    } else {
                        assert(holds && pid == here.pid);
                        assert(after[p as int] == here);
                    }
                }
            }
        }
        p += 1;
    }
    assert(processes@.subrange(0, processes.len() as int) =~= processes@);
    assert(candidates@.to_set() =~= owners(port, sockets@, processes@));
    resolve_owner(&candidates)
}

/// What was observed of the host for one run: the ports that a probe found
/// free, the TCP sockets, and the sockets of each process.
///
/// A port is found free by binding a throwaway listener to it on the loopback
/// address and releasing it at once. A port on which that succeeded is in
/// nobody's use, whatever the tables say.
#[derive(Clone, Debug, PartialEq, Eq)]
pub struct NetworkEnvironment {
    /// The ports that the probe could bind.
    pub free_ports: Vec<u16>,
    /// The host's TCP sockets.
    pub sockets: Vec<TcpEntry>,
    /// The sockets that each process holds.
    pub processes: Vec<ProcessSockets>,
}

impl NetworkEnvironment {
    /// The probe could bind the port.
    pub open spec fn is_free(&self, port: u16) -> bool {
        self.free_ports@.contains(port)
    }

    /// The owner of the port by the tables.
    pub open spec fn owner(&self, port: u16) -> Result<u32, ResolveError> {
        resolution(owners(port, self.sockets@, self.processes@))
    }

    /// Whether the probe could bind the port.
    pub fn port_is_free(&self, port: u16) -> (r: bool)
        ensures
            r == self.is_free(port),
    {
        let mut i: usize = 0;
        while i < self.free_ports.len()
            invariant
                i <= self.free_ports.len(),
                forall|j: int| 0 <= j < i ==> self.free_ports@[j] != port,
            decreases self.free_ports.len() - i,
        {
            if self.free_ports[i] == port {
                return true;
            }
            i += 1;
        }
        false
    }

    /// Finds the process that is bound to the port.
    pub fn owner_of(&self, port: u16) -> (r: Result<u32, ResolveError>)
        ensures
            r == self.owner(port),
    {
        get_pid_by_port(port, &self.sockets, &self.processes)
    }
}

} // verus!
